//! Bundled `STPhrases` dictionary: entries `source<TAB>replacement`, one per line.

use vstd::prelude::*;

verus! {

/// Part 0 of the text.
pub const ST_PHRASES_0: &'static str = "㓦划\t㓦劃\n一下里面\t一下裡面\n一丝不挂\t一絲不掛\n一了心愿\t一了心願\n一了百了\t一了百了\n一了百当\t一了百當\n一争两丑\t一爭兩醜\n一伙\t一夥\n一伙人\t一夥人\n一伙头\t一夥頭\n一偿宿愿\t一償宿願\n一元复始\t一元復始\n一克\t一克\n一党\t一黨\n一冲性子\t一沖性子\n一准\t一準\n一出\t一齣\n一出剧\t一齣劇\n一出剧场\t一出劇場\n一出剧院\t一出劇院\n一出去\t一出去\n一出场\t一出場\n一出城\t一出城\n一出声\t一出聲\n一出子\t一齣子\n一出戏\t一齣戲\n一出戏院\t一出戲院\n一出机场\t一出機場\n一出来\t一出來\n一出生\t一出生\n一出电影院\t一出電影院\n一出祁山\t一出祁山\n一出道\t一出道\n一分收获\t一分收穫\n一分耕耘\t一分耕耘\n一分钟\t一分鐘\n一划\t一劃\n一别\t一別\n一别多年\t一別多年\n一别头\t一彆頭\n一刻千金\t一刻千金\n一前一后\t一前一後\n一力承当\t一力承當\n一半里\t一半裡\n一卷\t一卷\n一厘一毫\t一釐一毫\n一厢情愿\t一廂情願\n一去不回\t一去不回\n一去不复\t一去不復\n一去不复返\t一去不復返\n一发\t一發\n一发之差\t一髮之差\n一发之间\t一髮之間\n一发千钧\t一髮千鈞\n一口钟\t一口鐘\n一只\t一隻\n一台\t一臺\n一台台\t一臺臺\n一叶\t一葉\n一叶兰\t一葉蘭\n一叶扁舟\t一葉扁舟\n一叶知秋\t一葉知秋\n一号木杆\t一號木桿\n一吊\t一吊\n一吊钱\t一吊錢\n一同\t一同\n一向\t一向\n一周\t一週\n一周天\t一周天\n一周年\t一週年\n一周遭\t一周遭\n一哄\t一鬨\n一哄而上\t一鬨而上\n一哄而散\t一鬨而散\n一哄而起\t一鬨而起\n一哄而集\t一鬨而集\n一喊出\t一喊出\n一回\t一回\n一回事\t一回事\n一团\t一團\n一团和气\t一團和氣\n一团团\t一團團\n一团漆黑\t一團漆黑\n一团火\t一團火\n一团糟\t一團糟\n一国两制\t一國兩制\n一地胡拿\t一地胡拿\n一地里\t一地裡\n一块面\t一塊麵\n一坛\t一罈\n一坛坛\t一罈罈\n一坛死水\t一壇死水\n一塌糊涂\t一塌糊塗\n一壶千金\t一壺千金\n一夜致富\t一夜致富\n一大伙\t一大夥\n一天后\t一天後\n一天星斗\t一天星斗\n一天钟\t一天鐘\n一夫一妻\t一夫一妻\n一夫当关\t一夫當關\n一妻制\t一妻制\n一妻多夫\t一妻多夫\n一孔出气\t一孔出氣\n一字一板\t一字一板\n一字千金\t一字千金\n一寸秋波\t一寸秋波\n一将功成\t一將功成\n一展长才\t一展長才\n一干\t一干\n一干二净\t一乾二淨\n一干人\t一干人\n一干家中\t一干家中\n一干弟兄\t一干弟兄\n一干弟子\t一干弟子\n一干而尽\t一乾而盡\n一干部下\t一干部下\n一并\t一併\n一幻拉面\t一幻拉麵\n一开出来\t一開出來\n一弦\t一弦\n一当\t一當\n一径\t一逕\n一心向上\t一心向上\n一念\t一念\n一念三千\t一念三千\n一扎\t一紮\n一托头\t一托頭\n一托气\t一托氣\n一扣\t一扣\n一折\t一折\n一折一磨\t一折一磨\n一折两段\t一折兩段\n一折八扣\t一折八扣\n一拍即合\t一拍即合\n一挂\t一掛\n一挂之下\t一掛之下\n一掷千金\t一擲千金\n一掷百万\t一擲百萬\n一搜\t一搜\n一摇一摆\t一搖一擺\n一摇三摆\t一搖三擺\n一播出\t一播出\n一斗\t一斗\n一斗再斗\t一鬥再鬥\n一斗斗\t一斗斗\n一方面\t一方面\n一无所获\t一無所獲\n一日万机\t一日萬機\n一日三秋\t一日三秋\n一日千里\t一日千里\n一日叫娘\t一日叫娘\n一早起了\t一早起了\n一时糊涂\t一時糊塗\n一曲\t一曲\n一曲千金\t一曲千金\n一曲阳关\t一曲陽關\n一本万利\t一本萬利\n一杆\t一杆\n一杆进洞\t一桿進洞\n一杠\t一槓\n一杯\t一杯\n一杯杯\t一杯杯\n一杯羹\t一杯羹\n一松\t一鬆\n一板\t一板\n一板一眼\t一板一眼\n一板三眼\t一板三眼\n一柜\t一櫃\n一树百获\t一樹百穫\n一根烟\t一根菸\n一死了之\t一死了之\n一毫一发\t一毫一髮\n一池秋水\t一池秋水\n一沐三捉发\t一沐三捉髮\n一沐三握发\t一沐三握髮\n一波三折\t一波三折\n一泻千里\t一瀉千里\n一派胡言\t一派胡言\n一流人才\t一流人才\n一涂\t一塗\n一游\t一遊\n一溜烟\t一溜煙\n一点钟\t一點鐘\n一片海里\t一片海裡\n一物一制\t一物一制\n一物克一物\t一物剋一物\n一百多万\t一百多萬\n一百廿万\t一百廿萬\n一目了然\t一目瞭然\n一直\t一直\n一相情愿\t一相情願\n一看出\t一看出\n一碗面\t一碗麵\n一碧万顷\t一碧萬頃\n一禾九穗\t一禾九穗\n一种\t一種\n一秒钟\t一秒鐘\n一穗三秀\t一穗三秀\n一笑了之\t一笑了之\n一笑千金\t一笑千金\n一笔划\t一筆劃\n一答一合\t一答一合\n一签\t一簽\n一箭之仇\t一箭之仇\n一箭双雕\t一箭雙鵰\n一粥面\t一粥麵\n一系\t一系\n一系列\t一系列\n一统志\t一統志\n一网打尽\t一網打盡\n一翻出\t一翻出\n一胎制\t一胎制\n一至于此\t一至於此\n一致\t一致\n一致字\t一致字\n一致性\t一致性\n一致百虑\t一致百慮\n一般等价\t一般等價\n一落千丈\t一落千丈\n一表\t一表\n一表人才\t一表人才\n一表人材\t一表人材\n一表人物\t一表人物\n一表非俗\t一表非俗\n一表非凡\t一表非凡\n一见钟情\t一見鍾情\n一见面\t一見面\n一视同仁\t一視同仁\n一览表\t一覽表\n一触即发\t一觸即發\n一言不发\t一言不發\n一言不合\t一言不合\n一言千金\t一言千金\n一言已定千金不移\t一言已定千金不移\n一言既出\t一言既出\n一言既出驷马难追\t一言既出駟馬難追\n一言难尽\t一言難盡\n一讲出\t一講出\n一语不发\t一語不發\n一说出\t一說出\n一诺值千金\t一諾值千金\n一诺千金\t一諾千金\n一败涂地\t一敗塗地\n一赞\t一讚\n一走了之\t一走了之\n一起干\t一起幹\n一蹴可几\t一蹴可幾\n一身作事一身当\t一身作事一身當\n一轨同风\t一軌同風\n一辞莫赞\t一辭莫贊\n一递里\t一遞裡\n一逞兽欲\t一逞獸慾\n一道烟\t一道煙\n一醉解千愁\t一醉解千愁\n一里\t一里\n一里一外\t一裡一外\n一针\t一針\n一针见血\t一針見血\n一锅面\t一鍋麵\n一锹掘个井\t一鍬掘個井\n一院制\t一院制\n一雨成秋\t一雨成秋\n一面\t一面\n一面之交\t一面之交\n一面之缘\t一面之緣\n一面之识\t一面之識\n一面之词\t一面之詞\n一面之辞\t一面之辭\n一面之雅\t一面之雅\n一面倒\t一面倒\n一面儿官司\t一面兒官司\n一面如旧\t一面如舊\n一面点\t一面點\n一飞冲天\t一飛沖天\n一食万钱\t一食萬錢\n一饭千金\t一飯千金\n一饮而尽\t一飲而盡\n一马当先\t一馬當先\n一麾出守\t一麾出守\n一鼓一板\t一鼓一板\n一鼻孔出气\t一鼻孔出氣\n一龙生九种种种各别\t一龍生九種種種各別\n丁一确二\t丁一確二\n丁丁冬冬\t丁丁冬冬\n丁丁当\t叮叮噹\n丁丁当当\t叮叮噹噹\n丁丑\t丁丑\n丁伯升\t丁伯升\n丁克\t丁克\n丁冬\t丁冬\n丁固生松\t丁固生松\n丁娘十索\t丁娘十索\n丁字梁\t丁字梁\n丁当\t叮噹\n丁柏升\t丁柏升\n丁种\t丁種\n丁种维生素\t丁種維生素\n丁里\t丁里\n丁铃当啷\t丁鈴噹啷\n丁零当啷\t丁零噹啷\n丁鸿志\t丁鴻志\n七万\t七萬\n七万三千\t七萬三千\n七万五千\t七萬五千\n七万八千\t七萬八千\n";

/// Part 1 of the text.
pub const ST_PHRASES_1: &'static str = "七万六千\t七萬六千\n七万四千\t七萬四千\n七个\t七個\n七个八个\t七個八個\n七了八当\t七了八當\n七余\t七餘\n七八下里\t七八下裡\n七出\t七出\n七出戏\t七齣戲\n七出祁山\t七出祁山\n七分钟\t七分鐘\n七划\t七劃\n七十七万\t七十七萬\n七十七国集团\t七十七國集團\n七十五万\t七十五萬\n七千\t七千\n七千两百\t七千兩百\n七发\t七發\n七只\t七隻\n七台\t七臺\n七台河\t七臺河\n七台河市\t七臺河市\n七叶胆\t七葉膽\n七周\t七週\n七回\t七回\n七团\t七團\n七国集团\t七國集團\n七坛\t七罈\n七天后\t七天後\n七娘\t七娘\n七娘妈\t七娘媽\n七孔生烟\t七孔生煙\n七巧板\t七巧板\n七弦\t七絃\n七彩\t七彩\n七彩缤纷\t七彩繽紛\n七彩虹\t七彩虹\n七情六欲\t七情六慾\n七扎\t七紮\n七折\t七折\n七折八扣\t七折八扣\n七政四余\t七政四餘\n七星坛\t七星壇\n七星岩\t七星巖\n七星板\t七星板\n七星瓢虫\t七星瓢蟲\n七杯\t七杯\n七步之才\t七步之才\n七步奇才\t七步奇才\n七点钟\t七點鐘\n七百万\t七百萬\n七百多万\t七百多萬\n七种\t七種\n七秒钟\t七秒鐘\n七窍冒烟\t七竅冒煙\n七窍生烟\t七竅生煙\n七色板\t七色板\n七里\t七里\n七里河\t七里河\n七里河区\t七里河區\n七里香\t七里香\n万一\t萬一\n万一只\t萬一只\n万万\t萬萬\n万万不可\t萬萬不可\n万万千千\t萬萬千千\n万万岁\t萬萬歲\n万丈\t萬丈\n万丈光芒\t萬丈光芒\n万丈深渊\t萬丈深淵\n万丈竿头\t萬丈竿頭\n万丈红尘\t萬丈紅塵\n万丈高楼平地起\t萬丈高樓平地起\n万不及一\t萬不及一\n万不可失\t萬不可失\n万不失一\t萬不失一\n万不得已\t萬不得已\n万世\t萬世\n万世一时\t萬世一時\n万世师表\t萬世師表\n万个\t萬個\n万丰\t萬豐\n万丹\t萬丹\n万丹乡\t萬丹鄉\n万乘\t萬乘\n万乘之国\t萬乘之國\n万乘之尊\t萬乘之尊\n万事\t萬事\n万事亨通\t萬事亨通\n万事俱备只欠东风\t萬事俱備只欠東風\n万事具备\t萬事具備\n万事大吉\t萬事大吉\n万事如意\t萬事如意\n万事得\t萬事得\n万事皆从急中错\t萬事皆從急中錯\n万事皆休\t萬事皆休\n万事皆备\t萬事皆備\n万事起头难\t萬事起頭難\n万事达\t萬事達\n万事达卡\t萬事達卡\n万事通\t萬事通\n万人\t萬人\n万人之敌\t萬人之敵\n万人坑\t萬人坑\n万人敌\t萬人敵\n万人空巷\t萬人空巷\n万人迷\t萬人迷\n万仞\t萬仞\n万代\t萬代\n万代一时\t萬代一時\n万代兰\t萬代蘭\n万代千秋\t萬代千秋\n万份\t萬份\n万众\t萬眾\n万众一心\t萬眾一心\n万众欢腾\t萬眾歡騰\n万众瞩目\t萬眾矚目\n万位\t萬位\n万余\t萬餘\n万余只\t萬餘隻\n万余里\t萬餘里\n万俟\t万俟\n万倍\t萬倍\n万儿\t萬兒\n万儿八千\t萬兒八千\n万元\t萬元\n万元户\t萬元戶\n万全\t萬全\n万全之策\t萬全之策\n万全之计\t萬全之計\n万全县\t萬全縣\n万全街\t萬全街\n万兽之王\t萬獸之王\n万几\t萬幾\n万分\t萬分\n万分之一\t萬分之一\n万分感激\t萬分感激\n万分痛苦\t萬分痛苦\n万别千差\t萬別千差\n万剐千刀\t萬剮千刀\n万劫\t萬劫\n万劫不复\t萬劫不復\n万千\t萬千\n万华\t萬華\n万华区\t萬華區\n万华站\t萬華站\n万博宣伟\t萬博宣偉\n万博省\t萬博省\n万卷\t萬卷\n万卷书\t萬卷書\n万历\t萬曆\n万县\t萬縣\n万县地区\t萬縣地區\n万县市\t萬縣市\n万县港\t萬縣港\n万变不离其宗\t萬變不離其宗\n万古\t萬古\n万古不灭\t萬古不滅\n万古千秋\t萬古千秋\n万古流芳\t萬古流芳\n万古留芳\t萬古留芳\n万古长新\t萬古長新\n万古长春\t萬古長春\n万古长青\t萬古長青\n万只\t萬隻\n万叶\t萬葉\n万名\t萬名\n万向节\t萬向節\n万国\t萬國\n万国公报\t萬國公報\n万国公法\t萬國公法\n万国宫\t萬國宮\n万国旗\t萬國旗\n万国码\t萬國碼\n万国邮联\t萬國郵聯\n万国音标\t萬國音標\n万圆\t萬圓\n万圣节\t萬聖節\n万坛\t萬罈\n万境归空\t萬境歸空\n万壑\t萬壑\n万壑争流\t萬壑爭流\n万天后\t萬天後\n万夫\t萬夫\n万夫不当\t萬夫不當\n万夫莫当\t萬夫莫當\n万夫莫敌\t萬夫莫敵\n万头攒动\t萬頭攢動\n万姓\t萬姓\n万姓统谱\t萬姓統譜\n万字\t萬字\n万宁市\t萬寧市\n万安\t萬安\n万安县\t萬安縣\n万宝华\t萬寶華\n万宝囊\t萬寶囊\n万宝常\t萬寶常\n万宝路\t萬寶路\n万家\t萬家\n万家乐\t萬家樂\n万家灯火\t萬家燈火\n万家生佛\t萬家生佛\n万家香\t萬家香\n万寿\t萬壽\n万寿千秋\t萬壽千秋\n万寿山\t萬壽山\n万寿无疆\t萬壽無疆\n万寿果\t萬壽果\n万寿菊\t萬壽菊\n万山\t萬山\n万山特区\t萬山特區\n万山镇\t萬山鎮\n万岁\t萬歲\n万岁千秋\t萬歲千秋\n万岁爷\t萬歲爺\n万峦\t萬巒\n万峦乡\t萬巒鄉\n万州区\t萬州區\n万年\t萬年\n万年历\t萬年曆\n万年历表\t萬年曆錶\n万年县\t萬年縣\n万年青\t萬年青\n万幸\t萬幸\n万念\t萬念\n万念俱灰\t萬念俱灰\n万急\t萬急\n万恩市\t萬恩市\n万恶\t萬惡\n万恶之源\t萬惡之源\n万恶之首\t萬惡之首\n万恶淫为首\t萬惡淫為首\n万恶滔天\t萬惡滔天\n万户\t萬戶\n万户侯\t萬戶侯\n万户千门\t萬戶千門\n万扎\t萬紮\n万把\t萬把\n万把块\t萬把塊\n万斛泉源\t萬斛泉源\n万斤\t萬斤\n万斯同\t萬斯同\n万方\t萬方\n万旗\t万旗\n万无\t萬無\n万无一失\t萬無一失\n万无失一\t萬無失一\n万智牌\t萬智牌\n万有\t萬有\n万有引力\t萬有引力\n万有引力定律\t萬有引力定律\n万望\t萬望\n万机\t萬機\n万杞良\t萬杞良\n万柏林\t萬柏林\n万柏林区\t萬柏林區\n万桶\t萬桶\n万步\t萬步\n万步表\t萬步表\n万死\t萬死\n万死一生\t萬死一生\n万死不辞\t萬死不辭\n万段\t萬段\n万毒枯\t萬毒枯\n万民伞\t萬民傘\n万水千山\t萬水千山\n万沙浪\t萬沙浪\n万泉河\t萬泉河\n万法唯识\t萬法唯識\n万泰银\t萬泰銀\n万洋山\t萬洋山\n万源市\t萬源市\n万灵丹\t萬靈丹\n万灵节\t萬靈節\n万灵药\t萬靈藥\n万点\t萬點\n万点大关\t萬點大關\n万物\t萬物\n万物之灵\t萬物之靈\n万状\t萬狀\n万用\t萬用\n万用字元\t萬用字元\n万用手册\t萬用手冊\n万用电表\t萬用電表\n万用表\t萬用表\n万盛\t萬盛\n万盛区\t萬盛區\n万盛溪\t萬盛溪\n万目睽睽\t萬目睽睽\n万石\t萬石\n万福\t萬福\n万福玛丽亚\t萬福瑪麗亞\n万秀区\t萬秀區\n万种\t萬種\n万种风情\t萬種風情\n万窍\t萬竅\n万端\t萬端\n万签插架\t萬籤插架\n万箭攒心\t萬箭攢心\n万箭穿心\t萬箭穿心\n万箭穿身\t萬箭穿身\n万箱\t萬箱\n万籁\t萬籟\n万籁俱寂\t萬籟俱寂\n万籁无声\t萬籟無聲\n万米\t萬米\n万米长跑\t萬米長跑\n万紫千红\t萬紫千紅\n万红千紫\t萬紅千紫\n万绪千头\t萬緒千頭\n万绪千端\t萬緒千端\n万绿丛中\t萬綠叢中\n万缕千丝\t萬縷千絲\n万缘\t萬緣\n万能\t萬能\n万能工专\t萬能工專\n万能曲尺\t萬能曲尺\n万能梗\t萬能梗\n万能梗犬\t萬能梗犬\n万能胶\t萬能膠\n万能选手\t萬能選手\n万能钥匙\t萬能鑰匙\n万能锅\t萬能鍋\n万般\t萬般\n万般皆下品\t萬般皆下品\n万般皆是命\t萬般皆是命\n万艾可\t萬艾可\n万花争艳\t萬花爭艷\n万花筒\t萬花筒\n万苦千辛\t萬苦千辛\n万荣乡\t萬榮鄉\n万荣县\t萬榮縣\n";

/// Part 2 of the text.
pub const ST_PHRASES_2: &'static str = "万虑俱清\t萬慮俱清\n万言\t萬言\n万言书\t萬言書\n万语千言\t萬語千言\n万象\t萬象\n万象包罗\t萬象包羅\n万象更新\t萬象更新\n万象森罗\t萬象森羅\n万贯\t萬貫\n万贯家产\t萬貫家產\n万贯家私\t萬貫家私\n万贯家财\t萬貫家財\n万载千秋\t萬載千秋\n万载县\t萬載縣\n万道\t萬道\n万那杜\t萬那杜\n万邦\t萬邦\n万部\t萬部\n万里\t萬里\n万里之望\t萬里之望\n万里乡\t萬里鄉\n万里侯\t萬里侯\n万里同风\t萬里同風\n万里封侯\t萬里封侯\n万里无云\t萬里無雲\n万里春愁直\t萬里春愁直\n万里晴空\t萬里晴空\n万里江山\t萬里江山\n万里迢迢\t萬里迢迢\n万里追踪\t萬里追蹤\n万里长城\t萬里長城\n万里长征\t萬里長征\n万里长江\t萬里長江\n万里长空\t萬里長空\n万里鹏程\t萬里鵬程\n万里鹏翼\t萬里鵬翼\n万重\t萬重\n万重山\t萬重山\n万金\t萬金\n万金不换\t萬金不換\n万金之躯\t萬金之軀\n万金油\t萬金油\n万钧\t萬鈞\n万钧之力\t萬鈞之力\n万锺\t萬鍾\n万难\t萬難\n万顷\t萬頃\n万顷琉璃\t萬頃琉璃\n万顷碧波\t萬頃碧波\n万馀\t萬餘\n万马\t萬馬\n万马千军\t萬馬千軍\n万马奔腾\t萬馬奔騰\n万马皆瘖\t萬馬皆瘖\n万马齐喑\t萬馬齊喑\n万马齐瘖\t萬馬齊瘖\n万鸦老\t萬鴉老\n万齐融\t萬齊融\n丈余\t丈餘\n丈八灯台\t丈八燈臺\n丈母娘\t丈母娘\n三万\t三萬\n三个\t三個\n三个鼻子管\t三個鼻子管\n三丰\t三豐\n三仙台\t三仙臺\n三代同堂\t三代同堂\n三余\t三餘\n三元合金\t三元合金\n三元里\t三元里\n三克\t三克\n三党\t三黨\n三八制\t三八制\n三冬\t三冬\n三冬两夏\t三冬兩夏\n三准\t三準\n三出戏\t三齣戲\n三出祁山\t三出祁山\n三分钟\t三分鐘\n三只\t三隻\n三只手\t三隻手\n三台\t三臺\n三台县\t三臺縣\n三台联播\t三臺聯播\n三叶期\t三葉期\n三叶松\t三葉松\n三叶草\t三葉草\n三叶虫\t三葉蟲\n三叹\t三嘆\n三合会\t三合會\n三合土\t三合土\n三合房\t三合房\n三合星\t三合星\n三合板\t三合板\n三合院\t三合院\n三同\t三同\n三向\t三向\n三周\t三週\n三周年\t三週年\n三呼万岁\t三呼萬歲\n三回两转\t三回兩轉\n三回九曲\t三回九曲\n三回九转\t三回九轉\n三回五次\t三回五次\n三回五转\t三回五轉\n三国志\t三國志\n三坛大戒\t三壇大戒\n三复\t三復\n三复斯言\t三復斯言\n三复白圭\t三復白圭\n三大发明\t三大發明\n三大差别\t三大差別\n三天后\t三天後\n三头两面\t三頭兩面\n三头马车制\t三頭馬車制\n三夹板\t三夾板\n三娘教子\t三娘教子\n三对三斗牛\t三對三鬥牛\n三对六面\t三對六面\n三尸\t三尸\n三尸神\t三尸神\n三年制\t三年制\n三弦\t三絃\n三征七辟\t三徵七辟\n三思台\t三思臺\n三思而后\t三思而後\n三思而后行\t三思而後行\n三恶道\t三惡道\n三战两胜\t三戰兩勝\n三才\t三才\n三才图会\t三才圖會\n三扎\t三紮\n三折肱\t三折肱\n三折肱为良医\t三折肱為良醫\n三振出局\t三振出局\n三方面\t三方面\n三日不读书面目可憎\t三日不讀書面目可憎\n三星集团\t三星集團\n三月里的桃花\t三月裡的桃花\n三杆\t三杆\n三杠\t三槓\n三杯\t三杯\n三杯和万事\t三杯和萬事\n三杯鸡\t三杯雞\n三板\t三板\n三极\t三極\n三极真空\t三極真空\n三次曲线\t三次曲線\n三段制\t三段制\n三江并流\t三江並流\n三浴三熏\t三浴三熏\n三涂\t三塗\n三点钟\t三點鐘\n三熏三沐\t三熏三沐\n三班制\t三班制\n三瓦两舍\t三瓦兩舍\n三瓦四舍\t三瓦四舍\n三生有幸\t三生有幸\n三用表\t三用表\n三田制面所\t三田製麵所\n三番四复\t三番四復\n三百万\t三百萬\n三百个\t三百個\n三百千千\t三百千千\n三百多万\t三百多萬\n三百馀万\t三百餘萬\n三秋\t三秋\n三秒钟\t三秒鐘\n三穗\t三穗\n三穗县\t三穗縣\n三级三审制\t三級三審制\n三结合\t三結合\n三统历\t三統曆\n三统历史\t三統歷史\n三胜制\t三勝制\n三脚采茶戏\t三腳採茶戲\n三舍\t三舍\n三苏\t三蘇\n三表\t三表\n三角关系\t三角關係\n三角套汇\t三角套匯\n三角巾包扎法\t三角巾包紮法\n三角板\t三角板\n三角表\t三角表\n三辟\t三辟\n三连胜\t三連勝\n三部合唱\t三部合唱\n三部曲\t三部曲\n三里\t三里\n三里屯\t三里屯\n三里河\t三里河\n三针\t三針\n三长制\t三長制\n三门干部\t三門幹部\n三青团\t三青團\n三面\t三面\n三面亚当\t三面亞當\n三面体\t三面體\n三面夏娃\t三面夏娃\n三面红旗\t三面紅旗\n三面网\t三面網\n三面角\t三面角\n三马同槽\t三馬同槽\n三鲜面\t三鮮麵\n三鹿集团\t三鹿集團\n上一个\t上一個\n上万\t上萬\n上上下下\t上上下下\n上上个月\t上上個月\n上下五千年\t上下五千年\n上下交困\t上下交困\n上下同心\t上下同心\n上下游\t上下游\n上不了\t上不了\n上不了台面\t上不了檯面\n上不得台盘\t上不得檯盤\n上个星期\t上個星期\n上个月\t上個月\n上中下游\t上中下游\n上了\t上了\n上了岁数\t上了歲數\n上了年纪\t上了年紀\n上党\t上黨\n上党梆子\t上黨梆子\n上冲\t上衝\n上冲下洗\t上沖下洗\n上千\t上千\n上千万\t上千萬\n上千人\t上千人\n上升\t上升\n上升为\t上升為\n上升趋势\t上升趨勢\n上半叶\t上半葉\n上发条\t上發條\n上台\t上臺\n上台演唱\t上臺演唱\n上台演奏\t上臺演奏\n上台演讲\t上臺演講\n上叶\t上葉\n上合屋\t上閤屋\n上合组织\t上合組織\n上吊\t上吊\n上吊自杀\t上吊自殺\n上同调\t上同調\n上周\t上週\n上回\t上回\n上复\t上覆\n上夸克\t上夸克\n上层建筑\t上層建築\n上市柜\t上市櫃\n上弦\t上弦\n上当\t上當\n上彩\t上彩\n上搜\t上搜\n上杠\t上槓\n上柜\t上櫃\n上栗县\t上栗縣\n上梁\t上樑\n上梁不正\t上樑不正\n上梁不正下梁歪\t上樑不正下樑歪\n上梁山\t上梁山\n上梁文\t上樑文\n上游\t上游\n上游工业\t上游工業\n上百万\t上百萬\n上确界\t上確界\n上签\t上籤\n上签写\t上簽寫\n上签名\t上簽名\n上签字\t上簽字\n上签收\t上簽收\n上舍\t上舍\n上花台\t上花臺\n上药\t上藥\n上药膏\t上藥膏\n上蜡\t上蠟\n上表\t上表\n上课钟\t上課鐘\n上野树里\t上野樹里\n上链\t上鍊\n上面\t上面\n上马杯\t上馬杯\n下一个\t下一個\n下三面\t下三面\n下下个月\t下下個月\n下不了\t下不了\n下不了台\t下不了臺\n下不来台\t下不來臺\n下个星期\t下個星期\n下个月\t下個月\n下了\t下了\n下于\t下於\n下仑路\t下崙路\n下冲\t下衝\n下出\t下出\n下划线\t下劃線\n下厂\t下廠\n下发\t下發\n下台\t下臺\n下台阶\t下臺階\n下叶\t下葉\n下同\t下同\n下向\t下向\n下周\t下週\n下咽\t下嚥\n下回\t下回\n下城里\t下城里\n下夸克\t下夸克\n下巴里\t下巴裡\n下弦\t下弦\n下彩\t下彩\n下得了\t下得了\n下手干\t下手幹\n下才\t下才\n下摆\t下襬\n下有苏杭\t下有蘇杭\n下板儿\t下板兒\n下梁\t下樑\n下水道系统\t下水道系統\n下注\t下注\n下注解\t下註解\n下游\t下游\n下游工业\t下游工業\n下确界\t下確界\n下种\t下種\n下笔千言\t下筆千言\n下签\t下籤\n下签写\t下簽寫\n下签名\t下簽名\n下签字\t下簽字\n下签收\t下簽收\n下药\t下藥\n下表\t下表\n下课后\t下課後\n";

/// Part 3 of the text.
pub const ST_PHRASES_3: &'static str = "下课钟\t下課鐘\n下采\t下采\n下里\t下里\n下里巴人\t下里巴人\n下面\t下面\n下面条\t下麵條\n下面请看\t下面請看\n下风方向\t下風方向\n下马杯\t下馬杯\n不一致\t不一致\n不一致字\t不一致字\n不上台盘\t不上檯盤\n不下于\t不下於\n不丑\t不醜\n不世出\t不世出\n不中于款\t不中於款\n不丰不杀\t不豐不殺\n不为牛后\t不為牛後\n不为米折腰\t不為米折腰\n不乐于\t不樂於\n不了\t不了\n不了之局\t不了之局\n不了了之\t不了了之\n不了了当\t不了了當\n不了情\t不了情\n不了汉\t不了漢\n不了解\t不瞭解\n不以词害志\t不以詞害志\n不以辞害志\t不以辭害志\n不体面\t不體面\n不作准\t不作準\n不侮暗室\t不侮暗室\n不修\t不修\n不修小节\t不修小節\n不修帷薄\t不修帷薄\n不修边幅\t不修邊幅\n不借\t不借\n不值当\t不值當\n不假外出\t不假外出\n不偏极\t不偏極\n不停当\t不停當\n不光彩\t不光彩\n不克\t不克\n不克制\t不剋制\n不克自制\t不克自制\n不全症\t不全症\n不再出版\t不再出版\n不准\t不準\n不准他\t不准他\n不准你\t不准你\n不准备\t不準備\n不准她\t不准她\n不准它\t不准它\n不准我\t不准我\n不准没\t不准沒\n不准确\t不準確\n不准翻印\t不准翻印\n不准许\t不准許\n不准谁\t不准誰\n不准问\t不准問\n不减当年\t不減當年\n不出\t不出\n不出去\t不出去\n不出所料\t不出所料\n不出材\t不出材\n不出来\t不出來\n不分胜负\t不分勝負\n不分胜败\t不分勝敗\n不分青红皂白\t不分青紅皂白\n不切合实际\t不切合實際\n不划算\t不划算\n不利于\t不利於\n不前不后\t不前不後\n不加修饰\t不加修飾\n不加区别\t不加區別\n不加自制\t不加自制\n不劳无获\t不勞無獲\n不劳而获\t不勞而獲\n不升\t不升\n不升反降\t不升反降\n不单只是\t不單只是\n不卜可知\t不卜可知\n不占\t不佔\n不占凶吉\t不占凶吉\n不占卜\t不占卜\n不占吉凶\t不占吉凶\n不占算\t不占算\n不发心\t不發心\n不变价格\t不變價格\n不只\t不只\n不只够\t不只夠\n不只怕\t不只怕\n不只是\t不只是\n不只有\t不只有\n不只能\t不只能\n不只要\t不只要\n不只需\t不只需\n不只靠\t不只靠\n不可以道里计\t不可以道里計\n不可同年而语\t不可同年而語\n不可同日\t不可同日\n不可同日而语\t不可同日而語\n不可向迩\t不可向邇\n不可当\t不可當\n不可战胜\t不可戰勝\n不可挽回\t不可挽回\n不可救药\t不可救藥\n不可胜书\t不可勝書\n不可胜原\t不可勝原\n不可胜数\t不可勝數\n不可胜纪\t不可勝紀\n不可胜言\t不可勝言\n不可胜计\t不可勝計\n不可胜记\t不可勝記\n不吃烟火食\t不吃煙火食\n不合\t不合\n不合体统\t不合體統\n不合作\t不合作\n不合作运动\t不合作運動\n不合式\t不合式\n不合时宜\t不合時宜\n不合标准\t不合標準\n不合格\t不合格\n不合法\t不合法\n不合理\t不合理\n不合算\t不合算\n不合群\t不合群\n不合节\t不合節\n不合规定\t不合規定\n不合适\t不合適\n不合逻辑\t不合邏輯\n不吊\t不弔\n不同\t不同\n不同于\t不同於\n不同人\t不同人\n不同以往\t不同以往\n不同凡响\t不同凡響\n不同印本\t不同印本\n不同处\t不同處\n不同意\t不同意\n不同日月\t不同日月\n不同点\t不同點\n不同调\t不同調\n不向\t不向\n不告而别\t不告而別\n不周\t不周\n不周到\t不周到\n不周山\t不周山\n不周延\t不周延\n不周风\t不周風\n不善于\t不善於\n不图打点只图混水\t不圖打點只圖混水\n不在了\t不在了\n不堪回首\t不堪回首\n不复\t不復\n不复存在\t不復存在\n不外借\t不外借\n不多于\t不多於\n不多几日\t不多幾日\n不大合时\t不大合時\n不大精采\t不大精采\n不好了\t不好了\n不好干涉\t不好干涉\n不好干预\t不好干預\n不嫌母丑\t不嫌母醜\n不孕症\t不孕症\n不孝有三无后为大\t不孝有三無後為大\n不学亡术\t不學亡術\n不学无术\t不學無術\n不安于位\t不安於位\n不安于室\t不安於室\n不完全叶\t不完全葉\n不寒而栗\t不寒而慄\n不对腔板\t不對腔板\n不小于\t不小於\n不少于\t不少於\n不尽\t不盡\n不尽年\t不盡年\n不尽心\t不盡心\n不尽木\t不盡木\n不尽根\t不盡根\n不尽然\t不盡然\n不尽相同\t不盡相同\n不尽道理\t不盡道理\n不屑于\t不屑於\n不属于\t不屬於\n不差毫厘\t不差毫釐\n不差毫发\t不差毫髮\n不干\t不幹\n不干不净\t不乾不淨\n不干不净吃了没病\t不乾不淨吃了沒病\n不干了\t不幹了\n不干事\t不幹事\n不干他\t不干他\n不干休\t不干休\n不干你\t不干你\n不干净\t不乾淨\n不干她\t不干她\n不干它\t不干它\n不干己事\t不干己事\n不干性\t不乾性\n不干我\t不干我\n不干扰\t不干擾\n不干杯\t不乾杯\n不干涉\t不干涉\n不干涉主义\t不干涉主義\n不干渴\t不乾渴\n不干犯\t不干犯\n不干着急\t不乾著急\n不干胶\t不乾膠\n不干脆\t不乾脆\n不干裂\t不乾裂\n不干预\t不干預\n不并\t不併\n不幸\t不幸\n不幸之事\t不幸之事\n不幸之幸\t不幸之幸\n不幸受害\t不幸受害\n不幸的是\t不幸的是\n不当\t不當\n不当一回事\t不當一回事\n不当不对\t不當不對\n不当不正\t不當不正\n不当事\t不當事\n不当人\t不當人\n不当人化化\t不當人化化\n不当人子\t不當人子\n不当党\t不當黨\n不当党产\t不當黨產\n不当准\t不當準\n不当官\t不當官\n不当家\t不當家\n不当家化化\t不當家化化\n不当家花拉\t不當家花拉\n不当家花花\t不當家花花\n不当家豁拉\t不當家豁拉\n不当得利\t不當得利\n不当数\t不當數\n不当稳便\t不當穩便\n不当紧\t不當緊\n不当耍处\t不當耍處\n不当道\t不當道\n不形于色\t不形於色\n不彩\t不彩\n不徇颜面\t不徇顏面\n不得了\t不得了\n不得台盘\t不得檯盤\n不得志\t不得志\n不得闲\t不得閒\n不念\t不念\n不念旧恶\t不念舊惡\n不怕一万只怕万一\t不怕一萬只怕萬一\n不恶而严\t不惡而嚴\n不情不愿\t不情不願\n不情愿\t不情願\n不惮强御\t不憚強禦\n不愿\t不願\n不愿意\t不願意\n不成才\t不成才\n不战而胜\t不戰而勝\n不才\t不才\n不打不成才\t不打不成才\n不托\t不託\n不扣\t不扣\n不折\t不折\n不折不扣\t不折不扣\n不挂\t不掛\n不挂眼\t不掛眼\n不放松\t不放鬆\n不敢出声\t不敢出聲\n不敢出气\t不敢出氣\n不敢后人\t不敢後人\n不敢当\t不敢當\n不整合\t不整合\n不斗\t不鬥\n不断\t不斷\n不断发展\t不斷發展\n不断发现\t不斷發現\n不断发生\t不斷發生\n不断发酵\t不斷發酵\n不断电系统\t不斷電系統\n不早了\t不早了\n不时之须\t不時之須\n不明就里\t不明就裡\n不明确\t不明確\n不是\t不是\n不是个儿\t不是個兒\n不是了处\t不是了處\n不是别人\t不是別人\n不松下\t不鬆下\n不极\t不極\n不极不反\t不極不反\n不染纤尘\t不染纖塵\n不标准\t不標準\n不欲\t不欲\n不欺暗室\t不欺暗室\n不止于此\t不止於此\n不正当\t不正當\n不正当关系\t不正當關係\n不正当竞争\t不正當競爭\n不正确\t不正確\n不死药\t不死藥\n不毒不发\t不毒不發\n不气干\t不氣干\n不求收获\t不求收獲\n";

/// Part 4 of the text.
pub const ST_PHRASES_4: &'static str = "不治之症\t不治之症\n不注意\t不注意\n不测风云\t不測風雲\n不涂\t不塗\n不消几日\t不消幾日\n不甘于\t不甘於\n不甘后人\t不甘後人\n不甚了了\t不甚了了\n不甚合意\t不甚合意\n不用干\t不用幹\n不用斗了\t不用鬥了\n不畏强御\t不畏強禦\n不畏彊御\t不畏彊禦\n不留情面\t不留情面\n不相同\t不相同\n不相干\t不相干\n不知凡几\t不知凡幾\n不知去向\t不知去向\n不知所云\t不知所云\n不确\t不確\n不确定\t不確定\n不确定性\t不確定性\n不确定性原理\t不確定性原理\n不确定感\t不確定感\n不确定故意\t不確定故意\n不确实\t不確實\n不符合\t不符合\n不等于\t不等於\n不等价交换\t不等價交換\n不管闲事\t不管閒事\n不系\t不繫\n不系舟\t不繫舟\n不约而合\t不約而合\n不约而同\t不約而同\n不织布\t不織布\n不结汇进口\t不結匯進口\n不绝于耳\t不絕於耳\n不老药\t不老藥\n不肯干休\t不肯干休\n不育症\t不育症\n不胜\t不勝\n不胜之态\t不勝之態\n不胜其扰\t不勝其擾\n不胜其烦\t不勝其煩\n不胜其苦\t不勝其苦\n不胜唏嘘\t不勝唏噓\n不胜感喟\t不勝感喟\n不胜感激\t不勝感激\n不胜春\t不勝春\n不胜枚举\t不勝枚舉\n不胜衣\t不勝衣\n不胜负荷\t不勝負荷\n不胜酒力\t不勝酒力\n不能出口\t不能出口\n不能尽数\t不能盡數\n不能胜数\t不能勝數\n不能自制\t不能自制\n不能赞一辞\t不能贊一辭\n不至于\t不至於\n不致\t不致\n不致于\t不致於\n不舍\t不捨\n不舍得\t不捨得\n不舍昼夜\t不捨晝夜\n不舒适\t不舒適\n不良于行\t不良於行\n不良倾向\t不良傾向\n不良才\t不良才\n不良适应\t不良適應\n不药而愈\t不藥而癒\n不获\t不獲\n不落人后\t不落人後\n不虚发\t不虛發\n不行了\t不行了\n不表\t不表\n不见世面\t不見世面\n不见了\t不見了\n不见识面\t不見識面\n不见面\t不見面\n不规范\t不規範\n不解之仇\t不解之仇\n不讨采\t不討采\n不让须眉\t不讓鬚眉\n不讲情面\t不講情面\n不识局面\t不識局面\n不识闲\t不識閒\n不说价\t不說價\n不说出\t不說出\n不谈别的\t不談別的\n不谋而合\t不謀而合\n不谋而同\t不謀而同\n不谐当\t不諧當\n不谷\t不穀\n不负所托\t不負所托\n不赞\t不讚\n不赞一词\t不讚一詞\n不赞一辞\t不讚一辭\n不赞同\t不贊同\n不赞成\t不贊成\n不足为据\t不足為據\n不足之症\t不足之症\n不足回旋\t不足回旋\n不足挂齿\t不足掛齒\n不足采信\t不足採信\n不辞而别\t不辭而別\n不远万里\t不遠萬里\n不远千里\t不遠千里\n不连续面\t不連續面\n不适\t不適\n不适合\t不適合\n不适当\t不適當\n不适感\t不適感\n不适用\t不適用\n不逊于\t不遜於\n不透明水彩画\t不透明水彩畫\n不通吊庆\t不通弔慶\n不遗余力\t不遺餘力\n不避彊御\t不避彊禦\n不采\t不採\n不采声\t不采聲\n不锈钢\t不鏽鋼\n不锈钢板\t不鏽鋼板\n不问前因后果\t不問前因後果\n不问是非曲直\t不問是非曲直\n不降反升\t不降反升\n不限于\t不限於\n不须\t不須\n不顾前后\t不顧前後\n不顾后果\t不顧後果\n不顾曲直\t不顧曲直\n不顾闲野\t不顧閒野\n不食人间烟火\t不食人間煙火\n不食周粟\t不食周粟\n不食干腊\t不食乾腊\n不食烟火\t不食煙火\n不龟手药\t不龜手藥\n不龟药\t不龜藥\n与他一斗\t與他一鬥\n与众不同\t與眾不同\n与克制\t與剋制\n与党\t與黨\n与君一席话胜读十年书\t與君一席話勝讀十年書\n与国同休\t與國同休\n与她一斗\t與她一鬥\n与子同袍\t與子同袍\n与日同辉\t與日同輝\n与此同时\t與此同時\n与民同乐\t與民同樂\n与民同忧\t與民同憂\n丑三\t丑三\n丑丑\t醜醜\n丑丫头\t醜丫頭\n丑事\t醜事\n丑于\t醜於\n丑人\t醜人\n丑人多作怪\t醜人多作怪\n丑侪\t醜儕\n丑八怪\t醜八怪\n丑剌剌\t醜剌剌\n丑剧\t醜劇\n丑化\t醜化\n丑史\t醜史\n丑名\t醜名\n丑咤\t醜吒\n丑地\t醜地\n丑声\t醜聲\n丑声四溢\t醜聲四溢\n丑声远播\t醜聲遠播\n丑头怪脸\t醜頭怪臉\n丑夷\t醜夷\n丑女\t醜女\n丑女人\t醜女人\n丑女效颦\t醜女效顰\n丑奴儿\t醜奴兒\n丑妇\t醜婦\n丑媳\t醜媳\n丑媳妇\t醜媳婦\n丑媳妇总得要见公婆\t醜媳婦總得要見公婆\n丑小鸭\t醜小鴨\n丑巴怪\t醜巴怪\n丑年\t丑年\n丑徒\t醜徒\n丑态\t醜態\n丑态毕露\t醜態畢露\n丑态百出\t醜態百出\n丑怪\t醜怪\n丑恶\t醜惡\n丑日\t丑日\n丑旦\t丑旦\n丑时\t丑時\n丑月\t丑月\n丑末\t醜末\n丑杂\t醜雜\n丑样\t醜樣\n丑死\t醜死\n丑比\t醜比\n丑毙了\t醜斃了\n丑沮\t醜沮\n丑牛\t丑牛\n丑生\t醜生\n丑男\t醜男\n丑相\t醜相\n丑类\t醜類\n丑类恶物\t醜類惡物\n丑脸\t醜臉\n丑虏\t醜虜\n丑行\t醜行\n丑角\t丑角\n丑言\t醜言\n丑诋\t醜詆\n丑话\t醜話\n丑语\t醜語\n丑贼生\t醜賊生\n丑辞\t醜辭\n丑辱\t醜辱\n丑逆\t醜逆\n丑闻\t醜聞\n丑闻案\t醜聞案\n丑陋\t醜陋\n专业人才\t專業人才\n专修\t專修\n专修班\t專修班\n专修科\t專修科\n专修科目\t專修科目\n专利药\t專利藥\n专利药品\t專利藥品\n专制\t專制\n专制主义\t專制主義\n专制制度\t專制制度\n专制君主制\t專制君主制\n专制政体\t專制政體\n专制政府\t專制政府\n专制政治\t專制政治\n专制权\t專制權\n专制起来\t專制起來\n专勤制度\t專勤制度\n专向\t專向\n专家系统\t專家系統\n专家评价\t專家評價\n专干\t專幹\n专征\t專征\n专心一志\t專心一志\n专心致志\t專心致志\n专才\t專才\n专摆\t專擺\n专柜\t專櫃\n专柜小姐\t專櫃小姐\n专欲难成\t專欲難成\n专注\t專注\n专注力\t專注力\n专精于\t專精於\n专美于前\t專美於前\n专辑里\t專輯裡\n专鉴\t專鑒\n专门人才\t專門人才\n专门术语\t專門術語\n且于\t且於\n且听下回分解\t且聽下回分解\n世上无难事只怕有心人\t世上無難事只怕有心人\n世仇\t世仇\n世出世\t世出世\n世台\t世臺\n世台会\t世臺會\n世彩堂\t世綵堂\n世彩堂帖\t世綵堂帖\n世恩录\t世恩錄\n世情看冷暖人面逐高低\t世情看冷暖人面逐高低\n世所周知\t世所周知\n世田谷\t世田谷\n世界大同\t世界大同\n世界旅游组织\t世界旅遊組織\n世界杯\t世界盃\n世界杯室\t世界盃室\n世界杯赛\t世界盃賽\n世界纪录\t世界紀錄\n世界范围\t世界範圍\n世界里\t世界裡\n世系\t世系\n世纪钟\t世紀鐘\n世纪钟表\t世紀鐘錶\n世胄\t世胄\n世表\t世表\n世阿弥\t世阿彌\n世面\t世面\n丘克\t丘克\n丙种\t丙種\n丙种射线\t丙種射線\n丙舍\t丙舍\n业余\t業餘\n业余大学\t業餘大學\n业余教育\t業餘教育\n业余爱好\t業餘愛好\n业余者\t業餘者\n业务范围\t業務範圍\n业界标准\t業界標準\n业种\t業種\n业精于勤\t業精於勤\n业荒于嬉\t業荒於嬉\n业馀电台\t業餘電臺\n丛台区\t叢臺區\n丛生叶\t叢生葉\n东丰\t東豐\n东丰县\t東豐縣\n东丰阁\t東豐閣\n东京柜\t東京櫃\n东仓里\t東倉里\n东伙\t東夥\n东冲西突\t東衝西突\n东净里的砖儿\t東淨裡的磚兒\n东加里曼丹\t東加里曼丹\n东北向\t東北向\n东北面\t東北面\n东升\t東昇\n东南向\t東南向\n东南面\t東南面\n东厂\t東廠\n东台\t東臺\n东台市\t東臺市\n东台湾\t東臺灣\n东向\t東向\n";

/// Part 5 of the text.
pub const ST_PHRASES_5: &'static str = "东周\t東周\n东周时\t東周時\n东周时代\t東周時代\n东周时期\t東周時期\n东周钟\t東周鐘\n东奔西向\t東奔西向\n东学党\t東學黨\n东山之志\t東山之志\n东山里\t東山里\n东山里站\t東山里站\n东岳\t東嶽\n东干\t東干\n东征\t東征\n东征西怨\t東征西怨\n东征西讨\t東征西討\n东扬西荡\t東揚西蕩\n东折西绕\t東折西繞\n东挨西撞\t東挨西撞\n东挪西借\t東挪西借\n东摇西摆\t東搖西擺\n东斗星君\t東斗星君\n东方发白\t東方發白\n东方汇理\t東方匯理\n东林党\t東林黨\n东欧集团\t東歐集團\n东海捞针\t東海撈針\n东海里\t東海裡\n东涂西抹\t東塗西抹\n东涌\t東涌\n东涌线\t東涌線\n东游\t東遊\n东窗事发\t東窗事發\n东胜区\t東勝區\n东胡\t東胡\n东芝医疗系\t東芝醫療系\n东荡西除\t東蕩西除\n东蒙\t東蒙\n东西向\t東西向\n东西周\t東西周\n东西里\t東西裡\n东讨西征\t東討西征\n东谷拉瓦\t東谷拉瓦\n东邻西舍\t東鄰西舍\n东里\t東里\n东量西折\t東量西折\n东面\t東面\n东飘西荡\t東飄西蕩\n丝发\t絲髮\n丝发之功\t絲髮之功\n丝布\t絲布\n丝弦\t絲絃\n丝恩发怨\t絲恩髮怨\n丝托索\t絲托索\n丝挂子\t絲掛子\n丝杆\t絲桿\n丝杠\t絲槓\n丝来线去\t絲來線去\n丝板\t絲板\n丝瓜布\t絲瓜布\n丝盘虫\t絲盤蟲\n丝线\t絲線\n丝织厂\t絲織廠\n丝绒布\t絲絨布\n丝虫\t絲蟲\n丝虫病\t絲蟲病\n丢丑\t丟醜\n丢了\t丟了\n丢体面\t丟體面\n丢入爪哇国里\t丟入爪哇國裡\n丢出\t丟出\n丢出去\t丟出去\n丢包术\t丟包術\n丢在脑后\t丟在腦後\n丢巧针\t丟巧針\n丢面子\t丟面子\n两万\t兩萬\n两个\t兩個\n两个中国\t兩個中國\n两个或两个以上\t兩個或兩個以上\n两个或更多\t兩個或更多\n两个肩膀扛张嘴\t兩個肩膀扛張嘴\n两人同心\t兩人同心\n两余\t兩餘\n两克\t兩克\n两党\t兩黨\n两出戏\t兩齣戲\n两千\t兩千\n两厢情愿\t兩廂情願\n两只\t兩隻\n两只手\t兩隻手\n两只脚赶不上一张嘴\t兩隻腳趕不上一張嘴\n两台\t兩臺\n两叶\t兩葉\n两叶掩目\t兩葉掩目\n两合公司\t兩合公司\n两周\t兩週\n两周年\t兩週年\n两回\t兩回\n两回事\t兩回事\n两国关系\t兩國關係\n两天后\t兩天後\n两天晒网\t兩天曬網\n两头三面\t兩頭三面\n两头白面\t兩頭白面\n两娘女\t兩娘女\n两岸关系\t兩岸關係\n两当\t兩當\n两当一\t兩當一\n两当县\t兩當縣\n两性关系\t兩性關係\n两情两愿\t兩情兩願\n两扎\t兩紮\n两撇胡\t兩撇鬍\n两方面\t兩方面\n两杆\t兩杆\n两杠\t兩槓\n两杯\t兩杯\n两板\t兩板\n两极\t兩極\n两极分化\t兩極分化\n两极化\t兩極化\n两极管\t兩極管\n两极观点\t兩極觀點\n两段制\t兩段制\n两点钟\t兩點鐘\n两班制\t兩班制\n两百万\t兩百萬\n两百个\t兩百個\n两百多万\t兩百多萬\n两相情愿\t兩相情願\n两眼发直\t兩眼發直\n两种\t兩種\n两种人\t兩種人\n两秒钟\t兩秒鐘\n两腿发软\t兩腿發軟\n两虎共斗\t兩虎共鬥\n两虎相斗\t兩虎相鬥\n两西西里王国\t兩西西里王國\n两院制\t兩院制\n两面\t兩面\n两面三刀\t兩面三刀\n两面不是人\t兩面不是人\n两面不讨好\t兩面不討好\n两面二舌\t兩面二舌\n两面作战\t兩面作戰\n两面倒\t兩面倒\n两面光\t兩面光\n两面刀\t兩面刀\n两面夹攻\t兩面夾攻\n两面性\t兩面性\n两面手法\t兩面手法\n两面派\t兩面派\n两面讨好\t兩面討好\n两面转圜\t兩面轉圜\n两面锯\t兩面鋸\n两面顾全\t兩面顧全\n两鼠斗穴\t兩鼠鬥穴\n严丝合缝\t嚴絲合縫\n严了眼儿\t嚴了眼兒\n严于\t嚴於\n严于律己\t嚴於律己\n严云农\t嚴云農\n严冬\t嚴冬\n严制\t嚴制\n严加防范\t嚴加防範\n严复\t嚴復\n严恶\t嚴惡\n严禁吸烟\t嚴禁吸菸\n严禁烟火\t嚴禁煙火\n严重后果\t嚴重後果\n丧失殆尽\t喪失殆盡\n丧尸\t喪屍\n丧尽\t喪盡\n丧尽天良\t喪盡天良\n丧志\t喪志\n丧荡游魂\t喪蕩游魂\n丧钟\t喪鐘\n个个\t個個\n个个称羡\t個個稱羨\n个中\t箇中\n个中三昧\t箇中三昧\n个中人\t箇中人\n个中原因\t箇中原因\n个中奥妙\t箇中奧妙\n个中奥秘\t箇中奧祕\n个中好手\t箇中好手\n个中强手\t箇中強手\n个中消息\t箇中消息\n个中滋味\t箇中滋味\n个中玄机\t箇中玄機\n个中理由\t箇中理由\n个中讯息\t箇中訊息\n个中资讯\t箇中資訊\n个中道理\t箇中道理\n个中高手\t箇中高手\n个事\t個事\n个人\t個人\n个人主义\t個人主義\n个人伤害\t個人傷害\n个人储蓄\t個人儲蓄\n个人利益\t個人利益\n个人化\t個人化\n个人单季\t個人單季\n个人卫生\t個人衛生\n个人外交\t個人外交\n个人奖\t個人獎\n个人崇拜\t個人崇拜\n个人工作室\t個人工作室\n个人得失\t個人得失\n个人性\t個人性\n个人所得\t個人所得\n个人所得税\t個人所得稅\n个人护理\t個人護理\n个人拨接\t個人撥接\n个人本位\t個人本位\n个人消费\t個人消費\n个人用\t個人用\n个人用户\t個人用戶\n个人电脑\t個人電腦\n个人组\t個人組\n个人网站\t個人網站\n个人资料\t個人資料\n个人赛\t個人賽\n个人隐私\t個人隱私\n个人风\t個人風\n个人首页\t個人首頁\n个位\t個位\n个位数\t個位數\n个体\t個體\n个体发育\t個體發育\n个体户\t個體戶\n个体所有\t個體所有\n个体经济\t個體經濟\n个例\t個例\n个儿\t個兒\n个别\t個別\n个别差异\t個別差異\n个别性\t個別性\n个别情况\t個別情況\n个别指导\t個別指導\n个别教学\t個別教學\n个别测验\t個別測驗\n个别现象\t個別現象\n个别生产\t個別生產\n个别谈话\t個別談話\n个别辅导\t個別輔導\n个头\t個頭\n个头儿\t個頭兒\n个子\t個子\n个屁阿\t個屁阿\n个展\t個展\n个性\t個性\n个性化\t個性化\n个性难改\t個性難改\n个把\t個把\n个把月\t個把月\n个数\t個數\n个旧\t箇舊\n个旧县\t箇舊縣\n个旧市\t箇舊市\n个样\t個樣\n个核\t個核\n个案\t個案\n个案分析\t個案分析\n个案研究\t個案研究\n个案纪录\t個案紀錄\n个股为\t個股為\n个过客\t個過客\n个钟\t個鐘\n个钟表\t個鐘錶\n中上游\t中上游\n中下游\t中下游\n中书舍人\t中書舍人\n中了暑\t中了暑\n中了标\t中了標\n中了毒\t中了毒\n中于\t中於\n中云\t中雲\n中介社团\t中介社團\n中仑\t中崙\n中仑站\t中崙站\n中价位\t中價位\n中低价位\t中低價位\n中俄关系\t中俄關系\n中千世界\t中千世界\n中华台北\t中華臺北\n中华电视台\t中華電視臺\n中华肝吸虫病\t中華肝吸蟲病\n中华苏维埃共和国\t中華蘇維埃共和國\n中华革命党\t中華革命黨\n中原板荡\t中原板蕩\n中原标准时间\t中原標準時間\n中台\t中臺\n中台医专\t中臺醫專\n中台湾\t中臺灣\n中台禅寺\t中臺禪寺\n中台科技大学\t中臺科技大學\n中叶\t中葉\n中国共产党\t中國共產黨\n中国制\t中國製\n中国制造\t中國製造\n中国剩余定理\t中國剩餘定理\n中国医药\t中國醫藥\n中国历史\t中國歷史\n中国同盟会\t中國同盟會\n中国国民党\t中國國民黨\n中型钟\t中型鐘\n中型钟表\t中型鐘錶\n中型钟面\t中型鐘面\n中央专制集权\t中央專制集權\n中央党\t中央黨\n中央党部\t中央黨部\n中央台\t中央臺\n";

/// Part 6 of the text.
pub const ST_PHRASES_6: &'static str = "中央广播电台\t中央廣播電臺\n中央标准局\t中央標準局\n中央汇金\t中央匯金\n中央电视台\t中央電視臺\n中央监控系统\t中央監控系統\n中央空调系统\t中央空調系統\n中央面\t中央面\n中子俘获\t中子俘獲\n中岳\t中嶽\n中度台风\t中度颱風\n中彩\t中彩\n中心汇率\t中心匯率\n中恶\t中惡\n中懑之症\t中懣之症\n中才\t中才\n中控台\t中控臺\n中控面板\t中控面板\n中搜\t中搜\n中文台\t中文臺\n中文系\t中文系\n中文里\t中文裡\n中日关系\t中日關係\n中暗箭\t中暗箭\n中板\t中板\n中极\t中極\n中枢系统\t中樞系統\n中核\t中核\n中止症\t中止症\n中比关系\t中比關係\n中注模样\t中注模樣\n中涂\t中塗\n中港台\t中港臺\n中游\t中游\n中环杯\t中環盃\n中盘胜\t中盤勝\n中秋\t中秋\n中秋佳节\t中秋佳節\n中秋帖\t中秋帖\n中秋月饼\t中秋月餅\n中秋节\t中秋節\n中程计划\t中程計劃\n中筋面粉\t中筋麵粉\n中签\t中籤\n中美发表\t中美發表\n中胡\t中胡\n中草药\t中草藥\n中药\t中藥\n中药偏方\t中藥偏方\n中药学\t中藥學\n中药店\t中藥店\n中药房\t中藥房\n中药材\t中藥材\n中药铺\t中藥鋪\n中表\t中表\n中西合并\t中西合併\n中西合璧\t中西合璧\n中谷\t中谷\n中谷有蓷\t中谷有蓷\n中转柜台\t中轉櫃檯\n中远集团\t中遠集團\n中远香港集团\t中遠香港集團\n中间纤维\t中間纖維\n中风后\t中風後\n丰上锐下\t豐上銳下\n丰下\t豐下\n丰丘明\t豐丘明\n丰业\t豐業\n丰乐\t豐樂\n丰乐亭\t豐樂亭\n丰产\t豐產\n丰产田\t豐產田\n丰亨豫大\t豐亨豫大\n丰仪\t丰儀\n丰伟\t豐偉\n丰俭由人\t豐儉由人\n丰功\t豐功\n丰功伟业\t豐功偉業\n丰功伟绩\t豐功偉績\n丰功厚利\t豐功厚利\n丰功大业\t豐功大業\n丰功懋烈\t豐功懋烈\n丰功盛烈\t豐功盛烈\n丰华\t豐華\n丰南\t豐南\n丰南区\t豐南區\n丰厚\t豐厚\n丰原\t豐原\n丰原市\t豐原市\n丰县\t豐縣\n丰取刻与\t豐取刻與\n丰台\t豐臺\n丰台区\t豐臺區\n丰城\t豐城\n丰城剑气\t豐城劍氣\n丰城市\t豐城市\n丰城贯斗\t豐城貫斗\n丰壤\t豐壤\n丰奢\t豐奢\n丰妍\t豐妍\n丰姿\t丰姿\n丰姿冶丽\t丰姿冶麗\n丰姿绰约\t丰姿綽約\n丰宁\t豐寧\n丰宁县\t豐寧縣\n丰实\t豐實\n丰容\t丰容\n丰容靓饰\t豐容靚飾\n丰富\t豐富\n丰富多彩\t豐富多彩\n丰富性\t豐富性\n丰川悦司\t豐川悅司\n丰年\t豐年\n丰年玉\t豐年玉\n丰年祭\t豐年祭\n丰年稔岁\t豐年稔歲\n丰年节\t豐年節\n丰年虾\t豐年蝦\n丰度\t丰度\n丰悴\t豐悴\n丰情\t丰情\n丰收\t豐收\n丰收年\t豐收年\n丰本\t豐本\n丰杀\t豐殺\n丰标\t丰標\n丰标不凡\t丰標不凡\n丰歉\t豐歉\n丰殖\t豐殖\n丰水\t豐水\n丰水期\t豐水期\n丰沛\t豐沛\n丰注\t豐注\n丰泽\t豐澤\n丰泽区\t豐澤區\n丰润\t豐潤\n丰润区\t豐潤區\n丰渔桥\t豐漁橋\n丰溪里\t豐溪里\n丰满\t豐滿\n丰满区\t豐滿區\n丰滨\t豐濱\n丰滨乡\t豐濱鄉\n丰炽\t豐熾\n丰熟\t豐熟\n丰田\t豐田\n丰登\t豐登\n丰盈\t豐盈\n丰盛\t豐盛\n丰硕\t豐碩\n丰碑\t豐碑\n丰神\t丰神\n丰神俊美\t丰神俊美\n丰神异彩\t豐神異彩\n丰神绰约\t丰神綽約\n丰神飘洒\t丰神飄灑\n丰稔\t豐稔\n丰穰\t豐穰\n丰美\t豐美\n丰耗\t豐耗\n丰肌\t豐肌\n丰胸\t豐胸\n丰腆\t豐腆\n丰腴\t豐腴\n丰臣秀吉\t豐臣秀吉\n丰若晖\t豐若暉\n丰若有肌柔若无骨\t豐若有肌柔若無骨\n丰茂\t豐茂\n丰茸\t丰茸\n丰草\t豐草\n丰蔚\t豐蔚\n丰衍\t豐衍\n丰衣足食\t豐衣足食\n丰裕\t豐裕\n丰赡\t豐贍\n丰足\t豐足\n丰都\t豐都\n丰都县\t豐都縣\n丰采\t丰采\n丰镇\t豐鎮\n丰镇市\t豐鎮市\n丰镐\t豐鎬\n丰隆\t豐隆\n丰韵\t丰韻\n丰顺\t豐順\n丰顺县\t豐順縣\n丰颊\t豐頰\n丰饶\t豐饒\n丰饶丰足\t豐饒豐足\n串亲戚\t串親戚\n串出来\t串出來\n串同\t串同\n串哄\t串哄\n串换\t串換\n串游\t串游\n临别\t臨別\n临别依依\t臨別依依\n临别时\t臨別時\n临别赠言\t臨別贈言\n临制\t臨制\n临危致命\t臨危致命\n临去秋波\t臨去秋波\n临夏回族自治州\t臨夏回族自治州\n临幸\t臨幸\n临床特征\t臨牀特徵\n临机制变\t臨機制變\n临机制胜\t臨機制勝\n临江折轴\t臨江折軸\n临海水土志\t臨海水土誌\n临潼斗宝\t臨潼鬥寶\n丸药\t丸藥\n丸药盒\t丸藥盒\n丹参\t丹參\n丹台\t丹臺\n丹布朗\t丹布朗\n丹干\t丹干\n丹徒布衣\t丹徒布衣\n丹朱\t丹朱\n丹棱\t丹稜\n丹药\t丹藥\n为中台\t為中颱\n为了\t為了\n为人师表\t為人師表\n为准\t為準\n为幸\t為幸\n为幸免\t為倖免\n为幸存\t為倖存\n为幸幸\t為倖辛\n为幸臣\t為倖臣\n为念\t為念\n为恶\t為惡\n为恶不悛\t為惡不悛\n为所欲为\t為所欲為\n为模范\t為模範\n为着\t為著\n为规范\t為規範\n为鉴\t為鑑\n主仆\t主僕\n主修\t主修\n主修科目\t主修科目\n主席台\t主席臺\n主席团\t主席團\n主干\t主幹\n主干家庭\t主幹家庭\n主干线\t主幹線\n主干网络\t主幹網絡\n主干网路\t主幹網路\n主控台\t主控臺\n主播台\t主播臺\n主教团\t主教團\n主普坛\t主普壇\n主机板\t主機板\n主板\t主板\n主梁\t主樑\n主法向量\t主法向量\n主画面\t主畫面\n主编\t主編\n主要树种\t主要樹種\n主钟差\t主鐘差\n主钟曲线\t主鐘曲線\n主题曲\t主題曲\n主题论坛区\t主題論壇區\n丽于\t麗於\n丽舍\t麗舍\n举不胜举\t舉不勝舉\n举了\t舉了\n举例发凡\t舉例發凡\n举出\t舉出\n举出来\t舉出來\n举发\t舉發\n举尾虫\t舉尾蟲\n举手可采\t舉手可采\n举手表\t舉手表\n举手表决\t舉手表決\n举措失当\t舉措失當\n举杯\t舉杯\n举杯畅饮\t舉杯暢飲\n举止闲冶\t舉止閒冶\n举目千里\t舉目千里\n举荐征辟\t舉薦征辟\n乃至于\t乃至於\n乃里\t乃里\n久仰山斗\t久仰山斗\n久别\t久別\n久别相逢\t久別相逢\n久别重逢\t久別重逢\n久违颜范\t久違顏範\n么凤士多\t么鳳士多\n么娘\t麼娘\n义义合合\t義義合合\n义仆\t義僕\n义占\t義佔\n义同生死\t義同生死\n义和团\t義和團\n义大利杯\t義大利杯\n义大利面\t義大利麵\n义庄\t義莊\n义形于色\t義形於色\n义气干霄\t義氣干霄\n义薄云天\t義薄雲天\n之于\t之於\n之余\t之餘\n之八九只\t之八九只\n之叹\t之嘆\n之后\t之後\n之征\t之徵\n之念\t之念\n之托\t之託\n之杯\t之杯\n之核\t之核\n之欲\t之慾\n之游\t之遊\n之秋\t之秋\n之鉴\t之鑑\n之钟\t之鐘\n乌东察克\t烏東察克\n乌东查克\t烏東查克\n乌云\t烏雲\n乌云密布\t烏雲密佈\n乌云蔽日\t烏雲蔽日\n乌什塔拉回族乡\t烏什塔拉回族鄉\n乌克丽丽\t烏克麗麗\n乌克兰\t烏克蘭\n乌克兰人\t烏克蘭人\n乌克兰籍\t烏克蘭籍\n乌克兰队\t烏克蘭隊\n乌兰察布\t烏蘭察布\n乌兰察布市\t烏蘭察布市\n乌兰巴托\t烏蘭巴托\n乌兹冲锋枪\t烏茲衝鋒槍\n乌兹别克\t烏茲別克\n乌兹别克人\t烏茲別克人\n乌兹别克共和国\t烏茲別克共和國\n乌兹别克族\t烏茲別克族\n乌冬面\t烏冬麵\n乌发\t烏髮\n乌合\t烏合\n乌合之众\t烏合之眾\n乌合之卒\t烏合之卒\n乌孜别克\t烏孜別克\n乌孜别克族\t烏孜別克族\n乌孜别克语\t烏孜別克語\n乌干达\t烏干達\n乌干达共和国\t烏干達共和國\n乌当\t烏當\n乌当区\t烏當區\n乌托邦\t烏托邦\n";

/// Part 7 of the text.
pub const ST_PHRASES_7: &'static str = "乌拉特后旗\t烏拉特後旗\n乌松\t烏松\n乌梁海\t烏梁海\n乌梁海盆地\t烏梁海盆地\n乌沉沉\t烏沉沉\n乌洛托品\t烏洛托品\n乌涂\t烏塗\n乌涂水\t烏塗水\n乌滋别克\t烏滋別克\n乌滋别克斯坦\t烏滋別克斯坦\n乌烟瘴气\t烏煙瘴氣\n乌狗吃食白狗当灾\t烏狗吃食白狗當災\n乌苏\t烏蘇\n乌苏市\t烏蘇市\n乌苏拉\t烏蘇拉\n乌苏里斯克\t烏蘇里斯克\n乌苏里江\t烏蘇里江\n乌药\t烏藥\n乌获\t烏獲\n乌菲兹美术馆\t烏菲茲美術館\n乌里\t烏里\n乌里雅苏台\t烏里雅蘇臺\n乌鲁克恰提\t烏魯克恰提\n乌鲁克恰提县\t烏魯克恰提縣\n乌鲁克穆河\t烏魯克穆河\n乌龙面\t烏龍麵\n乏困\t乏困\n乐不可极\t樂不可極\n乐于\t樂於\n乐于助人\t樂於助人\n乐合彩\t樂合彩\n乐器钟\t樂器鐘\n乐团\t樂團\n乐坏了\t樂壞了\n乐坛\t樂壇\n乐府杂录\t樂府雜錄\n乐意于\t樂意於\n乐托\t樂託\n乐曲\t樂曲\n乐极则悲\t樂極則悲\n乐极忘形\t樂極忘形\n乐极悲来\t樂極悲來\n乐极悲生\t樂極悲生\n乐极生悲\t樂極生悲\n乐游原\t樂遊原\n乐理\t樂理\n乐祸幸灾\t樂禍幸災\n乐透彩\t樂透彩\n乐里\t樂里\n乐里镇\t樂里鎮\n乐颠了馅\t樂顛了餡\n乒乓球台\t乒乓球檯\n乔修亚\t喬修亞\n乔做胡为\t喬做胡為\n乔岳\t喬嶽\n乔布斯\t喬布斯\n乔德里\t喬德里\n乔志\t喬志\n乔才\t喬才\n乔杰立\t喬傑立\n乔松\t喬松\n乔松之寿\t喬松之壽\n乔治克隆尼\t喬治克隆尼\n乔治克鲁尼\t喬治克魯尼\n乖别\t乖別\n乘了\t乘了\n乘云\t乘雲\n乘凶完配\t乘凶完配\n乘奔御风\t乘奔御風\n乘法表\t乘法表\n乘胜\t乘勝\n乘胜追击\t乘勝追擊\n乘胜逐北\t乘勝逐北\n乘鹤驾云\t乘鶴駕雲\n乙丑\t乙丑\n乙种\t乙種\n乙种射线\t乙種射線\n乙种粒子\t乙種粒子\n乙种维生素\t乙種維生素\n九世之仇\t九世之仇\n九个\t九個\n九个人\t九個人\n九个月\t九個月\n九九乘法表\t九九乘法表\n九九表\t九九表\n九亿五千万\t九億五千萬\n九余\t九餘\n九冬\t九冬\n九出戏\t九齣戲\n九出祁山\t九出祁山\n九分钟\t九分鐘\n九划\t九劃\n九千点\t九千點\n九只\t九隻\n九台\t九臺\n九台市\t九臺市\n九合\t九合\n九合一匡\t九合一匡\n九吊六的\t九吊六的\n九回肠\t九迴腸\n九天后\t九天後\n九宵云\t九宵雲\n九宵云外\t九宵雲外\n九扎\t九紮\n九折\t九折\n九折优待\t九折優待\n九折臂\t九折臂\n九曲\t九曲\n九曲桥\t九曲橋\n九曲洞\t九曲洞\n九杯\t九杯\n九点钟\t九點鐘\n九炼成钢\t九鍊成鋼\n九百万\t九百萬\n九百个\t九百個\n九秋\t九秋\n九秒钟\t九秒鐘\n九章算术\t九章算術\n九谷\t九穀\n九里\t九里\n九里余\t九里餘\n九里区\t九里區\n九针\t九針\n九零后\t九零後\n九霄云外\t九霄雲外\n九面体\t九面體\n九香虫\t九香蟲\n九龙杯\t九龍杯\n九龙表行\t九龍表行\n乞力马扎罗山\t乞力馬扎羅山\n乞留恶滥\t乞留惡濫\n乞留曲律\t乞留曲律\n也不尽然\t也不盡然\n也克制\t也剋制\n也向\t也向\n也对于\t也對於\n也念\t也念\n也斗了胆\t也斗了膽\n也是\t也是\n也有\t也有\n也舍下\t也捨下\n也须\t也須\n习于\t習於\n习惯于\t習慣於\n习玩\t習翫\n习非胜是\t習非勝是\n乡党\t鄉黨\n乡党尚齿\t鄉黨尚齒\n乡团\t鄉團\n乡土艺术\t鄉土藝術\n乡愿\t鄉愿\n乡曲\t鄉曲\n乡曲之誉\t鄉曲之譽\n乡民代表\t鄉民代表\n乡民代表会\t鄉民代表會\n乡里\t鄉里\n乡里小人\t鄉里小人\n乡镇代表\t鄉鎮代表\n乡镇民代表\t鄉鎮民代表\n乡间别墅\t鄉間別墅\n乡面\t鄉面\n书不尽\t書不盡\n书不尽言\t書不盡言\n书中自有千钟粟\t書中自有千鍾粟\n书写不能症\t書寫不能症\n书刊杂志\t書刊雜誌\n书卷\t書卷\n书卷奖\t書卷獎\n书卷气\t書卷氣\n书台\t書檯\n书后\t書後\n书呆子\t書呆子\n书坛\t書壇\n书录\t書錄\n书报杂志\t書報雜誌\n书本里\t書本裡\n书柜\t書櫃\n书种\t書種\n书签\t書籤\n书系\t書系\n书虫\t書蟲\n书虫子\t書蟲子\n书面\t書面\n书面上\t書面上\n书面报告\t書面報告\n书面纸\t書面紙\n书面许可\t書面許可\n书面语\t書面語\n书面资料\t書面資料\n乩坛\t乩壇\n买一个饶一个\t買一個饒一個\n买了\t買了\n买价\t買價\n买凶\t買兇\n买咸鱼放生\t買鹹魚放生\n买回\t買回\n买回去\t買回去\n买回家\t買回家\n买回来\t買回來\n买大彩\t買大彩\n买汇\t買匯\n买烟\t買菸\n买物历\t買物歷\n买臣覆水\t買臣覆水\n买闲钱\t買閒錢\n买面子\t買面子\n买风云雷雨\t買風雲雷雨\n乱世凶年\t亂世凶年\n乱世里\t亂世裡\n乱了\t亂了\n乱了手脚\t亂了手腳\n乱作一团\t亂作一團\n乱党\t亂黨\n乱冲\t亂衝\n乱发\t亂髮\n乱发号令\t亂發號令\n乱发帖子\t亂發帖子\n乱发消息\t亂發消息\n乱发脾气\t亂發脾氣\n乱发言\t亂發言\n乱发议论\t亂發議論\n乱发讯息\t亂發訊息\n乱发通告\t亂發通告\n乱发邮件\t亂發郵件\n乱哄\t亂鬨\n乱哄不过来\t亂鬨不過來\n乱哄哄\t亂鬨鬨\n乱成一团\t亂成一團\n乱扣\t亂扣\n乱搞男女关系\t亂搞男女關係\n乱松松\t亂鬆鬆\n乱极则平\t亂極則平\n乱棒胡敲\t亂棒胡敲\n乱涂\t亂塗\n乱针绣\t亂針繡\n乱集团\t亂集團\n乱首垢面\t亂首垢面\n乳制品\t乳製品\n乳娘\t乳娘\n乳液聚合\t乳液聚合\n乳糖不耐症\t乳糖不耐症\n乳臭未干\t乳臭未乾\n乳药求死\t乳藥求死\n乾元\t乾元\n乾兑\t乾兌\n乾卦\t乾卦\n乾坤一掷\t乾坤一擲\n乾坤再造\t乾坤再造\n乾坤大挪移\t乾坤大挪移\n乾尽午中\t乾盡午中\n乾象历\t乾象曆\n乾隆\t乾隆\n乾隆年间\t乾隆年間\n乾隆皇帝\t乾隆皇帝\n了不得\t了不得\n了不成\t了不成\n了不起\t了不起\n了了\t了了\n了事\t了事\n了事环\t了事環\n了债\t了債\n了儿\t了兒\n了决\t了決\n了劣\t了劣\n了却\t了卻\n了却此生\t了卻此生\n了去\t了去\n了如指掌\t瞭如指掌\n了局\t了局\n了帐\t了帳\n了当\t了當\n了当不得\t了當不得\n了得\t了得\n了得了\t了得了\n了悟\t了悟\n了愿\t了願\n了手\t了手\n了收\t了收\n了断\t了斷\n了无\t了無\n了无挂碍\t了無掛礙\n了无新意\t了無新意\n了无牵挂\t了無牽掛\n了无生机\t了無生機\n了无生趣\t了無生趣\n了无痕迹\t了無痕跡\n了无罣碍\t了無罣礙\n了无长进\t了無長進\n了望\t瞭望\n了望台\t瞭望臺\n了望塔\t瞭望塔\n了望山\t瞭望山\n了望所\t瞭望所\n了案\t了案\n了此残生\t了此殘生\n了毕\t了畢\n了海里\t了海裡\n了清\t了清\n了然\t瞭然\n了然不惑\t瞭然不惑\n了然于心\t瞭然於心\n了纳\t了納\n了结\t了結\n了若指掌\t瞭若指掌\n了落\t了落\n了解\t瞭解\n了解到\t瞭解到\n了讫\t了訖\n了话\t了話\n了语\t了語\n了账\t了賬\n了身达命\t了身達命\n了鸟\t了鳥\n争了\t爭了\n争先发言\t爭先發言\n争先后\t爭先後\n争先恐后\t爭先恐後\n争出\t爭出\n争奇斗妍\t爭奇鬥妍\n争奇斗异\t爭奇鬥異\n争奇斗艳\t爭奇鬥艷\n争妍斗奇\t爭妍鬥奇\n争妍斗胜\t爭妍鬥勝\n争妍斗艳\t爭妍鬥艷\n争强好胜\t爭強好勝\n争强斗胜\t爭強鬥勝\n争强显胜\t爭強顯勝\n争强赌胜\t爭強賭勝\n争斗\t爭鬥\n争斗不休\t爭鬥不休\n争相罗致\t爭相羅致\n争红斗紫\t爭紅鬥紫\n争胜\t爭勝\n";

/// Part 8 of the text.
pub const ST_PHRASES_8: &'static str = "争胜要强\t爭勝要強\n争闲气\t爭閒氣\n争面子\t爭面子\n事与愿违\t事與願違\n事也干\t事也幹\n事出\t事出\n事出不意\t事出不意\n事出不测\t事出不測\n事出有因\t事出有因\n事前事后\t事前事後\n事发\t事發\n事发地点\t事發地點\n事发时\t事發時\n事可干\t事可幹\n事后\t事後\n事后聪明\t事後聰明\n事后诸葛亮\t事後諸葛亮\n事好干\t事好幹\n事实胜于雄辩\t事實勝於雄辯\n事干\t事幹\n事态发展\t事態發展\n事情可干\t事情可幹\n事情好干\t事情好幹\n事情干脆\t事情干脆\n事成之后\t事成之後\n事有斗巧\t事有鬥巧\n事迹\t事蹟\n二丁挂\t二丁掛\n二仑\t二崙\n二仑乡\t二崙鄉\n二价\t二價\n二余\t二餘\n二党制\t二黨制\n二六板\t二六板\n二冲程引擎\t二衝程引擎\n二出祁山\t二出祁山\n二分钟\t二分鐘\n二划\t二劃\n二十二史札记\t二十二史劄記\n二叠系\t二疊系\n二口虫\t二口蟲\n二只\t二隻\n二台\t二臺\n二叶松\t二葉松\n二合一\t二合一\n二吊六\t二吊六\n二周\t二週\n二和药\t二和藥\n二回\t二回\n二回熟\t二回熟\n二堂舍子\t二堂舍子\n二天后\t二天後\n二姑娘顽老雕\t二姑娘頑老雕\n二娘\t二娘\n二娘子\t二娘子\n二屋里\t二屋裡\n二年制\t二年制\n二弦\t二絃\n二志\t二志\n二恶英\t二噁英\n二手烟\t二手菸\n二拉八当\t二拉八當\n二撇胡\t二撇鬍\n二斗\t二斗\n二杆子\t二桿子\n二杯\t二杯\n二板\t二板\n二极\t二極\n二极体\t二極體\n二柜\t二櫃\n二次曲\t二次曲\n二次曲线\t二次曲線\n二次曲面\t二次曲面\n二段制\t二段制\n二流人才\t二流人才\n二点钟\t二點鐘\n二班制\t二班制\n二田制\t二田制\n二百万\t二百萬\n二百个\t二百個\n二百多万\t二百多萬\n二种\t二種\n二秒钟\t二秒鐘\n二缶钟惑\t二缶鐘惑\n二老板\t二老闆\n二胡\t二胡\n二致\t二致\n二苏\t二蘇\n二虎相斗\t二虎相鬥\n二表哥\t二表哥\n二表妹\t二表妹\n二表姊\t二表姊\n二表姊夫\t二表姊夫\n二表姐\t二表姐\n二表嫂\t二表嫂\n二表弟\t二表弟\n二进位制\t二進位制\n二进制\t二進制\n二部制\t二部制\n二部合唱\t二部合唱\n二部曲\t二部曲\n二里\t二里\n二里头\t二里頭\n二里头文化\t二里頭文化\n二重分类表\t二重分類表\n二门不出\t二門不出\n二面角\t二面角\n二项式系数\t二項式係數\n于一\t於一\n于一役\t於一役\n于七\t於七\n于三\t於三\n于丑\t於醜\n于世\t於世\n于丹\t于丹\n于之\t於之\n于乎\t於乎\n于九\t於九\n于事\t於事\n于事无济\t於事無濟\n于事无补\t於事無補\n于二\t於二\n于于\t于于\n于五\t於五\n于人\t於人\n于仁泰\t于仁泰\n于今\t於今\n于今犹烈\t於今猶烈\n于从濂\t于從濂\n于他\t於他\n于伏\t於伏\n于会泳\t于會泳\n于伟国\t于偉國\n于何\t於何\n于余曲折\t于餘曲折\n于你\t於你\n于佳卉\t于佳卉\n于光远\t于光遠\n于克勒\t于克勒\n于八\t於八\n于六\t於六\n于冕\t于冕\n于军\t于軍\n于农\t於農\n于凌奎\t于凌奎\n于凤桐\t于鳳桐\n于凤至\t于鳳至\n于前\t於前\n于劣\t於劣\n于勒\t于勒\n于勤\t於勤\n于化虎\t于化虎\n于十\t於十\n于半\t於半\n于占元\t于占元\n于双戈\t于雙戈\n于台烟\t于臺煙\n于右任\t于右任\n于吉\t于吉\n于后\t於後\n于呼哀哉\t於呼哀哉\n于品海\t于品海\n于嗟\t于嗟\n于四\t於四\n于国\t於國\n于国桢\t于國楨\n于坚\t于堅\n于垂\t於垂\n于墙\t於牆\n于大宝\t于大寶\n于天仁\t于天仁\n于夫罗\t於夫羅\n于奇库杜克\t于奇庫杜克\n于她\t於她\n于好\t於好\n于始\t於始\n于姓\t于姓\n于娜\t于娜\n于娟\t于娟\n于子千\t于子千\n于孔兼\t于孔兼\n于学忠\t于學忠\n于它\t於它\n于家\t於家\n于家为国\t於家為國\n于家堡\t于家堡\n于密\t於密\n于寘\t于寘\n于小伟\t于小偉\n于小彤\t于小彤\n于尔岑\t于爾岑\n于尔根\t于爾根\n于尔里克\t于爾里克\n于尽\t於盡\n于山\t于山\n于山国\t于山國\n于左\t於左\n于差\t於差\n于己\t於己\n于市\t於市\n于帅\t于帥\n于幕\t於幕\n于幼军\t于幼軍\n于幼华\t於幼華\n于广洲\t于廣洲\n于康震\t于康震\n于式枚\t于式枚\n于弱\t於弱\n于强\t於強\n于归\t于歸\n于征\t於徵\n于徐\t于徐\n于德海\t于德海\n于心\t於心\n于心不安\t於心不安\n于心不忍\t於心不忍\n于心何忍\t於心何忍\n于心无愧\t於心無愧\n于志宁\t于志寧\n于怀\t於懷\n于思\t于思\n于慎行\t于慎行\n于慧\t于慧\n于戏\t於戲\n于成龙\t于成龍\n于我\t於我\n于振\t于振\n于振武\t于振武\n于敏\t于敏\n于敏中\t于敏中\n于敝\t於敝\n于斌\t于斌\n于斯\t於斯\n于斯塔德\t于斯塔德\n于斯纳尔斯贝里\t于斯納爾斯貝里\n于斯达尔\t于斯達爾\n于时\t於時\n于明涛\t于明濤\n于是\t於是\n于是之\t於是之\n于是乎\t於是乎\n于是就\t於是就\n于晨楠\t于晨楠\n于晴\t于晴\n于杰\t于傑\n于树洁\t于樹潔\n于根伟\t于根偉\n于格\t于格\n于梨华\t於梨華\n于欣源\t于欣源\n于正升\t于正昇\n于正昌\t于正昌\n于此\t於此\n于毕\t於畢\n于民\t於民\n于民润国\t於民潤國\n于水\t於水\n于永波\t于永波\n于汉超\t于漢超\n于江震\t于江震\n于法\t於法\n于法无据\t於法無據\n于波\t于波\n于泽尔\t于澤爾\n于洪区\t于洪區\n于浩威\t于浩威\n于海洋\t于海洋\n于涛\t于濤\n于湘兰\t于湘蘭\n于潜县\t於潛縣\n于火\t於火\n于焉\t於焉\n于物\t於物\n于特森\t于特森\n于玉立\t于玉立\n于田\t于田\n于田县\t于田縣\n于盲\t於盲\n于祂\t於祂\n于禁\t于禁\n于秀敏\t于秀敏\n于穆\t於穆\n于素秋\t于素秋\n于终\t於終\n于美\t於美\n于美人\t於美人\n于色\t於色\n于若木\t于若木\n于荫霖\t于蔭霖\n于菟\t於菟\n于蓝\t於藍\n于行\t於行\n于衡\t于衡\n于衷\t於衷\n于西翰\t于西翰\n于该\t於該\n于谦\t于謙\n于贝尔\t于貝爾\n于赠\t于贈\n于越\t于越\n于过\t於過\n于远伟\t于遠偉\n于途\t於途\n于道泉\t于道泉\n于邑\t於邑\n于都\t于都\n于都县\t于都縣\n于里察\t于里察\n于野\t於野\n于阗\t于闐\n于陆\t於陸\n于雾霭之中\t於霧靄之中\n于震寰\t于震寰\n于震环\t于震環\n于靖\t于靖\n于韦斯屈莱\t于韋斯屈萊\n于风政\t于風政\n于飞\t于飛\n于飞之乐\t于飛之樂\n于馀曲折\t于餘曲折\n于默奥\t于默奧\n亏不尽\t虧不盡\n亏了\t虧了\n亏折\t虧折\n亏本出售\t虧本出售\n云中\t雲中\n云中君\t雲中君\n云中白鹤\t雲中白鶴\n云为\t云為\n云乎\t云乎\n云乐镇\t雲樂鎮\n云云\t云云\n云从龙风从虎\t雲從龍風從虎\n云仙杂记\t雲仙雜記\n云何\t云何\n云儿\t雲兒\n云兴霞蔚\t雲興霞蔚\n云冈\t雲岡\n云冈石佛\t雲岡石佛\n云冈石窟\t雲岡石窟\n云出无心\t雲出無心\n云华\t雲華\n云南\t雲南\n云南回变\t雲南回變\n云南白药\t雲南白藥\n云南省\t雲南省\n云南起义\t雲南起義\n云南黄馨\t雲南黃馨\n云县\t雲縣\n云台\t雲臺\n云台山\t雲臺山\n云合雾集\t雲合霧集\n云吞\t雲吞\n云吞面\t雲吞麵\n云和\t雲和\n云和县\t雲和縣\n云嘉南\t雲嘉南\n云团\t雲團\n云图\t雲圖\n云城区\t云城區\n云天\t雲天\n云天昊\t雲天昊\n云天高谊\t雲天高誼\n云头\t雲頭\n云头儿\t雲頭兒\n云子\t雲子\n云孙\t雲孫\n云安\t雲安\n云安县\t雲安縣\n云实\t雲實\n云室\t雲室\n云小啾\t雲小啾\n";

/// Part 9 of the text.
pub const ST_PHRASES_9: &'static str = "云尔\t云爾\n云层\t雲層\n云屏\t雲屏\n云屯雨集\t雲屯雨集\n云山\t雲山\n云山雾罩\t雲山霧罩\n云岩区\t雲巖區\n云岭\t雲嶺\n云帆\t雲帆\n云师\t雲師\n云帚\t雲帚\n云开见日\t雲開見日\n云形定规\t雲形定規\n云彩\t雲彩\n云影\t雲影\n云情雨意\t雲情雨意\n云房\t雲房\n云手\t雲手\n云扰\t雲擾\n云收雨散\t雲收雨散\n云收雾散\t雲收霧散\n云散\t雲散\n云散风流\t雲散風流\n云景\t雲景\n云朵\t雲朵\n云杉\t雲杉\n云板\t雲板\n云林\t雲林\n云林人\t雲林人\n云林县\t雲林縣\n云林寺\t雲林寺\n云林工专\t雲林工專\n云林科技大学\t雲林科技大學\n云林讯\t雲林訊\n云栈\t雲棧\n云根\t雲根\n云梢\t雲梢\n云梦\t雲夢\n云梦县\t雲夢縣\n云梦大泽\t雲夢大澤\n云梯\t雲梯\n云梯车\t雲梯車\n云步\t雲步\n云母\t雲母\n云母片\t雲母片\n云母石\t雲母石\n云气\t雲氣\n云水\t雲水\n云水僧\t雲水僧\n云水道人\t雲水道人\n云汉\t雲漢\n云河\t雲河\n云泥\t雲泥\n云泥之别\t雲泥之別\n云泥异路\t雲泥異路\n云浮\t雲浮\n云浮市\t雲浮市\n云海\t雲海\n云消雨散\t雲消雨散\n云消雾散\t雲消霧散\n云涌\t雲湧\n云涛\t雲濤\n云液\t雲液\n云淡风轻\t雲淡風輕\n云游\t雲遊\n云游四方\t雲遊四方\n云溪\t雲溪\n云溪区\t雲溪區\n云烟\t雲煙\n云烟过眼\t雲煙過眼\n云烟过眼录\t雲煙過眼錄\n云然\t云然\n云片糕\t雲片糕\n云版\t雲版\n云物\t雲物\n云石\t雲石\n云科大\t雲科大\n云程发轫\t雲程發軔\n云窗雾槛\t雲窗霧檻\n云章\t雲章\n云端\t雲端\n云端里看厮杀\t雲端裡看廝殺\n云端里老鼠\t雲端裡老鼠\n云笈七签\t雲笈七籤\n云篦\t雲篦\n云精\t雲精\n云系\t雲系\n云网\t雲網\n云翳\t雲翳\n云翻雨复\t雲翻雨覆\n云肩\t雲肩\n云腿\t雲腿\n云芝\t雲芝\n云英\t雲英\n云英未嫁\t雲英未嫁\n云莽莽\t雲莽莽\n云蒸霞蔚\t雲蒸霞蔚\n云行雨施\t雲行雨施\n云表\t雲表\n云西市\t雲西市\n云谲波诡\t雲譎波詭\n云谷\t雲谷\n云豆\t雲豆\n云豹\t雲豹\n云贵\t雲貴\n云贵川\t雲貴川\n云贵高原\t雲貴高原\n云起龙骧\t雲起龍驤\n云路\t雲路\n云车\t雲車\n云车风马\t雲車風馬\n云遮月\t雲遮月\n云量\t雲量\n云锣\t雲鑼\n云锦\t雲錦\n云门\t雲門\n云门舞集\t雲門舞集\n云阳\t雲陽\n云阳县\t雲陽縣\n云阳市\t雲陽市\n云阶月地\t雲階月地\n云际\t雲際\n云雀\t雲雀\n云集\t雲集\n云雨\t雲雨\n云雨之欢\t雲雨之歡\n云雨巫山\t雲雨巫山\n云雨高唐\t雲雨高唐\n云雾\t雲霧\n云雾径迹\t雲霧徑跡\n云霄\t雲霄\n云霄县\t雲霄縣\n云霄飞车\t雲霄飛車\n云霓\t雲霓\n云霓之望\t雲霓之望\n云霞\t雲霞\n云霭\t雲靄\n云顶\t雲頂\n云须\t雲鬚\n云髻\t雲髻\n云鬓\t雲鬢\n云鬟\t雲鬟\n云麾勋章\t雲麾勳章\n云麾将军碑\t雲麾將軍碑\n云龙\t雲龍\n云龙区\t雲龍區\n云龙县\t雲龍縣\n云龙风虎\t雲龍風虎\n互不干涉\t互不干涉\n互不干涉内政\t互不干涉內政\n互于\t互於\n互别苗头\t互別苗頭\n互制\t互制\n互动关系\t互動關係\n互动台\t互動臺\n互助合作\t互助合作\n互发\t互發\n互向\t互向\n互托\t互託\n互托肝胆\t互託肝膽\n互换\t互換\n互有胜负\t互有勝負\n互生叶\t互生葉\n互相联系\t互相聯繫\n互致问候\t互致問候\n互蒙其利\t互蒙其利\n互鉴\t互鑑\n五七干校\t五七幹校\n五七干部学校\t五七幹部學校\n五万\t五萬\n五万三千\t五萬三千\n五万两千\t五萬兩千\n五万五千\t五萬五千\n五万八千\t五萬八千\n五世同堂\t五世同堂\n五个\t五個\n五代同堂\t五代同堂\n五余\t五餘\n五倍子虫\t五倍子蟲\n五克\t五克\n五党\t五黨\n五公里\t五公里\n五出戏\t五齣戲\n五出祁山\t五出祁山\n五分钟\t五分鐘\n五划\t五劃\n五十五万\t五十五萬\n五十六万\t五十六萬\n五十多万\t五十多萬\n五千\t五千\n五千多万\t五千多萬\n五发\t五發\n五只\t五隻\n五台\t五臺\n五台县\t五臺縣\n五台山\t五臺山\n五台市\t五臺市\n五叶\t五葉\n五周\t五週\n五周年\t五週年\n五天后\t五天後\n五岳\t五嶽\n五年计划\t五年計劃\n五度制调值标记法\t五度制調值標記法\n五弦\t五絃\n五彩\t五彩\n五彩夺目\t五彩奪目\n五彩宾纷\t五彩賓紛\n五彩缤纷\t五彩繽紛\n五扎\t五紮\n五折\t五折\n五斗\t五斗\n五斗折腰\t五斗折腰\n五斗柜\t五斗櫃\n五斗橱\t五斗櫥\n五斗米\t五斗米\n五斗米道\t五斗米道\n五斗解酲\t五斗解酲\n五杯\t五杯\n五板\t五板\n五棵松\t五棵松\n五浊恶世\t五濁惡世\n五溪\t五谿\n五点钟\t五點鐘\n五百万\t五百萬\n五百个\t五百個\n五百多万\t五百多萬\n五百姻缘天注定\t五百姻緣天註定\n五种\t五種\n五种性\t五種性\n五秒钟\t五秒鐘\n五笔划\t五筆劃\n五育并重\t五育並重\n五胡\t五胡\n五胡之乱\t五胡之亂\n五胡乱华\t五胡亂華\n五胡十六国\t五胡十六國\n五脏\t五臟\n五脏俱全\t五臟俱全\n五脏六腑\t五臟六腑\n五脏庙\t五臟廟\n五脏神\t五臟神\n五色祥云\t五色祥雲\n五花腌猪肉\t五花醃豬肉\n五虫\t五蟲\n五行并下\t五行並下\n五行生克\t五行生剋\n五谷\t五穀\n五谷不分\t五穀不分\n五谷不升\t五穀不升\n五谷丰收\t五穀豐收\n五谷丰登\t五穀豐登\n五谷丰稔\t五穀豐稔\n五谷杂粮\t五穀雜糧\n五谷王北街\t五谷王北街\n五谷王南街\t五谷王南街\n五辟\t五辟\n五采\t五采\n五里\t五里\n五里雾\t五里霧\n五里雾中\t五里霧中\n五面\t五面\n五面体\t五面體\n五马分尸\t五馬分屍\n井台\t井臺\n井干\t井榦\n井干摧败\t井榦摧敗\n井田制\t井田制\n井田制度\t井田制度\n井道里\t井道裡\n井里\t井裡\n亘古\t亙古\n亚东关系\t亞東關係\n亚于\t亞於\n亚克力\t亞克力\n亚克朗\t亞克朗\n亚利叶\t亞利葉\n亚力克\t亞力克\n亚历\t亞歷\n亚历山大\t亞歷山大\n亚历桑\t亞歷桑\n亚当\t亞當\n亚当山德勒\t亞當山德勒\n亚当斯\t亞當斯\n亚当斯密\t亞當斯密\n亚得里亚海\t亞得里亞海\n亚德安布洛迪\t亞德安布洛迪\n亚松森\t亞松森\n亚核\t亞核\n亚洲周刊\t亞洲週刊\n亚洲杯\t亞洲盃\n亚穆苏克罗\t亞穆蘇克羅\n亚美利加人种\t亞美利加人種\n亚美尼亚历\t亞美尼亞曆\n亚词汇单元\t亞詞彙單元\n亚里\t亞里\n亚里士多德\t亞里士多德\n亚里斯多德\t亞里斯多德\n亚里斯提\t亞里斯提\n亚雷克斯\t亞雷克斯\n亚青杯\t亞青盃\n亚麻布\t亞麻布\n亟欲\t亟欲\n亟须\t亟須\n亡了\t亡了\n亡国灭种\t亡國滅種\n交个\t交個\n交了\t交了\n交于\t交於\n交出\t交出\n交出去\t交出去\n交出来\t交出來\n交割价\t交割價\n交卷\t交卷\n交叉耐药性\t交叉耐藥性\n交发\t交發\n交口称赞\t交口稱讚\n交合\t交合\n交哄\t交鬨\n交响乐团\t交響樂團\n交响曲\t交響曲\n交回\t交回\n交回去\t交回去\n交回来\t交回來\n交困\t交困\n交差了事\t交差了事\n交并\t交併\n交恶\t交惡\n交战团体\t交戰團體\n交托\t交託\n交换\t交換\n交换价值\t交換價值\n交换技术\t交換技術\n交易价\t交易價\n交易台\t交易臺\n交杯\t交杯\n交杯盏\t交杯盞\n交杯酒\t交杯酒\n交汇\t交匯\n交汇处\t交匯處\n交流团\t交流團\n交游\t交遊\n交游广阔\t交遊廣闊\n交白卷\t交白卷\n交货价\t交貨價\n交通号志\t交通號誌\n";

/// Part 10 of the text.
pub const ST_PHRASES_10: &'static str = "交通标志\t交通標誌\n交通管制\t交通管制\n交面\t交面\n亦云\t亦云\n亦同\t亦同\n亦对于\t亦對於\n亦庄亦谐\t亦莊亦諧\n亦当\t亦當\n亦舍下\t亦捨下\n亦须\t亦須\n产业别\t產業別\n产业后备\t產業後備\n产业链\t產業鏈\n产出\t產出\n产制\t產製\n产卵洄游\t產卵洄游\n产后\t產後\n产后检查\t產後檢查\n产品组合\t產品組合\n产地价格\t產地價格\n产婆术\t產婆術\n产学合作\t產學合作\n产生出\t產生出\n产销合一\t產銷合一\n产销合同\t產銷合同\n亨利克森\t亨利克森\n亨塞克\t亨塞克\n享尽\t享盡\n享御\t享御\n京二胡\t京二胡\n京胡\t京胡\n亭台\t亭臺\n亭台楼榭\t亭臺樓榭\n亭台楼阁\t亭臺樓閣\n亭彩\t亭彩\n亭彩店\t亭彩店\n亮丑\t亮醜\n亮光蜡\t亮光蠟\n亮彩\t亮彩\n亮钟\t亮鐘\n亲历\t親歷\n亲历其境\t親歷其境\n亲友团\t親友團\n亲台\t親臺\n亲娘\t親娘\n亲子关系\t親子關係\n亲子台\t親子臺\n亲子鉴定\t親子鑑定\n亲密关系\t親密關係\n亲属关系\t親屬關係\n亲幸\t親倖\n亲征\t親征\n亲戚\t親戚\n亲戚关系\t親戚關係\n亲戚里\t親戚裡\n亲极反疏\t親極反疏\n亲民党\t親民黨\n亲痛仇快\t親痛仇快\n亲笔签名\t親筆簽名\n亲系\t親系\n亲缘关系\t親緣關係\n亲自出马\t親自出馬\n亲自干\t親自幹\n亲自挂帅\t親自掛帥\n亲身经历\t親身經歷\n亹亹不卷\t亹亹不卷\n人中豪杰\t人中豪傑\n人为万物之灵\t人為萬物之靈\n人云\t人云\n人云亦云\t人云亦云\n人众胜天\t人眾勝天\n人体彩绘\t人體彩繪\n人克莱门斯\t人克萊門斯\n人出现\t人出現\n人别哭\t人別哭\n人到中年万事休\t人到中年萬事休\n人制\t人制\n人制作\t人製作\n人制造\t人製造\n人前人后\t人前人後\n人力回天\t人力回天\n人千人万\t人千人萬\n人参\t人參\n人参果\t人參果\n人参精\t人參精\n人口分布\t人口分佈\n人各有志\t人各有志\n人同此心\t人同此心\n人同此心心同此理\t人同此心心同此理\n人后\t人後\n人团法\t人團法\n人困马乏\t人困馬乏\n人如其面\t人如其面\n人如风后入江云\t人如風後入江雲\n人定胜天\t人定勝天\n人寿年丰\t人壽年豐\n人尽其才\t人盡其才\n人尽可夫\t人盡可夫\n人尽皆知\t人盡皆知\n人工冬眠\t人工冬眠\n人工心脏\t人工心臟\n人工阅卷\t人工閱卷\n人心不同\t人心不同\n人心向背\t人心向背\n人心如面\t人心如面\n人心所向\t人心所向\n人心涣漓\t人心渙漓\n人性本恶\t人性本惡\n人才\t人才\n人才出众\t人才出眾\n人才外流\t人才外流\n人才库\t人才庫\n人才流失\t人才流失\n人才济济\t人才濟濟\n人才辈出\t人才輩出\n人才难得\t人才難得\n人数\t人數\n人无千日\t人無千日\n人机介面\t人機介面\n人机界面\t人機界面\n人权斗士\t人權鬥士\n人杰\t人傑\n人杰地灵\t人傑地靈\n人极\t人極\n人欲\t人慾\n人欲横流\t人慾橫流\n人民代表\t人民代表\n人民党\t人民黨\n人民团体\t人民團體\n人民意志\t人民意志\n人流手术\t人流手術\n人浮于事\t人浮於事\n人浮于食\t人浮於食\n人海战术\t人海戰術\n人烟\t人煙\n人烟凑集\t人煙湊集\n人烟浩穰\t人煙浩穰\n人烟稀少\t人煙稀少\n人烟稠密\t人煙稠密\n人烟辐辏\t人煙輻輳\n人物志\t人物誌\n人生价值\t人生價值\n人生舞台\t人生舞臺\n人生里\t人生裡\n人神同愤\t人神同憤\n人种\t人種\n人种学\t人種學\n人种差别\t人種差別\n人穷志不穷\t人窮志不窮\n人穷志短\t人窮志短\n人老精姜老辣\t人老精薑老辣\n人胜节\t人勝節\n人赃俱获\t人贓俱獲\n人造板\t人造板\n人造纤维\t人造纖維\n人链\t人鏈\n人间烟火\t人間煙火\n人际关系\t人際關係\n人面\t人面\n人面上\t人面上\n人面兽心\t人面獸心\n人面桃花\t人面桃花\n人面狮身\t人面獅身\n人面逐高低\t人面逐高低\n人饥己饥\t人飢己飢\n亿万\t億萬\n亿万富翁\t億萬富翁\n亿万富豪\t億萬富豪\n亿万斯年\t億萬斯年\n亿个\t億個\n亿余\t億餘\n亿只\t億隻\n亿多只\t億多隻\n亿天后\t億天後\n什不闲\t什不閒\n什么\t什麼\n什叶派\t什葉派\n什里店\t什里店\n什锦炒面\t什錦炒麵\n什锦面\t什錦麵\n什面\t什面\n仁人志士\t仁人志士\n仁布\t仁布\n仁布县\t仁布縣\n仁心仁术\t仁心仁術\n仁术\t仁術\n仁杰\t仁杰\n仁武厂\t仁武廠\n仁至义尽\t仁至義盡\n仅余\t僅餘\n仅作参考\t僅作參考\n仅供参考\t僅供參考\n仅占\t僅佔\n仅只\t僅只\n仅次于\t僅次於\n仆人\t僕人\n仆仆\t僕僕\n仆仆风尘\t僕僕風塵\n仆从\t僕從\n仆使\t僕使\n仆倒\t仆倒\n仆僮\t僕僮\n仆僮成群\t僕僮成群\n仆吏\t僕吏\n仆固怀恩\t僕固懷恩\n仆地\t仆地\n仆夫\t僕伕\n仆妇\t僕婦\n仆姑\t僕姑\n仆婢\t僕婢\n仆射\t僕射\n仆射姑\t僕射姑\n仆少\t僕少\n仆役\t僕役\n仆憎\t僕憎\n仆欧\t僕歐\n仆然\t仆然\n仆程\t僕程\n仆虽罢驽\t僕雖罷駑\n仆街\t仆街\n仇人\t仇人\n仇仇\t仇讎\n仇偶\t仇偶\n仇口儿\t仇口兒\n仇国论\t仇國論\n仇外心理\t仇外心理\n仇家\t仇家\n仇怨\t仇怨\n仇恨\t仇恨\n仇恨罪\t仇恨罪\n仇恨罪行\t仇恨罪行\n仇敌\t仇敵\n仇杀\t仇殺\n仇梓鸣\t仇梓鳴\n仇疙瘩\t仇疙瘩\n仇英\t仇英\n仇视\t仇視\n仇隙\t仇隙\n仇香\t仇香\n今儿个\t今兒個\n今冬\t今冬\n今后\t今後\n今周刊\t今周刊\n今秋\t今秋\n介于\t介於\n介于两难\t介於兩難\n介壳虫\t介殼蟲\n介系词\t介係詞\n介绍出来\t介紹出來\n介胄\t介冑\n介虫\t介蟲\n介面\t介面\n介面卡\t介面卡\n介面板\t介面板\n仍复\t仍復\n从上向下\t從上向下\n从下向上\t從下向上\n从事于\t從事於\n从于\t從於\n从今以后\t從今以後\n从价税\t從價稅\n从外向内\t從外向內\n从宽发落\t從寬發落\n从属于\t從屬於\n从属关系\t從屬關係\n从征实录\t從征實錄\n从征缅\t從征緬\n从心所欲\t從心所欲\n从此以后\t從此以後\n从此往后\t從此往後\n从海里\t從海裡\n从轻发落\t從輕發落\n从里到外\t從裡到外\n从里向外\t從裡向外\n仑丰村\t崙豐村\n仑背\t崙背\n仑背乡\t崙背鄉\n仓皇出逃\t倉皇出逃\n他了\t他了\n他克制\t他剋制\n他出\t他出\n他出去\t他出去\n他出来\t他出來\n他志\t他志\n他念\t他念\n他种\t他種\n他钟\t他鐘\n仗托\t仗托\n付了\t付了\n付出\t付出\n付出去\t付出去\n付出型\t付出型\n付合\t付合\n付托\t付託\n仙台\t仙台\n仙后\t仙后\n仙后座\t仙后座\n仙坛\t仙壇\n仙岩\t仙岩\n仙才\t仙才\n仙术\t仙術\n仙游\t仙遊\n仙游县\t仙遊縣\n仙药\t仙藥\n仙迹\t仙蹟\n仟克\t仟克\n仡栗\t仡栗\n代价\t代價\n代出\t代出\n代工厂\t代工廠\n代录\t代錄\n代扣\t代扣\n代数几何\t代數幾何\n代数曲线\t代數曲線\n代数曲面\t代數曲面\n代理\t代理\n代码表\t代碼表\n代签\t代簽\n代签人\t代簽人\n代表\t代表\n代表人\t代表人\n代表人物\t代表人物\n代表会\t代表會\n代表作\t代表作\n代表团\t代表團\n代表处\t代表處\n代表大会\t代表大會\n代表性\t代表性\n代表权\t代表權\n代表署\t代表署\n代表色\t代表色\n代表金\t代表金\n代表队\t代表隊\n代议制\t代議制\n令人发指\t令人髮指\n令人注目\t令人注目\n令出如山\t令出如山\n令出必行\t令出必行\n";

/// Part 11 of the text.
pub const ST_PHRASES_11: &'static str = "令出惟行\t令出惟行\n令岳\t令岳\n令狐冲\t令狐沖\n以一当十\t以一當十\n以一持万\t以一持萬\n以一知万\t以一知萬\n以一驭万\t以一馭萬\n以为是\t以為是\n以人为鉴\t以人為鑑\n以价制量\t以價制量\n以众克寡\t以眾克寡\n以免借口\t以免藉口\n以冰致蝇\t以冰致蠅\n以利于\t以利於\n以功覆过\t以功覆過\n以升量石\t以升量石\n以华制华\t以華制華\n以古为鉴\t以古為鑑\n以后\t以後\n以售其奸\t以售其奸\n以多胜少\t以多勝少\n以夷制夷\t以夷制夷\n以少克众\t以少克眾\n以少胜多\t以少勝多\n以弱制强\t以弱制強\n以弱胜强\t以弱勝強\n以往鉴来\t以往鑑來\n以意逆志\t以意逆志\n以智取胜\t以智取勝\n以暴制暴\t以暴制暴\n以柔克刚\t以柔克剛\n以柔制刚\t以柔制剛\n以泪洗面\t以淚洗面\n以点带面\t以點帶面\n以狸致鼠\t以貍致鼠\n以自制\t以自制\n以至于\t以至於\n以致\t以致\n以致于\t以致於\n以药养医\t以藥養醫\n以莛叩钟\t以莛叩鐘\n以莛撞钟\t以莛撞鐘\n以蜡代薪\t以蠟代薪\n以观后效\t以觀後效\n以防万一\t以防萬一\n以静制动\t以靜制動\n仪制\t儀制\n仪器表\t儀器表\n仪征\t儀徵\n仪征市\t儀徵市\n仪态万千\t儀態萬千\n仪态万方\t儀態萬方\n仪注\t儀注\n仪范\t儀範\n仪表\t儀表\n仪表出众\t儀表出眾\n仪表堂堂\t儀表堂堂\n仪表板\t儀表板\n仪表版\t儀表版\n仪表盘\t儀表盤\n仰之弥高\t仰之彌高\n仰叹\t仰嘆\n仰给于人\t仰給於人\n仰药\t仰藥\n仰面\t仰面\n仲冬\t仲冬\n仲秋\t仲秋\n仲裁制\t仲裁制\n件钟\t件鐘\n价位\t價位\n价值\t價值\n价值冲突\t價值衝突\n价值判断\t價值判斷\n价值增殖\t價值增殖\n价值尺度\t價值尺度\n价值工程\t價值工程\n价值形式\t價值形式\n价值感\t價值感\n价值指标\t價值指標\n价值标准\t價值標準\n价值观\t價值觀\n价值观念\t價值觀念\n价值规律\t價值規律\n价值论\t價值論\n价值连城\t價值連城\n价值逻辑\t價值邏輯\n价值量\t價值量\n价单\t價單\n价古\t价古\n价川\t价川\n价差\t價差\n价廉物美\t價廉物美\n价格\t價格\n价格冻结\t價格凍結\n价格战\t價格戰\n价格标\t價格標\n价格标签\t價格標籤\n价格范围\t價格範圍\n价格表\t價格表\n价款\t價款\n价比\t價比\n价电子\t價電子\n价目\t價目\n价目单\t價目單\n价目表\t價目表\n价码\t價碼\n价钱\t價錢\n任一个\t任一個\n任于\t任於\n任人摆布\t任人擺佈\n任务团\t任務團\n任教于\t任教於\n任期制\t任期制\n任由摆布\t任由擺佈\n任笔沈诗\t任筆沈詩\n任重致远\t任重致遠\n仿佛\t彷彿\n仿制\t仿製\n仿制品\t仿製品\n仿制药\t仿製藥\n企业团\t企業團\n企业系\t企業系\n企业集团\t企業集團\n企划\t企劃\n企划书\t企劃書\n企划人\t企劃人\n企划厅\t企劃廳\n企划处\t企劃處\n企划案\t企劃案\n企划组\t企劃組\n企划部\t企劃部\n企管系\t企管系\n伊万诺\t伊萬諾\n伊于湖底\t伊于湖底\n伊于胡底\t伊于胡底\n伊吉克\t伊吉克\n伊周\t伊周\n伊塞克湖\t伊塞克湖\n伊布拉欣\t伊布拉欣\n伊府面\t伊府麵\n伊拉克\t伊拉克\n伊拉克人\t伊拉克人\n伊拉克籍\t伊拉克籍\n伊拉克队\t伊拉克隊\n伊斯兰党\t伊斯蘭黨\n伊斯兰历\t伊斯蘭曆\n伊核\t伊核\n伊犁纵谷\t伊犁縱谷\n伊莱克斯\t伊萊克斯\n伊郁\t伊鬱\n伊里其\t伊里其\n伊里奇\t伊里奇\n伊里布\t伊里布\n伊里格瑞\t伊里格瑞\n伊面\t伊麵\n伍员鞭尸\t伍員鞭屍\n伍德合金\t伍德合金\n伍瑞克\t伍瑞克\n伍采克\t伍采克\n伏几\t伏几\n伏尸\t伏屍\n伏尸流血\t伏屍流血\n伏尸遍野\t伏屍遍野\n伏愿\t伏願\n伏胜\t伏勝\n伐异党同\t伐異黨同\n伐罪吊民\t伐罪弔民\n休仑湖\t休崙湖\n休克\t休克\n休征\t休徵\n休戚\t休戚\n休戚与共\t休戚與共\n休戚相关\t休戚相關\n休杰克曼\t休傑克曼\n休致\t休致\n休闲区\t休閒區\n休闲服\t休閒服\n休闲活动\t休閒活動\n休闲组\t休閒組\n休闲裤\t休閒褲\n休闲鞋\t休閒鞋\n休闲风\t休閒風\n休闲馆\t休閒館\n众口同声\t眾口同聲\n众口熏天\t眾口熏天\n众志成城\t眾志成城\n众所周知\t眾所周知\n众曲不容直\t眾曲不容直\n优于\t優於\n优先发展\t優先發展\n优势种\t優勢種\n优哉游哉\t優哉遊哉\n优惠价\t優惠價\n优惠价格\t優惠價格\n优游\t優遊\n优游不迫\t優遊不迫\n优游自在\t優遊自在\n优游自得\t優遊自得\n优胜\t優勝\n优胜劣败\t優勝劣敗\n优胜奖\t優勝獎\n优胜者\t優勝者\n优胜队\t優勝隊\n伙人\t夥人\n伙众\t夥眾\n伙伴\t夥伴\n伙伴国\t夥伴國\n伙伴龙\t夥伴龍\n伙办\t夥辦\n伙友\t夥友\n伙同\t夥同\n伙够\t夥夠\n伙夫\t伙伕\n伙头\t伙頭\n伙房\t伙房\n伙穿\t夥穿\n伙计\t夥計\n伙食\t伙食\n伙食团\t伙食團\n伙食费\t伙食費\n会上签署\t會上簽署\n会上签订\t會上簽訂\n会个\t會個\n会了\t會了\n会于\t會於\n会党\t會黨\n会出\t會出\n会出去\t會出去\n会出来\t會出來\n会升\t會升\n会占\t會佔\n会占卜\t會占卜\n会发\t會發\n会合\t會合\n会合周期\t會合週期\n会合处\t會合處\n会合点\t會合點\n会吊\t會弔\n会同\t會同\n会同县\t會同縣\n会后\t會後\n会员价\t會員價\n会员制\t會員制\n会员制作\t會員製作\n会员制造\t會員製造\n会员团\t會員團\n会场价\t會場價\n会客室里\t會客室裡\n会尽\t會盡\n会干\t會幹\n会干净\t會乾淨\n会干扰\t會干擾\n会干政\t會干政\n会干杯\t會乾杯\n会干枯\t會乾枯\n会干涉\t會干涉\n会干涸\t會乾涸\n会干脆\t會乾脆\n会干裂\t會乾裂\n会干预\t會干預\n会当\t會當\n会念\t會念\n会扣\t會扣\n会杯\t會杯\n会社里\t會社裡\n会种\t會種\n会签制度\t會簽制度\n会计分录\t會計分錄\n会计制度\t會計制度\n会计报表\t會計報表\n会计标准\t會計標準\n会计系\t會計系\n会议室里\t會議室裡\n会议记录\t會議記錄\n会逢其适\t會逢其適\n会长团\t會長團\n会面\t會面\n会面处\t會面處\n会须\t會須\n伞面\t傘面\n伟克适\t偉克適\n伟晶岩\t偉晶岩\n传习录\t傳習錄\n传于\t傳於\n传位于四太子\t傳位于四太子\n传出\t傳出\n传出去\t傳出去\n传出来\t傳出來\n传出神经\t傳出神經\n传制权\t傳制權\n传动系统\t傳動系統\n传动链\t傳動鏈\n传发\t傳發\n传回\t傳回\n传回来\t傳回來\n传布\t傳佈\n传心术\t傳心術\n传播出去\t傳播出去\n传播学系\t傳播學系\n传教团\t傳教團\n传杯弄盏\t傳杯弄盞\n传杯换盏\t傳杯換盞\n传杯送盏\t傳杯送盞\n传板\t傳板\n传灯录\t傳燈錄\n传热系数\t傳熱係數\n传真发送\t傳真發送\n传神秘要\t傳神秘要\n传种\t傳種\n传统中国医药\t傳統中國醫藥\n传统医药\t傳統醫藥\n传舍\t傳舍\n传译出\t傳譯出\n传赞\t傳贊\n传输技术\t傳輸技術\n传输控制\t傳輸控制\n传输控制协定\t傳輸控制協定\n传达出\t傳達出\n传达出来\t傳達出來\n传递出去\t傳遞出去\n传闻证据\t傳聞證據\n传颂千古\t傳頌千古\n伤了\t傷了\n伤亡枕藉\t傷亡枕藉\n伤别\t傷別\n伤口发炎\t傷口發炎\n伤寒杆菌\t傷寒桿菌\n伤寒症\t傷寒症\n伤心欲绝\t傷心欲絕\n伤心致死\t傷心致死\n伤痕累累\t傷痕累累\n伤药\t傷藥\n伤风克\t傷風克\n伦布雪\t倫布雪\n";

/// Part 12 of the text.
pub const ST_PHRASES_12: &'static str = "伦理\t倫理\n伦理规范\t倫理規範\n伪托\t偽託\n伪药\t偽藥\n伯余\t伯余\n伯克\t伯克\n伯克利\t伯克利\n伯克制度\t伯克制度\n伯克来\t伯克來\n伯南克\t伯南克\n伯娘\t伯娘\n伯尔发斯特\t伯爾發斯特\n伯杰\t伯傑\n伯纳克\t伯納克\n伯罗奔尼撒同盟\t伯羅奔尼撒同盟\n伯里克利\t伯里克利\n伯雍种玉\t伯雍種玉\n估价\t估價\n估价单\t估價單\n估价行\t估價行\n估算出\t估算出\n伴同\t伴同\n伴娘\t伴娘\n伴游\t伴遊\n伸出\t伸出\n伸出去\t伸出去\n伸出援手\t伸出援手\n伸出来\t伸出來\n伸向\t伸向\n伸回\t伸回\n伸回去\t伸回去\n伸回来\t伸回來\n伸展出\t伸展出\n伸展出去\t伸展出去\n伸志\t伸志\n伸手不打笑面人\t伸手不打笑面人\n似于\t似於\n似松实紧\t似鬆實緊\n佃租制度\t佃租制度\n但云\t但云\n但多\t但多\n但愿\t但願\n但愿如此\t但願如此\n但是\t但是\n但是海里\t但是海裡\n但曲\t但曲\n但求如愿\t但求如願\n但须\t但須\n位于\t位於\n位准\t位準\n位极人臣\t位極人臣\n低了\t低了\n低于\t低於\n低价\t低價\n低价买进\t低價買進\n低价位\t低價位\n低价卖出\t低價賣出\n低价团\t低價團\n低价格\t低價格\n低价高报\t低價高報\n低卡路里\t低卡路里\n低合金钢\t低合金鋼\n低回\t低迴\n低回不已\t低迴不已\n低度发展国家\t低度發展國家\n低标准\t低標準\n低洼\t低窪\n低筋面粉\t低筋麵粉\n低荡\t低盪\n低谷\t低谷\n住个\t住個\n住宅凶方\t住宅兇方\n住扎\t住紮\n佐饔得尝\t佐饔得嘗\n体会出\t體會出\n体制\t體制\n体坛\t體壇\n体坛人士\t體壇人士\n体察出\t體察出\n体干班\t體幹班\n体彩\t體彩\n体征\t體徵\n体念\t體念\n体温表\t體溫表\n体物写志\t體物寫志\n体现出\t體現出\n体系\t體系\n体系化\t體系化\n体育台\t體育臺\n体育系\t體育系\n体育锻炼\t體育鍛煉\n体胀系数\t體脹係數\n体范\t體範\n体表\t體表\n体重表\t體重表\n体面\t體面\n体面起来\t體面起來\n体验出\t體驗出\n何以克当\t何以克當\n何只\t何只\n何小升\t何小昇\n何尝\t何嘗\n何干\t何干\n何当\t何當\n何必当初\t何必當初\n何志\t何志\n何志钦\t何志欽\n何杰金氏病\t何杰金氏病\n何极\t何極\n何济于事\t何濟於事\n何秋美\t何秋美\n何种\t何種\n何胜雄\t何勝雄\n何至于\t何至於\n何至于此\t何至於此\n何豪杰\t何豪傑\n何足挂齿\t何足掛齒\n何须\t何須\n余〇\t餘〇\n余一\t餘一\n余七\t餘七\n余三\t餘三\n余三胜\t余三勝\n余上沅\t余上沅\n余下\t餘下\n余业\t餘業\n余个\t餘個\n余九\t餘九\n余事\t餘事\n余二\t餘二\n余五\t餘五\n余亩\t餘畝\n余人\t餘人\n余件\t餘件\n余众\t餘眾\n余位\t餘位\n余余\t余余\n余俗\t餘俗\n余倍\t餘倍\n余僇\t餘僇\n余元\t餘元\n余光\t餘光\n余光中\t余光中\n余光生\t余光生\n余党\t餘黨\n余八\t餘八\n余六\t餘六\n余兰香\t余蘭香\n余兴\t餘興\n余刃\t餘刃\n余切\t餘切\n余利\t餘利\n余剩\t餘剩\n余割\t餘割\n余力\t餘力\n余勇\t餘勇\n余勇可贾\t餘勇可賈\n余十\t餘十\n余压\t餘壓\n余发扬\t余發揚\n余只\t餘隻\n余名\t餘名\n余吾镇\t余吾鎮\n余味\t餘味\n余响\t餘響\n余响绕梁\t餘響繞樑\n余喘\t餘喘\n余四\t餘四\n余地\t餘地\n余墨\t餘墨\n余声\t餘聲\n余外\t餘外\n余天\t余天\n余头\t餘頭\n余妙\t餘妙\n余姓\t余姓\n余姚\t餘姚\n余姚市\t餘姚市\n余威\t餘威\n余威德\t余威德\n余子\t餘子\n余子明\t余子明\n余子碌碌\t餘子碌碌\n余字\t餘字\n余存\t餘存\n余孽\t餘孽\n余宪宗\t余憲宗\n余岁\t餘歲\n余干\t餘干\n余干县\t餘干縣\n余年\t餘年\n余庆\t餘慶\n余庆县\t餘慶縣\n余座\t餘座\n余弦\t餘弦\n余思\t餘思\n余思敏\t余思敏\n余悸\t餘悸\n余情\t餘情\n余情未了\t餘情未了\n余慈高速\t餘慈高速\n余户\t餘戶\n余政宪\t余政憲\n余数\t餘數\n余数定理\t餘數定理\n余文\t余文\n余文彬\t余文彬\n余日\t餘日\n余明\t餘明\n余映\t餘映\n余晖\t餘暉\n余暇\t餘暇\n余月\t余月\n余本\t餘本\n余杭\t餘杭\n余杭区\t餘杭區\n余杯\t餘杯\n余枝\t餘枝\n余桃\t餘桃\n余桶\t餘桶\n余次\t餘次\n余款\t餘款\n余歌沧\t余歌滄\n余步\t餘步\n余殃\t餘殃\n余毒\t餘毒\n余气\t餘氣\n余氯\t餘氯\n余江\t餘江\n余江县\t餘江縣\n余沥\t餘瀝\n余沧海\t余滄海\n余波\t餘波\n余波荡漾\t餘波盪漾\n余泽\t餘澤\n余派\t餘派\n余温\t餘溫\n余火\t餘火\n余灿荣\t余燦榮\n余炳贤\t余炳賢\n余点\t餘點\n余烈\t餘烈\n余烬\t餘燼\n余热\t餘熱\n余珍\t餘珍\n余珮琳\t余珮琳\n余生\t餘生\n余男\t余男\n余留\t餘留\n余留事务\t餘留事務\n余留无符号数\t餘留無符號數\n余码\t餘碼\n余碧芬\t余碧芬\n余秀菁\t余秀菁\n余秉谚\t余秉諺\n余秋雨\t余秋雨\n余种\t餘種\n余窍\t餘竅\n余筱萍\t余筱萍\n余篇\t餘篇\n余粮\t餘糧\n余绪\t餘緒\n余缺\t餘缺\n余罪\t餘罪\n余羡\t餘羨\n余脉\t餘脈\n余膏\t餘膏\n余苑绮\t余苑綺\n余英时\t余英時\n余荫\t餘蔭\n余蓄\t餘蓄\n余裕\t餘裕\n余角\t餘角\n余论\t餘論\n余貾\t餘貾\n余责\t餘責\n余贤明\t余賢明\n余车\t余車\n余载\t餘載\n余辉\t餘輝\n余辜\t餘辜\n余部\t餘部\n余酲\t餘酲\n余里\t餘里\n余量\t餘量\n余钱\t餘錢\n余闰\t餘閏\n余闲\t餘閒\n余集\t餘集\n余雪兰\t余雪蘭\n余雪明\t余雪明\n余零\t餘零\n余震\t餘震\n余霞\t餘霞\n余音\t餘音\n余音绕梁\t餘音繞樑\n余韵\t餘韻\n余项\t餘項\n余额\t餘額\n余风\t餘風\n余食\t餘食\n余香\t餘香\n佚游\t佚遊\n佚荡\t佚蕩\n佛修根\t佛修根\n佛克斯\t佛克斯\n佛克纳\t佛克納\n佛兰克林\t佛蘭克林\n佛前佛后\t佛前佛後\n佛历\t佛曆\n佛尼亚克\t佛尼亞克\n佛布兹\t佛布茲\n佛曲\t佛曲\n佛瑞克\t佛瑞克\n佛瑞斯特怀特克\t佛瑞斯特懷特克\n佛科摆\t佛科擺\n佛罗棱萨\t佛羅稜薩\n佛罗里达\t佛羅里達\n佛罗里达州\t佛羅里達州\n佛舍利\t佛舍利\n佛蒙特\t佛蒙特\n佛蒙特州\t佛蒙特州\n佛里特\t佛里特\n佛里特曼\t佛里特曼\n佛钟\t佛鐘\n佛雷克\t佛雷克\n佛面上刮金\t佛面上刮金\n作业平台\t作業平臺\n作业系统\t作業系統\n作了\t作了\n作价\t作價\n作倒了行市\t作倒了行市\n作准\t作準\n作出\t作出\n作出来\t作出來\n作出让步\t作出讓步\n作别\t作別\n作品里\t作品裡\n作奸犯科\t作奸犯科\n作好准备\t作好準備\n作幸\t作倖\n作庄\t作莊\n作废后\t作廢後\n作息时间表\t作息時間表\n作恶\t作惡\n作恶多端\t作惡多端\n作曲\t作曲\n作曲人\t作曲人\n作曲家\t作曲家\n作曲者\t作曲者\n作育英才\t作育英才\n作舍道旁\t作舍道旁\n作舍道边\t作舍道邊\n佞幸\t佞幸\n你克制\t你剋制\n你夸我逞\t你誇我逞\n你干一杯\t你乾一杯\n你干那杯\t你乾那杯\n你念\t你念\n你才子发昏\t你才子發昏\n你搜\t你搜\n你斗了胆\t你斗了膽\n你是为了\t你是為了\n你有千条妙计我有一定之规\t你有千條妙計我有一定之規\n你系\t你係\n佣中佼佼\t傭中佼佼\n佣书\t傭書\n佣人\t傭人\n佣仆\t傭僕\n佣作\t傭作\n佣保\t傭保\n佣兵\t傭兵\n佣工\t傭工\n佣懒\t傭懶\n佣给\t傭給\n佣耕\t傭耕\n佣金\t佣金\n佣金收益\t佣金收益\n佣金费用\t佣金費用\n佣钱\t佣錢\n佣钿\t佣鈿\n佥同\t僉同\n佩挂\t佩掛\n佩斯托瑞斯\t佩斯托瑞斯\n";

/// Part 13 of the text.
pub const ST_PHRASES_13: &'static str = "佩脱拉克\t佩脫拉克\n佳人才子\t佳人才子\n佳冬\t佳冬\n佳冬乡\t佳冬鄉\n佳肴\t佳餚\n佳致\t佳致\n佳荣里\t佳榮里\n佳里\t佳里\n佳里镇\t佳里鎮\n使其斗\t使其鬥\n使出\t使出\n使出来\t使出來\n使团\t使團\n使困扰\t使困擾\n使困窘\t使困窘\n使尽\t使盡\n使心作幸\t使心作倖\n使用价值\t使用價值\n使用借贷\t使用借貸\n使用者介面\t使用者介面\n使用范围\t使用範圍\n使节团\t使節團\n使转向\t使轉向\n侍仆\t侍僕\n侍御\t侍御\n侏儒症\t侏儒症\n侏罗系\t侏羅系\n侔德覆载\t侔德覆載\n供出\t供出\n供制\t供製\n供大于求\t供大於求\n供应链\t供應鏈\n供暖系统\t供暖系統\n供水系统\t供水系統\n供油系统\t供油系統\n供电系统\t供電系統\n供给制\t供給制\n供给制作\t供給製作\n供给制造\t供給製造\n供给面\t供給面\n供过于求\t供過於求\n供销合作\t供銷合作\n供销合作社\t供銷合作社\n依个人\t依個人\n依从关系\t依從關係\n依依不舍\t依依不捨\n依依难舍\t依依難捨\n依头缕当\t依頭縷當\n依存关系\t依存關係\n依托\t依託\n依据\t依據\n依法炮制\t依法炮製\n依然范特西\t依然范特西\n依赞\t依贊\n依附于\t依附於\n侠气干云\t俠氣干雲\n侥天之幸\t僥天之倖\n侥幸\t僥倖\n侥幸取胜\t僥倖取勝\n侥幸获胜\t僥倖獲勝\n侦听台\t偵聽臺\n侦讯笔录\t偵訊筆錄\n侧冲\t側衝\n侧向\t側向\n侧录\t側錄\n侧撞防护系统\t側撞防護系統\n侧链\t側鏈\n侧面\t側面\n侧面图\t側面圖\n侧面性\t側面性\n侨团\t僑團\n侨汇\t僑匯\n侨选代表\t僑選代表\n侮蔑\t侮蔑\n侯万户\t侯萬戶\n侯彩凤\t侯彩鳳\n侯胜茂\t侯勝茂\n侵入岩\t侵入岩\n侵占\t侵佔\n侵占到\t侵佔到\n侵占罪\t侵佔罪\n侵哄\t侵哄\n侵并\t侵併\n侵蚀基准\t侵蝕基準\n便了\t便了\n便于\t便於\n便吃干\t便吃乾\n便宜不过当家\t便宜不過當家\n便当\t便當\n便当店\t便當店\n便当盒\t便當盒\n便益不失当家\t便益不失當家\n便签\t便籤\n便药\t便藥\n便辟\t便辟\n便面\t便面\n便须\t便須\n促发\t促發\n促销价\t促銷價\n俄制\t俄製\n俄占\t俄佔\n俄国共产党\t俄國共產黨\n俄文系\t俄文系\n俄罗斯党\t俄羅斯黨\n俄语系\t俄語系\n俊刮\t俊刮\n俊杰\t俊傑\n俊游\t俊遊\n俊眼修眉\t俊眼修眉\n俏丽短发\t俏麗短髮\n俗念\t俗念\n俘获\t俘獲\n俚曲\t俚曲\n保不准\t保不準\n保丽龙板\t保麗龍板\n保修期\t保修期\n保养厂\t保養廠\n保准\t保準\n保发\t保發\n保守党\t保守黨\n保安团\t保安團\n保安责任制\t保安責任制\n保护状制\t保護狀制\n保护范围\t保護範圍\n保持克制\t保持克制\n保持联系\t保持聯繫\n保暖杯\t保暖杯\n保温杯\t保溫杯\n保甲制度\t保甲制度\n保留价格\t保留價格\n保留征收\t保留徵收\n保留曲线\t保留曲線\n保皇党\t保皇黨\n保税工厂\t保稅工廠\n保结制度\t保結制度\n保证价格\t保證價格\n保险杆\t保險桿\n保险柜\t保險櫃\n保险范围\t保險範圍\n保险解开系统\t保險解開系統\n保障范围\t保障範圍\n信个\t信個\n信丰\t信豐\n信丰县\t信豐縣\n信义计划\t信義計劃\n信人调丢了瓢\t信人調丟了瓢\n信口开合\t信口開合\n信口胡说\t信口胡說\n信号台\t信號臺\n信号系统\t信號系統\n信合社\t信合社\n信嘴胡说\t信嘴胡說\n信噪\t信噪\n信天游\t信天游\n信念\t信念\n信息系统\t信息系統\n信托\t信託\n信托公司\t信託公司\n信托基金\t信託基金\n信托投资公司\t信託投資公司\n信托贸易\t信託貿易\n信托资金\t信託資金\n信据\t信據\n信步闲游\t信步閒遊\n信汇\t信匯\n信用合作\t信用合作\n信笔涂鸦\t信筆塗鴉\n信箱里\t信箱裡\n信而有征\t信而有徵\n信马游缰\t信馬游韁\n俪采\t儷采\n俭仆\t儉僕\n俭朴\t儉樸\n俭确之教\t儉确之教\n修业\t修業\n修业年限\t修業年限\n修业期满\t修業期滿\n修习\t修習\n修书\t修書\n修五脏庙\t修五臟廟\n修仙\t修仙\n修伊特\t修伊特\n修修\t修修\n修修补补\t修修補補\n修养\t修養\n修养成\t修養成\n修函\t修函\n修到\t修到\n修剪\t修剪\n修史\t修史\n修名\t脩名\n修和\t修和\n修墓\t修墓\n修士\t修士\n修复\t修復\n修女\t修女\n修好\t修好\n修威特\t修威特\n修学\t修學\n修定\t修定\n修宪\t修憲\n修宪案\t修憲案\n修容\t修容\n修己\t修己\n修建\t修建\n修得\t修得\n修心养性\t修心養性\n修成\t修成\n修护\t修護\n修护站\t修護站\n修护队\t修護隊\n修持\t修持\n修指甲\t修指甲\n修撰\t修撰\n修改\t修改\n修改为\t修改為\n修改后\t修改後\n修改成\t修改成\n修敬\t脩敬\n修整\t修整\n修文\t修文\n修文偃武\t修文偃武\n修文县\t修文縣\n修斋\t修齋\n修旧利废\t修舊利廢\n修明\t修明\n修曼德\t修曼德\n修杰楷\t修杰楷\n修枝\t修枝\n修桥补路\t修橋補路\n修桥铺路\t修橋鋪路\n修樾\t脩樾\n修正\t修正\n修正为\t修正為\n修正主义\t修正主義\n修正期\t修正期\n修正案\t修正案\n修正档\t修正檔\n修正法\t修正法\n修正液\t修正液\n修武县\t修武縣\n修母画荻\t修母畫荻\n修水\t修水\n修水利\t修水利\n修水县\t修水縣\n修治\t修治\n修浚\t修濬\n修润\t脩潤\n修炼\t修煉\n修炼成仙\t修煉成仙\n修版\t修版\n修理\t修理\n修理匠\t修理匠\n修理厂\t修理廠\n修理好\t修理好\n修理店\t修理店\n修理站\t修理站\n修理费\t修理費\n修理起来\t修理起來\n修理部\t修理部\n修的\t修的\n修盖\t修蓋\n修省\t修省\n修眉\t修眉\n修睦\t修睦\n修短\t修短\n修竹\t修竹\n修筑\t修築\n修筑公路\t修築公路\n修筑工事\t修築工事\n修筑工程\t修築工程\n修筑道路\t修築道路\n修练\t修練\n修缮\t修繕\n修缮费\t修繕費\n修罗\t修羅\n修置产室\t修置產室\n修耕\t修耕\n修胡刀\t修鬍刀\n修脚\t修腳\n修脯\t脩脯\n修葺\t修葺\n修行\t修行\n修行人\t修行人\n修补\t修補\n修补匠\t修補匠\n修褉\t修褉\n修订\t修訂\n修订历史\t修訂歷史\n修订本\t修訂本\n修订案\t修訂案\n修订版\t修訂版\n修词学\t修詞學\n修课\t修課\n修谨以俟\t修謹以俟\n修谱\t修譜\n修起\t修起\n修起来\t修起來\n修路\t修路\n修蹄\t修蹄\n修身\t修身\n修身养性\t修身養性\n修身齐家\t修身齊家\n修车厂\t修車廠\n修辞\t修辭\n修辞学\t修辭學\n修辞格\t修辭格\n修边\t修邊\n修边幅\t修邊幅\n修造\t修造\n修造厂\t修造廠\n修道\t修道\n修道人\t修道人\n修道会\t修道會\n修道士\t修道士\n修道张\t修道張\n修道院\t修道院\n修配\t修配\n修配厂\t修配廠\n修金\t脩金\n修长\t修長\n修阻\t修阻\n修面\t修面\n修鞋匠\t修鞋匠\n修饰\t修飾\n修饰句\t修飾句\n修饰字\t修飾字\n修饰词\t修飾詞\n修饰话\t修飾話\n修饰语\t修飾語\n修饰边幅\t修飾邊幅\n修齐\t修齊\n修龄\t修齡\n俯冲\t俯衝\n俯冲点\t俯衝點\n俯冲角\t俯衝角\n俯曲\t俯曲\n俯首就范\t俯首就範\n俱发\t俱發\n俱收并蓄\t俱收並蓄\n俱杯\t俱杯\n俱舍师\t俱舍師\n俱舍论\t俱舍論\n俾资挹注\t俾資挹注\n倍日并行\t倍日並行\n倒了\t倒了\n倒了八辈子楣\t倒了八輩子楣\n倒了大霉\t倒了大霉\n倒了架\t倒了架\n倒了架子\t倒了架子\n倒了柴\t倒了柴\n倒了核桃车子\t倒了核桃車子\n倒了血霉\t倒了血霉\n倒价\t倒價\n";

/// Part 14 of the text.
pub const ST_PHRASES_14: &'static str = "倒八字须\t倒八字鬚\n倒出\t倒出\n倒出去\t倒出去\n倒出来\t倒出來\n倒前倒后\t倒前倒後\n倒台\t倒臺\n倒吊\t倒吊\n倒吊蜡烛\t倒吊蠟燭\n倒向\t倒向\n倒回\t倒回\n倒回去\t倒回去\n倒回来\t倒回來\n倒大霉\t倒大霉\n倒屣奔出\t倒屣奔出\n倒彩\t倒彩\n倒念\t倒唸\n倒悬挨命\t倒懸捱命\n倒扣\t倒扣\n倒扣针儿\t倒扣針兒\n倒抽了一口气\t倒抽了一口氣\n倒持干戈\t倒持干戈\n倒挂\t倒掛\n倒挂金钩\t倒掛金鉤\n倒是\t倒是\n倒杯\t倒杯\n倒杯水\t倒杯水\n倒杯茶\t倒杯茶\n倒板\t倒板\n倒竖虎须\t倒豎虎鬚\n倒绷孩儿\t倒繃孩兒\n倒置干戈\t倒置干戈\n倒血霉\t倒血霉\n倒载干戈\t倒載干戈\n倒钟摆效应\t倒鐘擺效應\n倒霉\t倒霉\n候虫\t候蟲\n倚儿不当\t倚兒不當\n倚多为胜\t倚多為勝\n倚官托势\t倚官託勢\n倚托\t倚托\n倚晴楼七种\t倚晴樓七種\n倚闲\t倚閑\n倚马千言\t倚馬千言\n倛丑\t倛醜\n借一步\t借一步\n借不到\t借不到\n借东风\t借東風\n借个\t借個\n借个火\t借個火\n借主\t借主\n借书\t借書\n借书单\t借書單\n借书证\t借書證\n借了\t借了\n借交报仇\t借交報仇\n借人\t借人\n借代\t借代\n借令\t借令\n借以\t藉以\n借位\t借位\n借住\t借住\n借作\t借作\n借使\t借使\n借借\t藉藉\n借借看\t借借看\n借债\t借債\n借债人\t借債人\n借债度日\t借債度日\n借光\t借光\n借入方\t借入方\n借入款\t借入款\n借典\t借典\n借出\t借出\n借出去\t借出去\n借出来\t借出來\n借刀杀人\t借刀殺人\n借到\t借到\n借券\t借券\n借剑杀人\t借劍殺人\n借力\t借力\n借助\t藉助\n借助于\t藉助於\n借势\t借勢\n借卉\t藉卉\n借单\t借單\n借单儿\t借單兒\n借去\t借去\n借取\t借取\n借口\t藉口\n借古喻今\t借古喻今\n借古讽今\t借古諷今\n借名\t借名\n借听于聋\t借聽於聾\n借唱\t借唱\n借喻\t借喻\n借回\t借回\n借回去\t借回去\n借回来\t借回來\n借地\t借地\n借坐\t借坐\n借契\t借契\n借好\t借好\n借妻\t借妻\n借字\t借字\n借字儿\t借字兒\n借完\t借完\n借客报仇\t借客報仇\n借宿\t借宿\n借宿一夜\t借宿一夜\n借宿一晚\t借宿一晚\n借寇兵\t藉寇兵\n借寇兵赍盗粮\t藉寇兵齎盜糧\n借寇恂\t借寇恂\n借对\t借對\n借寿\t借壽\n借尸还魂\t借屍還魂\n借弹\t借彈\n借得\t借得\n借手\t藉手\n借手除敌\t借手除敵\n借托\t借托\n借抄\t借抄\n借抽\t借抽\n借招\t借招\n借据\t借據\n借提\t借提\n借支\t借支\n借放\t借放\n借故\t藉故\n借故推辞\t藉故推辭\n借方\t借方\n借方差额\t借方差額\n借有\t借有\n借机\t藉機\n借条\t借條\n借来\t借來\n借来借去\t借來借去\n借梯子下楼\t借梯子下樓\n借槁\t藉槁\n借款\t借款\n借款人\t借款人\n借此\t藉此\n借此机会\t藉此機會\n借水推船\t借水推船\n借水行舟\t借水行舟\n借满\t借滿\n借火\t借火\n借点\t借點\n借球\t借球\n借甚\t藉甚\n借用\t借用\n借由\t藉由\n借的\t借的\n借看\t借看\n借看一下\t借看一下\n借着\t藉著\n借穿\t借穿\n借端\t藉端\n借端生事\t藉端生事\n借箸\t借箸\n借箸代筹\t藉箸代籌\n借箸代谋\t借箸代謀\n借米下得锅讨米下不得锅\t借米下得鍋討米下不得鍋\n借约\t借約\n借给\t借給\n借腹生子\t借腹生子\n借花献佛\t借花獻佛\n借茶活捉\t借茶活捉\n借草枕块\t藉草枕塊\n借让\t借讓\n借讬\t借託\n借记卡\t借記卡\n借词\t藉詞\n借读\t借讀\n借调\t借調\n借贷\t借貸\n借贷无门\t借貸無門\n借贷资本\t借貸資本\n借资\t藉資\n借资挹注\t借資挹注\n借走\t借走\n借过\t借過\n借过一下\t借過一下\n借道\t借道\n借酒三分醉\t借酒三分醉\n借酒浇愁\t借酒澆愁\n借酒装疯\t借酒裝瘋\n借重\t借重\n借鉴\t借鑑\n借钱\t借錢\n借镜\t借鏡\n借问\t借問\n借阅\t借閱\n借阅率\t借閱率\n借韵\t借韻\n借题\t借題\n借题发挥\t借題發揮\n借风使船\t借風使船\n借齿牙\t借齒牙\n倡条冶叶\t倡條冶葉\n倦游\t倦遊\n倦鸟余花\t倦鳥餘花\n倪云林\t倪雲林\n倪嗣冲\t倪嗣沖\n倮虫\t倮蟲\n债台高筑\t債臺高築\n债权团\t債權團\n值回票价\t值回票價\n值得一干\t值得一幹\n值得干\t值得幹\n值得庆幸\t值得慶幸\n值得注意\t值得注意\n值得注意的是\t值得注意的是\n值得称赞\t值得稱讚\n值日表\t值日表\n倾出\t傾出\n倾向\t傾向\n倾向于\t傾向於\n倾向性\t傾向性\n倾家尽产\t傾家盡產\n倾家荡产\t傾家蕩產\n倾尽\t傾盡\n倾巢出动\t傾巢出動\n倾巢而出\t傾巢而出\n倾斜面\t傾斜面\n倾杯\t傾杯\n倾注\t傾注\n倾箱倒柜\t傾箱倒櫃\n倾耳注目\t傾耳注目\n倾覆重器\t傾覆重器\n倾诉衷曲\t傾訴衷曲\n偃仆\t偃仆\n偃松\t偃松\n偃武修文\t偃武修文\n偃蹇困穷\t偃蹇困窮\n假借\t假借\n假借义\t假借義\n假借字\t假借字\n假借法\t假借法\n假力于人\t假力於人\n假发\t假髮\n假叶\t假葉\n假意周旋\t假意周旋\n假托\t假託\n假日里\t假日裡\n假期忧郁症候群\t假期憂鬱症候群\n假药\t假藥\n假面\t假面\n假面具\t假面具\n假面剧\t假面劇\n偎干\t偎乾\n偎干就湿\t偎乾就濕\n偏了\t偏了\n偏于\t偏於\n偏信则暗\t偏信則闇\n偏出\t偏出\n偏后\t偏後\n偏向\t偏向\n偏回\t偏回\n偏回去\t偏回去\n偏回来\t偏回來\n偏幸\t偏倖\n偏才\t偏才\n偏执症\t偏執症\n偏暗\t偏暗\n偏极光\t偏極光\n偏极光镜\t偏極光鏡\n偏极化\t偏極化\n偏极滤光镜\t偏極濾光鏡\n偏极镜\t偏極鏡\n偏正式合成词\t偏正式合成詞\n偏相关系数\t偏相關係數\n偏重于\t偏重於\n偕同\t偕同\n做一天和尚撞一天钟\t做一天和尚撞一天鐘\n做不了\t做不了\n做了\t做了\n做准备工作\t做準備工作\n做出\t做出\n做出事来\t做出事來\n做出场\t做出場\n做出好戏\t做齣好戲\n做出来\t做出來\n做好做恶\t做好做惡\n做尽\t做盡\n做庄\t做莊\n做张做致\t做張做致\n做得了\t做得了\n做针线\t做針線\n停了\t停了\n停云\t停雲\n停云慢步\t停雲慢步\n停云落月\t停雲落月\n停停当当\t停停當當\n停制\t停製\n停尸\t停屍\n停尸房\t停屍房\n停尸间\t停屍間\n停当\t停當\n停征\t停徵\n停摆\t停擺\n停板\t停板\n停板制度\t停板制度\n停表\t停表\n偢采\t偢采\n健康胜于财富\t健康勝於財富\n健忘症\t健忘症\n偶发\t偶發\n偶发事件\t偶發事件\n偶发性\t偶發性\n偶合\t偶合\n偷了\t偷了\n偷出\t偷出\n偷出去\t偷出去\n偷出来\t偷出來\n偷发\t偷發\n偷合取容\t偷合取容\n偷合苟容\t偷合苟容\n偷回\t偷回\n偷回去\t偷回去\n偷回来\t偷回來\n偷婆娘\t偷婆娘\n偷尝禁果\t偷嚐禁果\n偷得浮生半日闲\t偷得浮生半日閒\n偷期暗会\t偷期暗會\n偷梁换柱\t偷樑換柱\n偷种\t偷種\n偷鸡不着\t偷雞不著\n偷鸡吊狗\t偷雞吊狗\n偿回\t償回\n偿回去\t償回去\n偿回来\t償回來\n偿得夙愿\t償得夙願\n偿愿\t償願\n傅克斯\t傅克斯\n傅利叶\t傅利葉\n傅匀余\t傅勻余\n傅岩\t傅巖\n傅彩\t傅彩\n傅科摆\t傅科擺\n傅立叶\t傅立葉\n傅立叶变换\t傅立葉變換\n傅粉施朱\t傅粉施朱\n傅说版筑\t傅說版築\n傅里叶\t傅里葉\n傍个影儿\t傍個影兒\n傍系\t傍系\n傒幸\t傒倖\n傥荡\t儻蕩\n储备干部\t儲備幹部\n储物格里\t儲物格裡\n储训人才\t儲訓人才\n储训干部\t儲訓幹部\n催并\t催併\n";

/// Part 15 of the text.
pub const ST_PHRASES_15: &'static str = "催眠曲\t催眠曲\n催眠术\t催眠術\n催眠药\t催眠藥\n催谷\t催谷\n傲世轻才\t傲世輕才\n傲睨万物\t傲睨萬物\n傲霜斗雪\t傲霜鬥雪\n傻大个\t傻大個\n傻大个儿\t傻大個兒\n傻里傻气\t傻裡傻氣\n像杯\t像杯\n像海里\t像海裡\n像赞\t像贊\n僦舍\t僦舍\n僮仆\t僮僕\n僮御\t僮御\n僮手指千\t僮手指千\n僵事\t僵事\n僵仆\t僵仆\n僵住\t僵住\n僵冷\t僵冷\n僵化\t僵化\n僵卧\t僵臥\n僵固\t僵固\n僵固性\t僵固性\n僵尸\t殭屍\n僵尸网络\t殭屍網絡\n僵局\t僵局\n僵持\t僵持\n僵持不下\t僵持不下\n僵掉\t僵掉\n僵李代桃\t僵李代桃\n僵死\t僵死\n僵直\t僵直\n僵直性\t僵直性\n僵直性脊椎炎\t僵直性脊椎炎\n僵硬\t僵硬\n僵立\t僵立\n僵蚕\t殭蠶\n儌幸\t儌倖\n儒术\t儒術\n儒略历\t儒略曆\n儒略历史\t儒略歷史\n儒略改革历\t儒略改革曆\n儒略改革历史\t儒略改革歷史\n儿不嫌母丑犬不怨主贫\t兒不嫌母醜犬不怨主貧\n儿童台\t兒童臺\n儿童团\t兒童團\n兀术\t兀朮\n允准\t允准\n允当\t允當\n元凶\t元兇\n元后\t元后\n元培医事技术学校\t元培醫事技術學校\n元恶\t元惡\n元恶大奸\t元惡大奸\n元恶大憝\t元惡大憝\n元曲\t元曲\n元曲四大家\t元曲四大家\n元秋\t元秋\n元素周期表\t元素週期表\n兄台\t兄臺\n兄弟党\t兄弟黨\n充发\t充發\n充场面\t充場面\n充当\t充當\n充斥市面\t充斥市面\n充满了\t充滿了\n充类至尽\t充類至盡\n充能干\t充能幹\n充门面\t充門面\n充饥\t充飢\n充饥止渴\t充飢止渴\n充饥画饼\t充飢畫餅\n兆个\t兆個\n兆丰\t兆豐\n兆丰金\t兆豐金\n兆丰银\t兆豐銀\n兆余\t兆餘\n先义后利\t先義後利\n先了\t先了\n先了一步\t先了一步\n先于\t先於\n先人后己\t先人後己\n先修班\t先修班\n先借\t先借\n先公后私\t先公後私\n先出\t先出\n先出去\t先出去\n先出来\t先出來\n先占\t先佔\n先发\t先發\n先发制人\t先發制人\n先发投手\t先發投手\n先发投手群\t先發投手群\n先后\t先後\n先后倒置\t先後倒置\n先后顺序\t先後順序\n先向\t先向\n先回\t先回\n先回到\t先回到\n先回去\t先回去\n先回来\t先回來\n先声后实\t先聲後實\n先天不足后天失调\t先天不足後天失調\n先守后攻\t先守後攻\n先小人后君子\t先小人後君子\n先尝\t先嚐\n先干为敬\t先乾為敬\n先忧后乐\t先憂後樂\n先念\t先念\n先意承志\t先意承志\n先攻后守\t先攻後守\n先斩后奏\t先斬後奏\n先斩后闻\t先斬後聞\n先期录音\t先期錄音\n先来后上\t先來後上\n先来后下\t先來後下\n先来后到\t先來後到\n先盛后衰\t先盛後衰\n先礼后兵\t先禮後兵\n先签\t先簽\n先缺后空\t先缺後空\n先花后果\t先花後果\n先苦后甘\t先苦後甘\n先行后闻\t先行後聞\n先赢后输\t先贏後輸\n先进先出\t先進先出\n先进后出\t先進後出\n先采\t先採\n先锋模范作用\t先鋒模範作用\n先难后获\t先難後獲\n先驱新党\t先驅新黨\n光了\t光了\n光了了\t光了了\n光二极管\t光二極管\n光价\t光價\n光光荡荡\t光光蕩蕩\n光冲量\t光衝量\n光出律\t光出律\n光出溜\t光出溜\n光前绝后\t光前絕後\n光前耀后\t光前耀後\n光前裕后\t光前裕後\n光卤石\t光鹵石\n光发送器\t光發送器\n光可鉴人\t光可鑑人\n光合\t光合\n光合作用\t光合作用\n光合细菌\t光合細菌\n光向\t光向\n光周期\t光週期\n光圈范围\t光圈範圍\n光复\t光復\n光复乡\t光復鄉\n光复会\t光復會\n光复南路\t光復南路\n光复国土\t光復國土\n光复国小\t光復國小\n光复旧京\t光復舊京\n光复旧物\t光復舊物\n光复节\t光復節\n光复路\t光復路\n光学字符识别\t光學字符識別\n光学录音\t光學錄音\n光学系统\t光學系統\n光导纤维\t光導纖維\n光度表\t光度表\n光彩\t光彩\n光彩夺目\t光彩奪目\n光彩耀眼\t光彩耀眼\n光彩起来\t光彩起來\n光念\t光念\n光效应艺术\t光效應藝術\n光敏症\t光敏症\n光明云\t光明雲\n光明党\t光明黨\n光明面\t光明面\n光杆\t光桿\n光杆儿\t光桿兒\n光杆司令\t光桿司令\n光杠\t光槓\n光板儿\t光板兒\n光烟雾\t光煙霧\n光焰万丈\t光焰萬丈\n光电二极\t光電二極\n光电二极体\t光電二極體\n光电二极管\t光電二極管\n光碟杂志\t光碟雜誌\n光碟柜\t光碟櫃\n光纤\t光纖\n光纤分布式数据介面\t光纖分佈式數據介面\n光纤分布数据接口\t光纖分佈數據接口\n光纤分散式资料介面\t光纖分散式資料介面\n光纤接口\t光纖接口\n光纤电缆\t光纖電纜\n光纤维\t光纖維\n光纤衰减\t光纖衰減\n光纤通信\t光纖通信\n光纤通信系统\t光纖通信系統\n光纤通讯\t光纖通訊\n光纤通讯干道网路系统\t光纖通訊幹道網路系統\n光纤飞弹\t光纖飛彈\n光能合成\t光能合成\n光脊梁\t光脊樑\n光致致\t光緻緻\n光艺术\t光藝術\n光芒万丈\t光芒萬丈\n光范围\t光範圍\n光表\t光表\n光辉典范\t光輝典範\n光采\t光采\n光面\t光面\n光面内质网\t光面內質網\n光面子\t光面子\n克东\t克東\n克东县\t克東縣\n克丝钳子\t克絲鉗子\n克丽丝\t克麗絲\n克亚\t克亞\n克什\t克什\n克什克腾\t克什克騰\n克什克腾旗\t克什克騰旗\n克什米尔\t克什米爾\n克仑特罗\t克侖特羅\n克伦克\t克倫克\n克伦奇\t克倫奇\n克伦威尔\t克倫威爾\n克佩罗\t克佩羅\n克俭\t克儉\n克俭克勤\t克儉克勤\n克克\t剋剋\n克克尔\t克克爾\n克兰诗\t克蘭詩\n克兰达尔\t克蘭達爾\n克分子\t克分子\n克利\t克利\n克利斯\t克利斯\n克利斯提\t克利斯提\n克利福洛\t克利福洛\n克制\t剋制\n克制不了\t剋制不了\n克制不住\t剋制不住\n克剥\t剋剝\n克劳\t克勞\n克劳佛\t克勞佛\n克劳修斯\t克勞修斯\n克劳可\t克勞可\n克劳契\t克勞契\n克劳德\t克勞德\n克劳斯\t克勞斯\n克劳福\t克勞福\n克劳福德\t克勞福德\n克劳芙特\t克勞芙特\n克勒\t克勒\n克勒拉省\t克勒拉省\n克勒特\t克勒特\n克勤\t克勤\n克勤克俭\t克勤克儉\n克卜勒\t克卜勒\n克卜勒定律\t克卜勒定律\n克原子\t克原子\n克啬\t剋嗇\n克基拉岛\t克基拉島\n克复\t克復\n克夫\t剋夫\n克娄巴特拉\t克婁巴特拉\n克孜勒苏\t克孜勒蘇\n克孜勒苏地区\t克孜勒蘇地區\n克孜勒苏柯尔克孜自治州\t克孜勒蘇柯爾克孜自治州\n克孜勒苏河\t克孜勒蘇河\n克孜尔千佛洞\t克孜爾千佛洞\n克孜尔尕哈\t克孜爾尕哈\n克孜尔尕哈烽火台\t克孜爾尕哈烽火臺\n克宁\t克寧\n克定\t克定\n克家\t克家\n克家子\t克家子\n克尔\t克爾\n克尔白\t克爾白\n克尽\t克盡\n克尽厥职\t克盡厥職\n克尽夫道\t克盡夫道\n克尽妇道\t克盡婦道\n克尽己职\t克盡己職\n克山\t克山\n克山县\t克山縣\n克己\t克己\n克己主义\t克己主義\n克己复礼\t克己復禮\n克己奉公\t克己奉公\n克强\t克強\n克当一面\t克當一面\n克当量\t克當量\n克意\t剋意\n克扣\t剋扣\n克拉\t克拉\n克拉克\t克拉克\n克拉兹\t克拉茲\n克拉夫特\t克拉夫特\n克拉姆\t克拉姆\n克拉本\t克拉本\n克拉玛依\t克拉瑪依\n克捷\t克捷\n克敌\t克敵\n克敌制胜\t克敵制勝\n克敦孝行\t克敦孝行\n克文\t克文\n克斯\t克斯\n克日\t剋日\n克明\t克明\n克星\t剋星\n克服\t克服\n克服不了\t克服不了\n";

/// Part 16 of the text.
pub const ST_PHRASES_16: &'static str = "克服困难\t克服困難\n克朗\t克朗\n克朗代克\t克朗代克\n克期\t剋期\n克来汀症\t克來汀症\n克林伊斯威特\t克林伊斯威特\n克林德\t克林德\n克林斯曼\t克林斯曼\n克林霉素\t克林黴素\n克林顿\t克林頓\n克柔\t克柔\n克核\t剋核\n克格勃\t克格勃\n克死\t剋死\n克汀病\t克汀病\n克汗\t克汗\n克沙奇病毒\t克沙奇病毒\n克洛\t克洛\n克洛尔\t克洛爾\n克洛斯\t克洛斯\n克洛格\t克洛格\n克流感\t克流感\n克瑞强\t克瑞強\n克瑞斯波\t克瑞斯波\n克瑞格\t克瑞格\n克绍箕裘\t克紹箕裘\n克绳祖武\t克繩祖武\n克罗地亚共和国\t克羅地亞共和國\n克罗地亚语\t克羅地亞語\n克罗埃\t克羅埃\n克罗埃西亚\t克羅埃西亞\n克罗德\t克羅德\n克罗恩科\t克羅恩科\n克罗诺斯\t克羅諾斯\n克罗齐\t克羅齊\n克耳文\t克耳文\n克耶族\t克耶族\n克耶邦\t克耶邦\n克苦耐劳\t克苦耐勞\n克药\t克藥\n克莉\t克莉\n克莉丝\t克莉絲\n克莉丝汀\t克莉絲汀\n克莉丝汀娜\t克莉絲汀娜\n克莉丝特丝\t克莉絲特絲\n克莉兰柯\t克莉蘭柯\n克莉奥佩特拉\t克莉奧佩特拉\n克莉斯蒂纳\t克莉斯蒂納\n克莉芭丝\t克莉芭絲\n克莱\t克萊\n克莱伦斯宫\t克萊倫斯宮\n克莱儿\t克萊兒\n克莱因\t克萊因\n克莱恩\t克萊恩\n克莱斯勒\t克萊斯勒\n克莱斯勒汽车公司\t克萊斯勒汽車公司\n克莱曼\t克萊曼\n克莱柏\t克萊柏\n克莱查克\t克萊查克\n克莱格\t克萊格\n克莱蒙特\t克萊蒙特\n克莱门斯\t克萊門斯\n克莱顿\t克萊頓\n克萨斯州\t克薩斯州\n克落\t剋落\n克蕾儿\t克蕾兒\n克薄\t剋薄\n克虏伯\t克虜伯\n克西\t克西\n克让\t克讓\n克谐\t克諧\n克赖斯特彻奇\t克賴斯特徹奇\n克郎\t克郎\n克郡\t克郡\n克里\t克里\n克里丝蒂娃\t克里絲蒂娃\n克里契科\t克里契科\n克里奥尔语\t克里奧爾語\n克里姆林\t克里姆林\n克里姆林宫\t克里姆林宮\n克里姆林杯\t克里姆林杯\n克里岛\t克里島\n克里斯\t克里斯\n克里斯伊凡\t克里斯伊凡\n克里斯塔基斯\t克里斯塔基斯\n克里斯托\t克里斯托\n克里斯托弗\t克里斯托弗\n克里斯普\t克里斯普\n克里斯汀\t克里斯汀\n克里斯汀贝尔\t克里斯汀貝爾\n克里斯蒂安\t克里斯蒂安\n克里斯蒂安松\t克里斯蒂安松\n克里普斯\t克里普斯\n克里木\t克里木\n克里木半岛\t克里木半島\n克里木战争\t克里木戰爭\n克里梅\t克里梅\n克里特\t克里特\n克里特克\t克里特克\n克里特克里岛\t克里特克里島\n克里特岛\t克里特島\n克里米亚\t克里米亞\n克里米亚半岛\t克里米亞半島\n克里米亚战争\t克里米亞戰爭\n克里蒙梭\t克里蒙梭\n克里门\t克里門\n克里门特\t克里門特\n克队\t克隊\n克隆\t克隆\n克隆人\t克隆人\n克隆尼\t克隆尼\n克隆技术\t克隆技術\n克隆斯台\t克隆斯臺\n克隆氏病\t克隆氏病\n克难\t克難\n克难街\t克難街\n克难运动\t克難運動\n克雅氏症\t克雅氏症\n克雷伯氏菌属\t克雷伯氏菌屬\n克雷因\t克雷因\n克雷姆凯\t克雷姆凱\n克雷尼尔\t克雷尼爾\n克雷文\t克雷文\n克雷斯\t克雷斯\n克雷斯吉\t克雷斯吉\n克雷格\t克雷格\n克雷门斯\t克雷門斯\n克雷默\t克雷默\n克霉唑\t克黴唑\n克顺克卑\t克順克卑\n克食\t克食\n克鲁\t克魯\n克鲁伦河\t克魯倫河\n克鲁克斯\t克魯克斯\n克鲁兹\t克魯茲\n克鲁利\t克魯利\n克鲁尼\t克魯尼\n克鲁斯\t克魯斯\n克鲁斯州\t克魯斯州\n克鲁格\t克魯格\n克麦洛伏\t克麥洛伏\n免不了\t免不了\n免于\t免於\n免参\t免參\n免征\t免徵\n免疫系统\t免疫系統\n免签\t免簽\n免胄\t免冑\n免试升学\t免試升學\n免试升高中班\t免試升高中班\n兑换\t兌換\n兔尽狗烹\t兔盡狗烹\n党三役\t黨三役\n党中央\t黨中央\n党主席\t黨主席\n党义\t黨義\n党争\t黨爭\n党产\t黨產\n党人\t黨人\n党代会\t黨代會\n党代表\t黨代表\n党伍\t黨伍\n党八股\t黨八股\n党公职\t黨公職\n党内\t黨內\n党内人士\t黨內人士\n党内初选\t黨內初選\n党内斗争\t黨內鬥爭\n党军\t黨軍\n党刊\t黨刊\n党务\t黨務\n党参\t黨參\n党友\t黨友\n党史\t黨史\n党同伐异\t黨同伐異\n党名\t黨名\n党员\t黨員\n党员大会\t黨員大會\n党员证\t黨員證\n党团\t黨團\n党团员\t黨團員\n党国\t黨國\n党国元老\t黨國元老\n党外\t黨外\n党外人士\t黨外人士\n党太尉\t党太尉\n党太尉吃匾食\t党太尉吃匾食\n党委\t黨委\n党委书记\t黨委書記\n党委会\t黨委會\n党小组\t黨小組\n党工\t黨工\n党徒\t黨徒\n党徽\t黨徽\n党怀英\t党懷英\n党性\t黨性\n党总支\t黨總支\n党报\t黨報\n党支书\t党支書\n党政\t黨政\n党政军\t黨政軍\n党政机关\t黨政機關\n党旗\t黨旗\n党校\t黨校\n党格\t黨格\n党棍\t黨棍\n党歌\t黨歌\n党法\t黨法\n党派\t黨派\n党派集会\t黨派集會\n党的基本\t黨的基本\n党祸\t黨禍\n党禁\t黨禁\n党章\t黨章\n党籍\t黨籍\n党籍碑\t黨籍碑\n党纪\t黨紀\n党纪国法\t黨紀國法\n党纲\t黨綱\n党组\t黨組\n党羽\t黨羽\n党职\t黨職\n党营\t黨營\n党见\t黨見\n党言\t黨言\n党论\t黨論\n党证\t黨證\n党课\t黨課\n党费\t黨費\n党进\t党進\n党部\t黨部\n党锢\t黨錮\n党锢之祸\t黨錮之禍\n党阀\t黨閥\n党鞭\t黨鞭\n党项\t党項\n党项族\t党項族\n党风\t黨風\n党魁\t黨魁\n党龄\t黨齡\n兜肚断了带子\t兜肚斷了帶子\n入不支出\t入不支出\n入不敷出\t入不敷出\n入主出奴\t入主出奴\n入伍须知\t入伍須知\n入伙\t入夥\n入党\t入黨\n入冬\t入冬\n入出境\t入出境\n入出境管理局\t入出境管理局\n入口匝道号志管制\t入口匝道號誌管制\n入团\t入團\n入境签证\t入境簽證\n入夜后\t入夜後\n入室升堂\t入室升堂\n入帘\t入簾\n入托\t入托\n入海里\t入海裡\n入秋\t入秋\n入舍\t入舍\n入药\t入藥\n全世界无产者联合起来\t全世界無產者聯合起來\n全体同仁\t全體同仁\n全党\t全黨\n全党全军\t全黨全軍\n全党同志\t全黨同志\n全军覆没\t全軍覆沒\n全军覆灭\t全軍覆滅\n全出\t全出\n全出去\t全出去\n全出来\t全出來\n全台\t全臺\n全台湾\t全臺灣\n全向\t全向\n全国不分区代表\t全國不分區代表\n全国人民代表大会\t全國人民代表大會\n全国代表大会\t全國代表大會\n全国劳动模范\t全國勞動模範\n全国同胞\t全國同胞\n全国大会党\t全國大會黨\n全国教育资讯服务系统\t全國教育資訊服務系統\n全国纪录\t全國紀錄\n全国范围\t全國範圍\n全场一致\t全場一致\n全尸\t全屍\n全干\t全乾\n全当\t全當\n全录\t全錄\n全彩\t全綵\n全彩干式印表机\t全彩乾式印表機\n全所同仁\t全所同仁\n全才\t全才\n全托\t全託\n全挂子\t全掛子\n全斗焕\t全斗煥\n全无准备\t全無準備\n全日制\t全日制\n全权代表\t全權代表\n全校同学\t全校同學\n全然不同\t全然不同\n全班同学\t全班同學\n全球位置测定系统\t全球位置測定系統\n全球卫星导航系统\t全球衛星導航系統\n全球发展中心\t全球發展中心\n全球定位系统\t全球定位系統\n全球定位系统卫星测量\t全球定位系統衛星測量\n全球气候升温\t全球氣候升溫\n全球环境变迁资讯系统\t全球環境變遷資訊系統\n全球范围\t全球範圍\n";

/// Part 17 of the text.
pub const ST_PHRASES_17: &'static str = "全盘托出\t全盤托出\n全神灌注\t全神灌注\n全神贯注\t全神貫注\n全票价\t全票價\n全程参加\t全程參加\n全系列\t全系列\n全系统\t全系統\n全线出击\t全線出擊\n全缘叶\t全緣葉\n全胜\t全勝\n全胜记录\t全勝記錄\n全范围\t全範圍\n全裂叶\t全裂葉\n全谷物\t全穀物\n全面\t全面\n全面包围\t全面包圍\n全面包裹\t全面包裹\n全面发展\t全面發展\n全面实施\t全面實施\n全面性\t全面性\n全面战争\t全面戰爭\n全面禁止\t全面禁止\n全面禁止核试验条约\t全面禁止核試驗條約\n全面规划\t全面規劃\n全面进行\t全面進行\n八万\t八萬\n八万一千\t八萬一千\n八万四千法门\t八萬四千法門\n八万多\t八萬多\n八万大藏经\t八萬大藏經\n八个\t八個\n八仙桌上摆夜壶\t八仙桌上擺夜壺\n八位元个人电脑\t八位元個人電腦\n八余\t八餘\n八克\t八克\n八军团\t八軍團\n八出戏\t八齣戲\n八出祁山\t八出祁山\n八十天环游地球\t八十天環遊地球\n八十种好\t八十種好\n八千里\t八千里\n八厂\t八廠\n八只\t八隻\n八台\t八臺\n八周\t八週\n八周年\t八週年\n八大胡同\t八大胡同\n八天后\t八天後\n八字方针\t八字方針\n八字胡\t八字鬍\n八字胡须\t八字鬍鬚\n八小时制\t八小時制\n八小时工作制\t八小時工作制\n八扎\t八紮\n八折\t八折\n八斗\t八斗\n八斗之才\t八斗之才\n八斗子\t八斗子\n八斗才\t八斗才\n八斗陈思\t八斗陳思\n八旗制度\t八旗制度\n八极\t八極\n八极拳\t八極拳\n八步周行\t八步周行\n八点钟\t八點鐘\n八珍咸粥\t八珍鹹粥\n八百万\t八百萬\n八百多万\t八百多萬\n八秒钟\t八秒鐘\n八级工资制\t八級工資制\n八蜡\t八蜡\n八表\t八表\n八辈子霉\t八輩子霉\n八辟\t八辟\n八进制\t八進制\n八里\t八里\n八里乡\t八里鄉\n八面\t八面\n八面体\t八面體\n八面光\t八面光\n八面受敌\t八面受敵\n八面圆通\t八面圓通\n八面威风\t八面威風\n八面玲珑\t八面玲瓏\n八面见光\t八面見光\n八面锋\t八面鋒\n公之于众\t公之於眾\n公了\t公了\n公仆\t公僕\n公仔面\t公仔麵\n公价\t公價\n公众参与\t公眾參與\n公余\t公餘\n公使团\t公使團\n公元纪年\t公元紀年\n公克\t公克\n公公向孙子磕头\t公公向孫子磕頭\n公共休闲环境\t公共休閒環境\n公共关系\t公共關係\n公共团体\t公共團體\n公共支出\t公共支出\n公出\t公出\n公切面\t公切面\n公制\t公制\n公制单位\t公制單位\n公升\t公升\n公历\t公曆\n公厘\t公釐\n公合\t公合\n公同\t公同\n公同共有\t公同共有\n公听并观\t公聽並觀\n公告价格\t公告價格\n公告地价\t公告地價\n公墓里放鞭炮\t公墓裡放鞭炮\n公孙丑\t公孫丑\n公孙大娘\t公孫大娘\n公定价\t公定價\n公定价格\t公定價格\n公布\t公佈\n公布于众\t公佈於眾\n公布出来\t公佈出來\n公布栏\t公佈欄\n公干\t公幹\n公平合理\t公平合理\n公广集团\t公廣集團\n公开出来\t公開出來\n公开场合\t公開場合\n公才公望\t公才公望\n公报私仇\t公報私仇\n公据\t公據\n公斗\t公斗\n公方代表\t公方代表\n公明党\t公明黨\n公有制\t公有制\n公民表决\t公民表決\n公然表示\t公然表示\n公用征收\t公用徵收\n公用限制\t公用限制\n公益彩券\t公益彩券\n公私两尽\t公私兩盡\n公私合营\t公私合營\n公羊春秋\t公羊春秋\n公认会计准\t公認會計准\n公诸于世\t公諸於世\n公诸同好\t公諸同好\n公路个人赛\t公路個人賽\n公里\t公里\n公里数\t公里數\n公里时\t公里時\n公门之中好修行\t公門之中好修行\n公门修行\t公門修行\n公门里好修行\t公門裡好修行\n六万\t六萬\n六个\t六個\n六余\t六餘\n六冲\t六沖\n六出奇计\t六出奇計\n六出戏\t六齣戲\n六出祁山\t六出祁山\n六厂\t六廠\n六发\t六發\n六只\t六隻\n六台\t六臺\n六合\t六合\n六合区\t六合區\n六合彩\t六合彩\n六合拳\t六合拳\n六合路\t六合路\n六周\t六週\n六周年\t六週年\n六回\t六回\n六天后\t六天後\n六度万行\t六度萬行\n六弦\t六絃\n六彩\t六彩\n六才子书\t六才子書\n六扎\t六紮\n六折\t六折\n六星彩\t六星彩\n六曲\t六曲\n六极\t六極\n六欲\t六慾\n六点钟\t六點鐘\n六百万\t六百萬\n六百个\t六百個\n六百多万\t六百多萬\n六祖坛经\t六祖壇經\n六种\t六種\n六谷\t六穀\n六通四辟\t六通四辟\n六道轮回\t六道輪迴\n六里\t六里\n六面\t六面\n六面体\t六面體\n六须鲇\t六鬚鯰\n六须鲶\t六鬚鯰\n兰克\t蘭克\n兰台\t蘭臺\n兰台令史\t蘭臺令史\n兰台公子\t蘭臺公子\n兰台石室\t蘭臺石室\n兰叶描\t蘭葉描\n兰叶撇\t蘭葉撇\n兰摧玉折\t蘭摧玉折\n兰摧蕙折\t蘭摧蕙折\n兰棱\t蘭稜\n兰溪\t蘭谿\n兰秋\t蘭秋\n兰艾同烬\t蘭艾同燼\n兰艾同焚\t蘭艾同焚\n兰花烟\t蘭花煙\n兰里老太太\t蘭里老太太\n共产主义青年团\t共產主義青年團\n共产党\t共產黨\n共产党人\t共產黨人\n共产党员\t共產黨員\n共产党宣言\t共產黨宣言\n共产党政府\t共產黨政府\n共产党部队\t共產黨部隊\n共产制\t共產制\n共产集团\t共產集團\n共享计划\t共享計劃\n共价\t共價\n共价键\t共價鍵\n共党\t共黨\n共出\t共出\n共发射极\t共發射極\n共同\t共同\n共同交际语\t共同交際語\n共同代理\t共同代理\n共同代表\t共同代表\n共同企业\t共同企業\n共同体\t共同體\n共同保证\t共同保證\n共同决议案\t共同決議案\n共同利益\t共同利益\n共同努力\t共同努力\n共同基金\t共同基金\n共同市场\t共同市場\n共同性\t共同性\n共同感觉\t共同感覺\n共同正犯\t共同正犯\n共同海损\t共同海損\n共同点\t共同點\n共同社\t共同社\n共同科目\t共同科目\n共同筛选\t共同篩選\n共同管道\t共同管道\n共同纲领\t共同綱領\n共同经营\t共同經營\n共同继承\t共同繼承\n共同被告人\t共同被告人\n共同诉讼\t共同訴訟\n共同语\t共同語\n共同财产\t共同財產\n共同财产制\t共同財產制\n共同趋向\t共同趨向\n共同运销\t共同運銷\n共同通讯社\t共同通訊社\n共同闸道介面\t共同閘道介面\n共和党\t共和黨\n共和党人\t共和黨人\n共和党籍\t共和黨籍\n共和制\t共和制\n共和历\t共和曆\n共和历史\t共和歷史\n共基极\t共基極\n共审制度\t共審制度\n共御外侮\t共禦外侮\n共挽鹿车\t共挽鹿車\n共摆\t共擺\n共游\t共遊\n共获\t共獲\n共轭不尽根\t共軛不盡根\n共轭双曲线\t共軛雙曲線\n共轭复数\t共軛複數\n共通意志\t共通意志\n共铲\t共剷\n共青团\t共青團\n共餐青年团\t共餐青年團\n关不了\t關不了\n关个\t關個\n关了\t關了\n关了钉儿\t關了釘兒\n关于\t關於\n关云长\t關雲長\n关出\t關出\n关台\t關臺\n关合\t關合\n关同\t關同\n关回\t關回\n关回去\t關回去\n关山万里\t關山萬里\n关岭布依族苗族自治县\t關嶺布依族苗族自治縣\n关岳\t關岳\n关弓与我确\t關弓與我确\n关征\t關征\n关念\t關念\n关怀面\t關懷面\n关托\t關託\n关注\t關注\n关注度\t關注度\n关税同盟\t關稅同盟\n关系\t關係\n关系人\t關係人\n关系代名词\t關係代名詞\n关系企业\t關係企業\n关系到\t關係到\n关系命题\t關係命題\n关系奖\t關係獎\n";

/// Part 18 of the text.
pub const ST_PHRASES_18: &'static str = "关系密切\t關係密切\n关系式\t關係式\n关系户\t關係戶\n关系法\t關係法\n关系着\t關係著\n关系融洽\t關係融洽\n关系词\t關係詞\n关系调\t關係調\n关系运算\t關係運算\n关系部\t關係部\n关节面\t關節面\n兴云作雨\t興雲作雨\n兴云作雾\t興雲作霧\n兴云吐雾\t興雲吐霧\n兴云布雨\t興雲佈雨\n兴云致雨\t興雲致雨\n兴会淋漓\t興會淋漓\n兴修\t興修\n兴冲冲\t興沖沖\n兴叹\t興嘆\n兴复\t興復\n兴复不浅\t興復不淺\n兴尽\t興盡\n兴尽悲来\t興盡悲來\n兴尽意阑\t興盡意闌\n兴旺发达\t興旺發達\n兴筑\t興築\n兴致\t興致\n兴致勃勃\t興致勃勃\n兴致勃发\t興致勃發\n兴致盎然\t興致盎然\n兴致索然\t興致索然\n兴隆台\t興隆臺\n兴隆台区\t興隆臺區\n兴高彩烈\t興高彩烈\n兴高采烈\t興高采烈\n兵出无名\t兵出無名\n兵制\t兵制\n兵器术\t兵器術\n兵团\t兵團\n兵尽器竭\t兵盡器竭\n兵尽矢穷\t兵盡矢窮\n兵工厂\t兵工廠\n兵工厂队\t兵工廠隊\n兵疲马困\t兵疲馬困\n兵种\t兵種\n兵籍表\t兵籍表\n兵马司倒了墙\t兵馬司倒了牆\n其从如云\t其從如雲\n其他支出\t其他支出\n其余\t其餘\n其八九只\t其八九只\n其势凶凶\t其勢兇兇\n其后\t其後\n其核\t其核\n其次辟地\t其次辟地\n具体计划\t具體計劃\n典借\t典借\n典制\t典制\n典型示范\t典型示範\n典当\t典當\n典据\t典據\n典章制度\t典章制度\n典范\t典範\n典范性\t典範性\n典范长存\t典範長存\n兹核\t茲核\n养了\t養了\n养儿待老积谷防饥\t養兒待老積穀防饑\n养儿防老积谷防饥\t養兒防老積穀防飢\n养兵千日\t養兵千日\n养兵千日用兵一时\t養兵千日用兵一時\n养兵千日用在一时\t養兵千日用在一時\n养兵千日用在一朝\t養兵千日用在一朝\n养军千日\t養軍千日\n养军千日用军一时\t養軍千日用軍一時\n养军千日用在一时\t養軍千日用在一時\n养军千日用在一朝\t養軍千日用在一朝\n养出\t養出\n养发\t養髮\n养娘\t養娘\n养婆娘\t養婆娘\n养子防老积谷防饥\t養子防老積穀防飢\n养家糊口\t養家餬口\n养小防老积谷防饥\t養小防老積穀防饑\n养志\t養志\n养性修真\t養性修真\n养老鼠咬布袋\t養老鼠咬布袋\n养颜有术\t養顏有術\n兼了\t兼了\n兼修\t兼修\n兼听则明偏信则暗\t兼聽則明偏信則暗\n兼容并包\t兼容並包\n兼容并蓄\t兼容並蓄\n兼并\t兼併\n兼并与收购\t兼併與收購\n兼收并蓄\t兼收並蓄\n兼筹并顾\t兼籌並顧\n兽医系\t獸醫系\n兽奸\t獸姦\n兽心人面\t獸心人面\n兽性大发\t獸性大發\n兽欲\t獸慾\n兽药\t獸藥\n内出血\t內出血\n内分泌系统\t內分泌系統\n内制\t內製\n内制作\t內製作\n内务柜\t內務櫃\n内卷\t內捲\n内参\t內參\n内向\t內向\n内哄\t內鬨\n内在几何\t內在幾何\n内在几何学\t內在幾何學\n内塔尼亚胡\t內塔尼亞胡\n内外交困\t內外交困\n内外向包办\t內外向包辦\n内外姻党\t內外姻黨\n内外并重\t內外並重\n内奸\t內奸\n内婚制\t內婚制\n内容管理系统\t內容管理系統\n内布拉斯\t內布拉斯\n内布拉斯加\t內布拉斯加\n内布拉斯加州\t內布拉斯加州\n内心里\t內心裡\n内忧外困\t內憂外困\n内扣\t內扣\n内掌柜的\t內掌櫃的\n内斗\t內鬥\n内服药\t內服藥\n内松外紧\t內鬆外緊\n内核\t內核\n内科手术\t內科手術\n内紧外松\t內緊外鬆\n内细胞团\t內細胞團\n内脏\t內臟\n内脏器官移植\t內臟器官移植\n内蒙\t內蒙\n内蒙古\t內蒙古\n内蒙古大学\t內蒙古大學\n内蒙古自治区\t內蒙古自治區\n内部斗争\t內部鬥爭\n内部联系\t內部聯繫\n内阁制\t內閣制\n内面包的\t內面包的\n冈田准\t岡田准\n冉冉上升\t冉冉上升\n冉有仆\t冉有僕\n册叶\t冊葉\n册封\t冊封\n再于\t再於\n再借\t再借\n再借不难\t再借不難\n再冲\t再衝\n再出\t再出\n再出去\t再出去\n再出来\t再出來\n再出现\t再出現\n再制\t再製\n再制品\t再製品\n再制盐\t再製鹽\n再制纸\t再製紙\n再发\t再發\n再发生\t再發生\n再发见\t再發見\n再向\t再向\n再回\t再回\n再回到\t再回到\n再回去\t再回去\n再回来\t再回來\n再干\t再幹\n再干一杯\t再乾一杯\n再念\t再念\n再斗一斗\t再鬥一鬥\n再来一个\t再來一個\n再生制动\t再生制動\n再生纤维\t再生纖維\n再种\t再種\n再见面\t再見面\n再转复\t再轉復\n再造手术\t再造手術\n再长爹娘\t再長爹娘\n冒了\t冒了\n冒儿咕冬\t冒兒咕冬\n冒出\t冒出\n冒出来\t冒出來\n冒升\t冒升\n冒烟\t冒煙\n冒烟突火\t冒煙突火\n冒镝当锋\t冒鏑當鋒\n冗余\t冗餘\n写不出\t寫不出\n写个\t寫個\n写了\t寫了\n写出\t寫出\n写出去\t寫出去\n写出来\t寫出來\n写回\t寫回\n写回去\t寫回去\n写回来\t寫回來\n写字台\t寫字檯\n写真合成海报\t寫真合成海報\n军事管制\t軍事管制\n军制\t軍制\n军品出口领导小组\t軍品出口領導小組\n军团\t軍團\n军团杆菌\t軍團桿菌\n军团菌\t軍團菌\n军团菌病\t軍團菌病\n军官团\t軍官團\n军政当局\t軍政當局\n军民合作\t軍民合作\n军种\t軍種\n军舰岩\t軍艦岩\n军营里\t軍營裡\n军阀割据\t軍閥割據\n军队克制\t軍隊剋制\n农业合作\t農業合作\n农业合作化\t農業合作化\n农业技术\t農業技術\n农业生产合作社\t農業生產合作社\n农业生产技术\t農業生產技術\n农产品平准基金\t農產品平準基金\n农作曲\t農作曲\n农作物品种\t農作物品種\n农化系\t農化系\n农历\t農曆\n农历年\t農曆年\n农历新年\t農曆新年\n农地重划\t農地重劃\n农复会\t農復會\n农奴制\t農奴制\n农奴制度\t農奴制度\n农家品种\t農家品種\n农庄\t農莊\n农庄里\t農莊裡\n农技团\t農技團\n农机系\t農機系\n农村合作化\t農村合作化\n农村家庭联产承包责任制\t農村家庭聯產承包責任制\n农民党\t農民黨\n农民历\t農民曆\n农民历史\t農民歷史\n农民团体\t農民團體\n农经系\t農經系\n农舍\t農舍\n农艺系\t農藝系\n农药\t農藥\n农药商\t農藥商\n冠世之才\t冠世之才\n冠军杯\t冠軍盃\n冠子虫\t冠子蟲\n冠状动脉旁路移植手术\t冠狀動脈旁路移植手術\n冠状动脉旁通手术\t冠狀動脈旁通手術\n冠状动脉硬化症\t冠狀動脈硬化症\n冠盖云集\t冠蓋雲集\n冠盖如云\t冠蓋如雲\n冠胄\t冠冑\n冤仇\t冤仇\n冥凌\t冥淩\n冥凌浃行\t冥淩浹行\n冥子里\t冥子裡\n冥蒙\t冥濛\n冬不拉\t冬不拉\n冬事\t冬事\n冬令\t冬令\n冬令救济\t冬令救濟\n冬令进补\t冬令進補\n冬储\t冬儲\n冬冬\t鼕鼕\n冬冬鼓\t鼕鼕鼓\n冬凌\t冬凌\n冬初\t冬初\n冬夏\t冬夏\n冬天\t冬天\n冬天里\t冬天裡\n冬奥会\t冬奧會\n冬字头\t冬字頭\n冬季\t冬季\n冬季世界\t冬季世界\n冬季作物\t冬季作物\n冬季档\t冬季檔\n冬季节\t冬季節\n冬季赛\t冬季賽\n冬季运动\t冬季運動\n冬学\t冬學\n冬宫\t冬宮\n冬小麦\t冬小麥\n冬山\t冬山\n冬山乡\t冬山鄉\n冬山河\t冬山河\n冬心\t冬心\n冬扇夏炉\t冬扇夏爐\n冬扇夏鑪\t冬扇夏鑪\n冬日\t冬日\n冬日可爱\t冬日可愛\n冬日里\t冬日裡\n冬暖\t冬暖\n冬暖夏凉\t冬暖夏涼\n冬月\t冬月\n冬柴铁\t冬柴鐵\n冬温夏凊\t冬溫夏凊\n冬游\t冬遊\n冬灌\t冬灌\n";

/// Part 19 of the text.
pub const ST_PHRASES_19: &'static str = "冬烘\t冬烘\n冬烘先生\t冬烘先生\n冬狩\t冬狩\n冬瓜\t冬瓜\n冬瓜汤\t冬瓜湯\n冬瓜茶\t冬瓜茶\n冬眠\t冬眠\n冬眠期\t冬眠期\n冬笋\t冬筍\n冬粉\t冬粉\n冬耕\t冬耕\n冬至\t冬至\n冬至点\t冬至點\n冬节\t冬節\n冬菇\t冬菇\n冬藏\t冬藏\n冬虫夏草\t冬蟲夏草\n冬衣\t冬衣\n冬装\t冬裝\n冬赈\t冬賑\n冬运\t冬運\n冬运会\t冬運會\n冬闲\t冬閒\n冬防\t冬防\n冬雨\t冬雨\n冬雪\t冬雪\n冬雾\t冬霧\n冬青\t冬青\n冬青树\t冬青樹\n冬风\t冬風\n冬麦\t冬麥\n冯胜贤\t馮勝賢\n冯虚御风\t馮虛御風\n冯骥才\t馮驥才\n冰上曲棍球\t冰上曲棍球\n冰上表演\t冰上表演\n冰了\t冰了\n冰前刮雪\t冰前颳雪\n冰厂\t冰廠\n冰壶秋月\t冰壺秋月\n冰岩\t冰岩\n冰斗\t冰斗\n冰杯\t冰杯\n冰柜\t冰櫃\n冰核\t冰核\n冰火不同炉\t冰火不同爐\n冰炭不同器\t冰炭不同器\n冰炭不同罏\t冰炭不同罏\n冰生于水而寒于水\t冰生於水而寒於水\n冰碛岩\t冰磧岩\n冰雕\t冰雕\n冰雪皇后\t冰雪皇后\n冰面\t冰面\n冲上\t衝上\n冲上前\t衝上前\n冲上去\t衝上去\n冲上来\t衝上來\n冲下\t衝下\n冲下去\t衝下去\n冲下来\t衝下來\n冲不上\t衝不上\n冲不下\t衝不下\n冲不入\t衝不入\n冲不出\t衝不出\n冲不开\t衝不開\n冲不破\t衝不破\n冲不过\t衝不過\n冲不进\t衝不進\n冲了上\t衝了上\n冲了下\t衝了下\n冲了入\t衝了入\n冲了出\t衝了出\n冲了来\t衝了來\n冲了过\t衝了過\n冲了进\t衝了進\n冲人\t沖人\n冲他\t衝他\n冲你\t衝你\n冲倒\t衝倒\n冲克\t沖剋\n冲入\t衝入\n冲冠\t衝冠\n冲冠发怒\t衝冠髮怒\n冲冲\t沖沖\n冲冲水\t沖沖水\n冲决\t沖決\n冲决堤防\t沖決堤防\n冲凉\t沖涼\n冲出\t衝出\n冲出去\t衝出去\n冲出来\t衝出來\n冲出重围\t衝出重圍\n冲击\t衝擊\n冲击力\t衝擊力\n冲击性\t衝擊性\n冲击波\t衝擊波\n冲击韧性\t衝擊韌性\n冲到\t衝到\n冲刷\t沖刷\n冲刺\t衝刺\n冲刺班\t衝刺班\n冲剂\t沖劑\n冲力\t衝力\n冲动\t衝動\n冲动型\t衝動型\n冲劲\t衝勁\n冲劲十足\t衝勁十足\n冲势\t衝勢\n冲印\t沖印\n冲压\t沖壓\n冲压机\t沖壓機\n冲厕所\t沖廁所\n冲去\t衝去\n冲口而出\t衝口而出\n冲口而发\t衝口而發\n冲向\t衝向\n冲向前\t衝向前\n冲和\t沖和\n冲喜\t沖喜\n冲回\t衝回\n冲回去\t衝回去\n冲在下\t衝在下\n冲在前\t衝在前\n冲在最前\t衝在最前\n冲坏\t沖壞\n冲坚陷阵\t衝堅陷陣\n冲垮\t沖垮\n冲堂\t衝堂\n冲塌\t沖塌\n冲天\t沖天\n冲天之怒\t沖天之怒\n冲天炉\t沖天爐\n冲天炮\t沖天炮\n冲头阵\t衝頭陣\n冲她\t衝她\n冲子\t衝子\n冲州撞府\t衝州撞府\n冲帐\t沖帳\n冲年\t沖年\n冲床\t沖牀\n冲床工\t沖牀工\n冲开\t衝開\n冲弱\t沖弱\n冲得入\t衝得入\n冲得出\t衝得出\n冲得过\t衝得過\n冲得进\t衝得進\n冲心\t衝心\n冲怀\t沖懷\n冲我\t衝我\n冲扩\t沖擴\n冲掉\t沖掉\n冲撞\t衝撞\n冲撞力\t衝撞力\n冲散\t衝散\n冲断\t沖斷\n冲断层\t衝斷層\n冲昏\t衝昏\n冲昏头脑\t衝昏頭腦\n冲昧\t沖昧\n冲服\t沖服\n冲服剂\t沖服劑\n冲末\t沖末\n冲杀\t衝殺\n冲来\t衝來\n冲来冲去\t衝來衝去\n冲模\t沖模\n冲毁\t沖毀\n冲水\t沖水\n冲沟\t沖溝\n冲泡\t沖泡\n冲泡式\t沖泡式\n冲波\t衝波\n冲波激浪\t衝波激浪\n冲波逆折\t衝波逆折\n冲泻\t沖瀉\n冲洗\t沖洗\n冲洗照片\t沖洗照片\n冲流\t沖流\n冲浪\t衝浪\n冲浪客\t衝浪客\n冲浪板\t衝浪板\n冲浪者\t衝浪者\n冲浪赛\t衝浪賽\n冲涤\t沖滌\n冲淋浴\t沖淋浴\n冲淡\t沖淡\n冲澡\t沖澡\n冲然\t衝然\n冲犯\t衝犯\n冲田\t沖田\n冲盹\t衝盹\n冲盹儿\t衝盹兒\n冲着\t衝著\n冲破\t衝破\n冲碧丹经\t沖碧丹經\n冲积\t沖積\n冲积土\t沖積土\n冲积堤\t沖積堤\n冲积层\t沖積層\n冲积岛\t沖積島\n冲积平原\t沖積平原\n冲积扇\t沖積扇\n冲积物\t沖積物\n冲程\t衝程\n冲税\t沖稅\n冲穴\t衝穴\n冲空机\t沖空機\n冲突\t衝突\n冲突区\t衝突區\n冲突性\t衝突性\n冲突点\t衝突點\n冲线\t衝線\n冲绳\t沖繩\n冲绳县\t沖繩縣\n冲绳岛\t沖繩島\n冲绳群岛\t沖繩群島\n冲脉\t衝脈\n冲自己\t衝自己\n冲至\t衝至\n冲茶\t沖茶\n冲蒌\t沖蔞\n冲虚\t沖虛\n冲虚真人\t沖虛真人\n冲虚真经\t沖虛真經\n冲蚀\t沖蝕\n冲襟\t沖襟\n冲要\t衝要\n冲走\t沖走\n冲起\t衝起\n冲起来\t衝起來\n冲车\t衝車\n冲过\t衝過\n冲过去\t衝過去\n冲过来\t衝過來\n冲进\t衝進\n冲进去\t衝進去\n冲进来\t衝進來\n冲进海里\t衝進海裡\n冲退\t衝退\n冲量\t衝量\n冲销\t沖銷\n冲锋\t衝鋒\n冲锋号\t衝鋒號\n冲锋枪\t衝鋒槍\n冲锋鎗\t衝鋒鎗\n冲锋陷阵\t衝鋒陷陣\n冲门\t衝門\n冲陷\t衝陷\n冲霄\t沖霄\n冲霄汉外\t沖霄漢外\n冲风\t衝風\n冲高\t衝高\n冲默\t沖默\n冲鼻\t沖鼻\n冲龄\t沖齡\n决了\t決了\n决定出\t決定出\n决心干\t決心幹\n决志\t決志\n决斗\t決鬥\n决斗者\t決鬥者\n决策千里\t決策千里\n决策当局\t決策當局\n决胜\t決勝\n决胜千里\t決勝千里\n决胜局\t決勝局\n决胜期\t決勝期\n决胜点\t決勝點\n决胜盘\t決勝盤\n决胜节\t決勝節\n决胜负\t決勝負\n冶叶倡条\t冶葉倡條\n冶游\t冶遊\n冶炼\t冶煉\n冶炼厂\t冶煉廠\n冶炼炉\t冶煉爐\n冶荡\t冶蕩\n冷冻柜\t冷凍櫃\n冷地里\t冷地裡\n冷布\t冷布\n冷心冷面\t冷心冷面\n冷感症\t冷感症\n冷战以后\t冷戰以後\n冷板凳\t冷板凳\n冷板曲\t冷板曲\n冷气团\t冷氣團\n冷淡关系\t冷淡關係\n冷灰里爆出火来\t冷灰裡爆出火來\n冷腌法\t冷醃法\n冷藏柜\t冷藏櫃\n冷读术\t冷讀術\n冷轧钢板\t冷軋鋼板\n冷酒儿后犯\t冷酒兒後犯\n冷锅里爆豆\t冷鍋裡爆豆\n冷面\t冷麵\n冷面冷心\t冷面冷心\n冷面相\t冷面相\n冻僵\t凍僵\n冻干\t凍乾\n净价\t淨價\n净余\t淨餘\n净化系统\t淨化系統\n净发\t淨髮\n净尽\t淨盡\n净心修身\t淨心修身\n净水厂\t淨水廠\n净流出\t淨流出\n净胜球\t淨勝球\n净面\t淨面\n凄丽\t悽麗\n凄冷\t淒冷\n凄凄\t悽悽\n凄凉\t淒涼\n凄切\t悽切\n凄历\t悽歷\n凄厉\t淒厲\n凄咽\t悽咽\n凄婉\t悽婉\n凄寒\t淒寒\n凄怆\t悽愴\n凄怨\t悽怨\n凄恻\t悽惻\n凄惨\t悽慘\n凄惶\t悽惶\n凄楚\t悽楚\n凄沧\t淒滄\n凄清\t悽清\n凄然\t悽然\n凄紧\t悽緊\n凄绝\t悽絕\n凄美\t悽美\n凄艳\t悽艷\n凄苦\t悽苦\n凄迷\t悽迷\n凄酸\t悽酸\n凄雨\t淒雨\n凄风\t悽風\n准三后\t准三后\n准不准\t準不準\n准不准他\t准不准他\n准不准你\t准不准你\n准不准备\t準不準備\n准不准她\t准不准她\n准不准它\t准不准它\n准不准我\t准不准我\n准不准确\t準不準確\n准不准许\t准不准許\n准不准谁\t准不准誰\n准予\t准予\n准以\t准以\n准伏\t准伏\n准会\t準會\n准例\t準例\n准保\t準保\n准保护\t准保護\n准保释\t准保釋\n准信\t準信\n准假\t准假\n准儿\t準兒\n准入\t准入\n准决斗\t准決鬥\n准决赛\t準決賽\n准分子\t準分子\n准分子雷射仪\t準分子雷射儀\n准则\t準則\n准噶尔\t準噶爾\n准噶尔盆地\t準噶爾盆地\n准噶尔翼龙\t準噶爾翼龍\n准备\t準備\n准备下\t準備下\n准备充分\t準備充分\n准备准备\t準備準備\n准备好\t準備好\n准备好了\t準備好了\n准备好的\t準備好的\n准备活动\t準備活動\n准备率\t準備率\n准备给\t準備給\n准备金\t準備金\n准备金率\t準備金率\n准头\t準頭\n准奏\t准奏\n";

/// Part 20 of the text.
pub const ST_PHRASES_20: &'static str = "准妈妈\t準媽媽\n准定\t準定\n准将\t准將\n准尉\t准尉\n准平原\t準平原\n准度\t準度\n准式\t準式\n准得\t準得\n准折\t准折\n准拟\t準擬\n准拿督\t準拿督\n准据\t準據\n准新娘\t準新娘\n准新郎\t準新郎\n准时\t準時\n准时出席\t準時出席\n准时到\t準時到\n准时到达\t準時到達\n准星\t準星\n准是\t準是\n准普尔\t准普爾\n准格尔\t準格爾\n准格尔盆地\t準格爾盆地\n准此\t准此\n准点\t準點\n准点率\t準點率\n准用\t準用\n准的\t準的\n准确\t準確\n准确度\t準確度\n准确性\t準確性\n准确无误\t準確無誤\n准确率\t準確率\n准稳旋涡结构\t準穩旋渦結構\n准算\t准算\n准线\t準線\n准绳\t準繩\n准考证\t准考證\n准葛尔盆地\t準葛爾盆地\n准许\t准許\n准话\t準話\n准谱\t準譜\n准谱儿\t準譜兒\n准货币\t準貨幣\n准错不了\t準錯不了\n凉了\t涼了\n凉了半截\t涼了半截\n凉台\t涼臺\n凉席\t涼蓆\n凉药\t涼藥\n凉面\t涼麵\n凌云\t凌雲\n凌云健笔\t凌雲健筆\n凌云县\t凌雲縣\n凌云壮志\t凌雲壯志\n凌云笔\t淩雲筆\n凌云翰\t凌雲翰\n凌借\t凌藉\n凌十八\t凌十八\n凌夷\t淩夷\n凌如焕\t凌如煥\n凌姓\t淩姓\n凌小姐\t淩小姐\n凌志\t凌志\n凌志美\t凌志美\n凌惠平\t凌惠平\n凌昌焕\t凌昌煥\n凌杂米盐\t淩雜米鹽\n凌氏\t淩氏\n凌氏惠平\t淩氏惠平\n凌水\t淩水\n凌河\t淩河\n凌烟阁\t凌煙閣\n凌策\t淩策\n凌统\t淩統\n凌蒙初\t凌濛初\n凌退思\t凌退思\n凌驰\t淩馳\n减个\t減個\n减了\t減了\n减价\t減價\n减价出售\t減價出售\n减价时间\t減價時間\n减压时间表\t減壓時間表\n减压症\t減壓症\n减压表\t減壓表\n减噪\t減噪\n减征\t減徵\n减肥药\t減肥藥\n凑不出来\t湊不出來\n凑出\t湊出\n凑合\t湊合\n凑合着\t湊合著\n凑四合六\t湊四合六\n凛栗\t凜慄\n凝合\t凝合\n凝合力\t凝合力\n凝咽\t凝咽\n凝灰岩\t凝灰岩\n凝炼\t凝鍊\n几丁质\t幾丁質\n几万\t幾萬\n几万个\t幾萬個\n几万人\t幾萬人\n几万元\t幾萬元\n几万块\t幾萬塊\n几万里\t幾萬里\n几上\t几上\n几下\t幾下\n几世\t幾世\n几世纪\t幾世紀\n几丝\t幾絲\n几两\t幾兩\n几个\t幾個\n几个人\t幾個人\n几个月\t幾個月\n几为所害\t幾為所害\n几乎\t幾乎\n几乎不\t幾乎不\n几乎不可能\t幾乎不可能\n几乎在\t幾乎在\n几乎完全\t幾乎完全\n几乎是\t幾乎是\n几乎没有\t幾乎沒有\n几事\t幾事\n几于\t幾於\n几人\t幾人\n几人份\t幾人份\n几亿\t幾億\n几付\t幾付\n几代\t幾代\n几令\t幾令\n几件\t幾件\n几件事\t幾件事\n几任\t幾任\n几份\t幾份\n几伍\t幾伍\n几众\t幾眾\n几位\t幾位\n几位数\t幾位數\n几何\t幾何\n几何体\t幾何體\n几何光学\t幾何光學\n几何原本\t幾何原本\n几何图形\t幾何圖形\n几何图案\t幾何圖案\n几何学\t幾何學\n几何拓扑\t幾何拓撲\n几何拓扑学\t幾何拓撲學\n几何级数\t幾何級數\n几何线\t幾何線\n几何量\t幾何量\n几倍\t幾倍\n几儿\t幾兒\n几儿个\t幾兒個\n几元\t幾元\n几克\t幾克\n几党\t幾黨\n几关\t幾關\n几具\t幾具\n几内亚\t幾內亞\n几内亚共和国\t幾內亞共和國\n几内亚比索\t幾內亞比索\n几内亚比索共和国\t幾內亞比索共和國\n几内亚比绍共和国\t幾內亞比紹共和國\n几内亚湾\t幾內亞灣\n几册\t幾冊\n几净窗明\t几淨窗明\n几几\t几几\n几几乎乎\t幾幾乎乎\n几凳\t几凳\n几出\t幾齣\n几刀\t幾刀\n几分\t幾分\n几分之几\t幾分之幾\n几分收获\t幾分收穫\n几分钟\t幾分鐘\n几划\t幾劃\n几列\t幾列\n几副\t幾副\n几动\t幾動\n几化\t幾化\n几匹\t幾匹\n几匹马\t幾匹馬\n几区\t幾區\n几十\t幾十\n几十万\t幾十萬\n几十个\t幾十個\n几十人\t幾十人\n几十亿\t幾十億\n几十周\t幾十週\n几十年\t幾十年\n几千\t幾千\n几千万\t幾千萬\n几千个\t幾千個\n几千人\t幾千人\n几千元\t幾千元\n几千块\t幾千塊\n几千年\t幾千年\n几千里\t幾千里\n几发\t幾發\n几句\t幾句\n几句话\t幾句話\n几只\t幾隻\n几可乱真\t幾可亂真\n几台\t幾臺\n几号\t幾號\n几吋\t幾吋\n几名\t幾名\n几员\t幾員\n几周\t幾週\n几周围\t幾周圍\n几周边\t幾周邊\n几周遭\t幾周遭\n几回\t幾回\n几回价\t幾回價\n几因\t幾因\n几团\t幾團\n几国\t幾國\n几圆\t幾圓\n几圈\t幾圈\n几场\t幾場\n几块\t幾塊\n几块钱\t幾塊錢\n几垒\t幾壘\n几声\t幾聲\n几处\t幾處\n几多\t幾多\n几大\t幾大\n几大块\t幾大塊\n几大片\t幾大片\n几大类\t幾大類\n几天\t幾天\n几天后\t幾天後\n几天来\t幾天來\n几头\t幾頭\n几子\t几子\n几孔\t幾孔\n几字\t幾字\n几季\t幾季\n几客\t幾客\n几家\t幾家\n几家欢乐\t幾家歡樂\n几家欢乐几家愁\t幾家歡樂幾家愁\n几寸\t幾寸\n几封\t幾封\n几封信\t幾封信\n几小时\t幾小時\n几尾\t幾尾\n几局\t幾局\n几层\t幾層\n几层楼\t幾層樓\n几届\t幾屆\n几岁\t幾歲\n几巷\t幾巷\n几师\t幾師\n几希\t幾希\n几席\t几席\n几幅\t幾幅\n几年\t幾年\n几年几班\t幾年幾班\n几年来\t幾年來\n几年生\t幾年生\n几年级\t幾年級\n几床\t幾牀\n几度\t幾度\n几度春风\t幾度春風\n几座\t幾座\n几开\t幾開\n几弄\t幾弄\n几张\t幾張\n几弹\t幾彈\n几微\t幾微\n几成\t幾成\n几成新\t幾成新\n几截\t幾截\n几户\t幾戶\n几所\t幾所\n几手\t幾手\n几打\t幾打\n几批\t幾批\n几拳\t幾拳\n几支\t幾支\n几文钱\t幾文錢\n几斤\t幾斤\n几斤几两\t幾斤幾兩\n几旁\t几旁\n几旅\t幾旅\n几日\t幾日\n几日份\t幾日份\n几时\t幾時\n几星\t幾星\n几星期\t幾星期\n几晚\t幾晚\n几曾\t幾曾\n几月\t幾月\n几月份\t幾月份\n几期\t幾期\n几本\t幾本\n几本书\t幾本書\n几杆\t幾桿\n几杖\t几杖\n几杯\t幾杯\n几板\t幾板\n几枚\t幾枚\n几枝\t幾枝\n几枪\t幾槍\n几架\t幾架\n几栋\t幾棟\n几株\t幾株\n几样\t幾樣\n几格\t幾格\n几案\t几案\n几案之才\t几案之才\n几档\t幾檔\n几桶\t幾桶\n几梯次\t幾梯次\n几棵\t幾棵\n几椅\t几椅\n几楼\t幾樓\n几榻\t几榻\n几次\t幾次\n几次三番\t幾次三番\n几欲\t幾欲\n几步\t幾步\n几殆\t幾殆\n几段\t幾段\n几比几\t幾比幾\n几毛\t幾毛\n几毛钱\t幾毛錢\n几洞\t幾洞\n几滴\t幾滴\n几滴水\t幾滴水\n几炷香\t幾炷香\n几点\t幾點\n几点了\t幾點了\n几点几\t幾點幾\n几点钟\t幾點鐘\n几版\t幾版\n几率\t幾率\n几环\t幾環\n几班\t幾班\n几番\t幾番\n几番家\t幾番家\n几百\t幾百\n几百万\t幾百萬\n几百个\t幾百個\n几百人\t幾百人\n几百亿\t幾百億\n几百元\t幾百元\n几百块\t幾百塊\n几百年\t幾百年\n几百里\t幾百里\n几盏\t幾盞\n几盒\t幾盒\n几盒装\t幾盒裝\n几眼\t幾眼\n几碗\t幾碗\n几碗饭\t幾碗飯\n几社\t幾社\n几票\t幾票\n几种\t幾種\n几科\t幾科\n几秒\t幾秒\n几秒钟\t幾秒鐘\n几稀\t幾稀\n几窝\t幾窩\n几站\t幾站\n几章\t幾章\n几竿\t幾竿\n几笔\t幾筆\n几笼\t幾籠\n几筒\t幾筒\n几筵\t几筵\n几箱\t幾箱\n几米\t幾米\n几类\t幾類\n几粒\t幾粒\n几级\t幾級\n几线\t幾線\n几组\t幾組\n几经\t幾經\n几缕\t幾縷\n几罐\t幾罐\n几股\t幾股\n几胎\t幾胎\n几能\t幾能\n几能勾\t幾能勾\n几脚\t幾腳\n几至\t幾至\n几般\t幾般\n几节\t幾節\n几节课\t幾節課\n几街\t幾街\n几袋\t幾袋\n几角\t幾角\n几角形\t幾角形\n几许\t幾許\n几课\t幾課\n几谏\t幾諫\n几起\t幾起\n几趟\t幾趟\n";

/// Part 21 of the text.
pub const ST_PHRASES_21: &'static str = "几趟路\t幾趟路\n几路\t幾路\n几车\t幾車\n几转\t幾轉\n几辆\t幾輛\n几辆车\t幾輛車\n几近\t幾近\n几近于\t幾近於\n几通\t幾通\n几道\t幾道\n几道菜\t幾道菜\n几部\t幾部\n几里\t幾里\n几针\t幾針\n几门\t幾門\n几间\t幾間\n几集\t幾集\n几面上\t几面上\n几页\t幾頁\n几顶\t幾頂\n几项\t幾項\n几顿\t幾頓\n几颗\t幾顆\n几题\t幾題\n几首\t幾首\n几首歌\t幾首歌\n凡事总有一个开头\t凡事總有一個開頭\n凡于\t凡於\n凡才\t凡才\n凡是\t凡是\n凡此种种\t凡此種種\n凡须\t凡須\n凤凰于蜚\t鳳凰于蜚\n凤凰于飞\t鳳凰于飛\n凤凰台\t鳳凰臺\n凤占\t鳳占\n凤去台空\t鳳去臺空\n凤台\t鳳台\n凤台县\t鳳臺縣\n凤尾松\t鳳尾松\n凤梨干\t鳳梨乾\n凤皇于蜚\t鳳皇于蜚\n凭借\t憑藉\n凭借着\t憑藉著\n凭准\t憑準\n凭几\t憑几\n凭吊\t憑弔\n凭媒说合\t憑媒說合\n凭折\t憑摺\n凭据\t憑據\n凭空出现\t憑空出現\n凭虚御风\t憑虛御風\n凭闲\t憑閑\n凯复\t凱復\n凯奇\t凱奇\n凯特布兰琪\t凱特布蘭琪\n凯迪拉克\t凱迪拉克\n凯里\t凱里\n凯里市\t凱里市\n凶事\t凶事\n凶人\t兇人\n凶仪\t兇儀\n凶侠\t兇俠\n凶信\t凶信\n凶兆\t凶兆\n凶党\t兇黨\n凶具\t兇具\n凶凶\t兇兇\n凶凶恶恶\t兇兇惡惡\n凶凶狠狠\t兇兇狠狠\n凶刀\t兇刀\n凶器\t兇器\n凶地\t凶地\n凶多吉少\t凶多吉少\n凶嫌\t兇嫌\n凶宅\t凶宅\n凶岁\t凶歲\n凶巴巴\t兇巴巴\n凶年\t凶年\n凶年饥岁\t凶年饑歲\n凶徒\t兇徒\n凶得\t兇得\n凶得狠\t兇得狠\n凶德\t凶德\n凶怪\t凶怪\n凶恶\t兇惡\n凶悍\t兇悍\n凶惧\t兇懼\n凶手\t兇手\n凶日\t凶日\n凶暴\t兇暴\n凶服\t凶服\n凶杀\t兇殺\n凶杀案\t兇殺案\n凶枪\t兇槍\n凶案\t兇案\n凶横\t兇橫\n凶死\t凶死\n凶残\t兇殘\n凶殴\t兇毆\n凶气\t凶氣\n凶焰\t兇焰\n凶煞\t凶煞\n凶燄\t凶燄\n凶犯\t兇犯\n凶狂\t兇狂\n凶狠\t兇狠\n凶猛\t兇猛\n凶疑\t兇疑\n凶相\t兇相\n凶相毕露\t兇相畢露\n凶礼\t凶禮\n凶神\t凶神\n凶神恶煞\t凶神惡煞\n凶神附体\t凶神附體\n凶竖\t凶豎\n凶终隙末\t凶終隙末\n凶耗\t凶耗\n凶肆\t凶肆\n凶荒\t凶荒\n凶虐\t兇虐\n凶讯\t凶訊\n凶起来\t兇起來\n凶身\t凶身\n凶逆\t凶逆\n凶门\t凶門\n凶险\t兇險\n凶顽\t兇頑\n凸出\t凸出\n凸出去\t凸出去\n凸出成\t凸出成\n凸出来\t凸出來\n凸多面体\t凸多面體\n凸折线\t凸折線\n凸显出\t凸顯出\n凸显出来\t凸顯出來\n凸板印刷\t凸板印刷\n凸面\t凸面\n凸面体\t凸面體\n凸面部分\t凸面部分\n凸面镜\t凸面鏡\n凹凸有致\t凹凸有致\n凹板\t凹板\n凹洞里\t凹洞裡\n凹雕\t凹雕\n凹面\t凹面\n凹面镜\t凹面鏡\n出一回神\t出一回神\n出上\t出上\n出下\t出下\n出不起\t出不起\n出丑\t出醜\n出丑扬疾\t出醜揚疾\n出丑狼藉\t出醜狼藉\n出世\t出世\n出世作\t出世作\n出世法\t出世法\n出丧\t出喪\n出个\t出個\n出个价\t出個價\n出主意\t出主意\n出乎\t出乎\n出乎寻常\t出乎尋常\n出乎意外\t出乎意外\n出乎意料\t出乎意料\n出乎预料\t出乎預料\n出乖弄丑\t出乖弄醜\n出乖露丑\t出乖露醜\n出乘\t出乘\n出书\t出書\n出乱子\t出亂子\n出了\t出了\n出了事\t出了事\n出了月\t出了月\n出事\t出事\n出事情\t出事情\n出于\t出於\n出云\t出雲\n出亡\t出亡\n出产\t出產\n出产地\t出產地\n出人\t出人\n出人命\t出人命\n出人头地\t出人頭地\n出人意外\t出人意外\n出人意料\t出人意料\n出人意料之外\t出人意料之外\n出人意表\t出人意表\n出仕\t出仕\n出价\t出價\n出任\t出任\n出份子\t出份子\n出伏\t出伏\n出众\t出眾\n出伦之才\t出倫之才\n出使\t出使\n出倒\t出倒\n出借\t出借\n出借书\t出借書\n出儿\t齣兒\n出入\t出入\n出入口\t出入口\n出入境\t出入境\n出入将相\t出入將相\n出入平安\t出入平安\n出入相随\t出入相隨\n出入证\t出入證\n出入门\t出入門\n出公差\t出公差\n出关\t出關\n出兵\t出兵\n出其不备\t出其不備\n出其不意\t出其不意\n出其不意攻其不备\t出其不意攻其不備\n出其东门\t出其東門\n出其右\t出其右\n出具\t出具\n出典\t出典\n出军\t出軍\n出冷门\t出冷門\n出出\t出出\n出出气\t出出氣\n出出进进\t出出進進\n出击\t出擊\n出分子\t出分子\n出刊\t出刊\n出列\t出列\n出到\t出到\n出前一丁面\t出前一丁麵\n出力\t出力\n出动\t出動\n出勤\t出勤\n出勤率\t出勤率\n出卖\t出賣\n出卖灵魂\t出賣靈魂\n出厂\t出廠\n出厂价\t出廠價\n出厂价格\t出廠價格\n出去\t出去\n出去会\t出去會\n出去时\t出去時\n出去玩\t出去玩\n出双入对\t出雙入對\n出发\t出發\n出发到\t出發到\n出发地\t出發地\n出发日\t出發日\n出发点\t出發點\n出口\t出口\n出口产品\t出口產品\n出口伤人\t出口傷人\n出口值\t出口值\n出口入耳\t出口入耳\n出口到\t出口到\n出口区\t出口區\n出口商\t出口商\n出口商品\t出口商品\n出口国\t出口國\n出口处\t出口處\n出口导向\t出口導向\n出口成章\t出口成章\n出口税\t出口稅\n出口调查\t出口調查\n出口货\t出口貨\n出口贸易\t出口貿易\n出口量\t出口量\n出口额\t出口額\n出台\t出臺\n出号\t出號\n出名\t出名\n出品\t出品\n出品人\t出品人\n出品国\t出品國\n出售\t出售\n出售一空\t出售一空\n出售给\t出售給\n出唱片\t出唱片\n出喽子\t出嘍子\n出团\t出團\n出国\t出國\n出国前\t出國前\n出国时\t出國時\n出国者\t出國者\n出圈\t出圈\n出圈儿\t出圈兒\n出土\t出土\n出土文物\t出土文物\n出土物\t出土物\n出在\t出在\n出场\t出場\n出场费\t出場費\n出埃及记\t出埃及記\n出城\t出城\n出堂\t出堂\n出塞\t出塞\n出境\t出境\n出境检查\t出境檢查\n出境签证\t出境簽證\n出境证\t出境證\n出声\t出聲\n出处\t出處\n出处不如聚处\t出處不如聚處\n出外\t出外\n出外人\t出外人\n出外景\t出外景\n出大差\t出大差\n出大恭\t出大恭\n出太阳\t出太陽\n出头\t出頭\n出头之日\t出頭之日\n出头天\t出頭天\n出头日子\t出頭日子\n出头棍\t出頭棍\n出头椽儿先朽烂\t出頭椽兒先朽爛\n出头露角\t出頭露角\n出头露面\t出頭露面\n出头鸟\t出頭鳥\n出奇\t出奇\n出奇不意\t出奇不意\n出奇制胜\t出奇制勝\n出奔\t出奔\n出好\t出好\n出妇\t出婦\n出妻\t出妻\n出姓\t出姓\n出娄子\t出婁子\n出嫁\t出嫁\n出完\t出完\n出官\t出官\n出定\t出定\n出宰\t出宰\n出家\t出家\n出家人\t出家人\n出家人吃八方\t出家人吃八方\n出将入相\t出將入相\n出小恭\t出小恭\n出尔反尔\t出爾反爾\n出尖\t出尖\n出尖儿\t出尖兒\n出尘\t出塵\n出尽\t出盡\n出局\t出局\n出局数\t出局數\n出山\t出山\n出岔\t出岔\n出岔儿\t出岔兒\n出岔子\t出岔子\n出巡\t出巡\n出工\t出工\n出差\t出差\n出差费\t出差費\n出差错\t出差錯\n出师\t出師\n出师不利\t出師不利\n出师表\t出師表\n出席\t出席\n出席率\t出席率\n出席者\t出席者\n出席表决比例\t出席表決比例\n出席费\t出席費\n出幼\t出幼\n出店\t出店\n出庭\t出庭\n出庭作证\t出庭作證\n出庭应讯\t出庭應訊\n出彩\t出彩\n出征\t出征\n出征收\t出徵收\n出得\t出得\n出心\t出心\n出恭\t出恭\n出息\t出息\n出意外\t出意外\n出戏\t出戲\n出战\t出戰\n出户\t出戶\n出手\t出手\n出手得卢\t出手得盧\n";

/// Part 22 of the text.
pub const ST_PHRASES_22: &'static str = "出手见高低\t出手見高低\n出把戏\t出把戲\n出招\t出招\n出拳\t出拳\n出挑\t出挑\n出掌\t出掌\n出操\t出操\n出操课\t出操課\n出故典\t出故典\n出教\t出教\n出数儿\t出數兒\n出文\t出文\n出斩\t出斬\n出新\t出新\n出景\t出景\n出月\t出月\n出月子\t出月子\n出有\t出有\n出有入无\t出有入無\n出材\t出材\n出条子\t出條子\n出来\t出來\n出来时\t出來時\n出校\t出校\n出格\t出格\n出梅\t出梅\n出楼子\t出樓子\n出榜\t出榜\n出橐\t出橐\n出此下策\t出此下策\n出死入生\t出死入生\n出殃\t出殃\n出殡\t出殯\n出殡日\t出殯日\n出毛病\t出毛病\n出气\t出氣\n出气口\t出氣口\n出气多进气少\t出氣多進氣少\n出气筒\t出氣筒\n出水\t出水\n出水伙计\t出水夥計\n出水口\t出水口\n出水管\t出水管\n出水芙蓉\t出水芙蓉\n出汗\t出汗\n出江\t出江\n出没\t出沒\n出没不定\t出沒不定\n出没无常\t出沒無常\n出油\t出油\n出注\t出注\n出洋\t出洋\n出洋相\t出洋相\n出活\t出活\n出浴\t出浴\n出海\t出海\n出海口\t出海口\n出海打鱼\t出海打魚\n出海捕鱼\t出海捕魚\n出涕\t出涕\n出淤泥而不染\t出淤泥而不染\n出清\t出清\n出港\t出港\n出港大厅\t出港大廳\n出港证\t出港證\n出游\t出遊\n出溜\t出溜\n出溜儿\t出溜兒\n出漏子\t出漏子\n出演\t出演\n出火\t出火\n出火炕\t出火炕\n出炉\t出爐\n出点\t出點\n出点子\t出點子\n出热\t出熱\n出片\t出片\n出版\t出版\n出版业\t出版業\n出版业务\t出版業務\n出版人\t出版人\n出版前编目\t出版前編目\n出版品\t出版品\n出版品奖\t出版品獎\n出版商\t出版商\n出版地缺\t出版地缺\n出版所\t出版所\n出版日\t出版日\n出版日期\t出版日期\n出版期缺\t出版期缺\n出版法\t出版法\n出版物\t出版物\n出版界\t出版界\n出版社\t出版社\n出版社不详\t出版社不詳\n出版社丛集\t出版社叢集\n出版社清样\t出版社清樣\n出版社目录卡\t出版社目錄卡\n出版社装祯\t出版社裝禎\n出版社里\t出版社裡\n出版者\t出版者\n出版自由\t出版自由\n出版节\t出版節\n出版项\t出版項\n出牌\t出牌\n出状况\t出狀況\n出狱\t出獄\n出猎\t出獵\n出现\t出現\n出现意外\t出現意外\n出现数\t出現數\n出球\t出球\n出生\t出生\n出生入死\t出生入死\n出生别\t出生別\n出生地\t出生地\n出生地点\t出生地點\n出生年\t出生年\n出生日\t出生日\n出生日期\t出生日期\n出生牙\t出生牙\n出生率\t出生率\n出生纸\t出生紙\n出生缺陷\t出生缺陷\n出生证\t出生證\n出界\t出界\n出疹子\t出疹子\n出的\t出的\n出监\t出監\n出盘\t出盤\n出示\t出示\n出示证件\t出示證件\n出社会\t出社會\n出神\t出神\n出神入化\t出神入化\n出票\t出票\n出科\t出科\n出租\t出租\n出租人\t出租人\n出租店\t出租店\n出租汽车\t出租汽車\n出租率\t出租率\n出租给\t出租給\n出稿\t出稿\n出窍\t出竅\n出窝老\t出窩老\n出站\t出站\n出笏\t出笏\n出笼\t出籠\n出笼鸟\t出籠鳥\n出籍\t出籍\n出类拔群\t出類拔群\n出类拔萃\t出類拔萃\n出类超群\t出類超群\n出粗\t出粗\n出粜\t出糶\n出粮\t出糧\n出糗\t出糗\n出红差\t出紅差\n出纳\t出納\n出纳台\t出納臺\n出纳员\t出納員\n出纳处\t出納處\n出纳科\t出納科\n出纳系统\t出納系統\n出纳组\t出納組\n出线\t出線\n出结\t出結\n出给\t出給\n出继\t出繼\n出缺\t出缺\n出群\t出群\n出群拔萃\t出群拔萃\n出老千\t出老千\n出脱\t出脫\n出自\t出自\n出自于\t出自於\n出自娘胎\t出自娘胎\n出自肺腑\t出自肺腑\n出臭子儿\t出臭子兒\n出航\t出航\n出色\t出色\n出花儿\t出花兒\n出花样\t出花樣\n出芽\t出芽\n出芽法\t出芽法\n出芽生殖\t出芽生殖\n出苗\t出苗\n出苗率\t出苗率\n出草\t出草\n出落\t出落\n出虚恭\t出虛恭\n出蛰\t出蟄\n出血\t出血\n出血性\t出血性\n出血性登革热\t出血性登革熱\n出血热\t出血熱\n出血病\t出血病\n出血筒子\t出血筒子\n出血量\t出血量\n出行\t出行\n出言\t出言\n出言不逊\t出言不遜\n出言成章\t出言成章\n出言无状\t出言無狀\n出言有序\t出言有序\n出警入跸\t出警入蹕\n出让\t出讓\n出记\t出記\n出访\t出訪\n出诉\t出訴\n出诊\t出診\n出调\t出調\n出谋划策\t出謀劃策\n出谋献策\t出謀獻策\n出谷迁乔\t出谷遷喬\n出豁\t出豁\n出货\t出貨\n出货单\t出貨單\n出货量\t出貨量\n出费\t出費\n出资\t出資\n出资人\t出資人\n出赘\t出贅\n出赛\t出賽\n出走\t出走\n出起\t出起\n出起来\t出起來\n出超\t出超\n出超国\t出超國\n出超额\t出超額\n出路\t出路\n出跳\t出跳\n出身\t出身\n出车\t出車\n出车祸\t出車禍\n出轨\t出軌\n出轨行为\t出軌行為\n出过\t出過\n出迎\t出迎\n出进口\t出進口\n出远门\t出遠門\n出逃\t出逃\n出道\t出道\n出道时\t出道時\n出量\t出量\n出金\t出金\n出钱\t出錢\n出钱出力\t出錢出力\n出铁\t出鐵\n出锋头\t出鋒頭\n出错\t出錯\n出错信息\t出錯信息\n出锤\t出錘\n出镜\t出鏡\n出镜头\t出鏡頭\n出门\t出門\n出门在外\t出門在外\n出门子\t出門子\n出门时\t出門時\n出问题\t出問題\n出闸\t出閘\n出阁\t出閣\n出阁之喜\t出閣之喜\n出阵\t出陣\n出陈布新\t出陳佈新\n出院\t出院\n出险\t出險\n出难题\t出難題\n出面\t出面\n出鞘\t出鞘\n出韵\t出韻\n出顶\t出頂\n出项\t出項\n出题\t出題\n出风口\t出風口\n出风头\t出風頭\n出饭\t出飯\n出首\t出首\n出马\t出馬\n出马上场\t出馬上場\n出马上阵\t出馬上陣\n出高价\t出高價\n出鬼入神\t出鬼入神\n出齐\t出齊\n击出\t擊出\n击发\t擊發\n击向\t擊向\n击板\t擊板\n击沉\t擊沉\n击筑\t擊築\n击钟\t擊鐘\n击钟陈鼎\t擊鐘陳鼎\n击钟鼎食\t擊鐘鼎食\n函复\t函覆\n函谷关\t函谷關\n凿出\t鑿出\n凿出去\t鑿出去\n凿出来\t鑿出來\n凿凿有据\t鑿鑿有據\n凿壁悬梁\t鑿壁懸樑\n凿岩\t鑿岩\n凿岩机\t鑿岩機\n凿船虫\t鑿船蟲\n刀创药\t刀創藥\n刀削面\t刀削麵\n刀割针扎\t刀割針扎\n刀布\t刀布\n刀拨面\t刀撥麵\n刀板\t刀板\n刀耕火种\t刀耕火種\n刀面\t刀面\n刁奸\t刁姦\n刁恶\t刁惡\n刁斗\t刁斗\n分一杯羹\t分一杯羹\n分不出\t分不出\n分个\t分個\n分久必合\t分久必合\n分久必合合久必分\t分久必合合久必分\n分了\t分了\n分伙\t分夥\n分克\t分克\n分党\t分黨\n分出\t分出\n分出去\t分出去\n分出来\t分出來\n分分合合\t分分合合\n分别\t分別\n分别出\t分別出\n分别财产制\t分別財產制\n分别部居\t分別部居\n分半钟\t分半鐘\n分占\t分佔\n分厂\t分廠\n分厘卡\t分釐卡\n分厘毫丝\t分釐毫絲\n分发\t分發\n分发到\t分發到\n分发区\t分發區\n分发给\t分發給\n分合\t分合\n分向岛\t分向島\n分多钟\t分多鐘\n分天之仇\t分天之仇\n分子化合物\t分子化合物\n分子钟\t分子鐘\n分封制\t分封制\n分尸\t分屍\n分尸案\t分屍案\n分工合作\t分工合作\n分工整合\t分工整合\n分布\t分佈\n分布于\t分佈於\n分布区\t分佈區\n分布图\t分佈圖\n分布学习\t分佈學習\n分布式\t分佈式\n分布式发展模型\t分佈式發展模型\n分布式拒绝服务\t分佈式拒絕服務\n分布式环境\t分佈式環境\n分布式结构\t分佈式結構\n分布式网络\t分佈式網絡\n分布控制\t分佈控制\n";

/// Part 23 of the text.
pub const ST_PHRASES_23: &'static str = "分布范围\t分佈範圍\n分布连结网络\t分佈連結網絡\n分当\t分當\n分录\t分錄\n分形几何\t分形幾何\n分形几何学\t分形幾何學\n分形同气\t分形同氣\n分得出\t分得出\n分我杯羹\t分我杯羹\n分摆\t分擺\n分散于\t分散於\n分散注意\t分散注意\n分数挂帅\t分數掛帥\n分时系统\t分時系統\n分权制衡\t分權制衡\n分杯羹\t分杯羹\n分析出\t分析出\n分析出来\t分析出來\n分泌出\t分泌出\n分泌系统\t分泌系統\n分离出\t分離出\n分离出来\t分離出來\n分离术\t分離術\n分种\t分種\n分筋术\t分筋術\n分类目录\t分類目錄\n分系\t分系\n分系统\t分系統\n分级制\t分級制\n分获\t分獲\n分行布白\t分行布白\n分裂症\t分裂症\n分身乏术\t分身乏術\n分身术\t分身術\n分辨出\t分辨出\n分辨出来\t分辨出來\n分辨善恶\t分辨善惡\n分进合\t分進合\n分进合击\t分進合擊\n分配制\t分配制\n分配制作\t分配製作\n分配制造\t分配製造\n分针\t分針\n分钟\t分鐘\n分门别类\t分門別類\n切个\t切個\n切云\t切雲\n切仔面\t切仔麵\n切出\t切出\n切出去\t切出去\n切出来\t切出來\n切合\t切合\n切合实际\t切合實際\n切合需要\t切合需要\n切向\t切向\n切向力\t切向力\n切向速度\t切向速度\n切向量\t切向量\n切平面\t切平面\n切开术\t切開術\n切当\t切當\n切换\t切換\n切菜板\t切菜板\n切除术\t切除術\n切面\t切面\n切骨之仇\t切骨之仇\n刊了\t刊了\n刊出\t刊出\n刊出来\t刊出來\n刊布\t刊佈\n刊板\t刊板\n刊误表\t刊誤表\n刑于\t刑于\n刑余\t刑餘\n刑克\t刑剋\n刑法志\t刑法志\n刑辟\t刑辟\n划一\t劃一\n划一不二\t劃一不二\n划一桨\t划一槳\n划上\t劃上\n划下\t劃下\n划下道来\t劃下道來\n划不来\t划不來\n划为\t劃為\n划了\t劃了\n划了一会\t划了一會\n划价\t劃價\n划伤\t劃傷\n划位\t劃位\n划入\t劃入\n划具\t划具\n划出\t劃出\n划分\t劃分\n划分为\t劃分為\n划分成\t劃分成\n划分法\t劃分法\n划划\t劃劃\n划到\t劃到\n划到岸\t划到岸\n划到江心\t划到江心\n划动\t划動\n划单人艇\t划單人艇\n划去\t劃去\n划双人\t划雙人\n划向\t划向\n划圆防守\t劃圓防守\n划在\t劃在\n划地\t劃地\n划地为王\t劃地為王\n划地自限\t劃地自限\n划子\t划子\n划定\t劃定\n划定为\t劃定為\n划座位\t劃座位\n划开\t劃開\n划归\t劃歸\n划得\t劃得\n划得来\t划得來\n划成\t劃成\n划拉\t劃拉\n划拨\t劃撥\n划拨帐号\t劃撥帳號\n划拳\t划拳\n划掉\t劃掉\n划时代\t劃時代\n划来\t划來\n划来划去\t劃來劃去\n划桨\t划槳\n划款\t劃款\n划水\t划水\n划法\t劃法\n划清\t劃清\n划清界线\t劃清界線\n划清界限\t劃清界限\n划然\t劃然\n划界\t劃界\n划痕\t劃痕\n划着\t划著\n划着走\t划著走\n划破\t劃破\n划策\t劃策\n划算\t划算\n划纹症\t劃紋症\n划线\t劃線\n划船\t划船\n划艇\t划艇\n划花\t劃花\n划行\t划行\n划设\t劃設\n划走\t划走\n划起\t划起\n划起来\t划起來\n划足\t劃足\n划过\t劃過\n划过去\t划過去\n划过来\t划過來\n划进\t划進\n划进去\t划進去\n划进来\t划進來\n划龙舟\t划龍舟\n刓团\t刓團\n刖足适屦\t刖足適屨\n刖趾适屦\t刖趾適屨\n列举出\t列舉出\n列了\t列了\n列克星顿\t列克星頓\n列出\t列出\n列出来\t列出來\n列别杰夫\t列別傑夫\n列印出来\t列印出來\n列夫托尔斯泰\t列夫托爾斯泰\n列宁威权体系\t列寧威權體系\n列布\t列布\n列席代表\t列席代表\n列当\t列當\n列御寇\t列禦寇\n列氏寒暑表\t列氏寒暑表\n列表\t列表\n列表机\t列表機\n刘云山\t劉雲山\n刘任杰\t劉任傑\n刘伟杰\t劉偉杰\n刘克庄\t劉克莊\n刘克襄\t劉克襄\n刘占吉\t劉占吉\n刘向\t劉向\n刘嘉发\t劉嘉發\n刘复\t劉復\n刘宗周\t劉宗周\n刘峰松\t劉峯松\n刘幸义\t劉幸義\n刘幸如\t劉倖如\n刘志勤\t劉志勤\n刘志升\t劉志昇\n刘志威\t劉志威\n刘念\t劉念\n刘松仁\t劉松仁\n刘松年\t劉松年\n刘松藩\t劉松藩\n刘知几\t劉知幾\n刘秋凤\t劉秋鳳\n刘胡兰\t劉胡蘭\n刘表\t劉表\n刘鉴\t劉鑑\n刘鉴庭\t劉鑑庭\n刘长发\t劉長發\n刘阮上天台\t劉阮上天臺\n刘青云\t劉青雲\n则个\t則個\n刚一出\t剛一出\n刚出\t剛出\n刚出去\t剛出去\n刚出来\t剛出來\n刚出道\t剛出道\n刚回\t剛回\n刚回到\t剛回到\n刚回去\t剛回去\n刚回来\t剛回來\n刚干\t剛乾\n刚才\t剛才\n刚才一载\t剛才一載\n刚才在\t剛才在\n刚才是\t剛才是\n刚板硬正\t剛板硬正\n刚柔并济\t剛柔並濟\n创业板\t創業板\n创业板上市\t創業板上市\n创价学会\t創價學會\n创伤后\t創傷後\n创伤后压力\t創傷後壓力\n创伤后压力紊乱\t創傷後壓力紊亂\n创作出\t創作出\n创作曲\t創作曲\n创出\t創出\n创制\t創制\n创制权\t創制權\n创历年\t創歷年\n创巨\t創鉅\n创意曲\t創意曲\n创意杯\t創意盃\n创汇\t創匯\n创立出\t創立出\n创纪录\t創紀錄\n创获\t創穫\n创记录\t創記錄\n创造出\t創造出\n创造出来\t創造出來\n创面\t創面\n初冬\t初冬\n初出茅庐\t初出茅廬\n初升\t初升\n初发\t初發\n初发芙蓉\t初發芙蓉\n初唐四杰\t初唐四傑\n初回\t初回\n初征\t初征\n初志\t初志\n初愿\t初願\n初次见面\t初次見面\n初登板\t初登板\n初秋\t初秋\n初秋图\t初秋圖\n初级关系\t初級關係\n初级团体\t初級團體\n初选制\t初選制\n初露才华\t初露才華\n判别\t判別\n判别式\t判別式\n判据\t判據\n判断出\t判斷出\n判然不合\t判然不合\n判若云泥\t判若雲泥\n刨出来\t刨出來\n利于\t利於\n利古里亚\t利古里亞\n利多于弊\t利多於弊\n利多出尽\t利多出盡\n利字当头\t利字當頭\n利害关系\t利害關係\n利害关系人\t利害關係人\n利害关系方\t利害關係方\n利害冲突\t利害衝突\n利弊参半\t利弊參半\n利得汇\t利得彙\n利息支出\t利息支出\n利托\t利托\n利析秋毫\t利析秋毫\n利欲\t利慾\n利欲心\t利慾心\n利欲熏心\t利慾薰心\n利欲薰心\t利慾薰心\n利比里亚\t利比里亞\n利用价值\t利用價值\n利用系数\t利用係數\n利益团体\t利益團體\n利益集团\t利益集團\n利空出尽\t利空出盡\n利纳克斯\t利納克斯\n利默里克\t利默里克\n别上\t別上\n别上去\t別上去\n别上来\t別上來\n别下\t別下\n别下去\t別下去\n别下来\t別下來\n别业\t別業\n别个\t別個\n别为\t別為\n别义\t別義\n别乡\t別鄉\n别乱\t別亂\n别了\t別了\n别于\t別於\n别人\t別人\n别人的\t別人的\n别人的孩子死不完\t別人的孩子死不完\n别人的肉偎不热\t別人的肉偎不熱\n别人肉帖不在腮颊上\t別人肉帖不在腮頰上\n别从\t別從\n别传\t別傳\n别体\t別體\n别作一眼\t別作一眼\n别使\t別使\n别倒\t別倒\n别傻\t別傻\n别傻了\t別傻了\n别像\t別像\n别克\t別克\n别党\t別黨\n别关\t別關\n别具\t別具\n别具一格\t別具一格\n别具匠心\t別具匠心\n别具只眼\t別具隻眼\n别具慧眼\t別具慧眼\n别具炉锤\t別具爐錘\n别具肺肠\t別具肺腸\n别再\t別再\n别出\t別出\n别出去\t別出去\n别出心裁\t別出心裁\n别出新裁\t別出新裁\n别出机杼\t別出機杼\n别出来\t別出來\n别创新格\t別創新格\n别别扭扭\t彆彆扭扭\n别到\t別到\n别刻\t別刻\n别办\t別辦\n别加\t別加\n别动\t別動\n别动队\t別動隊\n";

/// Part 24 of the text.
pub const ST_PHRASES_24: &'static str = "别劲\t別勁\n别区\t別區\n别去\t別去\n别县\t別縣\n别又\t別又\n别受\t別受\n别变\t別變\n别口气\t彆口氣\n别句\t別句\n别只\t別隻\n别只写\t別只寫\n别只叫\t別只叫\n别只够\t別只夠\n别只夸\t別只誇\n别只得\t別只得\n别只是\t別只是\n别只有\t別只有\n别只管\t別只管\n别只要\t別只要\n别只读\t別只讀\n别只靠\t別只靠\n别只顾\t別只顧\n别叫\t別叫\n别史\t別史\n别号\t別號\n别名\t別名\n别后\t別後\n别后寒温\t別後寒溫\n别向\t別向\n别吓\t別嚇\n别吓人\t別嚇人\n别哭\t別哭\n别嘴\t彆嘴\n别国\t別國\n别在\t別在\n别墅\t別墅\n别墅区\t別墅區\n别墨\t別墨\n别处\t別處\n别太客气\t別太客氣\n别套\t別套\n别子\t別子\n别字\t別字\n别守\t別守\n别客气\t別客氣\n别室\t別室\n别宫祭江\t別宮祭江\n别害羞\t別害羞\n别家\t別家\n别寄\t別寄\n别对\t別對\n别将\t別將\n别局\t別局\n别岁\t別歲\n别巷\t別巷\n别师\t別師\n别干净\t別乾淨\n别庄\t別莊\n别开\t別開\n别开生面\t別開生面\n别开蹊径\t別開蹊徑\n别异\t別異\n别弹\t別彈\n别强\t彆強\n别当\t別當\n别得\t別得\n别忙\t別忙\n别念\t別唸\n别急\t別急\n别怪\t別怪\n别情\t別情\n别情依依\t別情依依\n别想\t別想\n别意\t別意\n别成\t別成\n别房\t別房\n别手\t別手\n别扭\t彆扭\n别把\t別把\n别拍\t別拍\n别拔\t別拔\n别拗\t彆拗\n别拿\t別拿\n别挤\t別擠\n别排\t別排\n别描头\t別描頭\n别提\t別提\n别提了\t別提了\n别搬\t別搬\n别支\t別支\n别收\t別收\n别教\t別教\n别数\t別數\n别族\t別族\n别无\t別無\n别无他法\t別無他法\n别无他物\t別無他物\n别无他用\t別無他用\n别无分号\t別無分號\n别无选择\t別無選擇\n别无长物\t別無長物\n别日南鸿才北去\t別日南鴻才北去\n别是\t別是\n别替\t別替\n别有\t別有\n别有天地\t別有天地\n别有居心\t別有居心\n别有所指\t別有所指\n别有洞天\t別有洞天\n别有用心\t別有用心\n别有用意\t別有用意\n别有肺肠\t別有肺腸\n别有韵味\t別有韻味\n别有风味\t別有風味\n别本\t別本\n别杀\t別殺\n别材\t別材\n别束\t別束\n别来\t別來\n别来无恙\t別來無恙\n别枝\t別枝\n别架\t別架\n别栋\t別棟\n别树一帜\t別樹一幟\n别树一旗\t別樹一旗\n别树一格\t別樹一格\n别校\t別校\n别样\t別樣\n别棵\t別棵\n别殿\t別殿\n别气\t彆氣\n别法\t別法\n别派\t別派\n别现\t別現\n别班\t別班\n别理\t別理\n别生\t別生\n别生枝节\t別生枝節\n别生气\t別生氣\n别用\t別用\n别由\t別由\n别白\t別白\n别的\t別的\n别的人\t別的人\n别省\t別省\n别看\t別看\n别着\t彆著\n别离\t別離\n别种\t別種\n别种的\t別種的\n别科\t別科\n别称\t別稱\n别笑\t別笑\n别第\t別第\n别答\t別答\n别筵\t別筵\n别管\t別管\n别箱\t別箱\n别线\t別線\n别组\t別組\n别给\t別給\n别绪\t別緒\n别罐\t別罐\n别脚\t別腳\n别致\t別緻\n别致有趣\t別緻有趣\n别苗头\t別苗頭\n别被\t別被\n别裁\t別裁\n别裁伪体\t別裁偽體\n别解\t別解\n别讨\t別討\n别让\t別讓\n别记\t別記\n别讲\t別講\n别论\t別論\n别识别见\t別識別見\n别试\t別試\n别话\t別話\n别说\t別說\n别说出\t別說出\n别说到\t別說到\n别说起\t別說起\n别请\t別請\n别课\t別課\n别调\t別調\n别谈\t別談\n别赋\t別賦\n别赏\t別賞\n别走\t別走\n别起\t別起\n别起来\t別起來\n别趣\t別趣\n别跑\t別跑\n别踢\t別踢\n别转\t別轉\n别输\t別輸\n别辟\t別闢\n别辟蹊径\t別闢蹊徑\n别辟门户\t別闢門戶\n别过\t別過\n别过去\t別過去\n别过头\t別過頭\n别过来\t別過來\n别逃\t別逃\n别针\t別針\n别队\t別隊\n别院\t別院\n别除权\t別除權\n别集\t別集\n别项\t別項\n别颏腮\t別頦腮\n别颗\t別顆\n别题\t別題\n别风淮雨\t別風淮雨\n别馆\t別館\n别首\t別首\n别驾\t別駕\n别骑\t別騎\n别鹤\t別鶴\n别鹤孤鸾\t別鶴孤鸞\n别鹤操\t別鶴操\n别鹤离鸾\t別鶴離鸞\n刬恶除奸\t剗惡除奸\n刮上\t刮上\n刮下\t刮下\n刮下去\t刮下去\n刮下来\t刮下來\n刮书背\t刮書背\n刮了\t颳了\n刮伤\t刮傷\n刮倒\t颳倒\n刮冷风\t刮冷風\n刮出\t刮出\n刮刀\t刮刀\n刮刮\t刮刮\n刮刮乐\t刮刮樂\n刮刮匝匝\t刮刮匝匝\n刮刮卡\t刮刮卡\n刮刮叫\t刮刮叫\n刮刮杂杂\t刮刮雜雜\n刮刮而谈\t刮刮而談\n刮到\t刮到\n刮削\t刮削\n刮剌\t刮剌\n刮剌剌\t刮剌剌\n刮去\t颳去\n刮取\t刮取\n刮喇\t刮喇\n刮在\t刮在\n刮地器\t刮地器\n刮地皮\t刮地皮\n刮垢\t刮垢\n刮垢磨光\t刮垢磨光\n刮大风\t颳大風\n刮头\t刮頭\n刮好\t刮好\n刮子\t刮子\n刮宫术\t刮宮術\n刮得\t颳得\n刮打\t刮打\n刮拉\t刮拉\n刮掉\t刮掉\n刮搭板儿\t刮搭板兒\n刮摩\t刮摩\n刮来刮去\t刮來刮去\n刮毒\t刮毒\n刮涎\t刮涎\n刮痕\t刮痕\n刮痧\t刮痧\n刮的\t刮的\n刮皮刀\t刮皮刀\n刮目相待\t刮目相待\n刮目相看\t刮目相看\n刮着\t颳著\n刮研\t刮研\n刮破\t刮破\n刮肠洗胃\t刮腸洗胃\n刮胡\t刮鬍\n刮胡刀\t刮鬍刀\n刮胡子\t刮鬍子\n刮脸\t刮臉\n刮脸刀\t刮臉刀\n刮脸皮\t刮臉皮\n刮舌\t刮舌\n刮舌子\t刮舌子\n刮补\t刮補\n刮言\t刮言\n刮走\t颳走\n刮起\t颳起\n刮起来\t刮起來\n刮躁\t刮躁\n刮过\t刮過\n刮过去\t刮過去\n刮过来\t刮過來\n刮铲\t刮鏟\n刮除\t刮除\n刮雪\t颳雪\n刮须\t刮鬚\n刮风\t颳風\n刮风下雪倒便宜\t刮風下雪倒便宜\n刮风后\t颳風後\n刮骨\t刮骨\n刮骨去毒\t刮骨去毒\n刮骨疗毒\t刮骨療毒\n到不了\t到不了\n到了\t到了\n到岸价\t到岸價\n到岸价格\t到岸價格\n到此一游\t到此一遊\n到海里\t到海裡\n到达签证\t到達簽證\n到那个时候\t到那個時候\n到那里\t到那裡\n制中\t制中\n制为\t製為\n制举\t制舉\n制义\t制義\n制书\t制書\n制于\t制於\n制件\t製件\n制伏\t制伏\n制住\t制住\n制作\t製作\n制作业\t製作業\n制作人\t製作人\n制作出\t製作出\n制作出来\t製作出來\n制作商\t製作商\n制作好\t製作好\n制作成\t製作成\n制作群\t製作群\n制作者\t製作者\n制作费\t製作費\n制假\t製假\n制做\t製做\n制军\t制軍\n制冰\t製冰\n制冰机\t製冰機\n制冷\t製冷\n制冷剂\t製冷劑\n制冷机\t製冷機\n制出\t製出\n制剂\t製劑\n制动\t制動\n制动器\t制動器\n制动因子\t制動因子\n制动火箭\t制動火箭\n制动缸\t制動缸\n制动踏板\t制動踏板\n制勘\t制勘\n制压射击\t制壓射擊\n制取\t製取\n制变\t制變\n制台\t制臺\n制命\t制命\n制品\t製品\n制售\t製售\n制图\t製圖\n制图员\t製圖員\n制图学\t製圖學\n制图室\t製圖室\n制图尺\t製圖尺\n制图师\t製圖師\n制图板\t製圖板\n制图样\t製圖樣\n制图桌\t製圖桌\n制图者\t製圖者\n制图车\t製圖車\n制坯\t製坯\n制备\t製備\n制定\t制定\n制定出\t制定出\n制定出来\t制定出來\n制宪\t制憲\n制宪会议\t制憲會議\n制宪权\t制憲權\n制导\t制導\n制币\t製幣\n制度\t制度\n制度化\t制度化\n制度性\t制度性\n制度法\t制度法\n制度面\t制度面\n制式\t制式\n制式化\t制式化\n制得\t製得\n制成\t製成\n制成品\t製成品\n制播\t製播\n制敌机先\t制敵機先\n制新宪\t制新憲\n制服\t制服\n制服呢\t制服呢\n制服警察\t制服警察\n制材\t製材\n制梃\t制梃\n制止\t制止\n制毒\t製毒\n制氧\t製氧\n制水阀\t制水閥\n制法\t製法\n制浆\t製漿\n制海\t制海\n";

/// Part 25 of the text.
pub const ST_PHRASES_25: &'static str = "制海权\t制海權\n制烟\t製煙\n制片\t製片\n制片人\t製片人\n制片厂\t製片廠\n制片商\t製片商\n制片家\t製片家\n制版\t製版\n制版术\t製版術\n制盐\t製鹽\n制碱\t製鹼\n制礼\t制禮\n制礼作乐\t制禮作樂\n制科\t制科\n制程\t製程\n制空\t制空\n制空权\t制空權\n制策\t制策\n制签\t制籤\n制糖\t製糖\n制糖厂\t製糖廠\n制约\t制約\n制约刺激\t制約刺激\n制约反应\t制約反應\n制纸\t製紙\n制胜\t制勝\n制胜之道\t制勝之道\n制艺\t制藝\n制茶\t製茶\n制药\t製藥\n制药业\t製藥業\n制药企业\t製藥企業\n制药厂\t製藥廠\n制衡\t制衡\n制衡作用\t制衡作用\n制衣\t製衣\n制衣厂\t製衣廠\n制表\t製表\n制裁\t制裁\n制裁案\t制裁案\n制订\t制訂\n制诰\t制誥\n制造\t製造\n制造业\t製造業\n制造业者\t製造業者\n制造出\t製造出\n制造出来\t製造出來\n制造厂\t製造廠\n制造厂商\t製造廠商\n制造品\t製造品\n制造商\t製造商\n制造器\t製造器\n制造场\t製造場\n制造成\t製造成\n制造术\t製造術\n制造者\t製造者\n制造费用\t製造費用\n制酸剂\t制酸劑\n制酸性\t製酸性\n制醣\t製醣\n制钟\t製鐘\n制钱\t制錢\n制锦\t製錦\n制限\t制限\n制限选举\t制限選舉\n制陶\t製陶\n制陶工人\t製陶工人\n制面\t製麵\n制面具\t製面具\n制革\t製革\n制革厂\t製革廠\n制革工厂\t製革工廠\n制鞋\t製鞋\n制鞋业\t製鞋業\n制鞋匠\t製鞋匠\n制鞋工人\t製鞋工人\n制音器\t制音器\n制高点\t制高點\n刷卷\t刷卷\n刷新纪录\t刷新紀錄\n刺不准\t刺不準\n刺出\t刺出\n刺出去\t刺出去\n刺出来\t刺出來\n刺参\t刺參\n刺头泥里陷\t刺頭泥裡陷\n刺干\t刺干\n刺探出\t刺探出\n刺杀出局\t刺殺出局\n刺枪术\t刺槍術\n刺激启动不同步\t刺激啟動不同步\n刺绣\t刺繡\n刺股悬梁\t刺股懸樑\n刺胳针\t刺胳針\n刺针\t刺針\n刺骨悬梁\t刺骨懸樑\n刻个\t刻個\n刻了\t刻了\n刻于\t刻於\n刻出\t刻出\n刻划\t刻劃\n刻划入微\t刻劃入微\n刻划出\t刻劃出\n刻半钟\t刻半鐘\n刻多钟\t刻多鐘\n刻录机\t刻錄機\n刻板\t刻板\n刻板印象\t刻板印象\n刻蜡纸\t刻蠟紙\n刻足适屦\t刻足適屨\n刻钟\t刻鐘\n剂量当量\t劑量當量\n剃了\t剃了\n剃发\t剃髮\n剃发为尼\t剃髮為尼\n剃发令\t剃髮令\n剃发留辫\t剃髮留辮\n剃发铺\t剃髮鋪\n剃头发\t剃頭髮\n剃胡\t剃鬍\n剃须\t剃鬚\n剃须刀\t剃鬚刀\n剉折\t剉折\n削了\t削了\n削价\t削價\n削发\t削髮\n削发为僧\t削髮為僧\n削发为尼\t削髮為尼\n削发披缁\t削髮披緇\n削筋面\t削筋麵\n削苹果\t削蘋果\n削足适履\t削足適履\n削趾适屦\t削趾適屨\n削面\t削麵\n前不巴村后不巴店\t前不巴村後不巴店\n前事不忘后事之师\t前事不忘後事之師\n前亲晚后\t前親晚後\n前人失脚后人把滑\t前人失腳後人把滑\n前人撒土迷了后人的眼\t前人撒土迷了後人的眼\n前人栽树后人乘凉\t前人栽樹後人乘涼\n前人种树\t前人種樹\n前仆后继\t前仆後繼\n前仆后起\t前仆後起\n前仇\t前仇\n前仰后合\t前仰後合\n前修\t前修\n前俯后仰\t前俯後仰\n前倨后卑\t前倨後卑\n前倨后恭\t前倨後恭\n前儿个\t前兒個\n前几天\t前幾天\n前出后空\t前出後空\n前前后后\t前前後後\n前功尽废\t前功盡廢\n前功尽弃\t前功盡棄\n前功尽灭\t前功盡滅\n前厂\t前廠\n前台\t前臺\n前叶\t前葉\n前合后仰\t前合後仰\n前合后偃\t前合後偃\n前后\t前後\n前后任\t前後任\n前后夹攻\t前後夾攻\n前后左右\t前後左右\n前后文\t前後文\n前后相悖\t前後相悖\n前后相随\t前後相隨\n前后矛盾\t前後矛盾\n前后脚儿\t前後腳兒\n前向拥塞通知\t前向擁塞通知\n前呼后应\t前呼後應\n前呼后拥\t前呼後擁\n前回\t前回\n前因后果\t前因後果\n前奏曲\t前奏曲\n前婚后嫁\t前婚後嫁\n前家后继\t前家後繼\n前志\t前志\n前怕狼后怕虎\t前怕狼後怕虎\n前思后想\t前思後想\n前扑后继\t前撲後繼\n前挽后推\t前挽後推\n前推后拥\t前推後擁\n前新系\t前新系\n前无古人后无来者\t前無古人後無來者\n前核\t前核\n前歌后舞\t前歌後舞\n前甲板\t前甲板\n前短后长\t前短後長\n前程万里\t前程萬里\n前缘未了\t前緣未了\n前苏联\t前蘇聯\n前街后巷\t前街後巷\n前言不对后语\t前言不對後語\n前言不答后语\t前言不答後語\n前词汇加工\t前詞彙加工\n前词汇语音加工\t前詞彙語音加工\n前词汇阶段\t前詞彙階段\n前赴后继\t前赴後繼\n前车之覆\t前車之覆\n前车之覆后车之鉴\t前車之覆後車之鑑\n前车之鉴\t前車之鑑\n前车可鉴\t前車可鑑\n前车覆后车戒\t前車覆後車戒\n前进党\t前進黨\n前途未卜\t前途未卜\n前遮后拥\t前遮後擁\n前郭尔罗斯蒙古族自治县\t前郭爾羅斯蒙古族自治縣\n前长后短\t前長後短\n前门不进师姑后门不进和尚\t前門不進師姑後門不進和尚\n前门打虎后门打狼\t前門打虎後門打狼\n前门拒虎后门进狼\t前門拒虎後門進狼\n前面\t前面\n剑叶\t劍葉\n剑合珠还\t劍合珠還\n剑术\t劍術\n剑杆\t劍桿\n剔了\t剔了\n剔出\t剔出\n剔团圆\t剔團圓\n剔庄货\t剔莊貨\n剔齿纤\t剔齒纖\n剖别\t剖別\n剖宫产手术\t剖宮產手術\n剖腹产手术\t剖腹產手術\n剖腹手术\t剖腹手術\n剖面\t剖面\n剖面图\t剖面圖\n剥制\t剝製\n剥尽\t剝盡\n剥挽\t剝挽\n剥极必复\t剝極必復\n剥离症\t剝離症\n剥采比\t剝採比\n剥面皮\t剝面皮\n剧力万钧\t劇力萬鈞\n剧团\t劇團\n剧坛\t劇壇\n剧曲\t劇曲\n剧种\t劇種\n剧药\t劇藥\n剩个\t剩個\n剩了\t剩了\n剩余\t剩餘\n剩余价值\t剩餘價值\n剩余定理\t剩餘定理\n剩余放射性\t剩餘放射性\n剩余辐射\t剩餘輻射\n剩馀价值\t剩餘價值\n剩馀价值率\t剩餘價值率\n剪个\t剪個\n剪了\t剪了\n剪其发\t剪其髮\n剪出\t剪出\n剪发\t剪髮\n剪发披缁\t剪髮披緇\n剪头发\t剪頭髮\n剪彩\t剪綵\n剪彩仪式\t剪彩儀式\n剪恶除奸\t剪惡除奸\n剪牡丹喂牛\t剪牡丹喂牛\n剪秋罗\t剪秋羅\n剪贴出\t剪貼出\n副厂长\t副廠長\n副团长\t副團長\n副性征\t副性徵\n副总干事\t副總幹事\n副曲\t副曲\n副法向量\t副法向量\n割了\t割了\n割出\t割出\n割回\t割回\n割回去\t割回去\n割回来\t割回來\n割圆术\t割圓術\n割据\t割據\n割舍\t割捨\n割舍不下\t割捨不下\n剺面\t剺面\n剿获\t剿獲\n劈划\t劈劃\n劈地价来\t劈地價來\n劈尸万段\t劈屍萬段\n劈心里\t劈心裡\n劈挂拳\t劈掛拳\n劈脑后\t劈腦後\n劈里\t劈里\n劈里啪啦\t劈里啪啦\n劈面\t劈面\n力不从愿\t力不從願\n力不同科\t力不同科\n力不胜任\t力不勝任\n力不自胜\t力不自勝\n力争上游\t力爭上游\n力克\t力克\n力克制\t力剋制\n力回馈\t力回饋\n力困筋乏\t力困筋乏\n力尽\t力盡\n力尽神危\t力盡神危\n力尽筋疲\t力盡筋疲\n力尽筋舒\t力盡筋舒\n力征\t力征\n力拼众敌\t力拼眾敵\n力挽\t力挽\n力挽狂澜\t力挽狂瀾\n力敌万人\t力敵萬人\n力敌万夫\t力敵萬夫\n力系\t力系\n力胜\t力勝\n力薄才疏\t力薄才疏\n力道里\t力道裡\n力量党\t力量黨\n劝出\t勸出\n劝出去\t勸出去\n劝出来\t勸出來\n劝善惩恶\t勸善懲惡\n劝善戒恶\t勸善戒惡\n";

/// Part 26 of the text.
pub const ST_PHRASES_26: &'static str = "劝善黜恶\t勸善黜惡\n劝回\t勸回\n劝回去\t勸回去\n劝回来\t勸回來\n办伙\t辦伙\n办公台\t辦公檯\n办公室里\t辦公室裡\n办后事\t辦後事\n功同良相\t功同良相\n功同赏异\t功同賞異\n功大于过\t功大於過\n功布\t功布\n功流万世\t功流萬世\n功率恶化\t功率惡化\n功率表\t功率表\n功率输出\t功率輸出\n功绩制\t功績制\n功能团\t功能團\n功能团体\t功能團體\n功能磁共振成像术\t功能磁共振成像術\n功能表\t功能表\n功致\t功緻\n功课表\t功課表\n功过参半\t功過參半\n加个\t加個\n加了\t加了\n加于\t加於\n加仑\t加侖\n加价\t加價\n加出\t加出\n加利波里\t加利波里\n加勒比海共同体\t加勒比海共同體\n加勒比海共同市场\t加勒比海共同市場\n加升\t加升\n加卷\t加捲\n加发\t加發\n加回\t加回\n加回去\t加回去\n加回来\t加回來\n加害于\t加害於\n加密后的\t加密後的\n加封\t加封\n加尔克汉德省\t加爾克漢德省\n加州技术学院\t加州技術學院\n加工出口\t加工出口\n加工出口区\t加工出口區\n加工厂\t加工廠\n加巴里雅\t加巴里雅\n加布\t加布\n加强控制\t加強控制\n加强管制\t加強管制\n加当\t加當\n加拉干达\t加拉干達\n加拿大铝业集团\t加拿大鋁業集團\n加挂\t加掛\n加挂车厢\t加掛車廂\n加斗\t加斗\n加杯\t加杯\n加杯水\t加杯水\n加氢精制\t加氫精製\n加油团\t加油團\n加注\t加註\n加涂\t加塗\n加签\t加簽\n加签证\t加簽證\n加荣耀于\t加榮耀於\n加药\t加藥\n加解密系统\t加解密系統\n加达里\t加達里\n加速踏板\t加速踏板\n加里\t加里\n加里宁\t加里寧\n加里宁格勒\t加里寧格勒\n加里宁格勒州\t加里寧格勒州\n加里曼丹\t加里曼丹\n加里波的\t加里波的\n加里波第\t加里波第\n加里肋亚\t加里肋亞\n加里肋亚海\t加里肋亞海\n务须\t務須\n劣于\t劣於\n劣种\t劣種\n劣缺搊搜\t劣缺搊搜\n劣药\t劣藥\n动不了\t動不了\n动了\t動了\n动力系统\t動力系統\n动向\t動向\n动向不明\t動向不明\n动如参商\t動如參商\n动干戈\t動干戈\n动念\t動念\n动态范围\t動態範圍\n动手术\t動手術\n动换\t動換\n动物系\t動物系\n动物纤维\t動物纖維\n动物育种\t動物育種\n动画艺术\t動畫藝術\n动荡\t動盪\n动荡不安\t動盪不安\n动荡不定\t動盪不定\n动配合\t動配合\n助于\t助於\n助恶\t助惡\n助理\t助理\n助选团\t助選團\n努瓦克肖特\t努瓦克肖特\n劫余\t劫餘\n劫制\t劫制\n劫后余生\t劫後餘生\n劫后英雄传\t劫後英雄傳\n劫后馀烬\t劫後餘燼\n劫后馀生\t劫後餘生\n劬劳顾复\t劬勞顧復\n励志\t勵志\n励志书\t勵志書\n劲度系数\t勁度係數\n劲松\t勁松\n劲秋\t勁秋\n劲舞团\t勁舞團\n劲骨丰肌\t勁骨豐肌\n劳军团\t勞軍團\n劳力士表\t勞力士錶\n劳务出口\t勞務出口\n劳动党\t勞動黨\n劳动合同\t勞動合同\n劳动基准法\t勞動基準法\n劳动模范\t勞動模範\n劳发\t勞發\n劳台重\t勞臺重\n劳困\t勞困\n劳工党\t勞工黨\n劳工团体\t勞工團體\n劳工退休准备金\t勞工退休準備金\n劳资关系\t勞資關係\n劳资合作\t勞資合作\n劳逸结合\t勞逸結合\n劳里斯\t勞里斯\n劳雇关系\t勞僱關係\n劾系\t劾繫\n势不可当\t勢不可當\n势不并立\t勢不並立\n势力并行\t勢力並行\n势力范围\t勢力範圍\n势合形离\t勢合形離\n势同水火\t勢同水火\n势穷力极\t勢窮力極\n勃发\t勃發\n勃德修正案\t勃德修正案\n勃极烈\t勃極烈\n勃溪\t勃谿\n勃郁\t勃鬱\n勇于\t勇於\n勇于认错\t勇於認錯\n勋章\t勳章\n勒借\t勒借\n勒克\t勒克\n勒克司\t勒克司\n勒克莱尔\t勒克萊爾\n勒里勒得\t勒里勒得\n勘合\t勘合\n勘误表\t勘誤表\n募兵制\t募兵制\n勤仆\t勤僕\n勤俭朴实\t勤儉樸實\n勤俭朴素\t勤儉樸素\n勤劳致富\t勤勞致富\n勤朴\t勤樸\n勺药\t勺藥\n勾了\t勾了\n勾出\t勾出\n勾划\t勾劃\n勾勒出\t勾勒出\n勾干\t勾幹\n勾当\t勾當\n勾心斗角\t勾心鬥角\n勾画出\t勾畫出\n勾魂荡魄\t勾魂蕩魄\n勿念\t勿念\n勿施于人\t勿施於人\n勿药\t勿藥\n勿药有喜\t勿藥有喜\n勿药而愈\t勿藥而愈\n勿里洞岛\t勿里洞島\n匀出\t勻出\n匀出来\t勻出來\n匀面\t勻面\n包乘制\t包乘制\n包产到户制\t包產到戶制\n包价旅游\t包價旅遊\n包伙\t包伙\n包准\t包準\n包利克莱荳斯\t包利克萊荳斯\n包占\t包占\n包干\t包乾\n包干儿\t包乾兒\n包干制\t包乾制\n包庄\t包莊\n包待制\t包待制\n包扎\t包紮\n包扎法\t包紮法\n包承制\t包承制\n包揽闲事\t包攬閒事\n包班制\t包班制\n包皮环切术\t包皮環切術\n包种茶\t包種茶\n包罗万象\t包羅萬象\n包衣种子\t包衣種子\n包裹表决\t包裹表決\n包谷\t包穀\n包谷花\t包谷花\n包里\t包裡\n包里斯\t包里斯\n包髻团衫\t包髻團衫\n匋斋吉金录\t匋齋吉金錄\n匏有苦叶\t匏有苦葉\n匏系\t匏繫\n化了\t化了\n化出\t化出\n化出化入\t化出化入\n化合\t化合\n化合价\t化合價\n化合反应\t化合反應\n化合态\t化合態\n化合性\t化合性\n化合物\t化合物\n化合量\t化合量\n化妆台\t化妝臺\n化学合成\t化學合成\n化学工厂\t化學工廠\n化学弹药\t化學彈藥\n化学当量\t化學當量\n化学战斗部\t化學戰鬥部\n化学系\t化學系\n化学纤维\t化學纖維\n化工厂\t化工廠\n化工系\t化工系\n化干戈为玉帛\t化干戈為玉帛\n化暗为明\t化暗為明\n化纤\t化纖\n化纤厂\t化纖廠\n化肥厂\t化肥廠\n化隆回族自治县\t化隆回族自治縣\n化验台\t化驗臺\n北京中医药大学\t北京中醫藥大學\n北京周报\t北京週報\n北京国家游泳中心\t北京國家游泳中心\n北京师范大学\t北京師範大學\n北京汽车制造厂有限公司\t北京汽車製造廠有限公司\n北京艺术学院\t北京藝術學院\n北仑\t北侖\n北仑区\t北侖區\n北叶门\t北葉門\n北向\t北向\n北周\t北周\n北回\t北迴\n北回归线\t北迴歸線\n北回线\t北迴線\n北回铁路\t北迴鐵路\n北岳\t北嶽\n北征\t北征\n北斗\t北斗\n北斗七星\t北斗七星\n北斗星\t北斗星\n北斗镇\t北斗鎮\n北曲\t北曲\n北极\t北極\n北极光\t北極光\n北极冻原\t北極凍原\n北极区\t北極區\n北极圈\t北極圈\n北极地区\t北極地區\n北极星\t北極星\n北极星飞弹\t北極星飛彈\n北极海\t北極海\n北极熊\t北極熊\n北极犬\t北極犬\n北极狐\t北極狐\n北极锋\t北極鋒\n北极鲸\t北極鯨\n北柴胡\t北柴胡\n北洋系\t北洋系\n北瓦兹里斯坦\t北瓦茲里斯坦\n北辕适楚\t北轅適楚\n北里\t北里\n北面\t北面\n北面称臣\t北面稱臣\n北马里亚纳\t北馬里亞納\n匙扣\t匙扣\n匡合\t匡合\n匡复\t匡復\n匡当\t匡當\n匡济之才\t匡濟之才\n匣里龙吟\t匣裡龍吟\n匪党\t匪黨\n匪干\t匪幹\n匪徒集团\t匪徒集團\n匹似闲\t匹似閒\n匹头里\t匹頭裡\n匹面\t匹面\n匹马只轮\t匹馬隻輪\n区分出\t區分出\n区划\t區劃\n区别\t區別\n区别性\t區別性\n区别词\t區別詞\n区域网路技术\t區域網路技術\n区域范围\t區域範圍\n区段征收\t區段徵收\n医卜星相\t醫卜星相\n医学系\t醫學系\n医宗金鉴\t醫宗金鑑\n医托\t醫托\n医术\t醫術\n医疗团\t醫療團\n医药\t醫藥\n医药业\t醫藥業\n医药分业\t醫藥分業\n医药分离\t醫藥分離\n";

/// Part 27 of the text.
pub const ST_PHRASES_27: &'static str = "医药品\t醫藥品\n医药商店\t醫藥商店\n医药学\t醫藥學\n医药气候学\t醫藥氣候學\n医药界\t醫藥界\n医药罔效\t醫藥罔效\n医药费\t醫藥費\n医院里\t醫院裡\n匾扎\t匾扎\n匿于\t匿於\n十万\t十萬\n十三经注疏\t十三經注疏\n十个\t十個\n十个月\t十個月\n十九万\t十九萬\n十九个\t十九個\n十二万\t十二萬\n十二万分\t十二萬分\n十二个\t十二個\n十二指肠虫\t十二指腸蟲\n十二木表法\t十二木表法\n十二面体\t十二面體\n十五万\t十五萬\n十五个\t十五個\n十五个吊桶打水\t十五個吊桶打水\n十余\t十餘\n十余只\t十餘隻\n十余里\t十餘里\n十克\t十克\n十克拉\t十克拉\n十八万\t十八萬\n十八个\t十八個\n十八姑娘\t十八姑娘\n十公克\t十公克\n十公升\t十公升\n十公里\t十公里\n十六万\t十六萬\n十六个\t十六個\n十六国春秋\t十六國春秋\n十六进制\t十六進制\n十冬腊月\t十冬臘月\n十几\t十幾\n十几万\t十幾萬\n十几个\t十幾個\n十几个月\t十幾個月\n十几二十\t十幾二十\n十几人\t十幾人\n十几元\t十幾元\n十几分\t十幾分\n十几号\t十幾號\n十几周\t十幾週\n十几块\t十幾塊\n十几天\t十幾天\n十几岁\t十幾歲\n十几年\t十幾年\n十几次\t十幾次\n十出戏\t十齣戲\n十出祁山\t十出祁山\n十分干\t十分乾\n十分钟\t十分鐘\n十划\t十劃\n十加仑\t十加侖\n十卷\t十卷\n十发\t十發\n十只\t十隻\n十台\t十臺\n十叶\t十葉\n十周\t十週\n十周年\t十週年\n十四万\t十四萬\n十四个\t十四個\n十回\t十回\n十团\t十團\n十国春秋\t十國春秋\n十多万\t十多萬\n十多个\t十多個\n十多只\t十多隻\n十天半个月\t十天半個月\n十天后\t十天後\n十天干\t十天干\n十字军东征\t十字軍東征\n十字军远征\t十字軍遠征\n十干\t十干\n十年后\t十年後\n十恶\t十惡\n十恶不赦\t十惡不赦\n十扎\t十紮\n十方地面\t十方地面\n十曲\t十曲\n十来个\t十來個\n十杯\t十杯\n十杯水\t十杯水\n十杯酒\t十杯酒\n十点钟\t十點鐘\n十种\t十種\n十秒钟\t十秒鐘\n十荡十决\t十蕩十決\n十谒朱门九不开\t十謁朱門九不開\n十足虫\t十足蟲\n十进位制\t十進位制\n十进制\t十進制\n十进算术\t十進算術\n十郎八当\t十郎八當\n十里\t十里\n十里余\t十里餘\n十里洋场\t十里洋場\n十里长亭\t十里長亭\n十里长亭无客走\t十里長亭無客走\n十针\t十針\n十面\t十面\n十面体\t十面體\n十面埋伏\t十面埋伏\n十鼠同穴\t十鼠同穴\n千万\t千萬\n千万买邻\t千萬買鄰\n千万分之一\t千萬分之一\n千万千万\t千萬千萬\n千万富翁\t千萬富翁\n千万年\t千萬年\n千不幸万不幸\t千不幸萬不幸\n千不是万不是\t千不是萬不是\n千丝万缕\t千絲萬縷\n千个\t千個\n千乘\t千乘\n千乘万骑\t千乘萬騎\n千乞\t千乞\n千了百当\t千了百當\n千亩\t千畝\n千人所指\t千人所指\n千亿\t千億\n千仇万恨\t千仇萬恨\n千仓万箱\t千倉萬箱\n千仞\t千仞\n千伏\t千伏\n千位\t千位\n千位元\t千位元\n千余\t千餘\n千余只\t千餘隻\n千余里\t千餘里\n千佛塔\t千佛塔\n千佛山\t千佛山\n千佛洞\t千佛洞\n千依万顺\t千依萬順\n千依百顺\t千依百順\n千兆\t千兆\n千克\t千克\n千兵万马\t千兵萬馬\n千军万马\t千軍萬馬\n千军易得一将难求\t千軍易得一將難求\n千刀万剁\t千刀萬剁\n千刀万剐\t千刀萬剮\n千刁万恶\t千刁萬惡\n千分\t千分\n千分之\t千分之\n千分之一\t千分之一\n千分之三\t千分之三\n千分之二\t千分之二\n千分表\t千分表\n千千\t千千\n千千万万\t千千萬萬\n千卡\t千卡\n千变万化\t千變萬化\n千变万状\t千變萬狀\n千变万轸\t千變萬軫\n千古\t千古\n千古事\t千古事\n千古传诵\t千古傳誦\n千古恨\t千古恨\n千古未闻\t千古未聞\n千古流传\t千古流傳\n千古独步\t千古獨步\n千古绝唱\t千古絕唱\n千古罪人\t千古罪人\n千古遗恨\t千古遺恨\n千只\t千隻\n千只足够\t千只足夠\n千叮万嘱\t千叮萬囑\n千叶\t千葉\n千叶县\t千葉縣\n千吨\t千噸\n千吨级核武器\t千噸級核武器\n千周\t千周\n千呼万唤\t千呼萬喚\n千咒万骂\t千咒萬罵\n千唤万唤\t千喚萬喚\n千回百折\t千迴百折\n千回百转\t千迴百轉\n千多只\t千多隻\n千天后\t千天後\n千夫\t千夫\n千夫所指\t千夫所指\n千夫长\t千夫長\n千头万绪\t千頭萬緒\n千头橘奴\t千頭橘奴\n千头百绪\t千頭百緒\n千奇百怪\t千奇百怪\n千妥万妥\t千妥萬妥\n千妥万当\t千妥萬當\n千姿百态\t千姿百態\n千娇百媚\t千嬌百媚\n千娇百态\t千嬌百態\n千孔百疮\t千孔百瘡\n千字文\t千字文\n千字节\t千字節\n千家\t千家\n千家万户\t千家萬戶\n千家姓\t千家姓\n千家诗\t千家詩\n千寻\t千尋\n千层糕\t千層糕\n千层面\t千層麵\n千山万壑\t千山萬壑\n千山万水\t千山萬水\n千山区\t千山區\n千山山脉\t千山山脈\n千岁\t千歲\n千岁一时\t千歲一時\n千岐万辙\t千岐萬轍\n千岛列岛\t千島列島\n千岛湖\t千島湖\n千岛湖事件\t千島湖事件\n千岛群岛\t千島群島\n千岛酱\t千島醬\n千岩万壑\t千巖萬壑\n千岩万谷\t千巖萬谷\n千岩竞秀\t千巖競秀\n千嶂\t千嶂\n千差万别\t千差萬別\n千差万差来人不差\t千差萬差來人不差\n千帆\t千帆\n千年\t千年\n千年万载\t千年萬載\n千年前\t千年前\n千年怪兽\t千年怪獸\n千年田地八百主\t千年田地八百主\n千年艾\t千年艾\n千态万状\t千態萬狀\n千思万想\t千思萬想\n千总\t千總\n千恩万谢\t千恩萬謝\n千愁万恨\t千愁萬恨\n千愁万绪\t千愁萬緒\n千愁万虑\t千愁萬慮\n千户\t千戶\n千手千眼观音\t千手千眼觀音\n千扎\t千紮\n千挑万选\t千挑萬選\n千挑百选\t千挑百選\n千推万阻\t千推萬阻\n千支万派\t千支萬派\n千斤\t千斤\n千斤重担\t千斤重擔\n千斤顶\t千斤頂\n千方万计\t千方萬計\n千方百计\t千方百計\n千日\t千日\n千日红\t千日紅\n千日菊\t千日菊\n千日酒\t千日酒\n千村万落\t千村萬落\n千条万端\t千條萬端\n千条万绪\t千條萬緒\n千杯\t千杯\n千欢万喜\t千歡萬喜\n千步\t千步\n千湖国\t千湖國\n千点\t千點\n千牛\t千牛\n千牛刀\t千牛刀\n千状万态\t千狀萬態\n千状万端\t千狀萬端\n千瓦\t千瓦\n千瓦小时\t千瓦小時\n千瓦时\t千瓦時\n千生万死\t千生萬死\n千疮百孔\t千瘡百孔\n千百万\t千百萬\n千百年\t千百年\n千百成群\t千百成群\n千皓宣\t千皓宣\n千真万真\t千真萬真\n千真万确\t千真萬確\n千石\t千石\n千碱基对\t千鹼基對\n千禧\t千禧\n千禧年\t千禧年\n千秋\t千秋\n千秋万世\t千秋萬世\n千秋万代\t千秋萬代\n千秋万古\t千秋萬古\n千秋万岁\t千秋萬歲\n千秋佳城\t千秋佳城\n千秋大业\t千秋大業\n千秋庙\t千秋廟\n千秋节\t千秋節\n千章\t千章\n千端万绪\t千端萬緒\n千算万算不值天一划\t千算萬算不值天一劃\n千篇一律\t千篇一律\n千米\t千米\n千粒重\t千粒重\n千红万紫\t千紅萬紫\n千经万卷\t千經萬卷\n千绪万端\t千緒萬端\n千羊之皮不如一狐之腋\t千羊之皮不如一狐之腋\n千般\t千般\n千般万样\t千般萬樣\n千英宇\t千英宇\n千虑一失\t千慮一失\n千虑一得\t千慮一得\n千言\t千言\n千言万语\t千言萬語\n";

/// Part 28 of the text.
pub const ST_PHRASES_28: &'static str = "千赫\t千赫\n千赫兹\t千赫茲\n千足港条\t千足港條\n千足虫\t千足蟲\n千载\t千載\n千载一会\t千載一會\n千载一合\t千載一合\n千载一时\t千載一時\n千载一逢\t千載一逢\n千载一遇\t千載一遇\n千载扬名\t千載揚名\n千载独步\t千載獨步\n千载难逢\t千載難逢\n千辛万苦\t千辛萬苦\n千辛百苦\t千辛百苦\n千里\t千里\n千里一曲\t千里一曲\n千里之堤\t千里之堤\n千里之外\t千里之外\n千里之行\t千里之行\n千里命驾\t千里命駕\n千里始足下\t千里始足下\n千里姻缘一线牵\t千里姻緣一線牽\n千里寄鹅毛\t千里寄鵝毛\n千里搭长棚\t千里搭長棚\n千里犹面\t千里猶面\n千里目\t千里目\n千里眼\t千里眼\n千里移檄\t千里移檄\n千里足\t千里足\n千里达\t千里達\n千里迢迢\t千里迢迢\n千里迢遥\t千里迢遙\n千里送鹅毛\t千里送鵝毛\n千里镜\t千里鏡\n千里馈粮\t千里饋糧\n千里马\t千里馬\n千里驹\t千里駒\n千里鹅毛\t千里鵝毛\n千金\t千金\n千金一刻\t千金一刻\n千金一掷\t千金一擲\n千金一笑\t千金一笑\n千金一诺\t千金一諾\n千金之子\t千金之子\n千金之家\t千金之家\n千金买笑\t千金買笑\n千金买骨\t千金買骨\n千金小姐\t千金小姐\n千金市骨\t千金市骨\n千金敝帚\t千金敝帚\n千金方\t千金方\n千金裘\t千金裘\n千金要方\t千金要方\n千金记\t千金記\n千金躯\t千金軀\n千金难买\t千金難買\n千钧\t千鈞\n千钧一发\t千鈞一髮\n千钧重负\t千鈞重負\n千锤百炼\t千錘百煉\n千锺粟\t千鍾粟\n千镒之裘非一狐之白\t千鎰之裘非一狐之白\n千门\t千門\n千门万户\t千門萬戶\n千闻不如一见\t千聞不如一見\n千阳\t千陽\n千阳县\t千陽縣\n千难万险\t千難萬險\n千难万难\t千難萬難\n千面人\t千面人\n千页群岛\t千頁群島\n千顷陂\t千頃陂\n千鬼百怪\t千鬼百怪\n千鸟\t千鳥\n千鸟渊国家公墓\t千鳥淵國家公墓\n卅里\t卅里\n升上\t升上\n升上去\t升上去\n升上来\t升上來\n升为\t升為\n升了\t升了\n升仙\t昇仙\n升任\t升任\n升任为\t升任為\n升值\t升值\n升入\t升入\n升出\t升出\n升出来\t升出來\n升到\t升到\n升力\t升力\n升势\t升勢\n升势受阻\t升勢受阻\n升升\t升升\n升华\t昇華\n升华作用\t昇華作用\n升压\t升壓\n升号\t升號\n升回\t升回\n升回去\t升回去\n升回来\t升回來\n升在\t升在\n升坐\t升坐\n升堂\t升堂\n升堂入室\t升堂入室\n升堂拜母\t升堂拜母\n升天\t昇天\n升好\t升好\n升学\t升學\n升学主义\t升學主義\n升学压力\t升學壓力\n升学率\t升學率\n升学班\t升學班\n升学考试\t升學考試\n升官\t升官\n升官发财\t升官發財\n升官图\t升官圖\n升帐\t升帳\n升幂\t升冪\n升幂级数\t升冪級數\n升幅\t升幅\n升平\t昇平\n升引\t升引\n升得\t升得\n升息\t升息\n升成\t升成\n升斗\t升斗\n升斗之禄\t升斗之祿\n升斗小民\t升斗小民\n升旗\t升旗\n升旗仪式\t升旗儀式\n升旗典礼\t升旗典禮\n升来\t升來\n升来升去\t升來升去\n升格\t升格\n升格为\t升格為\n升格成\t升格成\n升水\t升水\n升汞\t昇汞\n升沉\t升沉\n升温\t升溫\n升火\t升火\n升点\t升點\n升班\t升班\n升班考试\t升班考試\n升的\t升的\n升破\t升破\n升科\t升科\n升空\t升空\n升等\t升等\n升等考试\t升等考試\n升级\t升級\n升级性\t升級性\n升级成\t升級成\n升级换代\t升級換代\n升级版\t升級版\n升结肠\t升結腸\n升职\t升職\n升腾\t升騰\n升至\t升至\n升记号\t升記號\n升调\t升調\n升起\t升起\n升起来\t升起來\n升迁\t升遷\n升迁制度\t升遷制度\n升迁管道\t升遷管道\n升过\t升過\n升速\t升速\n升遐\t升遐\n升阳\t昇陽\n升阶\t升階\n升降\t升降\n升降机\t升降機\n升降梯\t升降梯\n升降舵\t升降舵\n升降记号\t升降記號\n升限\t升限\n升高\t升高\n升高为\t升高為\n升高自下\t升高自下\n午后\t午後\n半个\t半個\n半个世纪\t半個世紀\n半乳糖血症\t半乳糖血症\n半于\t半於\n半价\t半價\n半价优待\t半價優待\n半价倍息\t半價倍息\n半保留复制\t半保留複製\n半分钟\t半分鐘\n半制品\t半製品\n半只\t半隻\n半吊子\t半吊子\n半夜里\t半夜裡\n半导体厂\t半導體廠\n半岛电视台\t半島電視臺\n半干\t半乾\n半径\t半徑\n半径范围\t半徑範圍\n半托\t半托\n半排出期\t半排出期\n半数\t半數\n半日制\t半日制\n半日制学校\t半日制學校\n半杯\t半杯\n半板\t半板\n半涂而罢\t半塗而罷\n半点钟\t半點鐘\n半票价\t半票價\n半秒钟\t半秒鐘\n半老徐娘\t半老徐娘\n半路出家\t半路出家\n半里\t半里\n半面\t半面\n半面之交\t半面之交\n半面之旧\t半面之舊\n卌里\t卌里\n华东师范\t華東師範\n华东师范大学\t華東師範大學\n华严钟\t華嚴鐘\n华中师范大学\t華中師範大學\n华冈艺术学校\t華岡藝術學校\n华南师范大学\t華南師範大學\n华发\t華髮\n华尔滋舞曲\t華爾滋舞曲\n华彩\t華彩\n华志\t華志\n华星秋月之章\t華星秋月之章\n华核\t華覈\n华氏寒暑表\t華氏寒暑表\n华润万家\t華潤萬家\n华特里德\t華特里德\n华纳音乐集团\t華納音樂集團\n华胄\t華胄\n华表\t華表\n华表鹤归\t華表鶴歸\n华里\t華里\n华阳国志\t華陽國志\n协力同心\t協力同心\n协合\t協合\n协同\t協同\n协同作战\t協同作戰\n协同作用\t協同作用\n协同动作\t協同動作\n协奏曲\t協奏曲\n协议范本\t協議範本\n协议规范\t協議規範\n协调出\t協調出\n卑梁之衅\t卑梁之釁\n卓别林\t卓別林\n卓尔出群\t卓爾出群\n卓柏卡布拉\t卓柏卡布拉\n单一价\t單一價\n单一合体字\t單一合體字\n单个儿\t單個兒\n单于\t單于\n单交种\t單交種\n单价\t單價\n单位价格\t單位價格\n单位信托\t單位信託\n单位切向量\t單位切向量\n单位制\t單位制\n单位向量\t單位向量\n单位面积\t單位面積\n单克隆\t單克隆\n单克隆抗体\t單克隆抗體\n单单\t單單\n单单于\t單單於\n单只\t單隻\n单只是\t單只是\n单叶双曲面\t單葉雙曲面\n单向\t單向\n单向天线\t單向天線\n单向电流\t單向電流\n单向行驶\t單向行駛\n单向通车\t單向通車\n单向道\t單向道\n单向阀\t單向閥\n单周\t單週\n单味药\t單味藥\n单夫只妇\t單夫隻婦\n单婚制\t單婚制\n单子叶\t單子葉\n单子叶植物\t單子葉植物\n单字表\t單字表\n单干\t單幹\n单干户\t單幹戶\n单张汇票\t單張匯票\n单弦\t單絃\n单循环赛制\t單循環賽制\n单打独斗\t單打獨鬥\n单挂号\t單掛號\n单据\t單據\n单摆\t單擺\n单方制剂\t單方製劑\n单方向\t單方向\n单方面\t單方面\n单曲\t單曲\n单曲榜\t單曲榜\n单杠\t單槓\n单杯\t單杯\n单板\t單板\n单板心合板\t單板心合板\n单板机\t單板機\n单核\t單核\n单核细胞增多症\t單核細胞增多症\n单模光纤\t單模光纖\n单法货制\t單法貨制\n单端孢霉烯类毒素中毒症\t單端孢黴烯類毒素中毒症\n单系\t單系\n单链\t單鏈\n单面\t單面\n单面山\t單面山\n卖不出去\t賣不出去\n卖个破绽\t賣個破綻\n卖了\t賣了\n卖了儿子招女婿\t賣了兒子招女婿\n卖价\t賣價\n卖俏营奸\t賣俏營奸\n卖俏行奸\t賣俏行奸\n卖俏迎奸\t賣俏迎奸\n卖光了\t賣光了\n卖出\t賣出\n卖出去\t賣出去\n卖卜\t賣卜\n";

/// Part 29 of the text.
pub const ST_PHRASES_29: &'static str = "卖卜测字\t賣卜測字\n卖卦口没量斗\t賣卦口沒量斗\n卖呆\t賣呆\n卖奸\t賣姦\n卖恶\t賣惡\n卖拐\t賣柺\n卖油娘子水梳头\t賣油娘子水梳頭\n卖炭的掉在面缸里\t賣炭的掉在麵缸裡\n卖盐的做雕銮匠\t賣鹽的做雕鑾匠\n卖红萝卜\t賣紅蘿蔔\n卖膏药的\t賣膏藥的\n卖良姜\t賣良姜\n卖药\t賣藥\n卖药人\t賣藥人\n卖豆腐点了河滩地\t賣荳腐點了河灘地\n卖金须向识金家\t賣金須向識金家\n卖面子\t賣面子\n南丰\t南豐\n南丰县\t南豐縣\n南京钟\t南京鐘\n南京钟表\t南京鐘錶\n南出\t南出\n南北向\t南北向\n南北极\t南北極\n南台\t南臺\n南台工专\t南臺工專\n南台湾\t南臺灣\n南叶门\t南葉門\n南向\t南向\n南回\t南迴\n南回公路\t南迴公路\n南回归线\t南迴歸線\n南回线\t南迴線\n南回铁路\t南迴鐵路\n南宫适\t南宮适\n南屏晚钟\t南屏晚鐘\n南山并寿\t南山並壽\n南山有台\t南山有臺\n南山杯\t南山盃\n南岳\t南嶽\n南征\t南征\n南征北伐\t南征北伐\n南征北战\t南征北戰\n南征北讨\t南征北討\n南斗\t南斗\n南斗六星\t南斗六星\n南斗星君\t南斗星君\n南方周末\t南方週末\n南无阿弥陀佛\t南無阿彌陀佛\n南曲\t南曲\n南朝梁\t南朝梁\n南极\t南極\n南极仙翁\t南極仙翁\n南极光\t南極光\n南极呈祥\t南極呈祥\n南极圈\t南極圈\n南极地区\t南極地區\n南极大陆\t南極大陸\n南极座\t南極座\n南极星沉\t南極星沉\n南极星辉\t南極星輝\n南极洲\t南極洲\n南极洲半岛\t南極洲半島\n南极老人星\t南極老人星\n南极腾辉\t南極騰輝\n南枝向火北枝寒\t南枝向火北枝寒\n南汇\t南匯\n南汇区\t南匯區\n南洋模范\t南洋模範\n南涌\t南涌\n南游\t南遊\n南特杰克\t南特傑克\n南筑\t南筑\n南箕北斗\t南箕北斗\n南胡\t南胡\n南记粉面\t南記粉麵\n南里\t南里\n南针\t南針\n南面\t南面\n南面为王\t南面為王\n南面百城\t南面百城\n南面称伯\t南面稱伯\n南面称孤\t南面稱孤\n南面称王\t南面稱王\n博克达山\t博克達山\n博凯里尼\t博凱里尼\n博古图录\t博古圖錄\n博士后\t博士後\n博学多才\t博學多才\n博客里\t博客裡\n博尔塔拉蒙古自治州\t博爾塔拉蒙古自治州\n博彩\t博彩\n博彩业\t博彩業\n博文反应系列\t博文反應系列\n博斗\t博鬥\n博汇\t博彙\n博物志\t博物志\n博莱克\t博萊克\n博蒙特\t博蒙特\n博采\t博採\n博采众长\t博採眾長\n博闻彊志\t博聞彊志\n博鳌亚洲论坛\t博鰲亞洲論壇\n卜人\t卜人\n卜儿\t卜兒\n卜冠文\t卜冠文\n卜卜\t卜卜\n卜卜米\t卜卜米\n卜卦\t卜卦\n卜卦家\t卜卦家\n卜吉\t卜吉\n卜商\t卜商\n卜夜卜昼\t卜夜卜晝\n卜威廉\t卜威廉\n卜婿\t卜婿\n卜学亮\t卜學亮\n卜宅\t卜宅\n卜居\t卜居\n卜年\t卜年\n卜度\t卜度\n卜式\t卜式\n卜征\t卜征\n卜日\t卜日\n卜易\t卜易\n卜昼卜夜\t卜晝卜夜\n卜珓\t卜珓\n卜睿哲\t卜睿哲\n卜祝\t卜祝\n卜窀穸\t卜窀穸\n卜筑\t卜築\n卜筮\t卜筮\n卜筮官\t卜筮官\n卜算\t卜算\n卜老\t卜老\n卜者\t卜者\n卜舫济\t卜舫濟\n卜蜂\t卜蜂\n卜课\t卜課\n卜辞\t卜辭\n卜邻\t卜鄰\n卜骨\t卜骨\n卞庄\t卞莊\n卞庄子\t卞莊子\n卞梁\t卞梁\n占〇\t佔〇\n占一\t佔一\n占七\t佔七\n占万\t佔万\n占三\t佔三\n占上\t占上\n占上游\t佔上游\n占上风\t佔上風\n占下\t佔下\n占下风\t佔下風\n占不占\t佔不佔\n占不足\t佔不足\n占世界\t佔世界\n占东\t佔東\n占两\t佔兩\n占个\t佔個\n占个位\t佔個位\n占中\t佔中\n占为\t佔為\n占为己有\t佔為己有\n占主\t佔主\n占主导地位\t佔主導地位\n占九\t佔九\n占了\t佔了\n占了卜\t占了卜\n占二\t佔二\n占五\t佔五\n占亲\t占親\n占人\t占人\n占人便宜\t佔人便宜\n占亿\t佔億\n占优\t佔優\n占优势\t佔優勢\n占位\t佔位\n占住\t佔住\n占便宜\t佔便宜\n占俄\t佔俄\n占候\t占候\n占停车\t佔停車\n占先\t佔先\n占光\t佔光\n占全\t佔全\n占八\t佔八\n占六\t佔六\n占凤\t占鳳\n占分\t佔分\n占到\t佔到\n占加\t佔加\n占劣\t佔劣\n占北\t佔北\n占十\t佔十\n占千\t佔千\n占半\t佔半\n占南\t佔南\n占卜\t占卜\n占卜师\t占卜師\n占卜术\t占卜術\n占占\t佔佔\n占占卜\t占占卜\n占占卦\t占占卦\n占卦\t占卦\n占印\t佔印\n占压\t佔壓\n占去\t佔去\n占取\t佔取\n占台\t佔臺\n占后\t佔後\n占哺乳\t佔哺乳\n占嗫\t佔囁\n占四\t佔四\n占国内\t佔國內\n占在\t佔在\n占地\t佔地\n占地盘\t佔地盤\n占场\t佔場\n占场儿\t佔場兒\n占城\t占城\n占多\t佔多\n占多数\t佔多數\n占大\t佔大\n占头\t佔頭\n占头筹\t佔頭籌\n占好\t佔好\n占婆\t占婆\n占射\t占射\n占小\t佔小\n占少\t佔少\n占尽\t佔盡\n占尽便宜\t佔盡便宜\n占局部\t佔局部\n占居\t佔居\n占屋\t佔屋\n占山\t佔山\n占市场\t佔市場\n占平均\t佔平均\n占床\t佔牀\n占座\t佔座\n占强\t占強\n占得\t佔得\n占德\t佔德\n占总\t佔總\n占房\t占房\n占拜\t占拜\n占据\t佔據\n占掉\t佔掉\n占整体\t佔整體\n占断\t占斷\n占新\t佔新\n占星\t占星\n占星学\t占星學\n占星家\t占星家\n占星师\t占星師\n占星术\t占星術\n占有\t佔有\n占有五不验\t占有五不驗\n占有权\t佔有權\n占有欲\t佔有慾\n占有率\t佔有率\n占查\t佔查\n占梦\t占夢\n占次\t佔次\n占比\t佔比\n占毕\t佔畢\n占法\t佔法\n占满\t佔滿\n占澳\t佔澳\n占率\t佔率\n占用\t佔用\n占百\t佔百\n占着\t佔著\n占稳\t佔穩\n占筮\t占筮\n占线\t佔線\n占缺\t佔缺\n占网\t佔網\n占美\t佔美\n占耕\t佔耕\n占至多\t佔至多\n占至少\t佔至少\n占花魁\t佔花魁\n占苏\t佔蘇\n占英\t佔英\n占葡\t佔葡\n占西\t佔西\n占课\t占課\n占资源\t佔資源\n占起\t佔起\n占起来\t佔起來\n占超过\t佔超過\n占身\t占身\n占过\t佔過\n占过去\t佔過去\n占过来\t佔過來\n占道\t佔道\n占零\t佔零\n占领\t佔領\n占领军\t佔領軍\n占领区\t佔領區\n占领地\t佔領地\n占领者\t佔領者\n占风使帆\t占風使帆\n占饭\t佔飯\n占香\t佔香\n占马\t佔馬\n占验\t占驗\n占高枝儿\t佔高枝兒\n占鳌头\t佔鰲頭\n占龟\t占龜\n卡其布\t卡其布\n卡卡布\t卡卡布\n卡尔加里\t卡爾加里\n卡尔扎伊\t卡爾扎伊\n卡尔文克莱因\t卡爾文克萊因\n卡布\t卡布\n卡布其诺\t卡布其諾\n卡布其诺咖啡\t卡布其諾咖啡\n卡布列拉\t卡布列拉\n卡布奇诺\t卡布奇諾\n卡布瑞\t卡布瑞\n卡布瑞拉\t卡布瑞拉\n卡布雷拉\t卡布雷拉\n卡带柜\t卡帶櫃\n卡式录音带\t卡式錄音帶\n卡式录音机\t卡式錄音機\n卡扎菲\t卡扎菲\n卡扣\t卡扣\n卡拉布里亚\t卡拉布里亞\n卡拉曼里斯\t卡拉曼里斯\n卡洛里\t卡洛里\n卡片柜\t卡片櫃\n卡片目录\t卡片目錄\n卡特里娜\t卡特里娜\n卡纳塔克邦\t卡納塔克邦\n卡耶里\t卡耶里\n卡芬雅克\t卡芬雅克\n卡苏里\t卡蘇里\n卡萨布兰加\t卡薩布蘭加\n卡萨布兰卡\t卡薩布蘭卡\n卡路里\t卡路里\n卡迪拉克\t卡迪拉克\n卡里\t卡里\n卡里扎德\t卡里紮德\n卡面\t卡面\n卢仁杰\t盧仁傑\n卢克索\t盧克索\n卢千惠\t盧千惠\n卢同\t盧同\n卢布\t盧布\n卢布尔雅那\t盧布爾雅那\n卢布里雅纳\t盧布里雅納\n卢棱伽\t盧稜伽\n卢比西克\t盧比西克\n卢胡\t盧胡\n卢贝松\t盧貝松\n卢郁佳\t盧郁佳\n卤人\t鹵人\n卤代烃\t鹵代烴\n卤制\t滷製\n卤化\t鹵化\n卤化物\t鹵化物\n";

/// Part 30 of the text.
pub const ST_PHRASES_30: &'static str = "卤化银\t鹵化銀\n卤味\t滷味\n卤味面\t滷味麵\n卤地\t鹵地\n卤族\t鹵族\n卤梅水\t滷梅水\n卤水\t滷水\n卤汁\t滷汁\n卤湖\t滷湖\n卤煮\t滷煮\n卤牛肉\t滷牛肉\n卤簿\t鹵簿\n卤素\t鹵素\n卤素灯\t鹵素燈\n卤肉\t滷肉\n卤肉面\t滷肉麵\n卤肉饭\t滷肉飯\n卤莽\t鹵莽\n卤莽灭裂\t鹵莽滅裂\n卤菜\t滷菜\n卤虾\t滷蝦\n卤虾油\t滷蝦油\n卤蛋\t滷蛋\n卤钝\t鹵鈍\n卤面\t滷麵\n卤鸡\t滷雞\n卤鸡肉\t滷雞肉\n卦千纸\t卦千紙\n卧云\t臥雲\n卧室里\t臥室裡\n卧游\t臥遊\n卧狼当道\t臥狼當道\n卧薪尝胆\t臥薪嘗膽\n卫教系\t衛教系\n卫星云图\t衛星雲圖\n卫星定位系统\t衛星定位系統\n卫星导航系统\t衛星導航系統\n卫星钟\t衛星鐘\n卫生标准\t衛生標準\n卫生系\t衛生系\n卯上干\t卯上幹\n卯后酒\t卯後酒\n卯尽全力\t卯盡全力\n卯足了劲\t卯足了勁\n卯酉参辰\t卯酉參辰\n印不出\t印不出\n印佣\t印傭\n印出\t印出\n印出去\t印出去\n印出来\t印出來\n印制\t印製\n印制厂\t印製廠\n印制电路\t印製電路\n印制电路板\t印製電路板\n印刷厂\t印刷廠\n印刷术\t印刷術\n印刷电路板\t印刷電路板\n印发\t印發\n印台\t印臺\n印台区\t印臺區\n印合\t印合\n印堂发黑\t印堂發黑\n印度人民党\t印度人民黨\n印度国大党\t印度國大黨\n印度法系\t印度法系\n印板儿\t印板兒\n印染厂\t印染廠\n印核\t印核\n印欧语系\t印歐語系\n印累绶若\t印累綬若\n印花布\t印花布\n印表\t印表\n印表机\t印表機\n印鉴\t印鑑\n印鉴鉴定\t印鑑鑑定\n危于\t危於\n危于累卵\t危於累卵\n危亡之秋\t危亡之秋\n危害评价\t危害評價\n即兴发挥\t即興發揮\n即兴曲\t即興曲\n即兴表演\t即興表演\n即是\t即是\n即期外汇交易\t即期外匯交易\n即期汇票\t即期匯票\n即食面\t即食麵\n却后\t卻後\n却回去\t卻回去\n却回来\t卻回來\n却才\t卻才\n卵与石斗\t卵與石鬥\n卵核\t卵核\n卷一卷\t捲一捲\n卷上\t捲上\n卷不起\t捲不起\n卷了\t捲了\n卷云\t捲雲\n卷住\t捲住\n卷儿\t卷兒\n卷入\t捲入\n卷入漩涡\t捲入漩渦\n卷刃\t捲刃\n卷到\t捲到\n卷动\t捲動\n卷动门\t捲動門\n卷包\t捲包\n卷卷\t卷卷\n卷去\t捲去\n卷发\t捲髮\n卷发器\t捲髮器\n卷取\t卷取\n卷叶蛾\t卷葉蛾\n卷吸作用\t捲吸作用\n卷回\t捲回\n卷图\t捲圖\n卷土\t捲土\n卷土重来\t捲土重來\n卷地皮\t卷地皮\n卷娄\t卷婁\n卷子\t卷子\n卷子本\t卷子本\n卷宗\t卷宗\n卷尺\t捲尺\n卷尾猴\t捲尾猴\n卷层云\t卷層雲\n卷帘\t捲簾\n卷帘格\t捲簾格\n卷帘门\t捲簾門\n卷帙\t卷帙\n卷帙浩繁\t卷帙浩繁\n卷帻\t卷幘\n卷开\t捲開\n卷心\t捲心\n卷心菜\t捲心菜\n卷怀\t卷懷\n卷成\t捲成\n卷扬\t捲揚\n卷扬机\t捲揚機\n卷拢\t捲攏\n卷旋\t捲旋\n卷旗息鼓\t卷旗息鼓\n卷曲\t捲曲\n卷来\t捲來\n卷来卷去\t捲來捲去\n卷柏\t卷柏\n卷染\t卷染\n卷棚\t捲棚\n卷款\t捲款\n卷款潜逃\t捲款潛逃\n卷款逃走\t捲款逃走\n卷毛\t捲毛\n卷浪\t捲浪\n卷浪翻波\t捲浪翻波\n卷烟\t捲菸\n卷烟画片\t捲煙畫片\n卷烟盒\t捲菸盒\n卷甲\t卷甲\n卷甲重来\t捲甲重來\n卷积云\t卷積雲\n卷笔刀\t卷筆刀\n卷筒\t捲筒\n卷筒纸\t捲筒紙\n卷繖花序\t卷繖花序\n卷纬\t卷緯\n卷纸\t捲紙\n卷线器\t捲線器\n卷绕\t卷繞\n卷缠\t捲纏\n卷缩\t捲縮\n卷翘\t捲翹\n卷耳\t卷耳\n卷腿裤\t捲腿褲\n卷舌\t捲舌\n卷舌元音\t捲舌元音\n卷舌音\t捲舌音\n卷舒\t卷舒\n卷落叶\t捲落葉\n卷衣袖\t捲衣袖\n卷袖\t捲袖\n卷装\t卷裝\n卷走\t捲走\n卷起\t捲起\n卷起来\t捲起來\n卷轴\t卷軸\n卷轴式\t卷軸式\n卷轴装\t卷軸裝\n卷过\t捲過\n卷进\t捲進\n卷逃\t捲逃\n卷钢\t捲鋼\n卷铺盖\t捲鋪蓋\n卷阿\t卷阿\n卷须\t卷鬚\n卷领\t卷領\n卷风\t捲風\n卷饼\t捲餅\n卸了\t卸了\n卸尸宴\t卸屍宴\n卸扣\t卸扣\n卿云\t卿雲\n厂主\t廠主\n厂卫\t廠衛\n厂名\t廠名\n厂商\t廠商\n厂地\t廠地\n厂址\t廠址\n厂外\t廠外\n厂子\t廠子\n厂字旁\t廠字旁\n厂家\t廠家\n厂容\t廠容\n厂房\t廠房\n厂房里\t廠房裡\n厂方\t廠方\n厂棚\t廠棚\n厂牌\t廠牌\n厂用电\t廠用電\n厂矿\t廠礦\n厂礼拜\t廠禮拜\n厂税\t廠稅\n厂衣\t廠衣\n厂规\t廠規\n厂部\t厂部\n厂里\t廠裡\n厂长\t廠長\n厄台\t厄臺\n厄尔布鲁士\t厄爾布魯士\n厄立特里亚\t厄立特里亞\n厅舍\t廳舍\n厅里\t廳裡\n历下\t歷下\n历下区\t歷下區\n历久\t歷久\n历久不衰\t歷久不衰\n历久常新\t歷久常新\n历久弥坚\t歷久彌堅\n历久弥新\t歷久彌新\n历书\t曆書\n历乱\t歷亂\n历代\t歷代\n历代先皇\t歷代先皇\n历代名画记\t歷代名畫記\n历代志上\t歷代志上\n历代志下\t歷代志下\n历代祖先\t歷代祖先\n历任\t歷任\n历元\t曆元\n历劫\t歷劫\n历劫归来\t歷劫歸來\n历历\t歷歷\n历历可数\t歷歷可數\n历历可纪\t歷歷可紀\n历历可考\t歷歷可考\n历历可见\t歷歷可見\n历历可辨\t歷歷可辨\n历历在目\t歷歷在目\n历历如绘\t歷歷如繪\n历历落落\t歷歷落落\n历史\t歷史\n历史上\t歷史上\n历史久远\t歷史久遠\n历史事件\t歷史事件\n历史人物\t歷史人物\n历史剧\t歷史劇\n历史博物馆\t歷史博物館\n历史名词\t歷史名詞\n历史学\t歷史學\n历史学家\t歷史學家\n历史学者\t歷史學者\n历史家\t歷史家\n历史小说\t歷史小說\n历史年表\t歷史年表\n历史性\t歷史性\n历史总在重演\t歷史總在重演\n历史悠久\t歷史悠久\n历史意义\t歷史意義\n历史文学\t歷史文學\n历史新高\t歷史新高\n历史时代\t歷史時代\n历史时期\t歷史時期\n历史比较语言学\t歷史比較語言學\n历史沿革\t歷史沿革\n历史潮流\t歷史潮流\n历史版本\t歷史版本\n历史社会学\t歷史社會學\n历史系\t歷史系\n历史线图\t歷史線圖\n历史背景\t歷史背景\n历史观\t歷史觀\n历史观点\t歷史觀點\n历史语言学\t歷史語言學\n历史语词\t歷史語詞\n历史课\t歷史課\n历史遗产\t歷史遺產\n历史遗迹\t歷史遺蹟\n历史里\t歷史裡\n历史重演\t歷史重演\n历命\t曆命\n历城\t歷城\n历城区\t歷城區\n历城县\t歷城縣\n历夏经秋\t歷夏經秋\n历头\t曆頭\n历始\t曆始\n历审\t歷審\n历室\t曆室\n历尽\t歷盡\n历尽沧桑\t歷盡滄桑\n历尽艰辛\t歷盡艱辛\n历尽艰险\t歷盡艱險\n历尽艰难\t歷盡艱難\n历尾\t曆尾\n历届\t歷屆\n历山\t歷山\n历年\t歷年\n历年来\t歷年來\n历引\t曆引\n历指\t曆指\n历数\t歷數\n历日\t歷日\n历日旷久\t歷日曠久\n历时\t歷時\n历月\t歷月\n历有年所\t歷有年所\n历朝\t歷朝\n历朝历代\t歷朝歷代\n历朝通俗演义\t歷朝通俗演義\n历本\t曆本\n历来\t歷來\n历来如此\t歷來如此\n历来最低点\t歷來最低點\n历次\t歷次\n历正\t歷正\n历沴\t歷沴\n历法\t曆法\n历澜\t歷瀾\n历物之意\t歷物之意\n历狱\t曆獄\n历碌\t歷碌\n历程\t歷程\n历纪\t曆紀\n历线\t歷線\n历练\t歷練\n历练之才\t歷練之才\n历练老成\t歷練老成\n历经\t歷經\n历经沧桑\t歷經滄桑\n历经波折\t歷經波折\n历落\t歷落\n历象\t曆象\n历象表\t曆象表\n历遍\t歷遍\n历险\t歷險\n历险归来\t歷險歸來\n历险记\t歷險記\n历齿\t歷齒\n压价\t壓價\n压克力\t壓克力\n压克力板\t壓克力板\n压出\t壓出\n压出去\t壓出去\n压出来\t壓出來\n";

/// Part 31 of the text.
pub const ST_PHRASES_31: &'static str = "压制\t壓制\n压制住\t壓制住\n压制性\t壓制性\n压力团体\t壓力團體\n压力症\t壓力症\n压力表\t壓力錶\n压卷\t壓卷\n压回\t壓回\n压回去\t壓回去\n压回来\t壓回來\n压杆\t壓桿\n压板\t壓板\n压缩饼干\t壓縮餅乾\n压胄子\t壓冑子\n压舌板\t壓舌板\n压面棍\t壓麵棍\n厌恶\t厭惡\n厌恶感\t厭惡感\n厌食症\t厭食症\n厓谷\t厓谷\n厘出\t釐出\n厘升\t釐升\n厘定\t釐定\n厘改\t釐改\n厘整\t釐整\n厘正\t釐正\n厘清\t釐清\n厘米\t釐米\n厘订\t釐訂\n厘金\t厘金\n厘革\t釐革\n厚朴\t厚朴\n厚板\t厚板\n厚纸板\t厚紙板\n厝薪于火\t厝薪於火\n原于\t原於\n原价\t原價\n原厂\t原廠\n原厂药\t原廠藥\n原发\t原發\n原发性\t原發性\n原发性进行性失语\t原發性進行性失語\n原叶体\t原葉體\n原始公社制度\t原始公社制度\n原始艺术\t原始藝術\n原始记录\t原始記錄\n原子云\t原子雲\n原子价\t原子價\n原子发电厂\t原子發電廠\n原子团\t原子團\n原子核\t原子核\n原子爆破弹药\t原子爆破彈藥\n原子能发电\t原子能發電\n原子能发电站\t原子能發電站\n原子钟\t原子鐘\n原定价\t原定價\n原料价格\t原料價格\n原料药\t原料藥\n原曲\t原曲\n原板\t原板\n原核\t原核\n原种\t原種\n原纤维\t原纖維\n原苏联\t原蘇聯\n原虫\t原蟲\n原野游侠\t原野遊俠\n原钟\t原鐘\n原须\t原須\n厥后\t厥後\n厨余\t廚餘\n厨娘\t廚娘\n厨柜\t廚櫃\n厮斗\t廝鬥\n厮舍\t廝舍\n去不了\t去不了\n去乡里\t去鄉裡\n去了\t去了\n去借\t去借\n去台人员\t去臺人員\n去后\t去後\n去向\t去向\n去向不明\t去向不明\n去干\t去幹\n去干扰\t去干擾\n去干涉\t去干涉\n去干预\t去干預\n去念\t去唸\n去恶从善\t去惡從善\n去搜\t去搜\n去暗投明\t去暗投明\n去杀胜残\t去殺勝殘\n去核\t去核\n县党部\t縣黨部\n县志\t縣誌\n县里\t縣裡\n参与\t參與\n参与人员\t參與人員\n参与制\t參與制\n参与制作\t參與製作\n参与制造\t參與製造\n参与度\t參與度\n参与感\t參與感\n参与权\t參與權\n参与率\t參與率\n参与者\t參與者\n参两院\t參兩院\n参予\t參予\n参事\t參事\n参伍\t參伍\n参众两院\t參眾兩院\n参会\t參會\n参佐\t參佐\n参假\t參假\n参军\t參軍\n参前落后\t參前落後\n参加\t參加\n参加为\t參加為\n参加人\t參加人\n参加国\t參加國\n参加奖\t參加獎\n参加完\t參加完\n参加者\t參加者\n参劾\t參劾\n参半\t參半\n参合\t參合\n参同契\t參同契\n参商\t參商\n参团\t參團\n参场\t參場\n参堂\t參堂\n参天\t參天\n参头\t參頭\n参奏\t參奏\n参孙\t參孫\n参宿\t參宿\n参宿七\t參宿七\n参将\t參將\n参展\t參展\n参展商\t參展商\n参展团\t參展團\n参差\t參差\n参差不齐\t參差不齊\n参差错落\t參差錯落\n参度\t參度\n参悟\t參悟\n参战\t參戰\n参战国\t參戰國\n参拜\t參拜\n参拾壹\t參拾壹\n参拾陆\t參拾陸\n参政\t參政\n参政权\t參政權\n参数\t參數\n参数表\t參數表\n参朝\t參朝\n参本\t參本\n参杂\t參雜\n参校\t參校\n参汤\t參湯\n参演\t參演\n参灵\t參靈\n参照\t參照\n参照卡\t參照卡\n参照物\t參照物\n参照系\t參照系\n参看\t參看\n参知政事\t參知政事\n参破\t參破\n参禅\t參禪\n参绥\t蔘綏\n参综\t參綜\n参考\t參考\n参考书\t參考書\n参考书目\t參考書目\n参考价\t參考價\n参考价值\t參考價值\n参考值\t參考值\n参考参考\t參考參考\n参考座标\t參考座標\n参考性\t參考性\n参考手册\t參考手冊\n参考文献\t參考文獻\n参考材料\t參考材料\n参考法\t參考法\n参考消息\t參考消息\n参考特藏\t參考特藏\n参考系\t參考系\n参考资料\t參考資料\n参股\t參股\n参茸\t參茸\n参见\t參見\n参见互照\t參見互照\n参见注\t參見注\n参观\t參觀\n参观券\t參觀券\n参观参观\t參觀參觀\n参观团\t參觀團\n参观团体\t參觀團體\n参观完\t參觀完\n参观者\t參觀者\n参订\t參訂\n参训\t參訓\n参议\t參議\n参议会\t參議會\n参议员\t參議員\n参议院\t參議院\n参访\t參訪\n参访团\t參訪團\n参评\t參評\n参话头\t參話頭\n参请\t參請\n参谋\t參謀\n参谋总部\t參謀總部\n参谋总长\t參謀總長\n参谋长\t參謀長\n参谒\t參謁\n参谭\t參譚\n参赛\t參賽\n参赛国\t參賽國\n参赛权\t參賽權\n参赛片\t參賽片\n参赛者\t參賽者\n参赞\t參贊\n参辰\t參辰\n参辰卯酉\t參辰卯酉\n参辰日月\t參辰日月\n参选\t參選\n参选人\t參選人\n参透\t參透\n参道\t參道\n参酌\t參酌\n参量\t參量\n参量空间\t參量空間\n参错\t參錯\n参阅\t參閱\n参院\t參院\n参革\t參革\n参预\t參預\n参验\t參驗\n又云\t又云\n又咸\t又鹹\n又咽\t又咽\n又干\t又幹\n又干又硬\t又乾又硬\n又弱一个\t又弱一個\n又当别论\t又當別論\n又摇又摆\t又搖又擺\n又来了\t又來了\n又饥又渴\t又飢又渴\n及于\t及於\n及早准备\t及早準備\n友于\t友于\n友党\t友黨\n友台\t友臺\n友好代表\t友好代表\n友好关系\t友好關係\n友情价\t友情價\n友民党\t友民黨\n友谊万岁\t友誼萬歲\n双丰\t雙豐\n双主修\t雙主修\n双凸面\t雙凸面\n双台子\t雙臺子\n双台子区\t雙臺子區\n双叶\t雙葉\n双后前兵开局\t雙后前兵開局\n双向\t雙向\n双向交通\t雙向交通\n双向沟通\t雙向溝通\n双向讨论区\t雙向討論區\n双周\t雙週\n双周刊\t雙週刊\n双周期性\t雙週期性\n双回门\t雙回門\n双复磷\t雙復磷\n双子叶\t雙子葉\n双子叶植物\t雙子葉植物\n双手万能\t雙手萬能\n双手赞成\t雙手贊成\n双扣\t雙扣\n双折\t雙摺\n双折射\t雙折射\n双拐\t雙柺\n双挂号\t雙掛號\n双捻布\t雙捻布\n双方同意\t雙方同意\n双方面\t雙方面\n双曲\t雙曲\n双曲余割\t雙曲餘割\n双曲余弦\t雙曲餘弦\n双曲抛物面\t雙曲拋物面\n双曲拱桥\t雙曲拱橋\n双曲正弦\t雙曲正弦\n双曲线\t雙曲線\n双曲线正弦\t雙曲線正弦\n双杠\t雙槓\n双杯\t雙杯\n双柑斗酒\t雙柑斗酒\n双核\t雙核\n双湖特别区\t雙湖特別區\n双画面电视\t雙畫面電視\n双胜类\t雙胜類\n双语立体声系统\t雙語立體聲系統\n双轨制\t雙軌制\n双进双出\t雙進雙出\n双重标准\t雙重標準\n双链\t雙鏈\n双链核酸\t雙鏈核酸\n双雕\t雙鵰\n双面\t雙面\n双面人\t雙面人\n双面娇娃\t雙面嬌娃\n双面谍\t雙面諜\n双龙大裂谷\t雙龍大裂谷\n反个\t反個\n反乱并\t反亂併\n反了\t反了\n反于\t反於\n反修\t反修\n反光板\t反光板\n反光面\t反光面\n反冲\t反衝\n反冲力\t反衝力\n反制\t反制\n反升\t反升\n反卷\t反捲\n反反复复\t反反覆覆\n反叛党\t反叛黨\n反右派斗争\t反右派鬥爭\n反向\t反向\n反向而行\t反向而行\n反回头\t反回頭\n反坦克\t反坦克\n反坦克炮\t反坦克炮\n反复\t反覆\n反复不一\t反覆不一\n反复不定\t反覆不定\n反复不常\t反覆不常\n反复制\t反複製\n反复思维\t反覆思維\n反复思量\t反覆思量\n反复性\t反覆性\n反复无常\t反覆無常\n反对党\t反對黨\n反导向\t反導向\n反导向飞弹\t反導向飛彈\n反导系统\t反導系統\n反射面\t反射面\n反录病毒\t反錄病毒\n反托拉斯\t反托拉斯\n反托拉斯法案\t反托拉斯法案\n反扣\t反扣\n反掌折枝\t反掌折枝\n反攻复国\t反攻復國\n反攻复国大业\t反攻復國大業\n反攻复国战争\t反攻復國戰爭\n";

/// Part 32 of the text.
pub const ST_PHRASES_32: &'static str = "反斗\t反斗\n反斗城\t反斗城\n反方向\t反方向\n反时针\t反時針\n反时钟\t反時鐘\n反时钟方向\t反時鐘方向\n反映出\t反映出\n反映出来\t反映出來\n反曲弓\t反曲弓\n反朴\t反樸\n反核\t反核\n反清复明\t反清復明\n反烟\t反煙\n反烟运动\t反煙運動\n反目成仇\t反目成仇\n反经合义\t反經合義\n反袁斗争\t反袁鬥爭\n反败为胜\t反敗為勝\n反转录\t反轉錄\n反转录病毒\t反轉錄病毒\n反酷刑折磨公约\t反酷刑折磨公約\n反铲\t反鏟\n反阴复阴\t反陰復陰\n反面\t反面\n反面人物\t反面人物\n反面儿\t反面兒\n反面教员\t反面教員\n反面教材\t反面教材\n反面无情\t反面無情\n反面角色\t反面角色\n反颜相向\t反顏相向\n反馈表\t反饋表\n发上\t發上\n发上冲冠\t髮上衝冠\n发上去\t發上去\n发上指冠\t髮上指冠\n发上来\t發上來\n发下\t發下\n发下去\t發下去\n发下来\t發下來\n发不出\t發不出\n发不到\t發不到\n发不起\t發不起\n发业\t發業\n发丝\t髮絲\n发丧\t發喪\n发个\t發個\n发个儿\t發個兒\n发为\t發為\n发为血之本\t髮為血之本\n发乎情\t發乎情\n发乎情止乎礼义\t發乎情止乎禮義\n发乔\t發喬\n发书\t發書\n发乱钗横\t髮亂釵橫\n发乳\t髮乳\n发了\t發了\n发予\t發予\n发于\t發於\n发些\t發些\n发交\t發交\n发亮\t發亮\n发人\t發人\n发人深省\t發人深省\n发人省思\t發人省思\n发付\t發付\n发令\t發令\n发令枪\t發令槍\n发件人\t發件人\n发作\t發作\n发俊科\t發俊科\n发信\t發信\n发信号\t發信號\n发像管\t發像管\n发僵\t發僵\n发兆\t發兆\n发光\t發光\n发光二极体\t發光二極體\n发光二极管\t發光二極管\n发光体\t發光體\n发光可鉴\t髮光可鑑\n发光器\t發光器\n发光屏\t發光屏\n发光度\t發光度\n发光强度\t發光強度\n发光颜料\t發光顏料\n发兵\t發兵\n发冢\t發冢\n发冷\t發冷\n发凡\t發凡\n发凡举例\t發凡舉例\n发出\t發出\n发出去\t發出去\n发出指示\t發出指示\n发出来\t發出來\n发函\t發函\n发刊\t發刊\n发刊词\t發刊詞\n发利市\t發利市\n发到\t發到\n发功\t發功\n发动\t發動\n发动力\t發動力\n发动期\t發動期\n发动机\t發動機\n发包\t發包\n发包给\t發包給\n发匪\t髮匪\n发匮\t發匱\n发单\t發單\n发卖\t發賣\n发卡\t髮卡\n发卷\t髮捲\n发卷子\t發卷子\n发卷宗\t發卷宗\n发去\t發去\n发发\t發發\n发叶\t發葉\n发号\t發號\n发号令\t發號令\n发号出令\t發號出令\n发号布令\t發號佈令\n发号施令\t發號施令\n发向\t發向\n发呆\t發呆\n发呕\t發嘔\n发咒\t發咒\n发响\t發響\n发哑\t發啞\n发哥\t發哥\n发售\t發售\n发售量\t發售量\n发喉急\t發喉急\n发喊连天\t發喊連天\n发喘\t發喘\n发嘎嘎声\t發嘎嘎聲\n发嘘声\t發噓聲\n发噱\t發噱\n发回\t發回\n发回去\t發回去\n发回来\t發回來\n发困\t發睏\n发圈\t髮圈\n发型\t髮型\n发型师\t髮型師\n发墨\t發墨\n发声\t發聲\n发声器\t發聲器\n发声器官\t發聲器官\n发声法\t發聲法\n发天阴\t發天陰\n发头\t發頭\n发头风\t發頭風\n发夹\t髮夾\n发奉\t發奉\n发奋\t發奮\n发奋图强\t發奮圖強\n发奋有为\t發奮有為\n发奖\t發獎\n发套\t髮套\n发奸摘隐\t發奸摘隱\n发奸擿伏\t發奸擿伏\n发好\t發好\n发如飞蓬\t髮如飛蓬\n发妻\t髮妻\n发姐\t髮姐\n发威\t發威\n发威动怒\t發威動怒\n发嫁\t發嫁\n发完\t發完\n发家\t發家\n发富发贵\t發富發貴\n发封\t發封\n发射\t發射\n发射井\t發射井\n发射台\t發射臺\n发射器\t發射器\n发射场\t發射場\n发射控制\t發射控制\n发射机\t發射機\n发射机应答器\t發射機應答器\n发射极\t發射極\n发射点\t發射點\n发射站\t發射站\n发尾\t髮尾\n发屋\t髮屋\n发屋求狸\t發屋求狸\n发展\t發展\n发展下去\t發展下去\n发展不平均\t發展不平均\n发展中\t發展中\n发展中国\t發展中國\n发展中国家\t發展中國家\n发展为\t發展為\n发展出\t發展出\n发展出来\t發展出來\n发展到\t發展到\n发展区\t發展區\n发展史\t發展史\n发展局\t發展局\n发展心理\t發展心理\n发展性\t發展性\n发展成\t發展成\n发展核武器\t發展核武器\n发展潜力\t發展潛力\n发展生产\t發展生產\n发展的国家\t發展的國家\n发展研究中心\t發展研究中心\n发展观\t發展觀\n发展起来\t發展起來\n发展趋势\t發展趨勢\n发展速度\t發展速度\n发展部\t發展部\n发岁\t發歲\n发已霜白\t髮已霜白\n发市\t發市\n发布\t發佈\n发布会\t發佈會\n发带\t髮帶\n发干\t發乾\n发庄\t發莊\n发廊\t髮廊\n发廪\t發廩\n发开\t發開\n发式\t髮式\n发引\t發引\n发引千钧\t髮引千鈞\n发往\t發往\n发得\t發得\n发心\t發心\n发忿\t發忿\n发怒\t發怒\n发怔\t發怔\n发急\t發急\n发性\t發性\n发怨言\t發怨言\n发怵\t發怵\n发恨\t發恨\n发息\t發息\n发恼\t發惱\n发悲\t發悲\n发悸\t發悸\n发情\t發情\n发情周期\t發情週期\n发情期\t發情期\n发想\t發想\n发愁\t發愁\n发意\t發意\n发愣\t發愣\n发愤\t發憤\n发愤努力\t發憤努力\n发愤向上\t發憤向上\n发愤图强\t發憤圖強\n发愤忘食\t發憤忘食\n发愿\t發願\n发慌\t發慌\n发憷\t發憷\n发懒\t發懶\n发成\t發成\n发扬\t發揚\n发扬光大\t發揚光大\n发扬踔厉\t發揚踔厲\n发扬蹈厉\t發揚蹈厲\n发抒\t發抒\n发抖\t發抖\n发报\t發報\n发报人\t發報人\n发报员\t發報員\n发报器\t發報器\n发报机\t發報機\n发指\t髮指\n发指令\t發指令\n发指眦裂\t髮指眥裂\n发挥\t發揮\n发挥不了\t發揮不了\n发挥作用\t發揮作用\n发挥出\t發揮出\n发挥出来\t發揮出來\n发挥到\t發揮到\n发挥性\t發揮性\n发挥所长\t發揮所長\n发挽双髻\t髮挽雙髻\n发掉\t發掉\n发排\t發排\n发掘\t發掘\n发掘出\t發掘出\n发掘出来\t發掘出來\n发掘到\t發掘到\n发摃\t發摃\n发摆子\t發擺子\n发擂\t發擂\n发擿\t發擿\n发擿奸伏\t發擿奸伏\n发收\t發收\n发改委\t發改委\n发放\t發放\n发政施仁\t發政施仁\n发散\t發散\n发文\t發文\n发文者\t發文者\n发旋\t髮旋\n发明\t發明\n发明人\t發明人\n发明创造\t發明創造\n发明到\t發明到\n发明奖\t發明獎\n发明家\t發明家\n发明展\t發明展\n发明者\t發明者\n发昏\t發昏\n发昏章第十一\t發昏章第十一\n发春\t發春\n发晕\t發暈\n发暗\t發暗\n发有\t發有\n发木\t發木\n发村\t發村\n发束\t髮束\n发条\t發條\n发来\t發來\n发来发去\t發來發去\n发松\t發鬆\n发极\t發極\n发标\t發標\n发样\t發樣\n发根\t髮根\n发案\t發案\n发梢\t髮梢\n发梳\t髮梳\n发棠\t發棠\n发棵\t發棵\n发楞\t發楞\n发榜\t發榜\n发横\t發橫\n发横财\t發橫財\n发款\t發款\n发毛\t發毛\n发气\t發氣\n发水\t發水\n发汗\t發汗\n发汗剂\t發汗劑\n发汗药\t發汗藥\n发油\t髮油\n发泄\t發泄\n发泄出来\t發泄出來\n发泡\t發泡\n发泡体\t發泡體\n发泡剂\t發泡劑\n发泡成形\t發泡成形\n发泡胶\t發泡膠\n发洋财\t發洋財\n发洪\t發洪\n发派\t發派\n发淡科\t發淡科\n发源\t發源\n发源地\t發源地\n发漂\t髮漂\n发潮\t發潮\n发火\t發火\n发火器\t發火器\n发火点\t發火點\n发炎\t發炎\n发炎性\t發炎性\n发炮\t發炮\n发点\t發點\n发烛\t發燭\n发烟\t發煙\n发烟剂\t發煙劑\n发烦\t發煩\n发烧\t發燒\n发烧友\t發燒友\n发烧客\t發燒客\n发烧度\t發燒度\n";

/// Part 33 of the text.
pub const ST_PHRASES_33: &'static str = "发烧时\t發燒時\n发烧片\t發燒片\n发烫\t發燙\n发热\t發熱\n发热时\t發熱時\n发热量\t發熱量\n发片\t發片\n发片日\t發片日\n发牌\t發牌\n发牒\t發牒\n发牙豆\t發牙豆\n发牢骚\t發牢騷\n发物\t發物\n发状\t髮狀\n发狂\t發狂\n发狠\t發狠\n发现\t發現\n发现体\t發現體\n发现出\t發現出\n发现到\t發現到\n发现号\t發現號\n发现学习\t發現學習\n发现数\t發現數\n发现物\t發現物\n发球\t發球\n发球区\t發球區\n发球员\t發球員\n发球局\t發球局\n发球权\t發球權\n发球点\t發球點\n发生\t發生\n发生关系\t發生關係\n发生器\t發生器\n发生地\t發生地\n发生学\t發生學\n发生学分类法\t發生學分類法\n发生率\t發生率\n发甲\t發甲\n发电\t發電\n发电厂\t發電廠\n发电场\t發電場\n发电所\t發電所\n发电机\t發電機\n发电机组\t發電機組\n发电板\t發電板\n发电站\t發電站\n发电量\t發電量\n发疯\t發瘋\n发疹\t發疹\n发疹子\t發疹子\n发病\t發病\n发病率\t發病率\n发痒\t發癢\n发痛\t發痛\n发痧\t發痧\n发痴\t發痴\n发癣\t髮癬\n发癫\t發癲\n发白\t發白\n发白时\t發白時\n发的\t發的\n发皇\t發皇\n发皓齿\t發皓齒\n发监\t發監\n发直\t發直\n发眩\t發眩\n发矢\t發矢\n发短信\t發短信\n发短心长\t髮短心長\n发石车\t發石車\n发砲\t發砲\n发硎\t發硎\n发硎新试\t發硎新試\n发硬\t發硬\n发硬时\t發硬時\n发神经\t發神經\n发神经病\t發神經病\n发祥\t發祥\n发祥地\t發祥地\n发票\t發票\n发禁\t髮禁\n发福\t發福\n发科\t發科\n发科打诨\t發科打諢\n发积\t發積\n发稿\t發稿\n发稿时\t發稿時\n发窘\t發窘\n发端\t發端\n发端词\t發端詞\n发笑\t發笑\n发笔\t發筆\n发笺\t髮箋\n发策\t發策\n发策决科\t發策決科\n发签\t發籤\n发箍\t髮箍\n发箧\t發篋\n发箭\t發箭\n发簪\t髮簪\n发粉\t發粉\n发糕\t發糕\n发紫\t發紫\n发红\t發紅\n发纱\t髮紗\n发绀\t發紺\n发结\t髮結\n发给\t發給\n发绿\t發綠\n发缨\t髮纓\n发网\t髮網\n发老狠\t發老狠\n发聋振聩\t發聾振聵\n发肤\t髮膚\n发育\t發育\n发育不良\t發育不良\n发育成\t發育成\n发育期\t發育期\n发育条件\t發育條件\n发育生物学\t發育生物學\n发肿\t發腫\n发胀\t發脹\n发胀感\t發脹感\n发胖\t發胖\n发胡\t發胡\n发胶\t髮膠\n发脚\t髮腳\n发脱\t發脫\n发脱口齿\t發脫口齒\n发脾寒\t發脾寒\n发脾气\t發脾氣\n发腊\t髮臘\n发自\t發自\n发自内心\t發自內心\n发自肺腑\t發自肺腑\n发臭\t發臭\n发船\t發船\n发色\t髮色\n发色勒\t髮色勒\n发花\t發花\n发芽\t發芽\n发芽势\t發芽勢\n发芽率\t發芽率\n发草\t發草\n发草帖\t發草帖\n发菜\t髮菜\n发落\t發落\n发蒙\t發矇\n发蒙振落\t發蒙振落\n发蓝\t發藍\n发蔫\t發蔫\n发薪\t發薪\n发薪水\t發薪水\n发虚\t發虛\n发蜡\t髮蠟\n发蜡条\t髮蠟條\n发行\t發行\n发行人\t發行人\n发行商\t發行商\n发行备忘录\t發行備忘錄\n发行日\t發行日\n发行权\t發行權\n发行红利股\t發行紅利股\n发行者\t發行者\n发行量\t發行量\n发行量加权股价指数\t發行量加權股價指數\n发行额\t發行額\n发行首日\t發行首日\n发表\t發表\n发表会\t發表會\n发表出来\t發表出來\n发表声明\t發表聲明\n发表意见\t發表意見\n发表欲\t發表慾\n发表演讲\t發表演講\n发覆\t發覆\n发见\t發見\n发觉\t發覺\n发觉出\t發覺出\n发觉到\t發覺到\n发解\t發解\n发言\t發言\n发言中肯\t發言中肯\n发言人\t發言人\n发言人卡\t發言人卡\n发言人室\t發言人室\n发言发语\t發言發語\n发言台\t發言臺\n发言权\t發言權\n发言条\t發言條\n发言者\t發言者\n发言遣辞\t發言遣辭\n发誓\t發誓\n发讪\t發訕\n发议论\t發議論\n发话\t發話\n发话器\t發話器\n发诨子\t發諢子\n发语词\t發語詞\n发语辞\t發語辭\n发课\t發課\n发财\t發財\n发财票\t發財票\n发财致富\t發財致富\n发财金\t發財金\n发货\t發貨\n发货单\t發貨單\n发质\t髮質\n发贴\t發貼\n发起\t發起\n发起人\t發起人\n发起来\t發起來\n发起烧来\t發起燒來\n发越\t發越\n发足\t發足\n发踊冲冠\t髮踴沖冠\n发踪指示\t發蹤指示\n发蹙\t發蹙\n发躁\t發躁\n发身\t發身\n发车\t發車\n发轫\t發軔\n发软\t發軟\n发轿\t發轎\n发辫\t髮辮\n发达\t發達\n发达为\t發達為\n发达到\t發達到\n发达国\t發達國\n发达国家\t發達國家\n发达地区\t發達地區\n发达起来\t發達起來\n发过\t發過\n发过去\t發過去\n发过来\t發過來\n发运\t發運\n发还\t發還\n发进\t發進\n发进去\t發進去\n发进来\t發進來\n发迹\t發跡\n发迹变泰\t發跡變泰\n发送\t發送\n发送功率\t發送功率\n发送器\t發送器\n发送机\t發送機\n发遣\t發遣\n发配\t發配\n发酒疯\t發酒瘋\n发酒风\t發酒風\n发酵\t發酵\n发酵乳\t發酵乳\n发酵乳酸\t發酵乳酸\n发酵出来\t發酵出來\n发酵粉\t發酵粉\n发酵饲料\t發酵飼料\n发酸\t發酸\n发采扬明\t發采揚明\n发野\t發野\n发量\t髮量\n发针\t髮針\n发钗\t髮釵\n发长\t髮長\n发问\t發問\n发问者\t發問者\n发间\t髮間\n发闷\t發悶\n发闹\t發鬧\n发阴天\t發陰天\n发际\t髮際\n发隐擿伏\t發隱擿伏\n发难\t發難\n发雕\t髮雕\n发霉\t發黴\n发霜\t髮霜\n发露\t發露\n发青\t發青\n发面\t發麵\n发鞍\t發鞍\n发音\t發音\n发音体\t發音體\n发音合作人\t發音合作人\n发音器\t發音器\n发音器官\t發音器官\n发音学\t發音學\n发音方法\t發音方法\n发音部位\t發音部位\n发音障碍\t發音障礙\n发顶\t髮頂\n发须\t髮鬚\n发须俱\t髮鬚俱\n发须已\t髮鬚已\n发须斑\t髮鬚斑\n发须皆\t髮鬚皆\n发须都\t髮鬚都\n发颤\t發顫\n发风\t發風\n发风骂坐\t發風罵坐\n发飘\t發飄\n发飙\t發飆\n发飚\t發飈\n发饰\t髮飾\n发饷\t發餉\n发香\t髮香\n发马\t發馬\n发骚\t發騷\n发高烧\t發高燒\n发高热\t發高熱\n发髻\t髮髻\n发鬓\t髮鬢\n发麻\t發麻\n发黄\t發黃\n发黏\t發黏\n发黑\t發黑\n叔于田\t叔于田\n叔梁纥\t叔梁紇\n取之不尽\t取之不盡\n取之不尽用之不竭\t取之不盡用之不竭\n取了\t取了\n取信于\t取信於\n取信于人\t取信於人\n取值范围\t取值範圍\n取决于\t取決於\n取出\t取出\n取出来\t取出來\n取向\t取向\n取回\t取回\n取回去\t取回去\n取回来\t取回來\n取得一致\t取得一致\n取得胜利\t取得勝利\n取才\t取才\n取材于\t取材於\n取法于\t取法於\n取胜\t取勝\n取舍\t取捨\n取舍不定\t取捨不定\n取舍之间\t取捨之間\n取舍难定\t取捨難定\n取药\t取藥\n取阳谷\t取陽谷\n受不了\t受不了\n受了\t受了\n受人之托\t受人之託\n受制\t受制\n受制于\t受制於\n受制于人\t受制於人\n受命于天\t受命於天\n受困\t受困\n受够了\t受夠了\n受尽\t受盡\n受尽压迫\t受盡壓迫\n受尽折磨\t受盡折磨\n受得了\t受得了\n受托\t受託\n受托人\t受託人\n受托者\t受託者\n受折磨\t受折磨\n受理\t受理\n受用不尽\t受用不盡\n受聘于\t受聘於\n受阻于\t受阻於\n受限于\t受限於\n受难曲\t受難曲\n受骗上当\t受騙上當\n变不了\t變不了\n变不出花样\t變不出花樣\n变丑\t變醜\n变个\t變個\n变了\t變了\n变了又变\t變了又變\n变价\t變價\n变修\t變修\n变出\t變出\n变出来\t變出來\n变动汇率\t變動匯率\n变化万端\t變化萬端\n变化范围\t變化範圍\n";

/// Part 34 of the text.
pub const ST_PHRASES_34: &'static str = "变回\t變回\n变回去\t變回去\n变回来\t變回來\n变奏曲\t變奏曲\n变尽方法\t變盡方法\n变异型克雅氏症\t變異型克雅氏症\n变异系数\t變異係數\n变形虫\t變形蟲\n变征\t變徵\n变征之声\t變徵之聲\n变征之音\t變徵之音\n变性手术\t變性手術\n变性气团\t變性氣團\n变换\t變換\n变暗\t變暗\n变松\t變鬆\n变相加价\t變相加價\n变种\t變種\n变种人\t變種人\n变脏\t變髒\n变质岩\t變質岩\n变速杆\t變速桿\n变造出\t變造出\n变魔术\t變魔術\n叙事曲\t敘事曲\n叙别\t敘別\n叙录\t敘錄\n叙述出来\t敘述出來\n叛党\t叛黨\n叠了\t疊了\n叠出\t疊出\n叠出去\t疊出去\n叠出来\t疊出來\n叠合\t疊合\n叠层岩\t疊層岩\n叠彩区\t疊彩區\n口仇\t口仇\n口出\t口出\n口出不逊\t口出不遜\n口出恶言\t口出惡言\n口出秽言\t口出穢言\n口占\t口占\n口吃\t口吃\n口布\t口布\n口干\t口乾\n口干舌燥\t口乾舌燥\n口彩\t口彩\n口径\t口徑\n口念\t口唸\n口愿\t口願\n口才\t口才\n口才好\t口才好\n口才辨给\t口才辨給\n口技表演者\t口技表演者\n口服药\t口服藥\n口杯\t口杯\n口燥唇干\t口燥脣乾\n口腔里\t口腔裡\n口腹之欲\t口腹之慾\n口血未干\t口血未乾\n口语字词识别\t口語字詞識別\n口述出来\t口述出來\n口述历史\t口述歷史\n口里\t口裡\n口钟\t口鐘\n古书云\t古書云\n古云\t古云\n古云镇\t古雲鎮\n古今注\t古今注\n古典艺术\t古典藝術\n古切里\t古切里\n古制\t古制\n古巴共产党\t古巴共產黨\n古弦\t古絃\n古朴\t古樸\n古杰拉尔\t古傑拉爾\n古杰拉特邦\t古傑拉特邦\n古板\t古板\n古柯叶\t古柯葉\n古柯咸\t古柯鹹\n古楼里\t古樓裡\n古游\t古遊\n古腾堡计划\t古騰堡計劃\n古语云\t古語云\n古迹\t古蹟\n古里古怪\t古裡古怪\n古钟\t古鐘\n古钟表\t古鐘錶\n句践复国\t句踐復國\n另一回\t另一回\n另一回事\t另一回事\n另一方面\t另一方面\n另一种\t另一種\n另一面\t另一面\n另于\t另於\n另借\t另借\n另开生面\t另開生面\n另当别论\t另當別論\n另方面\t另方面\n另谋出路\t另謀出路\n另谋发展\t另謀發展\n另起烟爨\t另起煙爨\n另辟\t另闢\n另辟新径\t另闢新徑\n另辟蹊径\t另闢蹊徑\n叨念\t叨唸\n叩出\t叩出\n叩头虫\t叩頭蟲\n叩钟\t叩鐘\n只不过\t只不過\n只不过几年前\t只不過幾年前\n只不过是\t只不過是\n只为\t只為\n只为了\t只為了\n只买\t只買\n只买到\t只買到\n只争旦夕\t只爭旦夕\n只于\t只於\n只产\t只產\n只亮\t只亮\n只亮出\t只亮出\n只亮到\t只亮到\n只今\t只今\n只从\t只從\n只会\t只會\n只会到\t只會到\n只会在\t只會在\n只传\t只傳\n只传出\t只傳出\n只住\t只住\n只余\t只餘\n只作\t只作\n只借\t只借\n只借不还\t只借不還\n只借到\t只借到\n只做\t只做\n只停\t只停\n只养\t只養\n只再\t只再\n只写\t只寫\n只写出\t只寫出\n只写到\t只寫到\n只写在\t只寫在\n只冲\t只衝\n只准\t只准\n只凭\t只憑\n只分\t只分\n只刊\t只刊\n只判\t只判\n只剩\t只剩\n只剩下\t只剩下\n只办\t只辦\n只加\t只加\n只加到\t只加到\n只动\t只動\n只包\t只包\n只卖\t只賣\n只占\t只佔\n只占到\t只佔到\n只占卜\t只占卜\n只占吉\t只占吉\n只占神问卜\t只占神問卜\n只占算\t只占算\n只印\t只印\n只去\t只去\n只发\t只發\n只受\t只受\n只受到\t只受到\n只变\t只變\n只可\t只可\n只可以\t只可以\n只可在\t只可在\n只可意会不可言传\t只可意會不可言傳\n只叹\t只嘆\n只吃\t只吃\n只合\t只合\n只含\t只含\n只听\t只聽\n只听到\t只聽到\n只和\t只和\n只唱\t只唱\n只唱出\t只唱出\n只唱到\t只唱到\n只喊\t只喊\n只喝\t只喝\n只喝到\t只喝到\n只回\t只回\n只回到\t只回到\n只回去\t只回去\n只回来\t只回來\n只因\t只因\n只因为\t只因為\n只图\t只圖\n只在\t只在\n只坐\t只坐\n只声不出\t隻聲不出\n只多\t只多\n只多不少\t只多不少\n只够\t只夠\n只够到\t只夠到\n只够在\t只夠在\n只套\t只套\n只好\t只好\n只好去\t只好去\n只好在\t只好在\n只好来\t只好來\n只字\t隻字\n只字不提\t隻字不提\n只字片纸\t隻字片紙\n只字片言\t隻字片言\n只字片语\t隻字片語\n只学\t只學\n只学会\t只學會\n只学到\t只學到\n只守\t只守\n只守不攻\t只守不攻\n只守到\t只守到\n只定\t只定\n只害\t只害\n只对\t只對\n只封\t只封\n只射\t只射\n只射到\t只射到\n只将\t只將\n只尽\t只盡\n只尽到\t只盡到\n只差\t只差\n只带\t只帶\n只帮\t只幫\n只帮忙\t只幫忙\n只应\t只應\n只延\t只延\n只开\t只開\n只开出\t只開出\n只开到\t只開到\n只开去\t只開去\n只开回\t只開回\n只开来\t只開來\n只当\t只當\n只录\t只錄\n只录到\t只錄到\n只影\t隻影\n只影全无\t隻影全無\n只待\t只待\n只得\t只得\n只得到\t只得到\n只念\t只念\n只怕\t只怕\n只怕会\t只怕會\n只怕是\t只怕是\n只怪\t只怪\n只想\t只想\n只想出\t只想出\n只想到\t只想到\n只想去\t只想去\n只想来\t只想來\n只愿\t只願\n只愿意\t只願意\n只懂\t只懂\n只懂得\t只懂得\n只成\t只成\n只戴\t只戴\n只手\t隻手\n只手单拳\t隻手單拳\n只手擎天\t隻手擎天\n只手空拳\t隻手空拳\n只手遮天\t隻手遮天\n只打\t只打\n只找\t只找\n只找出\t只找出\n只找到\t只找到\n只把\t只把\n只报\t只報\n只抱\t只抱\n只拜\t只拜\n只拼\t只拼\n只挑\t只挑\n只挡\t只擋\n只捉\t只捉\n只捉到\t只捉到\n只排\t只排\n只接\t只接\n只接到\t只接到\n只提\t只提\n只插\t只插\n只插到\t只插到\n只搬\t只搬\n只摆\t只擺\n只撞\t只撞\n只收\t只收\n只收到\t只收到\n只放\t只放\n只教\t只教\n只敢\t只敢\n只数\t只數\n只数到\t只數到\n只日\t隻日\n只是\t只是\n只是为了\t只是為了\n只是会\t只是會\n只是在\t只是在\n只是有\t只是有\n只替\t只替\n只有\t只有\n只有出的气没有进的气\t只有出的氣沒有進的氣\n只有在\t只有在\n只来\t只來\n只来到\t只來到\n只查\t只查\n只查出\t只查出\n只查到\t只查到\n只欠东风\t只欠東風\n只此一家别无分店\t只此一家別無分店\n只比\t只比\n只求\t只求\n只求无过\t只求無過\n只求自保\t只求自保\n只派\t只派\n只流\t只流\n只流出\t只流出\n只流到\t只流到\n只涂\t只塗\n只消\t只消\n只漏\t只漏\n只漏出\t只漏出\n只漏到\t只漏到\n只演\t只演\n只点\t只點\n只照\t只照\n只照到\t只照到\n只煮\t只煮\n只猜\t只猜\n只猜出\t只猜出\n只猜到\t只猜到\n只玩\t只玩\n只甚\t只甚\n只用\t只用\n只用到\t只用到\n只画\t只畫\n只留\t只留\n只留下\t只留下\n只留到\t只留到\n只看\t只看\n只看出\t只看出\n只看到\t只看到\n只眼\t隻眼\n只眼独具\t隻眼獨具\n只睡\t只睡\n只睡到\t只睡到\n只知其一不知其二\t只知其一不知其二\n只知有己不知有人\t只知有己不知有人\n只砍\t只砍\n只种\t只種\n只租\t只租\n只租不买\t只租不買\n只租不卖\t只租不賣\n只称\t只稱\n只穿\t只穿\n只立\t隻立\n只站\t只站\n只站到\t只站到\n只等\t只等\n只答\t只答\n只管\t只管\n只管出\t只管出\n只管到\t只管到\n只管去\t只管去\n只管在\t只管在\n只管来\t只管來\n只索\t只索\n只红\t只紅\n只红到\t只紅到\n只约\t只約\n只经\t只經\n只经过\t只經過\n只编\t只編\n只缝\t只縫\n";

/// Part 35 of the text.
pub const ST_PHRASES_35: &'static str = "只罚\t只罰\n只考\t只考\n只考出\t只考出\n只考到\t只考到\n只聘\t只聘\n只肯\t只肯\n只能\t只能\n只能在\t只能在\n只能有\t只能有\n只花\t只花\n只补\t只補\n只被\t只被\n只装\t只裝\n只要\t只要\n只要会\t只要會\n只要在\t只要在\n只要是\t只要是\n只要有\t只要有\n只要能\t只要能\n只见\t只見\n只见树木\t只見樹木\n只言片字\t隻言片字\n只言片语\t隻言片語\n只订\t只訂\n只认钱不认人\t只認錢不認人\n只让\t只讓\n只让出\t只讓出\n只让到\t只讓到\n只记\t只記\n只记到\t只記到\n只记在\t只記在\n只记得\t只記得\n只讲\t只講\n只讲出\t只講出\n只讲到\t只講到\n只许\t只許\n只许州官放火不许百姓点灯\t只許州官放火不許百姓點燈\n只许成功\t只許成功\n只设\t只設\n只设到\t只設到\n只设在\t只設在\n只说\t只說\n只说不做\t只說不做\n只说出\t只說出\n只说到\t只說到\n只说是\t只說是\n只读\t只讀\n只调\t只調\n只费\t只費\n只赌\t只賭\n只赔\t只賠\n只赚\t只賺\n只赚到\t只賺到\n只赢\t只贏\n只赢不输\t只贏不輸\n只走\t只走\n只走到\t只走到\n只赶\t只趕\n只赶出\t只趕出\n只赶到\t只趕到\n只赶去\t只趕去\n只赶回\t只趕回\n只赶来\t只趕來\n只跌\t只跌\n只跟\t只跟\n只跟到\t只跟到\n只跟去\t只跟去\n只跟在\t只跟在\n只跟来\t只跟來\n只跳\t只跳\n只踢\t只踢\n只踩\t只踩\n只踩到\t只踩到\n只身\t隻身\n只身一人\t隻身一人\n只身上已\t只身上已\n只身上无\t只身上無\n只身上有\t只身上有\n只身上没\t只身上沒\n只身上的\t只身上的\n只身孤影\t隻身孤影\n只转\t只轉\n只转到\t只轉到\n只轮不反\t隻輪不反\n只轮不返\t隻輪不返\n只轰\t只轟\n只载\t只載\n只输\t只輸\n只输到\t只輸到\n只达\t只達\n只过\t只過\n只过去\t只過去\n只过来\t只過來\n只进\t只進\n只进到\t只進到\n只追\t只追\n只追到\t只追到\n只追回\t只追回\n只送\t只送\n只送不卖\t只送不賣\n只通\t只通\n只通到\t只通到\n只道\t只道\n只配\t只配\n只采\t只採\n只采到\t只採到\n只采声\t只採聲\n只重衣衫不重人\t只重衣衫不重人\n只量\t只量\n只量出\t只量出\n只量到\t只量到\n只铺\t只鋪\n只销\t只銷\n只镀\t只鍍\n只问\t只問\n只闯\t只闖\n只闯出\t只闖出\n只闯到\t只闖到\n只闻\t只聞\n只防\t只防\n只降\t只降\n只降到\t只降到\n只限\t只限\n只限于\t只限於\n只限到\t只限到\n只限在\t只限在\n只陪\t只陪\n只需\t只需\n只需要\t只需要\n只露\t只露\n只露出\t只露出\n只露到\t只露到\n只靠\t只靠\n只须\t只須\n只顾\t只顧\n只顾到\t只顧到\n只顾在\t只顧在\n只领\t只領\n只领到\t只領到\n只飞\t只飛\n只鸡斗酒\t只雞斗酒\n只鸡絮酒\t隻雞絮酒\n叫个\t叫個\n叫了\t叫了\n叫价\t叫價\n叫出\t叫出\n叫出去\t叫出去\n叫出声\t叫出聲\n叫出来\t叫出來\n叫回\t叫回\n叫回去\t叫回去\n叫回来\t叫回來\n叫板\t叫板\n召回\t召回\n召幸\t召幸\n叮人战术\t叮人戰術\n叮叮当\t叮叮噹\n叮叮当当\t叮叮噹噹\n叮叮当当的婆娘\t叮叮噹噹的婆娘\n叮当\t叮噹\n叮当作响\t叮噹作響\n叮当响\t叮噹響\n叮当声\t叮噹聲\n可了不得\t可了不得\n可于\t可於\n可仑坡\t可侖坡\n可以克制\t可以剋制\n可供参考\t可供參考\n可免于\t可免於\n可别\t可別\n可变化合价\t可變化合價\n可可托海\t可可托海\n可可托海镇\t可可托海鎮\n可叹\t可嘆\n可向\t可向\n可周\t可週\n可喜娘\t可喜娘\n可回收\t可回收\n可好了\t可好了\n可少不了\t可少不了\n可展曲面\t可展曲面\n可干制\t可乾製\n可干拭\t可乾拭\n可干饮\t可乾飲\n可当\t可當\n可怜虫\t可憐蟲\n可恶\t可惡\n可愿\t可願\n可愿意\t可願意\n可憎娘\t可憎娘\n可憎才\t可憎才\n可持续发展\t可持續發展\n可操作的艺术\t可操作的藝術\n可擦写可编程只读存储器\t可擦寫可編程只讀存儲器\n可是\t可是\n可望取胜者\t可望取勝者\n可欲\t可欲\n可紧可松\t可緊可鬆\n可结合性\t可結合性\n可转换同位素\t可轉換同位素\n可采\t可採\n可鉴\t可鑑\n台上\t臺上\n台下\t臺下\n台东\t臺東\n台东人\t臺東人\n台东区\t臺東區\n台东县\t臺東縣\n台东县长\t臺東縣長\n台东大学\t臺東大學\n台东市\t臺東市\n台东线\t臺東線\n台两\t臺兩\n台中\t臺中\n台中人\t臺中人\n台中区\t臺中區\n台中县\t臺中縣\n台中县市\t臺中縣市\n台中商专\t臺中商專\n台中场\t臺中場\n台中市\t臺中市\n台中市人\t臺中市人\n台中市文\t臺中市文\n台中师范\t臺中師範\n台中师范学院\t臺中師範學院\n台中店\t臺中店\n台中教育大学\t臺中教育大學\n台中港\t臺中港\n台中港路\t臺中港路\n台中盆地\t臺中盆地\n台中站\t臺中站\n台中讯\t臺中訊\n台企联\t臺企聯\n台企银\t臺企銀\n台佟\t臺佟\n台候\t臺候\n台儿庄\t臺兒莊\n台光\t臺光\n台军\t臺軍\n台凤\t臺鳳\n台凳\t檯凳\n台函\t臺函\n台制\t臺製\n台制品\t臺製品\n台前\t臺前\n台前县\t臺前縣\n台前台后\t臺前臺後\n台办\t臺辦\n台北\t臺北\n台北人\t臺北人\n台北区\t臺北區\n台北县\t臺北縣\n台北地院\t臺北地院\n台北场\t臺北場\n台北城\t臺北城\n台北大学\t臺北大學\n台北客\t臺北客\n台北市\t臺北市\n台北市市\t臺北市市\n台北市立\t臺北市立\n台北市长\t臺北市長\n台北市队\t臺北市隊\n台北师院\t臺北師院\n台北护专\t臺北護專\n台北捷运\t臺北捷運\n台北桥\t臺北橋\n台北港\t臺北港\n台北盆地\t臺北盆地\n台北站\t臺北站\n台北讯\t臺北訊\n台北队\t臺北隊\n台华轮\t臺華輪\n台南\t臺南\n台南人\t臺南人\n台南区\t臺南區\n台南县\t臺南縣\n台南县市\t臺南縣市\n台南大学\t臺南大學\n台南孔庙\t臺南孔廟\n台南市\t臺南市\n台南府\t臺南府\n台南站\t臺南站\n台历\t檯曆\n台压版\t臺壓版\n台台\t臺臺\n台号\t臺號\n台司\t臺司\n台后\t臺後\n台启\t臺啟\n台命\t臺命\n台和\t臺和\n台商\t臺商\n台商圈\t臺商圈\n台啤队\t臺啤隊\n台地\t臺地\n台场\t臺場\n台型\t臺型\n台城\t臺城\n台基\t臺基\n台塑\t臺塑\n台墩\t臺墩\n台大\t臺大\n台大医院\t臺大醫院\n台大学生\t臺大學生\n台女\t臺女\n台妹\t臺妹\n台委\t臺委\n台媒\t臺媒\n台子\t臺子\n台子女\t臺子女\n台子孙\t臺子孫\n台孙\t臺孫\n台孩\t臺孩\n台安\t臺安\n台安县\t臺安縣\n台客\t臺客\n台客呛辣\t臺客嗆辣\n台客舞\t臺客舞\n台尺\t臺尺\n台山\t台山\n台山市\t台山市\n台峪\t臺峪\n台州\t台州\n台州地区\t台州地區\n台州市\t台州市\n台币\t臺幣\n台布\t檯布\n台布下\t檯布下\n台师大\t臺師大\n台帘\t臺簾\n台席\t臺席\n台庆\t臺慶\n台座\t臺座\n台开\t臺開\n台式\t臺式\n台意\t臺意\n台意怒\t臺意怒\n台成\t臺成\n台扇\t檯扇\n台拉维夫\t臺拉維夫\n台指期\t臺指期\n台收\t臺收\n台数\t臺數\n台文\t臺文\n台斤\t臺斤\n台新\t臺新\n台新金\t臺新金\n台新银\t臺新銀\n台日\t臺日\n台旨\t臺旨\n台期指\t臺期指\n台本\t臺本\n台机\t臺機\n台柱\t臺柱\n台榭\t臺榭\n台槐\t臺槐\n台步\t臺步\n台水澎运\t臺水澎運\n台江\t臺江\n台江区\t臺江區\n台江县\t臺江縣\n台汽\t臺汽\n台汽客运\t臺汽客運\n台海\t臺海\n台海两岸\t臺海兩岸\n";

/// Part 36 of the text.
pub const ST_PHRASES_36: &'static str = "台港\t臺港\n台港澳侨\t臺港澳僑\n台湾\t臺灣\n台湾世界展望会\t臺灣世界展望會\n台湾人\t臺灣人\n台湾光复\t臺灣光復\n台湾光复节\t臺灣光復節\n台湾共和国\t臺灣共和國\n台湾关系法\t臺灣關係法\n台湾凤蝶\t臺灣鳳蝶\n台湾化\t臺灣化\n台湾区\t臺灣區\n台湾台\t臺灣台\n台湾史\t臺灣史\n台湾叶鼻蝠\t臺灣葉鼻蝠\n台湾味\t臺灣味\n台湾团\t臺灣團\n台湾国\t臺灣國\n台湾国语\t臺灣國語\n台湾土狗\t臺灣土狗\n台湾地区\t臺灣地區\n台湾大学\t臺灣大學\n台湾大学附属医学院\t臺灣大學附屬醫學院\n台湾女\t臺灣女\n台湾学术网路\t臺灣學術網路\n台湾岛\t臺灣島\n台湾工业技术学院\t臺灣工業技術學院\n台湾师范大学\t臺灣師範大學\n台湾心\t臺灣心\n台湾教育学院\t臺灣教育學院\n台湾散打王\t臺灣散打王\n台湾新美术运动\t臺灣新美術運動\n台湾日\t臺灣日\n台湾日日新报\t臺灣日日新報\n台湾杜鹃\t臺灣杜鵑\n台湾歌\t臺灣歌\n台湾民主自治同盟\t臺灣民主自治同盟\n台湾汽车客运公司\t臺灣汽車客運公司\n台湾海峡\t臺灣海峽\n台湾海洋大学\t臺灣海洋大學\n台湾海洋学院\t臺灣海洋學院\n台湾版\t臺灣版\n台湾犬\t臺灣犬\n台湾猕猴桃\t臺灣獼猴桃\n台湾玉\t臺灣玉\n台湾环颈雉\t臺灣環頸雉\n台湾电力\t臺灣電力\n台湾电力公司\t臺灣電力公司\n台湾电视公司\t臺灣電視公司\n台湾疗养院\t臺灣療養院\n台湾省\t臺灣省\n台湾省政府教育厅\t臺灣省政府教育廳\n台湾省政府林业试验所\t臺灣省政府林業試驗所\n台湾省政府消防处\t臺灣省政府消防處\n台湾省政府警政厅\t臺灣省政府警政廳\n台湾省政府财政厅\t臺灣省政府財政廳\n台湾省立\t臺灣省立\n台湾省议会\t臺灣省議會\n台湾社\t臺灣社\n台湾神学院\t臺灣神學院\n台湾科技大学\t臺灣科技大學\n台湾籍\t臺灣籍\n台湾米\t臺灣米\n台湾粉蝶\t臺灣粉蝶\n台湾精品\t臺灣精品\n台湾糖业公司\t臺灣糖業公司\n台湾红\t臺灣紅\n台湾经验\t臺灣經驗\n台湾肥料公司\t臺灣肥料公司\n台湾航业公司\t臺灣航業公司\n台湾艺术专科学校\t臺灣藝術專科學校\n台湾茶\t臺灣茶\n台湾菜\t臺灣菜\n台湾蓝鹊\t臺灣藍鵲\n台湾行\t臺灣行\n台湾警察专科学校\t臺灣警察專科學校\n台湾证券集中保管公司\t臺灣證券集中保管公司\n台湾话\t臺灣話\n台湾铝业\t臺灣鋁業\n台湾铝业公司\t臺灣鋁業公司\n台湾银行\t臺灣銀行\n台湾队\t臺灣隊\n台湾青年\t臺灣青年\n台湾馆\t臺灣館\n台湾高山族\t臺灣高山族\n台澎\t臺澎\n台澎金马\t臺澎金馬\n台灯\t檯燈\n台照\t臺照\n台版\t臺版\n台独\t臺獨\n台独运动\t臺獨運動\n台玻\t臺玻\n台球\t檯球\n台球桌\t檯球桌\n台甫\t臺甫\n台电\t臺電\n台电公司\t臺電公司\n台盆\t臺盆\n台盏\t臺盞\n台盘\t檯盤\n台省\t臺省\n台矶\t臺磯\n台科大\t臺科大\n台秤\t檯秤\n台站\t臺站\n台端\t臺端\n台笔\t檯筆\n台籍\t臺籍\n台糖\t臺糖\n台糖公司\t臺糖公司\n台经院\t臺經院\n台维斯杯\t臺維斯杯\n台网\t臺網\n台美\t臺美\n台联\t臺聯\n台联会\t臺聯會\n台联党\t臺聯黨\n台股\t臺股\n台肥\t臺肥\n台胜科\t臺勝科\n台胞\t臺胞\n台胞证\t臺胞證\n台航\t臺航\n台艺\t臺藝\n台艺大\t臺藝大\n台菜\t臺菜\n台菜餐厅\t臺菜餐廳\n台衔\t臺銜\n台装\t臺裝\n台装货\t臺裝貨\n台西\t臺西\n台西乡\t臺西鄉\n台视\t臺視\n台视公司\t臺視公司\n台讳\t臺諱\n台词\t臺詞\n台语\t臺語\n台语歌\t臺語歌\n台账\t臺賬\n台资\t臺資\n台车\t臺車\n台车道\t臺車道\n台辅\t臺輔\n台达\t臺達\n台达电\t臺達電\n台道里\t臺道裡\n台金\t臺金\n台鉴\t臺鑒\n台钟\t檯鐘\n台钱\t臺錢\n台钻\t臺鑽\n台铁\t臺鐵\n台铁局\t臺鐵局\n台铝\t臺鋁\n台银\t臺銀\n台长\t臺長\n台阁\t臺閣\n台阁生风\t臺閣生風\n台阶\t臺階\n台面\t檯面\n台面上\t檯面上\n台面前\t檯面前\n台音\t臺音\n台风\t颱風\n台风后\t颱風後\n台风夜\t颱風夜\n台风天\t颱風天\n台风季\t颱風季\n台风尾\t颱風尾\n台风眼\t颱風眼\n台风稳健\t臺風穩健\n台风草\t颱風草\n台风警报\t颱風警報\n台风险\t颱風險\n台风雨\t颱風雨\n台马轮\t臺馬輪\n台驾\t臺駕\n叱咤乐坛\t叱吒樂壇\n叱咤叱叱咤\t叱吒叱叱吒\n叱咤叱咤叱咤咤\t叱吒叱吒叱吒吒\n叱咤风云\t叱吒風雲\n叱嗟风云\t叱嗟風雲\n史克里亚宾\t史克里亞賓\n史冬鹏\t史冬鵬\n史勒德克\t史勒德克\n史坦尼克\t史坦尼克\n史坦布律克\t史坦布律克\n史坦布瑞纳\t史坦布瑞納\n史坦布莱纳\t史坦布萊納\n史垂克\t史垂克\n史塔克\t史塔克\n史塔克豪斯\t史塔克豪斯\n史崔克\t史崔克\n史托克\t史托克\n史托姆\t史托姆\n史托威\t史托威\n史托瑟\t史托瑟\n史托腾柏格\t史托騰柏格\n史托苏儿\t史托蘇兒\n史查克\t史查克\n史查克队\t史查克隊\n史派克李\t史派克李\n史派克特\t史派克特\n史游\t史游\n史瑞克\t史瑞克\n史瑞波妮克\t史瑞波妮克\n史瓦布\t史瓦布\n史翠克\t史翠克\n史莱克\t史萊克\n史达克\t史達克\n史迹\t史蹟\n右分枝关系从句\t右分枝關係從句\n右后\t右後\n右后卫\t右後衛\n右后方\t右後方\n右戚\t右戚\n右拐\t右拐\n右面\t右面\n叶一茜\t葉一茜\n叶丁仁\t葉丁仁\n叶下珠\t葉下珠\n叶丛\t葉叢\n叶两传\t葉兩傳\n叶亮清\t葉亮清\n叶代芝\t葉代芝\n叶伟志\t葉偉志\n叶佐禹\t葉佐禹\n叶俊凯\t葉俊凱\n叶俊荣\t葉俊榮\n叶儿\t葉兒\n叶全真\t葉全真\n叶公好龙\t葉公好龍\n叶公超\t葉公超\n叶兰\t葉蘭\n叶利钦\t葉利欽\n叶南铭\t葉南銘\n叶卡捷琳堡\t葉卡捷琳堡\n叶卡捷琳娜\t葉卡捷琳娜\n叶卡特琳娜堡\t葉卡特琳娜堡\n叶原\t葉原\n叶县\t葉縣\n叶口蝠科\t葉口蝠科\n叶可欣\t葉可欣\n叶可蓁\t葉可蓁\n叶叶\t葉葉\n叶叶琹\t葉叶琹\n叶名琛\t葉名琛\n叶君璋\t葉君璋\n叶咏捷\t葉詠捷\n叶国兴\t葉國興\n叶圣陶\t葉聖陶\n叶块繁殖\t葉塊繁殖\n叶城县\t葉城縣\n叶堂\t葉堂\n叶天士\t葉天士\n叶子\t葉子\n叶子列\t葉子列\n叶子戏\t葉子戲\n叶子杰\t葉子杰\n叶子格\t葉子格\n叶子烟\t葉子菸\n叶子纲\t葉子綱\n叶宗留\t葉宗留\n叶宗贤\t葉宗賢\n叶宜津\t葉宜津\n叶宪祖\t葉憲祖\n叶尔勤\t葉爾勤\n叶尔羌\t葉爾羌\n叶尔羌河\t葉爾羌河\n叶尔辛\t葉爾辛\n叶尖\t葉尖\n叶尼基河\t葉尼基河\n叶尼塞河\t葉尼塞河\n叶庆元\t葉慶元\n叶序\t葉序\n叶形\t葉形\n叶彦伯\t葉彥伯\n叶彰廷\t葉彰廷\n叶德辉\t葉德輝\n叶志仙\t葉志仙\n叶志远\t葉志遠\n叶恭弘\t叶恭弘\n叶惠青\t葉惠青\n叶慈\t葉慈\n叶成忠\t葉成忠\n叶拱\t葉拱\n叶挺\t葉挺\n叶政彦\t葉政彥\n叶文贵\t葉文貴\n叶斑\t葉斑\n叶斑病\t葉斑病\n叶斯沛森\t葉斯沛森\n叶昌桐\t葉昌桐\n叶明顺\t葉明順\n叶景栋\t葉景棟\n叶杰生\t葉傑生\n叶枝\t葉枝\n叶柄\t葉柄\n叶树\t葉樹\n叶树姗\t葉樹姍\n叶根吉\t葉根吉\n叶正玲\t葉正玲\n叶步梁\t葉步樑\n叶永烈\t葉永烈\n叶永骞\t葉永騫\n叶江川\t葉江川\n叶泰兴\t葉泰興\n叶泽山\t葉澤山\n叶清照\t葉清照\n叶湘伦\t葉湘倫\n";

/// Part 37 of the text.
pub const ST_PHRASES_37: &'static str = "叶炳强\t葉炳強\n叶片\t葉片\n叶片状\t葉片狀\n叶状\t葉狀\n叶状体\t葉狀體\n叶状植物\t葉狀植物\n叶王\t葉王\n叶甜菜\t葉甜菜\n叶盛兰\t葉盛蘭\n叶硕堂\t葉碩堂\n叶礼庭\t葉禮庭\n叶紫华\t葉紫華\n叶红素\t葉紅素\n叶绍锜\t葉紹錡\n叶绿体\t葉綠體\n叶绿体基质\t葉綠體基質\n叶绿素\t葉綠素\n叶缘\t葉緣\n叶美君\t葉美君\n叶羿君\t葉羿君\n叶耳\t葉耳\n叶肉\t葉肉\n叶肥\t葉肥\n叶脉\t葉脈\n叶脉序\t葉脈序\n叶脤\t葉脤\n叶腋\t葉腋\n叶舌\t葉舌\n叶芽\t葉芽\n叶茎\t葉莖\n叶菊兰\t葉菊蘭\n叶菜类\t葉菜類\n叶落归根\t葉落歸根\n叶落归秋\t葉落歸秋\n叶落知秋\t葉落知秋\n叶落粪本\t葉落糞本\n叶蕴仪\t葉蘊儀\n叶蜂\t葉蜂\n叶蜡石\t葉蠟石\n叶蝉\t葉蟬\n叶语\t葉語\n叶赛莺\t葉賽鶯\n叶赤铁路\t葉赤鐵路\n叶轮\t葉輪\n叶轮机械\t葉輪機械\n叶轴\t葉軸\n叶迹\t葉跡\n叶适\t葉適\n叶选平\t葉選平\n叶酸\t葉酸\n叶金川\t葉金川\n叶针\t葉針\n叶锈病\t葉鏽病\n叶长龙\t葉長龍\n叶门\t葉門\n叶门共和国\t葉門共和國\n叶闲花\t葉閒花\n叶面\t葉面\n叶面对称\t葉面對稱\n叶面施肥\t葉面施肥\n叶鞘\t葉鞘\n叶音\t叶音\n叶韵\t叶韻\n叶黄素\t葉黃素\n叶鼻蝠\t葉鼻蝠\n号寒啼饥\t號寒啼飢\n号志\t號誌\n号志机\t號誌機\n号志灯\t號誌燈\n号挂子\t號掛子\n号板\t號板\n号码布\t號碼布\n号舍\t號舍\n司令台\t司令臺\n司天台\t司天臺\n司法制度\t司法制度\n叹为\t嘆為\n叹为观止\t歎為觀止\n叹之\t嘆之\n叹了\t嘆了\n叹号\t歎號\n叹吁\t歎吁\n叹喟\t嘆喟\n叹声\t嘆聲\n叹息\t嘆息\n叹惋\t嘆惋\n叹惜\t嘆惜\n叹曰\t嘆曰\n叹服\t歎服\n叹气\t嘆氣\n叹绝\t歎絕\n叹羡\t歎羨\n叹老\t嘆老\n叹词\t嘆詞\n叹赏\t歎賞\n叹道\t嘆道\n吁了\t吁了\n吁俞\t吁俞\n吁叹\t吁嘆\n吁吁\t吁吁\n吁咈\t吁咈\n吁咈都俞\t吁咈都俞\n吁嗟\t吁嗟\n吁嘘\t吁噓\n吁天\t籲天\n吁气\t吁氣\n吁求\t籲求\n吁请\t籲請\n吃一顿挨一顿\t吃一頓挨一頓\n吃不了\t吃不了\n吃不出\t吃不出\n吃不出来\t吃不出來\n吃了\t吃了\n吃了定心丸\t吃了定心丸\n吃了秤砣\t吃了秤砣\n吃了蜜蜂儿屎似的\t吃了蜜蜂兒屎似的\n吃了饭\t吃了飯\n吃亏上当\t吃虧上當\n吃亏就是占便宜\t吃虧就是佔便宜\n吃亏的是乖占便宜的是呆\t吃虧的是乖占便宜的是呆\n吃人一个蛋恩情无法断\t吃人一個蛋恩情無法斷\n吃人虫\t吃人蟲\n吃伤了\t吃傷了\n吃几碗干饭\t吃幾碗乾飯\n吃出\t吃出\n吃合家欢\t吃合家歡\n吃后悔药\t吃後悔藥\n吃回头草\t吃回頭草\n吃地面\t吃地面\n吃姜\t吃薑\n吃完面\t吃完麵\n吃尽\t吃盡\n吃尽当光\t吃盡當光\n吃干了\t吃乾了\n吃干醋\t吃乾醋\n吃得了\t吃得了\n吃得出\t吃得出\n吃得出来\t吃得出來\n吃挂络儿\t吃掛絡兒\n吃敲才\t吃敲才\n吃板刀面\t吃板刀麵\n吃枪药\t吃槍藥\n吃烟\t吃煙\n吃药\t吃藥\n吃药前\t吃藥前\n吃药后\t吃藥後\n吃药时\t吃藥時\n吃豆干\t吃豆乾\n吃辣面\t吃辣麵\n吃过面\t吃過麵\n吃里扒外\t吃裡扒外\n吃里爬外\t吃裡爬外\n吃钉板\t吃釘板\n吃错药\t吃錯藥\n吃闲话\t吃閒話\n吃闲饭\t吃閒飯\n吃面\t吃麵\n吃饭别忘了种谷人\t吃飯別忘了種穀人\n吃饭家伙\t吃飯傢伙\n吃饱了饭撑的\t吃飽了飯撐的\n吃饱没事干\t吃飽沒事幹\n各不相同\t各不相同\n各个\t各個\n各个击破\t各個擊破\n各人儿洗面儿各人儿光\t各人兒洗面兒各人兒光\n各从其志\t各從其志\n各借\t各借\n各党\t各黨\n各党派\t各黨派\n各出\t各出\n各别\t各別\n各升\t各升\n各厂\t各廠\n各发\t各發\n各吊\t各吊\n各向\t各向\n各向异性\t各向異性\n各回\t各回\n各回合\t各回合\n各团\t各團\n各团体\t各團體\n各如其面\t各如其面\n各尽\t各盡\n各尽其用\t各盡其用\n各尽所能\t各盡所能\n各干各\t各幹各\n各当\t各當\n各念\t各念\n各打五十板\t各打五十板\n各方面\t各方面\n各有千秋\t各有千秋\n各有胜负\t各有勝負\n各版面\t各版面\n各种\t各種\n各种事\t各種事\n各种人\t各種人\n各种各样\t各種各樣\n各种颜色\t各種顏色\n各签\t各簽\n各类钟\t各類鐘\n各系\t各系\n各系所\t各系所\n各级党委\t各級黨委\n各胜\t各勝\n各行其志\t各行其志\n各谋出路\t各謀出路\n各辟\t各闢\n各辟蹊径\t各闢蹊徑\n各里\t各里\n各院系\t各院系\n各须\t各須\n合上\t合上\n合下\t合下\n合不合\t合不合\n合不拢嘴\t合不攏嘴\n合不来\t合不來\n合中\t閤中\n合为\t合為\n合久必分\t合久必分\n合义复词\t合義複詞\n合乎\t合乎\n合乎逻辑\t合乎邏輯\n合于\t合於\n合于时宜\t合于時宜\n合从\t合從\n合付\t合付\n合众\t合眾\n合众为一\t合眾為一\n合众国\t合眾國\n合众国际社\t合眾國際社\n合众社\t合眾社\n合众银行\t合眾銀行\n合伙\t合夥\n合伙人\t合夥人\n合会\t合會\n合传\t合傳\n合住\t合住\n合体\t合體\n合体字\t合體字\n合作\t合作\n合作主义\t合作主義\n合作伙伴\t合作伙伴\n合作农场\t合作農場\n合作化\t合作化\n合作协议\t合作協議\n合作商店\t合作商店\n合作学\t合作學\n合作市\t合作市\n合作所\t合作所\n合作无懈\t合作無懈\n合作无间\t合作無間\n合作案\t合作案\n合作社\t合作社\n合作社里\t合作社裡\n合作署\t合作署\n合作者\t合作者\n合作节\t合作節\n合作金库\t合作金庫\n合借\t合借\n合做\t合做\n合儿\t閤兒\n合八字\t合八字\n合养\t合養\n合准\t合準\n合出\t合出\n合击\t合擊\n合刃\t合刃\n合则两利\t合則兩利\n合到\t合到\n合券\t合券\n合刻\t合刻\n合剂\t合劑\n合力\t合力\n合办\t合辦\n合十\t合十\n合卺\t合巹\n合历\t合曆\n合发\t合發\n合变\t合變\n合口\t合口\n合口元音\t合口元音\n合口味\t合口味\n合口呼\t合口呼\n合叶\t合葉\n合吃\t合吃\n合吃族\t合吃族\n合合\t合合\n合同\t合同\n合同各方\t合同各方\n合同文字\t合同文字\n合同法\t合同法\n合后\t合後\n合唱\t合唱\n合唱团\t合唱團\n合唱曲\t合唱曲\n合唱队\t合唱隊\n合嘴合舌\t合嘴合舌\n合四乙尺工\t合四乙尺工\n合围\t合圍\n合在\t合在\n合在一起\t合在一起\n合声\t合聲\n合夥人\t合夥人\n合头\t合頭\n合奏\t合奏\n合奏团\t合奏團\n合奏曲\t合奏曲\n合契若神\t合契若神\n合好\t合好\n合婚\t合婚\n合子\t合子\n合子钱\t合子錢\n合子饼\t合子餅\n合宅\t合宅\n合定\t合定\n合宜\t合宜\n合家\t閤家\n合家大小\t合家大小\n合家子\t閤家子\n合家欢\t閤家歡\n合局\t合局\n合山市\t合山市\n合川区\t合川區\n合并\t合併\n合并为\t合併為\n合并在\t合併在\n合并成\t合併成\n合并有\t合併有\n合并案\t合併案\n合并症\t合併症\n合府\t閤府\n合府上\t閤府上\n合度\t合度\n合式\t合式\n合弦\t合弦\n合弹\t合彈\n合当\t合當\n合当有事\t合當有事\n合彩\t合彩\n合影\t合影\n合影留念\t合影留念\n合得\t合得\n合得来\t合得來\n合心\t合心\n合心合意\t合心合意\n合恩角\t合恩角\n合情\t合情\n合情合理\t合情合理\n合情理\t合情理\n合意\t合意\n合意儿\t合意兒\n合成\t合成\n合成乐器\t合成樂器\n合成乳\t合成乳\n合成代谢\t合成代謝\n合成体\t合成體\n合成作用\t合成作用\n合成器\t合成器\n";

/// Part 38 of the text.
pub const ST_PHRASES_38: &'static str = "合成数\t合成數\n合成染料\t合成染料\n合成树脂\t合成樹脂\n合成橡胶\t合成橡膠\n合成氨\t合成氨\n合成法\t合成法\n合成洗涤\t合成洗滌\n合成洗涤剂\t合成洗滌劑\n合成清洁剂\t合成清潔劑\n合成物\t合成物\n合成皮\t合成皮\n合成石油\t合成石油\n合成类固醇\t合成類固醇\n合成纤维\t合成纖維\n合成色素\t合成色素\n合成词\t合成詞\n合成语境\t合成語境\n合成语音\t合成語音\n合战\t合戰\n合手\t合手\n合扑\t合撲\n合折\t合折\n合报\t合報\n合抱\t合抱\n合拍\t合拍\n合拢\t合攏\n合指症\t合指症\n合掌\t合掌\n合掌瓜\t合掌瓜\n合数\t合數\n合族\t合族\n合时\t合時\n合时宜\t合時宜\n合昏\t合昏\n合是\t合是\n合朔\t合朔\n合本\t合本\n合机\t合機\n合杀\t合殺\n合板\t合板\n合板眼\t合板眼\n合校\t合校\n合格\t合格\n合格率\t合格率\n合格者\t合格者\n合格证\t合格證\n合格赛\t合格賽\n合欢\t合歡\n合欢山\t合歡山\n合欢扇\t合歡扇\n合欢结\t合歡結\n合款\t合款\n合气\t合氣\n合气道\t合氣道\n合水县\t合水縣\n合江县\t合江縣\n合江省\t合江省\n合沓\t合沓\n合法\t合法\n合法化\t合法化\n合法性\t合法性\n合法斗争\t合法鬥爭\n合注\t合注\n合洗\t合洗\n合派\t合派\n合流\t合流\n合流处\t合流處\n合浦县\t合浦縣\n合浦珠还\t合浦珠還\n合浦还珠\t合浦還珠\n合溜\t合溜\n合演\t合演\n合火\t合火\n合照\t合照\n合照留念\t合照留念\n合牵\t合牽\n合独\t合獨\n合班\t合班\n合球\t合球\n合理\t合理\n合理化\t合理化\n合理化作用\t合理化作用\n合理合情\t合理合情\n合理密植\t合理密植\n合理布局\t合理佈局\n合理性\t合理性\n合理标\t合理標\n合理错误\t合理錯誤\n合璧\t合璧\n合璧连珠\t合璧連珠\n合瓣\t合瓣\n合瓣花冠\t合瓣花冠\n合生\t合生\n合用\t合用\n合盖\t合蓋\n合眼\t閤眼\n合眼摸象\t合眼摸象\n合着\t合著\n合租\t合租\n合稀释\t合稀釋\n合窆\t合窆\n合站\t合站\n合符\t合符\n合签\t合簽\n合算\t合算\n合纤\t合纖\n合约\t合約\n合约书\t合約書\n合约人\t合約人\n合约价\t合約價\n合约法\t合約法\n合纵\t合縱\n合纵连横\t合縱連橫\n合组\t合組\n合编\t合編\n合缝\t合縫\n合群\t合群\n合群性\t合群性\n合而为一\t合而為一\n合股\t合股\n合肥\t合肥\n合肥人\t合肥人\n合肥县\t合肥縣\n合肥工业大学\t合肥工業大學\n合肥市\t合肥市\n合胃口\t合胃口\n合色鞋\t合色鞋\n合苦\t合苦\n合菜戴帽\t合菜戴帽\n合营\t合營\n合著\t合著\n合著者\t合著者\n合葬\t合葬\n合补\t合補\n合计\t合計\n合计为\t合計為\n合订本\t合訂本\n合议制\t合議制\n合议庭\t合議庭\n合该\t合該\n合该有事\t合該有事\n合请\t合請\n合读\t合讀\n合调\t合調\n合谋\t合謀\n合谐\t合諧\n合谷\t合谷\n合谷穴\t合谷穴\n合购\t合購\n合资\t合資\n合资案\t合資案\n合起\t合起\n合起来\t合起來\n合踢\t合踢\n合踩\t合踩\n合身\t合身\n合辙\t合轍\n合辙儿\t合轍兒\n合辙押韵\t合轍押韻\n合适\t合適\n合通\t合通\n合造\t合造\n合逻辑\t合邏輯\n合遝\t合遝\n合醵\t合醵\n合采\t合採\n合金\t合金\n合金元素\t合金元素\n合金钢\t合金鋼\n合钓\t合釣\n合锯\t合鋸\n合镜\t合鏡\n合闸\t合閘\n合阳县\t合陽縣\n合零为整\t合零為整\n合面\t合面\n合音\t合音\n合领\t合領\n合骑\t合騎\n合髻\t合髻\n合龙\t合龍\n合龙门\t合龍門\n吉丁当\t咭叮噹\n吉伯特氏症候群\t吉伯特氏症候群\n吉凶\t吉凶\n吉凶庆吊\t吉凶慶弔\n吉凶悔吝\t吉凶悔吝\n吉凶未卜\t吉凶未卜\n吉卜力工作室\t吉卜力工作室\n吉卜赛\t吉卜賽\n吉卜赛人\t吉卜賽人\n吉卜龄\t吉卜齡\n吉占\t吉占\n吉尔库克\t吉爾庫克\n吉尼普里\t吉尼普里\n吉布兹\t吉布茲\n吉布地\t吉布地\n吉布地共和国\t吉布地共和國\n吉布提\t吉布提\n吉布森\t吉布森\n吉普斯夸\t吉普斯夸\n吉林师范大学\t吉林師範大學\n吉田松阴\t吉田松陰\n吉蔑\t吉蔑\n吉蔑族\t吉蔑族\n吉诺布里\t吉諾布里\n吉里\t吉里\n吉里巴斯\t吉里巴斯\n吉里巴斯共和国\t吉里巴斯共和國\n吊上\t吊上\n吊上去\t吊上去\n吊上来\t吊上來\n吊下\t吊下\n吊下去\t吊下去\n吊下来\t吊下來\n吊丧\t弔喪\n吊丧问疾\t弔喪問疾\n吊个\t吊個\n吊书\t弔書\n吊了\t吊了\n吊伐\t吊伐\n吊儿郎当\t吊兒郎當\n吊兰\t吊蘭\n吊具\t吊具\n吊刑\t吊刑\n吊到\t吊到\n吊卷\t吊卷\n吊去\t吊去\n吊取\t吊取\n吊古\t弔古\n吊古寻幽\t弔古尋幽\n吊吊\t吊吊\n吊名\t吊名\n吊唁\t弔唁\n吊喉\t弔喉\n吊喭\t弔喭\n吊嗓\t吊嗓\n吊嗓子\t吊嗓子\n吊嘴\t吊嘴\n吊场\t吊場\n吊坠\t吊墜\n吊塔\t吊塔\n吊头\t弔頭\n吊奠\t弔奠\n吊好\t吊好\n吊子\t吊子\n吊子曰儿\t吊子曰兒\n吊孝\t弔孝\n吊客\t弔客\n吊客眉\t弔客眉\n吊宴\t弔宴\n吊带\t吊帶\n吊带衫\t吊帶衫\n吊带裤\t吊帶褲\n吊床\t吊牀\n吊影\t弔影\n吊得\t吊得\n吊慰\t弔慰\n吊扇\t吊扇\n吊打\t吊打\n吊扣\t吊扣\n吊拷\t弔拷\n吊拷絣把\t吊拷絣把\n吊拷绷扒\t吊拷繃扒\n吊挂\t吊掛\n吊挂在\t吊掛在\n吊挂着\t吊掛著\n吊撒\t弔撒\n吊放声纳\t吊放聲納\n吊文\t弔文\n吊斗\t吊斗\n吊旗\t弔旗\n吊杆\t吊杆\n吊杠\t吊槓\n吊来吊去\t吊來吊去\n吊架\t吊架\n吊档裤\t吊檔褲\n吊桥\t吊橋\n吊桶\t吊桶\n吊桶落在井里\t吊桶落在井裡\n吊楼\t吊樓\n吊死\t吊死\n吊死问孤\t弔死問孤\n吊死问疾\t弔死問疾\n吊死鬼\t吊死鬼\n吊死鬼搽粉\t吊死鬼搽粉\n吊死鬼的裹脚布\t吊死鬼的裹腳布\n吊毛\t吊毛\n吊民\t弔民\n吊民伐罪\t弔民伐罪\n吊水\t吊水\n吊灯\t吊燈\n吊环\t吊環\n吊球\t吊球\n吊瓶族\t吊瓶族\n吊盘\t吊盤\n吊着\t吊著\n吊祭\t弔祭\n吊稍\t吊稍\n吊窗\t吊窗\n吊篮\t吊籃\n吊索\t吊索\n吊纸\t弔紙\n吊线\t吊線\n吊绳\t吊繩\n吊者大悦\t弔者大悅\n吊胃口\t吊胃口\n吊脚\t吊腳\n吊脚儿\t吊腳兒\n吊脚儿事\t弔腳兒事\n吊腰撒跨\t弔腰撒跨\n吊膀子\t吊膀子\n吊臂\t吊臂\n吊衣架\t吊衣架\n吊袜\t吊襪\n吊袜带\t吊襪帶\n吊装\t吊裝\n吊裤\t吊褲\n吊裤带\t吊褲帶\n吊誉沽名\t吊譽沽名\n吊词\t弔詞\n吊诡\t弔詭\n吊诡矜奇\t弔詭矜奇\n吊谎\t弔謊\n吊贺迎送\t弔賀迎送\n吊走\t吊走\n吊起\t吊起\n吊起来\t吊起來\n吊车\t吊車\n吊车尾\t吊車尾\n吊运\t吊運\n吊钟\t吊鐘\n吊钢丝\t吊鋼絲\n吊钩\t吊鉤\n吊铺\t吊鋪\n吊销\t吊銷\n吊销执照\t吊銷執照\n吊门\t吊門\n吊问\t弔問\n吊颈\t吊頸\n吊饰\t吊飾\n吊鹤\t弔鶴\n同一\t同一\n同一个\t同一個\n同一个世界同一个梦想\t同一個世界同一個夢想\n同一人\t同一人\n同一场\t同一場\n同一型\t同一型\n同一处\t同一處\n同一家\t同一家\n同一年\t同一年\n同一座\t同一座\n同一性\t同一性\n同一所\t同一所\n同一片\t同一片\n同一班\t同一班\n同一组\t同一組\n同上\t同上\n同下\t同下\n同不同意\t同不同意\n同业\t同業\n同业公会\t同業公會\n同业拆借\t同業拆借\n同个\t同個\n同中有异\t同中有異\n同为\t同為\n同义\t同義\n同义反复\t同義反復\n同义字\t同義字\n同义词\t同義詞\n同义语\t同義語\n同乐\t同樂\n同乐会\t同樂會\n同乡\t同鄉\n同乡亲故\t同鄉親故\n同乡会\t同鄉會\n同事\t同事\n同事家\t同事家\n同于\t同於\n";

/// Part 39 of the text.
pub const ST_PHRASES_39: &'static str = "同产\t同產\n同享\t同享\n同人\t同人\n同人女\t同人女\n同人志\t同人誌\n同仁\t同仁\n同仁县\t同仁縣\n同仁堂\t同仁堂\n同仇\t同仇\n同仇敌忾\t同仇敵愾\n同休共戚\t同休共戚\n同伙\t同夥\n同传耳麦\t同傳耳麥\n同伴\t同伴\n同位\t同位\n同位素\t同位素\n同位素分离\t同位素分離\n同位素扫描\t同位素掃描\n同位角\t同位角\n同位语\t同位語\n同住\t同住\n同体\t同體\n同余\t同餘\n同余式\t同餘式\n同余类\t同餘類\n同侪\t同儕\n同侪压力\t同儕壓力\n同侪团体\t同儕團體\n同侪审查\t同儕審查\n同侪扶持\t同儕扶持\n同侪检视\t同儕檢視\n同侪谘商\t同儕諮商\n同修\t同修\n同做\t同做\n同僚\t同僚\n同光\t同光\n同党\t同黨\n同出\t同出\n同出一源\t同出一源\n同出一脉\t同出一脈\n同出同进\t同出同進\n同分\t同分\n同分异构体\t同分異構體\n同分异构物\t同分異構物\n同分数\t同分數\n同列\t同列\n同到\t同到\n同功一体\t同功一體\n同动词\t同動詞\n同化\t同化\n同化作用\t同化作用\n同区\t同區\n同升\t同升\n同卵\t同卵\n同卵双生\t同卵雙生\n同卵双胞胎\t同卵雙胞胎\n同去\t同去\n同县\t同縣\n同参\t同參\n同右\t同右\n同号\t同號\n同吃\t同吃\n同吃同住\t同吃同住\n同名\t同名\n同名之累\t同名之累\n同名同姓\t同名同姓\n同名数\t同名數\n同向\t同向\n同命\t同命\n同命鸟\t同命鳥\n同命鸳鸯\t同命鴛鴦\n同唱\t同唱\n同喜\t同喜\n同团\t同團\n同国\t同國\n同在\t同在\n同地\t同地\n同坐\t同坐\n同型\t同型\n同型性\t同型性\n同型机\t同型機\n同型配子\t同型配子\n同堂\t同堂\n同声\t同聲\n同声一哭\t同聲一哭\n同声之谊\t同聲之誼\n同声传译\t同聲傳譯\n同声异俗\t同聲異俗\n同声相应\t同聲相應\n同声翻译\t同聲翻譯\n同天\t同天\n同好\t同好\n同姓\t同姓\n同姓同名\t同姓同名\n同字框\t同字框\n同学\t同學\n同学们\t同學們\n同学会\t同學會\n同学家\t同學家\n同学录\t同學錄\n同学路\t同學路\n同安\t同安\n同安区\t同安區\n同安县\t同安縣\n同安街\t同安街\n同宗\t同宗\n同宗同气\t同宗同氣\n同定\t同定\n同室\t同室\n同室操戈\t同室操戈\n同宿\t同宿\n同寅\t同寅\n同对\t同對\n同尘\t同塵\n同居\t同居\n同居人\t同居人\n同居各爨\t同居各爨\n同屋\t同屋\n同属\t同屬\n同岁\t同歲\n同州梆子\t同州梆子\n同工\t同工\n同工同酬\t同工同酬\n同工异曲\t同工異曲\n同工异调\t同工異調\n同左\t同左\n同席\t同席\n同年\t同年\n同年代\t同年代\n同年同月\t同年同月\n同年级\t同年級\n同年而语\t同年而語\n同庆\t同慶\n同床\t同牀\n同床各梦\t同牀各夢\n同床异梦\t同牀異夢\n同庚\t同庚\n同度\t同度\n同座\t同座\n同异\t同異\n同张\t同張\n同归\t同歸\n同归于尽\t同歸於盡\n同归殊途\t同歸殊途\n同当\t同當\n同形词\t同形詞\n同往\t同往\n同德\t同德\n同德县\t同德縣\n同德同心\t同德同心\n同心\t同心\n同心僇力\t同心僇力\n同心协力\t同心協力\n同心县\t同心縣\n同心合力\t同心合力\n同心合意\t同心合意\n同心同德\t同心同德\n同心圆\t同心圓\n同心圆理论\t同心圓理論\n同心并力\t同心並力\n同心戮力\t同心戮力\n同心断金\t同心斷金\n同心方胜儿\t同心方勝兒\n同心结\t同心結\n同心髻\t同心髻\n同志\t同志\n同志合道\t同志合道\n同志天地\t同志天地\n同志酒吧\t同志酒吧\n同忧相救\t同憂相救\n同态\t同態\n同性\t同性\n同性恋\t同性戀\n同性恋恐惧症\t同性戀恐懼症\n同性恋者\t同性戀者\n同性恋酒吧\t同性戀酒吧\n同性爱\t同性愛\n同性相斥\t同性相斥\n同恩\t同恩\n同恶相助\t同惡相助\n同恶相救\t同惡相救\n同恶相求\t同惡相求\n同恶相济\t同惡相濟\n同情\t同情\n同情心\t同情心\n同情者\t同情者\n同意\t同意\n同意书\t同意書\n同意权\t同意權\n同意案\t同意案\n同意票\t同意票\n同感\t同感\n同愿\t同願\n同房\t同房\n同房兄弟\t同房兄弟\n同房里\t同房裡\n同手同脚\t同手同腳\n同打\t同打\n同指\t同指\n同排\t同排\n同支\t同支\n同改\t同改\n同文\t同文\n同文同种\t同文同種\n同文算指\t同文算指\n同文韵统\t同文韻統\n同文馆\t同文館\n同斜层\t同斜層\n同方\t同方\n同旁内角\t同旁內角\n同族\t同族\n同日\t同日\n同日生\t同日生\n同日而言\t同日而言\n同日而语\t同日而語\n同时\t同時\n同时代\t同時代\n同时候\t同時候\n同时期\t同時期\n同时语言学\t同時語言學\n同是\t同是\n同是天涯沦落人\t同是天涯淪落人\n同月\t同月\n同月同日\t同月同日\n同有\t同有\n同期\t同期\n同期录音\t同期錄音\n同机\t同機\n同村\t同村\n同条共贯\t同條共貫\n同来\t同來\n同来同往\t同來同往\n同构\t同構\n同枕共眠\t同枕共眠\n同林鸟\t同林鳥\n同校\t同校\n同样\t同樣\n同样会\t同樣會\n同样在\t同樣在\n同样地\t同樣地\n同样是\t同樣是\n同根\t同根\n同案\t同案\n同案犯\t同案犯\n同桌\t同桌\n同梦\t同夢\n同梯\t同梯\n同榜\t同榜\n同榻\t同榻\n同欢\t同歡\n同欢同赏\t同歡同賞\n同款\t同款\n同正\t同正\n同步\t同步\n同步传输\t同步傳輸\n同步加速器\t同步加速器\n同步卫星\t同步衛星\n同步录音\t同步錄音\n同步数位阶层\t同步數位階層\n同步电动\t同步電動\n同步辐射仪\t同步輻射儀\n同步辐射加速器\t同步輻射加速器\n同步辐射研究中心\t同步輻射研究中心\n同步进行\t同步進行\n同母\t同母\n同母异父\t同母異父\n同气\t同氣\n同气之光\t同氣之光\n同气之情\t同氣之情\n同气相求\t同氣相求\n同气连枝\t同氣連枝\n同江\t同江\n同江市\t同江市\n同治\t同治\n同派\t同派\n同流合污\t同流合污\n同济\t同濟\n同济会\t同濟會\n同济医科大学\t同濟醫科大學\n同济大学\t同濟大學\n同渡\t同渡\n同温\t同溫\n同温同压\t同溫同壓\n同温层\t同溫層\n同游\t同遊\n同源\t同源\n同源词\t同源詞\n同点\t同點\n同爨\t同爨\n同父\t同父\n同父异母\t同父異母\n同班\t同班\n同班同学\t同班同學\n同理\t同理\n同理可证\t同理可證\n同理心\t同理心\n同甘共苦\t同甘共苦\n同甘同苦\t同甘同苦\n同甘苦\t同甘苦\n同生\t同生\n同生共死\t同生共死\n同生死\t同生死\n同用\t同用\n同甲\t同甲\n同病相怜\t同病相憐\n同盖\t同蓋\n同盟\t同盟\n同盟会\t同盟會\n同盟会宣言\t同盟會宣言\n同盟党\t同盟黨\n同盟军\t同盟軍\n同盟国\t同盟國\n同盟条约\t同盟條約\n同盟罢工\t同盟罷工\n同盟者\t同盟者\n同省\t同省\n同知\t同知\n同砚\t同硯\n同种\t同種\n同科\t同科\n同穴\t同穴\n同窗\t同窗\n同窗夜语\t同窗夜語\n同窗契友\t同窗契友\n同站\t同站\n同章\t同章\n同符合契\t同符合契\n同等\t同等\n同等学力\t同等學力\n同等学历\t同等學歷\n同篇\t同篇\n同类\t同類\n同类产品\t同類產品\n同类意识\t同類意識\n同类相吸\t同類相吸\n同类相呼\t同類相呼\n同类相残\t同類相殘\n同类相求\t同類相求\n同类相聚\t同類相聚\n同类相食\t同類相食\n同类色\t同類色\n同类项\t同類項\n同系\t同系\n同素异形\t同素異形\n同素异形体\t同素異形體\n同素异性\t同素異性\n";

/// Part 40 of the text.
pub const ST_PHRASES_40: &'static str = "同素异性体\t同素異性體\n同约\t同約\n同级\t同級\n同级评审\t同級評審\n同级车\t同級車\n同线\t同線\n同组\t同組\n同缘同相\t同緣同相\n同罗杯\t同羅杯\n同罪\t同罪\n同翅目\t同翅目\n同考官\t同考官\n同职\t同職\n同胞\t同胞\n同胞兄妹\t同胞兄妹\n同胞兄弟\t同胞兄弟\n同胞共乳\t同胞共乳\n同胞双生\t同胞雙生\n同胞爱\t同胞愛\n同致\t同致\n同舍生\t同舍生\n同舟之谊\t同舟之誼\n同舟共济\t同舟共濟\n同舟而济\t同舟而濟\n同船济水\t同船濟水\n同色\t同色\n同行\t同行\n同行同业\t同行同業\n同行相忌\t同行相忌\n同行语\t同行語\n同衾共枕\t同衾共枕\n同衾帱\t同衾幬\n同袍\t同袍\n同袍同泽\t同袍同澤\n同被\t同被\n同襟\t同襟\n同见同知\t同見同知\n同言线\t同言線\n同订\t同訂\n同论\t同論\n同语线\t同語線\n同调\t同調\n同谋\t同謀\n同谋者\t同謀者\n同谱\t同譜\n同质\t同質\n同质性\t同質性\n同走\t同走\n同起同坐\t同起同坐\n同跑\t同跑\n同路\t同路\n同路人\t同路人\n同车\t同車\n同轨\t同軌\n同轨同文\t同軌同文\n同轴\t同軸\n同轴圆\t同軸圓\n同轴圆弧\t同軸圓弧\n同轴电缆\t同軸電纜\n同辈\t同輩\n同边\t同邊\n同达\t同達\n同过\t同過\n同进\t同進\n同进同出\t同進同出\n同进士出身\t同進士出身\n同道\t同道\n同道者\t同道者\n同配生殖\t同配生殖\n同酬\t同酬\n同里\t同里\n同重\t同重\n同量\t同量\n同量异位素\t同量異位素\n同长\t同長\n同门\t同門\n同门友\t同門友\n同门异户\t同門異戶\n同队\t同隊\n同音\t同音\n同音字\t同音字\n同音词\t同音詞\n同韵词\t同韻詞\n同项\t同項\n同题\t同題\n同高\t同高\n同龄\t同齡\n同龄人\t同齡人\n同龄林\t同齡林\n名不当实\t名不當實\n名义价值\t名義價值\n名人录\t名人錄\n名噪\t名噪\n名坛\t名壇\n名垂后世\t名垂後世\n名垂罔极\t名垂罔極\n名复金瓯\t名覆金甌\n名山胜境\t名山勝境\n名师出高徒\t名師出高徒\n名录\t名錄\n名录服务\t名錄服務\n名曲\t名曲\n名望体面\t名望體面\n名次表\t名次表\n名种\t名種\n名称标签\t名稱標籤\n名系\t名系\n名胄\t名胄\n名胜\t名勝\n名胜古迹\t名勝古蹟\n名臣言行录\t名臣言行錄\n名表\t名錶\n名言录\t名言錄\n名重识暗\t名重識暗\n名鉴\t名鑑\n名门之后\t名門之後\n名闻于世\t名聞於世\n后七子\t後七子\n后上\t後上\n后上去\t後上去\n后上来\t後上來\n后下\t後下\n后下去\t後下去\n后下来\t後下來\n后不为例\t後不為例\n后世\t後世\n后两者\t後兩者\n后丰\t后豐\n后为\t後為\n后主\t後主\n后事\t後事\n后事之师\t後事之師\n后于\t後於\n后人\t後人\n后人乘凉\t後人乘涼\n后代\t後代\n后代子孙\t後代子孫\n后仰\t後仰\n后仰前合\t後仰前合\n后件\t後件\n后任\t後任\n后会\t後會\n后会可期\t後會可期\n后会无期\t後會無期\n后会有期\t後會有期\n后会难期\t後會難期\n后传\t後傳\n后作\t後作\n后侧\t後側\n后信号灯\t後信號燈\n后偏\t後偏\n后像\t後像\n后儿\t後兒\n后元音\t後元音\n后先辉映\t後先輝映\n后冠\t后冠\n后冷战\t後冷戰\n后冷战时代\t後冷戰時代\n后凉\t後涼\n后凋\t後凋\n后分\t後分\n后到\t後到\n后制\t後製\n后力不继\t後力不繼\n后加\t後加\n后加成分\t後加成分\n后劲\t後勁\n后劲溪\t後勁溪\n后势\t後勢\n后勤\t後勤\n后勤人员\t後勤人員\n后勤区\t後勤區\n后勤学\t後勤學\n后勤部\t後勤部\n后北街\t后北街\n后区\t後區\n后医系\t後醫系\n后半\t後半\n后半世\t後半世\n后半叶\t後半葉\n后半场\t後半場\n后半夜\t後半夜\n后半天\t後半天\n后半季\t後半季\n后半晌\t後半晌\n后半期\t後半期\n后半段\t後半段\n后半部\t後半部\n后卫\t後衛\n后印\t後印\n后印象主义\t後印象主義\n后去\t後去\n后发先至\t後發先至\n后发制人\t後發制人\n后发座\t后髮座\n后台\t後臺\n后台老板\t後臺老闆\n后叶\t後葉\n后合前仰\t後合前仰\n后后\t後後\n后向\t後向\n后周\t後周\n后味\t後味\n后命\t後命\n后哨\t後哨\n后唐\t後唐\n后嗣\t後嗣\n后园\t後園\n后图\t後圖\n后土\t后土\n后场\t後場\n后坐\t後坐\n后坐力\t後坐力\n后埔\t後埔\n后堂\t後堂\n后壁\t後壁\n后壁乡\t後壁鄉\n后壁湖\t後壁湖\n后备\t後備\n后备军\t後備軍\n后备军人\t後備軍人\n后备部\t後備部\n后天\t後天\n后天免疫\t後天免疫\n后天免疫缺乏症候群\t後天免疫缺乏症候群\n后天性\t後天性\n后夫\t後夫\n后头\t後頭\n后奏\t後奏\n后奏曲\t後奏曲\n后妃\t后妃\n后妈\t後媽\n后妻\t後妻\n后娘\t後娘\n后婚\t後婚\n后婚儿\t後婚兒\n后嫁\t後嫁\n后学\t後學\n后学儿\t後學兒\n后安路\t后安路\n后实先声\t後實先聲\n后宫\t後宮\n后尘\t後塵\n后尧婆\t後堯婆\n后尾\t後尾\n后尾儿\t後尾兒\n后山\t後山\n后巷\t後巷\n后巷前街\t後巷前街\n后市\t後市\n后帝\t后帝\n后平路\t后平路\n后年\t後年\n后广告纪元\t後廣告紀元\n后庄\t後莊\n后序\t後序\n后座\t後座\n后座力\t後座力\n后座系\t後座繫\n后庭\t後庭\n后庭花\t後庭花\n后弦\t後弦\n后影\t後影\n后心\t後心\n后怕\t後怕\n后恭前倨\t後恭前倨\n后悔\t後悔\n后悔不及\t後悔不及\n后悔不来\t後悔不來\n后悔不迭\t後悔不迭\n后悔何及\t後悔何及\n后悔无及\t後悔無及\n后悔药儿\t後悔藥兒\n后悔莫及\t後悔莫及\n后患\t後患\n后患无穷\t後患無窮\n后感\t後感\n后感觉\t後感覺\n后房\t後房\n后手\t後手\n后手不上\t後手不上\n后手不接\t後手不接\n后手儿\t後手兒\n后手钱\t後手錢\n后拥前呼\t後擁前呼\n后拥前推\t後擁前推\n后拥前遮\t後擁前遮\n后拥前驱\t後擁前驅\n后挡板\t後擋板\n后排\t後排\n后掠翼\t後掠翼\n后掠角\t後掠角\n后接\t後接\n后掩蔽\t後掩蔽\n后援\t後援\n后援会\t後援會\n后援军\t後援軍\n后摆\t後襬\n后撤\t後撤\n后攻\t後攻\n后放\t後放\n后效\t後效\n后文\t後文\n后方\t後方\n后方区\t後方區\n后无来者\t後無來者\n后日\t後日\n后昆\t後昆\n后晋\t後晉\n后晌\t後晌\n后晚\t後晚\n后景\t後景\n后有\t後有\n后望镜\t後望鏡\n后期\t後期\n后期印象派\t後期印象派\n后来\t後來\n后来之秀\t後來之秀\n后来人\t後來人\n后来居上\t後來居上\n后果\t後果\n后果前因\t後果前因\n后果堪忧\t後果堪憂\n后果堪虞\t後果堪虞\n后桅\t後桅\n后桥\t後橋\n后梁\t後梁\n后梁太祖\t後梁太祖\n后槽\t後槽\n后步\t後步\n后段\t後段\n后段班\t後段班\n后殿\t後殿\n后母\t後母\n后汉\t後漢\n后汉书\t後漢書\n后汉纪\t後漢紀\n后派\t後派\n后浪\t後浪\n后浪推前浪\t後浪推前浪\n后海湾\t后海灣\n后港\t後港\n后溪\t後溪\n后溪穴\t後谿穴\n后滚翻\t後滾翻\n后灯\t後燈\n后点\t後點\n后照镜\t後照鏡\n后燕\t後燕\n后父\t後父\n后爹\t後爹\n后王\t后王\n后现代\t後現代\n后现代主义\t後現代主義\n后现代剧场\t後現代劇場\n后生\t後生\n后生动物\t後生動物\n后生可畏\t後生可畏\n后生小子\t後生小子\n后生小辈\t後生小輩\n后生晚学\t後生晚學\n后用\t後用\n后由\t後由\n后甲板\t後甲板\n后皇\t后皇\n后盖\t後蓋\n后盾\t後盾\n后知\t後知\n后知后觉\t後知後覺\n后福\t後福\n后秃\t後禿\n";

/// Part 41 of the text.
pub const ST_PHRASES_41: &'static str = "后秦\t後秦\n后程\t後程\n后稷\t后稷\n后空翻\t後空翻\n后窗\t後窗\n后站\t後站\n后端\t後端\n后竹围\t後竹圍\n后篇\t後篇\n后级扩大机\t後級擴大機\n后继\t後繼\n后继乏人\t後繼乏人\n后继乏力\t後繼乏力\n后继无人\t後繼無人\n后继无力\t後繼無力\n后继有人\t後繼有人\n后续\t後續\n后续力\t後續力\n后续的解释过程\t後續的解釋過程\n后缀\t後綴\n后缘\t後緣\n后罩房\t後罩房\n后置\t後置\n后置词\t後置詞\n后羿\t后羿\n后羿射日\t后羿射日\n后翅\t後翅\n后翻筋斗\t後翻筋斗\n后者\t後者\n后肢\t後肢\n后背\t後背\n后脑\t後腦\n后脑勺\t後腦勺\n后脑杓\t後腦杓\n后脚\t後腳\n后脸儿\t後臉兒\n后腰\t後腰\n后腿\t後腿\n后腿肉\t後腿肉\n后膛\t後膛\n后舱\t後艙\n后舱门\t後艙門\n后节\t後節\n后花园\t後花園\n后菜园\t後菜園\n后藏\t後藏\n后藤\t後藤\n后虑\t後慮\n后蜀\t後蜀\n后行\t後行\n后街\t後街\n后裔\t後裔\n后襟\t後襟\n后西游记\t後西遊記\n后视镜\t後視鏡\n后觉\t後覺\n后角\t后角\n后言\t後言\n后计\t後計\n后记\t後記\n后设\t後設\n后词汇加工\t後詞彙加工\n后话\t後話\n后读\t後讀\n后账\t後賬\n后赤壁赋\t後赤壁賦\n后走\t後走\n后赵\t後趙\n后起\t後起\n后起之秀\t後起之秀\n后起字\t後起字\n后足\t後足\n后跟\t後跟\n后路\t後路\n后身\t後身\n后车\t後車\n后车之戒\t後車之戒\n后车之鉴\t後車之鑑\n后车站\t後車站\n后车轴\t後車軸\n后转\t後轉\n后轮\t後輪\n后辈\t後輩\n后辈小子\t後輩小子\n后辍\t後輟\n后辛\t后辛\n后辟\t后辟\n后边\t後邊\n后边儿\t後邊兒\n后过\t後過\n后进\t後進\n后进先出\t後進先出\n后述\t後述\n后退\t後退\n后退色\t後退色\n后送\t後送\n后送医院\t後送醫院\n后遗\t後遺\n后遗症\t後遺症\n后部\t後部\n后里\t后里\n后里乡\t后里鄉\n后重\t後重\n后金\t後金\n后钩儿\t後鉤兒\n后镜\t後鏡\n后门\t後門\n后防\t後防\n后院\t後院\n后院子\t後院子\n后院起火\t後院起火\n后集\t後集\n后面\t後面\n后项\t後項\n后顾\t後顧\n后顾之忧\t後顧之憂\n后顾之患\t後顧之患\n后顾之虑\t後顧之慮\n后顾之虞\t後顧之虞\n后颈\t後頸\n后首\t後首\n后魏\t後魏\n后鼻音\t後鼻音\n后龙\t後龍\n后龙溪\t後龍溪\n后龙镇\t後龍鎮\n吐出\t吐出\n吐出来\t吐出來\n吐司面包\t吐司麵包\n吐哺捉发\t吐哺捉髮\n吐哺握发\t吐哺握髮\n吐穗\t吐穗\n吐谷浑\t吐谷渾\n吐露出\t吐露出\n向上\t向上\n向上地\t向上地\n向下\t向下\n向东\t向東\n向东看\t向東看\n向东走\t向東走\n向人\t向人\n向何处\t向何處\n向使\t向使\n向例\t向例\n向光\t向光\n向光性\t向光性\n向内\t向內\n向内走\t向內走\n向前\t向前\n向前看\t向前看\n向前看齐\t向前看齊\n向前翻腾\t向前翻騰\n向前走\t向前走\n向前进\t向前進\n向化\t向化\n向北\t向北\n向北地\t向北地\n向北看\t向北看\n向北走\t向北走\n向午\t向午\n向南\t向南\n向南看\t向南看\n向南走\t向南走\n向右\t向右\n向右拐\t向右拐\n向右看\t向右看\n向右看齐\t向右看齊\n向右转\t向右轉\n向右转走\t向右轉走\n向后\t向後\n向后冲\t向後衝\n向后看\t向後看\n向后翻腾\t向後翻騰\n向后走\t向後走\n向后转\t向後轉\n向后转走\t向後轉走\n向善\t向善\n向地\t向地\n向地性\t向地性\n向培良\t向培良\n向壁虚构\t向壁虛構\n向壁虚造\t向壁虛造\n向声背实\t向聲背實\n向外\t向外\n向外冲\t向外衝\n向外看\t向外看\n向外走\t向外走\n向天\t向天\n向学\t向學\n向宠\t向寵\n向导\t嚮導\n向导公司\t嚮導公司\n向导员\t嚮導員\n向导犬\t嚮導犬\n向左\t向左\n向左拐\t向左拐\n向左看\t向左看\n向左看齐\t向左看齊\n向左转\t向左轉\n向左转走\t向左轉走\n向巴平措\t向巴平措\n向平之愿\t向平之願\n向年\t向年\n向应\t嚮應\n向度\t向度\n向当\t向當\n向往\t嚮往\n向心\t向心\n向心力\t向心力\n向心店\t向心店\n向心花序\t向心花序\n向性\t向性\n向慕\t嚮慕\n向戌\t向戌\n向斜\t向斜\n向斜层\t向斜層\n向日\t向日\n向日性\t向日性\n向日葵\t向日葵\n向时\t向時\n向明\t嚮明\n向晓\t向曉\n向晚\t向晚\n向晦\t嚮晦\n向暮\t向暮\n向来\t向來\n向来是\t向來是\n向来都是\t向來都是\n向流星雨\t向流星雨\n向海\t向海\n向溼性\t向濕性\n向火\t向火\n向火乞儿\t向火乞兒\n向用\t向用\n向电性\t向電性\n向盘\t向盤\n向着\t向著\n向秀\t向秀\n向秀丽\t向秀麗\n向者\t曏者\n向背\t向背\n向荣\t向榮\n向西\t向西\n向西南\t向西南\n向触\t向觸\n向迩\t嚮邇\n向里望\t向裡望\n向里面冲\t向裡面衝\n向量\t向量\n向量代数\t向量代數\n向量分析\t向量分析\n向量图形\t向量圖形\n向钱看\t向錢看\n向阳\t向陽\n向阳信\t向陽信\n向阳区\t向陽區\n向阳大道\t向陽大道\n向隅\t向隅\n向隅独泣\t向隅獨泣\n向隅而泣\t向隅而泣\n向非\t向非\n向顺\t向順\n向风\t向風\n向风针\t向風針\n吓不了\t嚇不了\n吓了\t嚇了\n吓了一跳\t嚇了一跳\n吓出\t嚇出\n吓出病来\t嚇出病來\n吓得发抖\t嚇得發抖\n吕后\t呂后\n吕太后的筵席\t呂太后的筵席\n吕宋烟\t呂宋菸\n吕岩\t呂岩\n吕布\t呂布\n吕布戟\t呂布戟\n吕梁\t呂梁\n吕梁山\t呂梁山\n吕梁市\t呂梁市\n吕氏春秋\t呂氏春秋\n吕芳烟\t呂芳煙\n吕蒙\t呂蒙\n吕蒙正\t呂蒙正\n吕贝克\t呂貝克\n吗啡针\t嗎啡針\n君主专制\t君主專制\n君主专制制\t君主專制制\n君主制\t君主制\n君主立宪制\t君主立憲制\n君合国\t君合國\n君子不念旧恶\t君子不念舊惡\n君子于役\t君子于役\n君子交绝不出恶声\t君子交絕不出惡聲\n君子坦荡荡小人长戚戚\t君子坦蕩蕩小人長慼慼\n君子报仇十年不晚\t君子報仇十年不晚\n君子言先不言后\t君子言先不言後\n吞了\t吞了\n吞了下去\t吞了下去\n吞云吐雾\t吞雲吐霧\n吞刀刮肠\t吞刀刮腸\n吞咽\t吞嚥\n吞并\t吞併\n吞武里\t吞武里\n吞烟\t吞煙\n吞米桑布札\t吞米桑布札\n吟叹\t吟歎\n吟坛\t吟壇\n吟游\t吟遊\n吟游诗人\t吟遊詩人\n吠舍\t吠舍\n否极必泰\t否極必泰\n否极泰来\t否極泰來\n否极生泰\t否極生泰\n吧台\t吧檯\n吧托女\t吧托女\n吨公里\t噸公里\n含了\t含了\n含商咀征\t含商咀徵\n含宫咀征\t含宮咀徵\n含油岩\t含油岩\n含烟笼雾\t含煙籠霧\n含苞欲放\t含苞欲放\n含蜡\t含蠟\n含齿戴发\t含齒戴髮\n听不出\t聽不出\n听不出来\t聽不出來\n听不得一面之词\t聽不得一面之詞\n听了\t聽了\n听了风就是雨\t聽了風就是雨\n听于\t聽於\n听候发落\t聽候發落\n听出\t聽出\n听出来\t聽出來\n听墙面\t聽牆面\n听弦\t聽絃\n听得出\t聽得出\n听得出来\t聽得出來\n听腻了\t聽膩了\n听见了\t聽見了\n听觉范围\t聽覺範圍\n听证制度\t聽證制度\n听骨链\t聽骨鏈\n启动技术\t啟動技術\n启发\t啟發\n启发式\t啟發式\n启发式教学法\t啟發式教學法\n启发性\t啟發性\n启发性程式\t啟發性程式\n启发法\t啟發法\n启封\t啟封\n启示录\t啟示錄\n启蒙\t啟蒙\n启蒙专制君主\t啟蒙專制君主\n启蒙哲学\t啟蒙哲學\n启蒙时代\t啟蒙時代\n启蒙运动\t啟蒙運動\n吴下阿蒙\t吳下阿蒙\n吴俊杰\t吳俊傑\n吴克群\t吳克羣\n";

/// Part 42 of the text.
pub const ST_PHRASES_42: &'static str = "吴嘉种\t吳嘉種\n吴复连\t吳復連\n吴子冲\t吳子沖\n吴岳修\t吳嶽修\n吴幸桦\t吳幸樺\n吴志\t吳志\n吴志伟\t吳志偉\n吴志扬\t吳志揚\n吴志祺\t吳志祺\n吴志远\t吳志遠\n吴皓升\t吳皓昇\n吴育升\t吳育昇\n吴荣杰\t吳榮杰\n吴蒙惠\t吳蒙惠\n吴越同舟\t吳越同舟\n吴越春秋\t吳越春秋\n吴越曲\t吳越曲\n吴采璋\t吳采璋\n吴里克\t吳里克\n吴隆杰\t吳隆傑\n吸了\t吸了\n吸出\t吸出\n吸出去\t吸出去\n吸出来\t吸出來\n吸回\t吸回\n吸回去\t吸回去\n吸回来\t吸回來\n吸地板\t吸地板\n吸尽\t吸盡\n吸干\t吸乾\n吸引不了\t吸引不了\n吸得干干\t吸得乾乾\n吸杯\t吸杯\n吸油烟机\t吸油煙機\n吸烟\t吸菸\n吸烟区\t吸菸區\n吸烟客\t吸菸客\n吸烟室\t吸菸室\n吸烟族\t吸菸族\n吸烟率\t吸菸率\n吸烟者\t吸菸者\n吸管虫\t吸管蟲\n吸虫\t吸蟲\n吸虫纲\t吸蟲綱\n吸血虫\t吸血蟲\n吹了\t吹了\n吹云\t吹雲\n吹出\t吹出\n吹出去\t吹出去\n吹出来\t吹出來\n吹发\t吹髮\n吹台\t吹臺\n吹叶机\t吹葉機\n吹向\t吹向\n吹头发\t吹頭髮\n吹干\t吹乾\n吹气胜兰\t吹氣勝蘭\n吹炼\t吹煉\n吹绵介壳虫\t吹綿介殼蟲\n吹胡\t吹鬍\n吹胡子\t吹鬍子\n吹胡子瞪眼睛\t吹鬍子瞪眼睛\n吹风胡哨\t吹風胡哨\n吻别\t吻別\n吻别时\t吻別時\n吻合\t吻合\n吼出\t吼出\n吾为之范我驰驱\t吾為之範我馳驅\n吾党\t吾黨\n吾当\t吾當\n呆串了皮\t呆串了皮\n呆了\t呆了\n呆了一呆\t呆了一呆\n呆呆兽\t呆呆獸\n呆呆挣挣\t呆呆掙掙\n呆头\t呆頭\n呆小症\t呆小症\n呆板\t呆板\n呆气\t呆氣\n呆滞\t呆滯\n呆痴\t呆痴\n呆着\t待著\n呆脑\t呆腦\n呆致致\t呆緻緻\n呆话\t呆話\n呆里呆气\t呆裡呆氣\n呆里撒奸\t呆裡撒奸\n呈准\t呈准\n呈现出\t呈現出\n呈现出来\t呈現出來\n呈逆价差\t呈逆價差\n告别\t告別\n告别式\t告別式\n告发\t告發\n告托\t告託\n告示板\t告示板\n呕出物\t嘔出物\n呗赞\t唄讚\n员山庄\t員山莊\n呛了\t嗆了\n呜咽\t嗚咽\n周一\t週一\n周一岳\t周一嶽\n周三\t週三\n周三径一\t周三徑一\n周上\t週上\n周世惠\t周世惠\n周东昱\t周東昱\n周中\t週中\n周丽淇\t周麗淇\n周书\t周書\n周事\t周事\n周二\t週二\n周五\t週五\n周亚夫\t周亞夫\n周人\t周人\n周人之急\t周人之急\n周仓\t周倉\n周代\t周代\n周休\t週休\n周休二日\t週休二日\n周会\t週會\n周伟\t周偉\n周传瑛\t周傳瑛\n周传英\t周傳英\n周传雄\t周傳雄\n周作人\t周作人\n周佳佑\t周佳佑\n周佳琦\t周佳琦\n周俊三\t周俊三\n周俊勋\t周俊勳\n周全\t周全\n周全方便\t周全方便\n周公\t周公\n周公吐哺\t周公吐哺\n周公瑾\t周公瑾\n周六\t週六\n周六日\t週六日\n周典论\t周典論\n周内\t周內\n周刊\t週刊\n周到\t周到\n周助\t周助\n周勃\t周勃\n周匝\t周匝\n周华健\t周華健\n周南\t周南\n周卫\t周衛\n周历\t周曆\n周厉王\t周厲王\n周原\t周原\n周口\t周口\n周口地区\t周口地區\n周口市\t周口市\n周口店\t周口店\n周口店文化\t周口店文化\n周召\t周召\n周召共和\t周召共和\n周台竹\t周臺竹\n周告\t周告\n周周\t週週\n周四\t週四\n周回\t週迴\n周围\t周圍\n周围人\t周圍人\n周围性眩晕\t周圍性眩暈\n周围环境\t周圍環境\n周培蕾\t周培蕾\n周堂\t周堂\n周士榆\t周士榆\n周士渊\t周士淵\n周处\t周處\n周备\t周備\n周大福\t周大福\n周天\t周天\n周奕成\t周奕成\n周妙音\t周妙音\n周姓\t周姓\n周孟晔\t周孟曄\n周宁\t周寧\n周宁县\t周寧縣\n周守训\t周守訓\n周宏哲\t周宏哲\n周宏室\t周宏室\n周官\t周官\n周定纬\t周定緯\n周宣王\t周宣王\n周室\t周室\n周家\t周家\n周密\t周密\n周小\t周小\n周小川\t周小川\n周岁\t週歲\n周平王\t周平王\n周年\t週年\n周年庆\t週年慶\n周年纪念\t週年紀念\n周年视差\t週年視差\n周幼婷\t周幼婷\n周幽王\t周幽王\n周庄\t周莊\n周庄王\t周莊王\n周庄镇\t周莊鎮\n周康王\t周康王\n周延\t周延\n周弘宪\t周弘憲\n周忌\t周忌\n周志全\t周志全\n周志浩\t周志浩\n周志诚\t周志誠\n周思源\t周思源\n周思齐\t周思齊\n周急\t周急\n周急继乏\t周急繼乏\n周总理\t周總理\n周恒毅\t周恆毅\n周恤\t周恤\n周恩来\t周恩來\n周情孔思\t周情孔思\n周慧敏\t周慧敏\n周成王\t周成王\n周承玮\t周承瑋\n周折\t周折\n周报\t週報\n周敏鸿\t周敏鴻\n周敦颐\t周敦頤\n周数\t週數\n周文\t周文\n周文王\t周文王\n周方\t周方\n周旋\t周旋\n周旋到底\t周旋到底\n周日\t週日\n周日版\t週日版\n周昉\t周昉\n周易\t周易\n周星驰\t周星馳\n周春秀\t周春秀\n周晓涵\t周曉涵\n周晬\t周晬\n周朝\t周朝\n周期\t週期\n周期函数\t週期函數\n周期彗星\t週期彗星\n周期律\t週期律\n周期性\t週期性\n周期数\t週期數\n周期系\t週期系\n周期表\t週期表\n周期解\t週期解\n周末\t週末\n周末愉快\t週末愉快\n周末效应\t週末效應\n周村\t周村\n周村区\t周村區\n周杰\t周杰\n周杰伦\t周杰倫\n周柏臣\t周柏臣\n周某\t周某\n周树人\t周樹人\n周梁淑怡\t周梁淑怡\n周梦瑶\t周夢瑤\n周正\t周正\n周武王\t周武王\n周武王姬发\t周武王姬發\n周武雄\t周武雄\n周氏\t周氏\n周永康\t周永康\n周永明\t周永明\n周治平\t周治平\n周泓谕\t周泓諭\n周波\t周波\n周流\t周流\n周浃\t周浹\n周济\t周濟\n周海媚\t周海媚\n周润发\t周潤發\n周渝民\t周渝民\n周游\t周遊\n周游世界\t周遊世界\n周游列国\t周遊列國\n周游券\t周遊券\n周灿德\t周燦德\n周率\t周率\n周王朝\t周王朝\n周瑜\t周瑜\n周瑜打黄盖\t周瑜打黃蓋\n周璇\t周璇\n周盈成\t周盈成\n周盈文\t周盈文\n周盛渊\t周盛淵\n周相\t周相\n周知\t周知\n周礼\t周禮\n周礼良\t周禮良\n周秀霞\t周秀霞\n周程张朱\t周程張朱\n周穆王\t周穆王\n周立昌\t周立昌\n周立波\t周立波\n周章\t周章\n周章狼狈\t周章狼狽\n周筱涵\t周筱涵\n周线\t週線\n周经凯\t周經凱\n周给\t周給\n周缘\t周緣\n周置\t周置\n周美里\t周美里\n周美青\t周美青\n周考\t週考\n周而不比\t周而不比\n周而复始\t周而復始\n周至\t周至\n周至县\t周至縣\n周董\t周董\n周蓓姬\t周蓓姬\n周蕙\t周蕙\n周薪\t週薪\n周行\t周行\n周览\t周覽\n周角\t周角\n周记\t週記\n周详\t周詳\n周诰\t周誥\n周赐海\t周賜海\n周赧王\t周赧王\n周走秀\t週走秀\n周身\t周身\n周转\t週轉\n周边\t周邊\n周边设备\t周邊設備\n周迅\t周迅\n周近\t周近\n周遍\t周遍\n周道\t周道\n周遭\t周遭\n周遭事物\t周遭事物\n周遮\t周遮\n周邦彦\t周邦彥\n周郎\t周郎\n周郎癖\t周郎癖\n周郎顾曲\t周郎顧曲\n周采诗\t周采詩\n周锡玮\t周錫瑋\n周锦贵\t周錦貴\n周长\t周長\n周雅淑\t周雅淑\n周韫维\t周韞維\n周顗\t周顗\n周颂\t周頌\n周颙\t周顒\n周髀\t周髀\n周髀算经\t周髀算經\n周龙\t周龍\n周𫖮\t周顗\n呱嗒板儿\t呱嗒板兒\n味千拉面\t味千拉麵\n味同嚼蜡\t味同嚼蠟\n味胜易牙\t味勝易牙\n味道里\t味道裡\n呼之欲出\t呼之欲出\n呼出\t呼出\n呼出来\t呼出來\n呼吁\t呼籲\n呼吸困难\t呼吸困難\n呼吸系统\t呼吸系統\n呼图克图\t呼圖克圖\n呼扇\t呼搧\n命世之才\t命世之才\n命世才\t命世才\n命中注定\t命中註定\n命名系统\t命名系統\n命理\t命理\n命运注定\t命運註定\n";

/// Part 43 of the text.
pub const ST_PHRASES_43: &'static str = "命题范围\t命題範圍\n咀咽\t咀嚥\n咀嚼出\t咀嚼出\n和丰\t和豐\n和了\t和了\n和什托洛盖\t和什托洛蓋\n和光同尘\t和光同塵\n和克制\t和剋制\n和合\t和合\n和合二仙\t和合二仙\n和合僧\t和合僧\n和合日\t和合日\n和合汤\t和合湯\n和同\t和同\n和哄\t和哄\n和奸\t和姦\n和布克赛尔县\t和布克賽爾縣\n和布克赛尔蒙古自治县\t和布克賽爾蒙古自治縣\n和平工作团\t和平工作團\n和平里\t和平里\n和弦\t和絃\n和杯\t和杯\n和核\t和核\n和气致祥\t和氣致祥\n和盘托出\t和盤托出\n和而不同\t和而不同\n和胜\t和勝\n和谐一致\t和諧一致\n和面\t和麵\n和风拂面\t和風拂面\n咍台\t咍臺\n咎征\t咎徵\n咏叹\t詠歎\n咏赞\t詠贊\n咏雪之才\t詠雪之才\n咒印术\t咒印術\n咒愿\t咒愿\n咒术\t咒術\n咕咕钟\t咕咕鐘\n咖啡杯\t咖啡杯\n咖啡色系\t咖啡色系\n咖喱面\t咖喱麵\n咙胡\t嚨胡\n咣当\t咣噹\n咨询\t諮詢\n咫尺万里\t咫尺萬里\n咫尺千里\t咫尺千里\n咬了\t咬了\n咬了一口\t咬了一口\n咬出\t咬出\n咬合\t咬合\n咬合不正\t咬合不正\n咬合调整\t咬合調整\n咬姜呷醋\t咬薑呷醋\n咬字不准\t咬字不準\n咬屁虫\t咬屁蟲\n咬弦\t咬弦\n咬折丁子的老婆\t咬折丁子的老婆\n咬秋\t咬秋\n咬舌自尽\t咬舌自盡\n咭叮当\t咭叮噹\n咭当当\t咭噹噹\n咯当\t咯噹\n咳嗽药\t咳嗽藥\n咸丝丝\t鹹絲絲\n咸丰\t咸豐\n咸丰县\t咸豐縣\n咸丰草\t咸豐草\n咸五登三\t咸五登三\n咸亨\t咸亨\n咸亨酒店\t咸亨酒店\n咸信\t咸信\n咸兴\t咸興\n咸兴市\t咸興市\n咸卤\t鹹鹵\n咸同\t咸同\n咸味\t鹹味\n咸和\t咸和\n咸咸\t鹹鹹\n咸嘴淡舌\t鹹嘴淡舌\n咸土\t鹹土\n咸宁\t咸寧\n咸宁地区\t咸寧地區\n咸宁市\t咸寧市\n咸安\t咸安\n咸安区\t咸安區\n咸宜\t咸宜\n咸宾\t咸賓\n咸平\t咸平\n咸度\t鹹度\n咸康\t咸康\n咸得\t鹹得\n咸批\t鹹批\n咸有一德\t咸有一德\n咸水\t鹹水\n咸水妹\t鹹水妹\n咸水湖\t鹹水湖\n咸水鱼\t鹹水魚\n咸池\t咸池\n咸汤\t鹹湯\n咸津津\t鹹津津\n咸津津儿\t鹹津津兒\n咸派\t鹹派\n咸海\t鹹海\n咸淡\t鹹淡\n咸淡适中\t鹹淡適中\n咸淳\t咸淳\n咸湖\t鹹湖\n咸湿\t鹹濕\n咸潟\t鹹潟\n咸熙\t咸熙\n咸猪手\t鹹豬手\n咸猪肉\t鹹豬肉\n咸的\t鹹的\n咸盐\t鹹鹽\n咸类\t鹹類\n咸粥\t鹹粥\n咸肉\t鹹肉\n咸菜\t鹹菜\n咸菜干\t鹹菜乾\n咸蛋\t鹹蛋\n咸认为\t咸認為\n咸通\t咸通\n咸酥鸡\t鹹酥雞\n咸镜\t咸鏡\n咸镜北道\t咸鏡北道\n咸镜南道\t咸鏡南道\n咸镜道\t咸鏡道\n咸阳\t咸陽\n咸阳地区\t咸陽地區\n咸阳宫\t咸陽宮\n咸阳市\t咸陽市\n咸阳桥\t咸陽橋\n咸阳火\t咸陽火\n咸雍\t咸雍\n咸食\t鹹食\n咸鱼\t鹹魚\n咸鱼翻身\t鹹魚翻身\n咸鸭蛋\t鹹鴨蛋\n咽下\t嚥下\n咽不了\t嚥不了\n咽了\t嚥了\n咽住\t嚥住\n咽到\t嚥到\n咽哽\t咽哽\n咽唾\t嚥唾\n咽喉\t咽喉\n咽峡\t咽峽\n咽干\t咽乾\n咽气\t嚥氣\n咽炎\t咽炎\n咽病\t咽病\n咽痛\t咽痛\n咽着\t嚥著\n咽肌\t嚥肌\n咽苦吞甘\t嚥苦吞甘\n咽进\t嚥進\n咽部\t咽部\n咽镜\t咽鏡\n哀兵必胜\t哀兵必勝\n哀凄\t哀悽\n哀叹\t哀嘆\n哀吊\t哀弔\n哀哀欲绝\t哀哀欲絕\n哀戚\t哀戚\n哀挽\t哀輓\n哀莫大于心死\t哀莫大於心死\n品尝\t品嚐\n品尝会\t品嚐會\n品尝到\t品嚐到\n品汇\t品彙\n品种\t品種\n品种改良\t品種改良\n品系\t品系\n品花宝鉴\t品花寶鑑\n品莲台\t品蓮臺\n品貌出众\t品貌出眾\n品质管制\t品質管制\n品鉴\t品鑑\n哄乱\t鬨亂\n哄了\t哄了\n哄人\t哄人\n哄伙\t鬨夥\n哄传\t鬨傳\n哄传一时\t鬨傳一時\n哄劝\t哄勸\n哄动\t鬨動\n哄动一时\t鬨動一時\n哄吓骗诈\t哄嚇騙詐\n哄哄\t哄哄\n哄哄翕翕\t哄哄翕翕\n哄堂\t鬨堂\n哄堂大笑\t鬨堂大笑\n哄弄\t哄弄\n哄得\t哄得\n哄抢\t鬨搶\n哄抬\t哄抬\n哄抬物价\t哄抬物價\n哄来哄去\t哄來哄去\n哄然\t鬨然\n哄然大笑\t鬨然大笑\n哄笑\t鬨笑\n哄诱\t哄誘\n哄赚\t哄賺\n哄走\t哄走\n哄闹\t鬨鬧\n哄骗\t哄騙\n哈丰角\t哈豐角\n哈克\t哈克\n哈克莉洛\t哈克莉洛\n哈克贝利芬历险记\t哈克貝利芬歷險記\n哈利发\t哈利發\n哈利法克斯\t哈利法克斯\n哈卡里\t哈卡里\n哈发林\t哈發林\n哈塞布苏\t哈塞布蘇\n哈巴罗夫斯克\t哈巴羅夫斯克\n哈巴谷书\t哈巴谷書\n哈布斯堡\t哈布斯堡\n哈比亚里马纳\t哈比亞里馬納\n哈特谢普苏\t哈特謝普蘇\n哈玛斯派系\t哈瑪斯派系\n哈玛斯集团\t哈瑪斯集團\n哈萨克\t哈薩克\n哈萨克人\t哈薩克人\n哈萨克共和国\t哈薩克共和國\n哈萨克文\t哈薩克文\n哈萨克族\t哈薩克族\n哈萨克语\t哈薩克語\n哈里\t哈里\n哈里伯顿\t哈里伯頓\n哈里发\t哈里發\n哈里发塔\t哈里發塔\n哈里发帝国\t哈里發帝國\n哈里尔\t哈里爾\n哈里斯\t哈里斯\n哈里斯堡\t哈里斯堡\n哈里札德\t哈里札德\n哈里森史密特\t哈里森史密特\n哈里路亚\t哈里路亞\n哈里逊\t哈里遜\n哈里逊福特\t哈里遜福特\n哈里里\t哈里里\n响了\t響了\n响卜\t響卜\n响叮当\t響叮噹\n响弦\t響絃\n响当当\t響噹噹\n响彻云汉\t響徹雲漢\n响彻云际\t響徹雲際\n响彻云霄\t響徹雲霄\n响板\t響板\n响遏行云\t響遏行雲\n响钟\t響鐘\n响马党羽\t響馬黨羽\n哑子托梦\t啞子托夢\n哑板\t啞板\n哗众\t譁眾\n哗变\t譁變\n哗哗\t嘩嘩\n哗啦\t嘩啦\n哗地\t嘩地\n哗然\t譁然\n哗的\t嘩的\n哗笑\t譁笑\n哥伦布\t哥倫布\n哥伦布市\t哥倫布市\n哥伦布纪\t哥倫布紀\n哥林多后书\t哥林多後書\n哥萨克\t哥薩克\n哥里\t哥里\n哪一个\t哪一個\n哪一出\t哪一齣\n哪个\t哪個\n哪个人\t哪個人\n哪个月\t哪個月\n哪几\t哪幾\n哪几个\t哪幾個\n哪几只\t哪幾隻\n哪几周\t哪幾週\n哪几天\t哪幾天\n哪几次\t哪幾次\n哪只\t哪隻\n哪台\t哪臺\n哪回\t哪回\n哪方面\t哪方面\n哪有\t哪有\n哪种\t哪種\n哪种人\t哪種人\n哪里\t哪裡\n哪里买\t哪裡買\n哪里人\t哪裡人\n哪里哪里\t哪裡哪裡\n哪里摔倒哪里爬\t哪裡摔倒哪裡爬\n哭个\t哭個\n哭个够\t哭個夠\n哭个痛快\t哭個痛快\n哭了\t哭了\n哭出\t哭出\n哭出来\t哭出來\n哭尽\t哭盡\n哭成一团\t哭成一團\n哭秋风\t哭秋風\n哭脏\t哭髒\n哲学系\t哲學系\n哲学范畴\t哲學範疇\n哲布尊丹巴\t哲布尊丹巴\n哲理\t哲理\n哲里木\t哲里木\n哺喂\t哺餵\n哼个\t哼個\n哼出\t哼出\n哽咽\t哽咽\n唁吊\t唁弔\n唇似抹朱\t脣似抹朱\n唇如涂朱\t脣如塗朱\n唇干\t脣乾\n唇彩\t脣彩\n唇彩盘\t脣彩盤\n唇燥舌干\t脣燥舌乾\n唇若抹朱\t脣若抹朱\n唇若涂朱\t脣若塗朱\n唇若涂脂\t脣若塗脂\n唉叹\t唉嘆\n唐三彩\t唐三彩\n唐志中\t唐志中\n唐才常\t唐才常\n唐氏症\t唐氏症\n唐王游地府\t唐王遊地府\n唐美云\t唐美雲\n唐胖子吊在醋缸里\t唐胖子吊在醋缸裡\n唤出\t喚出\n唤回\t喚回\n售价\t售價\n售价为\t售價為\n售出\t售出\n售台\t售臺\n售后\t售後\n售后服务\t售後服務\n售后部\t售後部\n售货台\t售貨臺\n售货合约\t售貨合約\n唯意志论\t唯意志論\n唯有\t唯有\n唱个\t唱個\n唱了\t唱了\n唱出\t唱出\n唱出来\t唱出來\n唱叹\t唱嘆\n唱回\t唱回\n唱回去\t唱回去\n唱回来\t唱回來\n唱对台戏\t唱對臺戲\n唱念\t唱唸\n唱曲\t唱曲\n唱游\t唱遊\n唱片目录\t唱片目錄\n唱针\t唱針\n";

/// Part 44 of the text.
pub const ST_PHRASES_44: &'static str = "唾余\t唾餘\n唾沫直咽\t唾沫直嚥\n唾面\t唾面\n唾面自干\t唾面自乾\n啃书虫\t啃書蟲\n啃出\t啃出\n啄针儿\t啄針兒\n商业发票\t商業發票\n商业计划\t商業計劃\n商会里\t商會裡\n商借\t商借\n商务代表\t商務代表\n商历\t商曆\n商周\t商周\n商品价值\t商品價值\n商品价格\t商品價格\n商品目录\t商品目錄\n商品输出\t商品輸出\n商团\t商團\n商学系\t商學系\n商秋\t商秋\n商科集团\t商科集團\n啜哄\t啜哄\n啤酒厂\t啤酒廠\n啧啧称赞\t嘖嘖稱讚\n啧啧赞叹\t嘖嘖讚歎\n啮合\t齧合\n啮檗吞针\t齧蘗吞針\n啰啰苏苏\t囉囉囌囌\n啰苏\t囉囌\n啷当\t啷噹\n啼饥号寒\t啼飢號寒\n喀喇昆仑公路\t喀喇崑崙公路\n喀喇昆仑山\t喀喇崑崙山\n喀喇昆仑山脉\t喀喇崑崙山脈\n喀喇沁左翼蒙古族自治县\t喀喇沁左翼蒙古族自治縣\n喀布尔\t喀布爾\n喀布尔河\t喀布爾河\n喀拉喀托火山\t喀拉喀托火山\n喀拉昆仑山\t喀拉崑崙山\n喂乳\t餵乳\n喂了\t餵了\n喂了一声\t喂了一聲\n喂你\t餵你\n喂偏食\t喂偏食\n喂养\t餵養\n喂动物\t餵動物\n喂哺\t餵哺\n喂喂\t喂喂\n喂奶\t餵奶\n喂奶时\t餵奶時\n喂它\t餵它\n喂我\t餵我\n喂母乳\t餵母乳\n喂牛\t餵牛\n喂狗\t餵狗\n喂猪\t餵豬\n喂猫\t餵貓\n喂眼\t喂眼\n喂给\t餵給\n喂羊\t餵羊\n喂过\t餵過\n喂食\t餵食\n喂饭\t餵飯\n喂饱\t餵飽\n喂马\t餵馬\n喂驴\t餵驢\n喂鱼\t餵魚\n喂鸡\t餵雞\n喂鸭\t餵鴨\n喂鹅\t餵鵝\n善了\t善了\n善于\t善於\n善于词令\t善於詞令\n善于辞令\t善於辭令\n善价\t善價\n善后\t善後\n善后事宜\t善後事宜\n善后借款\t善後借款\n善善恶恶\t善善惡惡\n善尽\t善盡\n善念\t善念\n善恶\t善惡\n善恶不分\t善惡不分\n善意回应\t善意回應\n善才\t善才\n善才童子\t善才童子\n善有善报恶有恶报\t善有善報惡有惡報\n善罢干休\t善罷干休\n善财难舍\t善財難捨\n喇叭虫\t喇叭蟲\n喉咙里\t喉嚨裡\n喉咽\t喉咽\n喉头发干\t喉頭發乾\n喉干舌燥\t喉乾舌燥\n喊了\t喊了\n喊价\t喊價\n喊出\t喊出\n喊出去\t喊出去\n喊出来\t喊出來\n喊回\t喊回\n喊回去\t喊回去\n喊回来\t喊回來\n喑恶叱咤\t喑惡叱吒\n喘出\t喘出\n喘吁吁\t喘吁吁\n喜不自胜\t喜不自勝\n喜冲冲\t喜衝衝\n喜出望外\t喜出望外\n喜娘\t喜娘\n喜形于色\t喜形於色\n喜忧参半\t喜憂參半\n喜怒不形于色\t喜怒不形於色\n喜恶\t喜惡\n喜极而泣\t喜極而泣\n喜欢表\t喜歡錶\n喜欢钟\t喜歡鐘\n喜欢钟表\t喜歡鐘錶\n喜获\t喜獲\n喜虫儿\t喜蟲兒\n喝个\t喝個\n喝了\t喝了\n喝交杯\t喝交杯\n喝倒彩\t喝倒彩\n喝倒采\t喝倒采\n喝出\t喝出\n喝参\t喝參\n喝尽\t喝盡\n喝干\t喝乾\n喝彩\t喝彩\n喝彩声\t喝彩聲\n喝杯\t喝杯\n喝采\t喝采\n喝风呵烟\t喝風呵煙\n喝风疴烟\t喝風痾煙\n喟叹\t喟嘆\n喧哄\t喧鬨\n喧哗\t喧譁\n喧噪\t喧噪\n喷云吐雾\t噴雲吐霧\n喷云嗳雾\t噴雲噯霧\n喷出\t噴出\n喷出去\t噴出去\n喷出口\t噴出口\n喷出岩\t噴出岩\n喷出来\t噴出來\n喷发\t噴發\n喷墨印表机\t噴墨印表機\n喷射发动机\t噴射發動機\n喷射战斗机\t噴射戰鬥機\n喷气发动\t噴氣發動\n喷气发动机\t噴氣發動機\n喷洒\t噴灑\n喷薄欲出\t噴薄欲出\n嗅出\t嗅出\n嗑药\t嗑藥\n嗔拳不打笑面\t嗔拳不打笑面\n嗛志\t嗛志\n嗜欲\t嗜慾\n嗜眠症\t嗜眠症\n嗜睡症\t嗜睡症\n嗜血杆菌\t嗜血桿菌\n嗜酸乳干菌\t嗜酸乳干菌\n嗝症\t嗝症\n嗟叹\t嗟嘆\n嗟吁\t嗟吁\n嗣后\t嗣後\n嗣适\t嗣適\n嗱喳面\t嗱喳麵\n嘀嗒的表\t嘀嗒的錶\n嘀里嘟噜\t嘀裡嘟嚕\n嘉义师范\t嘉義師範\n嘉义师范学院\t嘉義師範學院\n嘉南药专\t嘉南藥專\n嘉南药理科技大学\t嘉南藥理科技大學\n嘉布瑞尔\t嘉布瑞爾\n嘉柏隆里\t嘉柏隆里\n嘉肴\t嘉餚\n嘉言录\t嘉言錄\n嘉谷\t嘉穀\n嘉里\t嘉里\n嘘下台\t噓下臺\n嘘下台去\t噓下臺去\n嘘下台来\t噓下臺來\n嘱托\t囑託\n嘴巴里\t嘴巴裡\n嘴松\t嘴鬆\n嘴答谷\t嘴答谷\n嘴里\t嘴裡\n噎饥\t噎饑\n噙齿戴发\t噙齒戴髮\n噜噜苏苏\t嚕嚕囌囌\n噜苏\t嚕囌\n器物录\t器物錄\n噪动\t譟動\n噪声\t噪聲\n噪杂\t噪雜\n噪点\t噪點\n噪诈\t譟詐\n噪音\t噪音\n噪音控制\t噪音控制\n噪音管制\t噪音管制\n噪音管制法\t噪音管制法\n噪鹛\t噪鶥\n噫吁戏\t噫吁戲\n噶大克\t噶大克\n噶布伦\t噶布倫\n噶当派\t噶當派\n噶拉多杰仁波切\t噶拉多傑仁波切\n嚚暗\t嚚闇\n嚷出\t嚷出\n嚷出去\t嚷出去\n嚷出来\t嚷出來\n嚷刮\t嚷刮\n嚼不了\t嚼不了\n嚼舌自尽\t嚼舌自盡\n嚼蜡\t嚼蠟\n嚼谷\t嚼穀\n囊橐丰盈\t囊橐豐盈\n囊温郎当\t囊溫郎當\n囓合\t囓合\n囚系\t囚繫\n囚首丧面\t囚首喪面\n囚首垢面\t囚首垢面\n四万\t四萬\n四万一千\t四萬一千\n四万七千\t四萬七千\n四万三千\t四萬三千\n四万两千\t四萬兩千\n四万五千\t四萬五千\n四万八千\t四萬八千\n四万六千\t四萬六千\n四万四千\t四萬四千\n四下里\t四下裡\n四世同堂\t四世同堂\n四两拨千斤\t四兩撥千斤\n四个\t四個\n四个坚持\t四個堅持\n四个现代化\t四個現代化\n四代同堂\t四代同堂\n四体不勤五谷不分\t四體不勤五穀不分\n四余\t四餘\n四停八当\t四停八當\n四克\t四克\n四党\t四黨\n四六面体\t四六面體\n四凶\t四凶\n四出征收\t四出徵收\n四出戏\t四齣戲\n四出祁山\t四出祁山\n四分历\t四分曆\n四分历史\t四分歷史\n四分钟\t四分鐘\n四十一万\t四十一萬\n四十五万\t四十五萬\n四十四万\t四十四萬\n四十多万\t四十多萬\n四千\t四千\n四千两百\t四千兩百\n四千多万\t四千多萬\n四只\t四隻\n四台\t四臺\n四号台\t四號臺\n四合\t四合\n四合一\t四合一\n四合房\t四合房\n四合院\t四合院\n四合院里\t四合院裡\n四向\t四向\n四周\t四周\n四周围\t四周圍\n四周年\t四週年\n四大发明\t四大發明\n四大须生\t四大鬚生\n四天后\t四天後\n四川师范大学\t四川師範大學\n四川师范学院\t四川師範學院\n四年制\t四年制\n四年制的大学\t四年制的大學\n四库禁毁书丛刋\t四庫禁燬書叢刋\n四弘誓愿\t四弘誓願\n四才子\t四才子\n四扎\t四紮\n四斗\t四斗\n四方八面\t四方八面\n四方台\t四方臺\n四方台区\t四方臺區\n四星彩\t四星彩\n四杯\t四杯\n四杰\t四傑\n四板\t四板\n四极\t四極\n四极管\t四極管\n四柜\t四櫃\n四核\t四核\n四洲志\t四洲志\n四海升平\t四海昇平\n四海皆准\t四海皆准\n四点钟\t四點鐘\n四百万\t四百萬\n四百个\t四百個\n四百多万\t四百多萬\n四秒钟\t四秒鐘\n四级三审制\t四級三審制\n四胡\t四胡\n四舍五入\t四捨五入\n四舍六入\t四捨六入\n四表\t四表\n四邻八舍\t四鄰八舍\n四部合唱\t四部合唱\n四部曲\t四部曲\n四里\t四里\n四面\t四面\n四面体\t四面體\n四面佛\t四面佛\n四面八方\t四面八方\n四面受困\t四面受困\n四面受敌\t四面受敵\n四面楚歌\t四面楚歌\n四面玲珑\t四面玲瓏\n四面见光\t四面見光\n四面钟\t四面鐘\n回九\t回九\n回乡\t回鄉\n回书\t回書\n回买\t回買\n回了\t回了\n回事\t回事\n回交\t回交\n回京\t回京\n回人\t回人\n回亿\t回億\n回传\t回傳\n回佣\t回佣\n回信\t回信\n回信地址\t回信地址\n回候\t回候\n";

/// Part 45 of the text.
pub const ST_PHRASES_45: &'static str = "回光返照\t迴光返照\n回光镜\t回光鏡\n回冲\t回沖\n回击\t回擊\n回函\t回函\n回到\t回到\n回力棒\t回力棒\n回力球\t回力球\n回动\t回動\n回匝\t迴匝\n回升\t回升\n回单\t回單\n回单儿\t回單兒\n回卷\t回捲\n回厂\t回廠\n回历\t回曆\n回去\t回去\n回口\t回口\n回台\t回臺\n回合\t回合\n回吐\t回吐\n回向\t迴向\n回告\t回告\n回味\t回味\n回味无穷\t回味無窮\n回和\t回和\n回咬\t回咬\n回响\t迴響\n回嗔作喜\t回嗔作喜\n回嘴\t回嘴\n回回\t回回\n回回历\t回回曆\n回回青\t回回青\n回回鼻子\t回回鼻子\n回国\t回國\n回圈\t迴圈\n回塘\t回塘\n回填\t回填\n回墨印\t回墨印\n回声\t回聲\n回声定位\t回聲定位\n回声探测\t迴聲探測\n回复\t回覆\n回复青春\t回復青春\n回天\t迴天\n回天之力\t回天之力\n回天乏术\t回天乏術\n回头\t回頭\n回头一看\t回頭一看\n回头书\t回頭書\n回头人\t回頭人\n回头儿\t回頭兒\n回头客\t回頭客\n回头掣脑\t回頭掣腦\n回头是岸\t回頭是岸\n回头草\t回頭草\n回头见\t回頭見\n回头路\t回頭路\n回头车子\t回頭車子\n回奉\t回奉\n回娘家\t回娘家\n回子\t回子\n回字\t回字\n回定\t回定\n回家\t回家\n回家乐\t回家樂\n回家路\t回家路\n回家路上\t回家路上\n回家途中\t回家途中\n回容\t回容\n回山倒海\t回山倒海\n回师\t回師\n回帖\t回帖\n回带\t迴帶\n回席\t回席\n回应\t回應\n回府\t回府\n回廊\t迴廊\n回弹\t回彈\n回归\t回歸\n回归年\t回歸年\n回归潮\t回歸潮\n回归热\t回歸熱\n回归线\t回歸線\n回形夹\t迴形夾\n回形针\t迴形針\n回得\t回得\n回得去\t回得去\n回得来\t回得來\n回心\t迴心\n回心转意\t回心轉意\n回忆\t回憶\n回忆录\t回憶錄\n回忆说\t回憶說\n回忆起\t回憶起\n回忌\t回忌\n回念\t回念\n回思\t回思\n回想\t回想\n回想到\t回想到\n回想起\t回想起\n回想起来\t回想起來\n回惶\t回惶\n回戏\t回戲\n回手\t回手\n回扣\t回扣\n回执\t回執\n回折格子\t回折格子\n回护\t迴護\n回报\t回報\n回报率\t回報率\n回拜\t回拜\n回拨\t回撥\n回掉\t回掉\n回援\t回援\n回收\t回收\n回收价值\t回收價值\n回收商\t回收商\n回收场\t回收場\n回收物\t回收物\n回收率\t回收率\n回收站\t回收站\n回收量\t回收量\n回放\t回放\n回教\t回教\n回教世界\t回教世界\n回教人\t回教人\n回教会议组织\t回教會議組織\n回教信徒\t回教信徒\n回教党\t回教黨\n回教国\t回教國\n回教圣战\t回教聖戰\n回教帝国\t回教帝國\n回教开斋节\t回教開齋節\n回教徒\t回教徒\n回教忠孝节\t回教忠孝節\n回敬\t回敬\n回数票\t回數票\n回文\t迴文\n回文织锦\t迴文織錦\n回斡\t迴斡\n回旋\t迴旋\n回族\t回族\n回旨\t回旨\n回易\t回易\n回映\t回映\n回春\t回春\n回暖\t回暖\n回望\t回望\n回朝\t回朝\n回本\t回本\n回条\t回條\n回来\t回來\n回档\t回檔\n回梦\t迴夢\n回棋\t回棋\n回椎\t回椎\n回民\t回民\n回民区\t回民區\n回水\t回水\n回波\t回波\n回流\t回流\n回清倒影\t迴清倒影\n回温\t回溫\n回港\t回港\n回游\t洄游\n回溯\t回溯\n回溯到\t回溯到\n回滩\t回灘\n回潮\t回潮\n回潮率\t回潮率\n回火\t回火\n回灯\t回燈\n回炉\t回爐\n回炉复帐\t回爐復帳\n回点\t回點\n回煞\t回煞\n回片\t回片\n回状\t回狀\n回环\t迴環\n回环转折\t迴環轉折\n回班\t回班\n回球\t回球\n回甘\t回甘\n回生\t回生\n回生乏术\t回生乏術\n回生起死\t回生起死\n回用\t回用\n回电\t回電\n回疆\t回疆\n回盘\t回盤\n回目\t回目\n回盲瓣\t迴盲瓣\n回看\t回看\n回眸\t回眸\n回眸一笑\t回眸一笑\n回着\t回著\n回示\t回示\n回礼\t回禮\n回神\t回神\n回票面\t回票面\n回禀\t回稟\n回禄\t回祿\n回禄之灾\t回祿之災\n回程\t回程\n回稳\t回穩\n回穴\t迴穴\n回空\t回空\n回笼\t回籠\n回答\t回答\n回答出来\t回答出來\n回答到\t回答到\n回答说\t回答說\n回籍\t回籍\n回纥\t回紇\n回纥兵\t回紇兵\n回纥军\t回紇軍\n回纳\t回納\n回纹针\t迴紋針\n回绕\t迴繞\n回绝\t回絕\n回翔\t迴翔\n回老家\t回老家\n回肠\t迴腸\n回肠九回\t回腸九回\n回肠九转\t迴腸九轉\n回肠伤气\t迴腸傷氣\n回肠寸断\t迴腸寸斷\n回肠荡气\t迴腸蕩氣\n回背\t回背\n回腕\t迴腕\n回航\t回航\n回航途中\t回航途中\n回船转舵\t回船轉舵\n回良玉\t回良玉\n回荡\t迴盪\n回落\t回落\n回补\t回補\n回西流\t回西流\n回见\t回見\n回访\t回訪\n回诊\t回診\n回话\t回話\n回诵\t迴誦\n回请\t回請\n回购\t回購\n回购额\t回購額\n回赎\t回贖\n回赠\t回贈\n回起\t回起\n回跌\t回跌\n回路\t迴路\n回身\t回身\n回车\t回車\n回车键\t回車鍵\n回转\t迴轉\n回转仪\t迴轉儀\n回转半径\t回轉半徑\n回转寿司\t回轉壽司\n回软\t回軟\n回过\t回過\n回过来\t回過來\n回过神\t回過神\n回返\t回返\n回还\t回還\n回送\t回送\n回递性\t迴遞性\n回途\t回途\n回遑\t回遑\n回道\t回道\n回避\t迴避\n回避学习\t迴避學習\n回邪\t回邪\n回邮\t回郵\n回邮信封\t回郵信封\n回部\t回部\n回采\t回採\n回里\t回里\n回里面\t回裡面\n回銮\t迴鑾\n回销\t回銷\n回锅\t回鍋\n回锅油\t回鍋油\n回锅肉\t回鍋肉\n回锋\t回鋒\n回门\t回門\n回阑\t回闌\n回防\t回防\n回阳荡气\t迴陽蕩氣\n回雪\t迴雪\n回青\t回青\n回音\t迴音\n回顾\t回顧\n回风\t迴風\n回飙\t迴飆\n回飞棒\t回飛棒\n回馈\t回饋\n回首\t回首\n回马\t回馬\n回马枪\t回馬槍\n回驳\t回駁\n回魂仙梦\t迴魂仙夢\n回鱼箸\t回魚箸\n回鹘\t回鶻\n回鹘文\t回鶻文\n回黄倒皂\t回黃倒皂\n回黄转绿\t回黃轉綠\n因事制宜\t因事制宜\n因于\t因於\n因地制宜\t因地制宜\n因奸成孕\t因姦成孕\n因斯布鲁克\t因斯布魯克\n因时制宜\t因時制宜\n因果关系\t因果關係\n因缘巧合\t因緣巧合\n团丁\t團丁\n团主\t團主\n团书\t團書\n团伙\t團伙\n团体\t團體\n团体冠军\t團體冠軍\n团体协约\t團體協約\n团体奖\t團體獎\n团体性\t團體性\n团体意识\t團體意識\n团体操\t團體操\n团体治疗\t團體治療\n团体活动\t團體活動\n团体票\t團體票\n团体组\t團體組\n团体行\t團體行\n团体行动\t團體行動\n团体规范\t團體規範\n团体赛\t團體賽\n团体辅导\t團體輔導\n团保\t團保\n团剥\t團剝\n团勇\t團勇\n团匪\t團匪\n团名\t團名\n团员\t團員\n团团\t團團\n团团围住\t團團圍住\n团团转\t團團轉\n团围\t團圍\n团圆\t團圓\n团圆夜\t團圓夜\n团圆日\t團圓日\n团圆节\t團圓節\n团圆饭\t團圓飯\n团坐\t團坐\n团头\t團頭\n团头团脸\t團頭團臉\n团头聚面\t團頭聚面\n团契\t團契\n团委\t團委\n团子\t糰子\n团年\t團年\n团康\t團康\n团弄\t團弄\n团扇\t團扇\n团扇妾\t團扇妾\n团拜\t團拜\n团掿\t團掿\n团旗\t團旗\n团服\t團服\n团栾\t團欒\n团案\t團案\n团沙群岛\t團沙群島\n团牌\t團牌\n团状\t團狀\n团瓢\t團瓢\n团矿\t團礦\n团社\t團社\n团空\t團空\n团管区\t團管區\n团粉\t糰粉\n团粒\t團粒\n团练\t團練\n团结\t團結\n团结一心\t團結一心\n团结一致\t團結一致\n团结就是力量\t團結就是力量\n团结工会\t團結工會\n团聚\t團聚\n团脐\t團臍\n团脸\t團臉\n团花\t團花\n团茶\t團茶\n团荷\t團荷\n团藻\t團藻\n团行\t團行\n团购\t團購\n团费\t團費\n团部\t團部\n团长\t團長\n团队\t團隊\n团队奖\t團隊獎\n";

/// Part 46 of the text.
pub const ST_PHRASES_46: &'static str = "团队报\t團隊報\n团队精神\t團隊精神\n团队赛\t團隊賽\n团音\t團音\n团风\t團風\n团风县\t團風縣\n团香扇\t團香扇\n团鱼\t團魚\n团龙\t團龍\n团龙儿\t團龍兒\n园游会\t園遊會\n园游券\t園遊券\n园里\t園裡\n困乏\t睏乏\n困了\t困了\n困于\t困於\n困人\t困人\n困住\t困住\n困倦\t睏倦\n困倦起来\t困倦起來\n困兽\t困獸\n困兽之斗\t困獸之鬥\n困兽犹斗\t困獸猶鬥\n困厄\t困厄\n困围\t困圍\n困在\t困在\n困境\t困境\n困处\t困處\n困处泥涂\t困處泥塗\n困学\t困學\n困守\t困守\n困局\t困局\n困心衡虑\t困心衡慮\n困惑\t困惑\n困惑不解\t困惑不解\n困惫\t困憊\n困意\t睏意\n困扰\t困擾\n困斗\t困鬥\n困歇\t困歇\n困滞\t困滯\n困畏\t困畏\n困知勉行\t困知勉行\n困穷\t困窮\n困窘\t困窘\n困竭\t困竭\n困腾腾\t困騰騰\n困苦\t困苦\n困觉\t睏覺\n困话\t困話\n困踬\t困躓\n困蹙\t困蹙\n困阨\t困阨\n困阻\t困阻\n困隘\t困隘\n困难\t困難\n困难在于\t困難在於\n困难度\t困難度\n困难点\t困難點\n困难重重\t困難重重\n困顿\t困頓\n围了\t圍了\n围困\t圍困\n围困在\t圍困在\n围场满族蒙古族自治县\t圍場滿族蒙古族自治縣\n围岩\t圍岩\n固于\t固於\n固定制\t固定制\n固定术\t固定術\n固定汇率\t固定匯率\n固征\t固徵\n国一制\t國一制\n国之桢干\t國之楨榦\n国乐团\t國樂團\n国于\t國於\n国仇\t國仇\n国会制\t國會制\n国共两党\t國共兩黨\n国共合作\t國共合作\n国别\t國別\n国别史\t國別史\n国剧团\t國劇團\n国务院台湾事务办公室\t國務院臺灣事務辦公室\n国务院法制局\t國務院法制局\n国历\t國曆\n国历年\t國曆年\n国发\t國發\n国发院\t國發院\n国台办\t國臺辦\n国台语\t國臺語\n国合会\t國合會\n国困民艰\t國困民艱\n国土规划\t國土規劃\n国土资讯系统\t國土資訊系統\n国外汇兑\t國外匯兌\n国大主席团\t國大主席團\n国大代表\t國大代表\n国大代表部\t國大代表部\n国大党\t國大黨\n国家党\t國家黨\n国家制度\t國家制度\n国家发展和改革委员会\t國家發展和改革委員會\n国家发展改革委\t國家發展改革委\n国家发展计划委员会\t國家發展計劃委員會\n国家外汇管理局\t國家外匯管理局\n国家开发银行\t國家開發銀行\n国家文物鉴定委员会\t國家文物鑑定委員會\n国家旅游度假区\t國家旅遊度假區\n国家杯\t國家杯\n国家标准\t國家標準\n国家标准中文交换码\t國家標準中文交換碼\n国家标准化管理委员会\t國家標準化管理委員會\n国家标准码\t國家標準碼\n国家栋梁\t國家棟樑\n国家永续发展论坛\t國家永續發展論壇\n国家空气品质标准\t國家空氣品質標準\n国家规范\t國家規範\n国家计划委员会\t國家計劃委員會\n国家食品药品监督管理局\t國家食品藥品監督管理局\n国建学术联谊会\t國建學術聯誼會\n国建计划\t國建計劃\n国戚\t國戚\n国戚皇亲\t國戚皇親\n国戚里\t國戚裡\n国术\t國術\n国术团\t國術團\n国术社\t國術社\n国术馆\t國術館\n国梁\t國樑\n国民党\t國民黨\n国民党军队\t國民黨軍隊\n国民党员\t國民黨員\n国民党版\t國民黨版\n国民党籍\t國民黨籍\n国民常用字标准字体表\t國民常用字標準字體表\n国民生活须知\t國民生活須知\n国民礼仪范例\t國民禮儀範例\n国民裁判制\t國民裁判制\n国民革命党\t國民革命黨\n国泰综合医院\t國泰綜合醫院\n国王杯\t國王杯\n国社党\t國社黨\n国科会同步辐射研究中心\t國科會同步輻射研究中心\n国科会晶片设计制作中心\t國科會晶片設計製作中心\n国科会精密仪器发展中心\t國科會精密儀器發展中心\n国穷民困\t國窮民困\n国立历史博物馆\t國立歷史博物館\n国立台北科技大学\t國立臺北科技大學\n国立台湾博物馆\t國立臺灣博物館\n国立台湾图书馆\t國立臺灣圖書館\n国立台湾技术大学\t國立臺灣技術大學\n国立教育广播电台\t國立教育廣播電臺\n国胄\t國胄\n国药\t國藥\n国语注音符号第一式\t國語注音符號第一式\n国语注音符号第二式\t國語注音符號第二式\n国贸系\t國貿系\n国防体制\t國防體制\n国际人权标准\t國際人權標準\n国际体操联合会\t國際體操聯合會\n国际先驱论坛报\t國際先驅論壇報\n国际公制\t國際公制\n国际关系\t國際關係\n国际关系学院\t國際關係學院\n国际准备\t國際準備\n国际分工体制\t國際分工體制\n国际单位制\t國際單位制\n国际台\t國際臺\n国际合作\t國際合作\n国际合作节\t國際合作節\n国际奥林匹克委员会\t國際奧林匹克委員會\n国际学术网路\t國際學術網路\n国际学舍\t國際學舍\n国际开发总会\t國際開發總會\n国际柜\t國際櫃\n国际标准\t國際標準\n国际标准书码\t國際標準書碼\n国际标准化组织\t國際標準化組織\n国际标准舞\t國際標準舞\n国际水准\t國際水準\n国际漫游\t國際漫遊\n国际漫游拨接服务\t國際漫遊撥接服務\n国际电影制片人协会联盟\t國際電影製片人協會聯盟\n国际羽毛球联合会\t國際羽毛球聯合會\n国际舞台\t國際舞臺\n国际航空联合会\t國際航空聯合會\n国际讬管制度\t國際託管制度\n国际贷借\t國際貸借\n国际足球联合会\t國際足球聯合會\n图书巡回车\t圖書巡迴車\n图书目录\t圖書目錄\n图书餐饮复合式餐厅\t圖書餐飲複合式餐廳\n图书馆周\t圖書館週\n图亚克拜\t圖亞克拜\n图像用户介面\t圖像用戶介面\n图克\t圖克\n图录\t圖錄\n图形用户界面\t圖形用戶界面\n图形界面\t圖形界面\n图文并茂\t圖文並茂\n图昆线\t圖崑線\n图木舒克\t圖木舒克\n图木舒克市\t圖木舒克市\n图板\t圖板\n图表\t圖表\n图表说明\t圖表說明\n图财致命\t圖財致命\n图资系统\t圖資系統\n图里\t圖裡\n图里亚夫\t圖里亞夫\n图里河\t圖里河\n图鉴\t圖鑑\n图面\t圖面\n囿于\t囿於\n囿于一时\t囿於一時\n囿于成见\t囿於成見\n圆台\t圓臺\n圆周\t圓周\n圆周率\t圓周率\n圆周角\t圓周角\n圆周运动\t圓周運動\n圆形面包\t圓形麵包\n圆板\t圓板\n圆板状\t圓板狀\n圆柱面\t圓柱面\n圆舞曲\t圓舞曲\n圆锥台\t圓錐臺\n圆锥曲线\t圓錐曲線\n圆雕\t圓雕\n圆面大耳\t圓面大耳\n圆面积\t圓面積\n圆面饼\t圓麵餅\n圈占\t圈佔\n圈子里\t圈子裡\n圈扣\t圈釦\n圈杯\t圈杯\n圈梁\t圈樑\n圈里\t圈裡\n圈里人\t圈裡人\n土中曲蟮\t土中曲蟮\n土制\t土製\n土制品\t土製品\n土参\t土參\n土司面包\t土司麵包\n土地利用规划\t土地利用規劃\n土地征收\t土地徵收\n土地重划\t土地重劃\n土壤冲蚀\t土壤沖蝕\n土布\t土布\n土托鱼\t土托魚\n土托鱼羹\t土托魚羹\n土木工程学系\t土木工程學系\n土木系\t土木系\n土法炼钢\t土法煉鋼\n土洋并举\t土洋並舉\n土洋结合\t土洋結合\n土种\t土種\n土耳其进行曲\t土耳其進行曲\n土药\t土藥\n土谷祠\t土穀祠\n土里\t土裡\n土里土气\t土裡土氣\n土霉素\t土黴素\n圣修伯里\t聖修伯里\n圣克里斯多福\t聖克里斯多福\n圣克里斯托巴\t聖克里斯托巴\n圣克鲁斯\t聖克魯斯\n";

/// Part 47 of the text.
pub const ST_PHRASES_47: &'static str = "圣克鲁斯岛\t聖克魯斯島\n圣哈辛托\t聖哈辛托\n圣坛\t聖壇\n圣塔蒙尼加\t聖塔蒙尼加\n圣帕台风\t聖帕颱風\n圣帕强台\t聖帕強颱\n圣帕特里克\t聖帕特里克\n圣帕袭台\t聖帕襲臺\n圣德克旭贝里\t聖德克旭貝里\n圣拉蒙\t聖拉蒙\n圣杯\t聖盃\n圣杰门队\t聖傑門隊\n圣母升天节\t聖母升天節\n圣潘克勒斯站\t聖潘克勒斯站\n圣火台\t聖火臺\n圣皮埃尔和密克隆\t聖皮埃爾和密克隆\n圣神降临周\t聖神降臨週\n圣胡安\t聖胡安\n圣药\t聖藥\n圣诞冲举\t聖誕沖舉\n圣诞叶\t聖誕葉\n圣诞百合\t聖誕百合\n圣迹\t聖蹟\n圣餐台\t聖餐檯\n圣餐布\t聖餐布\n在一定范围内\t在一定範圍內\n在下面\t在下面\n在世界范围内\t在世界範圍內\n在于\t在於\n在克制\t在剋制\n在全国范围\t在全國範圍\n在全国范围内\t在全國範圍內\n在全省范围内\t在全省範圍內\n在出\t在出\n在台\t在臺\n在台协会\t在臺協會\n在后\t在後\n在坛子胡同\t在罈子胡同\n在家修\t在家修\n在家出家\t在家出家\n在家千日好出门一时难\t在家千日好出門一時難\n在家靠父母出外靠朋友\t在家靠父母出外靠朋友\n在密切注意\t在密切注意\n在念\t在唸\n在某种程度上\t在某種程度上\n在核\t在覈\n在桥梁工地上\t在橋樑工地上\n在此之后\t在此之後\n在此后\t在此後\n在泛\t在泛\n在海里\t在海裡\n在眼里\t在眼裡\n在种\t在種\n在职干部\t在職幹部\n在职进修\t在職進修\n在范围内\t在範圍內\n在规范\t在規範\n在野党\t在野黨\n圭表\t圭表\n地一卷\t地一捲\n地下修文\t地下修文\n地下修文郎\t地下修文郎\n地下城里\t地下城裡\n地下害虫\t地下害蟲\n地下工厂\t地下工廠\n地下开采\t地下開採\n地下水面\t地下水面\n地下电台\t地下電臺\n地下签赌\t地下簽賭\n地下通汇\t地下通匯\n地丑德齐\t地醜德齊\n地价\t地價\n地价公告\t地價公告\n地价税\t地價稅\n地克制\t地剋制\n地冲\t地衝\n地制法\t地制法\n地区党\t地區黨\n地区冲突\t地區衝突\n地区差价\t地區差價\n地占\t地佔\n地台\t地臺\n地坛\t地壇\n地塞米松\t地塞米松\n地大物丰\t地大物豐\n地尽其利\t地盡其利\n地干吧\t地幹吧\n地平面\t地平面\n地当\t地當\n地志\t地誌\n地念\t地念\n地方志\t地方誌\n地方戏曲\t地方戲曲\n地方色彩\t地方色彩\n地方里\t地方裡\n地无三里平\t地無三里平\n地板\t地板\n地板操\t地板操\n地板运动\t地板運動\n地极\t地極\n地核\t地核\n地灵人杰\t地靈人傑\n地热发电厂\t地熱發電廠\n地牛发威\t地牛發威\n地狱谷\t地獄谷\n地球同步轨道\t地球同步軌道\n地理\t地理\n地理极\t地理極\n地理资讯系统\t地理資訊系統\n地瓜叶\t地瓜葉\n地瓜干\t地瓜乾\n地瓜签\t地瓜籤\n地瓜面\t地瓜面\n地缘关系\t地緣關係\n地缝里\t地縫裡\n地老天荒不了情\t地老天荒不了情\n地胄\t地胄\n地蜡\t地蠟\n地表\t地表\n地表水\t地表水\n地覆天翻\t地覆天翻\n地质年代表\t地質年代表\n地质年表\t地質年表\n地质编录\t地質編錄\n地道里\t地道裡\n地里\t地裡\n地里鬼\t地裡鬼\n地铁里\t地鐵裡\n地面\t地面\n地面上\t地面上\n地面下\t地面下\n地面层\t地面層\n地面控制\t地面控制\n地面核爆炸\t地面核爆炸\n地面气压\t地面氣壓\n地面水\t地面水\n地面温度\t地面溫度\n地面灌溉\t地面灌溉\n地面站\t地面站\n地面部队\t地面部隊\n地面零点\t地面零點\n场合\t場合\n场记板\t場記板\n场里\t場裡\n场面\t場面\n场面阔绰\t場面闊綽\n均一价\t均一價\n均权制度\t均權制度\n均田制\t均田制\n均田制度\t均田制度\n坊曲\t坊曲\n坍台\t坍臺\n坎塔布连\t坎塔布連\n坎塔布连山脉\t坎塔布連山脈\n坎塔布连海\t坎塔布連海\n坏了\t壞了\n坏了性命\t壞了性命\n坏于\t壞於\n坏家伙\t壞傢伙\n坏恶\t壞惡\n坐了\t坐了\n坐冷板凳\t坐冷板凳\n坐台\t坐檯\n坐台子\t坐檯子\n坐台小姐\t坐檯小姐\n坐回\t坐回\n坐困\t坐困\n坐困愁城\t坐困愁城\n坐如钟\t坐如鐘\n坐山观虎斗\t坐山觀虎鬥\n坐庄\t坐莊\n坐板疮\t坐板瘡\n坐标\t座標\n坐标系\t座標系\n坐致\t坐致\n坐药\t坐藥\n坐萝卜\t坐蘿蔔\n坐薪尝胆\t坐薪嘗膽\n坐蜡\t坐蠟\n坐钟\t坐鐘\n坐领干薪\t坐領乾薪\n坑蒙\t坑蒙\n坑谷里\t坑谷裡\n坑道里\t坑道裡\n坑里\t坑裡\n块肉馀生录\t塊肉餘生錄\n坚卧烟霞\t堅臥煙霞\n坚白同异\t堅白同異\n坚致\t堅緻\n坛佳酿\t罈佳釀\n坛兆\t壇兆\n坛台\t壇臺\n坛场\t壇場\n坛坛罐罐\t罈罈罐罐\n坛坫\t壇坫\n坛坫周旋\t壇坫周旋\n坛城\t壇城\n坛女儿红\t罈女兒紅\n坛好酒\t罈好酒\n坛子\t罈子\n坛宇\t壇宇\n坛烧刀子\t罈燒刀子\n坛白干\t罈白干\n坛美酒\t罈美酒\n坛老酒\t罈老酒\n坛陈年\t罈陳年\n坛騞\t罈騞\n坛高粱\t罈高粱\n坛𬴃\t罈騞\n坡布莱\t坡布萊\n坡道里\t坡道裡\n坤极\t坤極\n坤范\t坤範\n坤表\t坤錶\n坦克\t坦克\n坦克兵\t坦克兵\n坦克型\t坦克型\n坦克车\t坦克車\n坦坦荡荡\t坦坦蕩蕩\n坦尚尼亚联合共和国\t坦尚尼亞聯合共和國\n坦涂\t坦塗\n坦荡\t坦蕩\n坦荡荡\t坦蕩蕩\n坨里\t坨里\n坯布\t坯布\n坱郁\t坱鬱\n垂了\t垂了\n垂了下去\t垂了下去\n垂了下来\t垂了下來\n垂于\t垂於\n垂于将来\t垂於將來\n垂发\t垂髮\n垂吊\t垂吊\n垂帘\t垂簾\n垂帘听政\t垂簾聽政\n垂念\t垂念\n垂死挣扎\t垂死掙扎\n垂注\t垂注\n垂涎欲滴\t垂涎欲滴\n垂直\t垂直\n垂直于\t垂直於\n垂直搜索\t垂直搜索\n垂直面\t垂直面\n垂范\t垂範\n垂范百世\t垂範百世\n垂裕后昆\t垂裕後昆\n垂面\t垂面\n垂馨千祀\t垂馨千祀\n垃圾回收\t垃圾回收\n垃圾虫\t垃圾蟲\n垄断价格\t壟斷價格\n垄断资产\t壟斷資產\n垄断集团\t壟斷集團\n型别\t型別\n型别转换\t型別轉換\n型录\t型錄\n型录式广告\t型錄式廣告\n型板\t型板\n型范\t型範\n垢面\t垢面\n垣曲\t垣曲\n垣曲县\t垣曲縣\n垦丁杯\t墾丁盃\n垦复\t墾復\n垦辟\t墾闢\n垫个\t墊個\n垫了\t墊了\n垫出\t墊出\n垫出去\t墊出去\n垫出来\t墊出來\n垫发\t墊發\n垫回\t墊回\n垫回去\t墊回去\n垫回来\t墊回來\n垫板\t墊板\n垮了\t垮了\n垮台\t垮臺\n垮向\t垮向\n埃克托\t埃克托\n埃克托柏辽兹\t埃克托柏遼茲\n埃及历\t埃及曆\n埃及历史\t埃及歷史\n埃及艳后\t埃及艷后\n埃夫伯里\t埃夫伯里\n埃布罗\t埃布羅\n埃布罗河\t埃布羅河\n埃德蒙顿\t埃德蒙頓\n埃拉托塞尼斯\t埃拉托塞尼斯\n埃格尔松\t埃格爾松\n埃荣冲\t埃榮衝\n埃里温\t埃里溫\n埋了\t埋了\n埋头寻表\t埋頭尋錶\n埋头寻钟\t埋頭尋鐘\n埋头寻钟表\t埋頭尋鐘錶\n埋头苦干\t埋頭苦幹\n埋尸\t埋屍\n埋布\t埋佈\n埋杆竖柱\t埋杆豎柱\n埋没人才\t埋沒人才\n城市依赖症\t城市依賴症\n城市规划\t城市規劃\n城里\t城裡\n城雕\t城雕\n埔里\t埔里\n埔里社抚垦局\t埔裡社撫墾局\n埔里镇\t埔里鎮\n域名抢注\t域名搶注\n域名注册\t域名註冊\n域多利皇后\t域多利皇后\n埤塘里\t埤塘里\n培养出\t培養出\n培养出来\t培養出來\n培尔松\t培爾松\n培植出\t培植出\n培特曼赫鲁威克\t培特曼赫魯威克\n培美曲塞\t培美曲塞\n培育出\t培育出\n";

/// Part 48 of the text.
pub const ST_PHRASES_48: &'static str = "培育出来\t培育出來\n培里克利斯\t培里克利斯\n培里克里斯\t培里克里斯\n基于\t基於\n基克维特\t基克維特\n基准\t基準\n基准兵\t基準兵\n基准日\t基準日\n基准法\t基準法\n基准点\t基準點\n基准线\t基準線\n基准面\t基準面\n基因修改\t基因修改\n基因技术\t基因技術\n基因表达\t基因表達\n基团\t基團\n基地台\t基地臺\n基尔库克\t基爾庫克\n基岩\t基岩\n基布兹\t基布茲\n基干\t基幹\n基度山恩仇记\t基度山恩仇記\n基性岩石\t基性岩石\n基本多文种平面\t基本多文種平面\n基本词汇\t基本詞彙\n基本面\t基本面\n基板\t基板\n基极\t基極\n基民党\t基民黨\n基里兰柯\t基里蘭柯\n基里巴斯\t基里巴斯\n基里巴斯共和国\t基里巴斯共和國\n基面\t基面\n堂分姑娘\t堂分姑娘\n堂后官\t堂後官\n堂屋里挂草荐\t堂屋裡掛草薦\n堂布\t堂布\n堆了\t堆了\n堆案盈几\t堆案盈几\n堕云雾中\t墮雲霧中\n堕胎药\t墮胎藥\n堙淀\t堙澱\n堡里\t堡裡\n堪为表率\t堪為表率\n堪布\t堪布\n堪当\t堪當\n堪当重任\t堪當重任\n堪称典范\t堪稱典範\n堪舆术\t堪輿術\n塌台\t塌臺\n塑炼\t塑煉\n塑炼机\t塑煉機\n塑胶制\t塑膠製\n塑胶布\t塑膠布\n塑胶杯\t塑膠杯\n塑胶板\t塑膠板\n塑造出\t塑造出\n塔什干\t塔什干\n塔什库尔干乡\t塔什庫爾干鄉\n塔什库尔干塔吉克自治县\t塔什庫爾干塔吉克自治縣\n塔什库尔干自治县\t塔什庫爾干自治縣\n塔克\t塔克\n塔克拉玛干\t塔克拉瑪干\n塔克拉玛干沙漠\t塔克拉瑪干沙漠\n塔克拉马干\t塔克拉馬干\n塔克辛\t塔克辛\n塔台\t塔臺\n塔吉克\t塔吉克\n塔吉克人\t塔吉克人\n塔吉克共和国\t塔吉克共和國\n塔吉克族\t塔吉克族\n塔吊\t塔吊\n塔娜苏冈\t塔娜蘇岡\n塔娜苏甘\t塔娜蘇甘\n塔布\t塔布\n塔木托格拉克\t塔木托格拉克\n塔波兰尼克\t塔波蘭尼克\n塔罗维克\t塔羅維克\n塔里契亚努\t塔里契亞努\n塔里木\t塔里木\n塔里木河\t塔里木河\n塔里木盆地\t塔里木盆地\n塔里班\t塔里班\n塔钟\t塔鐘\n塞上曲\t塞上曲\n塞下曲\t塞下曲\n塞克\t塞克\n塞克森\t塞克森\n塞回\t塞回\n塞尔提克\t塞爾提克\n塞尔提克队\t塞爾提克隊\n塞尔维亚克罗地亚语\t塞爾維亞克羅地亞語\n塞尔维亚民主党\t塞爾維亞民主黨\n塞尔蒂克\t塞爾蒂克\n塞尔蒂克队\t塞爾蒂克隊\n塞瓦斯托波尔\t塞瓦斯托波爾\n塞耳盗钟\t塞耳盜鐘\n塞药\t塞藥\n塞莉佛维克\t塞莉佛維克\n塞车症候群\t塞車症候群\n塞韦里诺\t塞韋里諾\n填个\t填個\n填了\t填了\n填发\t填發\n填字游戏\t填字遊戲\n填表\t填表\n填表格\t填表格\n墓志\t墓誌\n墓志铭\t墓誌銘\n墓表\t墓表\n墓道里\t墓道裡\n墙壁里\t牆壁裡\n墙角里\t牆角裡\n墙里\t牆裡\n墙面\t牆面\n墙面而立\t牆面而立\n增修\t增修\n增辟\t增闢\n增量参数\t增量參數\n墟里\t墟里\n墨卷\t墨卷\n墨发\t墨髮\n墨斗\t墨斗\n墨斗鱼\t墨斗魚\n墨沈\t墨沈\n墨沈未干\t墨瀋未乾\n墨沉沉\t墨沉沉\n墨索里尼\t墨索里尼\n墨荡子\t墨盪子\n墨西哥合众国\t墨西哥合眾國\n墨迹未干\t墨跡未乾\n墩台\t墩臺\n墩布\t墩布\n壁志\t壁誌\n壁立千仞\t壁立千仞\n壁钟\t壁鐘\n壑谷\t壑谷\n士别三日\t士別三日\n士别三日刮目相待\t士別三日刮目相待\n士别多日\t士別多日\n士胄\t士胄\n壮室之秋\t壯室之秋\n壮志\t壯志\n壮志凌云\t壯志凌雲\n壮志凌霄\t壯志凌霄\n壮志未酬\t壯志未酬\n壮游\t壯遊\n壮阳药\t壯陽藥\n壮面\t壯麵\n声价\t聲價\n声价不凡\t聲價不凡\n声价十倍\t聲價十倍\n声如洪钟\t聲如洪鐘\n声彻云霄\t聲徹雲霄\n声情并茂\t聲情並茂\n声母\t聲母\n声类系统\t聲類系統\n壳里\t殼裡\n壶口瀑布\t壺口瀑布\n壶范\t壺範\n壶里\t壺裡\n壶里乾坤\t壺裡乾坤\n壹个人\t壹個人\n壹周刊\t壹週刊\n壹败涂地\t壹敗塗地\n壹郁\t壹鬱\n处于\t處於\n处女表演\t處女表演\n处方药\t處方藥\n处理\t處理\n处理厂\t處理廠\n处理表\t處理表\n备尝\t備嘗\n备尝忧患\t備嘗憂患\n备尝艰苦\t備嘗艱苦\n备尝艰辛\t備嘗艱辛\n备尝辛苦\t備嘗辛苦\n备御\t備禦\n备忘录\t備忘錄\n备抵折旧\t備抵折舊\n备注\t備註\n备注栏\t備註欄\n复三\t復三\n复业\t復業\n复习\t複習\n复习考\t複習考\n复书\t復書\n复交\t復交\n复仇\t復仇\n复仇者\t復仇者\n复仇记\t復仇記\n复仇雪耻\t復仇雪恥\n复以百万\t復以百萬\n复任\t復任\n复会\t復會\n复位\t復位\n复信\t覆信\n复健\t復健\n复健中心\t復健中心\n复健医学\t復健醫學\n复健科\t復健科\n复健赛\t復健賽\n复元\t復元\n复元音\t複元音\n复共轭\t複共軛\n复兴\t復興\n复兴中学\t復興中學\n复兴乡\t復興鄉\n复兴党\t復興黨\n复兴剧校\t復興劇校\n复兴剧艺学校\t復興劇藝學校\n复兴北路\t復興北路\n复兴区\t復興區\n复兴南路\t復興南路\n复兴号\t復興號\n复兴基地\t復興基地\n复兴岗\t復興崗\n复兴岛\t復興島\n复兴工商\t復興工商\n复兴广播\t復興廣播\n复兴广播电台\t復興廣播電臺\n复兴时代\t復興時代\n复兴社\t復興社\n复兴路\t復興路\n复兴门\t復興門\n复兴馆\t復興館\n复兴高中\t復興高中\n复写\t複寫\n复写纸\t複寫紙\n复冰\t復冰\n复决\t複決\n复决权\t複決權\n复出\t復出\n复函\t覆函\n复函数\t複函數\n复分数\t複分數\n复分析\t複分析\n复分解\t複分解\n复分解反应\t複分解反應\n复刊\t復刊\n复列\t複列\n复利\t複利\n复利法\t複利法\n复利率\t複利率\n复利计算\t複利計算\n复制\t複製\n复制下来\t複製下來\n复制出\t複製出\n复制品\t複製品\n复刻\t復刻\n复华\t復華\n复华金\t復華金\n复卒\t復卒\n复印\t複印\n复印品\t複印品\n复印机\t複印機\n复印纸\t複印紙\n复原\t復原\n复原期\t復原期\n复发\t復發\n复发性\t復發性\n复发率\t復發率\n复变函数\t複變函數\n复变函数论\t複變函數論\n复古\t復古\n复古会\t復古會\n复古风\t復古風\n复句\t複句\n复叶\t複葉\n复合\t複合\n复合企业\t複合企業\n复合传动\t複合傳動\n复合体\t複合體\n复合元音\t複合元音\n复合光\t複合光\n复合包装\t複合包裝\n复合句\t複合句\n复合命题\t複合命題\n复合国\t複合國\n复合型\t複合型\n复合增长\t複合增長\n复合字\t複合字\n复合年\t複合年\n复合式\t複合式\n复合性\t複合性\n复合技\t複合技\n复合摄影\t複合攝影\n复合机\t複合機\n复合材料\t複合材料\n复合板\t複合板\n复合架\t複合架\n复合样式\t複合樣式\n复合概念\t複合概念\n复合模\t複合模\n复合母音\t複合母音\n复合民族国家\t複合民族國家\n复合物\t複合物\n复合管\t複合管\n复合肥料\t複合肥料\n复合膜\t複合膜\n复合药\t複合藥\n复合蛋白质\t複合蛋白質\n复合装甲\t複合裝甲\n复合词\t複合詞\n复合词素词\t複合詞素詞\n复合量词\t複合量詞\n复合金属\t複合金屬\n复合韵母\t複合韻母\n复名\t複名\n复名数\t複名數\n复名词\t複名詞\n复吸\t復吸\n复呈\t覆呈\n复员\t復員\n复员令\t復員令\n复命\t覆命\n复品牌\t複品牌\n复回\t復回\n复国\t復國\n复圆\t復圓\n复土\t復土\n复圣\t復聖\n复基因\t複基因\n复墓\t覆墓\n复壁\t複壁\n";

/// Part 49 of the text.
pub const ST_PHRASES_49: &'static str = "复壮\t復壯\n复复\t複復\n复始\t復始\n复姓\t複姓\n复婚\t復婚\n复婚制\t複婚制\n复子明辟\t復子明辟\n复字键\t複字鍵\n复学\t復學\n复学生\t復學生\n复审\t複審\n复对数\t複對數\n复工\t復工\n复帐\t覆帳\n复平面\t複平面\n复康巴士\t復康巴士\n复建\t復建\n复建中心\t復建中心\n复式\t複式\n复式关税\t複式關稅\n复式教学\t複式教學\n复式路面\t複式路面\n复归\t復歸\n复役\t復役\n复循环发电\t複循環發電\n复思\t復思\n复意\t複意\n复拍子\t複拍子\n复按\t覆按\n复政\t復政\n复数\t複數\n复数域\t複數域\n复数平面\t複數平面\n复数形\t複數形\n复数形式\t複數形式\n复文\t覆文\n复新\t復新\n复方\t複方\n复旦\t復旦\n复旦大学\t復旦大學\n复旦桥\t復旦橋\n复旧\t復舊\n复旧如新\t復舊如新\n复明\t復明\n复本\t複本\n复本位制度\t複本位制度\n复杂\t複雜\n复杂劳动\t複雜勞動\n复杂化\t複雜化\n复杂度\t複雜度\n复杂度理论\t複雜度理論\n复杂性\t複雜性\n复杂生产\t複雜生產\n复杂系统\t複雜系統\n复权\t復權\n复果\t複果\n复查\t複查\n复校\t覆校\n复核\t複覈\n复案\t復案\n复检\t複檢\n复次\t復次\n复殖吸虫\t複殖吸蟲\n复殖目\t複殖目\n复比\t複比\n复比例\t複比例\n复氧能力\t復氧能力\n复活\t復活\n复活岛\t復活島\n复活日\t復活日\n复活的军团\t復活的軍團\n复活节\t復活節\n复活节岛\t復活節島\n复活赛\t復活賽\n复流\t復流\n复流形\t複流形\n复测\t複測\n复燃\t復燃\n复现\t復現\n复生\t復生\n复用\t複用\n复电\t覆電\n复盐\t複鹽\n复盘\t復盤\n复目\t複目\n复相关\t複相關\n复眼\t複眼\n复礼\t復禮\n复礼克己\t復禮克己\n复种\t複種\n复种指数\t複種指數\n复称\t複稱\n复穴\t複穴\n复籍\t復籍\n复线\t複線\n复综语\t複綜語\n复耕\t復耕\n复职\t復職\n复肥\t複肥\n复色\t複色\n复色光\t複色光\n复苏\t復甦\n复苏期\t復甦期\n复苏术\t復甦術\n复萌\t復萌\n复襦\t複襦\n复视\t複視\n复训\t複訓\n复议\t複議\n复评\t複評\n复诊\t複診\n复词\t複詞\n复试\t複試\n复诵\t複誦\n复读\t復讀\n复读生\t復讀生\n复课\t復課\n复赛\t複賽\n复蹈其辙\t復蹈其轍\n复蹈前辙\t復蹈前轍\n复身\t復身\n复转\t復轉\n复辅音\t複輔音\n复辟\t復辟\n复辟事件\t復辟事件\n复返\t復返\n复述\t複述\n复选\t複選\n复选题\t複選題\n复道\t複道\n复醒\t復醒\n复钱\t複錢\n复阁\t複閣\n复阅\t複閱\n复除\t復除\n复雠\t復讎\n复音\t複音\n复音形\t複音形\n复音词\t複音詞\n复韵\t複韻\n复韵母\t複韻母\n复频\t複頻\n复验\t複驗\n复魄\t復魄\n夏于乔\t夏于喬\n夏历\t夏曆\n夏后氏\t夏后氏\n夏商周\t夏商周\n夏天里\t夏天裡\n夏姆锡克\t夏姆錫克\n夏川里美\t夏川里美\n夏布\t夏布\n夏日里\t夏日裡\n夏时制\t夏時制\n夏洛克\t夏洛克\n夏游\t夏遊\n夏炉冬扇\t夏爐冬扇\n夏秋\t夏秋\n夏种\t夏種\n夏虫\t夏蟲\n夏虫不可以语冰\t夏蟲不可以語冰\n夏虫不可语冰\t夏蟲不可語冰\n夏虫朝菌\t夏蟲朝菌\n夏里夫\t夏里夫\n夏鑪冬扇\t夏鑪冬扇\n夕烟\t夕煙\n外交代表\t外交代表\n外交关系\t外交關係\n外交关系理事会\t外交關係理事會\n外交团\t外交團\n外交系\t外交系\n外佣\t外傭\n外侧裂周区\t外側裂周區\n外借\t外借\n外出\t外出\n外出服\t外出服\n外出血\t外出血\n外出装\t外出裝\n外出访问\t外出訪問\n外制\t外製\n外厂\t外廠\n外发\t外發\n外合里差\t外合裡差\n外合里应\t外合裡應\n外后日\t外後日\n外向\t外向\n外向型\t外向型\n外国旅游者\t外國旅遊者\n外屋里的灶君爷\t外屋裡的灶君爺\n外弦\t外弦\n外强中干\t外強中乾\n外御其侮\t外禦其侮\n外戚\t外戚\n外戚里\t外戚裡\n外才\t外才\n外挂\t外掛\n外挂式\t外掛式\n外文系\t外文系\n外明不知里暗\t外明不知裡暗\n外来物种\t外來物種\n外来种\t外來種\n外松内紧\t外鬆內緊\n外核\t外核\n外欲\t外慾\n外汇\t外匯\n外汇储备\t外匯儲備\n外汇兑换\t外匯兌換\n外汇存底\t外匯存底\n外汇定期存单\t外匯定期存單\n外汇局\t外匯局\n外汇市场\t外匯市場\n外汇收入\t外匯收入\n外汇汇率\t外匯匯率\n外汇管制\t外匯管制\n外汇银行\t外匯銀行\n外涂\t外塗\n外烟\t外菸\n外用药\t外用藥\n外科学系\t外科學系\n外科手术\t外科手術\n外聘制\t外聘制\n外舍\t外舍\n外蒙\t外蒙\n外蒙古\t外蒙古\n外表\t外表\n外表上\t外表上\n外语系\t外語系\n外调制\t外調制\n外部链接\t外部鏈接\n外面\t外面\n外面儿光\t外面兒光\n外面情\t外面情\n夙仇\t夙仇\n夙心往志\t夙心往志\n夙愿\t夙願\n夙愿以偿\t夙願以償\n多不胜数\t多不勝數\n多丑\t多醜\n多么\t多麼\n多义关系\t多義關係\n多事之秋\t多事之秋\n多事逞才\t多事逞才\n多于\t多於\n多云\t多雲\n多云偶\t多雲偶\n多云偶阵雨\t多雲偶陣雨\n多云偶雨\t多雲偶雨\n多云有雨\t多雲有雨\n多人聊天系统\t多人聊天系統\n多余\t多餘\n多侧面\t多側面\n多借\t多借\n多党\t多黨\n多党制\t多黨制\n多党选举\t多黨選舉\n多冲\t多衝\n多凶少吉\t多凶少吉\n多出\t多出\n多出来\t多出來\n多功能表\t多功能表\n多半\t多半\n多占\t多佔\n多原作艺术\t多原作藝術\n多发性\t多發性\n多发病\t多發病\n多只\t多隻\n多只不\t多只不\n多只够\t多只夠\n多只怕\t多只怕\n多只有\t多只有\n多只能\t多只能\n多只要\t多只要\n多只需\t多只需\n多只靠\t多只靠\n多只顾\t多只顧\n多台\t多臺\n多吃多占\t多吃多佔\n多向\t多向\n多哈回合\t多哈回合\n多回\t多回\n多天后\t多天後\n多妻制\t多妻制\n多姿多彩\t多姿多彩\n多姿多采\t多姿多采\n多媒体杂志\t多媒體雜誌\n多媒体简报系统\t多媒體簡報系統\n多少只\t多少隻\n多少周\t多少週\n多少周围\t多少周圍\n多少周边\t多少周邊\n多少周遭\t多少周遭\n多层复\t多層複\n多层复迭\t多層複迭\n多干\t多幹\n多平台\t多平臺\n多平台环境\t多平臺環境\n多幸\t多幸\n多式综合语\t多式綜合語\n多当\t多當\n多彩\t多彩\n多彩多姿\t多彩多姿\n多情种子\t多情種子\n多才\t多才\n多才多艺\t多才多藝\n多拉尔蒙\t多拉爾蒙\n多指症\t多指症\n多数\t多數\n多数党\t多數黨\n多方面\t多方面\n多极化\t多極化\n多核\t多核\n多模光纤\t多模光纖\n多欲\t多欲\n多汗症\t多汗症\n多特蒙德\t多特蒙德\n多种\t多種\n多种多样\t多種多樣\n多种经营\t多種經營\n多种语言\t多種語言\n多种语言支持\t多種語言支持\n多管闲事\t多管閒事\n多米尼克\t多米尼克\n多粒子系统\t多粒子系統\n多蒙寄声\t多蒙寄聲\n多蒙推毂\t多蒙推轂\n多蒙药石\t多蒙藥石\n多表\t多表\n多轨录音\t多軌錄音\n多边合作\t多邊合作\n多采\t多采\n多采多姿\t多采多姿\n多里\t多里\n多面\t多面\n多面体\t多面體\n多面性\t多面性\n多面手\t多面手\n多面角\t多面角\n夜儿个\t夜兒個\n夜光云\t夜光雲\n夜光杯\t夜光杯\n夜光虫\t夜光蟲\n夜光表\t夜光錶\n夜半钟声\t夜半鐘聲\n夜台\t夜臺\n夜合\t夜合\n夜合花\t夜合花\n夜合钱\t夜合錢\n夜尿症\t夜尿症\n夜度娘\t夜度娘\n夜惊症\t夜驚症\n夜暗\t夜暗\n夜暗风高\t夜暗風高\n夜曲\t夜曲\n";

/// Part 50 of the text.
pub const ST_PHRASES_50: &'static str = "夜游\t夜遊\n夜游子\t夜遊子\n夜游神\t夜遊神\n夜游队\t夜遊隊\n夜盲症\t夜盲症\n夜色迷蒙\t夜色迷濛\n夜谭随录\t夜譚隨錄\n夜里\t夜裡\n夜雨秋灯录\t夜雨秋燈錄\n够了\t夠了\n够克制\t夠剋制\n够凶\t夠兇\n够出\t夠出\n够涂\t夠塗\n够种\t夠種\n够钟情\t夠鍾情\n够钟爱\t夠鍾愛\n够面子\t夠面子\n大一统志\t大一統誌\n大不了\t大不了\n大不相同\t大不相同\n大不里士\t大不里士\n大丑\t大丑\n大专同学\t大專同學\n大专杯\t大專盃\n大业千秋\t大業千秋\n大个\t大個\n大个儿\t大個兒\n大个子\t大個子\n大丰\t大豐\n大丰市\t大豐市\n大丰收\t大豐收\n大丰簋\t大豐簋\n大义觉迷录\t大義覺迷錄\n大乌苏里岛\t大烏蘇里島\n大事化小小事化了\t大事化小小事化了\n大于\t大於\n大人药\t大人藥\n大仁药专\t大仁藥專\n大价钱\t大價錢\n大众捷运系统\t大眾捷運系統\n大伙\t大夥\n大伙人\t大夥人\n大伙儿\t大夥兒\n大余\t大余\n大余县\t大余縣\n大便干燥\t大便乾燥\n大修\t大修\n大修理\t大修理\n大修理基金\t大修理基金\n大修道院\t大修道院\n大修道院长\t大修道院長\n大借款\t大借款\n大元大一统志\t大元大一統誌\n大党\t大黨\n大兵团\t大兵團\n大冲\t大沖\n大凌河\t大淩河\n大减价\t大減價\n大凶\t大凶\n大出\t大出\n大出丧\t大出喪\n大出其汗\t大出其汗\n大出意料之外\t大出意料之外\n大出手\t大出手\n大出血\t大出血\n大出锋头\t大出鋒頭\n大出风头\t大出風頭\n大利面\t大利麵\n大别\t大別\n大别山\t大別山\n大别山脉\t大別山脈\n大制作\t大製作\n大力发展\t大力發展\n大动干戈\t大動干戈\n大千\t大千\n大千世界\t大千世界\n大半\t大半\n大华技术学院\t大華技術學院\n大协奏曲\t大協奏曲\n大单于\t大單于\n大卤面\t大滷麵\n大卷\t大卷\n大厂\t大廠\n大厂县\t大廠縣\n大厂回族自治县\t大廠回族自治縣\n大历\t大曆\n大历十才子\t大曆十才子\n大历史\t大歷史\n大厦栋梁\t大廈棟樑\n大发\t大發\n大发利市\t大發利市\n大发慈悲\t大發慈悲\n大发牢骚\t大發牢騷\n大发神威\t大發神威\n大发脾气\t大發脾氣\n大发雷霆\t大發雷霆\n大叔于田\t大叔于田\n大只\t大隻\n大台\t大臺\n大台北\t大臺北\n大台北区\t大臺北區\n大叶合欢\t大葉合歡\n大叶大学\t大葉大學\n大叶性肺炎\t大葉性肺炎\n大叶桉\t大葉桉\n大叶野百合\t大葉野百合\n大叹\t大嘆\n大合唱\t大合唱\n大同\t大同\n大同世界\t大同世界\n大同主义\t大同主義\n大同之世\t大同之世\n大同乡\t大同鄉\n大同书\t大同書\n大同区\t大同區\n大同县\t大同縣\n大同商专\t大同商專\n大同国中\t大同國中\n大同大学\t大同大學\n大同小异\t大同小異\n大同市\t大同市\n大同教\t大同教\n大同煤矿\t大同煤礦\n大同盆地\t大同盆地\n大同盟\t大同盟\n大同社会\t大同社會\n大同路\t大同路\n大后天\t大後天\n大后年\t大後年\n大后方\t大後方\n大周后\t大周后\n大周折\t大周折\n大咸\t大咸\n大哗\t大譁\n大回\t大回\n大回朝\t大回朝\n大团\t大團\n大团圆\t大團圓\n大团白脸\t大團白臉\n大团结\t大團結\n大国家党\t大國家黨\n大地回春\t大地回春\n大地春回\t大地春回\n大场面\t大場面\n大型钟\t大型鐘\n大型钟表\t大型鐘錶\n大型钟面\t大型鐘面\n大堂里\t大堂裡\n大多\t大多\n大多数\t大多數\n大天后宫\t大天后宮\n大夫松\t大夫松\n大头症\t大頭症\n大头针\t大頭針\n大头面目\t大頭面目\n大夸\t大誇\n大奸\t大奸\n大奸似忠\t大奸似忠\n大姑娘\t大姑娘\n大姑娘坐花轿\t大姑娘坐花轎\n大娘\t大娘\n大娘子\t大娘子\n大宅里\t大宅裡\n大家伙儿\t大家夥兒\n大家风范\t大家風範\n大尽\t大盡\n大山谷州立大学\t大山谷州立大學\n大岩桐\t大岩桐\n大峡谷\t大峽谷\n大布\t大布\n大布棚\t大布棚\n大干\t大幹\n大干一场\t大幹一場\n大干一票\t大幹一票\n大干特干\t大幹特幹\n大幸\t大幸\n大廉价\t大廉價\n大当\t大當\n大志\t大志\n大恶\t大惡\n大才\t大才\n大才小用\t大才小用\n大才槃槃\t大才槃槃\n大打出手\t大打出手\n大打折扣\t大打折扣\n大折儿\t大摺兒\n大抚台\t大撫臺\n大排面\t大排麵\n大搜\t大搜\n大摆\t大擺\n大摆褶子\t大擺褶子\n大摇大摆\t大搖大擺\n大放异彩\t大放異彩\n大放异采\t大放異采\n大政方针\t大政方針\n大敌当前\t大敵當前\n大斗\t大斗\n大斗小秤\t大斗小秤\n大方向\t大方向\n大旱云霓\t大旱雲霓\n大旱望云霓\t大旱望雲霓\n大明历\t大明曆\n大明历史\t大明歷史\n大明大摆\t大明大擺\n大是不同\t大是不同\n大曲\t大麴\n大曲道\t大曲道\n大曲酒\t大麴酒\n大有分别\t大有分別\n大有径庭\t大有逕庭\n大有斩获\t大有斬獲\n大本钟\t大本鐘\n大本钟敲\t大本鐘敲\n大来历\t大來歷\n大杯\t大杯\n大板\t大板\n大板根\t大板根\n大板车\t大板車\n大核\t大核\n大梁\t大梁\n大楼监控系统\t大樓監控系統\n大榄涌\t大欖涌\n大欲\t大欲\n大武仑\t大武崙\n大气团\t大氣團\n大气折射\t大氣折射\n大气系\t大氣系\n大水冲倒龙王庙\t大水沖倒龍王廟\n大水冲倒龙王殿\t大水沖倒龍王殿\n大水冲溺\t大水沖溺\n大汉技术学院\t大漢技術學院\n大汗淋漓\t大汗淋漓\n大海捞针\t大海撈針\n大海里\t大海裡\n大涌\t大涌\n大润发\t大潤發\n大涨小回\t大漲小回\n大清一统志\t大清一統志\n大湄公河次区域合作\t大湄公河次區域合作\n大溪豆干\t大溪豆干\n大烟\t大煙\n大爱台\t大愛臺\n大班制\t大班制\n大班面包西饼\t大班麵包西餅\n大理岩\t大理岩\n大病初愈\t大病初癒\n大症\t大症\n大白日里借不出个干灯盏来\t大白日裡借不出個乾燈盞來\n大目干连\t大目乾連\n大目干连冥间救母变文\t大目乾連冥間救母變文\n大相径庭\t大相逕庭\n大秋\t大秋\n大秋作物\t大秋作物\n大秋元\t大秋元\n大笨钟\t大笨鐘\n大笨钟敲\t大笨鐘敲\n大精彩\t大精彩\n大系\t大系\n大统历\t大統曆\n大缸里翻油沿路拾芝麻\t大缸裡翻油沿路拾芝麻\n大老板\t大老闆\n大而无当\t大而無當\n大肆搜捕\t大肆搜捕\n大肠杆菌\t大腸桿菌\n大肠杆菌群\t大腸桿菌群\n大肠面\t大腸麵\n大胜\t大勝\n大胡子\t大鬍子\n大脑出血性中风\t大腦出血性中風\n大脚婆娘\t大腳婆娘\n大腔当\t大腔當\n大致\t大致\n大致上\t大致上\n大致说来\t大致說來\n大舍\t大舍\n大花面\t大花面\n大苏打\t大蘇打\n大英联合王国\t大英聯合王國\n大范围\t大範圍\n大获\t大獲\n大获全胜\t大獲全勝\n大虫\t大蟲\n大虫不吃伏肉\t大蟲不吃伏肉\n大虫口里倒涎\t大蟲口裡倒涎\n大虫吃小虫\t大蟲吃小蟲\n大虫头上做窠\t大蟲頭上做窠\n大蜡\t大蜡\n大衍历\t大衍曆\n大衍历史\t大衍歷史\n大表\t大表\n大表哥\t大表哥\n大表妹\t大表妹\n大表姊\t大表姊\n大表弟\t大表弟\n大表惊叹\t大表驚歎\n大裂谷\t大裂谷\n大角度俯冲轰炸\t大角度俯衝轟炸\n大言非夸\t大言非夸\n大谷\t大谷\n大象口里拔生牙\t大象口裡拔生牙\n大费周折\t大費周折\n大费周章\t大費周章\n大赞\t大讚\n大路里\t大路裡\n";

/// Part 51 of the text.
pub const ST_PHRASES_51: &'static str = "大辟\t大辟\n大迦叶\t大迦葉\n大通回族土族自治县\t大通回族土族自治縣\n大通师范学堂\t大通師範學堂\n大道里\t大道裡\n大采\t大采\n大里\t大里\n大里市\t大里市\n大里溪\t大里溪\n大金发苔\t大金髮薹\n大鉴\t大鑒\n大钟\t大鐘\n大锤\t大錘\n大门不出二门不迈\t大門不出二門不邁\n大陆冷气团\t大陸冷氣團\n大陆同胞\t大陸同胞\n大陆团\t大陸團\n大陆性气团\t大陸性氣團\n大陆板块\t大陸板塊\n大陆气团\t大陸氣團\n大陆法系\t大陸法系\n大陪审团\t大陪審團\n大难不死必有后禄\t大難不死必有後祿\n大难不死必有后福\t大難不死必有後福\n大集合\t大集合\n大雨如注\t大雨如注\n大面\t大面\n大面儿上\t大面兒上\n大面皮儿\t大面皮兒\n大风后\t大風後\n大风鉴\t大風鑑\n大食团\t大食團\n大马步挂\t大馬步掛\n大麦克\t大麥克\n大麦克指数\t大麥克指數\n大麻烟\t大麻煙\n大麻里\t大麻里\n大麻里乡\t大麻里鄉\n大黑松\t大黑松\n天下大势分久必合合久必分\t天下大勢分久必合合久必分\n天下安注意相天下危注意将\t天下安注意相天下危注意將\n天下无难事只怕有心人\t天下無難事只怕有心人\n天下杂志\t天下雜誌\n天不从人愿\t天不從人願\n天人合一\t天人合一\n天人永别\t天人永別\n天从人愿\t天從人願\n天价\t天價\n天作之合\t天作之合\n天克地冲\t天剋地衝\n天冬苯丙二肽酯\t天冬苯丙二肽酯\n天历\t天曆\n天发神谶碑\t天發神讖碑\n天台\t天台\n天台县\t天台縣\n天台女\t天台女\n天台宗\t天台宗\n天台山\t天台山\n天同\t天同\n天后\t天后\n天后站\t天后站\n天后级\t天后級\n天团\t天團\n天地万物\t天地萬物\n天地为范\t天地為範\n天地之别\t天地之別\n天地可表\t天地可表\n天地志狼\t天地志狼\n天坛\t天壇\n天坛座\t天壇座\n天壤之别\t天壤之別\n天妒英才\t天妒英才\n天孙娘娘\t天孫娘娘\n天差地别\t天差地別\n天干\t天干\n天干地支\t天干地支\n天干物燥\t天乾物燥\n天幸\t天幸\n天心和合\t天心和合\n天心岩\t天心岩\n天才\t天才\n天才儿童\t天才兒童\n天才出自勤奋\t天才出自勤奮\n天才型\t天才型\n天才教育\t天才教育\n天才横溢\t天才橫溢\n天才论\t天才論\n天文台\t天文臺\n天文学钟\t天文學鐘\n天文钟\t天文鐘\n天无三日晴地无三里平\t天無三日晴地無三里平\n天日之表\t天日之表\n天昏地暗\t天昏地暗\n天暗\t天暗\n天有不测风云\t天有不測風雲\n天有不测风云人有旦夕祸福\t天有不測風雲人有旦夕禍福\n天机云锦\t天機雲錦\n天津师范\t天津師範\n天津师范大学\t天津師範大學\n天渊之别\t天淵之別\n天潢贵胄\t天潢貴胄\n天然纤维\t天然纖維\n天璇\t天璇\n天生干\t天生幹\n天盟誓表现\t天盟誓表現\n天纳克\t天納克\n天纵之才\t天縱之才\n天缘凑合\t天緣湊合\n天缘巧合\t天緣巧合\n天缘注定\t天緣注定\n天翻地覆\t天翻地覆\n天花板\t天花板\n天表\t天表\n天要下雨娘要嫁人\t天要下雨娘要嫁人\n天要落雨娘要嫁人\t天要落雨娘要嫁人\n天覆\t天覆\n天覆地载\t天覆地載\n天路历程\t天路歷程\n天道里\t天道裡\n天门冬\t天門冬\n天门冬科\t天門冬科\n天随人愿\t天隨人願\n太乙神针\t太乙神針\n太仆\t太僕\n太仆寺\t太僕寺\n太仆寺卿\t太僕寺卿\n太仆寺旗\t太僕寺旗\n太公钓鱼愿者上钩\t太公釣魚願者上鉤\n太冲\t太沖\n太初历\t太初曆\n太初历史\t太初歷史\n太卜\t太卜\n太原师范学院\t太原師範學院\n太古里\t太古里\n太后\t太后\n太咸\t太鹹\n太大\t太大\n太好了\t太好了\n太子党\t太子黨\n太子舍人\t太子舍人\n太干\t太乾\n太平御览\t太平御覽\n太平洋周边\t太平洋周邊\n太平洋联合铁路\t太平洋聯合鐵路\n太扯了\t太扯了\n太松\t太鬆\n太极\t太極\n太极剑\t太極劍\n太极图\t太極圖\n太极图说\t太極圖說\n太极拳\t太極拳\n太极门\t太極門\n太溪\t太谿\n太溪穴\t太谿穴\n太皇太后\t太皇太后\n太空天文台\t太空天文臺\n太空游\t太空遊\n太空艺术\t太空藝術\n太谷\t太谷\n太谷县\t太谷縣\n太谷灯\t太谷燈\n太阳一出\t太陽一出\n太阳升\t太陽昇\n太阳历\t太陽曆\n太阳微系统公司\t太陽微系統公司\n太阳照在桑干河上\t太陽照在桑乾河上\n太阳电池板\t太陽電池板\n太阳神计划\t太陽神計劃\n太阳系\t太陽系\n太阳能板\t太陽能板\n太阳谷\t太陽谷\n太阳黑子周\t太陽黑子週\n太阴历\t太陰曆\n太麻里\t太麻里\n太麻里乡\t太麻里鄉\n太麻里溪\t太麻里溪\n夫党\t夫黨\n夫力\t伕力\n夫妇关系\t夫婦關係\n夫妇合璧\t夫婦合璧\n夫妇好合\t夫婦好合\n夫妻关系\t夫妻關係\n夫娘\t夫娘\n夫子\t夫子\n夫役\t伕役\n夭折\t夭折\n央托\t央託\n央浼营干\t央浼營幹\n夯土建筑\t夯土建築\n夯干\t夯幹\n失之毫厘\t失之毫釐\n失之毫厘差之千里\t失之毫釐差之千里\n失之毫厘差以千里\t失之毫釐差以千里\n失之毫厘谬以千里\t失之毫釐謬以千里\n失于\t失於\n失体面\t失體面\n失信于人\t失信於人\n失修\t失修\n失准\t失準\n失出\t失出\n失张失志\t失張失志\n失当\t失當\n失忆症\t失憶症\n失志\t失志\n失据\t失據\n失智症\t失智症\n失眠症\t失眠症\n失而复得\t失而復得\n失语症\t失語症\n失读症\t失讀症\n失调症\t失調症\n失面子\t失面子\n失饥伤饱\t失飢傷飽\n头一回\t頭一回\n头上打一下脚底板响\t頭上打一下腳底板響\n头发\t頭髮\n头发上指\t頭髮上指\n头发了狂\t頭發了狂\n头发了疯\t頭發了瘋\n头发壳子\t頭髮殼子\n头发胡子一把抓\t頭髮鬍子一把抓\n头向前\t頭向前\n头回\t頭回\n头巾吊在水里\t頭巾弔在水裡\n头当\t頭當\n头彩\t頭彩\n头悬梁锥刺股\t頭懸樑錐刺股\n头昏眼暗\t頭昏眼暗\n头朝里\t頭朝裡\n头板\t頭板\n头柜\t頭櫃\n头破血出\t頭破血出\n头脑发胀\t頭腦發脹\n头脑简单四肢发达\t頭腦簡單四肢發達\n头花发\t頭花髮\n头足愿\t頭足願\n头里\t頭裡\n头面\t頭面\n头面人物\t頭面人物\n夷坚志\t夷堅志\n夸下海口\t誇下海口\n夸丽\t夸麗\n夸了\t誇了\n夸人\t夸人\n夸克\t夸克\n夸克星\t夸克星\n夸功\t誇功\n夸口\t誇口\n夸嘴\t誇嘴\n夸多斗靡\t誇多鬥靡\n夸大\t誇大\n夸大不实\t誇大不實\n夸大之词\t誇大之詞\n夸大其词\t誇大其詞\n夸大其辞\t誇大其辭\n夸大狂\t誇大狂\n夸夸\t誇誇\n夸夸其谈\t誇誇其談\n夸奖\t誇獎\n夸姣\t夸姣\n夸官\t誇官\n夸容\t夸容\n夸尔\t夸爾\n夸张\t誇張\n夸张其辞\t誇張其辭\n夸张法\t誇張法\n夸强说会\t誇強說會\n夸得\t誇得\n夸成\t誇成\n夸才卖智\t誇才賣智\n夸来夸去\t誇來誇去\n夸毗\t夸毗\n夸海口\t誇海口\n夸父\t夸父\n夸父逐日\t夸父逐日\n夸特\t夸特\n夸示\t誇示\n夸耀\t誇耀\n夸胜道强\t誇勝道強\n夸能斗智\t誇能鬥智\n夸脱\t夸脫\n夸诞\t夸誕\n夸诞不经\t夸誕不經\n夸诩\t誇詡\n夸说\t誇說\n夸赞\t誇讚\n夸起\t誇起\n夸起来\t誇起來\n夸辩\t誇辯\n夸过\t誇過\n夸饰\t誇飾\n夹个\t夾個\n夹了\t夾了\n夹克\t夾克\n夹布子\t夾布子\n夹当儿\t夾當兒\n夹彩塑\t夾彩塑\n";

/// Part 52 of the text.
pub const ST_PHRASES_52: &'static str = "夹心饼干\t夾心餅乾\n夹板\t夾板\n夹板气\t夾板氣\n夹板船\t夾板船\n夹注\t夾註\n夹注号\t夾注號\n夹衣\t夾衣\n夹裙\t夾裙\n夹道里\t夾道裡\n夺回\t奪回\n夺回去\t奪回去\n夺回来\t奪回來\n夺彩\t奪彩\n夺志\t奪志\n夺斗\t奪鬥\n夺杯\t奪盃\n夺眶而出\t奪眶而出\n夺门而出\t奪門而出\n夾角里\t夾角裡\n奇丑\t奇醜\n奇丑无比\t奇醜無比\n奇冤极枉\t奇冤極枉\n奇努克\t奇努克\n奇台\t奇台\n奇台县\t奇臺縣\n奇岩\t奇岩\n奇异夸克\t奇異夸克\n奇异果干\t奇異果乾\n奇彩\t奇彩\n奇志\t奇志\n奇才\t奇才\n奇才异能\t奇才異能\n奇术\t奇術\n奇杯\t奇盃\n奇袭战术\t奇襲戰術\n奇迹\t奇蹟\n奇里安\t奇里安\n奈向\t奈向\n奉公克己\t奉公剋己\n奉别\t奉別\n奉复\t奉復\n奉干\t奉干\n奉毂后车\t奉轂後車\n奉献出\t奉獻出\n奉系\t奉系\n奉系军阀\t奉系軍閥\n奉苹蘩\t奉蘋蘩\n奉药\t奉藥\n奉蒸尝\t奉蒸嘗\n奉表\t奉表\n奉辛比克党\t奉辛比克黨\n奋勇向前\t奮勇向前\n奋勇当先\t奮勇當先\n奋发\t奮發\n奋发向上\t奮發向上\n奋发图强\t奮發圖強\n奋发有为\t奮發有為\n奋发自强\t奮發自強\n奋发蹈厉\t奮發蹈厲\n奋志\t奮志\n奋斗\t奮鬥\n奋斗不懈\t奮鬥不懈\n奋斗到底\t奮鬥到底\n奋斗目标\t奮鬥目標\n奎尼匹克\t奎尼匹克\n奎松市\t奎松市\n奏了\t奏了\n奏于\t奏於\n奏出\t奏出\n奏出去\t奏出去\n奏出来\t奏出來\n奏折\t奏摺\n奏曲\t奏曲\n奏表\t奏表\n奏鸣曲\t奏鳴曲\n奏鸣曲式\t奏鳴曲式\n契努克\t契努克\n契合\t契合\n契合度\t契合度\n契合金兰\t契合金蘭\n契据\t契據\n契沙比克湾\t契沙比克灣\n奔出\t奔出\n奔向\t奔向\n奔回\t奔回\n奔回来\t奔回來\n奖借\t獎借\n奖励制度\t獎勵制度\n奖杯\t獎盃\n奖赞\t獎贊\n套个\t套個\n套了\t套了\n套出\t套出\n套出来\t套出來\n套曲\t套曲\n套板\t套板\n套汇\t套匯\n套种\t套種\n套装旅游\t套裝旅遊\n套问出\t套問出\n套马杆\t套馬杆\n奢念\t奢念\n奥万大\t奧萬大\n奥克兰\t奧克蘭\n奥克拉荷马\t奧克拉荷馬\n奥克拉荷马州\t奧克拉荷馬州\n奥克拉荷马市\t奧克拉荷馬市\n奥克斯纳德\t奧克斯納德\n奥克明\t奧克明\n奥克苏斯河\t奧克蘇斯河\n奥克蒙\t奧克蒙\n奥兰多布鲁\t奧蘭多布魯\n奥占\t奧佔\n奥士力克\t奧士力克\n奥妮克西亚\t奧妮克西亞\n奥密克戎\t奧密克戎\n奥尔布赖特\t奧爾布賴特\n奥布里\t奧布里\n奥德修斯\t奧德修斯\n奥托\t奧托\n奥托瓦兹\t奧托瓦茲\n奥拜克\t奧拜克\n奥杜伐峡谷\t奧杜伐峽谷\n奥林匹克\t奧林匹克\n奥林匹克世运\t奧林匹克世運\n奥林匹克体育场\t奧林匹克體育場\n奥林匹克日\t奧林匹克日\n奥林匹克精神\t奧林匹克精神\n奥林匹克运动会\t奧林匹克運動會\n奥林匹克运动会组织委员会\t奧林匹克運動會組織委員會\n奥特朗托\t奧特朗托\n奥特朗托海峡\t奧特朗托海峽\n奥运团\t奧運團\n奥迪修斯\t奧迪修斯\n奥里斯\t奧里斯\n奥里萨\t奧里薩\n奥里萨省\t奧里薩省\n奥里萨邦\t奧里薩邦\n奥里里亚\t奧里里亞\n奥陶系\t奧陶系\n女丑\t女丑\n女丑剧场\t女丑劇場\n女中豪杰\t女中豪傑\n女乳症\t女乳症\n女人心海底针\t女人心海底針\n女人里\t女人裡\n女仆\t女僕\n女仆部\t女僕部\n女佣\t女傭\n女佣人\t女傭人\n女修士\t女修士\n女修道\t女修道\n女修道张\t女修道張\n女修道院\t女修道院\n女同\t女同\n女同志\t女同志\n女同胞\t女同胞\n女大当嫁\t女大當嫁\n女大须嫁\t女大須嫁\n女娘\t女娘\n女子参政主义\t女子參政主義\n女子参政权\t女子參政權\n女宿舍\t女宿舍\n女尸\t女屍\n女御\t女御\n女性厌恶\t女性厭惡\n女性第二性征\t女性第二性徵\n女性艺术\t女性藝術\n女性艺术史\t女性藝術史\n女杰\t女傑\n女王杯\t女王杯\n女生外向\t女生外嚮\n女秀才\t女秀才\n女系家族\t女系家族\n女舍监\t女舍監\n女药头\t女藥頭\n女貌郎才\t女貌郎才\n女长须嫁\t女長須嫁\n奴仆\t奴僕\n奴儿干\t奴兒干\n奴儿干都司\t奴兒干都司\n奴才\t奴才\n奴隶制\t奴隸制\n奴隶制度\t奴隸制度\n奶制品\t奶製品\n奶卷\t奶捲\n奶妈怀里的孩子\t奶媽懷裡的孩子\n奶娘\t奶娘\n奸人\t奸人\n奸人之雄\t奸人之雄\n奸伏\t姦伏\n奸佞\t奸佞\n奸俏\t奸俏\n奸党\t奸黨\n奸凶\t姦凶\n奸刁\t奸刁\n奸匪\t奸匪\n奸同鬼蜮\t奸同鬼蜮\n奸商\t奸商\n奸夫\t姦夫\n奸夫淫妇\t姦夫淫婦\n奸妇\t姦婦\n奸宄\t奸宄\n奸官污吏\t奸官污吏\n奸尸\t姦屍\n奸巧\t奸巧\n奸徒\t奸徒\n奸恶\t奸惡\n奸情\t姦情\n奸慝\t奸慝\n奸杀\t姦殺\n奸棍\t奸棍\n奸毒\t奸毒\n奸污\t姦污\n奸淫\t姦淫\n奸淫掳掠\t姦淫擄掠\n奸滑\t奸滑\n奸狡\t奸狡\n奸猾\t奸猾\n奸盗邪淫\t姦盜邪淫\n奸笑\t奸笑\n奸细\t奸細\n奸胥猾吏\t奸胥猾吏\n奸臣\t奸臣\n奸言\t奸言\n奸计\t奸計\n奸诈\t奸詐\n奸诈不级\t奸詐不級\n奸谋\t奸謀\n奸贼\t奸賊\n奸通\t姦通\n奸邪\t奸邪\n奸险\t奸險\n奸雄\t奸雄\n奸非\t姦非\n奸顽\t奸頑\n奸骗\t奸騙\n奸黠\t奸黠\n她克制\t她剋制\n她准知\t她準知\n好一出\t好一齣\n好不了\t好不了\n好不容易才\t好不容易才\n好丑\t好醜\n好个\t好個\n好了\t好了\n好了吗\t好了嗎\n好了吧\t好了吧\n好了歌\t好了歌\n好于\t好於\n好价\t好價\n好体面\t好體面\n好兵帅克\t好兵帥克\n好几\t好幾\n好几万\t好幾萬\n好几个\t好幾個\n好几亿\t好幾億\n好几十\t好幾十\n好几十万\t好幾十萬\n好几千\t好幾千\n好几千万\t好幾千萬\n好几周\t好幾週\n好几天\t好幾天\n好几年\t好幾年\n好几百\t好幾百\n好几百万\t好幾百萬\n好凶\t好凶\n好出\t好出\n好出风头\t好出風頭\n好勇斗狠\t好勇鬥狠\n好合\t好合\n好向\t好向\n好咸\t好鹹\n好善嫉恶\t好善嫉惡\n好善恶恶\t好善惡惡\n好困\t好睏\n好困吧\t好睏吧\n好困啊\t好睏啊\n好困惑\t好困惑\n好困扰\t好困擾\n好困窘\t好困窘\n好困苦\t好困苦\n好困难\t好困難\n好多个\t好多個\n好好地干\t好好地幹\n好好学习天天向上\t好好學習天天向上\n好好干\t好好幹\n好家伙\t好傢伙\n好干\t好乾\n好当\t好當\n好彩头\t好彩頭\n好心倒做了驴肝肺\t好心倒做了驢肝肺\n好恶\t好惡\n好戏还在后头\t好戲還在後頭\n好戏连台\t好戲連臺\n好手如云\t好手如雲\n好斗\t好鬥\n好斗笠\t好斗笠\n好斗篷\t好斗篷\n好斗胆\t好斗膽\n好时是他人恶时是家人\t好時是他人惡時是家人\n好暗\t好暗\n好极了\t好極了\n好死不如恶活\t好死不如惡活\n好气万千\t好氣萬千\n好汉不怕出身低\t好漢不怕出身低\n好汉不论出身低\t好漢不論出身低\n好汉做事好汉当\t好漢做事好漢當\n好汉只怕病来磨\t好漢只怕病來磨\n好生恶杀\t好生惡殺\n好立克\t好立克\n好签\t好籤\n好管闲事\t好管閒事\n好胜\t好勝\n好胜心\t好勝心\n好自矜夸\t好自矜誇\n好话当作耳边风\t好話當作耳邊風\n好话说尽\t好話說盡\n好谀恶直\t好諛惡直\n好逸恶劳\t好逸惡勞\n好酒贪杯\t好酒貪杯\n好采头\t好采頭\n好面子\t好面子\n如不胜衣\t如不勝衣\n如临深谷\t如臨深谷\n如临渊谷\t如臨淵谷\n如于\t如於\n如云\t如雲\n如何干\t如何幹\n";

/// Part 53 of the text.
pub const ST_PHRASES_53: &'static str = "如入云端\t如入雲端\n如入宝山空手回\t如入寶山空手回\n如出一口\t如出一口\n如出一辙\t如出一轍\n如同\t如同\n如坐云雾\t如坐雲霧\n如坐针毡\t如坐針氈\n如堕五里雾中\t如墮五里霧中\n如堕烟雾\t如墮煙霧\n如干\t如干\n如愿\t如願\n如愿以偿\t如願以償\n如所周知\t如所周知\n如日东升\t如日東昇\n如日方升\t如日方升\n如有\t如有\n如有雷同\t如有雷同\n如果干\t如果幹\n如法泡制\t如法泡製\n如法炮制\t如法炮製\n如获珍宝\t如獲珍寶\n如获至宝\t如獲至寶\n如隔三秋\t如隔三秋\n如须\t如須\n如饥似渴\t如飢似渴\n如饥如渴\t如飢如渴\n妄念\t妄念\n妄想症\t妄想症\n妆发\t妝髮\n妆台\t妝臺\n妇人生须\t婦人生鬚\n妇女团体\t婦女團體\n妇女杂志\t婦女雜誌\n妇女联合会\t婦女聯合會\n妊娠毒血症\t妊娠毒血症\n妖后\t妖后\n妖术\t妖術\n妖术惑众\t妖術惑眾\n妖术邪法\t妖術邪法\n妖气冲天\t妖氣沖天\n妖精谷\t妖精谷\n妖里妖气\t妖裡妖氣\n妙发灵机\t妙發靈機\n妙妙熊历险记\t妙妙熊歷險記\n妙手回春\t妙手回春\n妙才\t妙才\n妙探寻凶\t妙探尋兇\n妙曲\t妙曲\n妙极\t妙極\n妙极了\t妙極了\n妙药\t妙藥\n妢胡\t妢胡\n妥当\t妥當\n妥当人\t妥當人\n妻党\t妻黨\n始于\t始於\n始愿\t始願\n姌袅\t姌嫋\n姑娘\t姑娘\n姑娘家\t姑娘家\n姑息养奸\t姑息養奸\n姑恶\t姑惡\n姑苏\t姑蘇\n姑表\t姑表\n姓岳\t姓岳\n姓系\t姓系\n委员制\t委員制\n委托\t委託\n委托书\t委託書\n委托人\t委託人\n委托行\t委託行\n委曲\t委曲\n委曲成全\t委曲成全\n委曲求全\t委曲求全\n委派代表\t委派代表\n委罪于人\t委罪於人\n姘出去\t姘出去\n姚俊杰\t姚俊傑\n姚升志\t姚昇志\n姚志源\t姚志源\n姚采颖\t姚采穎\n姜丝\t薑絲\n姜丰年\t姜豐年\n姜凤君\t姜鳳君\n姜切片\t薑切片\n姜夔\t姜夔\n姜大宇\t姜大宇\n姜太公\t姜太公\n姜嫄\t姜嫄\n姜子牙\t姜子牙\n姜家大被\t姜家大被\n姜宸英\t姜宸英\n姜尚\t姜尚\n姜就是老\t薑就是老\n姜建铭\t姜建銘\n姜愈老愈辣\t薑愈老愈辣\n姜文杰\t姜文杰\n姜斋\t薑齋\n姜是老\t薑是老\n姜是老的辣\t薑是老的辣\n姜末\t薑末\n姜桂\t薑桂\n姜桂老辣\t薑桂老辣\n姜母\t薑母\n姜母鸭\t薑母鴨\n姜汁\t薑汁\n姜汤\t薑湯\n姜沧源\t姜滄源\n姜片\t薑片\n姜石年\t姜石年\n姜竹祥\t姜竹祥\n姜糖\t薑糖\n姜维\t姜維\n姜维平\t姜維平\n姜老辣\t薑老辣\n姜至奂\t姜至奐\n姜芋\t姜芋\n姜茶\t薑茶\n姜蓉\t薑蓉\n姜越老越辣\t薑越老越辣\n姜辣\t薑辣\n姜辣素\t薑辣素\n姜还是老\t薑還是老\n姜还是老的辣\t薑還是老的辣\n姜远珍\t姜遠珍\n姜郁美\t姜郁美\n姜金龙\t姜金龍\n姜锡柱\t姜錫柱\n姜饼\t薑餅\n姜麻园\t薑麻園\n姜黄\t薑黃\n姜黄素\t薑黃素\n姜黄色\t薑黃色\n姨娘\t姨娘\n姨表\t姨表\n姬姜\t姬姜\n姬松茸\t姬松茸\n姱修\t姱修\n姻党\t姻黨\n姻戚\t姻戚\n姿采\t姿采\n威克岛\t威克島\n威克斯\t威克斯\n威克森\t威克森\n威克菲尔\t威克菲爾\n威克菲尔德\t威克菲爾德\n威奇托\t威奇托\n威尔生氏症\t威爾生氏症\n威布里吉\t威布里吉\n威廉亚历山大\t威廉亞歷山大\n威比苏诺\t威比蘇諾\n威氏注音法\t威氏注音法\n威里斯\t威里斯\n威风八面\t威風八面\n娇娘\t嬌娘\n娇嫩欲滴\t嬌嫩欲滴\n娇艳欲滴\t嬌艷欲滴\n娇袅不胜\t嬌嫋不勝\n娘亲\t娘親\n娘儿\t娘兒\n娘儿们\t娘兒們\n娘儿俩\t娘兒倆\n娘姨\t娘姨\n娘娘\t娘娘\n娘娘庙\t娘娘廟\n娘娘腔\t娘娘腔\n娘婆\t娘婆\n娘子\t娘子\n娘子关\t娘子關\n娘子军\t娘子軍\n娘家\t娘家\n娘家姓\t娘家姓\n娘母子\t娘母子\n娘的\t娘的\n娘老子\t娘老子\n娘胎\t娘胎\n娘舅\t娘舅\n娩出\t娩出\n娱乐台\t娛樂臺\n娴于\t嫻於\n娴于辞令\t嫻於辭令\n娶了\t娶了\n娶回\t娶回\n娶回家\t娶回家\n婆娘\t婆娘\n婆娘子\t婆娘子\n婚前婚后\t婚前婚後\n婚后\t婚後\n婚姻制度\t婚姻制度\n婢仆\t婢僕\n婴儿猝死症候群\t嬰兒猝死症候群\n婴儿猝死综合症\t嬰兒猝死綜合症\n婶娘\t嬸娘\n媒人口无量斗\t媒人口無量斗\n媒人婆迷了路\t媒人婆迷了路\n媒体狂并潮\t媒體狂併潮\n媒体访问控制\t媒體訪問控制\n媒合\t媒合\n媚如秋月\t媚如秋月\n媮合苟容\t媮合苟容\n媵御\t媵御\n嫁个\t嫁個\n嫁个老公\t嫁個老公\n嫁了\t嫁了\n嫁于\t嫁於\n嫁出\t嫁出\n嫁出去\t嫁出去\n嫁出来\t嫁出來\n嫁祸于\t嫁禍於\n嫁祸于人\t嫁禍於人\n嫉恶\t嫉惡\n嫉恶好善\t嫉惡好善\n嫉恶如仇\t嫉惡如仇\n嫉恶若仇\t嫉惡若仇\n嫌凶\t嫌兇\n嫌好道丑\t嫌好道醜\n嫌好道恶\t嫌好道惡\n嫌恶\t嫌惡\n嫔御\t嬪御\n嫠忧宗周\t嫠憂宗周\n嫡出\t嫡出\n嫡系\t嫡系\n嫩叶\t嫩葉\n嬉游\t嬉遊\n嬖幸\t嬖倖\n嬴余\t嬴餘\n子之丰兮\t子之丰兮\n子云\t子云\n子叶\t子葉\n子姜炒鸡\t子薑炒雞\n子孙娘娘\t子孫娘娘\n子宫内膜异位症\t子宮內膜異位症\n子曰诗云\t子曰詩云\n子杰\t子傑\n子母钟\t子母鐘\n子游\t子游\n子癫前症\t子癲前症\n子目录\t子目錄\n子系统\t子系統\n子集合\t子集合\n孔径\t孔徑\n孔明借箭\t孔明借箭\n孔章望斗\t孔章望斗\n孔虫\t孔蟲\n孕出\t孕出\n孕穗\t孕穗\n孕穗期\t孕穗期\n孕育出\t孕育出\n孖虫\t孖蟲\n字据\t字據\n字根合体字\t字根合體字\n字根表\t字根表\n字母\t字母\n字母表\t字母表\n字汇\t字彙\n字汇判断任务\t字彙判斷任務\n字码表\t字碼表\n字表\t字表\n字表输入法\t字表輸入法\n字里\t字裡\n字里行间\t字裡行間\n字面\t字面\n字面上\t字面上\n字面意义\t字面意義\n字面意思\t字面意思\n字面解释\t字面解釋\n字音表\t字音表\n存于\t存於\n存亡之秋\t存亡之秋\n存亡未卜\t存亡未卜\n存十一于千百\t存十一於千百\n存录\t存錄\n存念\t存念\n存托凭证\t存託憑證\n存托股\t存托股\n存扣\t存扣\n存折\t存摺\n存折里\t存摺裡\n存款准备率\t存款準備率\n存款准备金\t存款準備金\n存款准备金率\t存款準備金率\n孙协志\t孫協志\n孙大千\t孫大千\n孙杰\t孫杰\n孙胜男\t孫勝男\n孝布\t孝布\n孝重千斤日减一斤\t孝重千斤日減一斤\n孟什维克\t孟什維克\n孟冬\t孟冬\n孟姜女\t孟姜女\n孟小冬\t孟小冬\n孟尝君\t孟嘗君\n孟德尔松\t孟德爾松\n孟村回族自治县\t孟村回族自治縣\n孟秋\t孟秋\n孟获\t孟獲\n孢子叶\t孢子葉\n孢子虫\t孢子蟲\n季冬\t季冬\n季后\t季後\n季后赛\t季後賽\n季咸\t季咸\n季布\t季布\n季布一诺\t季布一諾\n季札挂剑\t季札掛劍\n季瑟雅克\t季瑟雅克\n季秋\t季秋\n季节洄游\t季節洄游\n孤云\t孤雲\n孤云野鹤\t孤雲野鶴\n孤儿药\t孤兒藥\n孤军奋斗\t孤軍奮鬥\n孤凄\t孤悽\n孤寡不谷\t孤寡不穀\n孤形只影\t孤形隻影\n孤形吊影\t孤形吊影\n孤征\t孤征\n孤拐\t孤拐\n孤拐面\t孤拐面\n孤注\t孤注\n孤注一掷\t孤注一擲\n孤涂\t孤塗\n孤游\t孤遊\n孤灯挑尽\t孤燈挑盡\n孤身只影\t孤身隻影\n孤辰合注\t孤辰合注\n学习团\t學習團\n学习曲线\t學習曲線\n学习范例\t學習範例\n学习计划\t學習計劃\n学了个不留\t學了個不留\n学以致用\t學以致用\n学优才赡\t學優才贍\n学位制度\t學位制度\n学分制\t學分制\n";

/// Part 54 of the text.
pub const ST_PHRASES_54: &'static str = "学制\t學制\n学制作\t學製作\n学制造\t學製造\n学力鉴定\t學力鑑定\n学区制\t學區制\n学历\t學歷\n学台\t學臺\n学名药\t學名藥\n学员制\t學員制\n学员里\t學員裡\n学回\t學回\n学回去\t學回去\n学回来\t學回來\n学士后医学系\t學士後醫學系\n学徒制\t學徒制\n学徒制作\t學徒製作\n学徒制造\t學徒製造\n学术\t學術\n学术团体\t學術團體\n学术奖\t學術獎\n学术性\t學術性\n学术报告\t學術報告\n学术文化团体\t學術文化團體\n学术水平\t學術水平\n学术界\t學術界\n学术研究\t學術研究\n学术科\t學術科\n学术组\t學術組\n学术网路\t學術網路\n学术自由\t學術自由\n学校同学\t學校同學\n学浅才疏\t學淺才疏\n学然后知不足\t學然後知不足\n学疏才浅\t學疏才淺\n学社里\t學社裡\n学籍表\t學籍表\n学系\t學系\n学经历\t學經歷\n学舍\t學舍\n学里\t學裡\n学长制\t學長制\n孩儿面\t孩兒面\n孬种\t孬種\n孱困\t孱困\n孵出\t孵出\n孵出来\t孵出來\n孽党\t孽黨\n孽种\t孽種\n孽障种子\t孽障種子\n宁个\t寧個\n宁中则\t甯中則\n宁夏回族\t寧夏回族\n宁夏回族自治区\t寧夏回族自治區\n宁庄子\t甯莊子\n宁当玉碎\t寧當玉碎\n宁悼子\t甯悼子\n宁惠子\t甯惠子\n宁愿\t寧願\n宁成子\t甯成子\n宁戚\t甯戚\n宁折不弯\t寧折不彎\n宁撞金钟一下不打破鼓三千\t寧撞金鐘一下不打破鼓三千\n宁斧成\t甯斧成\n宁武子\t甯武子\n宁浩\t甯浩\n宁猛力\t甯猛力\n宁调元\t甯調元\n宁越\t甯越\n宁静致远\t寧靜致遠\n宅子里\t宅子裡\n宅舍\t宅舍\n宇宙云\t宇宙雲\n宇宙志\t宇宙誌\n守先待后\t守先待後\n守制\t守制\n守御\t守禦\n守正不回\t守正不回\n守舍\t守舍\n守节不回\t守節不回\n安万特\t安萬特\n安了\t安了\n安于\t安於\n安于一隅\t安於一隅\n安于泰山\t安於泰山\n安于现状\t安於現狀\n安仁鬓秋\t安仁鬢秋\n安克拉\t安克拉\n安克拉治\t安克拉治\n安克雷奇\t安克雷奇\n安全系数\t安全係數\n安全系统\t安全系統\n安全防范\t安全防範\n安可曲\t安可曲\n安吉里科\t安吉里科\n安地卡及巴布达\t安地卡及巴布達\n安山岩\t安山岩\n安岳\t安岳\n安布罗斯\t安布羅斯\n安席克\t安席克\n安扎\t安扎\n安杰\t安傑\n安格鲁萨克逊\t安格魯薩克遜\n安步当车\t安步當車\n安沈铁路\t安瀋鐵路\n安眠药\t安眠藥\n安纳托利亚\t安納托利亞\n安胎药\t安胎藥\n安胡\t安胡\n安营扎寨\t安營紮寨\n安萨里\t安薩里\n安适\t安適\n安适如常\t安適如常\n安钦云\t安欽雲\n安闲惬意\t安閒愜意\n安闲自在\t安閒自在\n安闲自得\t安閒自得\n安闲舒适\t安閒舒適\n安闲随意\t安閒隨意\n安魂弥撒\t安魂彌撒\n安魂曲\t安魂曲\n宋三彩\t宋三彩\n宋亨欣叶纯豪\t宋亨欣葉純豪\n宋克\t宋克\n宋干节\t宋干節\n宋板\t宋板\n完了\t完了\n完全叶\t完全葉\n完全愈复\t完全癒復\n完全正确\t完全正確\n完工后\t完工後\n完成后\t完成後\n完税价格\t完稅價格\n完税货价\t完稅貨價\n完结\t完結\n宏志\t宏志\n宏愿\t宏願\n宏碁集团\t宏碁集團\n宗周\t宗周\n宗周钟\t宗周鐘\n宗室里\t宗室裡\n宗教团\t宗教團\n宗教团体\t宗教團體\n宗法制度\t宗法制度\n官不怕大只怕管\t官不怕大只怕管\n官价\t官價\n官兵一致\t官兵一致\n官准\t官准\n官制\t官制\n官卷\t官卷\n官历\t官曆\n官台木\t官臺木\n官商合办\t官商合辦\n官地为采\t官地為寀\n官复原职\t官復原職\n官庄\t官莊\n官念\t官念\n官报私仇\t官報私仇\n官料药\t官料藥\n官板儿\t官板兒\n官私合营\t官私合營\n官能团\t官能團\n官能症\t官能症\n官舍\t官舍\n官面\t官面\n官面儿\t官面兒\n定义出\t定義出\n定义范围\t定義範圍\n定了\t定了\n定于\t定於\n定于一尊\t定於一尊\n定价\t定價\n定准\t定準\n定出\t定出\n定出来\t定出來\n定制\t定製\n定制化\t定製化\n定南针\t定南針\n定向\t定向\n定向培育\t定向培育\n定向天线\t定向天線\n定向越野\t定向越野\n定弦\t定弦\n定当\t定當\n定时号志\t定時號誌\n定时钟\t定時鐘\n定点厂\t定點廠\n定理\t定理\n定碳杯\t定碳杯\n定胜败\t定勝敗\n定范围\t定範圍\n定计划\t定計劃\n定都于\t定都於\n定风针\t定風針\n宛若游龙\t宛若游龍\n宛转周折\t宛轉周折\n宜丰\t宜豐\n宜丰县\t宜豐縣\n宜于\t宜於\n宜云\t宜云\n宝丰\t寶豐\n宝丰县\t寶豐縣\n宝卷\t寶卷\n宝历\t寶曆\n宝山庄\t寶山莊\n宝山空回\t寶山空回\n宝庄\t寶莊\n宝志\t寶誌\n宝洁\t寶潔\n宝胄\t寶胄\n宝贝团\t寶貝團\n宝贝里\t寶貝裡\n宝里宝气\t寶裡寶氣\n宝鉴\t寶鑑\n宝钢集团\t寶鋼集團\n实业计划\t實業計劃\n实价\t實價\n实况录影\t實況錄影\n实况录音\t實況錄音\n实发\t實發\n实名制\t實名制\n实干\t實幹\n实干家\t實幹家\n实录\t實錄\n实才\t實才\n实据\t實據\n实时\t實時\n实用价值\t實用價值\n实症\t實症\n实质面\t實質面\n实践是检验真理的唯一标准\t實踐是檢驗真理的唯一標準\n实际范围\t實際範圍\n宠幸\t寵幸\n审囚刷卷\t審囚刷卷\n审干\t審幹\n审曲面势\t審曲面勢\n审核\t審覈\n审理\t審理\n审级制度\t審級制度\n审计范围\t審計範圍\n客串演出\t客串演出\n客制化\t客製化\n客制化服务\t客製化服務\n客如云集\t客如雲集\n客游\t客遊\n客舍\t客舍\n宣传周\t宣傳週\n宣卷\t宣卷\n宣室志\t宣室志\n宣布\t宣佈\n宣布无效\t宣佈無效\n宣布独立\t宣佈獨立\n宣布破产\t宣佈破產\n宣誓代表\t宣誓代表\n宣赞\t宣贊\n室内乐团\t室內樂團\n室里\t室裡\n宦游\t宦遊\n宪台\t憲臺\n宫里\t宮裡\n宫里蓝\t宮里藍\n宰制\t宰制\n害于\t害於\n害人虫\t害人蟲\n害发\t害發\n害虫\t害蟲\n宴游\t宴遊\n宵征\t宵征\n家丑\t家醜\n家丑不可外传\t家醜不可外傳\n家丑不可外传流言切莫轻信\t家醜不可外傳流言切莫輕信\n家丑不可外扬\t家醜不可外揚\n家什\t傢什\n家仆\t家僕\n家伙\t傢伙\n家伙座儿\t傢伙座兒\n家佣\t家傭\n家俱\t傢俱\n家具\t傢俱\n家具行\t傢俱行\n家制\t家制\n家和万事兴\t家和萬事興\n家山药\t家山藥\n家庄\t家莊\n家庭制度\t家庭制度\n家庭计划\t家庭計劃\n家庭里\t家庭裡\n家当\t家當\n家政系\t家政系\n家族同盟\t家族同盟\n家无斗储\t家無斗儲\n家机布\t家機布\n家私\t傢俬\n家种\t家種\n家系\t家系\n家财万贯\t家財萬貫\n家赀万贯\t家貲萬貫\n家里\t家裡\n家里头\t家裡頭\n家里的\t家裡的\n家长制\t家長制\n家长里短\t家長裡短\n家门不幸\t家門不幸\n家门有幸\t家門有幸\n宸极\t宸極\n宸游\t宸遊\n容于\t容於\n容光焕发\t容光煥發\n容克\t容克\n容后说明\t容後說明\n容容多后福\t容容多後福\n容幸\t容幸\n容范\t容範\n容表\t容表\n宽了\t寬了\n宽于\t寬於\n宽余\t寬餘\n宽宽松松\t寬寬鬆鬆\n宽打周遭\t寬打周遭\n宽松\t寬鬆\n宽泛\t寬泛\n宽面\t寬麵\n宾主关系\t賓主關係\n宾主尽欢\t賓主盡歡\n宾客如云\t賓客如雲\n宾语关系从句\t賓語關係從句\n宿仇\t宿仇\n宿志\t宿志\n宿愿\t宿願\n宿愿已偿\t宿願已償\n宿愿得偿\t宿願得償\n宿松\t宿松\n宿松县\t宿松縣\n宿舍\t宿舍\n宿舍区\t宿舍區\n宿舍楼\t宿舍樓\n";

/// Part 55 of the text.
pub const ST_PHRASES_55: &'static str = "宿舍网路\t宿舍網路\n宿舍费\t宿舍費\n寂历\t寂歷\n寄了\t寄了\n寄于\t寄於\n寄出\t寄出\n寄出去\t寄出去\n寄发\t寄發\n寄回\t寄回\n寄托\t寄託\n寄托在\t寄託在\n寄托着\t寄託著\n寄挂号\t寄掛號\n寄挂号信\t寄掛號信\n寄生昆虫\t寄生昆蟲\n寄生虫\t寄生蟲\n寄生虫病\t寄生蟲病\n寅台\t寅臺\n密云\t密雲\n密云不雨\t密雲不雨\n密云县\t密雲縣\n密仑\t密侖\n密克罗尼西亚\t密克羅尼西亞\n密切关系\t密切關係\n密切注意\t密切注意\n密切注视\t密切注視\n密合\t密合\n密密扎扎\t密密扎扎\n密布\t密佈\n密折\t密摺\n密致\t密緻\n密苏里\t密蘇里\n密苏里州\t密蘇里州\n密苏里河\t密蘇里河\n密道里\t密道裡\n寇不可玩\t寇不可翫\n寇仇\t寇仇\n寇准\t寇準\n富于\t富於\n富于想像\t富於想像\n富于想象\t富於想像\n富余\t富餘\n富兰克林\t富蘭克林\n富富有余\t富富有餘\n富布赖特\t富布賴特\n富春秋\t富春秋\n富维克\t富維克\n富色彩\t富色彩\n富贵如浮云\t富貴如浮雲\n富贵浮云\t富貴浮雲\n富里\t富里\n富里乡\t富里鄉\n寒于\t寒於\n寒假里\t寒假裡\n寒冬\t寒冬\n寒冬腊月\t寒冬臘月\n寒号虫\t寒號蟲\n寒暑表\t寒暑表\n寒栗\t寒慄\n寒武系\t寒武系\n寒波荡漾\t寒波盪漾\n寒症\t寒症\n寒秋\t寒秋\n寒舍\t寒舍\n寓于\t寓於\n寓兵于农\t寓兵於農\n寓教于乐\t寓教於樂\n寓禁于征\t寓禁於征\n寝丘之志\t寢丘之志\n寝室里\t寢室裡\n察合台\t察合臺\n察合台汗国\t察合臺汗國\n察布查尔\t察布查爾\n察布查尔县\t察布查爾縣\n察干\t察干\n察核\t察覈\n察觉出\t察覺出\n寡占\t寡佔\n寡合\t寡合\n寡欲\t寡慾\n寥寥无几\t寥寥無幾\n寮采\t寮寀\n寸丝不挂\t寸絲不掛\n寸发千金\t寸髮千金\n对了\t對了\n对了槛儿\t對了檻兒\n对于\t對於\n对偶多面体\t對偶多面體\n对冲\t對沖\n对冲基金\t對沖基金\n对准\t對準\n对准目标\t對準目標\n对准表\t對準錶\n对准钟\t對準鐘\n对准钟表\t對準鐘錶\n对半\t對半\n对华发动\t對華發動\n对台\t對臺\n对台戏\t對臺戲\n对合\t對合\n对合起来\t對合起來\n对外关系\t對外關係\n对天发誓\t對天發誓\n对妻失语症\t對妻失語症\n对对胡\t對對胡\n对当\t對當\n对折\t對摺\n对换\t對換\n对数表\t對數表\n对杯\t對杯\n对流云系\t對流雲系\n对焦范围\t對焦範圍\n对照表\t對照表\n对症\t對症\n对症下药\t對症下藥\n对症发药\t對症發藥\n对着干\t對著幹\n对立面\t對立面\n对等关系\t對等關係\n对表\t對錶\n对酒当歌\t對酒當歌\n对针\t對針\n对面\t對面\n对面不见人\t對面不見人\n寺舍\t寺舍\n寺钟\t寺鐘\n寻仇\t尋仇\n寻出\t尋出\n寻回\t尋回\n寻幽探胜\t尋幽探勝\n寻幽访胜\t尋幽訪勝\n寻找出\t尋找出\n寻找出来\t尋找出來\n寻来范畴\t尋來範疇\n寻求出来\t尋求出來\n寻获\t尋獲\n导出\t導出\n导出值\t導出值\n导出去\t導出去\n导出来\t導出來\n导向\t導向\n导向型\t導向型\n导向思考\t導向思考\n导向飞弹\t導向飛彈\n导向鱼雷\t導向魚雷\n导师制\t導師制\n导引之术\t導引之術\n导引系统\t導引系統\n导弹武器技术控制制度\t導彈武器技術控制制度\n导弹系统\t導彈系統\n导板\t導板\n导气之术\t導氣之術\n导流板\t導流板\n导游\t導遊\n导生制\t導生制\n导致\t導致\n导致死亡\t導致死亡\n导航系统\t導航系統\n导风板\t導風板\n寿丰\t壽豐\n寿丰乡\t壽豐鄉\n寿数已尽\t壽數已盡\n寿险责任准备金\t壽險責任準備金\n寿面\t壽麵\n封个\t封個\n封了\t封了\n封了火\t封了火\n封侯万里\t封侯萬里\n封台\t封臺\n封后\t封后\n封妻荫子\t封妻廕子\n封官许愿\t封官許願\n封建制度\t封建制度\n封建割据\t封建割據\n封弥\t封彌\n封杀出局\t封殺出局\n封檐板\t封簷板\n封胡羯末\t封胡羯末\n封胡遏末\t封胡遏末\n封蜡\t封蠟\n封里\t封裡\n封面\t封面\n封面人物\t封面人物\n封面女郎\t封面女郎\n封面设计\t封面設計\n封面里\t封面裡\n射不出\t射不出\n射了\t射了\n射准\t射準\n射出\t射出\n射出去\t射出去\n射出来\t射出來\n射向\t射向\n射回\t射回\n射回去\t射回去\n射回来\t射回來\n射干\t射干\n射幸\t射倖\n射幸性\t射倖性\n射影几何\t射影幾何\n射影几何学\t射影幾何學\n射覆\t射覆\n射雕\t射鵰\n射雕手\t射鵰手\n射雕英雄传\t射鵰英雄傳\n射频干扰\t射頻干擾\n射频识别\t射頻識別\n将于\t將於\n将假当真\t將假當真\n将出\t將出\n将出去\t將出去\n将出来\t將出來\n将功折罪\t將功折罪\n将功折过\t將功折過\n将占\t將佔\n将占卜\t將占卜\n将回\t將回\n将回到\t將回到\n将回去\t將回去\n将回来\t將回來\n将尽\t將盡\n将尽未尽\t將盡未盡\n将才\t將才\n将无同\t將無同\n将相本无种\t將相本無種\n将遇良才\t將遇良才\n将门之后\t將門之後\n小丑\t小丑\n小丑丫鬟\t小丑丫鬟\n小丑跳梁\t小丑跳樑\n小丑鱼\t小丑魚\n小业种\t小業種\n小个\t小個\n小个子\t小個子\n小丰满发电厂\t小豐滿發電廠\n小了\t小了\n小于\t小於\n小云\t小云\n小人得志\t小人得志\n小仆\t小僕\n小价\t小价\n小众艺术\t小眾藝術\n小伙\t小夥\n小伙子\t小夥子\n小伙计\t小夥計\n小余\t小余\n小便斗\t小便斗\n小修\t小修\n小儿麻痹症\t小兒麻痹症\n小克\t小克\n小冬\t小冬\n小冲突\t小衝突\n小几\t小几\n小划子\t小划子\n小别\t小別\n小千\t小千\n小千世界\t小千世界\n小升\t小升\n小卷\t小卷\n小厂\t小廠\n小发\t小發\n小发财\t小發財\n小只\t小隻\n小叮当\t小叮噹\n小叶\t小葉\n小同乡\t小同鄉\n小后生\t小後生\n小周天\t小周天\n小回\t小回\n小场面\t小場面\n小型柜橱\t小型櫃櫥\n小型钟\t小型鐘\n小型钟表\t小型鐘錶\n小型钟面\t小型鐘面\n小夜曲\t小夜曲\n小天后\t小天后\n小姑娘\t小姑娘\n小姑娘树\t小姑娘樹\n小娘\t小娘\n小娘子\t小娘子\n小子后生\t小子後生\n小家伙\t小傢伙\n小尝\t小嚐\n小尽\t小盡\n小岩洞\t小岩洞\n小布\t小布\n小庵\t小庵\n小廉曲谨\t小廉曲謹\n小径\t小徑\n小志\t小志\n小念\t小念\n小恶魔\t小惡魔\n小才大用\t小才大用\n小才子\t小才子\n小挂儿\t小掛兒\n小插曲\t小插曲\n小时了了\t小時了了\n小曲\t小曲\n小朱\t小朱\n小杯\t小杯\n小杰\t小杰\n小松\t小松\n小松糕\t小鬆糕\n小板\t小板\n小柜子\t小櫃子\n小栗旬\t小栗旬\n小步舞曲\t小步舞曲\n小毛虫\t小毛蟲\n小池百合子\t小池百合子\n小注\t小注\n小泽征尔\t小澤征爾\n小游\t小遊\n小瀑布\t小瀑布\n小班制\t小班制\n小秀才\t小秀才\n小秀才学堂\t小秀才學堂\n小秋\t小秋\n小秋收\t小秋收\n小种\t小種\n小穗\t小穗\n小筑\t小築\n小米面\t小米麵\n小系\t小系\n小红萝卜\t小紅蘿蔔\n小老板\t小老闆\n小胜\t小勝\n小胜利\t小勝利\n小胡子\t小鬍子\n小胡桃\t小胡桃\n小脏鬼\t小髒鬼\n小舍人\t小舍人\n小花远志\t小花遠志\n小苏\t小蘇\n小苏打\t小蘇打\n小苏打粉\t小蘇打粉\n小苹果\t小蘋果\n小范\t小范\n小范围\t小範圍\n小萝卜头\t小蘿蔔頭\n小虫\t小蟲\n小虫子\t小蟲子\n小行板\t小行板\n小表哥\t小表哥\n小表妹\t小表妹\n小表姊\t小表姊\n小表嫂\t小表嫂\n小表弟\t小表弟\n";

/// Part 56 of the text.
pub const ST_PHRASES_56: &'static str = "小里小气\t小裡小氣\n小针\t小針\n小针美容\t小針美容\n小钟\t小鐘\n小铲\t小鏟\n小铲子\t小鏟子\n小集团\t小集團\n小面包\t小麵包\n小须鲸\t小鬚鯨\n小鬼当家\t小鬼當家\n少不了\t少不了\n少了\t少了\n少于\t少於\n少冲\t少衝\n少出\t少出\n少占\t少佔\n少吊\t少吊\n少年才俊\t少年才俊\n少惹闲事\t少惹閒事\n少扣\t少扣\n少掌柜\t少掌櫃\n少数\t少數\n少数党\t少數黨\n少杰\t少傑\n少私寡欲\t少私寡慾\n少管闲事\t少管閒事\n少说几句\t少說幾句\n少采\t少採\n少长咸集\t少長咸集\n尔冬升\t爾冬陞\n尔后\t爾後\n尔当\t爾當\n尔本周\t爾本週\n尖团\t尖團\n尖团字\t尖團字\n尖团音\t尖團音\n尖扎\t尖扎\n尖扎县\t尖扎縣\n尖管面\t尖管麵\n尖裂叶\t尖裂葉\n尘卷风\t塵捲風\n尘封\t塵封\n尘肺症\t塵肺症\n尘芥虫\t塵芥蟲\n尘表\t塵表\n尘襟尽涤\t塵襟盡滌\n尘饭涂羹\t塵飯塗羹\n尚余\t尚餘\n尚志\t尚志\n尚志市\t尚志市\n尚慕杰\t尚慕傑\n尚面\t尚麵\n尚须\t尚須\n尝个\t嚐個\n尝了\t嚐了\n尝了一口\t嚐了一口\n尝了尝\t嚐了嚐\n尝了鲜\t嚐了鮮\n尝出\t嚐出\n尝到\t嚐到\n尝尝\t嚐嚐\n尝尝鲜\t嚐嚐鮮\n尝尽\t嚐盡\n尝巧\t嘗巧\n尝敌\t嘗敵\n尝新\t嘗新\n尝来尝去\t嚐來嚐去\n尝汤戏\t嘗湯戲\n尝点\t嚐點\n尝甜头\t嘗甜頭\n尝胆\t嘗膽\n尝胆卧薪\t嘗膽臥薪\n尝膳\t嘗膳\n尝草\t嘗草\n尝药\t嘗藥\n尝试\t嘗試\n尝试性\t嘗試性\n尝试错误学习\t嘗試錯誤學習\n尝起来\t嚐起來\n尝遍\t嚐遍\n尝酸\t嘗酸\n尝鲜\t嚐鮮\n尝鼎一脔\t嘗鼎一臠\n尤克利斯\t尤克利斯\n尤克勒斯\t尤克勒斯\n尤克斯\t尤克斯\n尤克里斯\t尤克里斯\n尤克里里琴\t尤克里里琴\n尤基里斯\t尤基里斯\n尤班克斯\t尤班克斯\n尤秋兴\t尤秋興\n尤里\t尤里\n尤里斯伊文思\t尤里斯伊文思\n尤里比底斯\t尤里比底斯\n尤里西斯\t尤里西斯\n尤须\t尤須\n尧布\t堯布\n尨眉皓发\t尨眉皓髮\n就于\t就於\n就克制\t就剋制\n就出\t就出\n就出去\t就出去\n就出来\t就出來\n就吃干\t就吃乾\n就回\t就回\n就回去\t就回去\n就回来\t就回來\n就干一\t就幹一\n就干一杯\t就乾一杯\n就干净\t就乾淨\n就干吧\t就幹吧\n就当\t就當\n就当作\t就當作\n就念\t就唸\n就扣\t就扣\n就拿出\t就拿出\n就日瞻云\t就日瞻雲\n就是\t就是\n就是了\t就是了\n就是海里\t就是海裡\n就晚了\t就晚了\n就汤下面\t就湯下麵\n就系\t就係\n就范\t就範\n就读于\t就讀於\n尸位\t尸位\n尸位素餐\t尸位素餐\n尸体\t屍體\n尸体剖检\t屍體剖檢\n尸体袋\t屍體袋\n尸体解剖\t屍體解剖\n尸僵\t屍僵\n尸利\t尸利\n尸变\t屍變\n尸块\t屍塊\n尸居余气\t尸居餘氣\n尸居龙见\t尸居龍見\n尸山血海\t屍山血海\n尸斑\t屍斑\n尸格\t屍格\n尸检\t屍檢\n尸榇\t屍櫬\n尸横遍野\t屍橫遍野\n尸灵\t屍靈\n尸祝\t尸祝\n尸祝代庖\t尸祝代庖\n尸禄\t尸祿\n尸禄素餐\t尸祿素餐\n尸臣\t尸臣\n尸蜡\t屍蠟\n尸衣\t屍衣\n尸解\t尸解\n尸谏\t尸諫\n尸身\t屍身\n尸陀林\t尸陀林\n尸饔\t尸饔\n尸首\t屍首\n尸骨\t屍骨\n尸骨无存\t屍骨無存\n尸骨早寒\t屍骨早寒\n尸骨未寒\t屍骨未寒\n尸骸\t屍骸\n尸鸠\t尸鳩\n尹秋君\t尹秋君\n尹邢避面\t尹邢避面\n尺二秀才\t尺二秀才\n尺寸千里\t尺寸千里\n尺寸斗粟\t尺寸斗粟\n尺布斗粟\t尺布斗粟\n尺幅千里\t尺幅千里\n尺板\t尺板\n尺板斗食\t尺板斗食\n尼乾子\t尼乾子\n尼乾陀\t尼乾陀\n尼亚加拉瀑布\t尼亞加拉瀑布\n尼克\t尼克\n尼克劳斯\t尼克勞斯\n尼克松\t尼克松\n尼克森\t尼克森\n尼克洛\t尼克洛\n尼克队\t尼克隊\n尼加拉瀑布\t尼加拉瀑布\n尼勒克\t尼勒克\n尼勒克县\t尼勒克縣\n尼坛\t尼壇\n尼坦雅胡\t尼坦雅胡\n尼姑庵\t尼姑庵\n尼布楚条约\t尼布楚條約\n尼布甲尼撒\t尼布甲尼撒\n尼庵\t尼庵\n尼采\t尼采\n尼龙布\t尼龍布\n尽世\t盡世\n尽义务\t盡義務\n尽了\t盡了\n尽些\t盡些\n尽享\t盡享\n尽人\t盡人\n尽人事\t盡人事\n尽人情\t盡人情\n尽人皆知\t盡人皆知\n尽付东流\t盡付東流\n尽付阙如\t盡付闕如\n尽信\t盡信\n尽做\t盡做\n尽做坏事\t盡做壞事\n尽先\t儘先\n尽全力\t盡全力\n尽全心\t盡全心\n尽兴\t盡興\n尽兴而归\t盡興而歸\n尽其\t盡其\n尽其在我\t盡其在我\n尽其所有\t盡其所有\n尽其所能\t盡其所能\n尽其所长\t盡其所長\n尽出\t盡出\n尽到\t盡到\n尽力\t盡力\n尽力去做\t盡力去做\n尽力而为\t盡力而為\n尽去\t盡去\n尽可\t儘可\n尽可能\t儘可能\n尽命\t盡命\n尽善\t盡善\n尽善尽美\t盡善盡美\n尽在\t盡在\n尽场儿\t盡場兒\n尽够\t儘夠\n尽失\t盡失\n尽头\t盡頭\n尽头话\t盡頭話\n尽如\t盡如\n尽如人意\t盡如人意\n尽子\t儘子\n尽孝\t盡孝\n尽尽\t儘儘\n尽展所长\t盡展所長\n尽属\t盡屬\n尽己\t盡己\n尽带\t盡帶\n尽席\t盡席\n尽年\t盡年\n尽底下\t儘底下\n尽得\t盡得\n尽心\t盡心\n尽心图报\t盡心圖報\n尽心尽力\t盡心盡力\n尽心竭力\t盡心竭力\n尽心竭诚\t盡心竭誠\n尽忠\t盡忠\n尽忠报国\t盡忠報國\n尽忠竭力\t盡忠竭力\n尽忠职守\t盡忠職守\n尽快\t儘快\n尽快地\t儘快地\n尽态极妍\t盡態極妍\n尽性\t儘性\n尽情\t盡情\n尽情吐露\t盡情吐露\n尽情尽理\t盡情盡理\n尽情欢乐\t盡情歡樂\n尽情欢唱\t盡情歡唱\n尽情歌唱\t盡情歌唱\n尽情玩乐\t盡情玩樂\n尽想\t儘想\n尽意\t盡意\n尽意随心\t儘意隨心\n尽收\t盡收\n尽收眼底\t盡收眼底\n尽教\t儘教\n尽散\t盡散\n尽数\t盡數\n尽日\t盡日\n尽日穷夜\t盡日窮夜\n尽早\t儘早\n尽是\t盡是\n尽有可能\t儘有可能\n尽本分\t盡本分\n尽欢\t盡歡\n尽欢而散\t盡歡而散\n尽沾恩露\t盡霑恩露\n尽然\t盡然\n尽瘁\t盡瘁\n尽瘁鞠躬\t盡瘁鞠躬\n尽皆\t盡皆\n尽盘将军\t盡盤將軍\n尽礼\t盡禮\n尽端\t盡端\n尽管\t儘管\n尽管如此\t儘管如此\n尽美尽善\t盡美盡善\n尽职\t盡職\n尽职尽责\t盡職盡責\n尽能\t盡能\n尽自\t儘自\n尽致\t盡致\n尽节\t盡節\n尽节竭诚\t盡節竭誠\n尽若\t盡若\n尽落尾\t儘落尾\n尽要\t盡要\n尽览\t盡覽\n尽言\t盡言\n尽让\t儘讓\n尽诚竭节\t盡誠竭節\n尽读\t盡讀\n尽责\t盡責\n尽责任\t盡責任\n尽述\t盡述\n尽速\t儘速\n尽释前嫌\t盡釋前嫌\n尽里\t儘裡\n尽量\t儘量\n尽铅华\t盡鉛華\n尾注\t尾註\n尾身幸次\t尾身幸次\n尿崩症\t尿崩症\n尿布\t尿布\n尿布台\t尿布臺\n尿布疹\t尿布疹\n尿斗\t尿斗\n尿杯\t尿杯\n尿毒症\t尿毒症\n局促\t侷促\n局里\t局裡\n局限\t侷限\n局限于\t侷限於\n局面\t局面\n层云\t層雲\n层出\t層出\n层出不穷\t層出不窮\n层出叠见\t層出疊見\n层压板\t層壓板\n层台\t層臺\n层积云\t層積雲\n层见叠出\t層見疊出\n层见迭出\t層見迭出\n层面\t層面\n居于\t居於\n居住于\t居住於\n居心险恶\t居心險惡\n居里\t居里\n居里夫人\t居里夫人\n屈一伸万\t屈一伸萬\n屈万里\t屈萬里\n屈就于\t屈就於\n屈志\t屈志\n屈才\t屈才\n屈折\t屈折\n屈折语\t屈折語\n屈曲\t屈曲\n屈服于\t屈服於\n屋子里\t屋子裡\n屋梁\t屋樑\n屋舍\t屋舍\n屋里\t屋裡\n屋里人\t屋裡人\n屋里的\t屋裡的\n屋面\t屋面\n屋面板\t屋面板\n屋面瓦\t屋面瓦\n屏当\t屏當\n屏极\t屏極\n屏风后\t屏風後\n屑于\t屑於\n";

/// Part 57 of the text.
pub const ST_PHRASES_57: &'static str = "展出\t展出\n展卷\t展卷\n展台\t展臺\n展团\t展團\n展布\t展布\n展才\t展才\n展现出\t展現出\n展现出来\t展現出來\n展示出\t展示出\n展示柜\t展示櫃\n展采\t展采\n展露出\t展露出\n展露出来\t展露出來\n属于\t屬於\n属于偶\t屬於偶\n属意于\t屬意於\n属托\t屬託\n属毛离里\t屬毛離裡\n屠苏\t屠蘇\n屠苏酒\t屠蘇酒\n屡仆屡起\t屢仆屢起\n屡出新招\t屢出新招\n屡出狂言\t屢出狂言\n屡战屡胜\t屢戰屢勝\n屡顾尔仆\t屢顧爾僕\n履历\t履歷\n履历片\t履歷片\n履历表\t履歷表\n屯扎\t屯紮\n屯田制\t屯田制\n屯里\t屯裡\n屯里镇\t屯里鎮\n山中无历日\t山中無曆日\n山中白云\t山中白雲\n山仔后\t山仔后\n山前山后\t山前山後\n山后\t山後\n山向\t山向\n山地同胞\t山地同胞\n山地管制区\t山地管制區\n山地管制游览区\t山地管制遊覽區\n山城小面\t山城小麵\n山岩\t山岩\n山岳\t山嶽\n山崎面饱\t山崎麵飽\n山崩钟应\t山崩鐘應\n山庄\t山莊\n山庄里\t山莊裡\n山斗\t山斗\n山有扶苏\t山有扶蘇\n山栖谷隐\t山棲谷隱\n山栖谷饮\t山棲谷飲\n山梁\t山樑\n山楂干\t山楂乾\n山洞里\t山洞裡\n山洪暴发\t山洪暴發\n山穷水尽\t山窮水盡\n山系\t山系\n山缪杰克森\t山繆傑克森\n山羊胡\t山羊鬍\n山羊胡子\t山羊鬍子\n山羊须\t山羊鬚\n山胡桃木\t山胡桃木\n山苏\t山蘇\n山药\t山藥\n山药蛋\t山藥蛋\n山谷\t山谷\n山谷地\t山谷地\n山里\t山裡\n山里站\t山里站\n山里红\t山裡紅\n山重水复\t山重水複\n山雨欲来\t山雨欲來\n山雨欲来风满楼\t山雨欲來風滿樓\n岁丰年稔\t歲豐年稔\n岁修\t歲修\n岁凶\t歲凶\n岁出\t歲出\n岁寒松柏\t歲寒松柏\n岁稔年丰\t歲稔年豐\n岁聿云暮\t歲聿云暮\n岁计余绌\t歲計餘絀\n岂只\t豈只\n岐周\t岐周\n岑参\t岑參\n岔换\t岔換\n岔曲\t岔曲\n岗台\t崗臺\n岚烟波影\t嵐煙波影\n岛链\t島鏈\n岩仓使节团\t岩倉使節團\n岩圈\t岩圈\n岩土\t岩土\n岩土体\t岩土體\n岩基\t岩基\n岩墙\t岩牆\n岩墙之下\t岩牆之下\n岩壁\t岩壁\n岩层\t岩層\n岩居\t巖居\n岩居穴处\t巖居穴處\n岩居谷饮\t巖居谷飲\n岩屑\t岩屑\n岩岩\t巖巖\n岩岸\t岩岸\n岩巉\t巖巉\n岩床\t岩牀\n岩徼\t巖徼\n岩心\t岩心\n岩手县\t岩手縣\n岩村\t巖村\n岩村明宪\t岩村明憲\n岩棉\t岩棉\n岩洞\t岩洞\n岩流圈\t岩流圈\n岩浆\t岩漿\n岩浆岩\t岩漿岩\n岩浆流\t岩漿流\n岩溶\t岩溶\n岩濑健\t岩瀨健\n岩画\t岩畫\n岩盐\t岩鹽\n岩石\t岩石\n岩石圈\t岩石圈\n岩石学\t岩石學\n岩石层\t岩石層\n岩石循环\t岩石循環\n岩礁\t岩礁\n岩穴\t巖穴\n岩穴之士\t巖穴之士\n岩羊\t岩羊\n岩脉\t岩脈\n岩蔷薇\t岩薔薇\n岩邑\t巖邑\n岩郎\t巖郎\n岩阻\t巖阻\n岩陛\t巖陛\n岫岩县\t岫巖縣\n岭表\t嶺表\n岱岳\t岱嶽\n岳丈\t岳丈\n岳云\t岳雲\n岳坟\t岳墳\n岳家\t岳家\n岳家军\t岳家軍\n岳岳\t岳岳\n岳庙\t岳廟\n岳武穆\t岳武穆\n岳母\t岳母\n岳氏\t岳氏\n岳父\t岳父\n岳王\t岳王\n岳王庙\t岳王廟\n岳珂\t岳珂\n岳阳\t岳陽\n岳阳县\t岳陽縣\n岳阳楼\t岳陽樓\n岳阳楼记\t岳陽樓記\n岳飞\t岳飛\n岳麓\t嶽麓\n峇峇娘惹\t峇峇娘惹\n峇里岛\t峇里島\n峡谷\t峽谷\n峰回\t峰迴\n峰回路转\t峰迴路轉\n峰岩\t峰巖\n峰火台\t峰火臺\n峻岭\t峻嶺\n峻极\t峻極\n崔京周\t崔京周\n崔克索\t崔克索\n崔敬邕墓志铭\t崔敬邕墓誌銘\n崔涂\t崔塗\n崖广\t崖广\n崖谷\t崖谷\n崤谷\t崤谷\n崩症\t崩症\n嵌岩\t嵌巖\n嵚埼历落\t嶔埼歷落\n嵫厘\t嵫釐\n嶰谷\t嶰谷\n巅崖峻谷\t巔崖峻谷\n巉岩\t巉巖\n巍巍荡荡\t巍巍蕩蕩\n川党参\t川黨參\n川后\t川后\n川埼症\t川埼症\n川杯\t川杯\n川汇区\t川匯區\n川谷\t川穀\n州同\t州同\n州里\t州里\n巡回\t巡迴\n巡回公演\t巡迴公演\n巡回剧团\t巡迴劇團\n巡回医疗\t巡迴醫療\n巡回图书馆\t巡迴圖書館\n巡回大使\t巡迴大使\n巡回学校\t巡迴學校\n巡回审判\t巡迴審判\n巡回展\t巡迴展\n巡回检查\t巡迴檢查\n巡回法庭\t巡回法庭\n巡回演出\t巡迴演出\n巡回演唱\t巡迴演唱\n巡回祭\t巡迴祭\n巡回赛\t巡迴賽\n巡回车\t巡迴車\n巡幸\t巡幸\n巡游\t巡遊\n工业体系\t工業體系\n工业团体\t工業團體\n工业技术\t工業技術\n工业民主制\t工業民主制\n工于\t工於\n工于心计\t工於心計\n工人党\t工人黨\n工价\t工價\n工余\t工餘\n工作制\t工作制\n工作制度\t工作制度\n工作台\t工作臺\n工作团\t工作團\n工作表\t工作表\n工作规范\t工作規範\n工作面\t工作面\n工党\t工黨\n工厂\t工廠\n工厂卫生\t工廠衛生\n工厂工业\t工廠工業\n工厂布置\t工廠佈置\n工厂权\t工廠權\n工厂法\t工廠法\n工厂自动化\t工廠自動化\n工商综合区\t工商綜合區\n工团\t工團\n工团主义\t工團主義\n工布江达\t工布江達\n工布江达县\t工布江達縣\n工欲善其事\t工欲善其事\n工矿炸药\t工礦炸藥\n工种\t工種\n工程学系\t工程學系\n工程系\t工程系\n工致\t工緻\n工艺美术\t工藝美術\n左云\t左雲\n左云县\t左雲縣\n左光斗\t左光斗\n左冲\t左衝\n左冲右突\t左衝右突\n左右前后\t左右前後\n左右摇摆\t左右搖擺\n左右采之\t左右采之\n左右采获\t左右採獲\n左后\t左後\n左后方\t左後方\n左向\t左向\n左手不托右手\t左手不托右手\n左拐\t左拐\n左氏春秋\t左氏春秋\n左邻右舍\t左鄰右舍\n左邻右里\t左鄰右里\n左里\t左里\n左里克\t左里克\n左面\t左面\n巧了\t巧了\n巧克力\t巧克力\n巧克力糖\t巧克力糖\n巧克力脆片\t巧克力脆片\n巧克力色\t巧克力色\n巧克力酱\t巧克力醬\n巧克莉\t巧克莉\n巧历\t巧曆\n巧发奇中\t巧發奇中\n巧合\t巧合\n巧同造化\t巧同造化\n巧干\t巧幹\n巧当儿\t巧當兒\n巨万\t鉅萬\n巨业\t鉅業\n巨亏\t鉅虧\n巨人症\t巨人症\n巨作\t鉅作\n巨债\t鉅債\n巨公\t鉅公\n巨制\t鉅製\n巨变\t鉅變\n巨商\t鉅商\n巨奖\t鉅獎\n巨奸\t鉅奸\n巨子\t鉅子\n巨富\t鉅富\n巨款\t鉅款\n巨献\t鉅獻\n巨祥\t鉅祥\n巨细\t鉅細\n巨脾症\t巨脾症\n巨舰\t鉅艦\n巨著\t鉅著\n巨贪\t鉅貪\n巨野\t鉅野\n巨额\t鉅額\n巨鹿\t鉅鹿\n巨黍\t鉅黍\n巫咸\t巫咸\n巫山云雨\t巫山雲雨\n巫术\t巫術\n差之千里\t差之千里\n差之毫厘\t差之毫釐\n差于\t差於\n差以毫厘\t差以毫釐\n差价\t差價\n差别\t差別\n差别待遇\t差別待遇\n差别费率\t差別費率\n差发\t差發\n差多了\t差多了\n差恶\t差惡\n差若豪厘\t差若豪釐\n己丑\t己丑\n己出\t己出\n己所不欲\t己所不欲\n己饥己溺\t己飢己溺\n已于\t已於\n已作出保\t已作出保\n已占\t已佔\n已占卜\t已占卜\n已占算\t已占算\n已对于\t已對於\n已扣\t已扣\n已极\t已極\n已系\t已係\n已经\t已經\n巴人下里\t巴人下里\n巴克\t巴克\n巴克利\t巴克利\n巴克南德\t巴克南德\n巴克夏猪\t巴克夏豬\n巴克礼\t巴克禮\n巴克科思\t巴克科思\n巴克莱\t巴克萊\n巴克莱银行\t巴克萊銀行\n巴克雷\t巴克雷\n巴克霍兹\t巴克霍茲\n巴别塔\t巴別塔\n巴前算后\t巴前算後\n巴厘岛\t巴厘島\n巴尔克嫩德\t巴爾克嫩德\n巴尔干\t巴爾幹\n巴尔干半岛\t巴爾幹半島\n巴尔干山\t巴爾幹山\n巴尔干山脉\t巴爾幹山脈\n巴尔扎克\t巴爾扎克\n巴尔札克\t巴爾札克\n";

/// Part 58 of the text.
pub const ST_PHRASES_58: &'static str = "巴尔舍夫斯基\t巴爾舍夫斯基\n巴尔贝里尼宫殿\t巴爾貝里尼宮殿\n巴尔赞\t巴爾贊\n巴尔陶克\t巴爾陶克\n巴尖儿好胜\t巴尖兒好勝\n巴布\t巴布\n巴布亚\t巴布亞\n巴布亚省\t巴布亞省\n巴布亚纽\t巴布亞紐\n巴布亚纽几内亚\t巴布亞紐幾內亞\n巴布尔\t巴布爾\n巴布延群岛\t巴布延群島\n巴布拉族\t巴布拉族\n巴布狄伦\t巴布狄倫\n巴托丽\t巴托麗\n巴托莉\t巴托莉\n巴拉克\t巴拉克\n巴拉松\t巴拉松\n巴控克什米尔\t巴控克什米爾\n巴斗\t巴斗\n巴斯克\t巴斯克\n巴斯克人\t巴斯克人\n巴斯克语\t巴斯克語\n巴斯德菌症\t巴斯德菌症\n巴斯特纳克\t巴斯特納克\n巴松管\t巴松管\n巴比合金\t巴比合金\n巴比布朗\t巴比布朗\n巴比特合金\t巴比特合金\n巴氏杆菌\t巴氏桿菌\n巴洛克\t巴洛克\n巴洛克式\t巴洛克式\n巴洛克艺术\t巴洛克藝術\n巴洛克风格\t巴洛克風格\n巴洛马天文台\t巴洛馬天文臺\n巴游\t巴游\n巴瑞克\t巴瑞克\n巴罗克\t巴羅克\n巴胡提\t巴胡提\n巴舍莱\t巴舍萊\n巴贝克\t巴貝克\n巴贝西亚原虫病\t巴貝西亞原蟲病\n巴里\t巴里\n巴里坤\t巴里坤\n巴里坤县\t巴里坤縣\n巴里坤哈萨克自治县\t巴里坤哈薩克自治縣\n巴里坤草原\t巴里坤草原\n巴里岛\t巴里島\n巴里库廷火山\t巴里庫廷火山\n巴里斯\t巴里斯\n巴金森氏症\t巴金森氏症\n巴音布克草原\t巴音布克草原\n巴马干酪\t巴馬乾酪\n巷仔见面馆\t巷仔見麵館\n巷路里\t巷路裡\n巷道里\t巷道裡\n巷里\t巷裡\n巾帼须眉\t巾幗鬚眉\n币别\t幣別\n币制\t幣制\n市不二价\t市不二價\n市不豫价\t市不豫價\n市价\t市價\n市党部\t市黨部\n市制\t市制\n市占\t市佔\n市占率\t市佔率\n市地重划\t市地重劃\n市场价\t市場價\n市场价格\t市場價格\n市场准入\t市場準入\n市场占有率\t市場佔有率\n市无二价\t市無二價\n市里\t市裡\n市长杯\t市長盃\n市面\t市面\n市面上\t市面上\n布一个\t佈一個\n布丁\t布丁\n布下\t佈下\n布丹\t布丹\n布于\t佈於\n布什\t布什\n布什尔\t布什爾\n布什尔省\t布什爾省\n布仑特\t布侖特\n布会\t佈會\n布伞\t布傘\n布伦\t布倫\n布伦尼\t布倫尼\n布伦托海\t布倫托海\n布伦森\t布倫森\n布伦特\t布倫特\n布佳迪\t布佳迪\n布依\t布依\n布依族\t布依族\n布偶\t布偶\n布偶戏\t布偶戲\n布克\t布克\n布克奖\t布克獎\n布兰\t布蘭\n布兰克\t布蘭克\n布兰妮\t布蘭妮\n布兰妮斯皮尔斯\t布蘭妮斯皮爾斯\n布兰德\t布蘭德\n布兰枯秀\t布蘭枯秀\n布兰森\t布蘭森\n布兰特\t布蘭特\n布兰琪\t布蘭琪\n布兰登堡\t布蘭登堡\n布兰登堡门\t布蘭登堡門\n布农\t布農\n布农族\t布農族\n布冯\t布馮\n布划\t佈劃\n布列\t佈列\n布列兹涅\t布列茲涅\n布列兹涅夫\t布列茲涅夫\n布列兹涅夫主义\t布列茲涅夫主義\n布列塔尼\t布列塔尼\n布列开\t布列開\n布利吉\t布利吉\n布利斯班\t布利斯班\n布利斯班市\t布利斯班市\n布加勒斯条约\t布加勒斯條約\n布加勒斯特\t布加勒斯特\n布劳恩\t布勞恩\n布势\t佈勢\n布勒斯特\t布勒斯特\n布包\t布包\n布匹\t布匹\n布匿战争\t布匿戰爭\n布卡拉\t布卡拉\n布叶\t布葉\n布合\t布合\n布吉河\t布吉河\n布吉纳法索\t布吉納法索\n布告\t佈告\n布告栏\t佈告欄\n布告牌\t佈告牌\n布哈拉\t布哈拉\n布哈林\t布哈林\n布哈林模式\t布哈林模式\n布哨\t佈哨\n布喀河\t布喀河\n布囊\t布囊\n布囊其口\t佈囊其口\n布坎南\t布坎南\n布复\t布覆\n布头\t布頭\n布奇\t布奇\n布娃娃\t布娃娃\n布婚\t布婚\n布宁\t布寧\n布宜若\t布宜若\n布宜诺\t布宜諾\n布宜诺斯艾利斯\t布宜諾斯艾利斯\n布宪\t布憲\n布尔\t布爾\n布尔乔亚\t布爾喬亞\n布尔什维克\t布爾什維克\n布尔代数\t布爾代數\n布尔兹\t布爾茲\n布尔哥尼\t布爾哥尼\n布尔津\t布爾津\n布尔津县\t布爾津縣\n布尔省\t布爾省\n布尔诺\t布爾諾\n布尼亚病毒\t布尼亞病毒\n布局\t佈局\n布岗\t佈崗\n布巾\t布巾\n布布\t布布\n布帆\t布帆\n布帆无恙\t布帆無恙\n布希\t布希\n布希号\t布希號\n布希威克\t布希威克\n布希总统\t布希總統\n布希曼\t布希曼\n布帘\t布簾\n布帛\t布帛\n布帛菽粟\t布帛菽粟\n布幔\t布幔\n布幕\t布幕\n布干维尔\t布干維爾\n布干维尔岛\t布干維爾島\n布庄\t布莊\n布庄里\t布莊裡\n布店\t布店\n布德\t佈德\n布德尔\t布德爾\n布德施仁\t布德施仁\n布德施惠\t布德施惠\n布慈\t佈慈\n布托\t布托\n布扣\t佈扣\n布拉\t布拉\n布拉克\t布拉克\n布拉加队\t布拉加隊\n布拉吉\t布拉吉\n布拉姆兹\t布拉姆茲\n布拉姆斯\t布拉姆斯\n布拉席耶利\t布拉席耶利\n布拉德\t布拉德\n布拉恰诺\t布拉恰諾\n布拉曼德\t布拉曼德\n布拉柴维尔\t布拉柴維爾\n布拉格\t布拉格\n布拉格定律\t布拉格定律\n布拉格队\t布拉格隊\n布拉欣\t布拉欣\n布拉索夫\t布拉索夫\n布拉萨市\t布拉薩市\n布拉谢\t布拉謝\n布拉迪斯拉发\t布拉迪斯拉發\n布拉马普得拉河\t布拉馬普得拉河\n布拖\t布拖\n布拖县\t布拖縣\n布招儿\t布招兒\n布掸子\t布撣子\n布摆\t佈擺\n布政\t佈政\n布政使\t布政使\n布政司\t布政司\n布教\t佈教\n布散\t佈散\n布料\t布料\n布施\t佈施\n布景\t佈景\n布朗\t布朗\n布朗克士\t布朗克士\n布朗克斯\t布朗克斯\n布朗士\t布朗士\n布朗夏\t布朗夏\n布朗大学\t布朗大學\n布朗妮\t布朗妮\n布朗宁\t布朗寧\n布朗德\t布朗德\n布朗族\t布朗族\n布朗森\t布朗森\n布朗特\t布朗特\n布朗贝克\t布朗貝克\n布朗费德\t布朗費德\n布朗运动\t布朗運動\n布望\t布望\n布条\t布條\n布来德史崔\t布來德史崔\n布林\t布林\n布林代数\t布林代數\n布林底希\t布林底希\n布林迪西\t布林迪西\n布格河\t布格河\n布桩\t布樁\n布梏\t布梏\n布氏杆菌\t布氏桿菌\n布氏杆菌病\t布氏桿菌病\n布氏菌苗\t布氏菌苗\n布氏非鲫\t布氏非鯽\n布气\t布氣\n布水\t布水\n布法罗\t布法羅\n布洛克\t布洛克\n布洛斯顿\t布洛斯頓\n布洛沙德\t布洛沙德\n布洛湾\t布洛灣\n布洛芬\t布洛芬\n布满\t佈滿\n布濩\t布濩\n布热津斯基\t布熱津斯基\n布特\t布特\n布特哈\t布特哈\n布特拉加亚\t布特拉加亞\n布班尼斯瓦\t布班尼斯瓦\n布琼布拉\t布瓊布拉\n布瑞\t布瑞\n布瑞尤\t布瑞尤\n布瑞斯特\t布瑞斯特\n布瑞特\t布瑞特\n布瑞顿\t布瑞頓\n布疋\t布疋\n布疑阵\t佈疑陣\n布痕瓦尔德\t布痕瓦爾德\n布白\t布白\n布立吞族\t布立吞族\n布算\t布算\n布篷\t布篷\n布素\t布素\n布累尔\t布累爾\n布纶堡\t布綸堡\n布纹纸\t布紋紙\n布线\t佈線\n布维岛\t布維島\n布缦\t布縵\n布网\t佈網\n布罗德赫斯特\t布羅德赫斯特\n布罗温斯文学\t布羅溫斯文學\n布罗迪\t布羅迪\n布置\t佈置\n布署\t佈署\n布耳\t布耳\n布胡会\t布胡會\n布臆\t布臆\n布色\t布色\n布荆\t布荊\n布草衣服\t布草衣服\n布莱\t布萊\n布莱克\t布萊克\n布莱克史密斯\t布萊克史密斯\n布莱克曼\t布萊克曼\n布莱克本\t布萊克本\n布莱尔\t布萊爾\n布莱尼\t布萊尼\n布莱希特\t布萊希特\n布莱德\t布萊德\n布莱德利\t布萊德利\n布莱德彼特\t布萊德彼特\n布莱德福\t布萊德福\n布莱德雷\t布萊德雷\n";

/// Part 59 of the text.
pub const ST_PHRASES_59: &'static str = "布莱恩\t布萊恩\n布莱恩特\t布萊恩特\n布莱恩狄帕玛\t布萊恩狄帕瑪\n布莱特\t布萊特\n布莱特妮墨菲\t布萊特妮墨菲\n布莱雅特蒙古\t布萊雅特蒙古\n布莱顿\t布萊頓\n布菜\t佈菜\n布萨\t布薩\n布衣\t布衣\n布衣之交\t布衣之交\n布衣之怒\t布衣之怒\n布衣交\t布衣交\n布衣卿相\t布衣卿相\n布衣小民\t布衣小民\n布衣粝食\t布衣糲食\n布衣苇带\t布衣葦帶\n布衣蔬食\t布衣蔬食\n布衣韦带\t布衣韋帶\n布衣黔首\t布衣黔首\n布衫\t布衫\n布袋\t布袋\n布袋和尚\t布袋和尚\n布袋安\t布袋安\n布袋戏\t布袋戲\n布袋戏偶\t布袋戲偶\n布袋戏馆\t布袋戲館\n布袋港\t布袋港\n布袋莲\t布袋蓮\n布袋装\t布袋裝\n布袋镇\t布袋鎮\n布袜青鞋\t布襪青鞋\n布被\t布被\n布被十年\t布被十年\n布裙荆钗\t布裙荊釵\n布褐\t布褐\n布西县\t布西縣\n布让\t佈讓\n布设\t佈設\n布谷\t布穀\n布谷鸟\t布穀鳥\n布谷鸟钟\t布穀鳥鐘\n布货\t布貨\n布边\t布邊\n布达\t布達\n布达佩斯\t布達佩斯\n布达式\t布達式\n布达拉宫\t布達拉宮\n布达拉寺\t布達拉寺\n布达拉山\t布達拉山\n布迪亚\t布迪亞\n布道\t佈道\n布道大会\t佈道大會\n布道所\t佈道所\n布那喀\t布那喀\n布里\t布里\n布里亚族\t布里亞族\n布里兹涅夫\t布里茲涅夫\n布里坦尼\t布里坦尼\n布里奇顿\t布里奇頓\n布里姬沃特\t布里姬沃特\n布里斯\t布里斯\n布里斯托\t布里斯托\n布里斯托尔海峡\t布里斯托爾海峽\n布里斯本\t布里斯本\n布里斯本市\t布里斯本市\n布里斯本河\t布里斯本河\n布里斯班\t布里斯班\n布里迪雅\t布里迪雅\n布里迪雅通\t布里迪雅通\n布里顿\t布里頓\n布防\t佈防\n布防迎战\t布防迎戰\n布阵\t佈陣\n布阵安营\t佈陣安營\n布隆伯格\t布隆伯格\n布隆克特\t布隆克特\n布隆吉尔河\t布隆吉爾河\n布隆方丹\t布隆方丹\n布雅湾\t布雅灣\n布雪\t佈雪\n布雷\t佈雷\n布雷克\t布雷克\n布雷克磨\t布雷克磨\n布雷封锁\t佈雷封鎖\n布雷尔\t布雷爾\n布雷尔港\t布雷爾港\n布雷希特\t布雷希特\n布雷恩\t布雷恩\n布雷拉\t布雷拉\n布雷的\t佈雷的\n布雷舰\t佈雷艦\n布雷艇\t佈雷艇\n布雷蒙\t布雷蒙\n布雷迪\t布雷迪\n布雷速度\t佈雷速度\n布雷队\t佈雷隊\n布雷默\t布雷默\n布面\t布面\n布面相片\t布面相片\n布鞋\t布鞋\n布须曼人\t布須曼人\n布马雪\t布馬雪\n布鲁\t布魯\n布鲁乐谷\t布魯樂谷\n布鲁克\t布魯克\n布鲁克斯\t布魯克斯\n布鲁克林\t布魯克林\n布鲁克林大桥\t布魯克林大橋\n布鲁克纳\t布魯克納\n布鲁克雪德丝\t布魯克雪德絲\n布鲁勒\t布魯勒\n布鲁塞尔\t布魯塞爾\n布鲁奈勒斯基\t布魯奈勒斯基\n布鲁姆费尔德\t布魯姆費爾德\n布鲁尼\t布魯尼\n布鲁托\t布魯托\n布鲁斯\t布魯斯\n布鲁斯史普林斯汀\t布魯斯史普林斯汀\n布鲁斯威利\t布魯斯威利\n布鲁斯特\t布魯斯特\n布鲁日\t布魯日\n布鲁氏菌\t布魯氏菌\n布鲁氏菌病\t布魯氏菌病\n布鲁珊\t布魯珊\n布鲁诺\t布魯諾\n布鲁金斯\t布魯金斯\n布鼓雷门\t布鼓雷門\n帅呆了\t帥呆了\n帆布\t帆布\n帆布包\t帆布包\n帆布床\t帆布牀\n帆布椅\t帆布椅\n帆布袋\t帆布袋\n帆布鞋\t帆布鞋\n帆板\t帆板\n师云而云\t師云而云\n师出无名\t師出無名\n师出有名\t師出有名\n师团\t師團\n师娘\t師娘\n师徒合同\t師徒合同\n师杯\t師杯\n师生杯\t師生盃\n师范\t師範\n师范大学\t師範大學\n师范学校\t師範學校\n师范学院\t師範學院\n师范教育\t師範教育\n师范毕业\t師範畢業\n师范生\t師範生\n师范类\t師範類\n师范附小\t師範附小\n师范院校\t師範院校\n师表\t師表\n希伯来历\t希伯來曆\n希伯来历史\t希伯來歷史\n希克斯\t希克斯\n希区考克\t希區考克\n希布伦市\t希布倫市\n希拉克\t希拉克\n希拉里\t希拉里\n希拉里克林顿\t希拉里克林頓\n希斯仑\t希斯崙\n希斯莱杰\t希斯萊傑\n希斯雷杰\t希斯雷傑\n希格斯机制\t希格斯機制\n希腊建筑\t希臘建築\n帐面\t帳面\n帕丝齐克\t帕絲齊克\n帕修斯\t帕修斯\n帕克\t帕克\n帕台农\t帕臺農\n帕台农神庙\t帕臺農神廟\n帕特里克\t帕特里克\n帕特里夏\t帕特里夏\n帕穆克\t帕穆克\n帕索里尼\t帕索里尼\n帕累托最优\t帕累托最優\n帕累托法则\t帕累托法則\n帕罗贝克\t帕羅貝克\n帕谢克\t帕謝克\n帕金森氏症\t帕金森氏症\n帕金森症\t帕金森症\n帘子\t簾子\n帘子布\t簾子布\n帘子线\t簾子線\n帘官\t簾官\n帘布\t簾布\n帘帐\t簾帳\n帘帷\t簾帷\n帘幔\t簾幔\n帘幕\t簾幕\n帘幕式\t簾幕式\n帘幽梦\t簾幽夢\n帘栊\t簾櫳\n帘波\t簾波\n帝制\t帝制\n帝制时代\t帝制時代\n帝后\t帝后\n帝胄\t帝胄\n带丑闻\t帶醜聞\n带个\t帶個\n带个好\t帶個好\n带了\t帶了\n带凶\t帶凶\n带出\t帶出\n带出去\t帶出去\n带出来\t帶出來\n带发修行\t帶髮修行\n带同\t帶同\n带回\t帶回\n带回到\t帶回到\n带回去\t帶回去\n带回来\t帶回來\n带团\t帶團\n带团参加\t帶團參加\n带征\t帶徵\n带征银\t帶徵銀\n带扣\t帶扣\n带罪征收\t帶罪徵收\n带膆貂挂\t帶膆貂掛\n席丰履厚\t席豐履厚\n席卷\t席捲\n席卷一空\t席捲一空\n席卷亚洲\t席捲亞洲\n席卷天下\t席捲天下\n席卷而来\t席捲而來\n席卷而逃\t席捲而逃\n席哈克\t席哈克\n席志成\t席誌成\n席棚\t蓆棚\n席湘漓\t席湘漓\n席胜\t席勝\n席面\t席面\n帮不了\t幫不了\n帮个场子\t幫個場子\n帮伙\t幫夥\n帮佣\t幫傭\n帮冬\t幫冬\n帮凶\t幫兇\n帮别\t幫別\n帮懒钻闲\t幫懶鑽閒\n帮闲钻懒\t幫閒鑽懶\n帷薄不修\t帷薄不修\n常价\t常價\n常任代表\t常任代表\n常向\t常向\n常回\t常回\n常回去\t常回去\n常回来\t常回來\n常态分布\t常態分佈\n常用参考书\t常用參考書\n常绿阔叶\t常綠闊葉\n常绿阔叶林\t常綠闊葉林\n常胜\t常勝\n常胜军\t常勝軍\n常胜家\t常勝家\n常胜将军\t常勝將軍\n常衡制\t常衡制\n常见于\t常見於\n常须\t常須\n帽帘\t帽簾\n幅面\t幅面\n幕前幕后\t幕前幕後\n幕后\t幕後\n幕后人物\t幕後人物\n幕后新闻\t幕後新聞\n幕后消息\t幕後消息\n幕后花絮\t幕後花絮\n幕后英雄\t幕後英雄\n幕布\t幕布\n幡布\t幡布\n干一\t幹一\n干一坛\t乾一罈\n干一坛法\t幹一壇法\n干一杯\t乾一杯\n干一碗\t乾一碗\n干上\t幹上\n干下去\t幹下去\n干不\t幹不\n干不下\t幹不下\n干不了\t幹不了\n干不干\t幹不幹\n干不干净\t乾不乾淨\n干不干杯\t乾不乾杯\n干不成\t幹不成\n干与\t干與\n干丝\t乾絲\n干两年\t幹兩年\n干两杯\t乾兩杯\n干个\t幹個\n干个够\t幹個夠\n干么\t幹麼\n干乔\t乾喬\n干买卖\t幹買賣\n干了\t幹了\n干了什么\t幹了什麼\n干了杯\t乾了杯\n干了这一杯\t乾了這一杯\n干了这一瓶\t乾了這一瓶\n干了这杯\t乾了這杯\n干了这碗\t乾了這碗\n干事\t幹事\n干事会\t幹事會\n干事长\t幹事長\n干云蔽日\t干雲蔽日\n干井\t乾井\n干些\t幹些\n干些什么\t幹些什麼\n干产\t乾產\n干亲\t乾親\n干人\t幹人\n干什\t幹什\n干什么\t幹什麼\n干他\t幹他\n干仗\t幹仗\n干任何\t幹任何\n干休\t干休\n干休所\t幹休所\n干伸舌\t乾伸舌\n干何事\t幹何事\n干你\t幹你\n干你娘\t幹你娘\n";

/// Part 60 of the text.
pub const ST_PHRASES_60: &'static str = "干傻事\t幹傻事\n干儿\t乾兒\n干儿子\t乾兒子\n干冒烟\t乾冒煙\n干农活\t幹農活\n干冰\t乾冰\n干冷\t乾冷\n干净\t乾淨\n干净俐落\t乾淨俐落\n干凉\t乾涼\n干几件\t幹幾件\n干几宗\t幹幾宗\n干几手\t乾幾手\n干几杯\t乾幾杯\n干几桩\t幹幾樁\n干几番\t幹幾番\n干几碗\t乾幾碗\n干几辈\t幹幾輩\n干凯文\t干凱文\n干出\t幹出\n干刍\t乾芻\n干别的\t幹別的\n干到\t幹到\n干制\t乾製\n干刻版\t乾刻版\n干剥剥\t乾剝剝\n干办\t幹辦\n干劲\t幹勁\n干劲儿\t幹勁兒\n干劲冲天\t幹勁沖天\n干劲十足\t幹勁十足\n干卦\t乾卦\n干卿何事\t干卿何事\n干卿底事\t干卿底事\n干又热\t乾又熱\n干台\t乾颱\n干号\t乾號\n干吊着下巴\t乾吊著下巴\n干名犯义\t干名犯義\n干名采誉\t干名采譽\n干吏\t幹吏\n干吗\t幹嗎\n干呕\t乾嘔\n干员\t幹員\n干和\t乾和\n干咳\t乾咳\n干咽\t乾嚥\n干咽唾\t乾嚥唾\n干哑\t乾啞\n干哕\t乾噦\n干哥\t乾哥\n干哥哥\t乾哥哥\n干哭\t乾哭\n干唱\t乾唱\n干啤\t乾啤\n干啥\t幹啥\n干啼\t乾啼\n干啼湿哭\t乾啼濕哭\n干嘛\t幹嘛\n干嚎\t乾嚎\n干回付\t乾回付\n干图\t乾圖\n干圆洁净\t乾圓潔淨\n干土\t乾土\n干地\t乾地\n干坏事\t幹壞事\n干坐\t乾坐\n干坐着\t乾坐著\n干坛子\t乾罈子\n干坞\t乾塢\n干城\t干城\n干堂婶\t乾堂嬸\n干塘\t乾塘\n干大事\t幹大事\n干头\t幹頭\n干女\t乾女\n干女儿\t乾女兒\n干女友\t幹女友\n干女同事\t幹女同事\n干女婿\t乾女婿\n干女教师\t幹女教師\n干奴才\t乾奴才\n干她\t幹她\n干好\t幹好\n干妈\t乾媽\n干妹\t乾妹\n干妹妹\t乾妹妹\n干姊\t乾姊\n干姊姊\t乾姊姊\n干姐\t乾姐\n干姜\t乾薑\n干姬松茸\t乾姬松茸\n干娘\t乾娘\n干子\t乾子\n干季\t乾季\n干宅\t乾宅\n干完\t幹完\n干家\t幹家\n干将\t干將\n干将莫邪\t干將莫邪\n干就干\t幹就幹\n干尸\t乾屍\n干尽\t幹盡\n干尽一坛\t乾盡一罈\n干尽一壶\t乾盡一壺\n干尽一杯\t乾盡一杯\n干尽一碗\t乾盡一碗\n干屎橛\t乾屎橛\n干巴\t乾巴\n干巴巴\t乾巴巴\n干巴巴的\t乾巴巴的\n干布\t乾布\n干干\t乾乾\n干干儿的\t乾乾兒的\n干干净净\t乾乾淨淨\n干干巴巴\t乾乾巴巴\n干干干干\t幹幹幹幹\n干干爽爽\t乾乾爽爽\n干干瘦瘦\t乾乾瘦瘦\n干干的\t乾乾的\n干干脆脆\t乾乾脆脆\n干式\t乾式\n干弟\t乾弟\n干弟弟\t乾弟弟\n干强盗\t幹強盜\n干当\t幹當\n干得\t幹得\n干得一杯\t乾得一杯\n干得三杯\t乾得三杯\n干得两杯\t乾得兩杯\n干得了\t幹得了\n干得很\t乾得很\n干急\t乾急\n干性\t乾性\n干性油\t乾性油\n干性皮肤\t乾性皮膚\n干戈\t干戈\n干戈扰攘\t干戈擾攘\n干成\t幹成\n干我\t幹我\n干戚\t干鏚\n干扁豆角\t干扁豆角\n干手净脚\t乾手淨腳\n干才\t幹才\n干打垒\t乾打壘\n干打雷\t乾打雷\n干扰\t干擾\n干扰到\t干擾到\n干扰力\t干擾力\n干扰素\t干擾素\n干折\t乾折\n干拌\t乾拌\n干拌面\t乾拌麵\n干拎娘\t幹拎娘\n干挠\t干撓\n干捞\t乾撈\n干捞面\t乾撈麵\n干掉\t幹掉\n干掉一杯\t乾掉一杯\n干掉一瓶\t乾掉一瓶\n干掉一碗\t乾掉一碗\n干掉这杯\t乾掉這杯\n干掉这碗\t乾掉這碗\n干掉那杯\t乾掉那杯\n干掉那碗\t乾掉那碗\n干探\t幹探\n干撂台\t乾撂臺\n干撇下\t乾撇下\n干擦\t乾擦\n干支\t干支\n干支剌\t乾支剌\n干支支\t乾支支\n干支沟\t干支溝\n干支流\t幹支流\n干政\t干政\n干数杯\t乾數杯\n干料\t乾料\n干断\t乾斷\n干旦\t乾旦\n干旱\t乾旱\n干旱地区\t乾旱地區\n干时\t干時\n干暖\t乾暖\n干曜\t乾曜\n干材\t乾材\n干村沙\t乾村沙\n干杯\t乾杯\n干果\t乾果\n干枝\t乾枝\n干枯\t乾枯\n干架\t幹架\n干柴\t乾柴\n干柴烈火\t乾柴烈火\n干校\t幹校\n干梅\t乾梅\n干梅子\t乾梅子\n干正事\t幹正事\n干此坛\t乾此罈\n干此杯\t乾此杯\n干死\t乾死\n干毛巾\t乾毛巾\n干池\t乾池\n干沟\t乾溝\n干没\t乾沒\n干洗\t乾洗\n干洗店\t乾洗店\n干活\t幹活\n干活儿\t幹活兒\n干流\t幹流\n干济\t幹濟\n干涉\t干涉\n干涉仪\t干涉儀\n干涉现象\t干涉現象\n干涩\t乾澀\n干涸\t乾涸\n干渠\t幹渠\n干渴\t乾渴\n干湿\t乾濕\n干湿发\t乾濕髮\n干溪\t乾溪\n干滩\t乾灘\n干漆\t乾漆\n干灯盏\t乾燈盞\n干炒\t乾炒\n干点\t乾點\n干烧\t乾燒\n干热\t乾熱\n干焦\t乾焦\n干煸\t乾煸\n干熬\t乾熬\n干燥\t乾燥\n干燥剂\t乾燥劑\n干燥器\t乾燥器\n干燥机\t乾燥機\n干燥箱\t乾燥箱\n干父之蛊\t幹父之蠱\n干爸\t乾爸\n干爸爸\t乾爸爸\n干爹\t乾爹\n干爽\t乾爽\n干片\t乾片\n干犯\t干犯\n干犯法\t幹犯法\n干球温度\t乾球溫度\n干甚\t幹甚\n干甚么\t幹甚麼\n干生受\t乾生受\n干生子\t乾生子\n干生气\t乾生氣\n干田\t乾田\n干电\t乾電\n干电池\t乾電池\n干略\t幹略\n干疥\t乾疥\n干瘦\t乾瘦\n干瘪\t乾癟\n干瘪瘪\t乾癟癟\n干瘾\t乾癮\n干癣\t乾癬\n干癣性\t乾癬性\n干白\t乾白\n干白儿\t乾白兒\n干的\t乾的\n干的停当\t幹的停當\n干眼\t乾眼\n干眼病\t乾眼病\n干眼症\t乾眼症\n干着\t幹著\n干着急\t乾著急\n干瞪眼\t乾瞪眼\n干硬\t乾硬\n干碍\t干礙\n干礼\t乾禮\n干禄\t干祿\n干稿\t乾稿\n干站\t乾站\n干站着\t乾站著\n干笑\t乾笑\n干等\t乾等\n干管\t幹管\n干篾片\t乾篾片\n干粉\t乾粉\n干粗活\t幹粗活\n干粮\t乾糧\n干粮袋\t乾糧袋\n干糇\t乾餱\n干系\t干係\n干红\t乾紅\n干纲\t乾綱\n干纲不振\t乾綱不振\n干线\t幹線\n干练\t幹練\n干细胞\t幹細胞\n干结\t乾結\n干绷\t乾繃\n干绷儿\t乾繃兒\n干缺\t幹缺\n干群\t幹群\n干群关系\t幹群關係\n干耗\t乾耗\n干肉\t乾肉\n干肉片\t乾肉片\n干股\t乾股\n干肥\t乾肥\n干脆\t乾脆\n干脆利落\t乾脆利落\n干脆面\t乾脆麵\n干花\t乾花\n干苔\t乾薹\n干茨腊\t乾茨臘\n干茶钱\t乾茶錢\n干草\t乾草\n干草叉\t乾草叉\n干草堆\t乾草堆\n干草机\t乾草機\n干草粉\t乾草粉\n干菜\t乾菜\n干营生\t幹營生\n干落\t乾落\n干薪\t乾薪\n干虔\t乾虔\n干蛊\t幹蠱\n干血浆\t乾血漿\n干衣\t乾衣\n干衣机\t乾衣機\n干裂\t乾裂\n干警\t幹警\n干证人\t干證人\n干诺道\t干諾道\n干诺道中\t干諾道中\n干诺道西\t干諾道西\n干谒\t干謁\n干象\t乾象\n干贝\t乾貝\n干货\t乾貨\n干起\t幹起\n干起来\t幹起來\n干路\t幹路\n干躁\t乾躁\n干过\t幹過\n干过一杯\t乾過一杯\n干过杯\t乾過杯\n干过瘾\t乾過癮\n干这\t幹這\n干这一杯\t乾這一杯\n干这一行\t幹這一行\n干这杯\t乾這杯\n干这种事\t幹這種事\n干连\t干連\n干透\t乾透\n干造\t乾造\n干逼\t乾逼\n干道\t幹道\n干邑\t干邑\n干那\t幹那\n干那一杯\t乾那一杯\n干那杯\t乾那杯\n干部\t幹部\n干酪\t乾酪\n干酵母\t乾酵母\n干醋\t乾醋\n干重\t乾重\n干量\t乾量\n干锅\t乾鍋\n干镇驿\t乾鎮驛\n干闼婆\t乾闥婆\n干阿奶\t乾阿奶\n干隔涝汉子\t干隔澇漢子\n干雷\t乾雷\n干霍乱\t乾霍亂\n干面\t乾麵\n干革命\t幹革命\n干预\t干預\n干颡\t乾顙\n干饭\t乾飯\n干馆\t乾館\n干馏\t乾餾\n干馏法\t乾餾法\n干驿镇\t乾驛鎮\n干鱼\t乾魚\n干鲜\t乾鮮\n干麻\t幹麻\n干麻学\t幹麻學\n干麻阿\t幹麻阿\n平个\t平個\n平个人\t平個人\n平了\t平了\n平价\t平價\n平价住宅\t平價住宅\n平价供应中心\t平價供應中心\n平价商店\t平價商店\n平克佛洛伊德\t平克佛洛伊德\n平准\t平準\n";

/// Part 61 of the text.
pub const ST_PHRASES_61: &'static str = "平准基金\t平準基金\n平分秋色\t平分秋色\n平台\t平臺\n平台式扫描器\t平臺式掃描器\n平台数\t平臺數\n平台阶段\t平臺階段\n平地上起一个霹雳\t平地上起一個霹靂\n平地松林\t平地松林\n平地楼台\t平地樓臺\n平地青云\t平地青雲\n平均价\t平均價\n平均消费倾向\t平均消費傾向\n平均股价\t平均股價\n平复\t平復\n平复帖\t平復帖\n平复起来\t平復起來\n平头并进\t平頭並進\n平安里\t平安里\n平定准噶尔回部得胜图\t平定準噶爾回部得勝圖\n平平当当\t平平當當\n平康里\t平康里\n平方公里\t平方公里\n平方千米\t平方千米\n平日里\t平日裡\n平易谦冲\t平易謙沖\n平板\t平板\n平板仪\t平板儀\n平板玻璃\t平板玻璃\n平板车\t平板車\n平梁\t平樑\n平步青云\t平步青雲\n平泉庄\t平泉莊\n平胡\t平胡\n平行六面\t平行六面\n平行六面体\t平行六面體\n平行叶脉\t平行葉脈\n平行表亲\t平行表親\n平衡台\t平衡臺\n平表\t平表\n平谷\t平谷\n平谷区\t平谷區\n平谷县\t平谷縣\n平足症\t平足症\n平针缝\t平針縫\n平铲\t平鏟\n平雕\t平雕\n平面\t平面\n平面几何\t平面幾何\n平面图\t平面圖\n平面图形\t平面圖形\n平面媒体\t平面媒體\n平面描迹\t平面描跡\n平面曲线\t平面曲線\n平面段\t平面段\n平面波\t平面波\n平面测量\t平面測量\n平面艺术\t平面藝術\n平面角\t平面角\n平面镜\t平面鏡\n平面雕刻\t平面雕刻\n年久失修\t年久失修\n年代里\t年代裡\n年余\t年餘\n年几\t年幾\n年历\t年曆\n年历史\t年歷史\n年台\t年臺\n年同\t年同\n年后\t年後\n年团子\t年團子\n年复一年\t年復一年\n年少得志\t年少得志\n年德并高\t年德並高\n年表\t年表\n年谷\t年穀\n年里\t年裡\n年金制度\t年金制度\n年鉴\t年鑑\n年龄特征\t年齡特徵\n并一不二\t併一不二\n并上\t並上\n并不\t並不\n并不会\t並不會\n并不在\t並不在\n并不在乎\t並不在乎\n并不并\t併不併\n并不是\t並不是\n并不能\t並不能\n并与\t並與\n并且\t並且\n并世\t並世\n并世无双\t並世無雙\n并为\t並為\n并举\t並舉\n并于\t並於\n并产\t併產\n并介之人\t並介之人\n并先\t並先\n并入\t併入\n并兴\t並興\n并兼\t併兼\n并兼任\t並兼任\n并兼听\t並兼聽\n并兼备\t並兼備\n并兼容\t並兼容\n并兼收\t並兼收\n并兼施\t並兼施\n并兼职\t並兼職\n并再\t並再\n并出\t並出\n并刀\t並刀\n并列\t並列\n并到\t併到\n并力\t併力\n并包\t並包\n并卷机\t併捲機\n并发\t併發\n并发动\t並發動\n并发展\t並發展\n并发现\t並發現\n并发症\t併發症\n并发表\t並發表\n并叠\t併疊\n并口\t並口\n并可\t並可\n并可以\t並可以\n并合\t併合\n并同\t並同\n并名\t併名\n并吞\t併吞\n并吞下\t併吞下\n并回\t並回\n并回去\t並回去\n并回来\t並回來\n并在\t並在\n并坐\t並坐\n并垂不朽\t並垂不朽\n并处\t並處\n并头\t並頭\n并头之花\t並頭之花\n并头莲\t並頭蓮\n并存\t並存\n并存不悖\t並存不悖\n并存在\t並存在\n并寿\t並壽\n并将\t並將\n并州\t幷州\n并州剪\t幷州剪\n并州故乡\t幷州故鄉\n并当\t並當\n并往\t並往\n并得\t並得\n并成\t併成\n并把\t並把\n并拢\t併攏\n并排\t並排\n并排而坐\t並排而坐\n并无\t並無\n并无不可\t並無不可\n并无不当\t並無不當\n并无此事\t並無此事\n并日\t並日\n并日而食\t並日而食\n并时\t並時\n并是\t並是\n并曰入淀\t並曰入澱\n并有\t並有\n并未\t並未\n并条\t並條\n并案\t併案\n并案处理\t併案處理\n并概青云\t並概青雲\n并毂\t並轂\n并没\t並沒\n并没有\t並沒有\n并派\t並派\n并流\t並流\n并激\t並激\n并火\t併火\n并然\t並然\n并用\t並用\n并由\t並由\n并禽\t並禽\n并科\t併科\n并称\t並稱\n并立\t並立\n并纱\t併紗\n并线\t併線\n并网\t併網\n并置\t並置\n并翼齐飞\t並翼齊飛\n并联\t並聯\n并肩\t並肩\n并肩作战\t並肩作戰\n并肩前进\t並肩前進\n并肩子\t併肩子\n并肩干\t並肩幹\n并肩而行\t並肩而行\n并能\t並能\n并能够\t並能夠\n并蒂\t並蒂\n并蒂莲\t並蒂蓮\n并行\t並行\n并行不悖\t並行不悖\n并行口\t並行口\n并行程序\t並行程序\n并要\t並要\n并规范\t並規範\n并论\t並論\n并请\t並請\n并购\t併購\n并购买\t併購買\n并购案\t併購案\n并赃拿败\t並贓拿敗\n并赃拿贼\t併贓拿賊\n并赃治罪\t併贓治罪\n并起\t並起\n并躺\t並躺\n并躺在\t並躺在\n并轨\t並軌\n并辏\t並輳\n并辔\t並轡\n并过\t並過\n并过去\t並過去\n并过来\t並過來\n并进\t並進\n并进去\t並進去\n并进来\t並進來\n并迭\t並迭\n并迹\t並跡\n并邀\t並邀\n并邦\t並邦\n并邻\t並鄰\n并采\t並採\n并重\t並重\n并除\t併除\n并非\t並非\n并非在\t並非在\n并非是\t並非是\n并马\t並馬\n并驰\t並馳\n并驱\t並驅\n并驾\t並駕\n并驾齐驱\t並駕齊驅\n并骛\t並騖\n并骨\t併骨\n幸不辱命\t幸不辱命\n幸为先容\t幸為先容\n幸事\t幸事\n幸于\t幸於\n幸于始者怠于终\t幸於始者怠於終\n幸亏\t幸虧\n幸亏在\t幸虧在\n幸亏是\t幸虧是\n幸亏有\t幸虧有\n幸会\t幸會\n幸位\t幸位\n幸倡\t幸倡\n幸免\t倖免\n幸免于难\t倖免於難\n幸发亭\t幸發亭\n幸喜\t幸喜\n幸好\t幸好\n幸好是\t幸好是\n幸好有\t幸好有\n幸子\t幸子\n幸存\t倖存\n幸存者\t倖存者\n幸幸\t倖幸\n幸幸福福\t幸幸福福\n幸得\t幸得\n幸感歌姬\t倖感歌姬\n幸未\t幸未\n幸村\t幸村\n幸次\t幸次\n幸民\t幸民\n幸灾乐祸\t幸災樂禍\n幸然\t幸然\n幸甚\t幸甚\n幸生\t幸生\n幸福\t幸福\n幸福女人小公主\t幸福女人小公主\n幸福学\t幸福學\n幸福家庭\t幸福家庭\n幸福感\t幸福感\n幸福戏院\t幸福戲院\n幸童\t幸童\n幸而\t幸而\n幸而是\t幸而是\n幸能\t幸能\n幸臣\t倖臣\n幸获识荆\t幸獲識荊\n幸蒙\t幸蒙\n幸运\t幸運\n幸运之星\t幸運之星\n幸运之神\t幸運之神\n幸运人\t幸運人\n幸运儿\t幸運兒\n幸运券\t幸運券\n幸运抽奖\t幸運抽獎\n幸运星\t幸運星\n幸运物\t幸運物\n幸运球\t幸運球\n幸运胡\t幸運鬍\n幸运色\t幸運色\n幸运草\t幸運草\n幸进\t倖進\n幸逢\t幸逢\n幺么小丑\t幺麼小醜\n幺并矢\t幺並矢\n幺麼小丑\t幺麼小丑\n幺麽小丑\t幺麼小丑\n幻出\t幻出\n幻念\t幻念\n幻想曲\t幻想曲\n幻术\t幻術\n幼发拉底\t幼發拉底\n幼发拉底河\t幼發拉底河\n幼发拉底河谷\t幼發拉底河谷\n幼托\t幼托\n幼虫\t幼蟲\n幽咽\t幽咽\n幽岩\t幽巖\n幽幽暗暗\t幽幽暗暗\n幽明录\t幽明錄\n幽暗\t幽暗\n幽栖岩谷\t幽棲巖谷\n幽谷\t幽谷\n幽门狭窄症\t幽門狹窄症\n幽闭恐惧症\t幽閉恐懼症\n广东住血吸虫\t廣東住血吸蟲\n广东炒面\t廣東炒麵\n广东药学院\t廣東藥學院\n广丰\t廣豐\n广丰县\t廣豐縣\n广厦万间\t廣廈萬間\n广发\t廣發\n广告曲\t廣告曲\n广告板\t廣告板\n广告系\t廣告系\n广场恐怖症\t廣場恐怖症\n广场恐惧症\t廣場恐懼症\n广布\t廣佈\n广征\t廣徵\n广播台\t廣播臺\n广播电台\t廣播電臺\n广播系统\t廣播系統\n广泛\t廣泛\n广舍\t廣捨\n广部\t广部\n广里\t廣裡\n庄上\t莊上\n庄严\t莊嚴\n庄主\t莊主\n庄农\t莊農\n庄员\t莊員\n庄周\t莊周\n庄周梦蝶\t莊周夢蝶\n庄园\t莊園\n庄园制度\t莊園制度\n庄士顿道\t莊士頓道\n庄子\t莊子\n庄客\t莊客\n庄家\t莊家\n";

/// Part 62 of the text.
pub const ST_PHRASES_62: &'static str = "庄志伟\t莊志偉\n庄户\t莊戶\n庄房\t莊房\n庄敬\t莊敬\n庄田\t莊田\n庄秋南\t莊秋南\n庄稼\t莊稼\n庄稼人\t莊稼人\n庄稼院\t莊稼院\n庄胜雄\t莊勝雄\n庄舄越吟\t莊舄越吟\n庄语\t莊語\n庄里\t莊裡\n庄里镇\t莊里鎮\n庄重\t莊重\n庄院\t莊院\n庄骚\t莊騷\n庆丰\t慶豐\n庆云\t慶雲\n庆云县\t慶雲縣\n庆余\t慶餘\n庆历\t慶曆\n庆历新政\t慶曆新政\n庆吊\t慶弔\n庆幸\t慶幸\n庇荫\t庇廕\n庇里牛斯\t庇里牛斯\n庇里牛斯山\t庇里牛斯山\n床头柜\t牀頭櫃\n床头金尽\t牀頭金盡\n床席\t牀蓆\n床板\t牀板\n序升\t序升\n序录\t序錄\n序曲\t序曲\n庐山真面目\t廬山真面目\n庐山面目\t廬山面目\n庐舍\t廬舍\n库仑\t庫侖\n库仑定律\t庫侖定律\n库仑计\t庫侖計\n库克\t庫克\n库克山\t庫克山\n库克群岛\t庫克群島\n库克船长\t庫克船長\n库尔德工人党\t庫爾德工人黨\n库尔斯克\t庫爾斯克\n库工党\t庫工黨\n库布里克\t庫布里克\n库木吐拉千佛洞\t庫木吐拉千佛洞\n库瑞克\t庫瑞克\n库苏古尔湖\t庫蘇古爾湖\n库贝克\t庫貝克\n库贾氏症\t庫賈氏症\n库辛尼克\t庫辛尼克\n库里尔台\t庫里爾臺\n库里提巴\t庫里提巴\n应付得当\t應付得當\n应付票据\t應付票據\n应克制\t應剋制\n应制\t應制\n应占\t應占\n应声虫\t應聲蟲\n应当\t應當\n应当会\t應當會\n应当在\t應當在\n应当是\t應當是\n应当有\t應當有\n应当能\t應當能\n应征\t應徵\n应征信\t應徵信\n应征稿\t應徵稿\n应征者\t應徵者\n应急出口\t應急出口\n应收帐款周转率\t應收帳款週轉率\n应收票据\t應收票據\n应时当令\t應時當令\n应有尽有\t應有盡有\n应用于\t應用於\n应用平台\t應用平臺\n应用技术\t應用技術\n应用范例\t應用範例\n应用范围\t應用範圍\n应运而出\t應運而出\n应钟\t應鐘\n应须\t應須\n底价\t底價\n底夸克\t底夸克\n底板\t底板\n底极\t底極\n底栖有孔虫\t底棲有孔蟲\n底格里斯\t底格里斯\n底格里斯河\t底格里斯河\n底脚里人\t底腳裡人\n底里\t底裡\n底面\t底面\n店伙\t店夥\n店里\t店裡\n店面\t店面\n店面广告\t店面廣告\n庙台\t廟臺\n庙里\t廟裡\n府兵制\t府兵制\n府台\t府臺\n府后\t府後\n府干\t府幹\n府谷\t府谷\n府谷县\t府谷縣\n庞克\t龐克\n庞克头\t龐克頭\n庞巴瓦克\t龐巴瓦克\n庞德维克\t龐德維克\n庞志龙\t龐志龍\n庞眉白发\t龐眉白髮\n庞眉皓发\t龐眉皓髮\n废了\t廢了\n废后\t廢后\n废墟里\t廢墟裡\n度假胜地\t度假勝地\n度搜\t度搜\n度曲\t度曲\n度身定制\t度身定製\n座钟\t座鐘\n庵主\t庵主\n庵儿\t庵兒\n庵堂\t庵堂\n庵婪\t菴婪\n庵寺\t庵寺\n庵庐\t菴廬\n庵庵\t菴菴\n庵罗树园\t菴羅樹園\n庵舍\t菴舍\n庵蔼\t菴藹\n庵观\t庵觀\n庶几\t庶幾\n庶几无愧\t庶幾無愧\n庶出\t庶出\n康乃狄克\t康乃狄克\n康乃狄克州\t康乃狄克州\n康回\t康回\n康复\t康復\n康复医学\t康復醫學\n康多莉扎赖斯\t康多莉扎賴斯\n康庄\t康莊\n康庄大道\t康莊大道\n康托尔\t康托爾\n康梁\t康梁\n康济录\t康濟錄\n康百克\t康百克\n康纳克立\t康納克立\n康采恩\t康采恩\n庸才\t庸才\n庸暗\t庸闇\n廉价\t廉價\n廉价品\t廉價品\n廉售价\t廉售價\n廉纤\t廉纖\n廖于诚\t廖于誠\n廖俊杰\t廖俊傑\n廖千莹\t廖千瑩\n廖志坚\t廖志堅\n廖本烟\t廖本煙\n廖本胜\t廖本勝\n廖英杰\t廖英傑\n廖金钟\t廖金鐘\n廛布\t廛布\n廪秋\t廩秋\n廪膳秀才\t廩膳秀才\n延伸出\t延伸出\n延修\t延修\n延厘\t延釐\n延发\t延發\n延后\t延後\n延地里\t延地裡\n延挨\t延挨\n延陵挂剑\t延陵掛劍\n廷争面折\t廷爭面折\n廷巴克图\t廷巴克圖\n廷布\t廷布\n建于\t建於\n建党\t建黨\n建党节\t建黨節\n建出\t建出\n建制\t建制\n建厂\t建廠\n建台\t建臺\n建教合作\t建教合作\n建教合作班\t建教合作班\n建极\t建極\n建立规范\t建立規範\n建筑\t建築\n建筑业\t建築業\n建筑商\t建築商\n建筑学\t建築學\n建筑容积管制\t建築容積管制\n建筑工业\t建築工業\n建筑工人\t建築工人\n建筑工地\t建築工地\n建筑工程\t建築工程\n建筑师\t建築師\n建筑执照\t建築執照\n建筑机械\t建築機械\n建筑材料\t建築材料\n建筑法规\t建築法規\n建筑物\t建築物\n建筑界\t建築界\n建筑科\t建築科\n建筑系\t建築系\n建筑结构\t建築結構\n建筑群\t建築群\n建筑艺术\t建築藝術\n建筑节\t建築節\n建筑设计\t建築設計\n建筑起来\t建築起來\n建筑面积\t建築面積\n建造出\t建造出\n建都于\t建都於\n廿二史札记\t廿二史劄記\n廿五万\t廿五萬\n廿里\t廿里\n开不了\t開不了\n开个\t開個\n开了\t開了\n开云见日\t開雲見日\n开价\t開價\n开伙\t開伙\n开元录\t開元錄\n开冬\t開冬\n开出\t開出\n开出去\t開出去\n开出来\t開出來\n开刀手术\t開刀手術\n开列于后\t開列於後\n开创出\t開創出\n开化党\t開化黨\n开卷\t開卷\n开卷有得\t開卷有得\n开卷有益\t開卷有益\n开卷考\t開卷考\n开厂\t開廠\n开发\t開發\n开发中\t開發中\n开发中国\t開發中國\n开发中国家\t開發中國家\n开发为\t開發為\n开发井\t開發井\n开发人员\t開發人員\n开发出\t開發出\n开发出来\t開發出來\n开发区\t開發區\n开发周期\t開發週期\n开发商\t開發商\n开发国家\t開發國家\n开发基金\t開發基金\n开发局\t開發局\n开发成\t開發成\n开发案\t開發案\n开发法\t開發法\n开发环境\t開發環境\n开发署\t開發署\n开发者\t開發者\n开发过程\t開發過程\n开发金\t開發金\n开发银行\t開發銀行\n开台\t開臺\n开台圣王\t開臺聖王\n开台锣鼓\t開臺鑼鼓\n开吊\t開弔\n开后门\t開後門\n开向\t開向\n开哄\t開鬨\n开回\t開回\n开回去\t開回去\n开回来\t開回來\n开复\t開復\n开天辟地\t開天闢地\n开封\t開封\n开彩\t開彩\n开征\t開徵\n开支范围\t開支範圍\n开放式系统\t開放式系統\n开放性医疗制度\t開放性醫療制度\n开放系统\t開放系統\n开放系统互连\t開放系統互連\n开放舞台\t開放舞臺\n开新板\t開新板\n开明专制\t開明專制\n开杆\t開杆\n开杠\t開槓\n开棺验尸\t開棺驗屍\n开疆辟土\t開疆闢土\n开盘价\t開盤價\n开盘汇率\t開盤匯率\n开秋\t開秋\n开筑\t開築\n开膛手杰克\t開膛手傑克\n开药\t開藥\n开药方\t開藥方\n开蒙\t開蒙\n开诚布公\t開誠佈公\n开辟\t開闢\n开辟出来\t開闢出來\n开辟者\t開闢者\n开辟记\t開闢記\n开采\t開採\n开采权\t開採權\n开采法\t開採法\n开除党籍\t開除黨籍\n开面\t開面\n开齐合撮\t開齊合撮\n异中求同\t異中求同\n异于\t異於\n异动表\t異動表\n异口同声\t異口同聲\n异口同辞\t異口同辭\n异口同音\t異口同音\n异同\t異同\n异形叶\t異形葉\n异彩\t異彩\n异志\t異志\n异念\t異念\n异才\t異才\n异曲同工\t異曲同工\n异派同源\t異派同源\n异种\t異種\n异苔同岑\t異薹同岑\n异路同归\t異路同歸\n异途同归\t異途同歸\n异采\t異采\n弃宗弄赞\t棄宗弄贊\n弃尸\t棄屍\n弃尸案\t棄屍案\n弃弓折箭\t棄弓折箭\n弃恶从善\t棄惡從善\n弃暗投明\t棄暗投明\n弃核\t棄核\n弃武修文\t棄武修文\n弃瑕录用\t棄瑕錄用\n弃舍\t棄捨\n弄丑\t弄醜\n弄僵\t弄僵\n弄出\t弄出\n弄出去\t弄出去\n弄出来\t弄出來\n";

/// Part 63 of the text.
pub const ST_PHRASES_63: &'static str = "弄坏了\t弄壞了\n弄干\t弄乾\n弄拧了\t弄擰了\n弄松\t弄鬆\n弄盏传杯\t弄盞傳杯\n弄粉调朱\t弄粉調朱\n弄脏\t弄髒\n弄面吃\t弄麵吃\n弄鬼吊猴\t弄鬼弔猴\n弈秋\t弈秋\n弊帚千金\t弊帚千金\n弊幸\t弊倖\n弊恶\t弊惡\n弋获\t弋獲\n弓不虚发\t弓不虛發\n弓弦\t弓弦\n弓影杯蛇\t弓影杯蛇\n弓影浮杯\t弓影浮杯\n弓折矢尽\t弓折矢盡\n弓折箭尽\t弓折箭盡\n弓极\t弓極\n弓浆虫\t弓漿蟲\n弓腰曲背\t弓腰曲背\n引人入胜\t引人入勝\n引人注意\t引人注意\n引人注目\t引人注目\n引以为鉴\t引以為鑑\n引伸出\t引伸出\n引体向上\t引體向上\n引信系统\t引信系統\n引出\t引出\n引出去\t引出去\n引出来\t引出來\n引发\t引發\n引发出\t引發出\n引发物质\t引發物質\n引向\t引向\n引导出\t引導出\n引布\t引布\n引拉出\t引拉出\n引据\t引據\n引斗\t引鬥\n引渡回国\t引渡回國\n引牵出\t引牽出\n引种\t引種\n引线穿针\t引線穿針\n引经据典\t引經據典\n引经据古\t引經據古\n引而不发\t引而不發\n引致\t引致\n引蛇出洞\t引蛇出洞\n弗兰克\t弗蘭克\n弗洛里斯岛\t弗洛里斯島\n弗罗里达\t弗羅里達\n弗罗里达州\t弗羅里達州\n弗里得里希\t弗里得里希\n弗里德里希\t弗里德里希\n弗里敦\t弗里敦\n弗里斯兰\t弗里斯蘭\n弗里曼\t弗里曼\n弗雷德里克\t弗雷德里克\n弗雷德里克顿\t弗雷德里克頓\n弘历\t弘曆\n弘愿\t弘願\n张三丰\t張三丰\n张世杰\t張世傑\n张了\t張了\n张云光\t張雲光\n张兆志\t張兆志\n张克帆\t張克帆\n张出\t張出\n张勇杰\t張勇傑\n张勋\t張勳\n张千\t張千\n张卡里\t張卡裡\n张基郁\t張基郁\n张堪折辕\t張堪折轅\n张大千\t張大千\n张必\t張必\n张志\t張志\n张志和\t張志和\n张志家\t張誌家\n张志弘\t張志弘\n张志强\t張志強\n张志忠\t張志忠\n张志新\t張志新\n张志贤\t張志賢\n张志辉\t張志輝\n张志铭\t張志銘\n张扬出去\t張揚出去\n张扬出来\t張揚出來\n张挂\t張掛\n张挂在\t張掛在\n张挂起\t張掛起\n张挂起来\t張掛起來\n张文松\t張文松\n张斗辉\t張斗輝\n张智杰\t張智傑\n张木松\t張木松\n张杰\t張傑\n张栋梁\t張棟樑\n张灯挂彩\t張燈掛彩\n张灯结彩\t張燈結綵\n张玄墓志铭\t張玄墓誌銘\n张琴松\t張琴松\n张秋\t張秋\n张秋明\t張秋明\n张罗殆尽\t張羅殆盡\n张聪秋\t張聰秋\n张致\t張致\n张良借箸\t張良借箸\n张良慕赤松\t張良慕赤松\n张苙云\t張苙雲\n张范街道\t張范街道\n张荣发\t張榮發\n张金涂\t張金塗\n张飞穿针\t張飛穿針\n张黑女墓志铭\t張黑女墓誌銘\n弥久\t彌久\n弥习弥佳\t彌習彌佳\n弥事\t彌事\n弥勒\t彌勒\n弥勒佛\t彌勒佛\n弥勒县\t彌勒縣\n弥勒菩萨\t彌勒菩薩\n弥天\t彌天\n弥天亘地\t彌天亙地\n弥天大罪\t彌天大罪\n弥天大谎\t彌天大謊\n弥天案\t彌天案\n弥封\t彌封\n弥山遍野\t瀰山遍野\n弥年\t彌年\n弥弥\t瀰瀰\n弥撒\t彌撒\n弥撒曲\t彌撒曲\n弥撒经书\t彌撒經書\n弥敬\t彌敬\n弥时\t彌時\n弥月\t彌月\n弥月之喜\t彌月之喜\n弥月酒\t彌月酒\n弥望\t彌望\n弥渡县\t彌渡縣\n弥满\t彌滿\n弥漫\t瀰漫\n弥漫性\t瀰漫性\n弥漫着\t瀰漫著\n弥猴桃\t彌猴桃\n弥生文化\t彌生文化\n弥留\t彌留\n弥留之际\t彌留之際\n弥纶\t彌綸\n弥缝\t彌縫\n弥罗\t彌羅\n弥蒙\t彌矇\n弥补\t彌補\n弥赛亚\t彌賽亞\n弥足珍贵\t彌足珍貴\n弥迦书\t彌迦書\n弥陀\t彌陀\n弥陀乡\t彌陀鄉\n弦上\t弦上\n弦不虚发\t弦不虛發\n弦乐\t絃樂\n弦乐团\t絃樂團\n弦动\t絃動\n弦器\t絃器\n弦声\t絃聲\n弦子\t弦子\n弦弓\t弦弓\n弦拨\t弦撥\n弦断\t絃斷\n弦月\t弦月\n弦歌\t絃歌\n弦琴\t絃琴\n弦索\t絃索\n弦线\t絃線\n弦轴\t絃軸\n弦重\t弦重\n弦长\t弦長\n弦面板\t弦面板\n弦音\t絃音\n弯出去\t彎出去\n弯出来\t彎出來\n弯回\t彎回\n弯回去\t彎回去\n弯回来\t彎回來\n弯弯曲曲\t彎彎曲曲\n弯折\t彎折\n弯拐\t彎拐\n弯曲\t彎曲\n弯曲度\t彎曲度\n弯曲状\t彎曲狀\n弯曲空间\t彎曲空間\n弯管面\t彎管麵\n弯道里\t彎道裡\n弱不胜衣\t弱不勝衣\n弱于\t弱於\n弱势团体\t弱勢團體\n弱水三千\t弱水三千\n弱音踏板\t弱音踏板\n弹不出\t彈不出\n弹了\t彈了\n弹出\t彈出\n弹出去\t彈出去\n弹出来\t彈出來\n弹升\t彈升\n弹回\t彈回\n弹回去\t彈回去\n弹回来\t彈回來\n弹奏出\t彈奏出\n弹子台\t彈子檯\n弹射出\t彈射出\n弹尽援绝\t彈盡援絕\n弹尽粮绝\t彈盡糧絕\n弹布尔\t彈布爾\n弹性制造系统\t彈性製造系統\n弹性控制\t彈性控制\n弹性纤维\t彈性纖維\n弹无虚发\t彈無虛發\n弹涂鱼\t彈塗魚\n弹珠台\t彈珠檯\n弹药\t彈藥\n弹药兵\t彈藥兵\n弹药库\t彈藥庫\n弹药箱\t彈藥箱\n弹药补给站\t彈藥補給站\n弹跳板\t彈跳板\n弹针\t彈針\n强了\t強了\n强于\t強於\n强借\t強借\n强制\t強制\n强制作用\t強制作用\n强制保险\t強制保險\n强制力\t強制力\n强制处分\t強制處分\n强制性\t強制性\n强制手段\t強制手段\n强制执行\t強制執行\n强制罪\t強制罪\n强制认领\t強制認領\n强制辩护\t強制辯護\n强制险\t強制險\n强力攻占\t強力攻佔\n强加于\t強加於\n强加于人\t強加於人\n强占\t強佔\n强占性\t強佔性\n强咽\t強嚥\n强奸\t強姦\n强奸民意\t強姦民意\n强奸犯\t強姦犯\n强奸罪\t強姦罪\n强干\t強幹\n强干弱枝\t強幹弱枝\n强征\t強徵\n强心针\t強心針\n强投松\t強投松\n强梁\t強梁\n强棒面\t強棒麵\n强烈台风\t強烈颱風\n强烈愿望\t強烈願望\n强聒不舍\t強聒不捨\n强迫性储物症\t強迫性儲物症\n强迫症\t強迫症\n强音踏板\t強音踏板\n弼针\t弼針\n彊干弱枝\t彊幹弱枝\n彊御\t彊禦\n彊志\t彊志\n彊梁\t彊梁\n归于\t歸於\n归余\t歸餘\n归功于\t歸功於\n归向\t歸向\n归向导引\t歸向導引\n归咎于\t歸咎於\n归回\t歸回\n归因于\t歸因於\n归属于\t歸屬於\n归并\t歸併\n归并到\t歸併到\n归并在\t歸併在\n归烟\t歸煙\n归真反朴\t歸真反樸\n归类于\t歸類於\n归纳出\t歸納出\n归罪于\t歸罪於\n归虚谷\t歸虛谷\n归诸于\t歸諸於\n归里包堆\t歸裡包堆\n归随于\t歸隨於\n归面\t歸面\n归顺于\t歸順於\n当一回事\t當一回事\n当一声\t噹一聲\n当一当\t當一當\n当上\t當上\n当上去\t當上去\n当上来\t當上來\n当下\t當下\n当下去\t當下去\n当下来\t當下來\n当不上\t當不上\n当不了\t當不了\n当不得\t當不得\n当不成\t當不成\n当不来\t當不來\n当不起\t當不起\n当不过\t當不過\n当且仅当\t當且僅當\n当世\t當世\n当世之冠\t當世之冠\n当世儒宗\t當世儒宗\n当世冠\t當世冠\n当世才度\t當世才度\n当世无双\t當世無雙\n当世无敌\t當世無敵\n当个\t當個\n当中\t當中\n当为\t當為\n当之无愧\t當之無愧\n当之有愧\t當之有愧\n当了\t當了\n当事\t當事\n当事人\t當事人\n当事国\t當事國\n当事者\t當事者\n当于\t當於\n当仁不让\t當仁不讓\n当今\t當今\n当今无辈\t當今無輩\n当代\t當代\n当代人\t當代人\n当代史\t當代史\n当代大师\t當代大師\n当代新儒家\t當代新儒家\n当令\t當令\n当众\t當眾\n当众宣布\t當眾宣佈\n当众表明\t當眾表明\n当众表示\t當眾表示\n当作\t當作\n当便\t當便\n当值\t當值\n当做\t當做\n";

/// Part 64 of the text.
pub const ST_PHRASES_64: &'static str = "当儿\t當兒\n当元\t當元\n当先\t當先\n当关\t當關\n当兵\t當兵\n当其冲\t當其衝\n当准\t當準\n当初\t當初\n当到\t當到\n当前\t當前\n当前之计\t當前之計\n当前季\t當前季\n当务之急\t當務之急\n当劳之急\t當勞之急\n当午\t當午\n当卢\t當盧\n当即\t當即\n当原\t當原\n当厨\t當廚\n当口\t當口\n当句对\t當句對\n当可\t當可\n当合\t當合\n当周\t當週\n当周街道\t當周街道\n当啷\t噹啷\n当啷落地\t噹啷落地\n当回事\t當回事\n当回事儿\t當回事兒\n当国\t當國\n当地\t當地\n当地人\t當地人\n当地化\t當地化\n当地居民\t當地居民\n当地时间\t當地時間\n当场\t當場\n当场出丑\t當場出醜\n当场出彩\t當場出彩\n当场只手\t當場隻手\n当场听到\t當場聽到\n当场抓到\t當場抓到\n当场献丑\t當場獻醜\n当场看到\t當場看到\n当坊土地\t當坊土地\n当垆\t當壚\n当堂\t當堂\n当堵\t當堵\n当夕\t當夕\n当夜\t當夜\n当天\t當天\n当天事当天毕\t當天事當天畢\n当头\t當頭\n当头一棒\t當頭一棒\n当头人\t當頭人\n当头棒喝\t當頭棒喝\n当头炮\t當頭炮\n当头阵\t當頭陣\n当完兵\t當完兵\n当官\t當官\n当官追究\t當官追究\n当室\t當室\n当家\t當家\n当家三年狗也嫌\t當家三年狗也嫌\n当家人\t當家人\n当家人恶水缸\t當家人惡水缸\n当家作主\t當家作主\n当家和尚\t當家和尚\n当家子\t當家子\n当家小生\t當家小生\n当家才知柴米价\t當家才知柴米價\n当家方知柴米贵\t當家方知柴米貴\n当家的\t當家的\n当家立事\t當家立事\n当家花旦\t當家花旦\n当局\t當局\n当局称迷傍观必审\t當局稱迷傍觀必審\n当局者迷\t當局者迷\n当局者迷傍观者清\t當局者迷傍觀者清\n当局者迷旁观者清\t當局者迷旁觀者清\n当巡\t當巡\n当差\t當差\n当差的\t當差的\n当年\t當年\n当应\t當應\n当庭\t當庭\n当归\t當歸\n当归鸭\t當歸鴨\n当当\t噹噹\n当当丁丁\t噹噹叮叮\n当当当\t噹噹噹\n当当船\t噹噹船\n当当车\t噹噹車\n当役\t當役\n当待\t當待\n当得\t當得\n当得上\t當得上\n当得来\t當得來\n当得起\t當得起\n当心\t當心\n当意\t當意\n当成\t當成\n当手\t當手\n当拦\t當攔\n当掉\t當掉\n当撑\t當撐\n当政\t當政\n当政者\t當政者\n当敌\t當敵\n当断不断\t當斷不斷\n当断不断反受其乱\t當斷不斷反受其亂\n当日\t當日\n当日份\t當日份\n当时\t當時\n当时得令\t當時得令\n当时的\t當時的\n当时车\t當時車\n当是\t當是\n当晚\t當晚\n当曲河\t當曲河\n当月\t當月\n当月份\t當月份\n当朝\t當朝\n当朝宰相\t當朝宰相\n当期\t當期\n当机\t當機\n当机立断\t當機立斷\n当权\t當權\n当权派\t當權派\n当权者\t當權者\n当村\t當村\n当来\t當來\n当来当去\t當來當去\n当案\t當案\n当槽\t當槽\n当此\t當此\n当涂\t當塗\n当涂县\t當塗縣\n当演员\t當演員\n当灾\t當災\n当炉\t當爐\n当然\t當然\n当然会\t當然會\n当然在\t當然在\n当然是\t當然是\n当然有\t當然有\n当然继承主义\t當然繼承主義\n当牢节级\t當牢節級\n当班\t當班\n当班人员\t當班人員\n当用\t當用\n当用则用\t當用則用\n当番\t當番\n当的一响\t噹的一響\n当的一声\t噹的一聲\n当直\t當直\n当直巡逻\t當直巡邏\n当直的\t當直的\n当真\t當真\n当真假\t當真假\n当真的\t當真的\n当眼\t當眼\n当眼处\t當眼處\n当票\t當票\n当票子\t當票子\n当空\t當空\n当紧\t當緊\n当红\t當紅\n当罏\t當罏\n当罏红袖\t當罏紅袖\n当者披靡\t當者披靡\n当耳边风\t當耳邊風\n当艄拿舵\t當艄拿舵\n当艄顺\t當艄順\n当花\t當花\n当行\t當行\n当行出色\t當行出色\n当行家\t當行家\n当街\t當街\n当衣买酒喝\t當衣買酒喝\n当该\t當該\n当赌\t當賭\n当起\t當起\n当起来\t當起來\n当路\t當路\n当路子\t當路子\n当轴\t當軸\n当过\t當過\n当选\t當選\n当选为\t當選為\n当选人\t當選人\n当选无效\t當選無效\n当选者\t當選者\n当道\t當道\n当道者\t當道者\n当量\t當量\n当量剂量\t當量劑量\n当量浓度\t當量濃度\n当铺\t當鋪\n当门对户\t當門對戶\n当门户\t當門戶\n当门抵户\t當門抵戶\n当门牙齿\t當門牙齒\n当间\t當間\n当阳\t當陽\n当阳市\t當陽市\n当院\t當院\n当雄\t當雄\n当雄县\t當雄縣\n当面\t當面\n当面唾骂\t當面唾罵\n当面对质\t當面對質\n当面言明\t當面言明\n当面银子对面钱\t當面銀子對面錢\n当面错过\t當面錯過\n当面锣对面鼓\t當面鑼對面鼓\n当面鼓对面锣\t當面鼓對面鑼\n当风秉烛\t當風秉燭\n录上\t錄上\n录上去\t錄上去\n录上来\t錄上來\n录下\t錄下\n录下去\t錄下去\n录下来\t錄下來\n录个\t錄個\n录了\t錄了\n录事\t錄事\n录供\t錄供\n录像\t錄像\n录像带\t錄像帶\n录像机\t錄像機\n录像片\t錄像片\n录到\t錄到\n录制\t錄製\n录取\t錄取\n录取人数\t錄取人數\n录取分数\t錄取分數\n录取名单\t錄取名單\n录取名额\t錄取名額\n录取率\t錄取率\n录取通知书\t錄取通知書\n录囚\t錄囚\n录在\t錄在\n录录\t彔彔\n录录歌\t錄錄歌\n录录音\t錄錄音\n录影\t錄影\n录影器\t錄影器\n录影带\t錄影帶\n录影带奖\t錄影帶獎\n录影机\t錄影機\n录影碟\t錄影碟\n录影节目\t錄影節目\n录得\t錄得\n录成\t錄成\n录放影机\t錄放影機\n录放音机\t錄放音機\n录歌\t錄歌\n录灌\t錄灌\n录点\t錄點\n录用\t錄用\n录的\t錄的\n录科\t錄科\n录起\t錄起\n录起来\t錄起來\n录载\t錄載\n录过\t錄過\n录遗\t錄遺\n录音\t錄音\n录音室\t錄音室\n录音师\t錄音師\n录音带\t錄音帶\n录音机\t錄音機\n录音电话\t錄音電話\n录音间\t錄音間\n录鬼簿\t錄鬼簿\n彗核\t彗核\n彗泛画涂\t彗氾畫塗\n形丑心善\t形醜心善\n形于\t形於\n形于色\t形於色\n形于言色\t形於言色\n形于辞色\t形於辭色\n形于颜色\t形於顏色\n形制\t形制\n形单影只\t形單影隻\n形只影单\t形隻影單\n形同\t形同\n形同具文\t形同具文\n形同虚设\t形同虛設\n形同陌路\t形同陌路\n形名参同\t形名參同\n形如斗\t形如斗\n形孤影只\t形孤影隻\n形容尽致\t形容盡致\n形影相吊\t形影相弔\n形态发生素\t形態發生素\n形疲神困\t形疲神困\n形胜\t形勝\n形象艺术\t形象藝術\n彤云\t彤雲\n彩云\t彩雲\n彩云国\t彩雲國\n彩云易散\t彩雲易散\n彩信\t彩信\n彩先达\t彩先達\n彩光\t彩光\n彩光板\t彩光板\n彩凤\t綵鳳\n彩凤随鸦\t彩鳳隨鴉\n彩券\t彩券\n彩券局\t彩券局\n彩券行\t彩券行\n彩印\t彩印\n彩卷\t彩卷\n彩叶芋\t彩葉芋\n彩叶草\t彩葉草\n彩号\t彩號\n彩喷\t彩噴\n彩图\t彩圖\n彩塑\t彩塑\n彩墨\t彩墨\n彩头\t彩頭\n彩女\t綵女\n彩妆\t彩妝\n彩妆保养化\t彩妝保養化\n彩妆品\t彩妝品\n彩妆师\t彩妝師\n彩市\t彩市\n彩带\t綵帶\n彩带舞\t綵帶舞\n彩度\t彩度\n彩弹\t彩彈\n彩影\t彩影\n彩扩\t彩擴\n彩排\t彩排\n彩旗\t彩旗\n彩旦\t彩旦\n彩条\t彩條\n彩棚\t綵棚\n彩楼\t綵樓\n彩楼配\t綵樓配\n彩民\t彩民\n彩池\t彩池\n彩灯\t彩燈\n彩照\t彩照\n彩牌楼\t綵牌樓\n彩球\t綵球\n彩瓷\t彩瓷\n彩电\t彩電\n彩电视\t彩電視\n彩画\t彩畫\n彩砖\t彩磚\n彩礼\t彩禮\n彩票\t彩票\n彩票卡\t彩票卡\n彩笔\t彩筆\n彩笔生\t彩筆生\n彩笔生花\t綵筆生花\n彩管生花\t彩管生花\n";

/// Part 65 of the text.
pub const ST_PHRASES_65: &'static str = "彩纸\t彩紙\n彩线\t綵線\n彩练\t彩練\n彩绘\t彩繪\n彩绸\t綵綢\n彩缎\t綵緞\n彩缯\t綵繒\n彩胜\t綵勝\n彩船\t綵船\n彩色\t彩色\n彩色世界\t彩色世界\n彩色正片\t彩色正片\n彩色照\t彩色照\n彩色照片\t彩色照片\n彩色片\t彩色片\n彩色版\t彩色版\n彩色玻璃\t彩色玻璃\n彩色电影\t彩色電影\n彩色电视\t彩色電視\n彩色电视机\t彩色電視機\n彩色笔\t彩色筆\n彩色米\t彩色米\n彩色缤纷\t彩色繽紛\n彩虹\t彩虹\n彩虹仙子\t彩虹仙子\n彩虹冰铺\t彩虹冰鋪\n彩虹桥\t彩虹橋\n彩蛋\t彩蛋\n彩蝶\t彩蝶\n彩蝶谷\t彩蝶谷\n彩衣\t綵衣\n彩衣娱亲\t綵衣娛親\n彩调\t彩調\n彩车\t彩車\n彩轿\t彩轎\n彩迷\t彩迷\n彩釉\t彩釉\n彩金\t彩金\n彩钱\t彩錢\n彩铃\t彩鈴\n彩陶\t彩陶\n彩陶文化\t彩陶文化\n彩雕\t彩雕\n彩霞\t彩霞\n彩饰\t彩飾\n彩饰版\t彩飾版\n彩鸾\t綵鸞\n彩鹢\t彩鷁\n彪个子\t彪個子\n彪炳千古\t彪炳千古\n彭于晏\t彭于晏\n彭克港\t彭克港\n彭咸\t彭咸\n彭志光\t彭志光\n彭志华\t彭志華\n彭绍升\t彭紹升\n彭胜竹\t彭勝竹\n彭蒙\t彭蒙\n彰化师范大学\t彰化師範大學\n彰善瘅恶\t彰善癉惡\n彰彰可据\t彰彰可據\n彰显出\t彰顯出\n影像合成\t影像合成\n影像处理系统\t影像處理系統\n影占\t影占\n影只形单\t影隻形單\n影后\t影后\n影响不了\t影響不了\n影坛\t影壇\n影坛红星\t影壇紅星\n影评人周\t影評人週\n役于\t役於\n役于外物\t役於外物\n役别\t役別\n役种\t役種\n彻里彻外\t徹裡徹外\n彼得后书\t彼得後書\n彼得里皿\t彼得里皿\n彼此克制\t彼此剋制\n往上面\t往上面\n往下面\t往下面\n往事如烟\t往事如煙\n往前面\t往前面\n往后\t往後\n往后冲\t往後衝\n往后方\t往後方\n往后面\t往後面\n往回\t往回\n往复\t往復\n往复泵\t往復泵\n往复运动\t往復運動\n往外冲\t往外衝\n往外面\t往外面\n往大里\t往大裡\n往往是\t往往是\n往日无仇\t往日無仇\n往日里\t往日裡\n往来于\t往來於\n往死里\t往死裡\n往泥里踩\t往泥裡踩\n往还于\t往還於\n往里\t往裡\n往里面\t往裡面\n往里面冲\t往裡面衝\n征东\t征東\n征乌梁海\t征烏梁海\n征了\t徵了\n征人\t徵人\n征令\t徵令\n征伐\t征伐\n征信\t徵信\n征信录\t徵信錄\n征信所\t徵信所\n征信社\t徵信社\n征候\t徵候\n征候群\t徵候群\n征兆\t徵兆\n征兵\t徵兵\n征兵制\t徵兵制\n征兵制度\t徵兵制度\n征兵法\t徵兵法\n征兵站\t徵兵站\n征到\t徵到\n征剿\t征剿\n征募\t徵募\n征北\t征北\n征南\t征南\n征占\t徵佔\n征友\t徵友\n征友栏\t徵友欄\n征发\t徵發\n征召\t徵召\n征名责实\t徵名責實\n征吏\t徵吏\n征启\t徵啟\n征咎\t徵咎\n征圣\t徵聖\n征地\t徵地\n征士\t徵士\n征夫\t征夫\n征婚\t徵婚\n征实\t徵實\n征尘\t征塵\n征帆\t征帆\n征庸\t徵庸\n征引\t徵引\n征彸\t征彸\n征得\t徵得\n征怪\t徵怪\n征意见\t徵意見\n征戍\t征戍\n征战\t征戰\n征才\t徵才\n征招\t徵招\n征收\t徵收\n征收范围\t徵收範圍\n征收额\t徵收額\n征效\t徵效\n征敛\t征斂\n征敛无度\t征斂無度\n征文\t徵文\n征文启事\t徵文啟事\n征文比赛\t徵文比賽\n征旆\t征旆\n征服\t征服\n征服兵\t征服兵\n征服到地\t征服到地\n征服者\t征服者\n征求\t徵求\n征求启事\t徵求啟事\n征状\t徵狀\n征用\t徵用\n征程\t征程\n征税\t徵稅\n征税额\t徵稅額\n征稿\t徵稿\n征稿栏\t徵稿欄\n征答\t徵答\n征管\t徵管\n征粮\t徵糧\n征纳\t徵納\n征结\t徵結\n征缅\t征緬\n征缴\t徵繳\n征聘\t徵聘\n征聘人员\t徵聘人員\n征衣\t征衣\n征衫\t征衫\n征西\t征西\n征讨\t征討\n征训\t徵訓\n征询\t徵詢\n征调\t徵調\n征象\t徵象\n征购\t徵購\n征费\t徵費\n征车\t徵車\n征辟\t徵辟\n征迹\t徵跡\n征选\t徵選\n征逐\t徵逐\n征途\t征途\n征集\t徵集\n征集令\t徵集令\n征风召雨\t徵風召雨\n征马\t征馬\n征驾\t征駕\n征验\t徵驗\n征验出\t徵驗出\n径入\t逕入\n径到\t逕到\n径取\t逕取\n径向\t徑向\n径启者\t逕啟者\n径庭\t徑庭\n径流\t逕流\n径直\t徑直\n径自\t逕自\n径行\t逕行\n径路儿\t逕路兒\n待了\t待了\n待价而沽\t待價而沽\n待价藏珠\t待價藏珠\n待制\t待制\n待发\t待發\n待在家里\t待在家裡\n待如己出\t待如己出\n待核\t待覈\n很丑\t很醜\n很僵\t很僵\n很凶\t很兇\n很咸\t很鹹\n很干\t很乾\n很干了\t很乾了\n很暗\t很暗\n很松\t很鬆\n律历志\t律曆志\n律师团\t律師團\n徐伟胜\t徐偉勝\n徐余伟\t徐余偉\n徐克\t徐克\n徐千惠\t徐千惠\n徐台荪\t徐臺蓀\n徐台荪宫仲毅\t徐臺蓀宮仲毅\n徐妃半面妆\t徐妃半面妝\n徐娘\t徐娘\n徐娘半老\t徐娘半老\n徐家汇\t徐家匯\n徐州师范大学\t徐州師範大學\n徐干\t徐幹\n徐志摩\t徐志摩\n徐汇\t徐匯\n徐汇区\t徐匯區\n徐清云\t徐清雲\n徐赞升\t徐讚昇\n徐霞客游记\t徐霞客遊記\n徒托空言\t徒託空言\n徒步当车\t徒步當車\n得了\t得了\n得了些颜色就开起染房来\t得了些顏色就開起染房來\n得于\t得於\n得偿所愿\t得償所願\n得克制\t得剋制\n得克萨斯州沃思堡电\t得克薩斯州沃思堡電\n得准不准\t得準不準\n得出\t得出\n得失参半\t得失參半\n得幸\t得幸\n得当\t得當\n得志\t得志\n得意之余\t得意之餘\n得放手时须放手\t得放手時須放手\n得未尝有\t得未嘗有\n得益于\t得益於\n得而复失\t得而復失\n得胜\t得勝\n得胜之兵\t得勝之兵\n得胜之师\t得勝之師\n得胜口\t得勝口\n得胜回朝\t得勝回朝\n得胜头回\t得勝頭回\n得胜的猫儿欢似虎\t得勝的貓兒歡似虎\n得胜课\t得勝課\n得道升天\t得道昇天\n得采\t得采\n得黄金百不如得季布诺\t得黃金百不如得季布諾\n得黄金百斤不如得季布一诺\t得黃金百斤不如得季布一諾\n徘回\t徘迴\n徘徊于\t徘徊於\n徜徉于\t徜徉於\n御世\t御世\n御书\t御書\n御书房\t御書房\n御人\t御人\n御仗\t御仗\n御侮\t禦侮\n御制\t御製\n御前\t御前\n御前会议\t御前會議\n御医\t御醫\n御博表\t御博表\n御厨\t御廚\n御史\t御史\n御史台\t御史臺\n御史大夫\t御史大夫\n御史雨\t御史雨\n御夫\t御夫\n御夫座\t御夫座\n御夫有术\t御夫有術\n御孙\t御孫\n御宅族\t御宅族\n御宇\t御宇\n御守\t御守\n御宝\t御寶\n御容\t御容\n御寇\t禦寇\n御寒\t禦寒\n御库\t御庫\n御庙\t御廟\n御府\t御府\n御弟\t御弟\n御所\t御所\n御手\t御手\n御手洗\t御手洗\n御敌\t禦敵\n御旨\t御旨\n御札\t御札\n御极\t御極\n御林军\t御林軍\n御案\t御案\n御气\t御氣\n御沟\t御溝\n御沟流叶\t御溝流葉\n御沟题叶\t御溝題葉\n御河\t御河\n御状\t御狀\n御用\t御用\n御碑亭\t御碑亭\n御窑\t御窯\n御笔\t御筆\n御者\t御者\n御膳\t御膳\n御膳房\t御膳房\n御花园\t御花園\n御苑\t御苑\n御览\t御覽\n御赐\t御賜\n御轮\t御輪\n御道\t御道\n御酒\t御酒\n御风\t御風\n御馔\t御饌\n御驾\t御駕\n御驾亲征\t御駕親征\n御龙\t御龍\n循环制\t循環制\n循环制作\t循環製作\n循环制造\t循環製造\n循环反复\t循環反覆\n循环往复\t循環往復\n循环系统\t循環系統\n循环赛制\t循環賽制\n微克\t微克\n微分几何\t微分幾何\n微分几何学\t微分幾何學\n微升\t微升\n微卷\t微卷\n微孔板\t微孔板\n微居里\t微居里\n微微的发烫\t微微的發燙\n微核\t微核\n";

/// Part 66 of the text.
pub const ST_PHRASES_66: &'static str = "微波倒送系统\t微波倒送系統\n微纤\t微纖\n微胶囊技术\t微膠囊技術\n微雕\t微雕\n徯幸\t徯倖\n德佛亚克\t德佛亞克\n德兰克林\t德蘭克林\n德勒巴克\t德勒巴克\n德占\t德佔\n德国学术交流总署\t德國學術交流總署\n德国杯\t德國杯\n德国统一社会党\t德國統一社會黨\n德国马克\t德國馬克\n德垂后裔\t德垂後裔\n德布勒森\t德布勒森\n德布西\t德布西\n德干\t德干\n德干高原\t德干高原\n德弗札克\t德弗札克\n德意志\t德意志\n德意志关税同盟\t德意志關稅同盟\n德意志学术交流中心\t德意志學術交流中心\n德意志民主共和国\t德意志民主共和國\n德意志联邦共和国\t德意志聯邦共和國\n德意志银行\t德意志銀行\n德意志革命\t德意志革命\n德才\t德才\n德才兼备\t德才兼備\n德拉克洛瓦\t德拉克洛瓦\n德拉克罗瓦\t德拉克羅瓦\n德文系\t德文系\n德法年鉴\t德法年鑑\n德润佣书\t德潤傭書\n德瑞克\t德瑞克\n德胜头回\t德勝頭迴\n德胜门\t德勝門\n德薄才疏\t德薄才疏\n德语系\t德語系\n德谟克利泰斯\t德謨克利泰斯\n德谟克拉西\t德謨克拉西\n德里\t德里\n德里达\t德里達\n德高而毁来\t德高而毀來\n徼幸\t徼倖\n心不甘情不愿\t心不甘情不願\n心于\t心於\n心余\t心餘\n心凉了半截\t心涼了半截\n心口合一\t心口合一\n心同此理\t心同此理\n心向\t心向\n心向往之\t心嚮往之\n心向祖国\t心向祖國\n心回意转\t心回意轉\n心头小鹿撞个不住\t心頭小鹿撞個不住\n心存侥幸\t心存僥倖\n心安神闲\t心安神閒\n心宽出少年\t心寬出少年\n心弦\t心絃\n心志\t心志\n心念\t心念\n心意回转\t心意回轉\n心愿\t心願\n心慈面软\t心慈面軟\n心折\t心折\n心折首肯\t心折首肯\n心曲\t心曲\n心有余力不足\t心有餘力不足\n心有余悸\t心有餘悸\n心有余而力不足\t心有餘而力不足\n心有戚戚\t心有戚戚\n心服情愿\t心服情願\n心术\t心術\n心术不正\t心術不正\n心杯\t心杯\n心欲专凿石穿\t心欲專鑿石穿\n心活面软\t心活面軟\n心游\t心遊\n心满愿足\t心滿願足\n心物合一\t心物合一\n心理\t心理\n心理发展\t心理發展\n心理学系\t心理學系\n心理系\t心理系\n心理面\t心理面\n心甘情愿\t心甘情願\n心相系\t心相繫\n心神专注\t心神專注\n心系\t心繫\n心细似发\t心細似髮\n心细如发\t心細如髮\n心肝不托着五脏\t心肝不託著五臟\n心肺复苏术\t心肺復甦術\n心脏\t心臟\n心脏地区\t心臟地區\n心脏复苏术\t心臟復甦術\n心脏学\t心臟學\n心脏按摩\t心臟按摩\n心脏搭桥手术\t心臟搭橋手術\n心脏收缩压\t心臟收縮壓\n心脏瓣\t心臟瓣\n心脏疾患\t心臟疾患\n心脏病\t心臟病\n心脏病发\t心臟病發\n心脏病史\t心臟病史\n心脏痲痹\t心臟痲痹\n心脏痲痺\t心臟痲痺\n心脏科\t心臟科\n心脏移植\t心臟移植\n心脏移殖\t心臟移殖\n心脏舒张压\t心臟舒張壓\n心脏节律器\t心臟節律器\n心脏衰竭\t心臟衰竭\n心脏计\t心臟計\n心脏镜\t心臟鏡\n心脏麻痹\t心臟麻痹\n心脏麻痺\t心臟麻痺\n心花怒发\t心花怒發\n心荡\t心蕩\n心荡神怡\t心蕩神怡\n心荡神摇\t心蕩神搖\n心荡神迷\t心蕩神迷\n心荡神驰\t心蕩神馳\n心药\t心藥\n心虔志诚\t心虔志誠\n心路历程\t心路歷程\n心里\t心裡\n心里不安\t心裡不安\n心里头\t心裡頭\n心里有个谱\t心裡有個譜\n心里有数\t心裡有數\n心里有谱\t心裡有譜\n心里有鬼\t心裡有鬼\n心里痒痒\t心裡癢癢\n心里美萝卜\t心裡美蘿蔔\n心里话\t心裡話\n心里面\t心裡面\n心长发短\t心長髮短\n心闲手敏\t心閒手敏\n心高遮了太阳\t心高遮了太陽\n必修\t必修\n必修科\t必修科\n必修课\t必修課\n必修课程\t必修課程\n必备良药\t必備良藥\n必当\t必當\n必死之症\t必死之症\n必胜\t必勝\n必胜客\t必勝客\n必须\t必須\n忆念\t憶念\n忌烟\t忌菸\n忍个\t忍個\n忍了\t忍了\n忍冬\t忍冬\n忍冬花\t忍冬花\n忍受不了\t忍受不了\n忍受得了\t忍受得了\n忍术\t忍術\n忍饥受渴\t忍饑受渴\n忍饥受饿\t忍饑受餓\n忍饥挨饿\t忍飢挨餓\n忏悔录\t懺悔錄\n忒恶\t忒惡\n忖前思后\t忖前思後\n志不可夺\t志不可奪\n志不可满\t志不可滿\n志不在此\t志不在此\n志业\t志業\n志丹\t志丹\n志丹县\t志丹縣\n志乃\t志乃\n志之不忘\t誌之不忘\n志书\t志書\n志事\t志事\n志于\t志於\n志仁\t志仁\n志伟\t志偉\n志保\t志保\n志冲斗牛\t志沖斗牛\n志分\t志分\n志同心合\t志同心合\n志同气合\t志同氣合\n志同道合\t志同道合\n志向\t志向\n志哀\t誌哀\n志喜\t誌喜\n志在\t志在\n志在千里\t志在千里\n志在四方\t志在四方\n志在必得\t志在必得\n志坚\t志堅\n志坚胆壮\t志堅膽壯\n志士\t志士\n志士仁人\t志士仁人\n志大心高\t志大心高\n志大才疏\t志大才疏\n志大才短\t志大才短\n志学\t志學\n志尚\t志尚\n志工\t志工\n志工团\t志工團\n志工队\t志工隊\n志广才疏\t志廣才疏\n志庆\t誌慶\n志度\t志度\n志异\t誌異\n志强\t志強\n志得意满\t志得意滿\n志心\t志心\n志怪\t志怪\n志怪小说\t志怪小說\n志悼\t誌悼\n志意\t志意\n志愿\t志願\n志愿书\t志願書\n志愿兵\t志願兵\n志愿军\t志願軍\n志愿卡\t志願卡\n志愿役\t志願役\n志愿者\t志願者\n志成\t志成\n志文\t志文\n志明\t志明\n志村健\t志村健\n志杰\t志傑\n志气\t志氣\n志气凌云\t志氣凌雲\n志清\t志清\n志满气得\t志滿氣得\n志玲\t志玲\n志田\t志田\n志留系\t志留系\n志留纪\t志留紀\n志略\t志略\n志能之士\t志能之士\n志航基地\t志航基地\n志节\t志節\n志英\t志英\n志行\t志行\n志诚\t志誠\n志诚君子\t志誠君子\n志贞\t志貞\n志趣\t志趣\n志趣相投\t志趣相投\n志足意满\t志足意滿\n志量\t志量\n志骄意满\t志驕意滿\n志高气扬\t志高氣揚\n忘不了\t忘不了\n忘了\t忘了\n忘忧谷\t忘憂谷\n忘生舍死\t忘生捨死\n忙不择价\t忙不擇價\n忙了手脚\t忙了手腳\n忙于\t忙於\n忙作一团\t忙作一團\n忙并\t忙併\n忙成一团\t忙成一團\n忙昏了头\t忙昏了頭\n忙进忙出\t忙進忙出\n忙里\t忙裡\n忙里偷闲\t忙裡偷閒\n忙里忙外\t忙裡忙外\n忠于\t忠於\n忠于国家\t忠於國家\n忠于职守\t忠於職守\n忠人之托\t忠人之托\n忠仆\t忠僕\n忧喜参半\t憂喜參半\n忧形于色\t憂形於色\n忧戚\t憂戚\n忧郁\t憂鬱\n忧郁剂\t憂鬱劑\n忧郁症\t憂鬱症\n快乐幸福\t快樂幸福\n快了\t快了\n快借\t快借\n快停了\t快停了\n快克\t快克\n快克制\t快剋制\n快出\t快出\n快出去\t快出去\n快出来\t快出來\n快升\t快升\n快去快回\t快去快回\n快吃干\t快吃乾\n快向\t快向\n快回\t快回\n快回到\t快回到\n快回去\t快回去\n快回来\t快回來\n快好了\t快好了\n快完了\t快完了\n快干\t快乾\n快干了\t快乾了\n快干杯\t快乾杯\n快干裂\t快乾裂\n快当\t快當\n快快当当\t快快當當\n快搜\t快搜\n快松下\t快鬆下\n快板\t快板\n快板儿\t快板兒\n快死了\t快死了\n快没了\t快沒了\n快满了\t快滿了\n快熟了\t快熟了\n快狠准\t快狠準\n快舍下\t快捨下\n快赢了\t快贏了\n快适\t快適\n快递杯\t快遞杯\n快速发展\t快速發展\n快速面\t快速麵\n念一\t念一\n念上\t念上\n";

/// Part 67 of the text.
pub const ST_PHRASES_67: &'static str = "念不\t念不\n念中\t念中\n念之\t念之\n念书\t唸書\n念了\t唸了\n念了一声\t唸了一聲\n念他\t念他\n念以\t念以\n念作\t唸作\n念你\t念你\n念儿\t念兒\n念冰\t念冰\n念出\t念出\n念到\t唸到\n念力\t念力\n念及\t念及\n念叨\t唸叨\n念可\t念可\n念吧\t唸吧\n念和\t念和\n念咒\t唸咒\n念啊\t唸啊\n念在\t念在\n念头\t念頭\n念她\t念她\n念好\t念好\n念完\t唸完\n念对\t唸對\n念得\t念得\n念心\t念心\n念念\t念念\n念念有词\t唸唸有詞\n念情\t念情\n念想\t念想\n念慈\t念慈\n念成\t念成\n念我\t念我\n念日\t念日\n念旧\t念舊\n念是\t念是\n念曰\t唸曰\n念曲叫曲\t念曲叫曲\n念有\t念有\n念来\t念來\n念此\t念此\n念母\t念母\n念法\t念法\n念点\t念點\n念珠\t念珠\n念琛\t念琛\n念生\t念生\n念白\t唸白\n念的\t唸的\n念着\t念著\n念经\t唸經\n念给\t念給\n念诗\t唸詩\n念诵\t唸誦\n念起\t念起\n念过\t念過\n念这\t念這\n念道\t念道\n念都\t念都\n念错\t唸錯\n念青\t念青\n念鱼\t念魚\n忽前忽后\t忽前忽後\n忽明忽暗\t忽明忽暗\n忽舍下\t忽捨下\n忿发\t忿發\n怀了\t懷了\n怀宠尸位\t懷寵尸位\n怀忧丧志\t懷憂喪志\n怀念\t懷念\n怀恶不悛\t懷惡不悛\n怀才不遇\t懷才不遇\n怀才抱德\t懷才抱德\n怀表\t懷錶\n怀里\t懷裡\n怀钟\t懷鐘\n怎么\t怎麼\n怎么了\t怎麼了\n怎么回事\t怎麼回事\n怎么干\t怎麼幹\n怎么得了\t怎麼得了\n怎么着\t怎麼著\n怒于\t怒於\n怒从心上起恶向胆边生\t怒從心上起惡向膽邊生\n怒冲冲\t怒衝衝\n怒发冲冠\t怒髮衝冠\n怒发冲天\t怒髮沖天\n怒容满面\t怒容滿面\n怒形于色\t怒形於色\n怒恶\t怒惡\n怒气冲冲\t怒氣衝衝\n怒气冲发\t怒氣沖發\n怒气冲天\t怒氣沖天\n怒江大峡谷\t怒江大峽谷\n怒火万丈\t怒火萬丈\n怒火冲天\t怒火沖天\n怒目相向\t怒目相向\n怒臂当车\t怒臂當車\n怕是\t怕是\n怙恶不悛\t怙惡不悛\n怙恶不改\t怙惡不改\n怜才\t憐才\n思不出位\t思不出位\n思前思后\t思前思後\n思前想后\t思前想後\n思前算后\t思前算後\n思如泉涌\t思如泉湧\n思念\t思念\n思想体系\t思想體系\n思想准备\t思想準備\n思致\t思致\n思虑周详\t思慮周詳\n思路里\t思路裡\n怠于\t怠於\n急于\t急於\n急于星火\t急於星火\n急于求成\t急於求成\n急人之困\t急人之困\n急冲\t急衝\n急冲而下\t急衝而下\n急升\t急升\n急并各邦\t急並各邦\n急征重敛\t急征重斂\n急松松\t急鬆鬆\n急水也有回头浪\t急水也有回頭浪\n急症\t急症\n急进党\t急進黨\n急重症\t急重症\n急须\t急須\n性丑闻\t性醜聞\n性价比\t性價比\n性伙伴\t性夥伴\n性倾向\t性傾向\n性冲动\t性衝動\n性别\t性別\n性别歧视\t性別歧視\n性别比\t性別比\n性别角色\t性別角色\n性发\t性發\n性取向\t性取向\n性向\t性向\n性向测验\t性向測驗\n性征\t性徵\n性恶\t性惡\n性恶说\t性惡說\n性指向\t性指向\n性格不合\t性格不合\n性欲\t性慾\n性欲高潮\t性慾高潮\n性泼凶顽\t性潑凶頑\n性神经症\t性神經症\n性荷尔蒙\t性荷爾蒙\n性饥渴\t性飢渴\n怨仇\t怨仇\n怨叹\t怨嘆\n怨念\t怨念\n怨气冲天\t怨氣沖天\n怪了\t怪了\n怪杰\t怪傑\n怪里怪气\t怪裡怪氣\n怫郁\t怫鬱\n怯症\t怯症\n总会杯\t總會杯\n总体规划\t總體規劃\n总厂\t總廠\n总参谋部\t總參謀部\n总参谋长\t總參謀長\n总发\t總髮\n总台\t總檯\n总合\t總合\n总后勤部\t總後勤部\n总回报\t總回報\n总干事\t總幹事\n总批发\t總批發\n总方针\t總方針\n总星系\t總星系\n总是\t總是\n总机厂\t總機廠\n总杆数\t總桿數\n总杆赛\t總桿賽\n总汇\t總彙\n总理\t總理\n总结\t總結\n总统制\t總統制\n总统杯\t總統盃\n总裁制\t總裁制\n总量管制\t總量管制\n总面积\t總面積\n恂栗\t恂慄\n恃才傲物\t恃才傲物\n恃才矜己\t恃才矜己\n恃才自专\t恃才自專\n恋念\t戀念\n恋恋不舍\t戀戀不捨\n恋恋难舍\t戀戀難捨\n恋曲\t戀曲\n恋生恶死\t戀生惡死\n恋酒贪杯\t戀酒貪杯\n恐变症\t恐變症\n恐同症\t恐同症\n恐后争先\t恐後爭先\n恐怖症\t恐怖症\n恐惧症\t恐懼症\n恐慌症\t恐慌症\n恐旷症\t恐曠症\n恐水症\t恐水症\n恐法症\t恐法症\n恐韩症\t恐韓症\n恐高症\t恐高症\n恐鸡症\t恐雞症\n恒大\t恒大\n恒指\t恒指\n恒星周期\t恆星週期\n恒春野百合\t恆春野百合\n恒生\t恒生\n恒言录\t恆言錄\n恕乏价催\t恕乏价催\n恙虫\t恙蟲\n恙虫病\t恙蟲病\n恢台\t恢臺\n恢复\t恢復\n恢复为\t恢復為\n恢复到\t恢復到\n恢复原状\t恢復原狀\n恢复名誉\t恢復名譽\n恢复室\t恢復室\n恢复常态\t恢復常態\n恢复期\t恢復期\n恢复起来\t恢復起來\n恢复过来\t恢復過來\n恢恢有余\t恢恢有餘\n恣心所欲\t恣心所欲\n恣情纵欲\t恣情縱欲\n恤典\t卹典\n恤荒\t卹荒\n恤金\t卹金\n恨了\t恨了\n恨意尽消\t恨意盡消\n恨苦修行\t恨苦修行\n恨透了\t恨透了\n恩仇\t恩仇\n恩仇记\t恩仇記\n恩克巴雅尔\t恩克巴雅爾\n恩克鲁玛\t恩克魯瑪\n恩准\t恩准\n恩台\t恩臺\n恩同再造\t恩同再造\n恩同父母\t恩同父母\n恩培多克勒\t恩培多克勒\n恩威克\t恩威克\n恩威并施\t恩威並施\n恩威并济\t恩威並濟\n恩威并用\t恩威並用\n恩威并行\t恩威並行\n恩威并重\t恩威並重\n恩将仇报\t恩將仇報\n恩将仇报者\t恩將仇報者\n恩幸\t恩幸\n恩给制\t恩給制\n恩艾斯克\t恩艾斯克\n恬淡寡欲\t恬淡寡欲\n恬淡无欲\t恬淡無欲\n恬适\t恬適\n恭喜发财\t恭喜發財\n息交绝游\t息交絕遊\n息谷\t息穀\n恰克\t恰克\n恰克图\t恰克圖\n恰克图条约\t恰克圖條約\n恰当\t恰當\n恰才\t恰才\n恳愿\t懇願\n恳托\t懇託\n恶业\t惡業\n恶习\t惡習\n恶习不改\t惡習不改\n恶事\t惡事\n恶事传千里\t惡事傳千里\n恶人\t惡人\n恶人先告状\t惡人先告狀\n恶人有恶报\t惡人有惡報\n恶人自有恶人磨\t惡人自有惡人磨\n恶仗\t惡仗\n恶作剧\t惡作劇\n恶作剧者\t惡作劇者\n恶例\t惡例\n恶俗\t惡俗\n恶兆\t惡兆\n恶党\t惡黨\n恶凶凶\t惡兇兇\n恶劣\t惡劣\n恶劣影响\t惡劣影響\n恶劣性\t惡劣性\n恶势力\t惡勢力\n恶化\t惡化\n恶化趋势\t惡化趨勢\n恶化顷向\t惡化頃向\n恶叉白赖\t惡叉白賴\n恶发\t惡發\n恶口\t惡口\n恶名\t惡名\n恶名儿\t惡名兒\n恶名昭彰\t惡名昭彰\n恶名昭著\t惡名昭著\n恶哏哏\t惡哏哏\n恶唑啉\t噁唑啉\n恶唑啉酮\t噁唑啉酮\n恶因\t惡因\n恶地\t惡地\n恶声\t惡聲\n恶女\t惡女\n恶女阿楚\t惡女阿楚\n恶妇\t惡婦\n恶婆\t惡婆\n恶嫌\t惡嫌\n恶子\t惡子\n恶孽\t惡孽\n恶客\t惡客\n恶寒\t惡寒\n恶少\t惡少\n恶岁\t惡歲\n恶形\t惡形\n恶形恶状\t惡形惡狀\n恶徒\t惡徒\n恶德\t惡德\n恶心\t噁心\n恶心感\t噁心感\n恶念\t惡念\n恶怜\t惡憐\n恶性\t惡性\n恶性不改\t惡性不改\n恶性倒闭\t惡性倒閉\n恶性循环\t惡性循環\n恶性疟原虫\t惡性瘧原蟲\n恶性瘤\t惡性瘤\n恶性竞争\t惡性競爭\n恶性肿瘤\t惡性腫瘤\n恶性补习\t惡性補習\n恶性贫血\t惡性貧血\n恶性通货膨胀\t惡性通貨膨脹\n恶恶\t惡惡\n恶恶从短\t惡惡從短\n恶恶实实\t惡惡實實\n恶意\t惡意\n恶意中伤\t惡意中傷\n恶意代码\t惡意代碼\n恶意毁谤\t惡意譭謗\n恶感\t惡感\n恶战\t惡戰\n恶报\t惡報\n恶搞\t惡搞\n";

/// Part 68 of the text.
pub const ST_PHRASES_68: &'static str = "恶搞文化\t惡搞文化\n恶支杀\t惡支殺\n恶政\t惡政\n恶斗\t惡鬥\n恶曜\t惡曜\n恶月\t惡月\n恶有\t惡有\n恶有善报\t惡有善報\n恶有恶报\t惡有惡報\n恶极\t惡極\n恶果\t惡果\n恶梦\t惡夢\n恶梦探侦\t惡夢探偵\n恶棍\t惡棍\n恶棍歹徒\t惡棍歹徒\n恶模恶样\t惡模惡樣\n恶毒\t惡毒\n恶气\t惡氣\n恶水\t惡水\n恶汉\t惡漢\n恶法\t惡法\n恶浊\t惡濁\n恶浪\t惡浪\n恶湿居下\t惡濕居下\n恶灵\t惡靈\n恶煞\t惡煞\n恶犬\t惡犬\n恶狗\t惡狗\n恶狠\t惡狠\n恶狠狠\t惡狠狠\n恶狼\t惡狼\n恶疮\t惡瘡\n恶疾\t惡疾\n恶病质\t惡病質\n恶癖\t惡癖\n恶直丑正\t惡直醜正\n恶相\t惡相\n恶眉恶眼\t惡眉惡眼\n恶神\t惡神\n恶积祸盈\t惡積禍盈\n恶稔祸盈\t惡稔禍盈\n恶稔罪盈\t惡稔罪盈\n恶稔贯盈\t惡稔貫盈\n恶紫夺朱\t惡紫奪朱\n恶终\t惡終\n恶缘恶业\t惡緣惡業\n恶耗\t惡耗\n恶臭\t惡臭\n恶臭味\t惡臭味\n恶臭性\t惡臭性\n恶臭扑鼻\t惡臭撲鼻\n恶行\t惡行\n恶衣恶食\t惡衣惡食\n恶衣粝食\t惡衣糲食\n恶衣菲食\t惡衣菲食\n恶衣蔬食\t惡衣蔬食\n恶补\t惡補\n恶言\t惡言\n恶言伤人\t惡言傷人\n恶言恶语\t惡言惡語\n恶言泼语\t惡言潑語\n恶言相向\t惡言相向\n恶言詈辞\t惡言詈辭\n恶讯\t惡訊\n恶识\t惡識\n恶诧\t惡詫\n恶语\t惡語\n恶语中伤\t惡語中傷\n恶语伤人\t惡語傷人\n恶语相向\t惡語相向\n恶质\t惡質\n恶质化\t惡質化\n恶贯满盈\t惡貫滿盈\n恶贯祸盈\t惡貫禍盈\n恶贼\t惡賊\n恶赖\t惡賴\n恶趣\t惡趣\n恶躁\t惡躁\n恶运\t惡運\n恶运当头\t惡運當頭\n恶迹\t惡跡\n恶逆\t惡逆\n恶道\t惡道\n恶醉强酒\t惡醉強酒\n恶阻\t惡阻\n恶限\t惡限\n恶障\t惡障\n恶露\t惡露\n恶霸\t惡霸\n恶霸地主\t惡霸地主\n恶霸成性\t惡霸成性\n恶风\t惡風\n恶食\t惡食\n恶马恶人骑\t惡馬惡人騎\n恶骂\t惡罵\n恶鬼\t惡鬼\n恶魔\t惡魔\n恶魔党\t惡魔黨\n恶魔岛\t惡魔島\n悍药\t悍藥\n悒郁\t悒鬱\n悒郁不忿\t悒鬱不忿\n悒郁寡欢\t悒鬱寡歡\n悔不当初\t悔不當初\n悖入悖出\t悖入悖出\n悚栗\t悚慄\n悟出\t悟出\n悟出来\t悟出來\n悠哉游哉\t悠哉遊哉\n悠悠荡荡\t悠悠盪盪\n悠暗\t悠闇\n悠活丽致\t悠活麗緻\n悠游\t悠遊\n悠游卡\t悠遊卡\n悠游表\t悠遊錶\n悠然自适\t悠然自適\n悠荡\t悠盪\n悠闲地\t悠閒地\n悠闲自在\t悠閒自在\n患难之交才是真正的朋友\t患難之交才是真正的朋友\n您克制\t您剋制\n悬吊\t懸吊\n悬岩\t懸岩\n悬岩峭壁\t懸岩峭壁\n悬心吊胆\t懸心吊膽\n悬念\t懸念\n悬挂\t懸掛\n悬挂国旗\t懸掛國旗\n悬挂在\t懸掛在\n悬挂式滑翔\t懸掛式滑翔\n悬挂式滑翔机\t懸掛式滑翔機\n悬挂物\t懸掛物\n悬旌万里\t懸旌萬里\n悬梁\t懸樑\n悬梁刺股\t懸樑刺股\n悬梁自尽\t懸樑自盡\n悬河注水\t懸河注水\n悬河注火\t懸河注火\n悬灯结彩\t懸燈結彩\n悬肠挂肚\t懸腸掛肚\n悬胄\t懸冑\n悬臂梁\t懸臂樑\n悬车致仕\t懸車致仕\n悬针\t懸針\n悬针垂露\t懸針垂露\n悬钟\t懸鐘\n悭吝苦克\t慳吝苦剋\n悲不自胜\t悲不自勝\n悲凄\t悲悽\n悲叹\t悲嘆\n悲咽\t悲咽\n悲喜交并\t悲喜交並\n悲回风\t悲回風\n悲怆交响曲\t悲愴交響曲\n悲悲戚戚\t悲悲戚戚\n悲愿\t悲願\n悲戚\t悲戚\n悲欢合散\t悲歡合散\n悲欢离合\t悲歡離合\n悲歌当哭\t悲歌當哭\n悲泗淋漓\t悲泗淋漓\n悲犬咸阳\t悲犬咸陽\n悲痛欲绝\t悲痛欲絕\n悲秋\t悲秋\n悲秋伤春\t悲秋傷春\n悲筑\t悲筑\n悲谷\t悲谷\n悲郁\t悲鬱\n悸栗\t悸慄\n悼念\t悼念\n惄如调饥\t惄如調饑\n情不愿\t情不願\n情不自胜\t情不自勝\n情人眼里出西施\t情人眼裡出西施\n情人眼里有西施\t情人眼裡有西施\n情仇\t情仇\n情僧录\t情僧錄\n情况证据\t情況證據\n情同一家\t情同一家\n情同手足\t情同手足\n情同骨肉\t情同骨肉\n情同鱼水\t情同魚水\n情孚意合\t情孚意合\n情弦\t情弦\n情志\t情志\n情急了\t情急了\n情感冲动\t情感衝動\n情愿\t情願\n情投意合\t情投意合\n情报系统\t情報系統\n情文并茂\t情文並茂\n情有所钟\t情有所鍾\n情有独钟\t情有獨鍾\n情欲\t情慾\n情欲戏\t情慾戲\n情溢于表\t情溢於表\n情种\t情種\n情系\t情繫\n情至意尽\t情至意盡\n情致\t情致\n情采\t情采\n情面\t情面\n情面难却\t情面難卻\n惇朴\t惇樸\n惊叹\t驚歎\n惊恐万分\t驚恐萬分\n惊恐万状\t驚恐萬狀\n惊才绝艳\t驚才絕艷\n惊赞\t驚讚\n惊钟\t驚鐘\n惊闺叶\t驚閨葉\n惊险百出\t驚險百出\n惋叹\t惋嘆\n惏栗\t惏慄\n惑志\t惑志\n惑术\t惑術\n惕栗\t惕慄\n惜别\t惜別\n惜别会\t惜別會\n惟天可表\t惟天可表\n惠塔克\t惠塔克\n惠里香\t惠里香\n惠鉴\t惠鑒\n惦念\t惦念\n惦挂\t惦掛\n惧于\t懼於\n惧高症\t懼高症\n惨历\t慘歷\n惨戚\t慘慼\n惨栗\t慘慄\n惨遭不幸\t慘遭不幸\n惩前毖后\t懲前毖後\n惩忿窒欲\t懲忿窒欲\n惩恶劝善\t懲惡勸善\n惩恶奖善\t懲惡獎善\n惬当\t愜當\n惯于\t慣於\n惯性系\t慣性系\n惯摆\t慣擺\n想不出\t想不出\n想不出来\t想不出來\n想个\t想個\n想个办法\t想個辦法\n想个方法\t想個方法\n想也别想\t想也別想\n想了\t想了\n想了又想\t想了又想\n想借\t想借\n想像出\t想像出\n想像出来\t想像出來\n想克制\t想剋制\n想出\t想出\n想出去\t想出去\n想出来\t想出來\n想前顾后\t想前顧後\n想回\t想回\n想回去\t想回去\n想回来\t想回來\n想尽\t想盡\n想尽办法\t想盡辦法\n想尽方法\t想盡方法\n想干\t想幹\n想干什么\t想幹什麼\n想当然\t想當然\n想当然耳\t想當然耳\n想录\t想錄\n想念\t想念\n想说出\t想說出\n想象\t想像\n想都别想\t想都別想\n惴栗\t惴慄\n惹人注意\t惹人注意\n惹人注目\t惹人注目\n惹出\t惹出\n惹出来\t惹出來\n惹口面\t惹口面\n惺松\t惺鬆\n愁云\t愁雲\n愁云惨雾\t愁雲慘霧\n愁容满面\t愁容滿面\n愁布袋\t愁布袋\n愁戚戚\t愁戚戚\n愆面\t愆面\n愈出愈奇\t愈出愈奇\n愈发\t愈發\n愈合\t癒合\n意会出\t意會出\n意克制\t意剋制\n意出望外\t意出望外\n意切言尽\t意切言盡\n意切辞尽\t意切辭盡\n意前笔后\t意前筆後\n意占\t意佔\n意合情投\t意合情投\n意向\t意向\n意向书\t意向書\n意大利直面\t意大利直麵\n意大利面\t意大利麵\n意广才疏\t意廣才疏\n意得志满\t意得志滿\n意志\t意志\n意志力\t意志力\n意志消沉\t意志消沉\n意念\t意念\n意思表示\t意思表示\n意愿\t意願\n意欲\t意欲\n意气相合\t意氣相合\n意气风发\t意氣風發\n意满志得\t意滿志得\n意犹未尽\t意猶未盡\n意表\t意表\n意见不合\t意見不合\n意见调查表\t意見調查表\n意识历程\t意識歷程\n意转心回\t意轉心回\n意里意思\t意裡意思\n意面\t意麵\n愚公谷\t愚公谷\n愚暗\t愚闇\n愚者千虑必有一得\t愚者千慮必有一得\n愚蒙\t愚蒙\n感于\t感於\n感冒药\t感冒藥\n感化饼干\t感化餅乾\n感发\t感發\n感叹\t感嘆\n感同身受\t感同身受\n感念\t感念\n感恩不尽\t感恩不盡\n感慨万千\t感慨萬千\n感激万分\t感激萬分\n感激不尽\t感激不盡\n感觉出\t感覺出\n感觉出来\t感覺出來\n愣是\t愣是\n愤发\t憤發\n愤而行凶\t憤而行兇\n愧不敢当\t愧不敢當\n愧于\t愧於\n愿不愿\t願不願\n愿不愿意\t願不願意\n";

/// Part 69 of the text.
pub const ST_PHRASES_69: &'static str = "愿力\t願力\n愿天下有\t願天下有\n愿寘诚念\t願寘誠念\n愿干一杯\t願乾一杯\n愿干这杯\t願乾這杯\n愿干那杯\t願乾那杯\n愿心\t願心\n愿意\t願意\n愿意不愿意\t願意不願意\n愿意干\t願意幹\n愿景\t願景\n愿望\t願望\n愿朴\t愿樸\n愿者上钩\t願者上鉤\n愿而恭\t愿而恭\n愿行\t願行\n愿谨\t願謹\n愿闻其详\t願聞其詳\n慈云\t慈雲\n慈余高速\t慈餘高速\n慈制\t慈制\n慈安太后\t慈安太后\n慈悲喜舍\t慈悲喜捨\n慈溪\t慈谿\n慈禧太后\t慈禧太后\n慌了\t慌了\n慌了手脚\t慌了手腳\n慌了神儿\t慌了神兒\n慌作一团\t慌作一團\n慌成一团\t慌成一團\n慌里慌张\t慌裡慌張\n慢了\t慢了\n慢咽\t慢嚥\n慢工出巧匠\t慢工出巧匠\n慢工出细活\t慢工出細活\n慢工出细货\t慢工出細貨\n慢曲\t慢曲\n慢板\t慢板\n慢板情歌\t慢板情歌\n慢游\t慢遊\n慢表\t慢表\n慧种\t慧種\n慨叹\t慨嘆\n慰借\t慰藉\n慰情胜无\t慰情勝無\n憎恶\t憎惡\n懂了\t懂了\n懈松\t懈鬆\n懒于\t懶於\n懒惰虫\t懶惰蟲\n懒虫\t懶蟲\n懔栗\t懍慄\n懰栗\t懰慄\n懵药\t懵藥\n懵里懵懂\t懵裡懵懂\n懿戚\t懿戚\n懿范\t懿範\n懿范长昭\t懿範長昭\n戏剧台\t戲劇臺\n戏剧团\t戲劇團\n戏剧系\t戲劇系\n戏台\t戲臺\n戏团\t戲團\n戏彩娱亲\t戲綵娛親\n戏曲\t戲曲\n戏曲馆\t戲曲館\n戏法人人会变巧妙各有不同\t戲法人人會變巧妙各有不同\n戏谷\t戲谷\n戏里\t戲裡\n成不了\t成不了\n成个儿\t成個兒\n成了\t成了\n成于\t成於\n成于思\t成於思\n成交价\t成交價\n成仇\t成仇\n成兆才\t成兆才\n成功范例\t成功範例\n成千\t成千\n成千上万\t成千上萬\n成千成万\t成千成萬\n成千成百\t成千成百\n成千累万\t成千累萬\n成千论万\t成千論萬\n成合\t成合\n成名曲\t成名曲\n成名术\t成名術\n成周\t成周\n成团打块\t成團打塊\n成套出售\t成套出售\n成岩作用\t成岩作用\n成批出售\t成批出售\n成日里\t成日裡\n成本价\t成本價\n成核\t成核\n成百上千\t成百上千\n成群打伙\t成群打夥\n成群结伙\t成群結夥\n成群结党\t成群結黨\n成药\t成藥\n成虫\t成蟲\n成衣厂\t成衣廠\n成都卖卜\t成都賣卜\n成骨不全症\t成骨不全症\n我们死后将会洪水滔天\t我們死後將會洪水滔天\n我克制\t我剋制\n我党\t我黨\n我只\t我只\n我只有\t我只有\n我向\t我向\n我回\t我回\n我回到\t我回到\n我回去\t我回去\n我回来\t我回來\n我干一杯\t我乾一杯\n我念\t我念\n我愿\t我願\n我愿意\t我願意\n我扣\t我扣\n我搜\t我搜\n我系\t我係\n我醉欲眠\t我醉欲眠\n戒坛\t戒壇\n戒涂\t戒塗\n戒烟\t戒菸\n戒烟法\t戒菸法\n或于\t或於\n或系之牛\t或繫之牛\n或采\t或採\n战个\t戰個\n战了\t戰了\n战云\t戰雲\n战云密布\t戰雲密佈\n战云浓密\t戰雲濃密\n战前战后\t戰前戰後\n战后\t戰後\n战团\t戰團\n战地钟声\t戰地鐘聲\n战士授田凭据\t戰士授田憑據\n战天斗地\t戰天鬥地\n战战栗栗\t戰戰慄慄\n战斗\t戰鬥\n战斗人员\t戰鬥人員\n战斗任务\t戰鬥任務\n战斗力\t戰鬥力\n战斗区\t戰鬥區\n战斗员\t戰鬥員\n战斗意志\t戰鬥意志\n战斗旅\t戰鬥旅\n战斗机\t戰鬥機\n战斗编组\t戰鬥編組\n战斗群\t戰鬥群\n战斗者\t戰鬥者\n战斗舰\t戰鬥艦\n战斗英雄\t戰鬥英雄\n战斗营\t戰鬥營\n战斗行为\t戰鬥行為\n战斗车\t戰鬥車\n战斗轰炸\t戰鬥轟炸\n战斗队形\t戰鬥隊形\n战无不克\t戰無不克\n战无不胜\t戰無不勝\n战无不胜攻无不克\t戰無不勝攻無不克\n战无不胜攻无不取\t戰無不勝攻無不取\n战术\t戰術\n战术导弹\t戰術導彈\n战术核武器\t戰術核武器\n战术轰炸\t戰術轟炸\n战栗\t戰慄\n战略伙伴\t戰略伙伴\n战略防御倡议\t戰略防禦倡議\n战胜\t戰勝\n战胜国\t戰勝國\n战表\t戰表\n戚串\t戚串\n戚党\t戚黨\n戚凯罗\t戚凱羅\n戚友\t戚友\n戚墅堰\t戚墅堰\n戚墅堰区\t戚墅堰區\n戚夫人\t戚夫人\n戚家军\t戚家軍\n戚容\t戚容\n戚属\t戚屬\n戚戚\t戚戚\n戚施\t戚施\n戚族\t戚族\n戚旧\t戚舊\n戚然\t戚然\n戚继光\t戚繼光\n戚谊\t戚誼\n戚里\t戚里\n戛云\t戛雲\n截发\t截髮\n截发留宾\t截髮留賓\n截板\t截板\n截然不同\t截然不同\n截获\t截獲\n截趾适履\t截趾適履\n截趾适屦\t截趾適屨\n截面\t截面\n截面图\t截面圖\n戬谷\t戩穀\n戮力同心\t戮力同心\n戮尸\t戮屍\n戳个儿\t戳個兒\n戳脊梁\t戳脊樑\n戳脊梁骨\t戳脊樑骨\n戴个\t戴個\n戴了\t戴了\n戴克\t戴克\n戴克拉克\t戴克拉克\n戴克辛\t戴克辛\n戴出\t戴出\n戴出去\t戴出去\n戴出来\t戴出來\n戴发含齿\t戴髮含齒\n戴天之仇\t戴天之仇\n戴姆勒克莱斯勒\t戴姆勒克萊斯勒\n戴希穆克\t戴希穆克\n戴瑞克罗\t戴瑞克羅\n戴维斯杯\t戴維斯盃\n戴胜益\t戴勝益\n戴胜通\t戴勝通\n戴蒙\t戴蒙\n戴蒙德\t戴蒙德\n戴表\t戴錶\n戴表元\t戴表元\n戴诚志\t戴誠志\n户口制\t戶口制\n户口制度\t戶口制度\n户对门当\t戶對門當\n戽斗\t戽斗\n房中术\t房中術\n房价\t房價\n房地产共同基金\t房地產共同基金\n房地价\t房地價\n房子里\t房子裡\n房室结回路\t房室結迴路\n房屋修护\t房屋修護\n房屋修护费\t房屋修護費\n房屋里\t房屋裡\n房舍\t房舍\n房里\t房裡\n所云\t所云\n所云云\t所云云\n所余\t所餘\n所剩无几\t所剩無幾\n所占\t所佔\n所发现\t所發現\n所向\t所向\n所向披靡\t所向披靡\n所向无前\t所向無前\n所向无敌\t所向無敵\n所周知\t所周知\n所布之\t所佈之\n所布的\t所佈的\n所干\t所幹\n所幸\t所幸\n所念\t所念\n所托\t所託\n所托非人\t所託非人\n所扣\t所扣\n所有\t所有\n所有制\t所有制\n所有制作\t所有製作\n所有制造\t所有製造\n所系\t所繫\n所致\t所致\n所见略同\t所見略同\n所见而云\t所見而云\n所讥而云\t所譏而云\n所谓而云\t所謂而云\n扁担压不出个屁来\t扁擔壓不出個屁來\n扁拟谷盗虫\t扁擬穀盜蟲\n扁铲\t扁鏟\n扁锹形虫\t扁鍬形蟲\n扇叶蒲葵\t扇葉蒲葵\n扇火\t搧火\n扇火止沸\t扇火止沸\n扇面\t扇面\n扇面对\t扇面對\n扇面琴\t扇面琴\n扇风\t搧風\n扇风耳朵\t扇風耳朵\n手一卷\t手一捲\n手一松\t手一鬆\n手不松\t手不鬆\n手不释卷\t手不釋卷\n手写识别\t手寫識別\n手冢治虫\t手塚治虫\n手到回春\t手到回春\n手制\t手製\n手制动\t手制動\n手卷\t手卷\n手同脚\t手同腳\n手工台\t手工檯\n手工面\t手工麵\n手工面具\t手工面具\n手工面膜\t手工面膜\n手彩儿\t手彩兒\n手心里\t手心裡\n手折\t手摺\n手挽手\t手挽手\n手掌多汗症\t手掌多汗症\n手摇杯\t手搖杯\n手擀面\t手擀麵\n手术\t手術\n手术刀\t手術刀\n手术台\t手術檯\n手术室\t手術室\n手术房\t手術房\n手术用\t手術用\n手术衣\t手術衣\n手术费\t手術費\n手松\t手鬆\n手板\t手板\n手板子\t手板子\n手板葫芦\t手板葫蘆\n手腕式指北针\t手腕式指北針\n手表\t手錶\n手表带\t手錶帶\n手足口症\t手足口症\n手酸\t手痠\n手采\t手採\n手里\t手裡\n手里余\t手裡餘\n手铲\t手鏟\n手链\t手鍊\n手面\t手面\n手面赚吃\t手面賺吃\n才上到\t才上到\n才上去\t才上去\n才上来\t才上來\n才下去\t才下去\n才下来\t才下來\n才不\t才不\n才不会\t才不會\n";

/// Part 70 of the text.
pub const ST_PHRASES_70: &'static str = "才不是\t才不是\n才不能\t才不能\n才为\t才為\n才为世出\t才為世出\n才买\t才買\n才人\t才人\n才会\t才會\n才会到\t才會到\n才会在\t才會在\n才会有\t才會有\n才俊\t才俊\n才信\t才信\n才储八斗\t才儲八斗\n才像\t才像\n才像是\t才像是\n才具\t才具\n才兼文武\t才兼文武\n才再\t才再\n才出\t才出\n才出去\t才出去\n才出来\t才出來\n才分\t才分\n才则\t才則\n才刚\t才剛\n才到\t才到\n才力\t才力\n才勇兼优\t才勇兼優\n才华\t才華\n才华出众\t才華出眾\n才华横溢\t才華橫溢\n才华洋溢\t才華洋溢\n才华盖世\t才華蓋世\n才去\t才去\n才可\t才可\n才可以\t才可以\n才可容颜十五余\t才可容顏十五餘\n才名\t才名\n才器\t才器\n才回\t才回\n才回到\t才回到\n才回去\t才回去\n才回来\t才回來\n才在\t才在\n才士\t才士\n才多\t才多\n才多出\t才多出\n才够\t才夠\n才大难用\t才大難用\n才女\t才女\n才好\t才好\n才如史迁\t才如史遷\n才始\t才始\n才媛\t才媛\n才子\t才子\n才子书\t才子書\n才子佳人\t才子佳人\n才学\t才學\n才学兼优\t才學兼優\n才守\t才守\n才定\t才定\n才对\t才對\n才将\t才將\n才干\t才幹\n才干净\t才乾淨\n才干旱\t才乾旱\n才干杯\t才乾杯\n才干透\t才乾透\n才广妨身\t才廣妨身\n才开\t才開\n才开出\t才開出\n才开到\t才開到\n才当曹斗\t才當曹斗\n才得两年\t才得兩年\n才得到\t才得到\n才微智浅\t才微智淺\n才德\t才德\n才德兼备\t才德兼備\n才思\t才思\n才思敏捷\t才思敏捷\n才怪\t才怪\n才悟\t才悟\n才情\t才情\n才想\t才想\n才打\t才打\n才打出\t才打出\n才打到\t才打到\n才拿\t才拿\n才拿出\t才拿出\n才拿到\t才拿到\n才敢\t才敢\n才料\t才料\n才是\t才是\n才智\t才智\n才有\t才有\n才望\t才望\n才来\t才來\n才来到\t才來到\n才松下\t才鬆下\n才此\t才此\n才气\t才氣\n才气无双\t才氣無雙\n才气纵横\t才氣縱橫\n才气过人\t才氣過人\n才没\t才沒\n才没有\t才沒有\n才没能\t才沒能\n才派\t才派\n才派人\t才派人\n才用\t才用\n才用到\t才用到\n才略\t才略\n才略过人\t才略過人\n才疏学浅\t才疏學淺\n才疏德薄\t才疏德薄\n才疏志大\t才疏志大\n才疏意广\t才疏意廣\n才疏计拙\t才疏計拙\n才看\t才看\n才看出\t才看出\n才看到\t才看到\n才短气粗\t才短氣粗\n才秀人微\t才秀人微\n才等\t才等\n才等到\t才等到\n才算\t才算\n才算是\t才算是\n才给\t才給\n才能\t才能\n才能勇敢追\t才能勇敢追\n才能够\t才能夠\n才能干济\t才能幹濟\n才能有\t才能有\n才色\t才色\n才艺\t才藝\n才艺卓绝\t才藝卓絕\n才艺技能\t才藝技能\n才艺班\t才藝班\n才艺秀\t才藝秀\n才蔽识浅\t才蔽識淺\n才藻\t才藻\n才行\t才行\n才要\t才要\n才讲\t才講\n才识\t才識\n才识过人\t才識過人\n才语\t才語\n才读\t才讀\n才读到\t才讀到\n才貌\t才貌\n才貌出众\t才貌出眾\n才貌双全\t才貌雙全\n才贯二酉\t才貫二酉\n才资\t才資\n才起来\t才起來\n才跟\t才跟\n才轻德薄\t才輕德薄\n才过去\t才過去\n才过子建\t才過子建\n才过屈宋\t才過屈宋\n才过来\t才過來\n才非玉润\t才非玉潤\n才高八斗\t才高八斗\n才高意广\t才高意廣\n才高气傲\t才高氣傲\n才高行厚\t才高行厚\n才高行洁\t才高行潔\n扎上\t紮上\n扎上去\t紮上去\n扎上来\t紮上來\n扎下\t紮下\n扎下去\t紮下去\n扎下来\t紮下來\n扎乎\t扎乎\n扎了\t紮了\n扎伊尔\t扎伊爾\n扎住\t扎住\n扎兰屯\t扎蘭屯\n扎兰屯市\t扎蘭屯市\n扎到\t扎到\n扎卡维\t扎卡維\n扎啤\t扎啤\n扎嘴\t扎嘴\n扎囊\t扎囊\n扎囊县\t扎囊縣\n扎囮\t紮囮\n扎在\t紮在\n扎垫\t扎墊\n扎堆\t扎堆\n扎好\t紮好\n扎好底子\t紮好底子\n扎好根\t紮好根\n扎实\t紮實\n扎实推进\t紮實推進\n扎寨\t紮寨\n扎尔达里\t扎爾達里\n扎带\t紮帶\n扎带子\t紮帶子\n扎心\t扎心\n扎成\t紮成\n扎手\t扎手\n扎手舞脚\t扎手舞腳\n扎扎\t扎扎\n扎扎实实\t紮紮實實\n扎括\t扎括\n扎挣\t扎掙\n扎掂\t扎掂\n扎撒\t扎撒\n扎枪\t扎槍\n扎根\t紮根\n扎格罗斯\t扎格羅斯\n扎格罗斯山脉\t扎格羅斯山脈\n扎欧扎翁\t紮歐紮翁\n扎煞\t扎煞\n扎猛子\t扎猛子\n扎眉扎眼\t扎眉扎眼\n扎眼\t扎眼\n扎空枪\t扎空槍\n扎穿\t扎穿\n扎窝子\t扎窩子\n扎筏子\t扎筏子\n扎紧\t紮緊\n扎线带\t紮線帶\n扎结\t紮結\n扎缚\t扎縛\n扎罚子\t扎罰子\n扎耳朵\t扎耳朵\n扎脑门儿\t扎腦門兒\n扎脚\t紮腳\n扎花\t扎花\n扎草\t扎草\n扎营\t紮營\n扎裹\t紮裹\n扎诈\t紮詐\n扎赉特\t扎賚特\n扎赉特旗\t扎賚特旗\n扎起\t紮起\n扎起来\t紮起來\n扎针\t扎針\n扎铁\t紮鐵\n扎马剌丁\t紮馬剌丁\n扎马鲁丁\t紮馬魯丁\n扎鲁特\t扎魯特\n扎鲁特旗\t扎魯特旗\n扑个满怀\t撲個滿懷\n扑个空\t撲個空\n扑了\t撲了\n扑克\t撲克\n扑克牌\t撲克牌\n扑克脸\t撲克臉\n扑冬\t撲鼕\n扑冬冬\t撲鼕鼕\n扑出\t撲出\n扑出去\t撲出去\n扑出来\t撲出來\n扑同\t撲同\n扑向\t撲向\n扑复\t撲復\n扑灭蚊虫\t撲滅蚊蟲\n扑通通冬\t撲通通冬\n扑面\t撲面\n扑面而来\t撲面而來\n扒出\t扒出\n打一个吞\t打一個吞\n打个\t打個\n打个前失\t打個前失\n打个千儿\t打個千兒\n打个沉儿\t打個沉兒\n打个照会\t打個照會\n打个照面\t打個照面\n打个花\t打個花\n打个问号\t打個問號\n打中伙\t打中伙\n打了一个闷雷\t打了一個悶雷\n打了个千儿\t打了個千兒\n打了个盹儿\t打了個盹兒\n打了个落花流水\t打了個落花流水\n打了偏手\t打了偏手\n打了半跪\t打了半跪\n打了牙肚里咽\t打了牙肚裡嚥\n打价\t打價\n打伙\t打夥\n打伙子穿靴\t打夥子穿靴\n打冲锋\t打衝鋒\n打净捞干\t打淨撈乾\n打出\t打出\n打出去\t打出去\n打出吊入\t打出弔入\n打出头棍\t打出頭棍\n打出头棒子\t打出頭棒子\n打出手\t打出手\n打出来\t打出來\n打击报复\t打擊報復\n打击板\t打擊板\n打制\t打製\n打制石器\t打製石器\n打千\t打千\n打卡钟\t打卡鐘\n打卤面\t打滷麵\n打印台\t打印臺\n打印范围\t打印範圍\n打参\t打參\n打发\t打發\n打发掉\t打發掉\n打发时间\t打發時間\n打合\t打合\n打向\t打向\n打听出\t打聽出\n打和哄\t打和哄\n打哄\t打鬨\n打回\t打回\n打回去\t打回去\n打回来\t打回來\n打回票\t打回票\n打团\t打團\n打墙板儿翻上下\t打牆板兒翻上下\n打夜胡\t打夜胡\n打太极\t打太極\n打太极拳\t打太極拳\n打完针\t打完針\n打家劫舍\t打家劫舍\n打对台\t打對臺\n打干\t打幹\n打干净毬儿\t打乾淨毬兒\n打干哕\t打乾噦\n打并\t打併\n打开后门说\t打開後門說\n打开板壁讲亮话\t打開板壁講亮話\n打当\t打當\n打心眼里\t打心眼裡\n打恶心\t打噁心\n打成一团\t打成一團\n打扑克\t打撲克\n打折\t打折\n打折扣\t打折扣\n打折网\t打折網\n打报台\t打報臺\n打抽丰\t打抽豐\n打拐\t打拐\n打挨\t打捱\n打摆子\t打擺子\n打擂台\t打擂臺\n打斗\t打鬥\n打斗片\t打鬥片\n打暗号\t打暗號\n打来回\t打來回\n打板\t打板\n打板子\t打板子\n打桨杆\t打槳桿\n打棍出箱\t打棍出箱\n打没头坛\t打沒頭壇\n打游击\t打游擊\n打游飞\t打游飛\n打照面\t打照面\n打狗不看主人面\t打狗不看主人面\n";

/// Part 71 of the text.
pub const ST_PHRASES_71: &'static str = "打狗也要看主人面\t打狗也要看主人面\n打狗看主人面\t打狗看主人面\n打破纪录\t打破紀錄\n打秋丰\t打秋豐\n打秋千\t打鞦韆\n打秋风\t打秋風\n打筋斗\t打筋斗\n打簧表\t打簧錶\n打紧板\t打緊板\n打绝板\t打絕板\n打翻了的牛奶而哭泣\t打翻了的牛奶而哭泣\n打老鼠伤了玉瓶\t打老鼠傷了玉瓶\n打耳刮子\t打耳刮子\n打胜\t打勝\n打胜仗\t打勝仗\n打胡哨\t打胡哨\n打花胡哨\t打花胡哨\n打药\t打藥\n打蛇不死后患无穷\t打蛇不死後患無窮\n打蜡\t打蠟\n打蜡机\t打蠟機\n打话不同\t打話不同\n打诨发科\t打諢發科\n打谷\t打穀\n打谷场\t打穀場\n打谷机\t打穀機\n打路庄板\t打路莊板\n打造出\t打造出\n打道回府\t打道回府\n打里打外\t打裡打外\n打里照外\t打裡照外\n打野胡\t打野胡\n打量出\t打量出\n打针\t打針\n打钟\t打鐘\n打靠后\t打靠後\n打风后\t打風後\n打饥荒\t打饑荒\n扔出\t扔出\n扔出去\t扔出去\n扔出来\t扔出來\n扔回\t扔回\n扔回去\t扔回去\n扔回来\t扔回來\n扔在脑后\t扔在腦後\n托之空言\t託之空言\n托买\t託買\n托了\t託了\n托事\t託事\n托云\t托雲\n托交\t託交\n托人\t託人\n托人情\t託人情\n托付\t託付\n托住\t托住\n托儿\t托兒\n托儿所\t托兒所\n托克\t托克\n托克托\t托克托\n托克托县\t托克托縣\n托克逊\t托克遜\n托克逊县\t托克遜縣\n托出\t托出\n托利党人\t托利黨人\n托利米尔\t托利米爾\n托勒\t托勒\n托勒密\t托勒密\n托勒密王\t托勒密王\n托勒尔\t托勒爾\n托勒玫\t托勒玫\n托化\t託化\n托卖\t託賣\n托古讽今\t託古諷今\n托叶\t托葉\n托名\t託名\n托命\t託命\n托咎\t託咎\n托国\t託國\n托地\t托地\n托塔天王\t托塔天王\n托塞洛\t托塞洛\n托墨\t托墨\n托大\t託大\n托夫\t托夫\n托始\t託始\n托子\t托子\n托孤\t託孤\n托孤寄命\t託孤寄命\n托实\t托實\n托宿\t託宿\n托尔\t托爾\n托尔斯泰\t托爾斯泰\n托尔金\t托爾金\n托布力其\t托布力其\n托幼\t托幼\n托庇\t託庇\n托心\t託心\n托怀\t託懷\n托情\t託情\n托托镇\t托托鎮\n托拉\t托拉\n托拉博拉\t托拉博拉\n托拉斯\t托拉斯\n托故\t託故\n托斯卡\t托斯卡\n托斯卡尼\t托斯卡尼\n托斯卡尼尼\t托斯卡尼尼\n托木尔\t托木爾\n托木尔峰\t托木爾峰\n托杯\t托杯\n托架\t托架\n托格拉克\t托格拉克\n托梦\t託夢\n托比亚斯\t托比亞斯\n托比麦奎尔\t托比麥奎爾\n托洛斯基\t托洛斯基\n托洛茨基\t托洛茨基\n托派\t託派\n托熟\t托熟\n托物寓兴\t託物寓興\n托特\t托特\n托瑞丝\t托瑞絲\n托瑞赛\t托瑞賽\n托生\t託生\n托疾\t託疾\n托病\t託病\n托登汉队\t托登漢隊\n托盘\t托盤\n托盘区\t托盤區\n托福\t託福\n托福考\t托福考\n托福考试\t托福考試\n托管\t託管\n托管制度\t託管制度\n托管国\t託管國\n托管地\t託管地\n托米\t托米\n托米欧佳\t托米歐佳\n托维\t托維\n托罗斯山\t托羅斯山\n托老中心\t托老中心\n托老院\t托老院\n托育\t托育\n托胆\t托膽\n托胎\t托胎\n托腮\t托腮\n托色\t托色\n托荤咸食\t托葷鹹食\n托莱多\t托萊多\n托蒂\t托蒂\n托言\t託言\n托讽\t託諷\n托词\t託詞\n托赖\t托賴\n托起\t托起\n托起来\t托起來\n托足\t托足\n托足无门\t托足無門\n托身\t託身\n托辞\t託辭\n托辣斯\t托辣斯\n托辣斯法\t托辣斯法\n托过\t託過\n托运\t託運\n托运行李\t托運行李\n托迹\t託跡\n托里\t托里\n托里县\t托里縣\n托里拆利\t托里拆利\n托钵\t托缽\n托钵人\t托缽人\n托钵修会\t托缽修會\n托钵僧\t托缽僧\n托附\t託附\n托领\t托領\n托食\t託食\n托马\t托馬\n托马斯\t托馬斯\n托马斯阿奎纳\t托馬斯阿奎納\n扛了\t扛了\n扛出\t扛出\n扛出去\t扛出去\n扛出来\t扛出來\n扛大梁\t扛大樑\n扞御\t扞禦\n扣一\t扣一\n扣上\t扣上\n扣下\t扣下\n扣了\t扣了\n扣人\t扣人\n扣件\t扣件\n扣住\t扣住\n扣作\t扣作\n扣你\t扣你\n扣儿\t扣兒\n扣光\t扣光\n扣克\t扣剋\n扣入\t扣入\n扣减\t扣減\n扣出\t扣出\n扣击\t扣擊\n扣分\t扣分\n扣分标准\t扣分標準\n扣划\t扣劃\n扣到\t扣到\n扣动\t扣動\n扣压\t扣壓\n扣去\t扣去\n扣发\t扣發\n扣取\t扣取\n扣响\t扣響\n扣啊\t扣啊\n扣回\t扣回\n扣回去\t扣回去\n扣回来\t扣回來\n扣在\t扣在\n扣头\t扣頭\n扣女\t扣女\n扣好\t扣好\n扣子\t釦子\n扣完\t扣完\n扣将\t扣將\n扣带\t扣帶\n扣开\t扣開\n扣得\t扣得\n扣我\t扣我\n扣扣\t扣扣\n扣抵\t扣抵\n扣押\t扣押\n扣掉\t扣掉\n扣杀\t扣殺\n扣板\t扣板\n扣板机\t扣板機\n扣查\t扣查\n扣款\t扣款\n扣法\t扣法\n扣满\t扣滿\n扣点\t扣點\n扣牌\t扣牌\n扣牢\t扣牢\n扣率\t扣率\n扣环\t釦環\n扣球\t扣球\n扣留\t扣留\n扣的\t扣的\n扣眼\t釦眼\n扣着\t扣著\n扣税\t扣稅\n扣篮\t扣籃\n扣紧\t扣緊\n扣绊\t扣絆\n扣缴\t扣繳\n扣罚\t扣罰\n扣肉\t扣肉\n扣船\t扣船\n扣薪\t扣薪\n扣表\t扣表\n扣费\t扣費\n扣起\t扣起\n扣车\t扣車\n扣过\t扣過\n扣进\t扣進\n扣针\t釦針\n扣钩\t扣鉤\n扣钱\t扣錢\n扣锁\t扣鎖\n扣门\t扣門\n扣问\t扣問\n扣除\t扣除\n扣题\t扣題\n执念\t執念\n执政党\t執政黨\n执政团\t執政團\n执板\t執板\n执行面\t執行面\n扩厂\t擴廠\n扩厂计划\t擴廠計劃\n扩大范围\t擴大範圍\n扩建工厂\t擴建工廠\n扩张术\t擴張術\n扩散出来\t擴散出來\n扩音机系统\t擴音機系統\n扪参历井\t捫參歷井\n扪隙发罅\t捫隙發罅\n扫出\t掃出\n扫出去\t掃出去\n扫出来\t掃出來\n扫地俱尽\t掃地俱盡\n扫地出门\t掃地出門\n扫干净\t掃乾淨\n扫晴娘\t掃晴娘\n扫田刮地\t掃田刮地\n扫眉才子\t掃眉才子\n扫荡\t掃蕩\n扫荡残敌\t掃蕩殘敵\n扬升\t揚升\n扬名后世\t揚名後世\n扬名立万\t揚名立萬\n扬善去恶\t揚善去惡\n扬善隐恶\t揚善隱惡\n扬州清曲\t揚州清曲\n扬州画舫录\t揚州畫舫錄\n扬己露才\t揚己露才\n扬谷\t揚穀\n扭出\t扭出\n扭出去\t扭出去\n扭出来\t扭出來\n扭别\t扭別\n扭头折颈\t扭頭折頸\n扭成一团\t扭成一團\n扭摆\t扭擺\n扭摆不停\t扭擺不停\n扭曲\t扭曲\n扭曲作直\t扭曲作直\n扭转乾坤\t扭轉乾坤\n扮装皇后\t扮裝皇后\n扯出\t扯出\n扯出去\t扯出去\n扯出来\t扯出來\n扯后腿\t扯後腿\n扯篷拉纤\t扯篷拉縴\n扯纤\t扯縴\n扯闲白\t扯閒白\n扯闲盘儿\t扯閒盤兒\n扯闲篇\t扯閒篇\n扯面\t扯麵\n扰流板\t擾流板\n扳回\t扳回\n扳回一城\t扳回一城\n扶了\t扶了\n扶余\t扶餘\n扶余县\t扶餘縣\n扶余国\t扶餘國\n扶余市\t扶餘市\n扶出\t扶出\n扶出去\t扶出去\n扶出来\t扶出來\n扶危救困\t扶危救困\n扶危济困\t扶危濟困\n扶同\t扶同\n扶同硬证\t扶同硬證\n扶同诖误\t扶同詿誤\n扶善惩恶\t扶善懲惡\n扶幼周\t扶幼週\n扶手椅里\t扶手椅裡\n扶苏\t扶蘇\n扶贫济困\t扶貧濟困\n批价\t批價\n批准\t批准\n批准下来\t批准下來\n批准书\t批准書\n批准的\t批准的\n批出\t批出\n批出去\t批出去\n批出来\t批出來\n批发\t批發\n批发业\t批發業\n批发价\t批發價\n批发价格\t批發價格\n批发商\t批發商\n批发市场\t批發市場\n批发店\t批發店\n批回\t批迴\n批复\t批覆\n批尸\t批屍\n批斗\t批鬥\n批核\t批覈\n批汇\t批匯\n批注\t批註\n批荡\t批蕩\n扼制\t扼制\n找不准\t找不準\n找不出\t找不出\n找个\t找個\n找了\t找了\n找价\t找價\n";

/// Part 72 of the text.
pub const ST_PHRASES_72: &'static str = "找借口\t找藉口\n找出\t找出\n找出去\t找出去\n找出来\t找出來\n找出路\t找出路\n找台阶\t找臺階\n找台阶下\t找臺階下\n找台阶儿\t找臺階兒\n找回\t找回\n找回去\t找回去\n找回来\t找回來\n找寻出\t找尋出\n找面子\t找面子\n承修\t承修\n承先启后\t承先啟後\n承制\t承製\n承前启后\t承前啟後\n承受不了\t承受不了\n承宣布政使司\t承宣布政使司\n承平面\t承平面\n承当\t承當\n承当不起\t承當不起\n承托\t承托\n承蒙\t承蒙\n承蒙关照\t承蒙關照\n承蒙指教\t承蒙指教\n承销价差\t承銷價差\n承销团\t承銷團\n技术\t技術\n技术专科\t技術專科\n技术专科学校\t技術專科學校\n技术人员\t技術人員\n技术作物\t技術作物\n技术分析\t技術分析\n技术单位\t技術單位\n技术发展\t技術發展\n技术合作\t技術合作\n技术员\t技術員\n技术团\t技術團\n技术士\t技術士\n技术处\t技術處\n技术学院\t技術學院\n技术官\t技術官\n技术性\t技術性\n技术情报\t技術情報\n技术所限\t技術所限\n技术指导\t技術指導\n技术援助\t技術援助\n技术故障\t技術故障\n技术标准\t技術標準\n技术水准\t技術水準\n技术水平\t技術水平\n技术潜水\t技術潛水\n技术犯规\t技術犯規\n技术知识\t技術知識\n技术装备\t技術裝備\n技术规范\t技術規範\n技术部\t技術部\n技术部门\t技術部門\n技术降落\t技術降落\n技术面\t技術面\n技术革命\t技術革命\n技术革新\t技術革新\n技艺团\t技藝團\n抄发\t抄發\n抄台\t抄臺\n抄后路\t抄後路\n抄录\t抄錄\n抄录下来\t抄錄下來\n抄录在\t抄錄在\n抄录编目\t抄錄編目\n抄手游廊\t抄手遊廊\n抄扎\t抄扎\n抄获\t抄獲\n把上了\t把上了\n把个\t把個\n把了\t把了\n把你干\t把你幹\n把卷\t把卷\n把定了心\t把定了心\n把方才\t把方才\n把脸一板\t把臉一板\n把饭叫饥\t把飯叫饑\n抑制\t抑制\n抑制作用\t抑制作用\n抑制剂\t抑制劑\n抑制器\t抑制器\n抑制币\t抑制幣\n抑制栽培\t抑制栽培\n抑制碱\t抑制鹼\n抑制酶\t抑制酶\n抑恶扬善\t抑惡揚善\n抑扬升降性\t抑揚昇降性\n抑郁\t抑鬱\n抑郁不平\t抑鬱不平\n抑郁寡欢\t抑鬱寡歡\n抑郁症\t抑鬱症\n抒发\t抒發\n抒情曲\t抒情曲\n抒情歌曲\t抒情歌曲\n抓不准\t抓不準\n抓准\t抓準\n抓出\t抓出\n抓出去\t抓出去\n抓出来\t抓出來\n抓周\t抓周\n抓回\t抓回\n抓回去\t抓回去\n抓回来\t抓回來\n抓奸\t抓姦\n抓彩\t抓彩\n抓斗\t抓鬥\n抓药\t抓藥\n抓获\t抓獲\n抔土未干\t抔土未乾\n投不准\t投不準\n投不出\t投不出\n投了\t投了\n投井自尽\t投井自盡\n投出\t投出\n投出去\t投出去\n投出来\t投出來\n投合\t投合\n投向\t投向\n投喂\t投餵\n投回\t投回\n投射出\t投射出\n投影几何\t投影幾何\n投影几何学\t投影幾何學\n投影面\t投影面\n投手板\t投手板\n投手防御率\t投手防禦率\n投托\t投托\n投梭折齿\t投梭折齒\n投河自尽\t投河自盡\n投注\t投注\n投注站\t投注站\n投潘岳果\t投潘岳果\n投环自尽\t投環自盡\n投票表决\t投票表決\n投药\t投藥\n投资信托\t投資信託\n投闲置散\t投閒置散\n抖了\t抖了\n抖了起来\t抖了起來\n抖出\t抖出\n抖出去\t抖出去\n抖出来\t抖出來\n抖搜精神\t抖搜精神\n抗了\t抗了\n抗噪\t抗噪\n抗干扰性\t抗干擾性\n抗御\t抗禦\n抗志\t抗志\n抗忧郁药\t抗憂鬱藥\n抗战歌曲\t抗戰歌曲\n抗战胜利\t抗戰勝利\n抗拒不了\t抗拒不了\n抗日救亡团体\t抗日救亡團體\n抗病品种\t抗病品種\n抗病毒药\t抗病毒藥\n抗癌药\t抗癌藥\n抗癌药物\t抗癌藥物\n抗组胺药\t抗組胺藥\n抗药\t抗藥\n抗药性\t抗藥性\n抗药能力\t抗藥能力\n抗菌药\t抗菌藥\n抗逆转录\t抗逆轉錄\n折上\t折上\n折上去\t折上去\n折上来\t折上來\n折下\t折下\n折下去\t折下去\n折下来\t折下來\n折不断\t折不斷\n折中\t折中\n折价\t折價\n折价出售\t折價出售\n折价券\t折價券\n折价卷\t折價卷\n折伤\t折傷\n折倒\t折倒\n折光\t折光\n折兑\t折兌\n折兑率\t折兌率\n折兵\t折兵\n折冲\t折衝\n折冲厌难\t折衝厭難\n折冲尊俎\t折衝尊俎\n折冲御侮\t折衝禦侮\n折冲樽俎\t折衝樽俎\n折刀\t折刀\n折刀儿\t折刀兒\n折券\t折券\n折剉\t折剉\n折半\t折半\n折半出售\t折半出售\n折卖\t折賣\n折受\t折受\n折变\t折變\n折叠\t摺疊\n折叠为\t摺疊為\n折叠床\t摺疊牀\n折叠式\t摺疊式\n折叠扇\t摺疊扇\n折叠椅\t摺疊椅\n折叠起来\t摺疊起來\n折台\t折檯\n折合\t摺合\n折合椅\t摺合椅\n折回\t折回\n折回去\t折回去\n折回来\t折回來\n折壁脚\t折壁腳\n折头\t折頭\n折奏\t摺奏\n折好\t摺好\n折子\t摺子\n折子戏\t摺子戲\n折实\t折實\n折对\t折對\n折寿\t折壽\n折射\t折射\n折射光\t折射光\n折射出\t折射出\n折射式望远镜\t折射式望遠鏡\n折射波\t折射波\n折射率\t折射率\n折射线\t折射線\n折射角\t折射角\n折尺\t摺尺\n折屐\t折屐\n折帐\t折帳\n折弯\t折彎\n折当\t折當\n折得\t折得\n折成\t折成\n折戟沉沙\t折戟沉沙\n折戟沉河\t折戟沉河\n折扇\t摺扇\n折扣\t折扣\n折扣价\t折扣價\n折扣战\t折扣戰\n折扣率\t折扣率\n折抵\t折抵\n折挫\t折挫\n折损\t折損\n折损率\t折損率\n折断\t折斷\n折旧\t折舊\n折旧基金\t折舊基金\n折旧率\t折舊率\n折旧费\t折舊費\n折服\t折服\n折本\t折本\n折杀\t折殺\n折枝\t折枝\n折柬\t折柬\n折柳\t折柳\n折柳攀花\t折柳攀花\n折桂\t折桂\n折桂攀蟾\t折桂攀蟾\n折梯\t摺梯\n折椅\t摺椅\n折狱\t折獄\n折现\t折現\n折现率\t折現率\n折痕\t摺痕\n折的\t折的\n折碗\t折碗\n折磨\t折磨\n折福\t折福\n折秤\t折秤\n折简\t折簡\n折算\t折算\n折算法\t折算法\n折算率\t折算率\n折箩\t折籮\n折箭\t折箭\n折箭为盟\t折箭為盟\n折箭为誓\t折箭為誓\n折篷\t摺篷\n折纸\t摺紙\n折纸工\t摺紙工\n折线\t折線\n折缝\t折縫\n折罚\t折罰\n折翼\t折翼\n折耗\t折耗\n折肱\t折肱\n折腰\t折腰\n折腰五斗\t折腰五斗\n折腰升斗\t折腰升斗\n折腰步\t折腰步\n折腾\t折騰\n折臂三公\t折臂三公\n折色\t折色\n折节\t折節\n折节下交\t折節下交\n折节下士\t折節下士\n折节向学\t折節向學\n折节待士\t折節待士\n折节礼士\t折節禮士\n折节读书\t折節讀書\n折莫\t折莫\n折行\t折行\n折衷\t折衷\n折衷主义\t折衷主義\n折衷家庭\t折衷家庭\n折衷方案\t折衷方案\n折衷法\t折衷法\n折衷鹦鹉\t折衷鸚鵡\n折裙\t摺裙\n折角\t折角\n折让\t折讓\n折证\t折證\n折账\t折賬\n折起\t折起\n折起来\t折起來\n折足覆𫗧\t折足覆餗\n折跟头\t折跟頭\n折身\t折身\n折转\t折轉\n折辨\t折辨\n折辩\t折辯\n折辱\t折辱\n折过儿\t折過兒\n折返\t折返\n折返点\t折返點\n折进\t折進\n折进去\t摺進去\n折进来\t摺進來\n折钱\t折錢\n折长补短\t折長補短\n折页\t摺頁\n折鼎覆𫗧\t折鼎覆餗\n抚台\t撫臺\n抚台街\t撫臺街\n抚尸\t撫屍\n抚尸恸哭\t撫尸慟哭\n抚尸痛哭\t撫屍痛哭\n抚恤\t撫卹\n抚松\t撫松\n抚松县\t撫松縣\n抚梁易柱\t撫樑易柱\n抚面\t撫面\n抚面痛哭\t撫面痛哭\n抛出\t拋出\n抛出去\t拋出去\n抛出来\t拋出來\n抛向\t拋向\n抛在脑后\t拋在腦後\n抛头露面\t拋頭露面\n抛妻别子\t拋妻別子\n";

/// Part 73 of the text.
pub const ST_PHRASES_73: &'static str = "抛尸露骨\t拋屍露骨\n抛摆\t拋擺\n抛物面\t拋物面\n抟击掀发\t摶擊掀發\n抟柱乘梁\t摶柱乘梁\n抟沙嚼蜡\t摶沙嚼蠟\n抟砂炼汞\t摶砂煉汞\n抟风板\t摶風板\n抠出\t摳出\n抠出来\t摳出來\n抢了\t搶了\n抢修\t搶修\n抢修工作\t搶修工作\n抢占\t搶佔\n抢回\t搶回\n抢尽\t搶盡\n抢尽锋头\t搶盡鋒頭\n抢救出来\t搶救出來\n抢杠\t搶槓\n抢种\t搶種\n护厂\t護廠\n护发\t護髮\n护发乳液\t護髮乳液\n护发素\t護髮素\n护向\t護向\n护壁板\t護壁板\n护封\t護封\n护念\t護念\n护板\t護板\n护理\t護理\n护理系\t護理系\n护面\t護面\n护面具\t護面具\n报仇\t報仇\n报仇雪恨\t報仇雪恨\n报仇雪耻\t報仇雪恥\n报价\t報價\n报价单\t報價單\n报修\t報修\n报值挂号\t報值掛號\n报出\t報出\n报出去\t報出去\n报出来\t報出來\n报刊杂志\t報刊雜誌\n报台\t報臺\n报名表\t報名表\n报告出来\t報告出來\n报团\t報團\n报国尽忠\t報國盡忠\n报复\t報復\n报复主义\t報復主義\n报复关税\t報復關稅\n报复性\t報復性\n报导出来\t報導出來\n报录人\t報錄人\n报社里\t報社裡\n报税表\t報稅表\n报穷制裁\t報窮制裁\n报章杂志\t報章雜誌\n报系\t報系\n报表\t報表\n报表纸\t報表紙\n报表语言\t報表語言\n报道里\t報道裡\n披云\t披雲\n披云雾睹青天\t披雲霧睹青天\n披卷\t披卷\n披发\t披髮\n披发入山\t披髮入山\n披发垢面\t披髮垢面\n披发左衽\t披髮左衽\n披发涂面\t披髮塗面\n披发缨冠\t披髮纓冠\n披发藻目\t披髮藻目\n披头四乐团\t披頭四樂團\n披头四合唱团\t披頭四合唱團\n披头散发\t披頭散髮\n披挂\t披掛\n披挂上阵\t披掛上陣\n披挂绰枪\t披掛綽鎗\n披榛采兰\t披榛採蘭\n披红挂彩\t披紅掛綵\n披肝挂胆\t披肝掛膽\n披覆\t披覆\n披针形叶\t披針形葉\n抬价\t抬價\n抬出\t抬出\n抬出去\t抬出去\n抬出来\t抬出來\n抬回\t抬回\n抬回去\t抬回去\n抬回来\t抬回來\n抬杠\t抬槓\n抬高身价\t抬高身價\n抱出\t抱出\n抱出去\t抱出去\n抱出来\t抱出來\n抱出笼\t抱出籠\n抱回\t抱回\n抱回家\t抱回家\n抱回来\t抱回來\n抱大足杆\t抱大足桿\n抱布贸丝\t抱布貿絲\n抱成一团\t抱成一團\n抱抱团\t抱抱團\n抱朴\t抱朴\n抱朴子\t抱朴子\n抱朴而长吟兮\t抱朴而長吟兮\n抱素怀朴\t抱素懷樸\n抱负水准\t抱負水準\n抵了\t抵了\n抵借\t抵借\n抵制\t抵制\n抵向\t抵向\n抵当\t抵當\n抵御\t抵禦\n抵御外侮\t抵禦外侮\n抵扣\t抵扣\n抵押借款\t抵押借款\n抵挡不了\t抵擋不了\n抵换\t抵換\n抵牾\t牴牾\n抵触\t牴觸\n抵针\t抵針\n抹了\t抹了\n抹布\t抹布\n抹干\t抹乾\n抹面\t抹面\n抻面\t抻麵\n押出\t押出\n押回\t押回\n押回去\t押回去\n押回来\t押回來\n押当\t押當\n押柜\t押櫃\n押汇\t押匯\n押注\t押注\n押解回\t押解回\n抽丰\t抽豐\n抽公签\t抽公籤\n抽出\t抽出\n抽出去\t抽出去\n抽出来\t抽出來\n抽出空\t抽出空\n抽厘\t抽釐\n抽后腿\t抽後腿\n抽咽\t抽咽\n抽回\t抽回\n抽尽\t抽盡\n抽屉里\t抽屜裡\n抽干\t抽乾\n抽斗\t抽斗\n抽油烟机\t抽油煙機\n抽烟\t抽菸\n抽烟室\t抽菸室\n抽穗\t抽穗\n抽穗期\t抽穗期\n抽签\t抽籤\n抽绎出\t抽繹出\n抽蓄发电\t抽蓄發電\n抿发\t抿髮\n拂弦\t拂弦\n拂荡\t拂盪\n拂钟无声\t拂鐘無聲\n拂面\t拂面\n拂面而来\t拂面而來\n拂须\t拂鬚\n担仔面\t擔仔麵\n担干系\t擔干係\n担干纪\t擔干紀\n担当\t擔當\n担当不起\t擔當不起\n担当不过\t擔當不過\n担当起来\t擔當起來\n担担面\t擔擔麵\n担水向河头卖\t擔水向河頭賣\n担饥受冻\t擔飢受凍\n拆伙\t拆夥\n拆借\t拆借\n拆出\t拆出\n拆出去\t拆出去\n拆出来\t拆出來\n拆台\t拆臺\n拆回\t拆回\n拆回去\t拆回去\n拆回来\t拆回來\n拆封\t拆封\n拆封后\t拆封後\n拆扣\t拆扣\n拆白党\t拆白黨\n拆迁范围\t拆遷範圍\n拈折\t拈折\n拈花摘叶\t拈花摘葉\n拈针指\t拈針指\n拈须\t拈鬚\n拉丁语系\t拉丁語系\n拉个手\t拉個手\n拉了\t拉了\n拉了一把\t拉了一把\n拉克施尔德钟\t拉克施爾德鐘\n拉克替醇\t拉克替醇\n拉克莫诺夫\t拉克莫諾夫\n拉出\t拉出\n拉出去\t拉出去\n拉出来\t拉出來\n拉制\t拉制\n拉升\t拉昇\n拉卜楞\t拉卜楞\n拉卜楞寺\t拉卜楞寺\n拉合子\t拉合子\n拉合尔\t拉合爾\n拉合尔市\t拉合爾市\n拉后腿\t拉後腿\n拉向\t拉向\n拉回\t拉回\n拉回去\t拉回去\n拉回来\t拉回來\n拉尔维克\t拉爾維克\n拉布\t拉布\n拉布拉\t拉布拉\n拉布拉他\t拉布拉他\n拉布拉他河\t拉布拉他河\n拉布拉多\t拉布拉多\n拉布拉多半岛\t拉布拉多半島\n拉布拉多寒流\t拉布拉多寒流\n拉布拉多犬\t拉布拉多犬\n拉德万斯卡\t拉德萬斯卡\n拉托维亚\t拉托維亞\n拉揸面\t拉揸麵\n拉文克劳\t拉文克勞\n拉杂面\t拉雜麵\n拉杆\t拉桿\n拉杆子\t拉桿子\n拉法叶\t拉法葉\n拉法叶舰\t拉法葉艦\n拉洛\t拉洛\n拉涅里\t拉涅里\n拉狄克\t拉狄克\n拉皮手术\t拉皮手術\n拉祖里\t拉祖里\n拉纤\t拉縴\n拉缆子摆渡\t拉纜子擺渡\n拉莫\t拉莫\n拉蒙\t拉蒙\n拉贾帕克萨\t拉賈帕克薩\n拉达克\t拉達克\n拉里\t拉里\n拉里加尼\t拉里加尼\n拉里拉尼\t拉里拉尼\n拉链\t拉鏈\n拉链工程\t拉鏈工程\n拉面\t拉麵\n拉面店\t拉麵店\n拌嘴斗舌\t拌嘴鬥舌\n拌折\t拌折\n拌种\t拌種\n拌面\t拌麵\n拍出\t拍出\n拍出去\t拍出去\n拍出好戏\t拍齣好戲\n拍出来\t拍出來\n拍卖价\t拍賣價\n拍发\t拍發\n拍台拍凳\t拍檯拍凳\n拍摄出\t拍攝出\n拍板\t拍板\n拐上\t拐上\n拐下\t拐下\n拐了\t拐了\n拐人\t拐人\n拐住\t拐住\n拐入\t拐入\n拐出\t拐出\n拐出去\t拐出去\n拐出来\t拐出來\n拐到\t拐到\n拐卖\t拐賣\n拐去\t拐去\n拐回\t拐回\n拐回去\t拐回去\n拐回来\t拐回來\n拐子\t柺子\n拐带\t拐帶\n拐弯\t拐彎\n拐得\t拐得\n拐杖\t柺杖\n拐来\t拐來\n拐枣\t拐棗\n拐棍\t柺棍\n拐棒\t柺棒\n拐点\t拐點\n拐着\t拐著\n拐臂\t拐臂\n拐角\t拐角\n拐诱\t拐誘\n拐走\t拐走\n拐跑\t拐跑\n拐过\t拐過\n拐进\t拐進\n拐骗\t拐騙\n拑制\t拑制\n拒于\t拒於\n拒人于\t拒人於\n拒人于千里之外\t拒人於千里之外\n拒烟\t拒菸\n拓朴\t拓樸\n拓朴学\t拓樸學\n拔不出\t拔不出\n拔不出腿来\t拔不出腿來\n拔个\t拔個\n拔了\t拔了\n拔了一个尖儿\t拔了一個尖兒\n拔了萝卜地皮宽\t拔了蘿蔔地皮寬\n拔出\t拔出\n拔出去\t拔出去\n拔出来\t拔出來\n拔发\t拔髮\n拔回\t拔回\n拔回去\t拔回去\n拔回来\t拔回來\n拔围出夫\t拔圍出夫\n拔地参天\t拔地參天\n拔宅上升\t拔宅上昇\n拔宅飞升\t拔宅飛昇\n拔山志\t拔山志\n拔山曲\t拔山曲\n拔群出类\t拔群出類\n拔群出萃\t拔群出萃\n拔萃出类\t拔萃出類\n拔萃出群\t拔萃出群\n拔萝卜\t拔蘿蔔\n拔虎须\t拔虎鬚\n拔须\t拔鬚\n拖了\t拖了\n拖出\t拖出\n拖出去\t拖出去\n拖出来\t拖出來\n拖吊\t拖吊\n拖吊车\t拖吊車\n拖后腿\t拖後腿\n拖回\t拖回\n拖回去\t拖回去\n拖回来\t拖回來\n拖地板\t拖地板\n拖布\t拖布\n拖干净\t拖乾淨\n拖延战术\t拖延戰術\n拖斗\t拖斗\n拖板\t拖板\n拖板车\t拖板車\n拖链\t拖鏈\n拖鞋柜\t拖鞋櫃\n拖麻拽布\t拖麻拽布\n拗别\t拗彆\n拗别搅炒\t拗彆攪炒\n拗曲作直\t拗曲作直\n拘于\t拘於\n拘出\t拘出\n";

/// Part 74 of the text.
pub const ST_PHRASES_74: &'static str = "拘板\t拘板\n拘泥于\t拘泥於\n拘系\t拘繫\n拙于\t拙於\n拙于言词\t拙於言詞\n拙于言辞\t拙於言辭\n拙朴\t拙樸\n拚命干\t拚命幹\n拚斗\t拚鬥\n拚生尽死\t拚生盡死\n拚舍\t拚捨\n招了\t招了\n招供出来\t招供出來\n招出\t招出\n招出来\t招出來\n招回\t招回\n招回去\t招回去\n招回来\t招回來\n招复\t招復\n招待不周\t招待不周\n招术\t招術\n招致\t招致\n拜冬\t拜冬\n拜别\t拜別\n拜占庭\t拜占庭\n拜占庭帝国\t拜占庭帝國\n拜占庭文化\t拜占庭文化\n拜台\t拜臺\n拜复\t拜覆\n拜岳\t拜岳\n拜托\t拜託\n拜斗\t拜斗\n拜科努尔航天发射基地\t拜科努爾航天發射基地\n拜表\t拜表\n拟于\t擬於\n拟于不伦\t擬於不倫\n拟出\t擬出\n拟制\t擬製\n拟卤素\t擬鹵素\n拟定出\t擬定出\n拟核\t擬核\n拟阿拖品药物\t擬阿拖品藥物\n拣出\t揀出\n拣别\t揀別\n拥向\t擁向\n拦前断后\t攔前斷後\n拦当\t攔當\n拦柜\t攔櫃\n拧了\t擰了\n拧干\t擰乾\n拧松\t擰鬆\n拧种\t擰種\n拨万论千\t撥萬論千\n拨万轮千\t撥萬輪千\n拨乱之才\t撥亂之才\n拨云撩雨\t撥雲撩雨\n拨云睹日\t撥雲睹日\n拨云见日\t撥雲見日\n拨出\t撥出\n拨出去\t撥出去\n拨出来\t撥出來\n拨发\t撥發\n拨号系统\t撥號系統\n拨回\t撥回\n拨回去\t撥回去\n拨回来\t撥回來\n拨开云雾见青天\t撥開雲霧見青天\n拨弦\t撥絃\n拨接式数据通信\t撥接式數據通信\n拨蜡法\t撥蠟法\n拨谷\t撥穀\n拨雨撩云\t撥雨撩雲\n拨鱼面\t撥魚麵\n括发\t括髮\n括弧里\t括弧裡\n拭干\t拭乾\n拮据\t拮据\n拱出\t拱出\n拱手而别\t拱手而別\n拱手让出\t拱手讓出\n拱托\t拱托\n拱极星\t拱極星\n拳击台\t拳擊臺\n拳坛\t拳壇\n拳曲\t拳曲\n拳术\t拳術\n拷克机\t拷克機\n拼了\t拼了\n拼了命\t拼了命\n拼凑出\t拼湊出\n拼出\t拼出\n拼出去\t拼出去\n拼出来\t拼出來\n拼列出\t拼列出\n拼合\t拼合\n拼合版画\t拼合版畫\n拼回\t拼回\n拼回去\t拼回去\n拼回来\t拼回來\n拼图游戏\t拼圖遊戲\n拼字游戏\t拼字遊戲\n拼布\t拼布\n拼布图形\t拼布圖形\n拼斗\t拼鬥\n拼板\t拼板\n拼板游戏\t拼板遊戲\n拼板玩具\t拼板玩具\n拼板胶\t拼板膠\n拼板舟\t拼板舟\n拼缀出\t拼綴出\n拼花地板\t拼花地板\n拼贴艺术\t拼貼藝術\n拽布披麻\t拽布披麻\n拽布拖麻\t拽布拖麻\n拽扎\t拽扎\n拾回\t拾回\n拾沈\t拾瀋\n拾穗\t拾穗\n拾获\t拾獲\n拿下表\t拿下錶\n拿下钟\t拿下鐘\n拿不了\t拿不了\n拿不准\t拿不準\n拿不出手\t拿不出手\n拿个\t拿個\n拿云\t拏雲\n拿云手\t拿雲手\n拿云捉月\t拿雲捉月\n拿云握雾\t拿雲握霧\n拿云攫石\t拏雲攫石\n拿准\t拿準\n拿出\t拿出\n拿出去\t拿出去\n拿出手\t拿出手\n拿出来\t拿出來\n拿回\t拿回\n拿回去\t拿回去\n拿回家\t拿回家\n拿回来\t拿回來\n拿坡里\t拿坡里\n拿坡里号\t拿坡里號\n拿板弄势\t拿板弄勢\n拿枪杆\t拿槍桿\n拿波里\t拿波里\n拿着鸡毛当令箭\t拿著雞毛當令箭\n拿破仑\t拿破崙\n拿破仑法典\t拿破崙法典\n拿破仑波拿巴\t拿破崙波拿巴\n拿笔杆\t拿筆桿\n拿药\t拿藥\n拿获\t拿獲\n拿贼要赃拿奸要双\t拿賊要贓拿姦要雙\n持不同政见\t持不同政見\n持不同政见者\t持不同政見者\n持胜\t持勝\n挂一挂\t掛一掛\n挂一漏万\t掛一漏萬\n挂一漏百\t掛一漏百\n挂上\t掛上\n挂上去\t掛上去\n挂上来\t掛上來\n挂上钩\t掛上鉤\n挂下\t掛下\n挂下去\t掛下去\n挂下来\t掛下來\n挂不上\t掛不上\n挂不下\t掛不下\n挂不住\t掛不住\n挂个\t掛個\n挂了\t掛了\n挂了幌子\t掛了幌子\n挂住\t掛住\n挂僵\t掛僵\n挂入\t掛入\n挂冠\t掛冠\n挂冠归里\t掛冠歸里\n挂冠求去\t掛冠求去\n挂冠而去\t掛冠而去\n挂出\t掛出\n挂出去\t掛出去\n挂出来\t掛出來\n挂到\t掛到\n挂勾\t掛勾\n挂千\t掛千\n挂单\t掛單\n挂印悬牌\t掛印懸牌\n挂印而逃\t掛印而逃\n挂历\t掛曆\n挂号\t掛號\n挂号信\t掛號信\n挂号处\t掛號處\n挂号证\t掛號證\n挂号费\t掛號費\n挂名\t掛名\n挂名夫妻\t掛名夫妻\n挂味儿\t掛味兒\n挂回\t掛回\n挂回去\t掛回去\n挂回来\t掛回來\n挂图\t掛圖\n挂图表\t掛圖表\n挂在\t掛在\n挂在口上\t掛在口上\n挂在嘴上\t掛在嘴上\n挂在嘴边\t掛在嘴邊\n挂坠盒\t掛墜盒\n挂失\t掛失\n挂失止付\t掛失止付\n挂头牌\t掛頭牌\n挂好\t掛好\n挂孝\t掛孝\n挂帅\t掛帥\n挂帅的社会\t掛帥的社會\n挂帐\t掛帳\n挂帘\t掛簾\n挂幌子\t掛幌子\n挂彩\t掛彩\n挂得\t掛得\n挂心\t掛心\n挂念\t掛念\n挂怀\t掛懷\n挂意\t掛意\n挂成\t掛成\n挂招牌\t掛招牌\n挂掉\t掛掉\n挂搭\t掛搭\n挂斗\t掛斗\n挂断\t掛斷\n挂有\t掛有\n挂来\t掛來\n挂来挂去\t掛來掛去\n挂杯架\t掛杯架\n挂架\t掛架\n挂满\t掛滿\n挂漏\t掛漏\n挂火\t掛火\n挂灯\t掛燈\n挂灯结彩\t掛燈結綵\n挂牌\t掛牌\n挂牌汇率\t掛牌匯率\n挂球蛋\t掛球蛋\n挂的\t掛的\n挂碍\t掛礙\n挂篮\t掛籃\n挂红\t掛紅\n挂红灯\t掛紅燈\n挂络儿\t掛絡兒\n挂羊头\t掛羊頭\n挂羊头卖狗肉\t掛羊頭賣狗肉\n挂羊头煮狗肉\t掛羊頭煮狗肉\n挂肚牵心\t掛肚牽心\n挂肚牵肠\t掛肚牽腸\n挂肠悬胆\t掛腸懸膽\n挂落儿\t掛落兒\n挂虑\t掛慮\n挂衣\t掛衣\n挂衣冠\t掛衣冠\n挂衣架\t掛衣架\n挂衣钩\t掛衣鉤\n挂表\t掛錶\n挂角读书\t掛角讀書\n挂记\t掛記\n挂账\t掛賬\n挂货铺\t掛貨鋪\n挂起\t掛起\n挂起来\t掛起來\n挂车\t掛車\n挂轴\t掛軸\n挂过\t掛過\n挂过去\t掛過去\n挂过来\t掛過來\n挂进\t掛進\n挂进去\t掛進去\n挂进来\t掛進來\n挂钟\t掛鐘\n挂钩\t掛鉤\n挂钩儿\t掛鉤兒\n挂钩子\t掛鉤子\n挂锁\t掛鎖\n挂镜儿\t掛鏡兒\n挂零\t掛零\n挂面\t掛麵\n挂齿\t掛齒\n挂龙雨\t掛龍雨\n指不胜屈\t指不勝屈\n指了\t指了\n指亲托故\t指親托故\n指出\t指出\n指北针\t指北針\n指南针\t指南針\n指向\t指向\n指向装置\t指向裝置\n指回\t指回\n指回去\t指回去\n指回来\t指回來\n指定曲\t指定曲\n指征\t指徵\n指手划脚\t指手劃腳\n指挥台\t指揮台\n指日高升\t指日高升\n指极星\t指極星\n指标体系\t指標體系\n指水盟松\t指水盟松\n指破迷团\t指破迷團\n指示板\t指示板\n指纹纪录\t指紋紀錄\n指纹鉴定\t指紋鑑定\n指认出\t指認出\n指证历历\t指證歷歷\n指针\t指針\n指针式\t指針式\n按下不表\t按下不表\n按了\t按了\n按出\t按出\n按出去\t按出去\n按出来\t按出來\n按回\t按回\n按回去\t按回去\n按回来\t按回來\n按扣\t按扣\n按时间先后\t按時間先後\n按照字面\t按照字面\n按照计划\t按照計劃\n按理出牌\t按理出牌\n按表操课\t按表操課\n按计划\t按計劃\n按质定价\t按質定價\n按需出版\t按需出版\n挌斗\t挌鬥\n挑了\t挑了\n挑了只\t挑了隻\n挑出\t挑出\n挑出去\t挑出去\n挑出来\t挑出來\n挑口板\t挑口板\n挑台\t挑臺\n挑大梁\t挑大樑\n挑尽\t挑盡\n挑得篮里便是菜\t挑得籃裡便是菜\n挑拣出\t挑揀出\n挑斗\t挑鬥\n挑正梁\t挑正樑\n挑选出\t挑選出\n挑选出来\t挑選出來\n挖出\t挖出\n挖出去\t挖出去\n挖出来\t挖出來\n挖心搜胆\t挖心搜膽\n挖掘出\t挖掘出\n挖掘出来\t挖掘出來\n挖耳当招\t挖耳當招\n挚而有别\t摯而有別\n挟制\t挾制\n挟朋树党\t挾朋樹黨\n挠折\t撓折\n";

/// Part 75 of the text.
pub const ST_PHRASES_75: &'static str = "挠曲\t撓曲\n挠直为曲\t撓直為曲\n挡不了\t擋不了\n挡了\t擋了\n挡修\t擋修\n挡出\t擋出\n挡回\t擋回\n挡回去\t擋回去\n挡回来\t擋回來\n挡御\t擋禦\n挡板\t擋板\n挡泥板\t擋泥板\n挡雨板\t擋雨板\n挣出\t掙出\n挣扎\t掙扎\n挣扎表\t掙扎表\n挤了\t擠了\n挤兑出来\t擠兌出來\n挤出\t擠出\n挤出去\t擠出去\n挤出来\t擠出來\n挤占\t擠佔\n挤压出\t擠壓出\n挤向\t擠向\n挤成一团\t擠成一團\n挤昏了头\t擠昏了頭\n挤身于\t擠身於\n挥了\t揮了\n挥出\t揮出\n挥别\t揮別\n挥发\t揮發\n挥发性\t揮發性\n挥发性存储器\t揮發性存儲器\n挥发油\t揮發油\n挥发物\t揮發物\n挥戈回日\t揮戈回日\n挥手告别\t揮手告別\n挥手致意\t揮手致意\n挥杆\t揮杆\n挨三顶五\t挨三頂五\n挨三顶四\t捱三頂四\n挨上\t捱上\n挨上去\t挨上去\n挨不上\t挨不上\n挨个\t挨個\n挨个儿\t挨個兒\n挨了\t捱了\n挨了揍\t捱了揍\n挨了过去\t捱了過去\n挨了过来\t捱了過來\n挨亲儿\t挨親兒\n挨人儿\t挨人兒\n挨光\t挨光\n挨刀的\t挨刀的\n挨到\t捱到\n挨呲\t挨呲\n挨呲儿\t挨呲兒\n挨头子\t挨頭子\n挨家\t挨家\n挨家挨户\t挨家挨戶\n挨山塞海\t挨山塞海\n挨延\t挨延\n挨得\t捱得\n挨得住\t捱得住\n挨户\t挨戶\n挨打\t捱打\n挨打受气\t挨打受氣\n挨打受骂\t挨打受罵\n挨批\t挨批\n挨拿\t挨拿\n挨挤\t挨擠\n挨挨\t挨挨\n挨挨儿\t挨挨兒\n挨挨抢抢\t挨挨搶搶\n挨挨蹭蹭\t挨挨蹭蹭\n挨捕\t挨捕\n挨排\t挨排\n挨揍\t捱揍\n挨整\t捱整\n挨斗\t挨鬥\n挨日子\t捱日子\n挨时间\t捱時間\n挨板子\t挨板子\n挨棍子\t挨棍子\n挨次\t挨次\n挨满\t捱滿\n挨着\t挨著\n挨磨\t捱磨\n挨肩\t挨肩\n挨肩儿\t挨肩兒\n挨肩叠背\t挨肩疊背\n挨肩搭背\t挨肩搭背\n挨肩擦背\t挨肩擦背\n挨肩擦脸\t挨肩擦臉\n挨肩擦膀\t挨肩擦膀\n挨苦\t捱苦\n挨身\t挨身\n挨边\t挨邊\n挨边儿\t挨邊兒\n挨过\t捱過\n挨过去\t捱過去\n挨过来\t捱過來\n挨近\t挨近\n挨门\t挨門\n挨门挨户\t挨門挨戶\n挨门逐户\t挨門逐戶\n挨闹\t挨鬧\n挨靠\t挨靠\n挨风缉缝\t挨風緝縫\n挨饥抵饿\t捱飢抵餓\n挨饿\t捱餓\n挨饿受冻\t挨餓受凍\n挨骂\t捱罵\n挪借\t挪借\n挪出\t挪出\n挫折\t挫折\n挫折感\t挫折感\n振兴医疗复健中心\t振興醫療復健中心\n振杰\t振杰\n振聋发嘳\t振聾發嘳\n振聋发聩\t振聾發聵\n振荡\t振盪\n振荡器\t振盪器\n振荡电流\t振盪電流\n振荡电路\t振盪電路\n振衣千仞冈\t振衣千仞岡\n挹彼注兹\t挹彼注茲\n挹彼注此\t挹彼注此\n挹注\t挹注\n挺了\t挺了\n挺出\t挺出\n挺出去\t挺出去\n挺出来\t挺出來\n挺升\t挺升\n挺尸\t挺屍\n挺起腰板儿\t挺起腰板兒\n挺身而出\t挺身而出\n挽住\t挽住\n挽具\t挽具\n挽力\t挽力\n挽回\t挽回\n挽回不了\t挽回不了\n挽夫\t輓夫\n挽幛\t挽幛\n挽手\t挽手\n挽手儿\t挽手兒\n挽救\t挽救\n挽救不了\t挽救不了\n挽救儿童\t挽救兒童\n挽曲\t輓曲\n挽歌\t輓歌\n挽歌郎\t輓歌郎\n挽毂\t挽轂\n挽留\t挽留\n挽眉毛\t挽眉毛\n挽联\t輓聯\n挽脸师\t挽臉師\n挽袖\t挽袖\n挽词\t輓詞\n挽诗\t輓詩\n挽起\t挽起\n挽辞\t挽辭\n挽面\t挽面\n挽额\t輓額\n挽髻\t挽髻\n挽麦子\t挽麥子\n捅了\t捅了\n捅出\t捅出\n捆了\t捆了\n捆吊\t綑吊\n捆扎\t捆紮\n捉不准\t捉不準\n捉不胜捉\t捉不勝捉\n捉发\t捉髮\n捉奸\t捉姦\n捉奸党\t捉奸黨\n捉奸徒\t捉奸徒\n捉奸捉双\t捉姦捉雙\n捉奸细\t捉奸細\n捉奸见双\t捉姦見雙\n捉奸见床\t捉姦見牀\n捉奸贼\t捉奸賊\n捉摸不出\t捉摸不出\n捉获\t捉獲\n捉贼见赃捉奸见双\t捉賊見贓捉姦見雙\n捋虎须\t捋虎鬚\n捋采\t捋采\n捍御\t捍禦\n捏不准\t捏不準\n捏了一把冷汗\t捏了一把冷汗\n捏了一把汗\t捏了一把汗\n捏出\t捏出\n捏出水儿来的\t捏出水兒來的\n捏制\t捏製\n捏合\t捏合\n捏造出\t捏造出\n捏造出来\t捏造出來\n捏面人\t捏麵人\n捐出\t捐出\n捐出去\t捐出去\n捐出来\t捐出來\n捐益表\t捐益表\n捐赠盈余\t捐贈盈餘\n捕影系风\t捕影繫風\n捕获\t捕獲\n捕虏岩\t捕虜岩\n捕虫\t捕蟲\n捕虫叶\t捕蟲葉\n捕虫堇菜\t捕蟲堇菜\n捕虫植物\t捕蟲植物\n捕虫灯\t捕蟲燈\n捕虫网\t捕蟲網\n捕风系影\t捕風繫影\n捞出\t撈出\n捞干\t撈乾\n捞面\t撈麵\n损于\t損於\n损兵折将\t損兵折將\n损军折将\t損軍折將\n损将折兵\t損將折兵\n损折\t損折\n损益表\t損益表\n捡了\t撿了\n捡回\t撿回\n捡回去\t撿回去\n捡回来\t撿回來\n换个\t換個\n换个儿\t換個兒\n换了\t換了\n换借\t換借\n换出\t換出\n换出去\t換出去\n换出来\t換出來\n换厂\t換廠\n换发\t換髮\n换只\t換隻\n换台\t換臺\n换吊\t換吊\n换向\t換向\n换向器\t換向器\n换回\t換回\n换回去\t換回去\n换回来\t換回來\n换心手术\t換心手術\n换房旅游\t換房旅遊\n换扣\t換扣\n换挡杆\t換擋桿\n换板\t換板\n换档杆\t換檔桿\n换汇\t換匯\n换汤不换药\t換湯不換藥\n换签\t換籤\n换算无收获面积\t換算無收穫面積\n换算表\t換算表\n换系\t換系\n换肾手术\t換腎手術\n换药\t換藥\n捣针\t搗針\n捣鬼吊白\t搗鬼弔白\n捧出\t捧出\n捧出去\t捧出去\n捧出来\t捧出來\n捧回\t捧回\n捧杯\t捧杯\n据为己有\t據為己有\n据义履方\t據義履方\n据了解\t據瞭解\n据云\t據云\n据以\t據以\n据传\t據傳\n据传说\t據傳說\n据估计\t據估計\n据信\t據信\n据守\t據守\n据守天险\t據守天險\n据实\t據實\n据实以报\t據實以報\n据实相告\t據實相告\n据常\t據常\n据干而窥井底\t據榦而窺井底\n据床指麾\t據牀指麾\n据悉\t據悉\n据情办理\t據情辦理\n据我看\t據我看\n据报\t據報\n据报导\t據報導\n据报道\t據報道\n据有\t據有\n据此\t據此\n据点\t據點\n据理\t據理\n据理力争\t據理力爭\n据理而争\t據理而爭\n据称\t據稱\n据统计\t據統計\n据说\t據說\n据说在\t據說在\n据说是\t據說是\n据说有\t據說有\n据道\t據道\n据闻\t據聞\n据险固守\t據險固守\n据鞍\t據鞍\n捵面\t捵麵\n捶台拍凳\t捶檯拍凳\n捶炼\t捶鍊\n捷众药业\t捷眾藥業\n捷克\t捷克\n捷克人\t捷克人\n捷克共和国\t捷克共和國\n捷克斯拉夫\t捷克斯拉夫\n捷克斯洛伐克\t捷克斯洛伐克\n捷克暨斯洛伐克联邦共和国\t捷克暨斯洛伐克聯邦共和國\n捷克籍\t捷克籍\n捷克语\t捷克語\n捷克队\t捷克隊\n捷尔任斯克\t捷爾任斯克\n捷径\t捷徑\n捷才\t捷才\n捷运系统\t捷運系統\n捻合\t捻合\n捻针\t捻針\n捻须\t捻鬚\n掀了\t掀了\n掀了开来\t掀了開來\n掀出\t掀出\n掀出去\t掀出去\n掀出来\t掀出來\n掀帘子\t掀簾子\n掂折\t掂折\n掂梢折本\t掂梢折本\n授时历\t授時曆\n授权范围\t授權範圍\n掉个\t掉個\n掉了\t掉了\n掉价儿\t掉價兒\n掉出\t掉出\n掉出来\t掉出來\n掉发\t掉髮\n掉回头\t掉回頭\n掉换\t掉換\n掉海里\t掉海裡\n掊克\t掊克\n掊斗折衡\t掊斗折衡\n掌柜\t掌櫃\n掌柜的\t掌櫃的\n掌状复叶\t掌狀複葉\n掏出\t掏出\n掏出来\t掏出來\n排兵布阵\t排兵佈陣\n排出\t排出\n排出体\t排出體\n排出作用\t排出作用\n排出去\t排出去\n排出来\t排出來\n排列组合\t排列組合\n排名表\t排名表\n排当\t排當\n排扣\t排扣\n排放出\t排放出\n排放系统\t排放系統\n";

/// Part 76 of the text.
pub const ST_PHRASES_76: &'static str = "排档杆\t排檔桿\n排水系统\t排水系統\n排泄系统\t排泄系統\n排烟\t排煙\n排版系统\t排版系統\n排表\t排表\n排门挨户\t排門挨戶\n排除万难\t排除萬難\n排须\t排鬚\n排骨面\t排骨麵\n掘出\t掘出\n掘出来\t掘出來\n掘墓鞭尸\t掘墓鞭屍\n探个究竟\t探個究竟\n探了\t探了\n探出\t探出\n探出去\t探出去\n探出来\t探出來\n探听出\t探聽出\n探奇访胜\t探奇訪勝\n探寻出\t探尋出\n探寻胜迹\t探尋勝蹟\n探幽访胜\t探幽訪勝\n探知欲\t探知慾\n探究出\t探究出\n探获\t探獲\n探询出\t探詢出\n探针\t探針\n探骊获珠\t探驪獲珠\n掣后腿\t掣後腿\n掣签\t掣籤\n掤扒吊栲\t掤扒吊栲\n接下里\t接下裡\n接出\t接出\n接受不了\t接受不了\n接口规范\t接口規範\n接合\t接合\n接合上\t接合上\n接合处\t接合處\n接合点\t接合點\n接合生殖\t接合生殖\n接合菌纲\t接合菌綱\n接合起来\t接合起來\n接合面\t接合面\n接回\t接回\n接回去\t接回去\n接回来\t接回來\n接扣\t接扣\n接生术\t接生術\n接种\t接種\n接种率\t接種率\n接穗\t接穗\n接绍香烟\t接紹香煙\n接续香烟\t接續香煙\n接获\t接獲\n接触面\t接觸面\n接近于\t接近於\n接面\t接面\n控制\t控制\n控制不了\t控制不了\n控制住\t控制住\n控制力\t控制力\n控制区\t控制區\n控制单元\t控制單元\n控制卡\t控制卡\n控制台\t控制台\n控制器\t控制器\n控制塔\t控制塔\n控制好\t控制好\n控制室\t控制室\n控制币\t控制幣\n控制性\t控制性\n控制权\t控制權\n控制杆\t控制桿\n控制板\t控制板\n控制棒\t控制棒\n控制欲\t控制慾\n控制码\t控制碼\n控制碱\t控制鹼\n控制站\t控制站\n控制组\t控制組\n控制范围\t控制範圍\n控制裕如\t控制裕如\n控制论\t控制論\n控制键\t控制鍵\n控卷\t控捲\n控御\t控御\n推倒了油瓶不扶\t推倒了油瓶不扶\n推出\t推出\n推出去\t推出去\n推出来\t推出來\n推升\t推升\n推后\t推後\n推向\t推向\n推回\t推回\n推回去\t推回去\n推回来\t推回來\n推定出来\t推定出來\n推干净儿\t推乾淨兒\n推弦\t推絃\n推心致腹\t推心致腹\n推情准理\t推情準理\n推想出\t推想出\n推托\t推託\n推托之词\t推托之詞\n推挽\t推輓\n推断出\t推斷出\n推杆\t推杆\n推杯\t推杯\n推派出\t推派出\n推演出来\t推演出來\n推理\t推理\n推算出\t推算出\n推算出来\t推算出來\n推舟于陆\t推舟於陸\n推诚布信\t推誠佈信\n推诚布公\t推誠佈公\n推辇归里\t推輦歸里\n推销术\t推銷術\n推陈出新\t推陳出新\n推陈布新\t推陳佈新\n掩卷\t掩卷\n掩口卢胡\t掩口盧胡\n掩口胡卢\t掩口胡盧\n掩恶扬善\t掩惡揚善\n掩恶溢美\t掩惡溢美\n掩罪藏恶\t掩罪藏惡\n掩耳盗钟\t掩耳盜鐘\n掩面\t掩面\n掩面大哭\t掩面大哭\n掩面失色\t掩面失色\n掩面而泣\t掩面而泣\n掩面而过\t掩面而過\n措置失当\t措置失當\n措置得当\t措置得當\n措词不当\t措詞不當\n措辞不当\t措辭不當\n掰了\t掰了\n掳获\t擄獲\n掷出\t擲出\n掷杯\t擲杯\n掺合\t摻合\n揉合\t揉合\n揉成一团\t揉成一團\n揉面\t揉麵\n揍了\t揍了\n描了\t描了\n描写出\t描寫出\n描写出来\t描寫出來\n描出\t描出\n描出来\t描出來\n描涂\t描塗\n描绘出\t描繪出\n描绘出来\t描繪出來\n提不出\t提不出\n提个\t提個\n提了\t提了\n提价\t提價\n提克瑞提\t提克瑞提\n提克里特\t提克里特\n提出\t提出\n提出去\t提出去\n提出建议\t提出建議\n提出异议\t提出異議\n提出抗辩\t提出抗辯\n提出来\t提出來\n提制\t提製\n提升\t提升\n提升为\t提升為\n提升到\t提升到\n提向\t提向\n提回\t提回\n提回去\t提回去\n提回来\t提回來\n提子干\t提子乾\n提学御史\t提學御史\n提干\t提幹\n提心吊胆\t提心吊膽\n提拉米苏\t提拉米蘇\n提摩太后书\t提摩太後書\n提梁\t提樑\n提炼\t提煉\n提炼出\t提煉出\n提瓮出汲\t提甕出汲\n提纯复壮\t提純復壯\n提纳里\t提納里\n提舍尼\t提舍尼\n插于\t插於\n插回\t插回\n插回去\t插回去\n插回来\t插回來\n插图卷\t插圖卷\n插扣\t插扣\n插曲\t插曲\n插架万轴\t插架萬軸\n插箭游营\t插箭遊營\n插足于\t插足於\n插针\t插針\n握不准\t握不準\n握云拿雾\t握雲拿霧\n握云携雨\t握雲攜雨\n握别\t握別\n握发\t握髮\n握发吐哺\t握髮吐哺\n握发吐餐\t握髮吐餐\n握手极欢\t握手極歡\n握手道别\t握手道別\n握雨携云\t握雨攜雲\n握雾拿云\t握霧拿雲\n揣合逢迎\t揣合逢迎\n揣在怀里\t揣在懷裡\n揣奸把猾\t揣奸把猾\n揩台抹凳\t揩檯抹凳\n揩干\t揩乾\n揪出\t揪出\n揪出去\t揪出去\n揪出来\t揪出來\n揪发\t揪髮\n揪斗\t揪鬥\n揪采\t揪採\n揪须\t揪鬚\n揭丑\t揭醜\n揭出\t揭出\n揭发\t揭發\n揭发出\t揭發出\n揭布\t揭布\n揭折\t揭折\n揭示板\t揭示板\n揭露出\t揭露出\n援据\t援據\n揽胜\t攬勝\n揽胜图\t攬勝圖\n揽闲事\t攬閒事\n搀伙\t攙夥\n搁板\t擱板\n搁脚板\t擱腳板\n搅合\t攪合\n搋在怀里\t搋在懷裡\n搋面\t搋麵\n搌布\t搌布\n搏斗\t搏鬥\n搏炼\t搏煉\n搏砂炼汞\t搏砂煉汞\n搓板\t搓板\n搓熟的汤团\t搓熟的湯團\n搓粉团朱\t搓粉團朱\n搓粉抟朱\t搓粉摶朱\n搜下\t搜下\n搜书\t搜書\n搜了\t搜了\n搜人\t搜人\n搜出\t搜出\n搜刮\t搜刮\n搜到\t搜到\n搜剿\t搜剿\n搜吧\t搜吧\n搜听\t搜聽\n搜啊\t搜啊\n搜图\t搜圖\n搜奇\t搜奇\n搜奇抉怪\t搜奇抉怪\n搜奇访古\t搜奇訪古\n搜奇选妙\t搜奇選妙\n搜宝\t搜寶\n搜客\t搜客\n搜寻\t搜尋\n搜寻到\t搜尋到\n搜寻引擎\t搜尋引擎\n搜寻软体\t搜尋軟體\n搜山\t搜山\n搜店\t搜店\n搜录\t蒐錄\n搜房\t搜房\n搜扬仄陋\t搜揚仄陋\n搜扬侧陋\t搜揚側陋\n搜括\t蒐括\n搜括一空\t搜括一空\n搜捕\t搜捕\n搜捕到\t搜捕到\n搜掠\t搜掠\n搜搜\t搜搜\n搜搜客\t搜搜客\n搜搜客网\t搜搜客網\n搜救\t搜救\n搜救犬\t搜救犬\n搜星\t搜星\n搜查\t搜查\n搜查证\t搜查證\n搜根剔齿\t搜根剔齒\n搜根究底\t搜根究底\n搜根问底\t搜根問底\n搜检\t搜檢\n搜歌\t搜歌\n搜求\t搜求\n搜游\t搜遊\n搜爆\t搜爆\n搜狐\t搜狐\n搜狐网\t搜狐網\n搜狗\t搜狗\n搜的\t搜的\n搜神\t搜神\n搜神记\t搜神記\n搜秀\t搜秀\n搜章擿句\t搜章擿句\n搜索\t搜索\n搜索到\t搜索到\n搜索前进\t搜索前進\n搜索半径\t搜索半徑\n搜索引擎\t搜索引擎\n搜索枯肠\t搜索枯腸\n搜索票\t搜索票\n搜索结果\t搜索結果\n搜索范围\t搜索範圍\n搜索队\t搜索隊\n搜缴\t搜繳\n搜网\t搜網\n搜罗\t蒐羅\n搜肠刮肚\t搜腸刮肚\n搜获\t搜獲\n搜藏\t蒐藏\n搜藏家\t蒐藏家\n搜虎\t搜虎\n搜证\t蒐證\n搜豹\t搜豹\n搜购\t蒐購\n搜走\t搜走\n搜身\t搜身\n搜遍\t搜遍\n搜酷\t搜酷\n搜集\t蒐集\n搜集到\t蒐集到\n搢绅录\t搢紳錄\n搪饥\t搪飢\n搬出\t搬出\n搬出去\t搬出去\n搬出来\t搬出來\n搬回\t搬回\n搬回去\t搬回去\n搬回来\t搬回來\n搬斗\t搬鬥\n搭个\t搭個\n搭伙\t搭夥\n搭克露\t搭克露\n搭出\t搭出\n搭干铺\t搭乾鋪\n搭扣\t搭扣\n搭机回\t搭機回\n搭面\t搭面\n搯出来\t搯出來\n携云挈雨\t攜雲挈雨\n携云握雨\t攜雲握雨\n携出\t攜出\n携同\t攜同\n携带式卫星通信系统\t攜帶式衛星通信系統\n携手合作\t攜手合作\n携手同心\t攜手同心\n携手并肩\t攜手並肩\n";

/// Part 77 of the text.
pub const ST_PHRASES_77: &'static str = "搽穰卷儿\t搽穰捲兒\n搽药\t搽藥\n摁扣\t摁釦\n摄于\t攝於\n摄制\t攝製\n摄制厂\t攝製廠\n摄制成\t攝製成\n摄录影机\t攝錄影機\n摄影术\t攝影術\n摄影艺术\t攝影藝術\n摄氏寒暑表\t攝氏寒暑表\n摆上\t擺上\n摆上去\t擺上去\n摆上来\t擺上來\n摆下\t擺下\n摆下去\t擺下去\n摆下来\t擺下來\n摆不下\t擺不下\n摆不平\t擺不平\n摆不开\t擺不開\n摆乌龙\t擺烏龍\n摆了一道\t擺了一道\n摆事实讲道理\t擺事實講道理\n摆云锣儿\t擺雲鑼兒\n摆供\t擺供\n摆出\t擺出\n摆出去\t擺出去\n摆出来\t擺出來\n摆划\t擺劃\n摆列\t擺列\n摆列出\t擺列出\n摆到\t擺到\n摆制\t擺制\n摆动\t擺動\n摆动波\t擺動波\n摆卖\t擺賣\n摆回\t擺回\n摆回去\t擺回去\n摆回来\t擺回來\n摆在\t擺在\n摆在心上\t擺在心上\n摆在眼前\t擺在眼前\n摆地摊\t擺地攤\n摆夷\t擺夷\n摆好\t擺好\n摆姿势\t擺姿勢\n摆子\t擺子\n摆官架子\t擺官架子\n摆尾\t擺尾\n摆尾摇头\t擺尾搖頭\n摆布\t擺佈\n摆席\t擺席\n摆平\t擺平\n摆开\t擺開\n摆开阵势\t擺開陣勢\n摆弄\t擺弄\n摆当\t擺當\n摆得\t擺得\n摆忙\t擺忙\n摆成\t擺成\n摆手\t擺手\n摆拨\t擺撥\n摆拨不下\t擺撥不下\n摆振\t擺振\n摆搠\t擺搠\n摆搭\t擺搭\n摆摆\t擺擺\n摆摆头\t擺擺頭\n摆摆手\t擺擺手\n摆摆摇摇\t擺擺搖搖\n摆摊\t擺攤\n摆摊儿\t擺攤兒\n摆摊子\t擺攤子\n摆撼\t擺撼\n摆擂台\t擺擂臺\n摆放\t擺放\n摆放在\t擺放在\n摆明\t擺明\n摆来\t擺來\n摆来摆去\t擺來擺去\n摆架子\t擺架子\n摆样\t擺樣\n摆样子\t擺樣子\n摆格\t擺格\n摆槊\t擺槊\n摆款\t擺款\n摆法\t擺法\n摆浪子\t擺浪子\n摆渡\t擺渡\n摆渡船\t擺渡船\n摆满\t擺滿\n摆点\t擺點\n摆番\t擺番\n摆空架子\t擺空架子\n摆站\t擺站\n摆线\t擺線\n摆置\t擺置\n摆脱\t擺脫\n摆脱不了\t擺脫不了\n摆脱到\t擺脫到\n摆脱危机\t擺脫危機\n摆花架子\t擺花架子\n摆荡\t擺盪\n摆荡吊环\t擺蕩吊環\n摆荡起来\t擺盪起來\n摆落\t擺落\n摆行阵\t擺行陣\n摆袖却金\t擺袖卻金\n摆设\t擺設\n摆设儿\t擺設兒\n摆请儿\t擺請兒\n摆谱\t擺譜\n摆谱儿\t擺譜兒\n摆起\t擺起\n摆起来\t擺起來\n摆轮\t擺輪\n摆进\t擺進\n摆进去\t擺進去\n摆进来\t擺進來\n摆酒\t擺酒\n摆酒席\t擺酒席\n摆针\t擺針\n摆钟\t擺鐘\n摆锤\t擺錘\n摆长\t擺長\n摆门子\t擺門子\n摆门面\t擺門面\n摆阔\t擺闊\n摆阔气\t擺闊氣\n摆阵\t擺陣\n摆露\t擺露\n摆饭\t擺飯\n摆饰\t擺飾\n摆齐\t擺齊\n摆龙门阵\t擺龍門陣\n摇了\t搖了\n摇了一下\t搖了一下\n摇头摆尾\t搖頭擺尾\n摇头摆脑\t搖頭擺腦\n摇摆\t搖擺\n摇摆不定\t搖擺不定\n摇摆乐\t搖擺樂\n摇摆舞\t搖擺舞\n摇摇摆摆\t搖搖擺擺\n摇摇欲坠\t搖搖欲墜\n摇摇荡荡\t搖搖蕩蕩\n摇杆\t搖桿\n摇板\t搖板\n摇滚乐团\t搖滾樂團\n摇滚团\t搖滾團\n摇篮曲\t搖籃曲\n摇荡\t搖盪\n摇荡不停\t搖盪不停\n摇针\t搖針\n摊了\t攤了\n摊了事\t攤了事\n摊了人命\t攤了人命\n摊出\t攤出\n摊出去\t攤出去\n摊出来\t攤出來\n摊薄后每股盈利\t攤薄後每股盈利\n摒出\t摒出\n摔了\t摔了\n摔了一跤\t摔了一跤\n摔出\t摔出\n摔断了\t摔斷了\n摔断了腿\t摔斷了腿\n摔筋斗\t摔筋斗\n摔跟斗\t摔跟斗\n摘伏发隐\t摘伏發隱\n摘借\t摘借\n摘出\t摘出\n摘出去\t摘出去\n摘出来\t摘出來\n摘奸发伏\t摘奸發伏\n摘录\t摘錄\n摘录自\t摘錄自\n摘绵术\t摘綿術\n摛藻雕章\t摛藻雕章\n摧兰折玉\t摧蘭折玉\n摧坚获丑\t摧堅獲醜\n摧志屈道\t摧志屈道\n摧折\t摧折\n摧枯折腐\t摧枯折腐\n摧眉折腰\t摧眉折腰\n摩厉以须\t摩厲以須\n摩合罗\t摩合羅\n摩托\t摩托\n摩托化\t摩托化\n摩托罗垃\t摩托羅垃\n摩托罗拉\t摩托羅拉\n摩托船\t摩托船\n摩托车\t摩托車\n摩托车的士\t摩托車的士\n摩托车组\t摩托車組\n摩擦系数\t摩擦係數\n摩根费里曼\t摩根費里曼\n摩肩如云\t摩肩如雲\n摩苏尔\t摩蘇爾\n摩苏尔市\t摩蘇爾市\n摩诃迦叶\t摩訶迦葉\n摩里支\t摩里支\n摩里西斯\t摩里西斯\n摭采\t摭採\n摸不准\t摸不準\n摸了\t摸了\n摸出\t摸出\n摸出去\t摸出去\n摸出来\t摸出來\n摸彩\t摸彩\n摸彩券\t摸彩券\n摸彩品\t摸彩品\n摸彩箱\t摸彩箱\n摸秋\t摸秋\n摸索出\t摸索出\n摸钟\t摸鐘\n摹扎特\t摹紮特\n撂了\t撂了\n撇吊\t撇弔\n撑了\t撐了\n撑出\t撐出\n撑场面\t撐場面\n撑头获脑\t撐頭獲腦\n撑市面\t撐市面\n撑杆\t撐杆\n撑杆跳\t撐杆跳\n撑杆跳高\t撐杆跳高\n撑门面\t撐門面\n撒克逊\t撒克遜\n撒克逊人\t撒克遜人\n撒出\t撒出\n撒呓症\t撒囈症\n撒布\t撒佈\n撒极\t撒極\n撒种\t撒種\n撒马尔干\t撒馬爾幹\n撕了\t撕了\n撞个满怀\t撞個滿懷\n撞出\t撞出\n撞出去\t撞出去\n撞出来\t撞出來\n撞击式印表机\t撞擊式印表機\n撞向\t撞向\n撞尸\t撞屍\n撞府冲州\t撞府沖州\n撞木钟\t撞木鐘\n撞球台\t撞球檯\n撞球杆\t撞球桿\n撞警钟\t撞警鐘\n撞针\t撞針\n撞钟\t撞鐘\n撞钟太岁\t撞鐘太歲\n撞阵冲军\t撞陣衝軍\n撤出\t撤出\n撤出去\t撤出去\n撤出来\t撤出來\n撤后\t撤後\n撤回\t撤回\n撤回去\t撤回去\n撤回来\t撤回來\n撤帘\t撤簾\n撤并\t撤併\n撤换\t撤換\n撤柜\t撤櫃\n撤销记录\t撤銷記錄\n撧折\t撧折\n撩云拨雨\t撩雲撥雨\n撩斗\t撩鬥\n撩虎须\t撩虎鬚\n撬了\t撬了\n撬出去\t撬出去\n撬出来\t撬出來\n撬杠\t撬槓\n播于\t播於\n播出\t播出\n播出去\t播出去\n播出来\t播出來\n播出频道\t播出頻道\n播发\t播發\n播恶遗臭\t播惡遺臭\n播放列表\t播放列表\n播放歌曲\t播放歌曲\n播种\t播種\n播种期\t播種期\n播种机\t播種機\n播种法\t播種法\n播种面积\t播種面積\n播荡\t播蕩\n播越失据\t播越失據\n撮合\t撮合\n撮合山\t撮合山\n撮科打哄\t撮科打哄\n撮药\t撮藥\n撰出来\t撰出來\n撰录\t撰錄\n撵出\t攆出\n撵出去\t攆出去\n撵出来\t攆出來\n撺哄\t攛哄\n撺哄鸟乱\t攛哄鳥亂\n擀面\t擀麵\n擀面杖\t擀麵杖\n擂台\t擂臺\n擂台赛\t擂臺賽\n擂鼓交响曲\t擂鼓交響曲\n擅于\t擅於\n擅长于\t擅長於\n操作台\t操作檯\n操作规范\t操作規範\n操作钟\t操作鐘\n操同室之戈\t操同室之戈\n操纵台\t操縱檯\n操纵杆\t操縱桿\n操船术\t操船術\n擎拳合掌\t擎拳合掌\n擐系\t擐繫\n擒奸摘伏\t擒奸摘伏\n擒奸擿伏\t擒奸擿伏\n擒奸讨暴\t擒奸討暴\n擒获\t擒獲\n擘划\t擘劃\n擢升\t擢升\n擢发\t擢髮\n擢发抽肠\t擢髮抽腸\n擢发难数\t擢髮難數\n擦俊药\t擦俊藥\n擦出\t擦出\n擦出爱\t擦出愛\n擦刮\t擦刮\n擦布\t擦布\n擦干\t擦乾\n擦干净\t擦乾淨\n擦碗布\t擦碗布\n擦药\t擦藥\n擦面子\t擦面子\n擿埴索涂\t擿埴索塗\n擿奸发伏\t擿奸發伏\n攀云\t攀雲\n攀亲引戚\t攀親引戚\n攀亲托熟\t攀親託熟\n攀今吊古\t攀今吊古\n攀升\t攀升\n攀岩\t攀岩\n攀折\t攀折\n攀花折柳\t攀花折柳\n攀蟾折桂\t攀蟾折桂\n攀龙托凤\t攀龍託鳳\n攧攧仆仆\t攧攧仆仆\n支出\t支出\n支出费用\t支出費用\n支划\t支劃\n支努干\t支努干\n支干\t支幹\n支当\t支當\n支撑不了\t支撐不了\n支杆\t支桿\n支烟\t支菸\n支系\t支系\n支系统\t支系統\n支胄\t支胄\n收了\t收了\n收出\t收出\n收出去\t收出去\n收出来\t收出來\n收发\t收發\n";

/// Part 78 of the text.
pub const ST_PHRASES_78: &'static str = "收发器\t收發器\n收发室\t收發室\n收发室里\t收發室裡\n收发短信\t收發短信\n收发站\t收發站\n收回\t收回\n收回到\t收回到\n收回去\t收回去\n收回成命\t收回成命\n收回来\t收回來\n收复\t收復\n收复失土\t收復失土\n收复失地\t收復失地\n收复河山\t收復河山\n收尸\t收屍\n收录\t收錄\n收录两用机\t收錄兩用機\n收录在\t收錄在\n收录音机\t收錄音機\n收拾干净\t收拾乾淨\n收据\t收據\n收款台\t收款臺\n收汇\t收匯\n收盘价\t收盤價\n收盘价格\t收盤價格\n收盘汇率\t收盤匯率\n收秋\t收秋\n收获\t收穫\n收获节\t收穫節\n收获量\t收穫量\n收购价\t收購價\n收购价格\t收購價格\n收针\t收針\n收银台\t收銀臺\n攸戚相关\t攸戚相關\n改不了\t改不了\n改个\t改個\n改了\t改了\n改了又改\t改了又改\n改于\t改於\n改修\t改修\n改制\t改制\n改制为\t改製為\n改变不了\t改變不了\n改向\t改向\n改回\t改回\n改头换面\t改頭換面\n改当\t改當\n改征\t改徵\n改念\t改唸\n改恶向善\t改惡向善\n改扣\t改扣\n改换\t改換\n改签\t改簽\n改良品种\t改良品種\n改良种\t改良種\n攻了\t攻了\n攻克\t攻克\n攻击范围\t攻擊範圍\n攻击面\t攻擊面\n攻占\t攻佔\n攻向\t攻向\n攻守同盟\t攻守同盟\n攻无不克\t攻無不克\n攻无不克战无不胜\t攻無不克戰無不勝\n放一百二十个心\t放一百二十個心\n放个\t放個\n放之四海皆准\t放之四海皆準\n放之四海而皆准\t放之四海而皆準\n放了\t放了\n放了屁儿却使手掩\t放了屁兒卻使手掩\n放党\t放黨\n放出\t放出\n放出去\t放出去\n放出手眼\t放出手眼\n放出来\t放出來\n放参\t放參\n放回\t放回\n放回去\t放回去\n放在心里\t放在心裡\n放在眼里\t放在眼裡\n放大系数\t放大係數\n放学后\t放學後\n放射出\t放射出\n放射出来\t放射出來\n放射性发光材料\t放射性發光材料\n放射性同位素\t放射性同位素\n放射性烟羽\t放射性煙羽\n放射虫\t放射蟲\n放尽\t放盡\n放屁虫\t放屁蟲\n放暗箭\t放暗箭\n放松\t放鬆\n放松管制\t放鬆管制\n放流水标准\t放流水標準\n放烟\t放煙\n放烟幕\t放煙幕\n放烟幕弹\t放煙幕彈\n放烟火\t放煙火\n放荡\t放蕩\n放荡不羁\t放蕩不羈\n放荡任气\t放蕩任氣\n放荡弛纵\t放蕩弛縱\n放蒙挣\t放懞掙\n放诸四海皆准\t放諸四海皆準\n放轻松\t放輕鬆\n放马后炮\t放馬後炮\n放马后砲\t放馬後砲\n政党\t政黨\n政党政治\t政黨政治\n政出多门\t政出多門\n政制\t政制\n政团\t政團\n政坛\t政壇\n政工干校\t政工幹校\n政府机关开放系统互连总则\t政府機關開放系統互連總則\n政教合一\t政教合一\n政治体制\t政治體制\n政治局面\t政治局面\n政治斗争\t政治鬥爭\n政治系\t政治系\n政治舞台\t政治舞臺\n政治面\t政治面\n政策面\t政策面\n政见发表\t政見發表\n故事里\t故事裡\n故于\t故於\n故云\t故云\n故出\t故出\n故地重游\t故地重遊\n故当\t故當\n故态复萌\t故態復萌\n故舍\t故舍\n故里\t故里\n效价能\t效價能\n敌党\t敵黨\n敌前敌后\t敵前敵後\n敌占区\t敵佔區\n敌台\t敵臺\n敌后\t敵後\n敌后伏击\t敵後伏擊\n敌后作战\t敵後作戰\n敌后工作\t敵後工作\n敌后工作人员\t敵後工作人員\n敌后方\t敵後方\n敌忾同仇\t敵愾同仇\n敌百虫\t敵百蟲\n敏于\t敏於\n敏于事而慎于言\t敏於事而慎於言\n敏于伎\t敏於伎\n救人一命胜造七级浮屠\t救人一命勝造七級浮屠\n救人须救彻\t救人須救徹\n救出\t救出\n救出去\t救出去\n救出来\t救出來\n救回\t救回\n救回去\t救回去\n救回来\t救回來\n救困扶危\t救困扶危\n救国团\t救國團\n救恩计划\t救恩計劃\n救生艇甲板\t救生艇甲板\n救药\t救藥\n敕封\t敕封\n敖力布告\t敖力布告\n敖游\t敖遊\n敖荡\t敖盪\n教个\t教個\n教了\t教了\n教于\t教於\n教准部\t教準部\n教出\t教出\n教团\t教團\n教坛\t教壇\n教外别传\t教外別傳\n教学示范\t教學示範\n教学计划\t教學計劃\n教学钟\t教學鐘\n教室里\t教室裡\n教猱升木\t教猱升木\n教练团\t教練團\n教育出来\t教育出來\n教育制度\t教育制度\n教育团体\t教育團體\n教育方针\t教育方針\n教育系\t教育系\n教胄\t教胄\n教范\t教範\n敝帚千金\t敝帚千金\n敝舍\t敝舍\n敢于\t敢於\n敢作敢当\t敢作敢當\n敢借\t敢借\n敢做敢当\t敢做敢當\n敢出\t敢出\n敢出去\t敢出去\n敢出来\t敢出來\n敢向\t敢向\n敢干\t敢幹\n敢当\t敢當\n敢情欲\t敢情欲\n敢摆\t敢擺\n敢斗了胆\t敢斗了膽\n敢是\t敢是\n散于\t散於\n散伙\t散夥\n散兵游勇\t散兵遊勇\n散出\t散出\n散发\t散發\n散发传单\t散發傳單\n散发出\t散發出\n散发出来\t散發出來\n散尽\t散盡\n散布\t散佈\n散布开\t散佈開\n散布者\t散佈者\n散曲\t散曲\n散板\t散板\n散荡\t散蕩\n敦克尔克大撤退\t敦克爾克大撤退\n敦朴\t敦樸\n敦煌千佛洞\t敦煌千佛洞\n敦煌曲子\t敦煌曲子\n敬同\t敬同\n敬姜犹绩\t敬姜猶績\n敬挽\t敬輓\n敬烟\t敬菸\n敬鉴\t敬鑒\n数万\t數萬\n数万人\t數萬人\n数万元\t數萬元\n数不尽\t數不盡\n数不胜数\t數不勝數\n数与虏确\t數與虜确\n数了\t數了\n数以万计\t數以萬計\n数以万订\t數以萬訂\n数以千计\t數以千計\n数以百万计\t數以百萬計\n数位化录音带\t數位化錄音帶\n数位快速篆刻系统\t數位快速篆刻系統\n数位控制\t數位控制\n数位板\t數位板\n数位艺术\t數位藝術\n数借\t數借\n数值控制\t數值控制\n数值范围\t數值範圍\n数出\t數出\n数十万\t數十萬\n数千\t數千\n数千万\t數千萬\n数千亿\t數千億\n数周\t數週\n数天后\t數天後\n数字时钟\t數字時鐘\n数字海里\t數字海裡\n数字系数\t數字係數\n数字钟\t數字鐘\n数字钟表\t數字鐘錶\n数学系\t數學系\n数据\t數據\n数据介面\t數據介面\n数据传输\t數據傳輸\n数据卡\t數據卡\n数据压缩\t數據壓縮\n数据处理\t數據處理\n数据总线\t數據總線\n数据接口\t數據接口\n数据机\t數據機\n数据段\t數據段\n数据流\t數據流\n数据结构\t數據結構\n数据网络\t數據網絡\n数据调制解调器\t數據調製解調器\n数据资料\t數據資料\n数据通信\t數據通信\n数据通讯\t數據通訊\n数据链\t數據鏈\n数据链路\t數據鏈路\n数据链路层\t數據鏈路層\n数据链路连接识别码\t數據鏈路連接識別碼\n数术\t數術\n数杯\t數杯\n数理\t數理\n数百万\t數百萬\n数米志炊\t數米志炊\n数罪并罚\t數罪併罰\n数里\t數里\n敲丧钟\t敲喪鐘\n敲了\t敲了\n敲出\t敲出\n敲钟\t敲鐘\n整个\t整個\n整个人\t整個人\n整个地球\t整個地球\n整个月\t整個月\n整个来说\t整個來說\n整了\t整了\n整人游戏\t整人遊戲\n整修\t整修\n整修费\t整修費\n整党\t整黨\n整出剧\t整齣劇\n整出戏\t整齣戲\n整厂输出\t整廠輸出\n整发\t整發\n整发用品\t整髮用品\n整只\t整隻\n整叶\t整葉\n整合\t整合\n整合出\t整合出\n整合到\t整合到\n整合商\t整合商\n整合型\t整合型\n整合式\t整合式\n整合性\t整合性\n整合成\t整合成\n整合法\t整合法\n整合管理资讯化\t整合管理資訊化\n整合系统\t整合系統\n整合行销传播\t整合行銷傳播\n整周\t整週\n";

/// Part 79 of the text.
pub const ST_PHRASES_79: &'static str = "整型手术\t整型手術\n整型术\t整型術\n整容手术\t整容手術\n整容术\t整容術\n整庄\t整莊\n整形术\t整形術\n整数集合\t整數集合\n整杯\t整杯\n整杯水\t整杯水\n整杯茶\t整杯茶\n整杯酒\t整杯酒\n整柜\t整櫃\n整根烟\t整根菸\n整理\t整理\n整理出\t整理出\n整理出来\t整理出來\n整装待发\t整裝待發\n整面\t整面\n整风后\t整風後\n整齐划一\t整齊劃一\n整齐干净\t整齊乾淨\n敷了\t敷了\n敷出\t敷出\n敷布\t敷布\n敷彩泥塑\t敷彩泥塑\n敷涂\t敷塗\n敷药\t敷藥\n敷衍了事\t敷衍了事\n敷面\t敷面\n敷面膜\t敷面膜\n敹一针\t敹一針\n文不尽意\t文不盡意\n文丑\t文丑\n文书鉴定\t文書鑑定\n文了\t文了\n文件旅游\t文件旅遊\n文件柜\t文件櫃\n文修武偃\t文修武偃\n文修武备\t文修武備\n文创志业\t文創志業\n文化体系\t文化體系\n文化冲击\t文化衝擊\n文化斗争\t文化鬥爭\n文化水准\t文化水準\n文同\t文同\n文君当垆\t文君當壚\n文坛\t文壇\n文坛人士\t文壇人士\n文复会\t文復會\n文学系\t文學系\n文彩\t文彩\n文征明\t文徵明\n文心雕龙\t文心雕龍\n文思泉涌\t文思泉湧\n文情并茂\t文情並茂\n文才\t文才\n文擅雕龙\t文擅雕龍\n文斯范恩\t文斯范恩\n文星和合\t文星和合\n文曲\t文曲\n文曲星\t文曲星\n文本里\t文本裡\n文武全才\t文武全才\n文武合一\t文武合一\n文汇报\t文匯報\n文汇阁\t文匯閣\n文炳雕龙\t文炳雕龍\n文种\t文種\n文章星斗\t文章星斗\n文致\t文致\n文艺复兴\t文藝復興\n文艺演出\t文藝演出\n文表\t文表\n文身断发\t文身斷髮\n文选烂秀才半\t文選爛秀才半\n文采\t文采\n文采出众\t文采出眾\n文采郁郁\t文采郁郁\n文采风流\t文采風流\n文鉴\t文鑑\n文锦覆阱\t文錦覆阱\n文面\t文面\n斋坛\t齋壇\n斋栗\t齋慄\n斋舍\t齋舍\n斐然向风\t斐然向風\n斑岩\t斑岩\n斗一斗\t鬥一鬥\n斗上\t鬥上\n斗上一斗\t鬥上一鬥\n斗不过\t鬥不過\n斗丽\t鬥麗\n斗了\t鬥了\n斗了一斗\t鬥了一鬥\n斗了起来\t鬥了起來\n斗争\t鬥爭\n斗争大会\t鬥爭大會\n斗争形式\t鬥爭形式\n斗争性\t鬥爭性\n斗争意志\t鬥爭意志\n斗争斗合\t鬥爭鬥合\n斗争方式\t鬥爭方式\n斗他一斗\t鬥他一鬥\n斗倒\t鬥倒\n斗储\t斗儲\n斗六\t斗六\n斗六市\t斗六市\n斗内力\t鬥內力\n斗分子\t鬥分子\n斗别气\t鬥彆氣\n斗力\t鬥力\n斗力不如斗智\t鬥力不如鬥智\n斗劲\t鬥勁\n斗十余\t鬥十餘\n斗升\t斗升\n斗升之水\t斗升之水\n斗升之禄\t斗升之祿\n斗南\t斗南\n斗南一人\t斗南一人\n斗南镇\t斗南鎮\n斗叠\t鬥疊\n斗口\t鬥口\n斗口齿\t鬥口齒\n斗叶儿\t鬥葉兒\n斗叶子\t鬥葉子\n斗合\t鬥合\n斗哄\t鬥鬨\n斗嘴\t鬥嘴\n斗地主\t鬥地主\n斗城\t斗城\n斗士\t鬥士\n斗大\t斗大\n斗大的手卷\t斗大的手卷\n斗大的馒头\t斗大的饅頭\n斗头\t鬥頭\n斗她一斗\t鬥她一鬥\n斗姆\t斗姆\n斗子\t斗子\n斗室\t斗室\n斗室生辉\t斗室生輝\n斗宿\t斗宿\n斗富\t鬥富\n斗小马\t斗小馬\n斗尾港\t斗尾港\n斗居\t斗居\n斗山\t斗山\n斗巧\t鬥巧\n斗巧争奇\t鬥巧爭奇\n斗帐\t斗帳\n斗幌子\t鬥幌子\n斗店\t斗店\n斗府\t斗府\n斗弄\t鬥弄\n斗引\t鬥引\n斗彩\t鬥彩\n斗很\t鬥很\n斗心眼\t鬥心眼\n斗志\t鬥志\n斗志昂扬\t鬥志昂揚\n斗志高昂\t鬥志高昂\n斗成\t鬥成\n斗打\t鬥打\n斗批改\t鬥批改\n斗技\t鬥技\n斗折蛇行\t斗折蛇行\n斗拱\t斗拱\n斗数\t斗數\n斗文\t鬥文\n斗斋\t斗齋\n斗斗\t鬥鬥\n斗斗嘴\t鬥鬥嘴\n斗斛之禄\t斗斛之祿\n斗方\t斗方\n斗方名士\t斗方名士\n斗星官\t斗星官\n斗智\t鬥智\n斗智不斗力\t鬥智不鬥力\n斗智斗力\t鬥智鬥力\n斗暴\t鬥暴\n斗木獬\t斗木獬\n斗杓\t斗杓\n斗杓东指\t斗杓東指\n斗杓转势\t斗杓轉勢\n斗来斗去\t鬥來鬥去\n斗极\t斗極\n斗柄\t斗柄\n斗栱\t斗栱\n斗概\t斗概\n斗武\t鬥武\n斗殴\t鬥毆\n斗母\t斗母\n斗气\t鬥氣\n斗沟子\t斗溝子\n斗法\t鬥法\n斗渠\t斗渠\n斗灯\t斗燈\n斗烟丝\t斗菸絲\n斗然\t斗然\n斗牌\t鬥牌\n斗牙拌齿\t鬥牙拌齒\n斗牙斗齿\t鬥牙鬥齒\n斗牛\t鬥牛\n斗牛㹴\t鬥牛㹴\n斗牛之间\t斗牛之間\n斗牛场\t鬥牛場\n斗牛士\t鬥牛士\n斗牛士之歌\t鬥牛士之歌\n斗牛梗\t鬥牛梗\n斗牛赛\t鬥牛賽\n斗牛阵\t鬥牛陣\n斗犀台\t鬥犀臺\n斗犬\t鬥犬\n斗狠\t鬥狠\n斗百余\t鬥百餘\n斗百草\t鬥百草\n斗的\t斗的\n斗真\t斗真\n斗眼\t鬥眼\n斗私批修\t鬥私批修\n斗笠\t斗笠\n斗筲\t斗筲\n斗筲之人\t斗筲之人\n斗筲之器\t斗筲之器\n斗筲之徒\t斗筲之徒\n斗筲之才\t斗筲之才\n斗筲之材\t斗筲之材\n斗筲之辈\t斗筲之輩\n斗筲小器\t斗筲小器\n斗筲役\t斗筲役\n斗筲穿窬\t斗筲穿窬\n斗箕\t斗箕\n斗篷\t斗篷\n斗粟囊金\t斗粟囊金\n斗粟尺布\t斗粟尺布\n斗纹\t斗紋\n斗绝\t斗絕\n斗绝一隅\t斗絕一隅\n斗罗大陆\t斗羅大陸\n斗而铸兵\t鬥而鑄兵\n斗而铸锥\t鬥而鑄錐\n斗胆\t斗膽\n斗胜\t鬥勝\n斗脚\t鬥腳\n斗舰\t鬥艦\n斗艳\t鬥艷\n斗艳争芳\t鬥艷爭芳\n斗茶\t鬥茶\n斗草\t鬥草\n斗蓬装\t斗蓬裝\n斗薮\t斗藪\n斗蟋蟀\t鬥蟋蟀\n斗话\t鬥話\n斗起\t鬥起\n斗起来\t鬥起來\n斗趣\t鬥趣\n斗趣儿\t鬥趣兒\n斗车\t斗車\n斗转\t斗轉\n斗转参横\t斗轉參橫\n斗转星移\t斗轉星移\n斗酒\t斗酒\n斗酒博凉州\t斗酒博涼州\n斗酒只鸡\t斗酒隻雞\n斗酒学士\t斗酒學士\n斗酒百篇\t斗酒百篇\n斗重山齐\t斗重山齊\n斗量\t斗量\n斗量车载\t斗量車載\n斗门\t斗門\n斗门区\t斗門區\n斗闲气\t鬥閒氣\n斗闷\t鬥悶\n斗闷子\t鬥悶子\n斗阵\t鬥陣\n斗雪红\t鬥雪紅\n斗顿\t斗頓\n斗风\t鬥風\n斗食\t斗食\n斗饤\t鬥飣\n斗香\t斗香\n斗魁\t斗魁\n斗鱼\t鬥魚\n斗鸡\t鬥雞\n斗鸡台\t鬥雞臺\n斗鸡场\t鬥雞場\n斗鸡眼\t鬥雞眼\n斗鸡走狗\t鬥雞走狗\n斗鸡走马\t鬥雞走馬\n斗鸭\t鬥鴨\n斗鹌鹑\t鬥鵪鶉\n料不准\t料不準\n料前不能料后\t料前不能料後\n料敌制胜\t料敵制勝\n料斗\t料斗\n斜了\t斜了\n斜对面\t斜對面\n斜座标系\t斜座標系\n斜曲\t斜曲\n斜杠\t斜槓\n斜管面\t斜管麵\n斜纹布\t斜紋布\n斜谷\t斜谷\n斜面\t斜面\n斤斗\t斤斗\n斥卤\t斥鹵\n斩尽\t斬盡\n斩尽杀绝\t斬盡殺絕\n斩获\t斬獲\n斫雕为朴\t斫雕為樸\n断不了\t斷不了\n断了\t斷了\n断仇谷\t斷仇谷\n断发\t斷髮\n断发文身\t斷髮文身\n断后\t斷後\n断后路\t斷後路\n断头台\t斷頭臺\n断弦\t斷絃\n断念\t斷念\n断根绝种\t斷根絕種\n断烟\t斷煙\n断种\t斷種\n断纸余墨\t斷紙餘墨\n断钗重合\t斷釵重合\n断雨残云\t斷雨殘雲\n断面\t斷面\n断面图\t斷面圖\n斯伯丁杯\t斯伯丁盃\n斯克\t斯克\n斯坦贝克\t斯坦貝克\n斯干\t斯干\n斯当东\t斯當東\n斯托\t斯托\n斯托肯立石圈\t斯托肯立石圈\n斯摩棱斯克\t斯摩稜斯克\n斯杯\t斯杯\n斯洛伐克\t斯洛伐克\n斯洛伐克共和国\t斯洛伐克共和國\n斯洛伐克语\t斯洛伐克語\n斯瓦希里\t斯瓦希里\n斯瓦希里语\t斯瓦希里語\n斯瓦特谷地\t斯瓦特谷地\n斯科普里\t斯科普里\n斯芬克士\t斯芬克士\n斯芬克斯\t斯芬克斯\n斯诺克\t斯諾克\n斯迪里\t斯迪里\n斯里\t斯里\n斯里兰卡\t斯里蘭卡\n斯里兰卡电信\t斯里蘭卡電信\n";

/// Part 80 of the text.
pub const ST_PHRASES_80: &'static str = "斯里巴加湾港\t斯里巴加灣港\n斯里查潘\t斯里查潘\n斯雷布雷尼察\t斯雷布雷尼察\n斯须\t斯須\n新不伦瑞克\t新不倫瑞克\n新丰\t新豐\n新丰乡\t新豐鄉\n新丰县\t新豐縣\n新丰酒\t新豐酒\n新书看板\t新書看板\n新余\t新余\n新余市\t新余市\n新修本草\t新修本草\n新党\t新黨\n新几内亚\t新幾內亞\n新几内亚岛\t新幾內亞島\n新出\t新出\n新出土\t新出土\n新出土儿\t新出土兒\n新出手儿\t新出手兒\n新出来\t新出來\n新出炉\t新出爐\n新出生\t新出生\n新制\t新制\n新制度\t新制度\n新剧同志会\t新劇同志會\n新单曲\t新單曲\n新历\t新曆\n新历史\t新歷史\n新发\t新發\n新发明\t新發明\n新发村\t新發村\n新台\t新臺\n新台币\t新臺幣\n新叶\t新葉\n新喀里多尼亚\t新喀里多尼亞\n新城电台\t新城電臺\n新娘\t新娘\n新娘子\t新娘子\n新娘花\t新娘花\n新娘车\t新娘車\n新娘进了房媒人扔过墙\t新娘進了房媒人扔過牆\n新婚不如远别\t新婚不如遠別\n新嫁娘\t新嫁娘\n新局面\t新局面\n新干\t新幹\n新干县\t新幹縣\n新干线\t新幹線\n新庄\t新莊\n新庄市\t新莊市\n新征\t新徵\n新德里\t新德里\n新慕道团\t新慕道團\n新扎\t新紮\n新技术\t新技術\n新报台\t新報臺\n新斯科舍\t新斯科舍\n新曲\t新曲\n新板特区\t新板特區\n新注音\t新注音\n新注音输入法\t新注音輸入法\n新潮流系\t新潮流系\n新疆回变\t新疆回變\n新疆师范大学\t新疆師範大學\n新秋\t新秋\n新竹师范学院\t新竹師範學院\n新系\t新系\n新纪录\t新紀錄\n新罕布夏\t新罕布夏\n新胜利\t新勝利\n新艺术\t新藝術\n新艺综合体\t新藝綜合體\n新芬党\t新芬黨\n新药\t新藥\n新莺出谷\t新鶯出谷\n新规范\t新規範\n新闻价值\t新聞價值\n新闻出版总署\t新聞出版總署\n新闻发布会\t新聞發佈會\n新闻发言人\t新聞發言人\n新闻台\t新聞臺\n新闻周刊\t新聞週刊\n新闻杂志\t新聞雜誌\n新闻系\t新聞系\n新集团\t新集團\n新面孔\t新面孔\n斲雕为朴\t斲雕為樸\n方便面\t方便麵\n方公里\t方公里\n方几\t方几\n方向\t方向\n方向仪\t方向儀\n方向性\t方向性\n方向感\t方向感\n方向灯\t方向燈\n方向盘\t方向盤\n方向线\t方向線\n方向舵\t方向舵\n方圆十里\t方圓十里\n方岳\t方岳\n方彩绫\t方彩綾\n方志\t方誌\n方志友\t方志友\n方志贤\t方志賢\n方才\t方才\n方斯蔑如\t方斯蔑如\n方方面面\t方方面面\n方术\t方術\n方济谷派\t方濟谷派\n方胜\t方勝\n方药\t方藥\n方言志\t方言志\n方里\t方里\n方针\t方針\n方面\t方面\n方面兼圻\t方面兼圻\n方面大耳\t方面大耳\n方面官\t方面官\n方面官员\t方面官員\n於夫罗\t於夫羅\n施于\t施於\n施仁布德\t施仁佈德\n施仁布恩\t施仁佈恩\n施仁布泽\t施仁佈澤\n施佳升\t施佳昇\n施出\t施出\n施恩布德\t施恩佈德\n施放烟火\t施放煙火\n施朱傅粉\t施朱傅粉\n施瓦布\t施瓦布\n施粥舍饭\t施粥捨飯\n施耐庵\t施耐庵\n施舍\t施捨\n施舍之道\t施舍之道\n施药\t施藥\n施诺布莉琪\t施諾布莉琪\n旁出\t旁出\n旁征\t旁徵\n旁征博引\t旁徵博引\n旁注\t旁註\n旁系\t旁系\n旁系亲\t旁系親\n旁系亲属\t旁系親屬\n旁系血亲\t旁系血親\n旁观者审当局者迷\t旁觀者審當局者迷\n旅历\t旅歷\n旅游\t旅遊\n旅游业\t旅遊業\n旅游书\t旅遊書\n旅游事业\t旅遊事業\n旅游区\t旅遊區\n旅游卡\t旅遊卡\n旅游史\t旅遊史\n旅游团\t旅遊團\n旅游城市\t旅遊城市\n旅游客\t旅遊客\n旅游局\t旅遊局\n旅游局长\t旅遊局長\n旅游展\t旅遊展\n旅游手册\t旅遊手冊\n旅游景点\t旅遊景點\n旅游村\t旅遊村\n旅游点\t旅遊點\n旅游热点\t旅遊熱點\n旅游界\t旅遊界\n旅游社\t旅遊社\n旅游线\t旅遊線\n旅游网\t旅遊網\n旅游者\t旅遊者\n旅游胜地\t旅遊勝地\n旅游集散\t旅遊集散\n旅游馆\t旅遊館\n旅社里\t旅社裡\n旅程表\t旅程表\n旅舍\t旅舍\n旅行剧团\t旅行劇團\n旅行团\t旅行團\n旅行社里\t旅行社裡\n旋回\t旋迴\n旋干转坤\t旋乾轉坤\n旋松\t旋鬆\n旋毛虫\t旋毛蟲\n旋胡\t旋胡\n旋转乾坤\t旋轉乾坤\n旋转乾坤之力\t旋轉乾坤之力\n旋转台\t旋轉臺\n旋转曲面\t旋轉曲面\n旋转极\t旋轉極\n旋辟\t旋辟\n旋里\t旋里\n旌别\t旌別\n旌善惩恶\t旌善懲惡\n旌恤\t旌卹\n旌表\t旌表\n旍表\t旍表\n族党\t族黨\n族里\t族裡\n旗开得胜\t旗開得勝\n旗杆\t旗杆\n旗杆上绑鸡毛\t旗杆上綁雞毛\n旗鼓相当\t旗鼓相當\n旛胜\t旛勝\n无一幸免\t無一倖免\n无业游民\t無業遊民\n无业闲散\t無業閒散\n无主尸\t無主屍\n无了无休\t無了無休\n无云\t無雲\n无以复加\t無以復加\n无价\t無價\n无价之宝\t無價之寶\n无价事\t無价事\n无价宝\t無價寶\n无价珍珠\t無價珍珠\n无伴奏合唱\t無伴奏合唱\n无余\t無餘\n无偏无党\t無偏無黨\n无党\t無黨\n无党无偏\t無黨無偏\n无党无派\t無黨無派\n无党派\t無黨派\n无党派投票人\t無黨派投票人\n无党籍\t無黨籍\n无农药\t無農藥\n无冤无仇\t無冤無仇\n无冬无夏\t無冬無夏\n无几\t無幾\n无凭无据\t無憑無據\n无出\t無出\n无出其右\t無出其右\n无动于衷\t無動於衷\n无助于\t無助於\n无千大万\t無千大萬\n无千带数\t無千帶數\n无千无万\t無千無萬\n无厘头\t無厘頭\n无取胜希望者\t無取勝希望者\n无可救药\t無可救藥\n无后\t無後\n无后为大\t無後為大\n无回豁\t無回豁\n无复孑遗\t無復孑遺\n无头愿\t無頭願\n无尽\t無盡\n无尽无休\t無盡無休\n无尽无穷\t無盡無窮\n无尽缘起\t無盡緣起\n无尽藏\t無盡藏\n无尿症\t無尿症\n无干\t無干\n无序\t無序\n无店面\t無店面\n无异于\t無異於\n无形输出\t無形輸出\n无征不信\t無徵不信\n无念\t無念\n无恶不作\t無惡不作\n无愧于\t無愧於\n无所不用其极\t無所不用其極\n无所牵挂\t無所牽掛\n无所适从\t無所適從\n无挂无碍\t無掛無礙\n无损于\t無損於\n无据\t無據\n无敌不克\t無敵不克\n无期别\t無期別\n无机化合物\t無機化合物\n无极\t無極\n无极县\t無極縣\n无核\t無核\n无梁\t無樑\n无梁斗\t無樑斗\n无梁楼盖\t無樑樓蓋\n无欲\t無慾\n无欲则刚\t無欲則剛\n无止尽\t無止盡\n无法克制\t無法剋制\n无法挽救\t無法挽救\n无济于事\t無濟於事\n无烟\t無煙\n无烟囱工业\t無煙囪工業\n无烟火药\t無煙火藥\n无烟炭\t無煙炭\n无烟焦煤\t無煙焦煤\n无烟煤\t無煙煤\n无牵无挂\t無牽無掛\n无畏于\t無畏於\n无畏布施\t無畏佈施\n无穷尽\t無窮盡\n无穷无尽\t無窮無盡\n无精打采\t無精打采\n无线新闻台\t無線新聞台\n无线电台\t無線電臺\n无缘见面\t無緣見面\n无花果干\t無花果乾\n无药\t無藥\n无药可救\t無藥可救\n无补于世\t無補於世\n无补于事\t無補於事\n无补于时\t無補於時\n无表情\t無表情\n无视于\t無視於\n无言不仇\t無言不讎\n无计向\t無計向\n无足挂齿\t無足掛齒\n无适无莫\t無適無莫\n无针不引线\t無針不引線\n无针注射器\t無針注射器\n无钩绦虫\t無鉤絛蟲\n无限制\t無限制\n无限制作\t無限製作\n无限制造\t無限製造\n无面值邮票\t無面值郵票\n无面目\t無面目\n无须\t無須\n";

/// Part 81 of the text.
pub const ST_PHRASES_81: &'static str = "既得陇复望蜀\t既得隴復望蜀\n既是\t既是\n既有今日何必当初\t既有今日何必當初\n日久弥新\t日久彌新\n日出\t日出\n日出万言必有一伤\t日出萬言必有一傷\n日出三竿\t日出三竿\n日出日落\t日出日落\n日出而作\t日出而作\n日出而作日入而息\t日出而作日入而息\n日制\t日製\n日升\t日升\n日升月恒\t日升月恆\n日占\t日佔\n日历\t日曆\n日历年度\t日曆年度\n日历纸\t日曆紙\n日历表\t日曆表\n日后\t日後\n日均价\t日均價\n日复一日\t日復一日\n日头打西出来\t日頭打西出來\n日子里\t日子裡\n日干\t日干\n日干夜干\t日幹夜幹\n日御\t日御\n日志\t日誌\n日据\t日據\n日据时代\t日據時代\n日文系\t日文系\n日晒\t日曬\n日月升恒\t日月升恆\n日月参辰\t日月參辰\n日月合璧\t日月合璧\n日本共产党\t日本共產黨\n日本共同社\t日本共同社\n日本制\t日本製\n日本台\t日本臺\n日本团\t日本團\n日本国志\t日本國誌\n日本社会党\t日本社會黨\n日正当中\t日正當中\n日比谷公园\t日比谷公園\n日游\t日遊\n日理万机\t日理萬機\n日番谷\t日番谷\n日知录\t日知錄\n日程表\t日程表\n日系\t日系\n日行千里\t日行千里\n日表\t日表\n日试万言\t日試萬言\n日语系\t日語系\n日趋恶劣\t日趨惡劣\n日转千街\t日轉千街\n日转千阶\t日轉千階\n日进斗金\t日進斗金\n日里\t日里\n日里雪冷\t日里雪冷\n日锻月炼\t日鍛月煉\n日食万钱\t日食萬錢\n旧公烟\t舊公煙\n旧制\t舊制\n旧制度\t舊制度\n旧厂\t舊廠\n旧历\t舊曆\n旧历史\t舊歷史\n旧历年\t舊曆年\n旧地重游\t舊地重遊\n旧庄\t舊莊\n旧念复萌\t舊念復萌\n旧态复萌\t舊態復萌\n旧恨新仇\t舊恨新仇\n旧恶\t舊惡\n旧游\t舊遊\n旧疾复发\t舊疾復發\n旧病复发\t舊病復發\n旧症\t舊症\n旧皇历\t舊皇曆\n旧药\t舊藥\n旧表\t舊錶\n旧钟\t舊鐘\n旧钟表\t舊鐘錶\n早了\t早了\n早于\t早於\n早借\t早借\n早借早还\t早借早還\n早出\t早出\n早出晚归\t早出晚歸\n早动手早收获\t早動手早收穫\n早占勿药\t早占勿藥\n早去早回\t早去早回\n早参\t早參\n早名必折\t早名必折\n早日康复\t早日康復\n早有计划\t早有計劃\n早知今日何必当初\t早知今日何必當初\n早知今日悔不当初\t早知今日悔不當初\n早秋\t早秋\n早自修\t早自修\n早起的鸟儿有虫吃\t早起的鳥兒有蟲吃\n旭日东升\t旭日東昇\n旭日初升\t旭日初昇\n旱干\t旱乾\n旱烟\t旱菸\n旱烟筒\t旱菸筒\n旱烟袋\t旱菸袋\n时代不同风尚不同\t時代不同風尚不同\n时代周刊\t時代週刊\n时价\t時價\n时刻准备\t時刻準備\n时刻表\t時刻表\n时后\t時後\n时和岁丰\t時和歲豐\n时和年丰\t時和年豐\n时宪历\t時憲曆\n时尚周\t時尚週\n时干下\t時幹下\n时念\t時念\n时报周刊\t時報週刊\n时报杂志\t時報雜誌\n时症\t時症\n时程表\t時程表\n时紧时松\t時緊時鬆\n时装周\t時裝週\n时装表演\t時裝表演\n时针\t時針\n时钟\t時鐘\n时钟座\t時鐘座\n时间电价\t時間電價\n时间艺术\t時間藝術\n时间范围\t時間範圍\n时间表\t時間表\n时间里\t時間裡\n旷世之才\t曠世之才\n旷世奇才\t曠世奇才\n旷世逸才\t曠世逸才\n旷日弥久\t曠日彌久\n旷若发蒙\t曠若發矇\n旷荡\t曠蕩\n旷课记录\t曠課記錄\n旸谷\t暘谷\n昂纳克\t昂納克\n昆仑\t崑崙\n昆仑奴\t崑崙奴\n昆仑奴传\t崑崙奴傳\n昆仑山\t崑崙山\n昆仑山脉\t崑崙山脈\n昆剧\t崑劇\n昆宁佩克\t昆寧佩克\n昆山\t崑山\n昆布\t昆布\n昆曲\t崑曲\n昆玉\t崑玉\n昆腔\t崑腔\n昆苏\t崑蘇\n昆虫\t昆蟲\n昆虫学\t昆蟲學\n昆虫学家\t昆蟲學家\n昆虫纲\t昆蟲綱\n昆调\t崑調\n昆都仑\t昆都侖\n昆都仑区\t昆都侖區\n昊天不吊\t昊天不弔\n昊天罔极\t昊天罔極\n昌吉回族自治州\t昌吉回族自治州\n明中舍去暗中来\t明中捨去暗中來\n明了\t明瞭\n明争暗斗\t明爭暗鬥\n明于\t明於\n明于观人\t明於觀人\n明人不做暗事\t明人不做暗事\n明人不说暗话\t明人不說暗話\n明伙画供\t明伙畫供\n明修栈道\t明修棧道\n明修栈道暗渡陈仓\t明修棧道暗渡陳倉\n明升暗降\t明升暗降\n明华园歌剧团\t明華園歌劇團\n明发\t明發\n明台\t明臺\n明后\t明後\n明后天\t明後天\n明复\t明覆\n明夷待访录\t明夷待訪錄\n明媚闲雅\t明媚閒雅\n明实录\t明實錄\n明察暗访\t明察暗訪\n明察秋毫\t明察秋毫\n明尼苏大学\t明尼蘇大學\n明尼苏达\t明尼蘇達\n明尼苏达州\t明尼蘇達州\n明岗暗哨\t明崗暗哨\n明师出高徒\t明師出高徒\n明并日月\t明並日月\n明弃暗取\t明棄暗取\n明当\t明當\n明征\t明徵\n明志\t明志\n明志工专\t明志工專\n明志工业\t明志工業\n明志工业专科学校\t明志工業專科學校\n明扣\t明釦\n明据\t明據\n明摆\t明擺\n明摆着\t明擺著\n明斯克\t明斯克\n明是一盆火暗是一把刀\t明是一盆火暗是一把刀\n明暗\t明暗\n明暗不定\t明暗不定\n明月当空\t明月當空\n明杠\t明槓\n明来暗往\t明來暗往\n明板\t明板\n明枪好躲暗箭难防\t明槍好躲暗箭難防\n明枪容易躲暗剑最难防\t明鎗容易躲暗劍最難防\n明枪容易躲暗箭最难防\t明鎗容易躲暗箭最難防\n明枪易趓暗箭难防\t明槍易趓暗箭難防\n明枪易躲暗箭难逃\t明鎗易躲暗箭難逃\n明枪易躲暗箭难防\t明槍易躲暗箭難防\n明枪暗箭\t明槍暗箭\n明查暗访\t明查暗訪\n明欺暗骗\t明欺暗騙\n明沟暗渠\t明溝暗渠\n明潭抽蓄水力发电工程\t明潭抽蓄水力發電工程\n明珠暗投\t明珠暗投\n明白了当\t明白了當\n明目张胆\t明目張膽\n明知就里\t明知就裡\n明知山有虎偏向虎山行\t明知山有虎偏向虎山行\n明知山有虎故作采樵人\t明知山有虎故作採樵人\n明确\t明確\n明确性\t明確性\n明窗净几\t明窗淨几\n明窗彩户\t明窗彩戶\n明细表\t明細表\n明者视于无形聪者听于无声\t明者視於無形聰者聽於無聲\n明范\t明範\n明见万里\t明見萬里\n明里\t明裡\n明鉴\t明鑑\n明鉴万里\t明鑑萬里\n明鉴秋毫\t明鑑秋毫\n明降暗升\t明降暗升\n昏了\t昏了\n昏困\t昏困\n昏天暗地\t昏天暗地\n昏头转向\t昏頭轉向\n昏昏暗暗\t昏昏暗暗\n昏昏欲睡\t昏昏欲睡\n昏暗\t昏暗\n昏沉\t昏沉\n易于\t易於\n易于反掌\t易於反掌\n易克制\t易剋制\n易卜拉辛\t易卜拉辛\n易卜生\t易卜生\n易发难收\t易發難收\n易学启蒙\t易學啟蒙\n易容术\t易容術\n易游网\t易遊網\n易熔合金\t易熔合金\n星云\t星雲\n星占学\t星占學\n星历\t星曆\n星历表\t星曆錶\n星回\t星迴\n星团\t星團\n星巴克\t星巴克\n星彩\t星彩\n星彩正彩\t星彩正彩\n星斗\t星斗\n星期几\t星期幾\n星期后\t星期後\n星术\t星術\n星点弹涂\t星點彈塗\n星相术\t星相術\n星移斗换\t星移斗換\n星移斗转\t星移斗轉\n星系\t星系\n星罗云布\t星羅雲佈\n星罗云散\t星羅雲散\n星罗棋布\t星羅棋佈\n星落云散\t星落雲散\n星虫\t星蟲\n星表\t星表\n星象恶曜\t星象惡曜\n星辰表\t星辰錶\n星露谷物语\t星露谷物語\n星驰电发\t星馳電發\n映入眼帘\t映入眼簾\n映出\t映出\n映照出\t映照出\n映照出来\t映照出來\n";

/// Part 82 of the text.
pub const ST_PHRASES_82: &'static str = "春假里\t春假裡\n春兰秋菊\t春蘭秋菊\n春华秋实\t春華秋實\n春卷\t春捲\n春卷皮\t春捲皮\n春去秋来\t春去秋來\n春台\t春臺\n春回大地\t春回大地\n春困\t春困\n春困秋乏\t春困秋乏\n春夏秋冬\t春夏秋冬\n春天里\t春天裡\n春宵一刻值千金\t春宵一刻值千金\n春心荡漾\t春心蕩漾\n春日里\t春日裡\n春来秋去\t春來秋去\n春树暮云\t春樹暮雲\n春武里府\t春武里府\n春游\t春遊\n春生夏长秋收冬藏\t春生夏長秋收冬藏\n春生秋杀\t春生秋殺\n春祈秋报\t春祈秋報\n春秋\t春秋\n春秋三传\t春秋三傳\n春秋五霸\t春秋五霸\n春秋儿\t春秋兒\n春秋几何\t春秋幾何\n春秋大一统\t春秋大一統\n春秋大梦\t春秋大夢\n春秋左氏传\t春秋左氏傳\n春秋战国\t春秋戰國\n春秋战国时代\t春秋戰國時代\n春秋日高\t春秋日高\n春秋时代\t春秋時代\n春秋榜\t春秋榜\n春秋笔削\t春秋筆削\n春秋笔法\t春秋筆法\n春秋繁露\t春秋繁露\n春秋配\t春秋配\n春秋鼎盛\t春秋鼎盛\n春笋怒发\t春筍怒發\n春纤\t春纖\n春胜\t春勝\n春花秋月\t春花秋月\n春药\t春藥\n春蚓秋蛇\t春蚓秋蛇\n春露秋霜\t春露秋霜\n春风满面\t春風滿面\n春风面\t春風面\n春香斗学\t春香鬥學\n昧于\t昧於\n昧于事理\t昧於事理\n昧谷\t昧谷\n昨夜里\t昨夜裡\n昨天夜里\t昨天夜裡\n昨日里\t昨日裡\n昭君出塞\t昭君出塞\n昭回\t昭回\n昭苏\t昭蘇\n昭苏县\t昭蘇縣\n是个\t是個\n是只\t是隻\n是只做\t是只做\n是只够\t是只夠\n是只存在\t是只存在\n是只怀疑\t是只懷疑\n是只怕\t是只怕\n是只执行\t是只執行\n是只摸\t是只摸\n是只是\t是只是\n是只有\t是只有\n是只派\t是只派\n是只用\t是只用\n是只给\t是只給\n是只能\t是只能\n是只要\t是只要\n是只需\t是只需\n是只靠\t是只靠\n是只顾\t是只顧\n是念\t是念\n是海里\t是海裡\n是罐子也有两个耳朵\t是罐子也有兩個耳朵\n是非只为多开口\t是非只為多開口\n是非善恶\t是非善惡\n是非曲直\t是非曲直\n是须\t是須\n昴宿星团\t昴宿星團\n昴星团\t昴星團\n昼伏夜出\t晝伏夜出\n昼伏夜游\t晝伏夜游\n显出\t顯出\n显微手术\t顯微手術\n显摆\t顯擺\n显现出\t顯現出\n显现出来\t顯現出來\n显着标志\t顯著標志\n显示出\t顯示出\n显示出来\t顯示出來\n显示板\t顯示板\n显示表\t顯示錶\n显示钟\t顯示鐘\n显示钟表\t顯示鐘錶\n显著\t顯著\n显著标志\t顯著標志\n显露出\t顯露出\n显露出来\t顯露出來\n晃了\t晃了\n晃晃荡荡\t晃晃蕩蕩\n晃荡\t晃盪\n晋升\t晉升\n晋升为\t晉升為\n晋阳秋\t晉陽秋\n晏几道\t晏幾道\n晏子春秋\t晏子春秋\n晒伤\t曬傷\n晒台\t曬臺\n晒图\t曬圖\n晒图纸\t曬圖紙\n晒干\t曬乾\n晒成\t曬成\n晒晒\t曬曬\n晒烟\t曬菸\n晒种\t曬種\n晒衣\t曬衣\n晒谷\t曬穀\n晒谷场\t曬穀場\n晒黑\t曬黑\n晕台\t暈臺\n晕头转向\t暈頭轉向\n晕船药\t暈船藥\n晕血症\t暈血症\n晕车药\t暈車藥\n晕针\t暈針\n晚于\t晚於\n晚参\t晚參\n晚娘\t晚娘\n晚娘的拳头云里的日头\t晚娘的拳頭雲裡的日頭\n晚娘面孔\t晚娘面孔\n晚期癌症\t晚期癌症\n晚生后学\t晚生後學\n晚秋\t晚秋\n晚秋作物\t晚秋作物\n晚秋时节\t晚秋時節\n晚钟\t晚鐘\n晚食当肉\t晚食當肉\n晞发\t晞髮\n晤面\t晤面\n晦暗\t晦暗\n晦蒙\t晦蒙\n晨参暮省\t晨參暮省\n晨参暮礼\t晨參暮禮\n晨钟\t晨鐘\n晨钟暮鼓\t晨鐘暮鼓\n普冬冬\t普鼕鼕\n普列谢茨克\t普列謝茨克\n普列谢茨克卫星发射场\t普列謝茨克衛星發射場\n普利艾托\t普利艾托\n普勒托利亚\t普勒托利亞\n普勒斯威克\t普勒斯威克\n普同文化\t普同文化\n普天同庆\t普天同慶\n普奥同盟\t普奧同盟\n普庵咒\t普庵咒\n普庵老祖\t普庵老祖\n普拉斯尼克\t普拉斯尼克\n普拉玛娜苏达\t普拉瑪娜蘇達\n普拉齐克\t普拉齊克\n普普艺术\t普普藝術\n普朗克\t普朗克\n普朗克常数\t普朗克常數\n普氏立克次体\t普氏立克次體\n普罗扎克\t普羅扎克\n普莱克斯\t普萊克斯\n普里\t普里\n普里什蒂纳\t普里什蒂納\n普里切特\t普里切特\n普里斯特\t普里斯特\n普里斯特莱\t普里斯特萊\n普里斯莱\t普里斯萊\n普里斯蒂纳\t普里斯蒂納\n普里查德\t普里查德\n普里霍吉可\t普里霍吉可\n普隆克\t普隆克\n普雷克斯流程\t普雷克斯流程\n景云\t景雲\n景从云合\t景從雲合\n景从云集\t景從雲集\n景岳\t景岳\n景星庆云\t景星慶雲\n景胄\t景胄\n景致\t景緻\n景谷\t景谷\n景谷县\t景谷縣\n晴了\t晴了\n晴云秋月\t晴雲秋月\n晴时多云\t晴時多雲\n晴空万里\t晴空萬里\n晴转多云\t晴轉多雲\n晴雨表\t晴雨表\n晶体三极体\t晶體三極體\n晶体三极管\t晶體三極管\n晶体二极体\t晶體二極體\n晶体二极管\t晶體二極管\n晶体振荡\t晶體振盪\n晶圆厂\t晶圓廠\n晶核\t晶核\n晶系\t晶系\n晶面\t晶面\n智周\t智周\n智囊团\t智囊團\n智尽能索\t智盡能索\n智慧型车辆暨公路系统\t智慧型車輛暨公路系統\n智慧板\t智慧板\n智术\t智術\n智者千虑必有一失\t智者千慮必有一失\n晾干\t晾乾\n暂于\t暫於\n暂借\t暫借\n暂别\t暫別\n暂升\t暫升\n暂并列\t暫並列\n暂托\t暫託\n暂扣\t暫扣\n暂染发慕丝\t暫染髮慕絲\n暌合\t暌合\n暑修\t暑修\n暑修班\t暑修班\n暑假里\t暑假裡\n暖云兜\t暖雲兜\n暖冬\t暖冬\n暖厂\t暖廠\n暖帘\t暖簾\n暖气团\t暖氣團\n暖种\t暖種\n暖色系\t暖色系\n暖荡撩锅\t暖盪撩鍋\n暗下去\t暗下去\n暗下来\t暗下來\n暗中\t暗中\n暗中作怪\t暗中作怪\n暗中摸索\t暗中摸索\n暗中监视\t暗中監視\n暗中行事\t暗中行事\n暗九\t暗九\n暗乱\t闇亂\n暗了\t暗了\n暗了下来\t暗了下來\n暗事\t暗事\n暗井\t暗井\n暗付\t暗付\n暗伤\t暗傷\n暗伦\t闇倫\n暗光鸟\t暗光鳥\n暗公鸟\t暗公鳥\n暗冥\t闇冥\n暗到\t暗到\n暗劣\t闇劣\n暗反应\t暗反應\n暗叫\t暗叫\n暗叫一声\t暗叫一聲\n暗号\t暗號\n暗号灯\t暗號燈\n暗叹\t暗歎\n暗吃一惊\t暗吃一驚\n暗合\t暗合\n暗含\t暗含\n暗喜\t暗喜\n暗喻\t暗喻\n暗器\t暗器\n暗地\t暗地\n暗地里\t暗地裡\n暗场\t暗場\n暗堡\t暗堡\n暗处\t暗處\n暗娼\t暗娼\n暗室\t暗室\n暗室不欺\t暗室不欺\n暗室亏心\t暗室虧心\n暗室可欺\t暗室可欺\n暗室私心\t暗室私心\n暗室逢灯\t暗室逢燈\n暗害\t暗害\n暗察明访\t暗察明訪\n暗射\t暗射\n暗射地图\t暗射地圖\n暗屋\t暗屋\n暗巷\t暗巷\n暗底下\t暗底下\n暗度陈仓\t暗度陳倉\n暗弱\t闇弱\n暗影\t暗影\n暗得\t暗得\n暗忖\t暗忖\n暗念\t暗念\n暗恋\t暗戀\n暗想\t暗想\n暗房\t暗房\n暗扣\t暗釦\n暗指\t暗指\n暗探\t暗探\n暗操贱业\t暗操賤業\n暗斗\t暗鬥\n暗无天日\t暗無天日\n暗昧\t闇昧\n暗暗\t暗暗\n暗暗淡淡\t暗暗淡淡\n暗杀\t暗殺\n暗杀党\t暗殺黨\n暗杀案\t暗殺案\n暗杠\t暗槓\n暗格\t暗格\n暗格里\t暗格裡\n暗桩\t暗樁\n暗楼子\t暗樓子\n暗沉\t暗沉\n暗沉沉\t暗沉沉\n暗沟\t暗溝\n暗沟里\t暗溝裡\n暗河\t暗河\n暗泣\t暗泣\n暗流\t暗流\n暗浅\t闇淺\n暗涌\t暗湧\n暗淡\t暗淡\n暗淡无光\t暗淡無光\n暗渠\t暗渠\n暗渡陈仓\t暗渡陳倉\n暗滩\t暗灘\n暗潮\t暗潮\n暗潮汹涌\t暗潮洶湧\n暗澹\t暗澹\n";

/// Part 83 of the text.
pub const ST_PHRASES_83: &'static str = "暗火\t闇火\n暗灰色\t暗灰色\n暗然\t闇然\n暗然失色\t暗然失色\n暗电流\t暗電流\n暗疾\t暗疾\n暗的\t暗的\n暗盒\t暗盒\n暗盘\t暗盤\n暗盼\t暗盼\n暗码\t暗碼\n暗礁\t暗礁\n暗示\t暗示\n暗移\t暗移\n暗笑\t暗笑\n暗笑一声\t暗笑一聲\n暗算\t暗算\n暗管\t暗管\n暗箭\t暗箭\n暗箭中人\t暗箭中人\n暗箭伤人\t暗箭傷人\n暗箭明枪\t暗箭明鎗\n暗箭难防\t暗箭難防\n暗箱\t暗箱\n暗箱操作\t暗箱操作\n暗紫色\t暗紫色\n暗红\t暗紅\n暗红色\t暗紅色\n暗线\t暗線\n暗线光谱\t暗線光譜\n暗练\t暗練\n暗结珠胎\t暗結珠胎\n暗自\t暗自\n暗自流泪\t暗自流淚\n暗自神伤\t暗自神傷\n暗自窃喜\t暗自竊喜\n暗色\t暗色\n暗色彩\t暗色彩\n暗花儿\t暗花兒\n暗莫\t闇莫\n暗蓝发\t闇藍髮\n暗蔼\t暗藹\n暗藏\t暗藏\n暗藏春色\t暗藏春色\n暗藏玄机\t暗藏玄機\n暗藏着\t暗藏著\n暗藏鬼胎\t暗藏鬼胎\n暗虚\t暗虛\n暗行\t暗行\n暗袋\t暗袋\n暗褐\t暗褐\n暗褐色\t暗褐色\n暗计\t暗計\n暗记\t暗記\n暗记儿\t暗記兒\n暗记在心\t暗記在心\n暗讽\t暗諷\n暗访\t暗訪\n暗语\t暗語\n暗诵\t闇誦\n暗跳\t闇跳\n暗转\t暗轉\n暗边\t暗邊\n暗送\t暗送\n暗送秋波\t暗送秋波\n暗适应\t暗適應\n暗通\t暗通\n暗通款曲\t暗通款曲\n暗道\t暗道\n暗部\t暗部\n暗里\t暗裡\n暗锁\t暗鎖\n暗门\t暗門\n暗门子\t暗門子\n暗问\t暗問\n暗间儿\t暗間兒\n暗顺应\t暗順應\n暗香\t暗香\n暗香疏影\t暗香疏影\n暗骂\t暗罵\n暗黑\t暗黑\n暗黑王\t暗黑王\n暗黝\t暗黝\n暮云亲舍\t暮雲親舍\n暮云春树\t暮雲春樹\n暮烟\t暮煙\n暮礼晨参\t暮禮晨參\n暮秋\t暮秋\n暮雨朝云\t暮雨朝雲\n暮鼓晨钟\t暮鼓晨鐘\n暴发\t暴發\n暴发出来\t暴發出來\n暴发户\t暴發戶\n暴君焚城录\t暴君焚城錄\n暴尸于市\t暴屍於市\n暴扣\t暴扣\n暴敛横征\t暴斂橫徵\n暴晒\t暴曬\n暴腌\t暴醃\n暴露出\t暴露出\n暴露出来\t暴露出來\n暴面\t暴面\n暴食症\t暴食症\n曙后星孤\t曙後星孤\n曝光表\t曝光表\n曝晒\t曝曬\n曝露出\t曝露出\n曰云\t曰云\n曲从\t曲從\n曲体\t曲體\n曲别针\t曲別針\n曲匝\t曲匝\n曲卷\t曲捲\n曲台\t曲臺\n曲名\t曲名\n曲周\t曲周\n曲周县\t曲周縣\n曲园\t曲園\n曲士\t曲士\n曲媚取容\t曲媚取容\n曲子\t曲子\n曲学\t曲學\n曲学诐行\t曲學詖行\n曲学阿世\t曲學阿世\n曲室\t曲室\n曲宴\t曲宴\n曲射炮\t曲射炮\n曲尘\t麴塵\n曲尺\t曲尺\n曲尺楼梯\t曲尺樓梯\n曲尽人情\t曲盡人情\n曲尽其妙\t曲盡其妙\n曲局\t曲局\n曲希瑞\t曲希瑞\n曲庇\t曲庇\n曲度\t曲度\n曲式\t曲式\n曲张\t曲張\n曲径\t曲徑\n曲径通幽\t曲徑通幽\n曲律\t曲律\n曲心矫肚\t曲心矯肚\n曲意\t曲意\n曲意俯就\t曲意俯就\n曲意奉承\t曲意奉承\n曲意逢迎\t曲意逢迎\n曲房\t曲房\n曲折\t曲折\n曲折离奇\t曲折離奇\n曲折萦纡\t曲折縈紆\n曲拐\t曲拐\n曲拗\t曲拗\n曲挠\t曲撓\n曲曲\t曲曲\n曲曲弯弯\t曲曲彎彎\n曲曲折折\t曲曲折折\n曲本\t曲本\n曲松\t曲松\n曲松县\t曲松縣\n曲柄\t曲柄\n曲柄笠\t曲柄笠\n曲柄钻\t曲柄鑽\n曲栏\t曲欄\n曲棍\t曲棍\n曲棍球\t曲棍球\n曲棍球员\t曲棍球員\n曲棍球赛\t曲棍球賽\n曲水\t曲水\n曲水县\t曲水縣\n曲水流觞\t曲水流觴\n曲江\t曲江\n曲江区\t曲江區\n曲江县\t曲江縣\n曲江宴\t曲江宴\n曲江池\t曲江池\n曲池穴\t曲池穴\n曲沃\t曲沃\n曲沃县\t曲沃縣\n曲流\t曲流\n曲牌\t曲牌\n曲率\t曲率\n曲率向量\t曲率向量\n曲球\t曲球\n曲琼\t曲瓊\n曲生\t麴生\n曲盖\t曲蓋\n曲目\t曲目\n曲直\t曲直\n曲直分明\t曲直分明\n曲礼\t曲禮\n曲秀才\t麴秀才\n曲突徙薪\t曲突徙薪\n曲笔\t曲筆\n曲笛\t曲笛\n曲线\t曲線\n曲线图\t曲線圖\n曲线拟合\t曲線擬合\n曲线板\t曲線板\n曲线美\t曲線美\n曲线论\t曲線論\n曲线运动\t曲線運動\n曲终人散\t曲終人散\n曲终奏雅\t曲終奏雅\n曲绕\t曲繞\n曲肱为枕\t曲肱為枕\n曲肱之乐\t曲肱之樂\n曲肱而枕\t曲肱而枕\n曲背\t曲背\n曲膝礼\t曲膝禮\n曲臂\t曲臂\n曲致\t曲致\n曲艺\t曲藝\n曲艾玲\t曲艾玲\n曲菌\t麴菌\n曲薄\t曲薄\n曲蘖\t麴櫱\n曲蟮\t曲蟮\n曲裾\t曲裾\n曲解\t曲解\n曲话\t曲話\n曲说\t曲說\n曲调\t曲調\n曲谨\t曲謹\n曲谱\t曲譜\n曲赦\t曲赦\n曲躬躬\t曲躬躬\n曲车\t麴車\n曲轴\t曲軸\n曲辫子\t曲辮子\n曲道\t曲道\n曲道士\t麴道士\n曲道赛\t曲道賽\n曲酒\t麴酒\n曲里拐弯\t曲裡拐彎\n曲钱\t麴錢\n曲阜\t曲阜\n曲阜县\t曲阜縣\n曲阜孔庙\t曲阜孔廟\n曲阜市\t曲阜市\n曲阳\t曲陽\n曲阳县\t曲陽縣\n曲阻\t曲阻\n曲院\t麴院\n曲隐\t曲隱\n曲霉\t麴黴\n曲霉毒素\t麴黴毒素\n曲靖\t曲靖\n曲靖地区\t曲靖地區\n曲靖市\t曲靖市\n曲面\t曲面\n曲面论\t曲面論\n曲项目\t曲項目\n曲颈瓶\t曲頸瓶\n曲颈甑\t曲頸甑\n曲风\t曲風\n曲高和寡\t曲高和寡\n曲麻莱\t曲麻萊\n曲麻莱县\t曲麻萊縣\n曳尾泥涂\t曳尾泥塗\n曳尾涂中\t曳尾塗中\n更仆难数\t更僕難數\n更出\t更出\n更加规范\t更加規範\n更动表\t更動表\n更向\t更向\n更复\t更復\n更大范围\t更大範圍\n更当\t更當\n更待干罢\t更待干罷\n更愿\t更願\n更愿意\t更願意\n更换\t更換\n更甚于\t更甚於\n更签\t更籤\n更胜一筹\t更勝一籌\n更钟\t更鐘\n更须\t更須\n更鼓敲尽\t更鼓敲盡\n曷极\t曷極\n曹余章\t曹余章\n曹参\t曹參\n曹子里\t曹子里\n曹范街道\t曹范街道\n曹郁芬\t曹郁芬\n曹里\t曹里\n曼尼托巴省\t曼尼托巴省\n曼苏尔\t曼蘇爾\n曼谷\t曼谷\n曼谷人\t曼谷人\n曼谷包\t曼谷包\n曼谷市\t曼谷市\n曼谷邮报\t曼谷郵報\n曾于\t曾於\n曾几何时\t曾幾何時\n曾参\t曾參\n曾参杀人\t曾參殺人\n曾台霖\t曾臺霖\n曾孝谷\t曾孝谷\n曾志伟\t曾志偉\n曾志朗\t曾志朗\n曾朴\t曾樸\n曾母暗沙\t曾母暗沙\n曾砚闲\t曾硯閒\n替换\t替換\n最上面\t最上面\n最下面\t最下面\n最低价\t最低價\n最低谷\t最低谷\n最初几天\t最初幾天\n最初几年\t最初幾年\n最前面\t最前面\n最后\t最後\n最后一天\t最後一天\n最后审判\t最後審判\n最后晚餐\t最後晚餐\n最后更新\t最後更新\n最后期限\t最後期限\n最后的审判\t最後的審判\n最后的晚餐\t最後的晚餐\n最后胜利\t最後勝利\n最后通牒\t最後通牒\n最后面\t最後面\n最多\t最多\n最大范围\t最大範圍\n最小范围\t最小範圍\n最近几天\t最近幾天\n最近几年\t最近幾年\n最适化\t最適化\n最适合\t最適合\n最里面\t最裡面\n最须\t最須\n最高当局\t最高當局\n月中折桂\t月中折桂\n月丽于箕\t月麗於箕\n月余\t月餘\n月光曲\t月光曲\n月入数万\t月入數萬\n月出\t月出\n月历\t月曆\n月台\t月臺\n月台票\t月臺票\n月团\t月團\n月地云阶\t月地雲階\n月坠花折\t月墜花折\n月娘\t月娘\n月宫娘娘\t月宮娘娘\n月岩\t月岩\n月御\t月御\n月核\t月核\n月桂叶\t月桂葉\n月桂树叶\t月桂樹葉\n月牙铲\t月牙鏟\n月球表面\t月球表面\n月相表\t月相錶\n月离于毕\t月離於畢\n月经规则术\t月經規則術\n月色迷蒙\t月色迷濛\n月落参横\t月落參橫\n月薪里\t月薪裡\n月里嫦娥\t月裡嫦娥\n月锻季炼\t月鍛季煉\n月面\t月面\n有一分心尽一分力\t有一分心盡一分力\n有个\t有個\n有个人\t有個人\n";

/// Part 84 of the text.
pub const ST_PHRASES_84: &'static str = "有个地洞钻了下去\t有個地洞鑽了下去\n有个好歹\t有個好歹\n有个屁用\t有個屁用\n有个数儿\t有個數兒\n有个说儿\t有個說兒\n有了\t有了\n有了人家\t有了人家\n有了存孝不显彦章\t有了存孝不顯彥章\n有了胎\t有了胎\n有事之无范\t有事之無範\n有云\t有云\n有仆\t有僕\n有仇\t有仇\n有仇不报非君子\t有仇不報非君子\n有仇必报\t有仇必報\n有价\t有價\n有价值\t有價值\n有价证券\t有價證券\n有何面目\t有何面目\n有余\t有餘\n有佛出世\t有佛出世\n有准\t有準\n有凭有据\t有憑有據\n有出入\t有出入\n有出好戏\t有齣好戲\n有出息\t有出息\n有利于\t有利於\n有别\t有別\n有别于\t有別於\n有刮划没是处\t有刮劃沒是處\n有力出力\t有力出力\n有助于\t有助於\n有助于记忆\t有助於記憶\n有勾当\t有勾當\n有去无回\t有去無回\n有发头陀寺\t有髮頭陀寺\n有只\t有隻\n有同情心\t有同情心\n有后\t有後\n有周\t有周\n有够赞\t有夠讚\n有奖征答\t有獎徵答\n有女同车\t有女同車\n有子万事足\t有子萬事足\n有孔虫\t有孔蟲\n有宝何必人前夸\t有寶何必人前誇\n有害于\t有害於\n有尽有让\t有儘有讓\n有幸\t有幸\n有序\t有序\n有当\t有當\n有征\t有徵\n有征无战\t有征無戰\n有志\t有志\n有志一同\t有志一同\n有志之士\t有志之士\n有志于\t有志於\n有志气\t有志氣\n有志竟成\t有志竟成\n有志者事竟成\t有志者事竟成\n有志难酬\t有志難酬\n有恒街\t有恆街\n有意志\t有意志\n有感于\t有感於\n有感而云\t有感而云\n有感而发\t有感而發\n有所不同\t有所不同\n有才\t有才\n有才干\t有才幹\n有才无命\t有才無命\n有把家伙\t有把傢伙\n有损于\t有損於\n有效范围\t有效範圍\n有效面积\t有效面積\n有晚娘就有晚爷\t有晚娘就有晚爺\n有机化合\t有機化合\n有机化合物\t有機化合物\n有机合成\t有機合成\n有板有眼\t有板有眼\n有极\t有極\n有枝有叶\t有枝有葉\n有枝添叶\t有枝添葉\n有栖川\t有棲川\n有核\t有核\n有棱有角\t有稜有角\n有求于人\t有求於人\n有烟煤\t有煙煤\n有益于\t有益於\n有福同享\t有福同享\n有福同享有祸同当\t有福同享有禍同當\n有福同享有难同当\t有福同享有難同當\n有秋\t有秋\n有种\t有種\n有种人\t有種人\n有系统\t有系統\n有缘千里来相会\t有緣千里來相會\n有联系\t有聯繫\n有脸面\t有臉面\n有致\t有致\n有致癌\t有致癌\n有色人种\t有色人種\n有节制\t有節制\n有苦说不出\t有苦說不出\n有药瘾者\t有藥癮者\n有被种子植物纲\t有被種子植物綱\n有计划\t有計劃\n有赖于\t有賴於\n有进有出\t有進有出\n有采\t有采\n有鉴\t有鑑\n有鉴于\t有鑑於\n有鉴于此\t有鑑於此\n有钩绦虫\t有鉤絛蟲\n有钱不买半年闲\t有錢不買半年閒\n有钱出钱\t有錢出錢\n有钱有闲\t有錢有閒\n有难同当\t有難同當\n有面\t有面\n有面儿\t有面兒\n朋克\t朋克\n朋党\t朋黨\n朋党为奸\t朋黨為奸\n朋党之争\t朋黨之爭\n朋党比周\t朋黨比周\n朋党论\t朋黨論\n朋奸\t朋奸\n朋比为奸\t朋比為奸\n朋比作仇\t朋比作仇\n朋比作奸\t朋比作奸\n服了\t服了\n服于\t服於\n服从于\t服從於\n服制\t服制\n服务于\t服務於\n服务台\t服務檯\n服务周到\t服務周到\n服务团\t服務團\n服务范围\t服務範圍\n服务规范\t服務規範\n服御\t服御\n服毒自尽\t服毒自盡\n服用药\t服用藥\n服舍\t服舍\n服药\t服藥\n服药过量\t服藥過量\n服装周\t服裝週\n服饰周\t服飾週\n朔云\t朔雲\n朔党\t朔黨\n朔里\t朔里\n朗朗云天\t朗朗雲天\n望乡台\t望鄉臺\n望了望\t望了望\n望云\t望雲\n望云之情\t望雲之情\n望出去\t望出去\n望后石\t望后石\n望向\t望向\n望幸\t望幸\n望弥撒\t望彌撒\n望楼台\t望樓臺\n望眼欲穿\t望眼欲穿\n望秋先零\t望秋先零\n望穿秋水\t望穿秋水\n望胄\t望胄\n朝东面\t朝東面\n朝乾夕惕\t朝乾夕惕\n朝云\t朝雲\n朝云暮雨\t朝雲暮雨\n朝出夕改\t朝出夕改\n朝北面\t朝北面\n朝升暮合\t朝升暮合\n朝南面\t朝南面\n朝参暮礼\t朝參暮禮\n朝发夕至\t朝發夕至\n朝后\t朝後\n朝向\t朝向\n朝圣团\t朝聖團\n朝核\t朝核\n朝梁暮晋\t朝梁暮晉\n朝梁暮陈\t朝梁暮陳\n朝西面\t朝西面\n朝野两党\t朝野兩黨\n朝钟\t朝鐘\n朝钟暮鼓\t朝鐘暮鼓\n朝鲜冷面\t朝鮮冷麵\n朝鲜劳动党\t朝鮮勞動黨\n期货价\t期貨價\n朦在鼓里\t朦在鼓裡\n朦胧\t朦朧\n木偶戏扎\t木偶戲紮\n木制\t木製\n木制品\t木製品\n木厂\t木廠\n木叶\t木葉\n木垒哈萨克自治县\t木壘哈薩克自治縣\n木强则折\t木強則折\n木心板\t木心板\n木朽不雕\t木朽不雕\n木杆\t木杆\n木材干馏\t木材乾餾\n木杠\t木槓\n木板\t木板\n木板凳\t木板凳\n木板地\t木板地\n木板墙\t木板牆\n木板大鼓\t木板大鼓\n木板床\t木板牀\n木板画\t木板畫\n木柜\t木櫃\n木梁\t木樑\n木芍药\t木芍藥\n木薯淀粉\t木薯澱粉\n木蜡\t木蠟\n木表法\t木表法\n木里图\t木里圖\n木里藏族自治县\t木里藏族自治縣\n木钟\t木鐘\n木铲\t木鏟\n木雕\t木雕\n木雕像\t木雕像\n木雕家\t木雕家\n木雕师\t木雕師\n木雕泥塑\t木雕泥塑\n木雕节\t木雕節\n未了\t未了\n未了公案\t未了公案\n未了因\t未了因\n未了情\t未了情\n未了缘\t未了緣\n未几\t未幾\n未出\t未出\n未出去\t未出去\n未出来\t未出來\n未出货\t未出貨\n未卜\t未卜\n未卜先知\t未卜先知\n未发货\t未發貨\n未可同日而语\t未可同日而語\n未嫁新娘\t未嫁新娘\n未尝\t未嘗\n未尝不可\t未嘗不可\n未尽\t未盡\n未尽事宜\t未盡事宜\n未干\t未乾\n未开发国家\t未開發國家\n未必尽然\t未必盡然\n未扣\t未扣\n未折现\t未折現\n未易才\t未易才\n未知万一\t未知萬一\n未确定\t未確定\n未竟之志\t未竟之志\n未签字者\t未簽字者\n未获\t未獲\n未获得\t未獲得\n未降反升\t未降反升\n末了\t末了\n末叶\t末葉\n末后\t末後\n末大必折\t末大必折\n末娘\t末娘\n末日里\t末日裡\n末末了\t末末了\n末胄\t末胄\n末药\t末藥\n本价\t本價\n本位制\t本位制\n本党\t本黨\n本厂\t本廠\n本古里昂\t本古里昂\n本台\t本臺\n本台消息\t本臺消息\n本同末异\t本同末異\n本周\t本週\n本周一\t本週一\n本周三\t本週三\n本周二\t本週二\n本周五\t本週五\n本周六\t本週六\n本周四\t本週四\n本回\t本回\n本团\t本團\n本地管理界面\t本地管理界面\n本垒板\t本壘板\n本当\t本當\n本征\t本徵\n本征值\t本徵值\n本征向量\t本徵向量\n本志\t本志\n本愿\t本願\n本所同仁\t本所同仁\n本报台\t本報臺\n本期发生\t本期發生\n本期发生额\t本期發生額\n本机振荡\t本機振盪\n本来面目\t本來面目\n本杰明\t本傑明\n本杰明富兰克林\t本傑明富蘭克林\n本科系\t本科系\n本系\t本系\n本色当行\t本色當行\n本草药学\t本草藥學\n本里\t本里\n札什伦布寺\t札什倫布寺\n札夸威\t札夸威\n札板儿\t札板兒\n札格拉布\t札格拉布\n札格瑞布\t札格瑞布\n术业有专攻\t術業有專攻\n术前\t術前\n术后\t術後\n术士\t術士\n术德兼修\t術德兼修\n术数\t術數\n术科\t術科\n术艺\t術藝\n术语\t術語\n术赤\t朮赤\n朱一贵\t朱一貴\n";

/// Part 85 of the text.
pub const ST_PHRASES_85: &'static str = "朱丝栏抄本\t朱絲欄抄本\n朱丹\t朱丹\n朱丽亚\t朱麗亞\n朱丽叶\t朱麗葉\n朱书麟\t朱書麟\n朱买臣\t朱買臣\n朱云折槛\t朱雲折檻\n朱云鹏\t朱雲鵬\n朱亥\t朱亥\n朱仑街\t朱崙街\n朱仙镇\t朱仙鎮\n朱俊\t朱儁\n朱俊彰\t朱俊彰\n朱俊晓\t朱俊曉\n朱允炆\t朱允炆\n朱元璋\t朱元璋\n朱元祥\t朱元祥\n朱先\t朱先\n朱光\t朱光\n朱全忠\t朱全忠\n朱兴荣\t朱興榮\n朱凤芝\t朱鳳芝\n朱利亚尼\t朱利亞尼\n朱利娅\t朱利婭\n朱利安\t朱利安\n朱利安尼\t朱利安尼\n朱华\t朱華\n朱印本\t朱印本\n朱卷\t硃卷\n朱口皓齿\t朱口皓齒\n朱古力\t朱古力\n朱古力糖\t朱古力糖\n朱古律糖\t朱古律糖\n朱咏薇\t朱詠薇\n朱哲琴\t朱哲琴\n朱唇\t朱脣\n朱唇榴齿\t朱脣榴齒\n朱唇皓齿\t朱脣皓齒\n朱唇粉面\t朱脣粉面\n朱培庆\t朱培慶\n朱墨\t朱墨\n朱墨本\t朱墨本\n朱墨烂然\t朱墨爛然\n朱士行\t朱士行\n朱天文\t朱天文\n朱姓\t朱姓\n朱婉琪\t朱婉琪\n朱子\t朱子\n朱子学\t朱子學\n朱子家训\t朱子家訓\n朱子治家格言\t朱子治家格言\n朱子语录\t朱子語錄\n朱子语类\t朱子語類\n朱孝天\t朱孝天\n朱学\t朱學\n朱宏瑜\t朱宏瑜\n朱宗庆\t朱宗慶\n朱实\t朱實\n朱家\t朱家\n朱家兴\t朱家興\n朱家彦\t朱家彥\n朱家欣\t朱家欣\n朱家鼎\t朱家鼎\n朱容基\t朱容基\n朱尉铭\t朱尉銘\n朱尔典\t朱爾典\n朱尔金\t朱爾金\n朱尼奥\t朱尼奧\n朱巴一\t朱巴一\n朱希真\t朱希真\n朱干玉戚\t朱干玉戚\n朱广沪\t朱廣滬\n朱庆余\t朱慶餘\n朱庇特\t朱庇特\n朱延平\t朱延平\n朱弁\t朱弁\n朱弦\t朱弦\n朱弦玉磬\t朱弦玉磬\n朱德\t朱德\n朱执信\t朱執信\n朱批\t硃批\n朱拉隆功\t朱拉隆功\n朱提\t朱提\n朱敦儒\t朱敦儒\n朱敬一\t朱敬一\n朱文\t朱文\n朱文庆\t朱文慶\n朱明\t朱明\n朱智勋\t朱智勳\n朱朝亮\t朱朝亮\n朱木炎\t朱木炎\n朱朱\t朱朱\n朱权\t朱權\n朱柏庐\t朱柏廬\n朱标\t朱標\n朱棣\t朱棣\n朱槿\t朱槿\n朱比特\t朱比特\n朱永弘\t朱永弘\n朱泽民\t朱澤民\n朱洪武\t朱洪武\n朱淑真\t朱淑真\n朱温\t朱溫\n朱漆\t朱漆\n朱熹\t朱熹\n朱理安历\t朱理安曆\n朱理安历史\t朱理安歷史\n朱瑞\t朱瑞\n朱瑞特兹\t朱瑞特茲\n朱瓦碧甍\t朱瓦碧甍\n朱甍碧瓦\t朱甍碧瓦\n朱由校\t朱由校\n朱瞻基\t朱瞻基\n朱砂\t硃砂\n朱砂痣\t硃砂痣\n朱砂符\t硃砂符\n朱砂红\t硃砂紅\n朱祁钰\t朱祁鈺\n朱祁镇\t朱祁鎮\n朱祖谋\t朱祖謀\n朱穆\t朱穆\n朱立伦\t朱立倫\n朱笔\t硃筆\n朱筠\t朱筠\n朱紫\t朱紫\n朱紫难别\t朱紫難別\n朱红\t硃紅\n朱红灯\t朱紅燈\n朱红色\t硃紅色\n朱经武\t朱經武\n朱美\t朱美\n朱耷\t朱耷\n朱自清\t朱自清\n朱舜水\t朱舜水\n朱色\t硃色\n朱茵\t朱茵\n朱莉娅\t朱莉婭\n朱蒙\t朱蒙\n朱蕉\t朱蕉\n朱衣\t朱衣\n朱衣吏\t朱衣吏\n朱衣点头\t朱衣點頭\n朱衣神\t朱衣神\n朱记\t朱記\n朱诺\t朱諾\n朱谕\t硃諭\n朱贝尔\t朱貝爾\n朱轓皂盖\t朱轓皂蓋\n朱轩\t朱軒\n朱轮\t朱輪\n朱轮华毂\t朱輪華轂\n朱迪亚\t朱迪亞\n朱邸\t朱邸\n朱郁信\t朱郁信\n朱里\t朱里\n朱铭\t朱銘\n朱镕基\t朱鎔基\n朱门\t朱門\n朱门绣户\t朱門繡戶\n朱阁\t朱閣\n朱阁青楼\t朱閣青樓\n朱阿英\t朱阿英\n朱陆异同\t朱陸異同\n朱陈\t朱陳\n朱陈之好\t朱陳之好\n朱雀\t朱雀\n朱雀号\t朱雀號\n朱雀桥\t朱雀橋\n朱顶\t朱頂\n朱颜\t朱顏\n朱颜粉面\t朱顏粉面\n朱颜鹤发\t朱顏鶴髮\n朱马亚\t朱馬亞\n朱骏声\t朱駿聲\n朱高炽\t朱高熾\n朱鸟\t朱鳥\n朱鹭\t朱鷺\n朱鹮\t朱䴉\n朱黄\t朱黃\n朴世莉\t朴世莉\n朴京琳\t朴京琳\n朴仔树\t朴仔樹\n朴修斯\t樸修斯\n朴克牌\t樸克牌\n朴凤柱\t朴鳳柱\n朴刀\t朴刀\n朴厚\t樸厚\n朴吉渊\t朴吉淵\n朴周永\t朴周永\n朴子\t朴子\n朴子市\t朴子市\n朴子溪\t朴子溪\n朴学\t樸學\n朴实\t樸實\n朴实作风\t樸實作風\n朴实无华\t樸實無華\n朴宣英\t朴宣英\n朴屯\t朴屯\n朴志胤\t朴志胤\n朴忠\t朴忠\n朴念仁\t樸念仁\n朴恩惠\t朴恩惠\n朴拙\t樸拙\n朴新阳\t朴新陽\n朴智星\t朴智星\n朴树\t朴樹\n朴槿惠\t朴槿惠\n朴樕\t樸樕\n朴次茅斯\t樸次茅斯\n朴正恩\t朴正恩\n朴正熙\t朴正熙\n朴正祥\t朴正祥\n朴永训\t朴永訓\n朴泰桓\t朴泰桓\n朴父\t朴父\n朴璐美\t朴璐美\n朴直\t樸直\n朴真熙\t朴真熙\n朴硝\t朴硝\n朴素\t樸素\n朴素无华\t樸素無華\n朴茂\t朴茂\n朴茨茅斯\t朴茨茅斯\n朴茨茅斯队\t朴茨茅斯隊\n朴讷\t樸訥\n朴讷诚笃\t樸訥誠篤\n朴诗妍\t朴詩妍\n朴质\t樸質\n朴质无华\t樸質無華\n朴资茅斯\t朴資茅斯\n朴资茅斯条约\t朴資茅斯條約\n朴赞浩\t朴贊浩\n朴鄙\t樸鄙\n朴重\t樸重\n朴野\t樸野\n朴野无文\t樸野無文\n朴钝\t樸鈍\n朴陋\t樸陋\n朴马\t樸馬\n朴鲁\t樸魯\n朵云\t朵雲\n机修厂\t機修廠\n机关团体\t機關團體\n机关布景\t機關佈景\n机关用尽\t機關用盡\n机制\t機制\n机发\t機發\n机台\t機臺\n机器压制\t機器壓製\n机壳厂\t機殼廠\n机板\t機板\n机柜\t機櫃\n机械学系\t機械學系\n机械系\t機械系\n机械表\t機械錶\n机械钟\t機械鐘\n机械钟表\t機械鐘錶\n机种\t機種\n机绣\t機繡\n机缘巧合\t機緣巧合\n机辟\t機辟\n朽木不雕\t朽木不雕\n朽木之才\t朽木之才\n朽木虫\t朽木蟲\n朽棘不雕\t朽棘不雕\n杀人须见血救人须救彻\t殺人須見血救人須救徹\n杀价\t殺價\n杀出\t殺出\n杀出去\t殺出去\n杀出来\t殺出來\n杀出重围\t殺出重圍\n杀千刀\t殺千刀\n杀千刀的\t殺千刀的\n杀才\t殺才\n杀敌致果\t殺敵致果\n杀虫\t殺蟲\n杀虫剂\t殺蟲劑\n杀虫器\t殺蟲器\n杀虫药\t殺蟲藥\n杀蠹药\t殺蠹藥\n杀身出生\t殺身出生\n杂交种\t雜交種\n杂交育种\t雜交育種\n杂合菜\t雜合菜\n杂合面儿\t雜合麵兒\n杂和面\t雜和麵\n杂和面儿\t雜和麵兒\n杂婚制\t雜婚制\n杂当\t雜當\n杂录\t雜錄\n杂志\t雜誌\n杂志奖\t雜誌獎\n杂志社\t雜誌社\n杂志纸\t雜誌紙\n杂念\t雜念\n杂技团\t雜技團\n杂技表演\t雜技表演\n杂板令\t雜板令\n杂烩面\t雜燴麵\n杂症\t雜症\n杂种\t雜種\n杂种人\t雜種人\n杂种优势\t雜種優勢\n杂种后代\t雜種後代\n杂种狗\t雜種狗\n杂谷脑\t雜谷腦\n杂谷脑镇\t雜谷腦鎮\n杂酱面\t雜醬麵\n杂面\t雜麵\n权利请愿书\t權利請願書\n权制\t權制\n权力斗争\t權力鬥爭\n权力欲\t權力慾\n权变锋出\t權變鋒出\n权幸\t權幸\n权术\t權術\n权欲熏心\t權慾薰心\n权能划分\t權能劃分\n杆上\t杆上\n杆儿\t杆兒\n杆刀\t桿刀\n杆塔\t杆塔\n杆子\t杆子\n杆状\t桿狀\n杆直\t桿直\n杆秤\t桿秤\n杆茵\t桿茵\n杆菌\t桿菌\n杆菌性\t桿菌性\n杆菌类\t桿菌類\n杆菌素\t桿菌素\n杈杆儿\t杈桿兒\n李万进\t李萬進\n李三娘\t李三娘\n李丰永\t李豐永\n李云光\t李雲光\n李云娜\t李雲娜\n李代桃僵\t李代桃僵\n李修贤\t李修賢\n李克强\t李克強\n李克昂\t李克昂\n李克齐\t李克齊\n李公朴\t李公樸\n李准基\t李準基\n李千娜\t李千娜\n李卜克内西\t李卜克內西\n李叔同\t李叔同\n李后主\t李後主\n李咸阳\t李咸陽\n李国修\t李國修\n李圣杰\t李聖傑\n李复兴\t李復興\n李复甸\t李復甸\n李大同\t李大同\n李子干\t李子乾\n李安修\t李安修\n李家同\t李家同\n李巨峰\t李鉅峯\n";

/// Part 86 of the text.
pub const ST_PHRASES_86: &'static str = "李布瑞斯库\t李布瑞斯庫\n李干龙\t李乾龍\n李开复\t李開復\n李志勋\t李志勳\n李志宏\t李志宏\n李志强\t李志強\n李念\t李念\n李斯特氏杆菌\t李斯特氏桿菌\n李杰\t李傑\n李洪志\t李洪志\n李炳千\t李炳千\n李白\t李白\n李百药\t李百藥\n李盟干\t李盟乾\n李秋静\t李秋靜\n李胜琛\t李勝琛\n李连杰\t李連杰\n李郭同舟\t李郭同舟\n李鉴原\t李鑑原\n李钟奭\t李鐘奭\n李钟郁\t李鍾郁\n李链福\t李鍊福\n李锺郁\t李鍾郁\n杏坛\t杏壇\n杏干\t杏乾\n杏干儿\t杏乾兒\n杏核\t杏核\n杏雨梨云\t杏雨梨雲\n材干\t材幹\n材料系\t材料系\n材疏志大\t材疏志大\n材种\t材種\n材积表\t材積表\n村子里\t村子裡\n村屯里数\t村屯里數\n村干事\t村幹事\n村庄\t村莊\n村庄里\t村莊裡\n村胄\t村胄\n村舍\t村舍\n村里\t村裡\n村里长\t村里長\n杜丽娘\t杜麗娘\n杜克\t杜克\n杜寅杰\t杜寅傑\n杜尔伯特蒙古族自治县\t杜爾伯特蒙古族自治縣\n杜尚别\t杜尚別\n杜尼克\t杜尼克\n杜布林斯基\t杜布林斯基\n杜布罗夫尼克\t杜布羅夫尼克\n杜斯特布拉吉\t杜斯特布拉吉\n杜杰利\t杜傑利\n杜杰尔\t杜傑爾\n杜松子酒\t杜松子酒\n杜正胜\t杜正勝\n杜秋娘\t杜秋娘\n杜秋娘歌\t杜秋娘歌\n杜绝后患\t杜絕後患\n杜老志道\t杜老誌道\n杜门不出\t杜門不出\n杜雅里克\t杜雅里克\n杞宋无征\t杞宋無徵\n杞梁\t杞梁\n杞梁妻\t杞梁妻\n束修\t束脩\n束发\t束髮\n束发封帛\t束髮封帛\n束发金冠\t束髮金冠\n束矢难折\t束矢難折\n束身修行\t束身修行\n束身自修\t束身自修\n杠一\t杠一\n杠七\t杠七\n杠三\t杠三\n杠上\t槓上\n杠九\t杠九\n杠二\t杠二\n杠五\t杠五\n杠八\t杠八\n杠六\t杠六\n杠四\t杠四\n杠增一\t杠增一\n杠头\t槓頭\n杠子\t槓子\n杠杆\t槓桿\n杠杆原理\t槓桿原理\n杠杆收购\t槓桿收購\n杠杠\t槓槓\n杠牌\t槓牌\n杠着\t槓著\n杠起\t槓起\n杠铃\t槓鈴\n杠龟\t槓龜\n条几\t條几\n条几万\t條幾萬\n条几乎\t條幾乎\n条几何\t條幾何\n条几公里\t條幾公里\n条几十\t條幾十\n条几千\t條幾千\n条几尺\t條幾尺\n条几次\t條幾次\n条几百\t條幾百\n条几米\t條幾米\n条干\t條幹\n条据\t條據\n条板箱\t條板箱\n条纹布\t條紋布\n来个\t來個\n来了\t來了\n来于\t來於\n来千去万\t來千去萬\n来历\t來歷\n来历不明\t來歷不明\n来发\t來發\n来台\t來臺\n来台访问\t來臺訪問\n来叶\t來葉\n来回\t來回\n来回来去\t來回來去\n来回来去地\t來回來去地\n来回的话\t來回的話\n来回票\t來回票\n来复\t來復\n来复日\t來復日\n来复枪\t來復槍\n来复线\t來復線\n来宾致词\t來賓致詞\n来念\t來唸\n来来回回\t來來回回\n来杯\t來杯\n来自于\t來自於\n来苏\t來蘇\n来苏水\t來蘇水\n来苏糖\t來蘇糖\n杨万发\t楊萬發\n杨万里\t楊萬里\n杨云龙\t楊雲龍\n杨俊胜\t楊俊勝\n杨修\t楊修\n杨凌示范区\t楊淩示範區\n杨千霈\t楊千霈\n杨叶窜儿\t楊葉竄兒\n杨士梁\t楊士樑\n杨宏志\t楊宏志\n杨志卖刀\t楊志賣刀\n杨文志\t楊文誌\n杨日松\t楊日松\n杨朱\t楊朱\n杨松\t楊松\n杨松弦\t楊松弦\n杨氏系数\t楊氏係數\n杨秋兴\t楊秋興\n杨胜帆\t楊勝帆\n杨胜旭\t楊勝旭\n杨致远\t楊致遠\n杨苏棣\t楊甦棣\n杨采妮\t楊采妮\n杨雅筑\t楊雅筑\n杪秋\t杪秋\n杭丁顿舞蹈症\t杭丁頓舞蹈症\n杭州师范学院\t杭州師範學院\n杭州萝卜绍兴种\t杭州蘿蔔紹興種\n杭锦后旗\t杭錦後旗\n杯上\t杯上\n杯中\t杯中\n杯中之物\t杯中之物\n杯中物\t杯中物\n杯了\t杯了\n杯具\t杯具\n杯内\t杯內\n杯前\t杯前\n杯口\t杯口\n杯台\t杯臺\n杯后\t杯後\n杯和\t杯和\n杯垫\t杯墊\n杯壁\t杯壁\n杯套\t杯套\n杯子\t杯子\n杯子里\t杯子裡\n杯布\t杯佈\n杯干\t杯乾\n杯底\t杯底\n杯底不可饲金鱼\t杯底不可飼金魚\n杯座\t杯座\n杯弓蛇影\t杯弓蛇影\n杯托\t杯托\n杯换\t杯換\n杯是\t杯是\n杯杯\t杯杯\n杯水\t杯水\n杯水之谢\t杯水之謝\n杯水粒粟\t杯水粒粟\n杯水车薪\t杯水車薪\n杯沿\t杯沿\n杯状\t杯狀\n杯白干\t杯白乾\n杯的\t杯的\n杯盏\t杯盞\n杯盖\t杯蓋\n杯盘\t杯盤\n杯盘狼藉\t杯盤狼藉\n杯盘舞\t杯盤舞\n杯碟\t杯碟\n杯突\t杯突\n杯羹\t杯羹\n杯茶\t杯茶\n杯葛\t杯葛\n杯葛运动\t杯葛運動\n杯蛇鬼车\t杯蛇鬼車\n杯装\t杯裝\n杯觥交错\t杯觥交錯\n杯赛\t盃賽\n杯身\t杯身\n杯酒\t杯酒\n杯酒戈矛\t杯酒戈矛\n杯酒解怨\t杯酒解怨\n杯酒言欢\t杯酒言歡\n杯酒释兵权\t杯酒釋兵權\n杯里\t杯裡\n杯面\t杯麵\n杰乐米\t傑樂米\n杰伊汉港\t傑伊漢港\n杰伦\t杰倫\n杰佛兹\t傑佛茲\n杰佛利\t傑佛利\n杰佛士\t傑佛士\n杰佛森\t傑佛森\n杰佛瑞\t傑佛瑞\n杰佛逊\t傑佛遜\n杰作\t傑作\n杰克\t傑克\n杰克伦敦\t傑克倫敦\n杰克尼克逊\t傑克尼克遜\n杰克德米\t傑克德米\n杰克森\t傑克森\n杰克盖伦海\t傑克蓋倫海\n杰克葛伦霍\t傑克葛倫霍\n杰克逊\t傑克遜\n杰出\t傑出\n杰利\t傑利\n杰卡伯\t傑卡伯\n杰哈德巴特勒\t傑哈德巴特勒\n杰哈德巴狄厄\t傑哈德巴狄厄\n杰士派\t傑士派\n杰夫\t傑夫\n杰奎琳\t傑奎琳\n杰奎琳肯尼迪\t傑奎琳肯尼迪\n杰尔\t傑爾\n杰尔村\t傑爾村\n杰尼斯\t傑尼斯\n杰弗逊\t傑弗遜\n杰弗里乔叟\t傑弗里喬叟\n杰拉\t傑拉\n杰拉尔德\t傑拉爾德\n杰拉德\t傑拉德\n杰斯\t傑斯\n杰杰\t傑傑\n杰森\t傑森\n杰森包恩\t傑森包恩\n杰森史塔森\t傑森史塔森\n杰特\t杰特\n杰瑞\t傑瑞\n杰福斯\t傑福斯\n杰福瑞\t傑福瑞\n杰米\t傑米\n杰米森\t傑米森\n杰米福克斯\t傑米福克斯\n杰西\t傑西\n杰西卡\t傑西卡\n杰西卡艾尔芭\t傑西卡艾爾芭\n杰西詹姆斯\t傑西詹姆斯\n杰迪卓\t傑迪卓\n杰里森\t傑里森\n杰里科\t傑里科\n杰里米\t傑里米\n杳无人烟\t杳無人煙\n松一下\t鬆一下\n松一些\t鬆一些\n松一口气\t鬆一口氣\n松一松\t鬆一鬆\n松下\t松下\n松下一口\t鬆下一口\n松下了\t鬆下了\n松下公司\t松下公司\n松下来\t鬆下來\n松下电器\t松下電器\n松下电机\t松下電機\n松下电气工业\t松下電氣工業\n松不开\t鬆不開\n松不松\t鬆不鬆\n松不紧\t鬆不緊\n松丘\t松丘\n松乔\t松喬\n松乔之寿\t松喬之壽\n松了\t鬆了\n松了一口气\t鬆了一口氣\n松了松\t鬆了鬆\n松井秀\t松井秀\n松井秀喜\t松井秀喜\n松些\t鬆些\n松仁\t松仁\n松元音\t鬆元音\n松冈\t松岡\n松冈利胜\t松岡利勝\n松出一\t鬆出一\n松出口\t鬆出口\n松动\t鬆動\n松劲\t鬆勁\n松化石\t松化石\n松北\t松北\n松北区\t松北區\n松原\t松原\n松原市\t松原市\n松发\t鬆發\n松口\t鬆口\n松口气\t鬆口氣\n松口蘑\t松口蘑\n松叶\t松葉\n松叶牡丹\t松葉牡丹\n松叶蕨\t松葉蕨\n松喉\t鬆喉\n松土\t鬆土\n松土机\t鬆土機\n松坎\t松坎\n松坝\t松壩\n松垮\t鬆垮\n松大辅\t松大輔\n松子\t松子\n松宽\t鬆寬\n松尾芭蕉\t松尾芭蕉\n松山\t松山\n松山区\t松山區\n松山庄\t松山莊\n松山机场\t松山機場\n松岭\t松嶺\n松岭区\t松嶺區\n松巴哇\t松巴哇\n松巴哇岛\t松巴哇島\n松开\t鬆開\n松弛\t鬆弛\n松弛下来\t鬆弛下來\n松弛到\t鬆弛到\n松弛剂\t鬆弛劑\n松弛法\t鬆弛法\n松得多\t鬆得多\n松快\t鬆快\n松懈\t鬆懈\n松懈下\t鬆懈下\n";

/// Part 87 of the text.
pub const ST_PHRASES_87: &'static str = "松懈下来\t鬆懈下來\n松手\t鬆手\n松扣\t鬆釦\n松指部\t松指部\n松掉\t鬆掉\n松放\t鬆放\n松散\t鬆散\n松散物料\t鬆散物料\n松明\t松明\n松智路\t松智路\n松木\t松木\n松本\t松本\n松本仞\t松本仞\n松本润\t松本潤\n松本秀树\t松本秀樹\n松材线虫\t松材線蟲\n松松\t鬆鬆\n松松垮垮\t鬆鬆垮垮\n松松散散\t鬆鬆散散\n松松脆脆\t鬆鬆脆脆\n松松软软\t鬆鬆軟軟\n松林\t松林\n松果\t松果\n松果体\t松果體\n松果腺\t松果腺\n松枝\t松枝\n松柏\t松柏\n松柏之坚\t松柏之堅\n松柏之寿\t松柏之壽\n松柏之茂\t松柏之茂\n松柏后凋\t松柏後凋\n松柏园\t松柏園\n松柏节操\t松柏節操\n松柏长青\t松柏長青\n松柏长青茶\t松柏長青茶\n松柔\t鬆柔\n松树\t松樹\n松桃\t松桃\n松桃县\t松桃縣\n松桃苗族自治县\t松桃苗族自治縣\n松毛\t松毛\n松毛松翼\t鬆毛鬆翼\n松毛虫\t松毛蟲\n松毬\t松毬\n松气\t鬆氣\n松江\t松江\n松江区\t松江區\n松江省\t松江省\n松江路\t松江路\n松河\t松河\n松油\t松油\n松油管\t鬆油管\n松油门\t鬆油門\n松浦\t松浦\n松浦亚\t松浦亞\n松浮\t鬆浮\n松涛\t松濤\n松溪\t松溪\n松溪县\t松溪縣\n松滋\t松滋\n松滋市\t松滋市\n松漠\t松漠\n松潘\t松潘\n松潘县\t松潘縣\n松烟\t松煙\n松烟墨\t松煙墨\n松焦油\t松焦油\n松煤\t松煤\n松狮\t鬆獅\n松球\t松球\n松球鱼\t松球魚\n松瓤\t松瓤\n松田\t松田\n松田圣子\t松田聖子\n松皮癣\t松皮癬\n松石\t松石\n松科\t松科\n松竹\t松竹\n松竹梅\t松竹梅\n松竹路\t松竹路\n松筠之操\t松筠之操\n松筠之节\t松筠之節\n松篁交翠\t松篁交翠\n松类\t松類\n松糕\t鬆糕\n松紧\t鬆緊\n松紧带\t鬆緊帶\n松纹\t松紋\n松绑\t鬆綁\n松缓\t鬆緩\n松胶\t松膠\n松脂\t松脂\n松脂石\t松脂石\n松脆\t鬆脆\n松脆饼\t鬆脆餅\n松脱\t鬆脫\n松节油\t松節油\n松节油精\t松節油精\n松花\t松花\n松花江\t松花江\n松花江平原\t松花江平原\n松花砚\t松花硯\n松花纸\t松花紙\n松花蛋\t松花蛋\n松花饼\t松花餅\n松茸\t松茸\n松菌\t松菌\n松萝\t松蘿\n松萝共倚\t松蘿共倚\n松蕈\t松蕈\n松蕊\t松蕊\n松藻虫\t松藻蟲\n松蘑\t松蘑\n松蛋\t鬆蛋\n松蛋包\t鬆蛋包\n松解\t鬆解\n松赞干布\t松贊干布\n松赞干布陵\t松贊干布陵\n松起\t鬆起\n松起来\t鬆起來\n松软\t鬆軟\n松软适口\t鬆軟適口\n松辽平原\t松遼平原\n松通\t鬆通\n松针\t松針\n松阳\t松陽\n松阳县\t松陽縣\n松隆子\t松隆子\n松雪泰子\t松雪泰子\n松露\t松露\n松露猪\t松露豬\n松青\t松青\n松风\t松風\n松风水月\t松風水月\n松风流\t松風流\n松饼\t鬆餅\n松香\t松香\n松香水\t松香水\n松香油\t松香油\n松高路\t松高路\n松鱼\t松魚\n松鸡\t松雞\n松鸦\t松鴉\n松鹤\t松鶴\n松鹤延年\t松鶴延年\n松鹤遐龄\t松鶴遐齡\n松鼠\t松鼠\n松鼠猴\t松鼠猴\n板上钉钉\t板上釘釘\n板书\t板書\n板儿\t板兒\n板凳\t板凳\n板凳区\t板凳區\n板刷\t板刷\n板块\t板塊\n板块构造\t板塊構造\n板块理论\t板塊理論\n板壁\t板壁\n板子\t板子\n板岩\t板岩\n板式\t板式\n板式塔\t板式塔\n板房\t板房\n板擦\t板擦\n板擦儿\t板擦兒\n板斧\t板斧\n板本\t板本\n板机\t板機\n板材\t板材\n板条\t板條\n板条箱\t板條箱\n板板\t闆闆\n板板六十四\t板板六十四\n板极\t板極\n板栗\t板栗\n板桥\t板橋\n板桥中学\t板橋中學\n板桥国中\t板橋國中\n板桥国小\t板橋國小\n板桥市\t板橋市\n板桩\t板樁\n板梁桥\t板樑橋\n板油\t板油\n板滞\t板滯\n板烟\t板煙\n板牙\t板牙\n板状\t板狀\n板球\t板球\n板画\t板畫\n板皮\t板皮\n板眼\t板眼\n板着脸\t板著臉\n板纸\t板紙\n板结\t板結\n板羽球\t板羽球\n板胡\t板胡\n板脸\t板臉\n板荡\t板蕩\n板蓝根\t板藍根\n板规\t板規\n板起\t板起\n板起面孔\t板起面孔\n板车\t板車\n板金\t板金\n板金工\t板金工\n板门店\t板門店\n板门店停战村\t板門店停戰村\n板鸭\t板鴨\n板鼓\t板鼓\n极不\t極不\n极为\t極為\n极为庞大\t極為龐大\n极乐\t極樂\n极乐世界\t極樂世界\n极乐舞\t極樂舞\n极乐鸟\t極樂鳥\n极了\t極了\n极低\t極低\n极低频辐射\t極低頻輻射\n极佳\t極佳\n极便当\t極便當\n极值\t極值\n极光\t極光\n极其\t極其\n极具\t極具\n极冠\t極冠\n极切瞻韩\t極切瞻韓\n极刑\t極刑\n极力\t極力\n极力争取\t極力爭取\n极化\t極化\n极口\t極口\n极右\t極右\n极右份子\t極右份子\n极右派\t極右派\n极右翼\t極右翼\n极品\t極品\n极圈\t極圈\n极地\t極地\n极地年\t極地年\n极地气候\t極地氣候\n极地狐\t極地狐\n极坐标\t極座標\n极坐标系\t極座標系\n极处\t極處\n极大\t極大\n极大值\t極大值\n极大期\t極大期\n极头麻化\t極頭麻化\n极好\t極好\n极婺联辉\t極婺聯輝\n极富\t極富\n极小\t極小\n极小值\t極小值\n极少\t極少\n极少数\t極少數\n极尽\t極盡\n极左\t極左\n极左份子\t極左份子\n极左派\t極左派\n极带\t極帶\n极带地区\t極帶地區\n极度\t極度\n极微\t極微\n极性\t極性\n极性键\t極性鍵\n极恶\t極惡\n极愿\t極願\n极早\t極早\n极有可能\t極有可能\n极权\t極權\n极权主义\t極權主義\n极权国家\t極權國家\n极权政治\t極權政治\n极板\t極板\n极核\t極核\n极深研几\t極深研幾\n极点\t極點\n极盛\t極盛\n极盛时期\t極盛時期\n极目\t極目\n极目望去\t極目望去\n极目远望\t極目遠望\n极目远眺\t極目遠眺\n极短篇\t極短篇\n极移\t極移\n极端\t極端\n极端主义\t極端主義\n极端份子\t極端份子\n极端派\t極端派\n极细小\t極細小\n极至\t極至\n极致\t極致\n极色\t極色\n极表同情\t極表同情\n极轴\t極軸\n极选\t極選\n极量\t極量\n极锋\t極鋒\n极间电容\t極間電容\n极限\t極限\n极限体育\t極限體育\n极限值\t極限值\n极限强度\t極限強度\n极高\t極高\n极高点\t極高點\n构筑\t構築\n构筑工事\t構築工事\n构筑物\t構築物\n析出\t析出\n析毫剖厘\t析毫剖釐\n枕借\t枕藉\n枕岩漱流\t枕巖漱流\n枕席\t枕蓆\n枕戈尝胆\t枕戈嘗膽\n枕状玄武岩\t枕狀玄武岩\n林下风致\t林下風致\n林下风范\t林下風範\n林丰正\t林豐正\n林义杰\t林義傑\n林云\t林雲\n林云阁\t林雲閣\n林俊杰\t林俊傑\n林克\t林克\n林克平大学\t林克平大學\n林克海德\t林克海德\n林克谟\t林克謨\n林克谦\t林克謙\n林冲\t林沖\n林冲夜奔\t林沖夜奔\n林占梅\t林占梅\n林口台地\t林口臺地\n林合隆\t林合隆\n林周\t林周\n林周县\t林周縣\n林国梁\t林國樑\n林宏岳\t林宏嶽\n林布兰\t林布蘭\n林干闵\t林乾閔\n林德布拉德\t林德布拉德\n林志嘉\t林志嘉\n林志坚\t林志堅\n林志声\t林志聲\n林志杰\t林志傑\n林志炫\t林志炫\n林志玲\t林志玲\n林志翔\t林志翔\n林志辉\t林志輝\n林志隆\t林志隆\n林志雄\t林志雄\n林志颖\t林志穎\n林恢复\t林恢復\n林承志\t林承志\n林振丰\t林振豐\n林敬杰\t林敬傑\n林智胜\t林智勝\n林木参天\t林木參天\n林杰梁\t林杰樑\n林杰闵\t林傑閔\n林松\t林松\n林松焕\t林松煥\n林正杰\t林正杰\n林永发\t林永發\n林秀合\t林秀合\n林秋\t林秋\n林秋桂\t林秋桂\n林群志\t林羣志\n林致光\t林致光\n林芳郁\t林芳郁\n林英杰\t林英傑\n林荣松\t林榮松\n林表\t林表\n林谷桦\t林谷樺\n林谷芳\t林谷芳\n";

/// Part 88 of the text.
pub const ST_PHRASES_88: &'static str = "林郁方\t林郁方\n林钟\t林鐘\n林靖杰\t林靖傑\n林颖穗\t林穎穗\n林默娘\t林默娘\n枚卜\t枚卜\n果于\t果於\n果子干\t果子乾\n果子干儿\t果子乾兒\n果子药\t果子藥\n果干\t果乾\n果断\t果斷\n果杯\t果杯\n果松\t果松\n果核\t果核\n果穗\t果穗\n枝不得大于干\t枝不得大於榦\n枝叶\t枝葉\n枝叶扶疏\t枝葉扶疏\n枝叶茂盛\t枝葉茂盛\n枝干\t枝幹\n枝干断折\t枝幹斷折\n枝繁叶茂\t枝繁葉茂\n枝胄\t枝胄\n枝针\t枝針\n枣庄\t棗莊\n枣核\t棗核\n枪打出头鸟\t槍打出頭鳥\n枪托\t槍托\n枪术\t槍術\n枪杆\t槍桿\n枪杆儿\t槍桿兒\n枪杆子\t槍桿子\n枪枝弹药\t槍枝彈藥\n枪械弹药\t槍械彈藥\n枫之谷\t楓之谷\n枫叶\t楓葉\n枯叶\t枯葉\n枯叶蝶\t枯葉蝶\n枯干\t枯乾\n枯草杆菌\t枯草桿菌\n架个\t架個\n架了\t架了\n架出\t架出\n架出去\t架出去\n架出来\t架出來\n架回\t架回\n架回去\t架回去\n架回来\t架回來\n架梁\t架樑\n架海金梁\t架海金樑\n架钟\t架鐘\n枷板\t枷板\n柏克\t柏克\n柏克曼温度计\t柏克曼溫度計\n柏克莱\t柏克萊\n柏克郡\t柏克郡\n柏克里克千佛洞\t柏克里克千佛洞\n柏南克\t柏南克\n柏卡里\t柏卡里\n柏台\t柏臺\n柏台乌府\t柏臺烏府\n柏戴克\t柏戴克\n柏林剧团\t柏林劇團\n柏梁体\t柏梁體\n柏梁台\t柏梁臺\n柏梁诗\t柏梁詩\n柏纳马修兹\t柏納馬修茲\n柏罗米修斯\t柏羅米修斯\n柏节松操\t柏節松操\n柏里斯\t柏里斯\n某个\t某個\n某个人\t某個人\n某只\t某隻\n某方面\t某方面\n某某\t某某\n某种\t某種\n某种人\t某種人\n某舍\t某舍\n某面\t某面\n染发\t染髮\n染发剂\t染髮劑\n染布\t染布\n染干\t染干\n染指于\t染指於\n染指于鼎\t染指於鼎\n染殿后\t染殿後\n染织厂\t染織廠\n柔克\t柔克\n柔情万千\t柔情萬千\n柔情万种\t柔情萬種\n柔术\t柔術\n柔枝嫩叶\t柔枝嫩葉\n柔能克刚\t柔能克剛\n柔能制刚\t柔能制剛\n柜上\t櫃上\n柜买中心\t櫃買中心\n柜位\t櫃位\n柜台\t櫃檯\n柜台委讬\t櫃檯委託\n柜员机\t櫃員機\n柜坊赌局\t櫃坊賭局\n柜子\t櫃子\n柜子里\t櫃子裡\n柜房\t櫃房\n柜柳\t柜柳\n柜橱\t櫃櫥\n柜身子\t櫃身子\n柜里\t櫃裡\n柜面儿\t櫃面兒\n查不出\t查不出\n查价\t查價\n查修\t查修\n查克拉\t查克拉\n查克瑞\t查克瑞\n查兑克\t查兌克\n查准率\t查準率\n查出\t查出\n查出来\t查出來\n查卷\t查卷\n查号台\t查號臺\n查回\t查回\n查回去\t查回去\n查回来\t查回來\n查封\t查封\n查干\t查干\n查干湖\t查干湖\n查扣\t查扣\n查找周期\t查找週期\n查报表\t查報表\n查无实据\t查無實據\n查核\t查覈\n查获\t查獲\n查表\t查表\n查询台\t查詢檯\n查问出\t查問出\n柬埔寨人民党\t柬埔寨人民黨\n柯克\t柯克\n柯克斯\t柯克斯\n柯尔克孜\t柯爾克孜\n柯尔克孜族\t柯爾克孜族\n柯尔克孜语\t柯爾克孜語\n柯普里亚诺夫\t柯普里亞諾夫\n柯札克\t柯札克\n柯里\t柯里\n柱梁\t柱樑\n柳升耀\t柳昇耀\n柳叶\t柳葉\n柳叶儿\t柳葉兒\n柳叶刀\t柳葉刀\n柳叶描\t柳葉描\n柳叶眉\t柳葉眉\n柳叶鱼\t柳葉魚\n柳斌杰\t柳斌杰\n柳暗花明\t柳暗花明\n柳暗花明又一村\t柳暗花明又一村\n柳烟花雾\t柳煙花霧\n柳诒征\t柳詒徵\n柴埼幸\t柴埼幸\n柴油发动机\t柴油發動機\n柴胡\t柴胡\n柿干\t柿乾\n栅极\t柵極\n栅格里\t柵格裡\n标价\t標價\n标准\t標準\n标准值\t標準值\n标准偏差\t標準偏差\n标准像\t標準像\n标准元音\t標準元音\n标准公顷\t標準公頃\n标准制\t標準制\n标准制作\t標準製作\n标准制造\t標準製造\n标准动作\t標準動作\n标准化\t標準化\n标准单位\t標準單位\n标准号码\t標準號碼\n标准型\t標準型\n标准大气\t標準大氣\n标准字体\t標準字體\n标准尺寸\t標準尺寸\n标准局\t標準局\n标准工资\t標準工資\n标准差\t標準差\n标准接口\t標準接口\n标准时\t標準時\n标准时区\t標準時區\n标准时间\t標準時間\n标准普尔\t標準普爾\n标准木\t標準木\n标准杆\t標準桿\n标准模型\t標準模型\n标准气压\t標準氣壓\n标准溶液\t標準溶液\n标准版\t標準版\n标准状况\t標準狀況\n标准状态\t標準狀態\n标准电阻\t標準電阻\n标准组\t標準組\n标准组织\t標準組織\n标准细分表\t標準細分表\n标准舞\t標準舞\n标准规\t標準規\n标准规格\t標準規格\n标准规范\t標準規範\n标准语\t標準語\n标准镜头\t標準鏡頭\n标准间\t標準間\n标准音\t標準音\n标准题名\t標準題名\n标出\t標出\n标出去\t標出去\n标出来\t標出來\n标占\t標占\n标同伐异\t標同伐異\n标志\t標誌\n标志性\t標誌性\n标志着\t標誌著\n标本同治\t標本同治\n标本虫\t標本蟲\n标杆\t標杆\n标标致致\t標標致致\n标注\t標註\n标示出\t標示出\n标签\t標籤\n标致\t標緻\n标表\t標表\n标记识别\t標記識別\n标里镇\t標里鎮\n栈板\t棧板\n栉发工\t櫛髮工\n栋折榱崩\t棟折榱崩\n栋梁\t棟樑\n栋梁之任\t棟樑之任\n栋梁之材\t棟樑之材\n栋梁之臣\t棟樑之臣\n栏干\t欄干\n栏杆\t欄杆\n栏板\t欄板\n栏柜\t欄櫃\n树党\t樹黨\n树叶\t樹葉\n树干\t樹幹\n树干断\t樹幹斷\n树德技术学院\t樹德技術學院\n树梁\t樹樑\n树欲息而风不停\t樹欲息而風不停\n树欲静而风不止\t樹欲靜而風不止\n树种\t樹種\n树虫子\t樹蟲子\n树高千丈落叶归根\t樹高千丈落葉歸根\n栖于\t棲於\n栖托\t棲託\n栖栖皇皇\t棲棲皇皇\n栗冽\t慄冽\n栗凿\t栗鑿\n栗喇\t栗喇\n栗子\t栗子\n栗尾\t栗尾\n栗暴\t栗暴\n栗栗\t慄慄\n栗栗不安\t慄慄不安\n栗栗危惧\t慄慄危懼\n栗烈\t栗烈\n栗然\t慄然\n栗爆\t栗爆\n栗田雄介\t栗田雄介\n栗碌\t栗碌\n栗色\t栗色\n栗苞\t栗苞\n栗薪\t栗薪\n栗鼠\t栗鼠\n校准\t校準\n校园骨干\t校園骨幹\n校核\t校覈\n校舍\t校舍\n样本里\t樣本裡\n样板\t樣板\n样板戏\t樣板戲\n样范\t樣範\n核下\t核下\n核二厂\t核二廠\n核人\t核人\n核仁\t核仁\n核以\t核以\n核价\t覈價\n核体\t核體\n核保\t覈保\n核僵持\t核僵持\n核儿\t核兒\n核冬天\t核冬天\n核准\t覈准\n核准的\t覈准的\n核减\t覈減\n核出口控制\t核出口控制\n核力\t核力\n核办\t核辦\n核化\t核化\n核区\t核區\n核发\t核發\n核发电\t核發電\n核发电厂\t核發電廠\n核可\t核可\n核合成\t核合成\n核和\t核和\n核四\t核四\n核型\t核型\n核复\t覈覆\n核子\t核子\n核子厂\t核子廠\n核孔\t核孔\n核字\t覈字\n核定\t覈定\n核实\t覈實\n核审\t覈審\n核对\t覈對\n核对表\t覈對表\n核岛\t核島\n核工\t核工\n核弹\t核彈\n核当量\t核當量\n核心\t核心\n核战\t核戰\n核战斗部\t核戰鬥部\n核批\t覈批\n核技术\t核技術\n核报\t覈報\n核拨\t覈撥\n核收\t覈收\n核数\t核數\n核是\t核是\n核有\t核有\n核果\t核果\n核查\t覈查\n核查制度\t核查制度\n核桃\t核桃\n核武\t核武\n核火箭发动机\t核火箭發動機\n核炫\t核炫\n核点\t核點\n核燃料后处理\t核燃料後處理\n核爆\t核爆\n核爆炸烟云\t核爆炸煙雲\n核状\t核狀\n核球\t核球\n核甘\t核甘\n核电\t核電\n核电厂\t核電廠\n核电磁脉冲\t核電磁脈衝\n核的\t核的\n核磁\t核磁\n核示\t覈示\n核种\t核種\n核突\t核突\n核算\t覈算\n核粒\t核粒\n核糖\t核糖\n核糖核酸\t核糖核酸\n核素\t核素\n核线\t核線\n";

/// Part 89 of the text.
pub const ST_PHRASES_89: &'static str = "核编\t覈編\n核能\t核能\n核能发电\t核能發電\n核能发电厂\t核能發電廠\n核能技术\t核能技術\n核能电厂\t核能電廠\n核膜\t核膜\n核苷\t核苷\n核菌\t核菌\n核融合\t核融合\n核融合发电\t核融合發電\n核解\t核解\n核计\t覈計\n核计划\t核計劃\n核试\t核試\n核谈\t核談\n核质\t核質\n核资\t覈資\n核载\t核載\n核配\t核配\n核酪\t核酪\n核酶\t核酶\n核酸\t核酸\n核销\t覈銷\n核防御\t核防禦\n核验\t覈驗\n根壮叶茂\t根壯葉茂\n根据\t根據\n根据上表\t根據上表\n根据地\t根據地\n根据规定\t根據規定\n根深叶茂\t根深葉茂\n根烟\t根菸\n根目录\t根目錄\n根系\t根系\n根茎叶\t根莖葉\n根须\t根鬚\n格丹斯克\t格丹斯克\n格于\t格於\n格于成例\t格於成例\n格于环境\t格於環境\n格但斯克\t格但斯克\n格兰杰\t格蘭傑\n格列佛游记\t格列佛遊記\n格列高利历\t格列高利曆\n格别乌\t格別烏\n格勒诺布尔\t格勒諾布爾\n格子布\t格子布\n格子棉布\t格子棉布\n格拉哥里字母\t格拉哥里字母\n格斗\t格鬥\n格斗王\t格鬥王\n格斗者\t格鬥者\n格斗赛\t格鬥賽\n格林威治天文台\t格林威治天文臺\n格林威治标准时间\t格林威治標準時間\n格林尼治标准时间\t格林尼治標準時間\n格物致知\t格物致知\n格瑞诺布\t格瑞諾布\n格致\t格致\n格致中学\t格致中學\n格致国中\t格致國中\n格致诚正修齐\t格致誠正修齊\n格范\t格範\n格里\t格里\n格里历\t格里曆\n格里姆斯塔\t格里姆斯塔\n格里格\t格里格\n格里高利\t格里高利\n格里高利历\t格里高利曆\n栽种\t栽種\n栽种机\t栽種機\n栽种法\t栽種法\n栽觔斗\t栽觔斗\n栽跟斗\t栽跟斗\n桂仔云\t桂仔云\n桂圆干\t桂圓乾\n桂林团\t桂林團\n桂秋\t桂秋\n桂系军阀\t桂系軍閥\n桃叶歌\t桃葉歌\n桃叶渡\t桃葉渡\n桃叶珊瑚\t桃葉珊瑚\n桃园中坜台地\t桃園中壢臺地\n桃干\t桃乾\n桃核\t桃核\n桃核雕\t桃核雕\n桃花人面\t桃花人面\n桃花面\t桃花面\n桃金娘\t桃金娘\n桃金娘科\t桃金娘科\n桅杆\t桅杆\n框出\t框出\n框出来\t框出來\n框里\t框裡\n案准\t案准\n案几\t案几\n案卷\t案卷\n案发\t案發\n案发前\t案發前\n案发后\t案發後\n案发时\t案發時\n案头柜\t案頭櫃\n案据\t案據\n案板\t案板\n桉叶油\t桉葉油\n桌几\t桌几\n桌别林\t桌別林\n桌历\t桌曆\n桌布\t桌布\n桌椅板凳\t桌椅板凳\n桌面\t桌面\n桌面上\t桌面上\n桌面儿\t桌面兒\n桌面儿上\t桌面兒上\n桌面系统\t桌面系統\n桐叶知秋\t桐葉知秋\n桐花烟\t桐花煙\n桑叶\t桑葉\n桑定党\t桑定黨\n桑布森\t桑布森\n桑干\t桑乾\n桑干河\t桑乾河\n桑干盆地\t桑乾盆地\n桑托斯\t桑托斯\n桑托荣\t桑托榮\n桑托里尼岛\t桑托里尼島\n桑杰士\t桑傑士\n桑蓬之志\t桑蓬之志\n桑虫\t桑蟲\n桑针\t桑針\n桓台\t桓臺\n桓台县\t桓臺縣\n桓表\t桓表\n桢干\t楨幹\n档卷\t檔卷\n档案传输系统\t檔案傳輸系統\n档案搜寻系统\t檔案搜尋系統\n档案柜\t檔案櫃\n桥台\t橋臺\n桥梁\t橋樑\n桥梁工事\t橋樑工事\n桥梁工程\t橋樑工程\n桥面\t橋面\n桥面上\t橋面上\n桶里\t桶裡\n桶里射鱼\t桶裡射魚\n梁上\t樑上\n梁上君子\t樑上君子\n梁世煌\t梁世煌\n梁丽\t梁麗\n梁书\t梁書\n梁仙台\t梁仙臺\n梁任公\t梁任公\n梁伟聪\t梁偉聰\n梁伟铭\t梁偉銘\n梁修身\t梁修身\n梁元帝\t梁元帝\n梁升卿\t梁昇卿\n梁又琳\t梁又琳\n梁启超\t梁啓超\n梁咏琪\t梁詠琪\n梁唐晋汉周书\t梁唐晉漢周書\n梁园\t梁園\n梁园区\t梁園區\n梁园宴雪\t梁園宴雪\n梁园虽好不是久恋之家\t梁園雖好不是久戀之家\n梁国荣\t梁國榮\n梁太祖\t梁太祖\n梁姓\t梁姓\n梁子\t樑子\n梁子湖\t梁子湖\n梁子湖区\t梁子湖區\n梁孟\t梁孟\n梁实秋\t梁實秋\n梁家辉\t梁家輝\n梁容银\t梁容銀\n梁山\t梁山\n梁山伯\t梁山伯\n梁山伯与祝英台\t梁山伯與祝英臺\n梁山伯祝英台\t梁山伯祝英臺\n梁山县\t梁山縣\n梁山市\t梁山市\n梁山泊\t梁山泊\n梁州\t梁州\n梁平\t梁平\n梁平县\t梁平縣\n梁建伟\t梁建偉\n梁德馨\t梁德馨\n梁心颐\t梁心頤\n梁惠王\t梁惠王\n梁敬帝\t梁敬帝\n梁文冲\t梁文沖\n梁文音\t梁文音\n梁文骐\t梁文騏\n梁朝伟\t梁朝偉\n梁木\t梁木\n梁木其坏\t樑木其壞\n梁架\t樑架\n梁柱\t樑柱\n梁栋\t樑棟\n梁案\t梁案\n梁楷\t梁楷\n梁次震\t梁次震\n梁武帝\t梁武帝\n梁氏\t梁氏\n梁河\t梁河\n梁河县\t梁河縣\n梁漱溟\t梁漱溟\n梁父吟\t梁父吟\n梁狱上书\t梁獄上書\n梁玉芳\t梁玉芳\n梁皇宝忏\t梁皇寶懺\n梁皇忏\t梁皇懺\n梁祝\t梁祝\n梁简文帝\t梁簡文帝\n梁红玉\t梁紅玉\n梁经伦\t梁經倫\n梁羽生\t梁羽生\n梁茜雯\t梁茜雯\n梁赞\t梁贊\n梁辀\t梁輈\n梁辰鱼\t梁辰魚\n梁锦兴\t梁錦興\n梁静茹\t梁靜茹\n梁鸿\t梁鴻\n梁鸿五噫\t梁鴻五噫\n梁龙\t梁龍\n梅克\t梅克\n梅克尔\t梅克爾\n梅尼尔氏症\t梅尼爾氏症\n梅布托\t梅布托\n梅干\t梅乾\n梅干菜\t梅乾菜\n梅德韦杰夫\t梅德韋傑夫\n梅杰\t梅傑\n梅核\t梅核\n梅花小娘\t梅花小娘\n梅西叶\t梅西葉\n梅西叶星表\t梅西葉星表\n梅西耶星表\t梅西耶星表\n梅里\t梅里\n梅里亚\t梅里亞\n梅里亚姆韦伯斯特\t梅里亞姆韋伯斯特\n梅里斯\t梅里斯\n梅里斯区\t梅里斯區\n梅里斯达斡尔族区\t梅里斯達斡爾族區\n梅里美\t梅里美\n梅里雪山\t梅里雪山\n梓里\t梓里\n梢云\t梢雲\n梦云\t夢雲\n梦兰叶吉\t夢蘭叶吉\n梦卜\t夢卜\n梦周公\t夢周公\n梦回\t夢迴\n梦工厂\t夢工廠\n梦工厂动画\t夢工廠動畫\n梦往神游\t夢往神遊\n梦有五不占\t夢有五不占\n梦游\t夢遊\n梦游症\t夢遊症\n梦粱录\t夢粱錄\n梦系\t夢繫\n梦行症\t夢行症\n梦里\t夢裡\n梦里蝴蝶\t夢裡蝴蝶\n梨云\t梨雲\n梨干\t梨乾\n梨干儿\t梨乾兒\n梯冲\t梯衝\n梯度回波\t梯度回波\n梯恩梯当量\t梯恩梯當量\n梯板\t梯板\n械斗\t械鬥\n械系\t械繫\n梳了\t梳了\n梳发\t梳髮\n梳头发\t梳頭髮\n梳妆台\t梳妝檯\n梳理\t梳理\n梳芙厘\t梳芙厘\n梵册贝叶\t梵冊貝葉\n梵谷\t梵谷\n检修\t檢修\n检出\t檢出\n检复\t檢覆\n检字表\t檢字表\n检尸\t檢屍\n检录\t檢錄\n检查出\t檢查出\n检查出来\t檢查出來\n检核\t檢核\n检核表\t檢核表\n检测出\t檢測出\n检测出来\t檢測出來\n检索系统\t檢索系統\n检警合一\t檢警合一\n检阅台\t檢閱臺\n检验出\t檢驗出\n检验出来\t檢驗出來\n棉制\t棉製\n棉卷\t棉卷\n棉厂\t棉廠\n棉布\t棉布\n棉布婚\t棉布婚\n棉签\t棉籤\n棉纤维\t棉纖維\n棉纺厂\t棉紡廠\n棉花布\t棉花布\n棉花店里歇工\t棉花店裡歇工\n棉花火药\t棉花火藥\n棉药签\t棉藥籤\n棉铃虫\t棉鈴蟲\n棋布\t棋佈\n棋布星罗\t棋佈星羅\n棋杯\t棋杯\n棋罗星布\t棋羅星佈\n棋逢对手将遇良才\t棋逢對手將遇良才\n棒下出孝子\t棒下出孝子\n棒坛\t棒壇\n棒头出孝子\t棒頭出孝子\n棒子面\t棒子麵\n棒曲霉素\t棒麴黴素\n棒极了\t棒極了\n棒状杆菌\t棒狀桿菌\n棒针\t棒針\n棒针衫\t棒針衫\n棕色种\t棕色種\n棘针\t棘針\n棘针科\t棘針科\n棘针门\t棘針門\n棠溪\t棠谿\n棫朴\t棫樸\n森林学系\t森林學系\n森林抚育采伐\t森林撫育採伐\n森林游乐区\t森林遊樂區\n";

/// Part 90 of the text.
pub const ST_PHRASES_90: &'static str = "森林生态系\t森林生態系\n森林里\t森林裡\n森罗万象\t森羅萬象\n棱体\t稜體\n棱台\t稜臺\n棱坎\t稜坎\n棱子\t稜子\n棱层\t稜層\n棱柱\t稜柱\n棱等登\t稜等登\n棱线\t稜線\n棱缝\t稜縫\n棱角\t稜角\n棱锥\t稜錐\n棱锥台\t稜錐臺\n棱镜\t稜鏡\n棺材出了讨挽歌郎钱\t棺材出了討挽歌郎錢\n棺材板\t棺材板\n棺材里\t棺材裡\n棺材里伸手\t棺材裡伸手\n椅里\t椅裡\n植党\t植黨\n植党营私\t植黨營私\n植发\t植髮\n植基于\t植基於\n植根于\t植根於\n植物区系\t植物區系\n植物志\t植物誌\n植物纤维\t植物纖維\n植病系\t植病系\n植皮手术\t植皮手術\n椭圆面\t橢圓面\n椰子干\t椰子乾\n椰枣干\t椰棗乾\n椰胡\t椰胡\n椰雕\t椰雕\n椽梁\t椽樑\n椿萱并茂\t椿萱並茂\n楚庄王\t楚莊王\n楚庄绝缨\t楚莊絕纓\n楚庄问鼎\t楚莊問鼎\n楚汉春秋\t楚漢春秋\n楚霸王困垓下\t楚霸王困垓下\n楞了楞\t楞了楞\n楣运当头\t楣運當頭\n楮叶\t楮葉\n楼台\t樓臺\n楼台亭阁\t樓臺亭閣\n楼台会\t樓臺會\n楼板\t樓板\n楼梯台\t樓梯臺\n楼梯平台\t樓梯平臺\n楼道里\t樓道裡\n楼阁亭台\t樓閣亭臺\n楼面\t樓面\n概念\t概念\n榆叶梅\t榆葉梅\n榔板\t榔板\n榕坛问业\t榕壇問業\n榨干\t榨乾\n榨油厂\t榨油廠\n榴梿干\t榴槤乾\n榴莲\t榴槤\n榴莲干\t榴槤乾\n榻布\t榻布\n槃才\t槃才\n槃槃大才\t槃槃大才\n槭叶止血草\t槭葉止血草\n樊于期\t樊於期\n樛曲\t樛曲\n樠溪\t樠谿\n模制\t模製\n模制品\t模製品\n模块板\t模塊板\n模型板\t模型板\n模式种\t模式種\n模拟出\t模擬出\n模板\t模板\n模板工\t模板工\n模棱\t模稜\n模棱两可\t模稜兩可\n模糊集合理论\t模糊集合理論\n模组厂\t模組廠\n模网论坛\t模網論壇\n模胡\t模胡\n模范\t模範\n模范丈夫\t模範丈夫\n模范人物\t模範人物\n模范作用\t模範作用\n模范区\t模範區\n模范城市\t模範城市\n模范大音阶\t模範大音階\n模范学生\t模範學生\n模范带头\t模範帶頭\n模范带头作用\t模範帶頭作用\n模范教师\t模範教師\n模范村\t模範村\n模范棒棒堂\t模範棒棒堂\n模范生\t模範生\n模范省\t模範省\n模范章\t模範章\n模范行动\t模範行動\n模表\t模表\n模里西斯\t模里西斯\n模里西斯共和国\t模里西斯共和國\n横了心\t橫了心\n横亘\t橫亙\n横冲\t橫衝\n横冲直撞\t橫衝直撞\n横出\t橫出\n横切面\t橫切面\n横剖面\t橫剖面\n横向\t橫向\n横尸\t橫屍\n横尸遍野\t橫屍遍野\n横征暴敛\t橫徵暴斂\n横截面\t橫截面\n横打鼻梁儿\t橫打鼻樑兒\n横扫千军\t橫掃千軍\n横折\t橫折\n横摆\t橫擺\n横断面\t橫斷面\n横是\t橫是\n横杆\t橫杆\n横杠\t橫槓\n横梁\t橫樑\n横直\t橫直\n横眉冷对千夫指\t橫眉冷對千夫指\n横秋\t橫秋\n横筋斗\t橫筋斗\n横舍\t橫舍\n横面\t橫面\n横须贺\t橫須賀\n横须贺市\t橫須賀市\n樱花杯\t櫻花盃\n樵苏\t樵蘇\n樵苏不爨\t樵蘇不爨\n樵采\t樵採\n橄榄岩\t橄欖岩\n橄榄干\t橄欖乾\n橘核\t橘核\n橡子面\t橡子麵\n橡子面儿\t橡子麵兒\n橡斗\t橡斗\n橡木叶\t橡木葉\n橦布\t橦布\n橱柜\t櫥櫃\n檀板\t檀板\n欠当\t欠當\n欠据\t欠據\n次一个\t次一個\n次于\t次於\n次分面\t次分面\n次后\t次後\n次级团体\t次級團體\n欢乐谷\t歡樂谷\n欢喜欲狂\t歡喜欲狂\n欣喜欲狂\t欣喜欲狂\n欣戚\t欣戚\n欣欣向荣\t欣欣向榮\n欣然同意\t欣然同意\n欣生恶死\t欣生惡死\n欧伯托\t歐伯托\n欧佩克\t歐佩克\n欧克\t歐克\n欧克曼\t歐克曼\n欧克莱\t歐克萊\n欧几里得\t歐幾里得\n欧几里得原理\t歐幾里得原理\n欧几里德\t歐幾里德\n欧化倾向\t歐化傾向\n欧布拉多\t歐布拉多\n欧布莱特\t歐布萊特\n欧式几何\t歐式幾何\n欧式几何学\t歐式幾何學\n欧式建筑\t歐式建築\n欧战后\t歐戰後\n欧拉朱万\t歐拉朱萬\n欧普艺术\t歐普藝術\n欧氏几何学\t歐氏幾何學\n欧洲共同体\t歐洲共同體\n欧洲共同市场\t歐洲共同市場\n欧洲复兴计画\t歐洲復興計畫\n欧洲安全与合作组织\t歐洲安全與合作組織\n欧洲安全和合作组织\t歐洲安全和合作組織\n欧洲杯\t歐洲盃\n欧洲火药库\t歐洲火藥庫\n欧洲货币体系\t歐洲貨幣體系\n欧游\t歐遊\n欧游之行\t歐遊之行\n欧游记趣\t歐遊記趣\n欧特里尼\t歐特里尼\n欧秋雅\t歐秋雅\n欧系\t歐系\n欧罗巴人种\t歐羅巴人種\n欧胡岛\t歐胡島\n欧萨苏纳\t歐薩蘇納\n欧足联杯\t歐足聯杯\n欧里\t歐里\n欧里庇得斯\t歐里庇得斯\n欧里桑\t歐里桑\n欧阳修\t歐陽修\n欧雷克\t歐雷克\n欲不可从\t欲不可從\n欲人不知莫若勿为\t欲人不知莫若勿為\n欲令智昏\t慾令智昏\n欲加之罪\t欲加之罪\n欲加之罪何患无词\t欲加之罪何患無詞\n欲加之罪何患无辞\t欲加之罪何患無辭\n欲取固与\t欲取固與\n欲取姑与\t欲取姑與\n欲取姑予\t欲取姑予\n欲哭无泪\t欲哭無淚\n欲善其事必先利其器\t欲善其事必先利其器\n欲堑\t欲塹\n欲壑难填\t慾壑難填\n欲壑难饱\t欲壑難飽\n欲女\t慾女\n欲就还推\t欲就還推\n欲待\t欲待\n欲得\t欲得\n欲念\t慾念\n欲振乏力\t欲振乏力\n欲擒故纵\t欲擒故縱\n欲望\t慾望\n欲求\t欲求\n欲求不满\t慾求不滿\n欲海\t慾海\n欲海难填\t欲海難填\n欲深溪壑\t欲深谿壑\n欲火\t慾火\n欲火焚身\t慾火焚身\n欲炙之色\t欲炙之色\n欲界\t欲界\n欲益反损\t欲益反損\n欲盖弥彰\t欲蓋彌彰\n欲穷千里目\t欲窮千里目\n欲绝\t欲絕\n欲罢不能\t欲罷不能\n欲裂\t欲裂\n欲言又止\t欲言又止\n欲语还休\t欲語還休\n欲说还休\t欲說還休\n欲购从速\t欲購從速\n欲速不达\t欲速不達\n欲速则不达\t欲速則不達\n欲速而不达\t欲速而不達\n欲障\t慾障\n欷吁\t欷吁\n欸乃曲\t欸乃曲\n欹嵚历落\t欹嶔歷落\n欺善怕恶\t欺善怕惡\n欺敌战术\t欺敵戰術\n欺蒙\t欺矇\n款冬\t款冬\n款曲\t款曲\n歇了\t歇了\n歇后\t歇後\n歇后语\t歇後語\n歇斯底里\t歇斯底里\n歇洛克福尔摩斯\t歇洛克福爾摩斯\n歇马杯\t歇馬杯\n歌仔戏团\t歌仔戲團\n歌剧团\t歌劇團\n歌台舞榭\t歌臺舞榭\n歌后\t歌后\n歌坛\t歌壇\n歌坛上\t歌壇上\n歌坛新秀\t歌壇新秀\n歌声绕梁\t歌聲繞樑\n歌手丁当\t歌手丁噹\n歌曲\t歌曲\n歌板\t歌板\n歌舞升平\t歌舞昇平\n歌舞团\t歌舞團\n歌钟\t歌鐘\n歌风台\t歌風臺\n歛出来\t歛出來\n止不了\t止不了\n止于\t止於\n止于至善\t止於至善\n止咳药\t止咳藥\n止恶扬善\t止惡揚善\n止泻药\t止瀉藥\n止涨回跌\t止漲回跌\n止痛药\t止痛藥\n止血药\t止血藥\n止谤莫如自修\t止謗莫如自脩\n止跌回升\t止跌回升\n止饥\t止飢\n正义党\t正義黨\n正义发展党\t正義發展黨\n正义斗争\t正義鬥爭\n正于\t正於\n正修工专\t正修工專\n正凶\t正凶\n正出\t正出\n正则参数\t正則參數\n正反两面\t正反兩面\n正反合\t正反合\n正反面\t正反面\n正合\t正合\n正合我意\t正合我意\n正合适\t正合適\n正后\t正後\n正后像\t正後像\n正后方\t正後方\n正向\t正向\n正向前看\t正向前看\n正处于\t正處於\n正多面体\t正多面體\n正头娘子\t正頭娘子\n正官庄\t正官莊\n正宫娘娘\t正宮娘娘\n正对面\t正對面\n正常范围\t正常範圍\n正弦\t正弦\n";

/// Part 91 of the text.
pub const ST_PHRASES_91: &'static str = "正弦曲线\t正弦曲線\n正当\t正當\n正当中\t正當中\n正当化\t正當化\n正当性\t正當性\n正当时\t正當時\n正当理由\t正當理由\n正当行为\t正當行為\n正当防卫\t正當防衛\n正当防卫行为\t正當防衛行為\n正念\t正念\n正手板\t正手板\n正斗粥面专家\t正斗粥麵專家\n正方向\t正方向\n正方晶系\t正方晶系\n正极\t正極\n正枝正叶\t正枝正葉\n正梁\t正樑\n正正当当\t正正當當\n正正确确\t正正確確\n正电子发射体层\t正電子發射體層\n正电子发射层析\t正電子發射層析\n正电子发射断层照相术\t正電子發射斷層照相術\n正电极\t正電極\n正确\t正確\n正确处理\t正確處理\n正确处理人民内部矛盾\t正確處理人民內部矛盾\n正确度\t正確度\n正确性\t正確性\n正确路线\t正確路線\n正误表\t正誤表\n正集团\t正集團\n正面\t正面\n正面人物\t正面人物\n正面图\t正面圖\n正面攻击\t正面攻擊\n此仆彼起\t此仆彼起\n此发彼应\t此發彼應\n此后\t此後\n此系\t此係\n步人后尘\t步人後塵\n步兵团\t步兵團\n步出\t步出\n步后尘\t步後塵\n步向\t步向\n步斗踏罡\t步斗踏罡\n步月登云\t步月登雲\n步枪团\t步槍團\n步步行凶\t步步行兇\n步步高升\t步步高昇\n步线行针\t步線行針\n步罡踏斗\t步罡踏斗\n步行虫\t步行蟲\n步调一致\t步調一致\n步进制\t步進制\n步里客谈\t步里客談\n步青云\t步青雲\n步飞烟传\t步飛煙傳\n武丑\t武丑\n武偃文修\t武偃文修\n武后\t武后\n武器系统\t武器系統\n武器级别材料\t武器級別材料\n武坛\t武壇\n武大郎吃毒药\t武大郎吃毒藥\n武当\t武當\n武当山\t武當山\n武当派\t武當派\n武斗\t武鬥\n武曲星\t武曲星\n武术\t武術\n武术指导\t武術指導\n武术比赛\t武術比賽\n武术竞赛\t武術競賽\n武松\t武松\n武松打虎\t武松打虎\n武梁祠画像\t武梁祠畫像\n武胜关\t武勝關\n武胜县\t武勝縣\n武装冲突\t武裝衝突\n武装斗争\t武裝鬥爭\n武里省\t武里省\n歧出\t歧出\n歪向\t歪向\n歪才\t歪才\n歪摆布\t歪擺佈\n歪曲\t歪曲\n歪曲事实\t歪曲事實\n歹念\t歹念\n歹斗\t歹鬥\n死不了\t死不了\n死不了心\t死不了心\n死了\t死了\n死于\t死於\n死于安乐\t死於安樂\n死于非命\t死於非命\n死伤枕借\t死傷枕藉\n死伤相借\t死傷相藉\n死党\t死黨\n死别\t死別\n死别生离\t死別生離\n死后\t死後\n死后多年\t死後多年\n死命挣扎\t死命掙扎\n死定了\t死定了\n死尸\t死屍\n死当\t死當\n死扣\t死扣\n死有余辜\t死有餘辜\n死有重于泰山轻于鸿毛\t死有重於泰山輕於鴻毛\n死板\t死板\n死板板\t死板板\n死气沉沉\t死氣沉沉\n死海古卷\t死海古卷\n死海经卷\t死海經卷\n死灰复然\t死灰復然\n死灰复燃\t死灰復燃\n死灰复燎\t死灰復燎\n死生未卜\t死生未卜\n死症\t死症\n死知府不如一个活老鼠\t死知府不如一個活老鼠\n死而不僵\t死而不僵\n死而后已\t死而後已\n死而后止\t死而後止\n死而复活\t死而復活\n死而复生\t死而復生\n死而复苏\t死而復甦\n死胡同\t死衚衕\n死要面子\t死要面子\n死角里\t死角裡\n死谷\t死谷\n死里求生\t死裡求生\n死里逃生\t死裡逃生\n死难同胞\t死難同胞\n死面\t死麵\n死马当活马医\t死馬當活馬醫\n死马当活马治\t死馬當活馬治\n殆尽\t殆盡\n殊别\t殊別\n殊域周咨录\t殊域周咨錄\n殊属不当\t殊屬不當\n殊方同致\t殊方同致\n殊涂一致\t殊塗一致\n殊涂同会\t殊塗同會\n殊涂同归\t殊塗同歸\n殊涂同致\t殊塗同致\n殊胜\t殊勝\n殊致\t殊致\n殊致同归\t殊致同歸\n殊路同归\t殊路同歸\n殊途同归\t殊途同歸\n残余\t殘餘\n残余沾染\t殘餘沾染\n残余物\t殘餘物\n残党\t殘黨\n残冬\t殘冬\n残冬腊月\t殘冬臘月\n残卷\t殘卷\n残干\t殘幹\n残废后\t殘廢後\n残念\t殘念\n残春雾雨余\t殘春霧雨餘\n残杯冷炙\t殘杯冷炙\n残秋\t殘秋\n残肴\t殘餚\n殖谷\t殖穀\n殚尽\t殫盡\n殚思极虑\t殫思極慮\n殚精极思\t殫精極思\n殚精极虑\t殫精極慮\n殡舍\t殯舍\n殢云尤雨\t殢雲尤雨\n殢雨尤云\t殢雨尤雲\n殴斗\t毆鬥\n段皇云\t段皇雲\n殷同\t殷同\n殷墟卜辞\t殷墟卜辭\n殷师牛斗\t殷師牛鬥\n殷鉴\t殷鑑\n殷鉴不远\t殷鑑不遠\n殿后\t殿後\n殿钟自鸣\t殿鐘自鳴\n毁了\t毀了\n毁于\t毀於\n毁于一旦\t毀於一旦\n毁尸灭迹\t毀屍滅跡\n毁廉蔑耻\t毀廉蔑恥\n毁弃\t毀棄\n毁方瓦合\t毀方瓦合\n毁炎\t燬炎\n毁犀\t燬犀\n毁誉\t譭譽\n毁誉参半\t譭譽參半\n毁诬\t譭誣\n毁钟为铎\t毀鐘為鐸\n毋贻后患\t毋貽後患\n毋须\t毋須\n毋须乎\t毋須乎\n母丑\t母醜\n母乳喂养\t母乳餵養\n母党\t母黨\n母后\t母后\n母大虫\t母大蟲\n母权制\t母權制\n母板\t母板\n母系\t母系\n母系亲属\t母系親屬\n母系制度\t母系制度\n母系社会\t母系社會\n母范\t母範\n母钟\t母鐘\n母音表\t母音表\n每一个人\t每一個人\n每个\t每個\n每个人\t每個人\n每个月\t每個月\n每于\t每於\n每公里\t每公里\n每分钟\t每分鐘\n每只\t每隻\n每周\t每週\n每周一次\t每週一次\n每回\t每回\n每当\t每當\n每战必胜\t每戰必勝\n每日里\t每日裡\n每日限价\t每日限價\n每杯\t每杯\n每每只\t每每只\n每种\t每種\n每秒钟\t每秒鐘\n每端口价格\t每端口價格\n每面\t每面\n毒僵指\t毒殭指\n毒症\t毒症\n毒药\t毒藥\n毒药苦口\t毒藥苦口\n毒药苦口利于病\t毒藥苦口利於病\n毒虫\t毒蟲\n毒针\t毒針\n比上不足比下有余\t比上不足比下有餘\n比不了\t比不了\n比个\t比個\n比个大哥二哥\t比個大哥二哥\n比个高下\t比個高下\n比个高低\t比個高低\n比了\t比了\n比什凯克\t比什凱克\n比价\t比價\n比众不同\t比眾不同\n比例代表制\t比例代表制\n比出\t比出\n比划\t比劃\n比合\t比合\n比周\t比周\n比喻失当\t比喻失當\n比干\t比干\n比并\t比並\n比手划脚\t比手劃腳\n比才\t比才\n比杆赛\t比桿賽\n比武\t比武\n比约克曼\t比約克曼\n比舍\t比舍\n比表面\t比表面\n比较规范\t比較規範\n毕业于\t畢業於\n毕于\t畢於\n毕其功于一役\t畢其功於一役\n毕力同心\t畢力同心\n毕升\t畢昇\n毕宿星团\t畢宿星團\n毕生发展\t畢生發展\n毕翠克丝\t畢翠克絲\n毗婆尸佛\t毗婆尸佛\n毗舍婆佛\t毗舍婆佛\n毙而后已\t斃而後已\n毚欲\t毚欲\n毛了\t毛了\n毛了手脚\t毛了手腳\n毛出在羊身上\t毛出在羊身上\n毛卷\t毛卷\n毛厕里砖儿\t毛廁裡磚兒\n毛发\t毛髮\n毛发之功\t毛髮之功\n毛发俱竖\t毛髮俱豎\n毛发倒竖\t毛髮倒豎\n毛发悚然\t毛髮悚然\n毛发森竖\t毛髮森豎\n毛发皆竖\t毛髮皆豎\n毛发耸然\t毛髮聳然\n毛司里砖儿\t毛司裡磚兒\n毛囊虫\t毛囊蟲\n毛团\t毛團\n毛团把戏\t毛團把戲\n毛坑没后壁\t毛坑沒後壁\n毛姜\t毛薑\n毛巾布\t毛巾布\n毛布\t毛布\n毛板\t毛板\n毛栗子\t毛栗子\n毛毛虫\t毛毛蟲\n毛毯里\t毛毯裡\n毛纺厂\t毛紡廠\n毛线针\t毛線針\n毛织布\t毛織布\n毛虫\t毛蟲\n毛语录\t毛語錄\n毛里塔尼亚\t毛里塔尼亞\n毛里拖毡\t毛裡拖氈\n毛里求斯\t毛里求斯\n毫不相干\t毫不相干\n毫仑目\t毫侖目\n毫克\t毫克\n毫升\t毫升\n毫厘\t毫釐\n毫厘不差\t毫釐不差\n";

/// Part 92 of the text.
pub const ST_PHRASES_92: &'static str = "毫厘不爽\t毫釐不爽\n毫厘之差\t毫釐之差\n毫厘千里\t毫釐千里\n毫发\t毫髮\n毫发不差\t毫髮不差\n毫发不爽\t毫髮不爽\n毫发之差\t毫髮之差\n毫发无损\t毫髮無損\n毫发未伤\t毫髮未傷\n毫居里\t毫居里\n毫无\t毫無\n毫无二致\t毫無二致\n毫无价值\t毫無價值\n毫无准备\t毫無準備\n毫无根据\t毫無根據\n毫无节制\t毫無節制\n毫针\t毫針\n毯里\t毯裡\n氏症\t氏症\n氏胄\t氏胄\n民丰\t民豐\n民丰县\t民豐縣\n民主党\t民主黨\n民主党人\t民主黨人\n民主党员\t民主黨員\n民主党派\t民主黨派\n民主党籍\t民主黨籍\n民主制度\t民主制度\n民主进步党\t民主進步黨\n民主进步党籍\t民主進步黨籍\n民主集中制\t民主集中制\n民众代表\t民眾代表\n民众党\t民眾黨\n民众团体\t民眾團體\n民俗曲艺\t民俗曲藝\n民党\t民黨\n民和回族土族自治县\t民和回族土族自治縣\n民和年丰\t民和年豐\n民团\t民團\n民坠涂炭\t民墜塗炭\n民居里\t民居裡\n民心向背\t民心向背\n民心所向\t民心所向\n民心趋向\t民心趨向\n民志\t民志\n民怨盈涂\t民怨盈塗\n民意代表\t民意代表\n民意向背\t民意向背\n民政里\t民政里\n民族党\t民族黨\n民族同化\t民族同化\n民族团结\t民族團結\n民族复兴运动\t民族復興運動\n民族志\t民族誌\n民族色彩\t民族色彩\n民极\t民極\n民生涂炭\t民生塗炭\n民生雕敝\t民生雕敝\n民用建筑\t民用建築\n民用航空器适航证书\t民用航空器適航證書\n民社党\t民社黨\n民穷财尽\t民窮財盡\n民谣歌曲\t民謠歌曲\n民进党\t民進黨\n民进党员\t民進黨員\n民进党团\t民進黨團\n民进党版\t民進黨版\n民进党籍\t民進黨籍\n民间合会\t民間合會\n民间团体\t民間團體\n民间艺术\t民間藝術\n民风淳朴\t民風淳樸\n民风纯朴\t民風純樸\n气一冲\t氣一衝\n气了\t氣了\n气充志定\t氣充志定\n气充志骄\t氣充志驕\n气克斗牛\t氣克斗牛\n气冲冲\t氣沖沖\n气冲斗牛\t氣沖斗牛\n气冲牛斗\t氣沖牛斗\n气冲霄汉\t氣沖霄漢\n气出\t氣出\n气力用尽\t氣力用盡\n气动控制\t氣動控制\n气势熏灼\t氣勢熏灼\n气压表\t氣壓表\n气吁吁\t氣吁吁\n气吞牛斗\t氣吞牛斗\n气味相合\t氣味相合\n气喘吁吁\t氣喘吁吁\n气团\t氣團\n气在心里\t氣在心裡\n气定神闲\t氣定神閒\n气尽\t氣盡\n气帘\t氣簾\n气扬采飞\t氣揚采飛\n气数已尽\t氣數已盡\n气极败坏\t氣極敗壞\n气满志得\t氣滿志得\n气满志骄\t氣滿志驕\n气焰万丈\t氣燄萬丈\n气焰熏天\t氣焰熏天\n气管切开术\t氣管切開術\n气管插管术\t氣管插管術\n气若游丝\t氣若游絲\n气象万千\t氣象萬千\n气象台\t氣象臺\n气郁\t氣鬱\n气铲\t氣鏟\n气骄志满\t氣驕志滿\n氘核\t氘核\n氢净合成油\t氫淨合成油\n氢卤酸\t氫鹵酸\n氤郁\t氤鬱\n氨基甲酸酯类化合物\t氨基甲酸酯類化合物\n氮血症\t氮血症\n水一冲\t水一沖\n水上摩托车\t水上摩托車\n水俣症\t水俁症\n水光云影\t水光雲影\n水再冲\t水再沖\n水冲\t水沖\n水准\t水準\n水准仪\t水準儀\n水准器\t水準器\n水准图\t水準圖\n水准测量\t水準測量\n水利制\t水利制\n水力发电\t水力發電\n水力发电站\t水力發電站\n水厂\t水廠\n水又冲\t水又沖\n水合\t水合\n水合物\t水合物\n水团\t水團\n水尽山穷\t水盡山窮\n水尽鹅飞\t水盡鵝飛\n水已冲\t水已沖\n水已干\t水已乾\n水帘\t水簾\n水帘洞\t水簾洞\n水干\t水乾\n水干尽\t水乾盡\n水干掉\t水乾掉\n水平面\t水平面\n水底写字板\t水底寫字板\n水底捞针\t水底撈針\n水当当\t水噹噹\n水彩\t水彩\n水彩画\t水彩畫\n水彩画家\t水彩畫家\n水彩笔\t水彩筆\n水彩颜料\t水彩顏料\n水急冲\t水急沖\n水成岩\t水成岩\n水才干\t水才乾\n水斗\t水斗\n水斧虫\t水斧蟲\n水晶杯\t水晶杯\n水曲\t水曲\n水曲柳\t水曲柳\n水来汤里去\t水來湯裡去\n水杯\t水杯\n水柜\t水櫃\n水波荡漾\t水波盪漾\n水泥厂\t水泥廠\n水泥板\t水泥板\n水注\t水注\n水流内布袋戏台\t水流內布袋戲臺\n水浒后传\t水滸後傳\n水清可鉴\t水清可鑑\n水温表\t水溫表\n水烟\t水煙\n水烟袋\t水菸袋\n水磨腔曲子\t水磨腔曲子\n水秋千\t水鞦韆\n水穷山尽\t水窮山盡\n水管系\t水管系\n水管面\t水管麵\n水精帘\t水精簾\n水系\t水系\n水经注\t水經注\n水落石出\t水落石出\n水蜡树\t水蠟樹\n水蜡虫\t水蠟蟲\n水表\t水錶\n水谷\t水谷\n水谷之海\t水穀之海\n水谷隼\t水谷隼\n水轮发动\t水輪發動\n水轮发动机\t水輪發動機\n水轮发电\t水輪發電\n水逝云卷\t水逝雲卷\n水道里\t水道裡\n水里\t水裡\n水里乡\t水里鄉\n水里水里来火里火里去\t水裡水裡來火裡火裡去\n水里纳瓜\t水裡納瓜\n水鉴\t水鑑\n水陆并进\t水陸並進\n水面\t水面\n水面上\t水面上\n水面系数\t水面係數\n水面舰\t水面艦\n水面舰艇\t水面艦艇\n水龙卷\t水龍捲\n永不录用\t永不錄用\n永丰\t永豐\n永丰余\t永豐餘\n永丰县\t永豐縣\n永丰堂\t永豐堂\n永丰舰\t永豐艦\n永丰舰事件\t永豐艦事件\n永丰金\t永豐金\n永修县\t永修縣\n永别\t永別\n永别酒\t永別酒\n永历\t永曆\n永历史\t永歷史\n永历经\t永歷經\n永发\t永發\n永志\t永志\n永志不忘\t永誌不忘\n永结同心\t永結同心\n永续发展\t永續發展\n永胜\t永勝\n永胜县\t永勝縣\n汀曲\t汀曲\n求借\t求借\n求出\t求出\n求助于\t求助於\n求助于人\t求助於人\n求古录\t求古錄\n求同\t求同\n求同存异\t求同存異\n求才\t求才\n求才若渴\t求才若渴\n求教于\t求教於\n求死愿望\t求死願望\n求生意志\t求生意志\n求田问舍\t求田問舍\n求知欲\t求知慾\n求神问卜\t求神問卜\n求签\t求籤\n求胜\t求勝\n求胜心\t求勝心\n求过于供\t求過於供\n求道于盲\t求道於盲\n汇业\t滙業\n汇业财经集团\t滙業財經集團\n汇业银行\t滙業銀行\n汇丰\t滙豐\n汇丰银行\t滙豐銀行\n汇为\t匯為\n汇付\t匯付\n汇价\t匯價\n汇信\t匯信\n汇兑\t匯兌\n汇入\t匯入\n汇出\t匯出\n汇出行\t匯出行\n汇刊\t彙刊\n汇划\t匯劃\n汇到\t匯到\n汇合\t匯合\n汇回\t匯回\n汇寄\t匯寄\n汇展\t匯展\n汇川区\t匯川區\n汇差\t匯差\n汇市\t匯市\n汇总\t彙總\n汇成\t匯成\n汇报\t彙報\n汇拢\t匯攏\n汇改\t匯改\n汇整\t彙整\n汇映\t彙映\n汇款\t匯款\n汇款人\t匯款人\n汇款单\t匯款單\n汇水\t匯水\n汇流\t匯流\n汇流处\t匯流處\n汇流排\t匯流排\n汇流点\t匯流點\n汇流环\t匯流環\n汇演\t匯演\n汇点\t匯點\n汇率\t匯率\n汇率制\t匯率制\n汇率差额\t匯率差額\n汇电\t匯電\n汇票\t匯票\n汇算\t彙算\n汇纂\t彙纂\n汇给\t匯給\n汇编\t彙編\n汇聚\t匯聚\n汇至\t匯至\n汇费\t匯費\n汇辑\t彙輯\n汇进\t匯進\n汇通\t匯通\n汇金\t匯金\n汇钱\t匯錢\n汇银\t匯銀\n汇集\t彙集\n汇集点\t匯集點\n汉书艺文志\t漢書藝文志\n汉克\t漢克\n汉克阿伦\t漢克阿倫\n汉台\t漢臺\n汉台区\t漢臺區\n汉城特别市\t漢城特別市\n汉奸\t漢奸\n汉奸走狗\t漢奸走狗\n汉学系\t漢學系\n汉宫秋\t漢宮秋\n汉宫秋月\t漢宮秋月\n汉弥尔顿\t漢彌爾頓\n汉弥登钟\t漢彌登鐘\n汉弥登钟表公司\t漢彌登鐘錶公司\n汉志\t漢志\n汉杰\t漢傑\n";

/// Part 93 of the text.
pub const ST_PHRASES_93: &'static str = "汉满蒙回藏\t漢滿蒙回藏\n汉药方\t漢藥方\n汉萨同盟\t漢薩同盟\n汉藏语系\t漢藏語系\n汗出如浆\t汗出如漿\n汗出如雨\t汗出如雨\n汗洽股栗\t汗洽股慄\n汗流满面\t汗流滿面\n汗腾格里\t汗騰格里\n汞合金\t汞合金\n江云渭树\t江雲渭樹\n江南四大才子\t江南四大才子\n江南机器制造局\t江南機器製造局\n江参\t江參\n江宏杰\t江宏傑\n江干\t江干\n江干区\t江乾區\n江志雄\t江志雄\n江村销夏录\t江村銷夏錄\n江海同归\t江海同歸\n江淹才尽\t江淹才盡\n江湖术士\t江湖術士\n江湖术语\t江湖術語\n江苏\t江蘇\n江苏人\t江蘇人\n江苏南钢\t江蘇南鋼\n江苏省\t江蘇省\n江苏队\t江蘇隊\n江表\t江表\n江西师范大学\t江西師範大學\n江郎才尽\t江郎才盡\n江采苹\t江采蘋\n江面\t江面\n江面上\t江面上\n江韦仑\t江韋侖\n池里\t池裡\n污水处理厂\t污水處理廠\n污蔑\t污衊\n汤下面\t湯下麵\n汤加里罗\t湯加里羅\n汤团\t湯糰\n汤姆历险记\t湯姆歷險記\n汤姆斯杯\t湯姆斯杯\n汤姆汉克\t湯姆漢克\n汤姆索亚历险记\t湯姆索亞歷險記\n汤杯\t湯杯\n汤药\t湯藥\n汤里来水里去\t湯裡來水裡去\n汤面\t湯麵\n汪少杰\t汪少傑\n汪曲克\t汪曲克\n汲于\t汲於\n汲汲于\t汲汲於\n汴梁\t汴梁\n汹涌\t洶湧\n汽电共生系统\t汽電共生系統\n汽表\t汽表\n汽车厂\t汽車廠\n汽轮发电\t汽輪發電\n汽轮发电机\t汽輪發電機\n沃依采克\t沃依采克\n沃兹尼克\t沃茲尼克\n沃枝叶不如培根本\t沃枝葉不如培根本\n沃达丰\t沃達豐\n沃野千里\t沃野千里\n沈世宏\t沈世宏\n沈世朋\t沈世朋\n沈丘县\t沈丘縣\n沈云英\t沈雲英\n沈亚之\t沈亞之\n沈从文\t沈從文\n沈伟豪\t沈偉豪\n沈传芷\t沈傳芷\n沈佳颖\t沈佳穎\n沈佺期\t沈佺期\n沈兼士\t沈兼士\n沈勇\t沈勇\n沈北新\t沈北新\n沈北新区\t瀋北新區\n沈厚\t沈厚\n沈吉线\t瀋吉線\n沈周\t沈周\n沈哲鲲\t沈哲鯤\n沈国放\t沈國放\n沈塔尼\t沈塔尼\n沈复\t沈復\n沈天俞\t沈天俞\n沈如峰\t沈如峯\n沈家诚\t沈家誠\n沈富雄\t沈富雄\n沈尹默\t沈尹默\n沈山线\t瀋山線\n沈崇诲\t沈崇誨\n沈州\t瀋州\n沈庆京\t沈慶京\n沈庆光\t沈慶光\n沈建宏\t沈建宏\n沈惠珍\t沈惠珍\n沈括\t沈括\n沈振来\t沈振來\n沈文台\t沈文臺\n沈文成\t沈文成\n沈明伦\t沈明倫\n沈春华\t沈春華\n沈昭铭\t沈昭銘\n沈柏苍\t沈柏蒼\n沈殿霞\t沈殿霞\n沈水\t瀋水\n沈河\t瀋河\n沈河区\t瀋河區\n沈海\t瀋海\n沈海铁路\t瀋海鐵路\n沈淑敏\t沈淑敏\n沈玉琳\t沈玉琳\n沈璀庭\t沈璀庭\n沈疔\t沈疔\n沈筱珺\t沈筱珺\n沈约\t沈約\n沈继昌\t沈繼昌\n沈腰\t沈腰\n沈腰潘鬓\t沈腰潘鬢\n沈葆桢\t沈葆楨\n沈葆祯\t沈葆禎\n沈诗任笔\t沈詩任筆\n沈诗钧\t沈詩鈞\n沈钧启\t沈鈞啓\n沈钰杰\t沈鈺傑\n沈阳\t瀋陽\n沈阳市\t瀋陽市\n沈阳师范\t瀋陽師範\n沈阳师范大学\t瀋陽師範大學\n沈雁冰\t沈雁冰\n沈雨庭\t沈雨庭\n沈靳扬\t沈靳揚\n沈馆录\t瀋館錄\n沉下\t沉下\n沉不住气\t沉不住氣\n沉住气\t沉住氣\n沉冤\t沉冤\n沉吟\t沉吟\n沉寂\t沉寂\n沉得住气\t沉得住氣\n沉思\t沉思\n沉思往事\t沉思往事\n沉没\t沉沒\n沉沦\t沉淪\n沉浊\t沉濁\n沉浮\t沉浮\n沉浸\t沉浸\n沉浸于\t沉浸於\n沉淀\t沉澱\n沉淀出来\t沉澱出來\n沉淀剂\t沉澱劑\n沉淀法\t沉澱法\n沉淀物\t沉澱物\n沉渐刚克\t沉漸剛克\n沉湎\t沉湎\n沉湎于\t沉湎於\n沉湎酒色\t沉湎酒色\n沉溺\t沉溺\n沉溺于\t沉溺於\n沉滞\t沉滯\n沉滞性\t沉滯性\n沉潜刚克\t沉潛剛克\n沉甸甸\t沉甸甸\n沉疴\t沉痾\n沉痛\t沉痛\n沉痼\t沉痼\n沉睡\t沉睡\n沉睡不醒\t沉睡不醒\n沉砂池\t沉砂池\n沉积\t沉積\n沉积岩\t沉積岩\n沉积石\t沉積石\n沉筒\t沉筒\n沉船\t沉船\n沉落\t沉落\n沉迷\t沉迷\n沉迷不醒\t沉迷不醒\n沉迷于\t沉迷於\n沉郁\t沉鬱\n沉郁顿挫\t沉鬱頓挫\n沉醉\t沉醉\n沉醉于\t沉醉於\n沉重\t沉重\n沉闷\t沉悶\n沉降\t沉降\n沉陷\t沉陷\n沉陷于\t沉陷於\n沉静\t沉靜\n沉静下来\t沉靜下來\n沉香\t沉香\n沉鱼落雁\t沉魚落雁\n沉默\t沉默\n沉默不语\t沉默不語\n沉默寡言\t沉默寡言\n沓合\t沓合\n沙仑\t沙崙\n沙依巴克\t沙依巴克\n沙依巴克区\t沙依巴克區\n沙克\t沙克\n沙克疫苗\t沙克疫苗\n沙参\t沙參\n沙发\t沙發\n沙发垫\t沙發墊\n沙发床\t沙發牀\n沙发椅\t沙發椅\n沙发里\t沙發裡\n沙坑杆\t沙坑桿\n沙岩\t沙岩\n沙弥\t沙彌\n沙弥戒\t沙彌戒\n沙河涌\t沙河涌\n沙洛培克\t沙洛培克\n沙漠生态系\t沙漠生態系\n沙茶面\t沙茶麵\n沙里夫\t沙里夫\n沙里淘金\t沙裡淘金\n沙雕\t沙雕\n沙雕赛\t沙雕賽\n沙鱼涌\t沙魚涌\n沟谷\t溝谷\n没个出豁\t沒個出豁\n没个好结果\t沒個好結果\n没个开交\t沒個開交\n没个是处\t沒個是處\n没个见识\t沒個見識\n没个里儿表儿\t沒個裡兒表兒\n没个黑家白日的\t沒個黑家白日的\n没乱里\t沒亂裡\n没了\t沒了\n没了主意\t沒了主意\n没了当\t沒了當\n没了指望\t沒了指望\n没了期\t沒了期\n没了法\t沒了法\n没了王的蜜蜂\t沒了王的蜜蜂\n没了经纬\t沒了經緯\n没了结处\t沒了結處\n没了落\t沒了落\n没事干\t沒事幹\n没人烟\t沒人煙\n没件好当眼的\t沒件好當眼的\n没体面\t沒體面\n没借\t沒借\n没做摆布\t沒做擺佈\n没关系\t沒關係\n没准\t沒準\n没准儿\t沒準兒\n没准头\t沒準頭\n没出\t沒出\n没出去\t沒出去\n没出息\t沒出息\n没出来\t沒出來\n没出豁\t沒出豁\n没出豁处\t沒出豁處\n没出长\t沒出長\n没升\t沒升\n没合杀\t沒合殺\n没合煞\t沒合煞\n没合眼儿\t沒合眼兒\n没后\t沒後\n没后跟\t沒後跟\n没向\t沒向\n没回\t沒回\n没回去\t沒回去\n没回来\t沒回來\n没地里\t沒地裡\n没地里巡检\t沒地裡巡檢\n没处出豁\t沒處出豁\n没头当\t沒頭當\n没完没了\t沒完沒了\n没家亲引不出外鬼来\t沒家親引不出外鬼來\n没干\t沒幹\n没干净\t沒乾淨\n没干头\t沒幹頭\n没干没净\t沒乾沒淨\n没幸\t沒幸\n没张没致\t沒張沒致\n没当\t沒當\n没当家花花\t沒當家花花\n没志气\t沒志氣\n没志行\t沒志行\n没念\t沒念\n没意志\t沒意志\n没折至\t沒摺至\n没担当\t沒擔當\n没摆布处\t沒擺佈處\n没有\t沒有\n没有人烟\t沒有人煙\n没有准儿\t沒有準兒\n没有差别\t沒有差別\n没有来历\t沒有來歷\n没有联系\t沒有聯繫\n没有面目\t沒有面目\n没来历\t沒來歷\n没来回\t沒來回\n没松下\t沒鬆下\n没极奈何\t沒極奈何\n没样范\t沒樣範\n没梁桶\t沒樑桶\n没梢干\t沒梢幹\n没爷娘的祖宗\t沒爺娘的祖宗\n没爹没娘\t沒爹沒娘\n没种\t沒種\n没签\t沒簽\n没算当\t沒算當\n没精打彩\t沒精打彩\n没精打采\t沒精打采\n没脊梁\t沒脊樑\n没脸面\t沒臉面\n没药\t沒藥\n没见世面\t沒見世面\n没见食面\t沒見食面\n没讨个空处\t沒討個空處\n没说出\t沒說出\n没造化的种子\t沒造化的種子\n没采\t沒采\n没里没外\t沒裡沒外\n没量斗\t沒量斗\n没雕当\t沒雕當\n没面子\t沒面子\n没面皮\t沒面皮\n没面目\t沒面目\n沤郁\t漚鬱\n沥干\t瀝乾\n沥血之仇\t瀝血之仇\n沦于\t淪於\n沮舍\t沮舍\n河不出图\t河不出圖\n河升镇\t河昇鎮\n河岳\t河嶽\n";

/// Part 94 of the text.
pub const ST_PHRASES_94: &'static str = "河干\t河干\n河曲\t河曲\n河曲县\t河曲縣\n河曲智叟\t河曲智叟\n河梁\t河樑\n河流汇集\t河流匯集\n河涌\t河涌\n河涸海干\t河涸海乾\n河系\t河系\n河落海干\t河落海乾\n河谷\t河谷\n河道里\t河道裡\n河里\t河裡\n河里孩儿岸上娘\t河裡孩兒岸上娘\n河里淹死是会水的\t河裡淹死是會水的\n河面\t河面\n河面上\t河面上\n油价\t油價\n油伙儿\t油夥兒\n油光满面\t油光滿面\n油厂\t油廠\n油回磨转\t油回磨轉\n油头粉面\t油頭粉面\n油尽灯枯\t油盡燈枯\n油布\t油布\n油当量\t油當量\n油彩\t油彩\n油斗\t油鬥\n油杯\t油杯\n油松\t油松\n油泼面\t油潑麵\n油漆未干\t油漆未乾\n油烟\t油煙\n油烟机\t油煙機\n油电混合车\t油電混合車\n油花卜\t油花卜\n油茶面儿\t油茶麵兒\n油表\t油表\n油酱面\t油醬麵\n油里滑\t油裡滑\n油面\t油麵\n油页岩\t油頁岩\n治了\t治了\n治愈\t治癒\n治术\t治術\n治疗炎症\t治療炎症\n沽名吊誉\t沽名吊譽\n沽名干誉\t沽名干譽\n沽酒当炉\t沽酒當爐\n沾临高速\t霑臨高速\n沾会高速\t霑會高速\n沾体\t霑體\n沾体涂足\t霑體塗足\n沾化\t霑化\n沾恩\t霑恩\n沾染控制\t沾染控制\n沾洽\t霑洽\n沾益\t霑益\n沾衿\t霑衿\n沾青线\t霑青線\n沾面\t沾麵\n沿才授职\t沿才授職\n沿门托钵\t沿門托缽\n沿门挨户\t沿門挨戶\n泄了\t泄了\n泄出\t泄出\n泄出去\t泄出去\n泄出来\t泄出來\n泄欲\t泄慾\n泅游\t泅遊\n泉台\t泉臺\n泉州师范学院\t泉州師範學院\n泊松\t泊松\n泊松分布\t泊松分佈\n泌尿系统\t泌尿系統\n泌水乐饥\t泌水樂飢\n泐复\t泐覆\n泐布\t泐布\n法书要录\t法書要錄\n法云\t法雲\n法云地\t法雲地\n法克斯\t法克斯\n法兰克\t法蘭克\n法兰克林\t法蘭克林\n法兰克欧兹\t法蘭克歐茲\n法兰克福\t法蘭克福\n法兰克福学派\t法蘭克福學派\n法兰克福汇报\t法蘭克福匯報\n法兰克福证券交易所\t法蘭克福證券交易所\n法兰克福车展\t法蘭克福車展\n法出多门\t法出多門\n法制\t法制\n法制办公室\t法制辦公室\n法制化\t法制化\n法制局\t法制局\n法制日报\t法制日報\n法占\t法佔\n法台\t法臺\n法向量\t法向量\n法因于敝而成于过\t法因於敝而成於過\n法国共产党\t法國共產黨\n法国杯\t法國杯\n法坛\t法壇\n法定准备率\t法定準備率\n法布尔\t法布爾\n法布施\t法佈施\n法律制裁\t法律制裁\n法律学系\t法律學系\n法律系\t法律系\n法律规范\t法律規範\n法律面\t法律面\n法念\t法念\n法拉托\t法拉托\n法文系\t法文系\n法曲\t法曲\n法术\t法術\n法术无边\t法術無邊\n法柜奇兵\t法櫃奇兵\n法理\t法理\n法系\t法系\n法西斯党\t法西斯黨\n法语系\t法語系\n法身舍利\t法身舍利\n法雨均沾\t法雨均霑\n法鲁克\t法魯克\n泛了\t泛了\n泛亚\t泛亞\n泛亮\t泛亮\n泛光\t泛光\n泛出\t泛出\n泛出来\t泛出來\n泛函\t泛函\n泛动\t泛動\n泛化\t泛化\n泛区\t泛區\n泛听\t泛聽\n泛味\t泛味\n泛地\t泛地\n泛型\t泛型\n泛微\t泛微\n泛指\t泛指\n泛欧\t泛歐\n泛水\t泛水\n泛水凌山\t汎水淩山\n泛池\t泛池\n泛油\t泛油\n泛泛\t泛泛\n泛泰\t泛泰\n泛海\t泛海\n泛游\t泛遊\n泛湖\t泛湖\n泛滥\t氾濫\n泛点\t泛點\n泛爱\t泛愛\n泛现\t泛現\n泛珠\t泛珠\n泛白\t泛白\n泛的\t泛的\n泛着\t泛著\n泛称\t泛稱\n泛素\t泛素\n泛红\t泛紅\n泛绿\t泛綠\n泛美\t泛美\n泛胜之\t氾勝之\n泛舟\t泛舟\n泛蓝\t泛藍\n泛览\t泛覽\n泛论\t泛論\n泛读\t泛讀\n泛谈\t泛談\n泛起\t泛起\n泛酸\t泛酸\n泛青\t泛青\n泛非\t泛非\n泛音\t泛音\n泛黄\t泛黃\n泡出\t泡出\n泡制\t泡製\n泡杯\t泡杯\n泡沫发胶\t泡沫髮膠\n泡面\t泡麵\n泡面哲学\t泡麵哲學\n泡面市场\t泡麵市場\n波光荡漾\t波光盪漾\n波克夏\t波克夏\n波克特\t波克特\n波兰舞曲\t波蘭舞曲\n波勒瓦裘克\t波勒瓦裘克\n波发藻\t波髮藻\n波哥里卡\t波哥里卡\n波塞冬\t波塞冬\n波士顿艺术博物馆\t波士頓藝術博物館\n波多马克河\t波多馬克河\n波娘\t波娘\n波尔卡舞曲\t波爾卡舞曲\n波尔布特\t波爾布特\n波尔干\t波爾干\n波尔干地区\t波爾干地區\n波布政权\t波布政權\n波布那\t波布那\n波布那共和国\t波布那共和國\n波形板\t波形板\n波托马克河\t波托馬克河\n波折\t波折\n波拉克\t波拉克\n波斯里亚\t波斯里亞\n波来克\t波來克\n波杰曼\t波傑曼\n波棱菜\t波稜菜\n波洛克\t波洛克\n波浪周期\t波浪週期\n波涌云乱\t波湧雲亂\n波状云\t波狀雲\n波荡\t波盪\n波诡云谲\t波詭雲譎\n波谲云诡\t波譎雲詭\n波谷\t波谷\n波里\t波里\n波里尼西亚\t波里尼西亞\n波里尼西亚人\t波里尼西亞人\n波里斯\t波里斯\n波雷罗舞曲\t波雷羅舞曲\n波面\t波面\n泣别\t泣別\n泣别虞姬\t泣別虞姬\n泥于\t泥於\n泥土面\t泥土面\n泥塑木雕\t泥塑木雕\n泥封函谷\t泥封函谷\n泥岩\t泥岩\n泥巴里\t泥巴裡\n泥板\t泥板\n泥板岩\t泥板岩\n泥涂\t泥塗\n泥涌\t泥涌\n泥灰岩\t泥灰岩\n泥质岩\t泥質岩\n泥质页岩\t泥質頁岩\n泥铲\t泥鏟\n注上\t註上\n注中奖\t注中獎\n注云\t注云\n注儿\t注兒\n注入\t注入\n注入式教学法\t注入式教學法\n注册\t註冊\n注册主任\t註冊主任\n注册人\t註冊人\n注册单\t註冊單\n注册商标\t註冊商標\n注册手续\t註冊手續\n注册日\t註冊日\n注册用户\t註冊用戶\n注册码\t註冊碼\n注册组\t註冊組\n注册费\t註冊費\n注到\t注到\n注名\t註名\n注塑\t注塑\n注失\t註失\n注子\t注子\n注定\t註定\n注射\t注射\n注射剂\t注射劑\n注射器\t注射器\n注射液\t注射液\n注射筒\t注射筒\n注射针\t注射針\n注射针头\t注射針頭\n注心\t注心\n注意\t注意\n注意事项\t注意事項\n注意到\t注意到\n注意力\t注意力\n注意力缺陷过动症\t注意力缺陷過動症\n注意看\t注意看\n注慕\t注慕\n注批\t註批\n注文\t註文\n注明\t註明\n注本\t注本\n注标\t註標\n注水\t注水\n注油\t注油\n注消\t注消\n注满\t注滿\n注生娘娘\t註生娘娘\n注疏\t註疏\n注目\t注目\n注目礼\t注目禮\n注脚\t註腳\n注色\t注色\n注视\t注視\n注解\t註解\n注记\t註記\n注译\t註譯\n注资\t注資\n注释\t註釋\n注重\t注重\n注销\t註銷\n注音\t注音\n注音一式\t注音一式\n注音字母\t注音字母\n注音文\t注音文\n注音法\t注音法\n注音符号\t注音符號\n泪出痛肠\t淚出痛腸\n泪如泉涌\t淚如泉湧\n泪容满面\t淚容滿面\n泪干\t淚乾\n泪干肠断\t淚乾腸斷\n泪流满面\t淚流滿面\n泪眼蒙眬\t淚眼矇矓\n泪蜡\t淚蠟\n泫然欲泣\t泫然欲泣\n泫然欲泪\t泫然欲淚\n泰克\t泰克\n泰勒制度\t泰勒制度\n泰国新娘\t泰國新娘\n泰坛\t泰壇\n泰坦尼克号\t泰坦尼克號\n泰山北斗\t泰山北斗\n泰山娘娘\t泰山娘娘\n泰山梁木\t泰山樑木\n泰斗\t泰斗\n泰极而否\t泰極而否\n泰极还生否乐处又逢悲\t泰極還生否樂處又逢悲\n泰爱泰党\t泰愛泰黨\n泰特斯安德洛尼克斯\t泰特斯安德洛尼克斯\n泰特美术馆\t泰特美術館\n泰系各族\t泰系各族\n泱郁\t泱鬱\n泳坛\t泳壇\n泳气钟\t泳氣鐘\n泻了\t瀉了\n泻出\t瀉出\n泻出去\t瀉出去\n泻出来\t瀉出來\n泻药\t瀉藥\n泼出\t潑出\n泼出去\t潑出去\n泼出来\t潑出來\n泼出胆子\t潑出膽子\n泼才\t潑才\n泼毛团\t潑毛團\n";

/// Part 95 of the text.
pub const ST_PHRASES_95: &'static str = "泼烟花\t潑煙花\n泼脏水\t潑髒水\n泼花团\t潑花團\n泼贱烟花\t潑賤煙花\n泽卤\t澤鹵\n泽当\t澤當\n泽当镇\t澤當鎮\n泽梁\t澤樑\n泽渗漓而下降\t澤滲灕而下降\n泽里可\t澤里可\n洁面乳\t潔面乳\n洁面露\t潔面露\n洄暗\t洄闇\n洄游\t洄游\n洋参\t洋參\n洋场恶少\t洋場惡少\n洋布\t洋布\n洋干漆\t洋乾漆\n洋李干\t洋李乾\n洋浦经济开发区\t洋浦經濟開發區\n洋烟\t洋菸\n洋相尽出\t洋相盡出\n洋相百出\t洋相百出\n洋紫苏\t洋紫蘇\n洋药\t洋藥\n洋蜡\t洋蠟\n洋行里\t洋行裡\n洋面\t洋麵\n洒出\t灑出\n洒向\t灑向\n洒扫\t灑掃\n洒水\t灑水\n洒洒\t灑灑\n洒涤\t灑滌\n洒淅\t灑淅\n洒濯\t灑濯\n洒然\t灑然\n洒脱\t灑脫\n洗了\t洗了\n洗冤集录\t洗冤集錄\n洗出\t洗出\n洗出作用\t洗出作用\n洗出去\t洗出去\n洗出来\t洗出來\n洗刮\t洗刮\n洗发\t洗髮\n洗发乳\t洗髮乳\n洗发剂\t洗髮劑\n洗发动机\t洗發動機\n洗发水\t洗髮水\n洗发水儿\t洗髮水兒\n洗发皂\t洗髮皂\n洗发粉\t洗髮粉\n洗发精\t洗髮精\n洗发膏\t洗髮膏\n洗发露\t洗髮露\n洗地板\t洗地板\n洗头发\t洗頭髮\n洗干净\t洗乾淨\n洗心革志\t洗心革志\n洗心革面\t洗心革面\n洗手不干\t洗手不幹\n洗手台\t洗手檯\n洗炼\t洗煉\n洗练\t洗練\n洗脑术\t洗腦術\n洗脸台\t洗臉檯\n洗荡\t洗盪\n洗衣板\t洗衣板\n洗钱防制法\t洗錢防制法\n洗面\t洗面\n洗面乳\t洗面乳\n洗面奶\t洗面奶\n洗面皂\t洗面皂\n洗面革心\t洗面革心\n洛克\t洛克\n洛克希德\t洛克希德\n洛克希德马丁\t洛克希德馬丁\n洛克斐勒\t洛克斐勒\n洛克比\t洛克比\n洛克菲勒\t洛克菲勒\n洛克西德\t洛克西德\n洛党\t洛黨\n洛可可美术\t洛可可美術\n洛扎\t洛扎\n洛扎县\t洛扎縣\n洛皮塔瀑布\t洛皮塔瀑布\n洛迪克\t洛迪克\n洛钟东应\t洛鐘東應\n洛阳师范学院\t洛陽師範學院\n洛阳才子\t洛陽才子\n洞察其奸\t洞察其奸\n洞山良价\t洞山良价\n洞烛其奸\t洞燭其奸\n洞烛奸邪\t洞燭奸邪\n洞窟美术\t洞窟美術\n洞见症结\t洞見癥結\n洞里\t洞裡\n洞鉴\t洞鑑\n洞鉴古今\t洞鑑古今\n津发\t津發\n津梁\t津樑\n津贴制度\t津貼制度\n洪万春\t洪萬春\n洪信杰\t洪信傑\n洪升\t洪昇\n洪士杰\t洪士杰\n洪宪帝制\t洪憲帝制\n洪志善\t洪志善\n洪志宏\t洪志宏\n洪杰鸿\t洪傑鴻\n洪泛\t洪泛\n洪炉燎发\t洪爐燎髮\n洪胄\t洪胄\n洪若朴\t洪若樸\n洪范\t洪範\n洪覆\t洪覆\n洪适\t洪适\n洪都百炼生\t洪都百鍊生\n洪钟\t洪鐘\n洲际杯\t洲際盃\n洴澼药\t洴澼藥\n活不了\t活不了\n活了\t活了\n活体肝脏移植\t活體肝臟移植\n活出\t活出\n活动于\t活動於\n活动曲尺\t活動曲尺\n活动桌面\t活動桌面\n活动看板\t活動看板\n活动范围\t活動範圍\n活厂经营\t活廠經營\n活塞杆\t活塞桿\n活干\t活幹\n活扣\t活釦\n活泛\t活泛\n活饥荒\t活饑荒\n派克\t派克\n派克大衣\t派克大衣\n派克斯顿\t派克斯頓\n派出\t派出\n派出去\t派出去\n派出所\t派出所\n派出机关\t派出機關\n派出来\t派出來\n派别\t派別\n派发\t派發\n派团\t派團\n派团参加\t派團參加\n派屈克\t派屈克\n派屈克节\t派屈克節\n派崔克\t派崔克\n派彩\t派彩\n派拉蒙\t派拉蒙\n派拉蒙影\t派拉蒙影\n派系\t派系\n派翠克\t派翠克\n流个\t流個\n流了\t流了\n流于\t流於\n流于形式\t流於形式\n流云\t流雲\n流亡曲\t流亡曲\n流传于世\t流傳於世\n流传后世\t流傳後世\n流体冶金术\t流體冶金術\n流出\t流出\n流出去\t流出去\n流出来\t流出來\n流别\t流別\n流向\t流向\n流回\t流回\n流回去\t流回去\n流回来\t流回來\n流域面积\t流域面積\n流尽\t流盡\n流布\t流佈\n流干\t流乾\n流当\t流當\n流当品\t流當品\n流征\t流徵\n流氓集团\t流氓集團\n流水板\t流水板\n流水行云\t流水行雲\n流泄出来\t流泄出來\n流泛\t流泛\n流注\t流注\n流涎症\t流涎症\n流理台\t流理臺\n流离遇合\t流離遇合\n流程表\t流程表\n流纹岩\t流紋岩\n流芳后世\t流芳後世\n流苏\t流蘇\n流苏帐\t流蘇帳\n流苏髻\t流蘇髻\n流荡\t流蕩\n流荡忘反\t流蕩忘反\n流血冲突\t流血衝突\n流血千里\t流血千里\n流血浮尸\t流血浮尸\n流血漂卤\t流血漂鹵\n流行于\t流行於\n流行曲\t流行曲\n流行歌曲\t流行歌曲\n流行症\t流行症\n流觞曲水\t流觴曲水\n流通出来\t流通出來\n流里流气\t流裡流氣\n流量表\t流量表\n流露出\t流露出\n流露出来\t流露出來\n流风余\t流風餘\n流风余俗\t流風餘俗\n流风余韵\t流風餘韻\n流风回雪\t流風迴雪\n流鱼出听\t流魚出聽\n浅尝\t淺嘗\n浅尝则止\t淺嘗則止\n浅尝者\t淺嘗者\n浅尝辄止\t淺嘗輒止\n浅浮雕\t淺浮雕\n浅淀\t淺澱\n浅雕\t淺雕\n浆水面\t漿水麵\n浇制\t澆製\n浇注\t澆注\n浇漓\t澆漓\n浇筑\t澆築\n浊积岩\t濁積岩\n浊臭熏天\t濁臭熏天\n测不准\t測不準\n测光表\t測光表\n测出\t測出\n测出来\t測出來\n测地曲率\t測地曲率\n测地线曲率\t測地線曲率\n测录到\t測錄到\n测量出\t測量出\n测量术\t測量術\n测量杆\t測量桿\n测量范围\t測量範圍\n测验卷\t測驗卷\n济世之才\t濟世之才\n济困\t濟困\n济困扶危\t濟困扶危\n济州特别自治道\t濟州特別自治道\n济恶\t濟惡\n济胜之具\t濟勝之具\n浑个\t渾個\n浑仪注\t渾儀註\n浑朴\t渾樸\n浑朴自然\t渾樸自然\n浑身发抖\t渾身發抖\n浑身发软\t渾身發軟\n浑闲事\t渾閒事\n浓于\t濃於\n浓云\t濃雲\n浓云密布\t濃雲密佈\n浓发\t濃髮\n浓墨重彩\t濃墨重彩\n浓暗\t濃暗\n浓淡适中\t濃淡適中\n浓烟\t濃煙\n浓血症\t濃血症\n浓郁\t濃郁\n浓雾密布\t濃霧密佈\n浙江天台县\t浙江天台縣\n浙江师范大学\t浙江師範大學\n浚县\t濬縣\n浥注\t浥注\n浦发\t浦發\n浩克\t浩克\n浩叹\t浩嘆\n浩如烟气\t浩如煙氣\n浩如烟海\t浩如煙海\n浩浩荡荡\t浩浩蕩蕩\n浩荡\t浩蕩\n浪冲\t浪衝\n浪又冲\t浪又衝\n浪子回头\t浪子回頭\n浪子回头金不换\t浪子回頭金不換\n浪板\t浪板\n浪游\t浪遊\n浪漫曲\t浪漫曲\n浪琴表\t浪琴錶\n浪荡\t浪蕩\n浪荡乾坤\t浪蕩乾坤\n浪荡子\t浪蕩子\n浪荡子式\t浪蕩子式\n浪荡灯\t浪蕩燈\n浪蝶游蜂\t浪蝶游蜂\n浮于\t浮於\n浮云\t浮雲\n浮云富贵\t浮雲富貴\n浮云惊龙\t浮雲驚龍\n浮云朝露\t浮雲朝露\n浮云游子\t浮雲遊子\n浮云翳日\t浮雲翳日\n浮云蔽日\t浮雲蔽日\n浮借\t浮借\n浮出\t浮出\n浮动汇率\t浮動匯率\n浮台\t浮臺\n浮吊\t浮吊\n浮夸\t浮誇\n浮尸\t浮屍\n浮托\t浮托\n浮松\t浮鬆\n浮沉\t浮沉\n浮泛\t浮泛\n浮游\t浮游\n浮游动物\t浮游動物\n浮游植物\t浮游植物\n浮游生物\t浮游生物\n浮现出\t浮現出\n浮现出来\t浮現出來\n浮签\t浮簽\n浮荡\t浮蕩\n浮词曲说\t浮詞曲說\n浮雕\t浮雕\n浮雕像\t浮雕像\n浮雕墙纸\t浮雕牆紙\n浮面\t浮面\n浴帘\t浴簾\n海上台风警报\t海上颱風警報\n海上布雷\t海上佈雷\n海上游\t海上游\n海上采油\t海上採油\n海丰\t海豐\n海丰县\t海豐縣\n海于格松\t海于格松\n海参\t海參\n海参威\t海參威\n海参崴\t海參崴\n海台\t海臺\n海国图志\t海國圖志\n海埔姜\t海埔姜\n海宇升平\t海宇昇平\n海尔布隆\t海爾布隆\n海岳名言\t海岳名言\n";

/// Part 96 of the text.
pub const ST_PHRASES_96: &'static str = "海带卷\t海帶卷\n海干\t海乾\n海干河尽\t海乾河盡\n海平面\t海平面\n海底峡谷\t海底峽谷\n海底捞针\t海底撈針\n海德里\t海德里\n海曲\t海曲\n海松\t海松\n海水不可斗量\t海水不可斗量\n海水淡化厂\t海水淡化廠\n海水面\t海水面\n海洋开发\t海洋開發\n海洋温差发电\t海洋溫差發電\n海洋生态系\t海洋生態系\n海涂\t海塗\n海涂围垦\t海塗圍墾\n海淀\t海淀\n海淀区\t海淀區\n海淀图书城\t海淀圖書城\n海湾合作理事会\t海灣合作理事會\n海湾布雷\t海灣佈雷\n海漂杯\t海漂杯\n海百合\t海百合\n海立云垂\t海立雲垂\n海苔\t海苔\n海蒂克伦\t海蒂克倫\n海藻虫\t海藻蟲\n海蚀台地\t海蝕臺地\n海蚀平台\t海蝕平臺\n海表\t海表\n海西蒙古族藏族自治州\t海西蒙古族藏族自治州\n海谷\t海谷\n海里\t海里\n海里海外\t海裡海外\n海里的\t海裡的\n海面\t海面\n海马回\t海馬迴\n海鲜面\t海鮮麵\n海默症\t海默症\n浸于\t浸於\n浸制\t浸製\n浸种\t浸種\n涂上\t塗上\n涂乙\t塗乙\n涂了\t塗了\n涂写\t塗寫\n涂到\t塗到\n涂刷\t塗刷\n涂去\t塗去\n涂善妮\t涂善妮\n涂在\t塗在\n涂地\t塗地\n涂坤\t涂坤\n涂壮勋\t涂壯勳\n涂天相\t涂天相\n涂好\t塗好\n涂姓\t涂姓\n涂姓技士\t塗姓技士\n涂尔干\t涂爾幹\n涂层\t塗層\n涂居贤\t涂居賢\n涂山\t塗山\n涂布\t塗布\n涂序瑄\t涂序瑄\n涂惠元\t涂惠元\n涂惠源\t涂惠源\n涂惠源雨\t涂惠源雨\n涂成\t塗成\n涂抹\t塗抹\n涂抹诗书\t塗抹詩書\n涂掉\t塗掉\n涂改\t塗改\n涂改无效\t塗改無效\n涂敏恒\t涂敏恆\n涂文生\t涂文生\n涂料\t塗料\n涂月\t涂月\n涂有\t塗有\n涂来涂去\t塗來塗去\n涂永辉\t涂永輝\n涂油\t塗油\n涂油于\t塗油於\n涂泽\t塗澤\n涂泽民\t涂澤民\n涂浆台\t塗漿檯\n涂涂\t塗塗\n涂涂改改\t塗塗改改\n涂消\t塗消\n涂满\t塗滿\n涂漆\t塗漆\n涂潦\t塗潦\n涂潭\t塗潭\n涂炭\t塗炭\n涂炭生民\t塗炭生民\n涂炭生灵\t塗炭生靈\n涂着\t塗著\n涂窜\t塗竄\n涂粉\t塗粉\n涂绍煃\t涂紹煃\n涂美伦\t涂美倫\n涂羽卿\t涂羽卿\n涂胶\t塗膠\n涂脂抹粉\t塗脂抹粉\n涂色\t塗色\n涂色板\t塗色板\n涂药\t塗藥\n涂蜡\t塗蠟\n涂说\t塗說\n涂谨申\t涂謹申\n涂过\t塗過\n涂过去\t塗過去\n涂过来\t塗過來\n涂逢年\t涂逢年\n涂醒哲\t涂醒哲\n涂金\t塗金\n涂销\t塗銷\n涂长望\t涂長望\n涂附\t塗附\n涂饰\t塗飾\n涂饰剂\t塗飾劑\n涂鸦\t塗鴉\n涂鸦区\t塗鴉區\n涂鸭\t塗鴨\n涂鸿钦\t涂鴻欽\n涂黑\t塗黑\n涅面\t涅面\n消了\t消了\n消化系统\t消化系統\n消噪\t消噪\n消息面\t消息面\n消折\t消折\n消极\t消極\n消极性\t消極性\n消极论\t消極論\n消毒药\t消毒藥\n消毒药水\t消毒藥水\n消沉\t消沉\n消渴症\t消渴症\n消灭净尽\t消滅淨盡\n消灭殆尽\t消滅殆盡\n消炎药\t消炎藥\n消肿药\t消腫藥\n消费价格指数\t消費價格指數\n消费借贷\t消費借貸\n消费合作社\t消費合作社\n消费欲\t消費慾\n消闲儿\t消閒兒\n涉历\t涉歷\n涉台\t涉臺\n涉谷\t涉谷\n涉足于\t涉足於\n涌出\t湧出\n涌出去\t湧出去\n涌出来\t湧出來\n涌升流\t湧升流\n涌向\t湧向\n涌尾\t涌尾\n涌来\t湧來\n涌现\t湧現\n涌现出\t湧現出\n涌进\t湧進\n涛生云灭\t濤生雲滅\n涡虫\t渦蟲\n涡虫纲\t渦蟲綱\n涡轮喷气发动机\t渦輪噴氣發動機\n涡轮轴发动机\t渦輪軸發動機\n涤尽\t滌盡\n涤瑕荡垢\t滌瑕盪垢\n涤瑕荡秽\t滌瑕盪穢\n涤秽荡瑕\t滌穢盪瑕\n涤荡\t滌盪\n涤面\t滌面\n润发\t潤髮\n涨了\t漲了\n涨价\t漲價\n涨价归公\t漲價歸公\n涨停板\t漲停板\n涨出\t漲出\n涨升\t漲升\n涨回\t漲回\n涨回去\t漲回去\n涨回来\t漲回來\n涨红了脸\t漲紅了臉\n涨跌幅限制\t漲跌幅限制\n涨过了头\t漲過了頭\n涩谷\t澀谷\n液体燃料火箭发动机\t液體燃料火箭發動機\n液压千斤顶\t液壓千斤頂\n液晶板\t液晶板\n液晶表\t液晶錶\n液里\t液裡\n液面\t液麵\n涳蒙\t涳濛\n涸干\t涸乾\n淀乃不耕之地\t澱乃不耕之地\n淀北片\t澱北片\n淀山\t澱山\n淀山湖\t澱山湖\n淀淀\t澱澱\n淀积\t澱積\n淀积物\t澱積物\n淀粉\t澱粉\n淀粉样\t澱粉樣\n淀粉类\t澱粉類\n淀粉类作物\t澱粉類作物\n淀粉糖\t澱粉糖\n淀粉脢\t澱粉脢\n淀粉质\t澱粉質\n淀解物\t澱解物\n淀谓之滓\t澱謂之滓\n淋余土\t淋餘土\n淋冲\t淋沖\n淋巴系统\t淋巴系統\n淋淋漓漓\t淋淋漓漓\n淋漓\t淋漓\n淋漓尽致\t淋漓盡致\n淋漓痛快\t淋漓痛快\n淌板船\t淌板船\n淑范\t淑範\n淑郁\t淑郁\n淘尽\t淘盡\n淘换\t淘換\n淘汰制\t淘汰制\n淘闲气\t淘閒氣\n淡于\t淡於\n淡于名利\t淡於名利\n淡入淡出\t淡入淡出\n淡出\t淡出\n淡出淡入\t淡出淡入\n淡彩\t淡彩\n淡朱\t淡朱\n淡水河系\t淡水河系\n淡水生态系\t淡水生態系\n淡蒙蒙\t淡濛濛\n淤泥里\t淤泥裡\n淫念\t淫念\n淫欲\t淫慾\n淫游\t淫遊\n淫荡\t淫蕩\n淬炼\t淬鍊\n淮阴师范学院\t淮陰師範學院\n深于\t深於\n深仇\t深仇\n深仇大恨\t深仇大恨\n深入敌后\t深入敵後\n深入显出\t深入顯出\n深入浅出\t深入淺出\n深奸巨猾\t深奸巨猾\n深居简出\t深居簡出\n深山何处钟\t深山何處鐘\n深山出俊鸟\t深山出俊鳥\n深山穷谷\t深山窮谷\n深念\t深念\n深思极虑\t深思極慮\n深恶\t深惡\n深恶痛嫉\t深惡痛嫉\n深恶痛绝\t深惡痛絕\n深成岩\t深成岩\n深文周纳\t深文周納\n深暗\t深暗\n深有同感\t深有同感\n深沉\t深沉\n深沉不露\t深沉不露\n深沟墩台\t深溝墩臺\n深浅不同\t深淺不同\n深海烟囱\t深海煙囪\n深海里\t深海裡\n深涌\t深涌\n深渊里\t深淵裡\n深秋\t深秋\n深色系列\t深色系列\n深获\t深獲\n深获好评\t深獲好評\n深表\t深表\n深表同情\t深表同情\n深谷\t深谷\n淳于\t淳于\n淳于意\t淳于意\n淳于髡\t淳于髡\n淳朴\t淳樸\n混了\t混了\n混出\t混出\n混出去\t混出去\n混出来\t混出來\n混合\t混合\n混合体\t混合體\n混合使用\t混合使用\n混合列车\t混合列車\n混合动力车\t混合動力車\n混合器\t混合器\n混合型\t混合型\n混合失语症\t混合失語症\n混合层\t混合層\n混合式\t混合式\n混合性\t混合性\n混合感染\t混合感染\n混合林\t混合林\n混合模型\t混合模型\n混合毒剂\t混合毒劑\n混合比\t混合比\n混合法\t混合法\n混合泳\t混合泳\n混合物\t混合物\n混合疫苗\t混合疫苗\n混合组\t混合組\n混合经济\t混合經濟\n混合结构\t混合結構\n混合肥料\t混合肥料\n混合裁判\t混合裁判\n混合语\t混合語\n混合齿列\t混合齒列\n混同\t混同\n混同江\t混同江\n混炼\t混煉\n混虫\t混蟲\n混血种\t混血種\n添个\t添個\n添了\t添了\n添枝加叶\t添枝加葉\n添枝接叶\t添枝接葉\n清丰\t清豐\n清丰县\t清豐縣\n清了\t清了\n清修\t清修\n清党\t清黨\n清党行动\t清黨行動\n清出\t清出\n清发\t清發\n清台\t清檯\n清实录\t清實錄\n清异录\t清異錄\n清心寡欲\t清心寡慾\n清晨杯\t清晨盃\n清杆运动\t清桿運動\n清查不当党产\t清查不當黨產\n清水下杂面\t清水下雜麵\n清水烟\t清水煙\n清汤挂面\t清湯掛麵\n清浊同流\t清濁同流\n清理\t清理\n清算斗争\t清算鬥爭\n清胄\t清胄\n清芬志\t清芬志\n清贫寡欲\t清貧寡欲\n";

/// Part 97 of the text.
pub const ST_PHRASES_97: &'static str = "清酒红人面财帛动人心\t清酒紅人面財帛動人心\n清闲自在\t清閒自在\n清静寡欲\t清靜寡欲\n渊冲\t淵沖\n渊淳岳峙\t淵淳嶽峙\n渊源录\t淵源錄\n渊谷\t淵谷\n渊鉴类函\t淵鑑類函\n渍已干\t漬已乾\n渐升\t漸升\n渐暗\t漸暗\n渔娘\t漁娘\n渔梁\t漁樑\n渔民团体\t漁民團體\n渔获\t漁獲\n渔获量\t漁獲量\n渗出\t滲出\n渗出来\t滲出來\n渗出物\t滲出物\n渗出量\t滲出量\n渝筑高速\t渝筑高速\n渠冲\t渠衝\n渠道里\t渠道裡\n渡了\t渡了\n渡假胜地\t渡假勝地\n渡头云\t渡頭雲\n渡海小轮\t渡海小輪\n渡轮\t渡輪\n渥兹尼克\t渥茲尼克\n温克\t溫克\n温卷\t溫卷\n温州师范学院\t溫州師範學院\n温布尔登\t溫布爾登\n温布尔登网球公开赛\t溫布爾登網球公開賽\n温布尔顿\t溫布爾頓\n温布敦\t溫布敦\n温布里\t溫布里\n温布顿\t溫布頓\n温布顿赛\t溫布頓賽\n温度范围\t溫度範圍\n温度表\t溫度表\n温得和克\t溫得和克\n温柔乡里\t溫柔鄉裡\n温根托海\t溫根托海\n温祥云\t溫祥雲\n港制\t港製\n港制品\t港製品\n港台\t港臺\n港台地区\t港臺地區\n港澳台\t港澳臺\n渴了\t渴了\n渴念\t渴念\n渴欲\t渴欲\n渴饮饥餐\t渴飲飢餐\n游上\t游上\n游上去\t游上去\n游上来\t游上來\n游下\t游下\n游下去\t游下去\n游下来\t游下來\n游丝\t遊絲\n游丝飞絮\t遊絲飛絮\n游中国\t遊中國\n游乃海\t游乃海\n游乐\t遊樂\n游乐区\t遊樂區\n游乐器\t遊樂器\n游乐园\t遊樂園\n游乐场\t遊樂場\n游乐林\t遊樂林\n游乡\t遊鄉\n游了\t遊了\n游云惊龙\t遊雲驚龍\n游亚洲\t遊亞洲\n游人\t遊人\n游人如织\t遊人如織\n游仙\t遊仙\n游仙区\t遊仙區\n游仙枕\t遊仙枕\n游仙窟\t遊仙窟\n游仙诗\t遊仙詩\n游仪\t遊儀\n游伴\t遊伴\n游侠\t遊俠\n游侠骑士\t遊俠騎士\n游僧攒住持\t游僧攢住持\n游兴\t遊興\n游兴正浓\t遊興正濃\n游冶\t遊冶\n游出\t游出\n游击\t游擊\n游击区\t游擊區\n游击战\t游擊戰\n游击手\t游擊手\n游击队\t游擊隊\n游刃\t遊刃\n游刃有余\t遊刃有餘\n游刃有馀\t遊刃有餘\n游到\t游到\n游动\t遊動\n游勇\t遊勇\n游北美\t遊北美\n游历\t遊歷\n游去\t游去\n游台湾\t遊臺灣\n游吟诗人\t遊吟詩人\n游嘴光棍\t遊嘴光棍\n游回\t游回\n游回去\t游回去\n游回来\t游回來\n游园\t遊園\n游园会\t遊園會\n游园惊梦\t遊園驚夢\n游囿伦\t游囿倫\n游士\t遊士\n游头浪子\t遊頭浪子\n游奕\t遊奕\n游女\t遊女\n游子\t遊子\n游子吟\t遊子吟\n游子天涯\t遊子天涯\n游学\t遊學\n游学生\t遊學生\n游完\t游完\n游客\t遊客\n游客如织\t遊客如織\n游客止步\t遊客止步\n游客量\t遊客量\n游宦\t遊宦\n游尘\t游塵\n游尺\t遊尺\n游履\t游履\n游山\t遊山\n游山玩水\t遊山玩水\n游幕\t遊幕\n游庠\t遊庠\n游廊\t遊廊\n游开\t遊開\n游弋\t游弋\n游徼\t遊徼\n游心寓目\t遊心寓目\n游心骋目\t遊心騁目\n游必有方\t遊必有方\n游志宏\t游志宏\n游惰\t遊惰\n游憩\t遊憩\n游憩区\t遊憩區\n游戏\t遊戲\n游戏三昧\t遊戲三昧\n游戏业\t遊戲業\n游戏人间\t遊戲人間\n游戏包\t遊戲包\n游戏区\t遊戲區\n游戏场\t遊戲場\n游戏尘寰\t遊戲塵寰\n游戏机\t遊戲機\n游戏机台\t遊戲機檯\n游戏池\t遊戲池\n游戏王\t遊戲王\n游戏町\t遊戲町\n游戏规则\t遊戲規則\n游戏设备\t遊戲設備\n游戏说\t遊戲說\n游手\t遊手\n游手人户\t遊手人戶\n游手好闲\t遊手好閒\n游手恣睢\t遊手恣睢\n游手游食\t遊手遊食\n游扬\t遊揚\n游文宏\t游文宏\n游方\t遊方\n游日\t遊日\n游旧\t遊舊\n游明金\t游明金\n游易网\t遊易網\n游星\t遊星\n游春\t遊春\n游昭钦\t游昭欽\n游来\t游來\n游来游去\t游來游去\n游标\t游標\n游标位置\t游標位置\n游标卡尺\t游標卡尺\n游欧洲\t遊歐洲\n游民\t遊民\n游民收容所\t遊民收容所\n游民改造\t遊民改造\n游气\t遊氣\n游水\t游水\n游河\t遊河\n游泮\t游泮\n游泳\t游泳\n游泳圈\t游泳圈\n游泳池\t游泳池\n游泳衣\t游泳衣\n游泳裤\t游泳褲\n游泳课\t游泳課\n游泳赛\t游泳賽\n游泳镜\t游泳鏡\n游泳队\t游泳隊\n游泳馆\t游泳館\n游游磨磨儿\t遊遊磨磨兒\n游湖\t遊湖\n游湖借伞\t遊湖借傘\n游澳洲\t遊澳洲\n游牧\t游牧\n游牧区\t游牧區\n游牧民族\t游牧民族\n游猎\t遊獵\n游玩\t遊玩\n游畋\t遊畋\n游皓玮\t游皓瑋\n游盈隆\t游盈隆\n游益网\t遊益網\n游目\t遊目\n游目骋怀\t遊目騁懷\n游离\t游離\n游离份子\t遊離份子\n游离层\t游離層\n游离电子\t游離電子\n游离票\t游離票\n游离辐射\t游離輻射\n游禽类\t游禽類\n游移\t遊移\n游移不决\t遊移不決\n游移不定\t遊移不定\n游程\t遊程\n游网\t遊網\n游美洲\t遊美洲\n游耕\t遊耕\n游船\t遊船\n游艇\t遊艇\n游艇业\t遊艇業\n游艇业者\t遊艇業者\n游艺\t遊藝\n游艺会\t遊藝會\n游艺团\t遊藝團\n游艺场\t遊藝場\n游花插趣\t遊花插趣\n游芳来\t游芳來\n游荡\t遊蕩\n游荡不归\t遊蕩不歸\n游营撞尸\t遊營撞屍\n游蜂戏蝶\t遊蜂戲蝶\n游蜂浪蝶\t遊蜂浪蝶\n游行\t遊行\n游行到\t遊行到\n游行法\t遊行法\n游行示众\t遊行示眾\n游行示威\t遊行示威\n游衍\t遊衍\n游街\t遊街\n游街示众\t遊街示眾\n游观\t遊觀\n游览\t遊覽\n游览区\t遊覽區\n游览胜地\t遊覽勝地\n游览车\t遊覽車\n游言\t遊言\n游记\t遊記\n游说\t遊說\n游说团\t遊說團\n游说团体\t遊說團體\n游谈\t遊談\n游谈无根\t遊談無根\n游资\t游資\n游资泛滥\t游資氾濫\n游赏\t遊賞\n游走\t遊走\n游踪\t遊蹤\n游轮\t遊輪\n游辞\t遊辭\n游辞浮说\t遊辭浮說\n游过\t遊過\n游过去\t游過去\n游过来\t游過來\n游进\t遊進\n游进去\t游進去\n游进来\t游進來\n游逛\t遊逛\n游遍\t遊遍\n游错\t遊錯\n游锡\t遊錫\n游锡坤\t游錫坤\n游锡堃\t游錫堃\n游锡昆\t游錫昆\n游隼\t遊隼\n游非洲\t遊非洲\n游食\t遊食\n游食之民\t遊食之民\n游香港\t遊香港\n游骑\t遊騎\n游骑兵\t遊騎兵\n游骑兵队\t遊騎兵隊\n游骑无归\t遊騎無歸\n游魂\t遊魂\n游鱼\t游魚\n游鸿儒\t游鴻儒\n游鸿明\t游鴻明\n游龙\t游龍\n游龙戏凤\t游龍戲鳳\n游龙荣\t游龍榮\n渺无人烟\t渺無人煙\n湖北师范学院\t湖北師範學院\n湖南师范大学\t湖南師範大學\n湖州师范学院\t湖州師範學院\n湖里\t湖裡\n湖里区\t湖裡區\n湖面\t湖面\n湘帘\t湘簾\n湘累\t湘累\n湘绣\t湘繡\n湛江师范学院\t湛江師範學院\n湟潦生苹\t湟潦生苹\n湮灭证据\t湮滅證據\n湮郁\t湮鬱\n湾里\t灣裡\n湾里区\t灣裡區\n湿地松\t濕地松\n湿度表\t濕度表\n湿肉伴干柴\t濕肉伴乾柴\n溃于\t潰於\n溅了\t濺了\n源于\t源於\n源汇区\t源匯區\n源泉万斛\t源泉萬斛\n源自于\t源自於\n溜个\t溜個\n溜了\t溜了\n溜冰团\t溜冰團\n溜出\t溜出\n溜出去\t溜出去\n溜出来\t溜出來\n溜回\t溜回\n溜回去\t溜回去\n溜回来\t溜回來\n溜溜秋秋\t溜溜秋秋\n溜滑板\t溜滑板\n溜须\t溜鬚\n溜须拍马\t溜鬚拍馬\n溟蒙\t溟濛\n溢于\t溢於\n溢于言表\t溢於言表\n溢价\t溢價\n溢出\t溢出\n溢出来\t溢出來\n溢恶\t溢惡\n溥天同庆\t溥天同慶\n溪子\t溪子\n溪州\t溪州\n溪涌\t溪涌\n溪谷\t溪谷\n溯游\t溯游\n溲面\t溲麵\n溶于\t溶於\n溶合\t溶合\n溶岩\t溶岩\n溶岩流\t溶岩流\n";

/// Part 98 of the text.
pub const ST_PHRASES_98: &'static str = "溶液聚合\t溶液聚合\n溶溶荡荡\t溶溶蕩蕩\n溺于\t溺於\n溺志\t溺志\n溺谷\t溺谷\n滃郁\t滃鬱\n滇西纵谷\t滇西縱谷\n滋补药品\t滋補藥品\n滑了\t滑了\n滑了一跤\t滑了一跤\n滑借\t滑藉\n滑出\t滑出\n滑出跑道\t滑出跑道\n滑动面\t滑動面\n滑回\t滑回\n滑杆\t滑桿\n滑板\t滑板\n滑板运动\t滑板運動\n滑水板\t滑水板\n滑铲\t滑鏟\n滑雪术\t滑雪術\n滑雪板\t滑雪板\n滔滔不尽\t滔滔不盡\n滔荡\t滔蕩\n滚了\t滾了\n滚出\t滾出\n滚出去\t滾出去\n滚出来\t滾出來\n滚回\t滾回\n滚回去\t滾回去\n滚回来\t滾回來\n滚彩蛋\t滾彩蛋\n滚成一团\t滾成一團\n滚杠\t滾槓\n滚杯\t滾杯\n滚石合唱团\t滾石合唱團\n滞后\t滯後\n滞后现象\t滯後現象\n满了\t滿了\n满于\t滿於\n满出\t滿出\n满出来\t滿出來\n满口称赞\t滿口稱讚\n满口胡扯\t滿口胡扯\n满口胡柴\t滿口胡柴\n满口胡言\t滿口胡言\n满口胡说\t滿口胡說\n满口脏话\t滿口髒話\n满场一致\t滿場一致\n满坑满谷\t滿坑滿谷\n满城尽带黄金甲\t滿城盡帶黃金甲\n满堂彩\t滿堂彩\n满天星斗\t滿天星斗\n满头洋发\t滿頭洋髮\n满好个\t滿好個\n满山满谷\t滿山滿谷\n满布\t滿布\n满布疑云\t滿佈疑雲\n满当当\t滿當當\n满怀心腹事尽在不言中\t滿懷心腹事盡在不言中\n满拚自尽\t滿拚自盡\n满杯\t滿杯\n满洲里\t滿洲里\n满洲里市\t滿洲里市\n满满当当\t滿滿當當\n满脸溅朱\t滿臉濺朱\n满腹才学\t滿腹才學\n满腹疑云\t滿腹疑雲\n满面\t滿面\n满面堆笑\t滿面堆笑\n满面怒容\t滿面怒容\n满面愁容\t滿面愁容\n满面春生\t滿面春生\n满面春风\t滿面春風\n满面杀气\t滿面殺氣\n满面生春\t滿面生春\n满面生花\t滿面生花\n满面笑容\t滿面笑容\n满面红胀\t滿面紅脹\n满面羞惭\t滿面羞慚\n满面羞愧\t滿面羞愧\n满面通红\t滿面通紅\n满面雪霜\t滿面雪霜\n满面飞红\t滿面飛紅\n滤出\t濾出\n滤出去\t濾出去\n滤出来\t濾出來\n滥发\t濫發\n滨松市\t濱松市\n滩涂\t灘塗\n滴了\t滴了\n滴了天\t滴了天\n滴修都速\t滴修都速\n滴出\t滴出\n滴出来\t滴出來\n滴向\t滴向\n滴干\t滴乾\n滴水漏斗\t滴水漏斗\n滴注\t滴注\n滴羞都苏\t滴羞都蘇\n滴苏\t滴蘇\n滴虫\t滴蟲\n滴里嘟噜\t滴哩嘟嚕\n滴里搭拉\t滴哩搭拉\n滴里耷拉\t滴哩耷拉\n漂了\t漂了\n漂向\t漂向\n漂布\t漂布\n漂摆\t漂擺\n漂游\t漂游\n漂荡\t漂盪\n漂荡子弟\t漂蕩子弟\n漆了\t漆了\n漆出\t漆出\n漆器雕\t漆器雕\n漆布\t漆布\n漆雕\t漆雕\n漆黑一团\t漆黑一團\n漏了\t漏了\n漏了眼\t漏了眼\n漏借\t漏借\n漏出\t漏出\n漏出去\t漏出去\n漏出来\t漏出來\n漏尽\t漏盡\n漏尽更阑\t漏盡更闌\n漏尽通\t漏盡通\n漏斗\t漏斗\n漏斗器\t漏斗器\n漏斗状花冠\t漏斗狀花冠\n漏斗管\t漏斗管\n漏斗胸\t漏斗胸\n漏洞百出\t漏洞百出\n漏电保护接地极插座\t漏電保護接地極插座\n漏网游鱼\t漏網游魚\n漏脯充饥\t漏脯充飢\n漏针\t漏針\n漏面贼\t漏面賊\n漓水\t灕水\n漓江\t灕江\n漓湘\t灕湘\n漓漓拉拉\t漓漓拉拉\n漓然\t灕然\n演个\t演個\n演出\t演出\n演出人\t演出人\n演出地点\t演出地點\n演出来\t演出來\n演出者\t演出者\n演化出\t演化出\n演员表\t演員表\n演奏出\t演奏出\n演奏台\t演奏臺\n演奏曲\t演奏曲\n演武修文\t演武修文\n演绎出\t演繹出\n演讲台\t演講臺\n漕挽\t漕輓\n漫出\t漫出\n漫出来\t漫出來\n漫卷\t漫卷\n漫天叫价\t漫天叫價\n漫天开价\t漫天開價\n漫天索价\t漫天索價\n漫天要价就地还钱\t漫天要價就地還錢\n漫天讨价\t漫天討價\n漫布\t漫布\n漫录\t漫錄\n漫无节制\t漫無節制\n漫无限制\t漫無限制\n漫游\t漫遊\n漫游四方\t漫遊四方\n漫游费\t漫遊費\n漱口杯\t漱口杯\n漱口药水\t漱口藥水\n漳州师范学院\t漳州師範學院\n漾出\t漾出\n潇洒\t瀟灑\n潕溪\t潕谿\n潘太克斯\t潘太克斯\n潘威志\t潘威誌\n潘安白发\t潘安白髮\n潘岳\t潘岳\n潘岳白发\t潘岳白髮\n潘谷\t潘谷\n潘越云\t潘越雲\n潘连周\t潘連周\n潘金莲给武松敬酒\t潘金蓮給武松敬酒\n潘鬓沈腰\t潘鬢沈腰\n潜丘札记\t潛丘劄記\n潜了\t潛了\n潜修\t潛修\n潜出\t潛出\n潜出去\t潛出去\n潜出来\t潛出來\n潜台词\t潛臺詞\n潜回\t潛回\n潜意识历程\t潛意識歷程\n潜意识里\t潛意識裡\n潜水夫症\t潛水夫症\n潜水表\t潛水錶\n潜水钟\t潛水鐘\n潜水钟表\t潛水鐘錶\n潜游\t潛游\n潜移暗化\t潛移暗化\n潜蛟困凤\t潛蛟困鳳\n潟卤\t潟鹵\n潭祉叶吉\t潭祉叶吉\n潭里\t潭裡\n潮力发电\t潮力發電\n潮烟\t潮菸\n澄江\t澂江\n澄澹精致\t澄澹精緻\n澄黄\t澄黃\n澎湖天后宫\t澎湖天后宮\n澒蒙\t澒濛\n澥谷\t澥谷\n澳新军团\t澳新軍團\n澳新军团日\t澳新軍團日\n澳洲广播电台\t澳洲廣播電臺\n澳门汇业\t澳門匯業\n澹台\t澹臺\n澹台灭明\t澹臺滅明\n澹彩\t澹彩\n澹泊寡欲\t澹泊寡欲\n澹泊明志\t澹泊明志\n澹荡\t澹盪\n激于\t激於\n激于义愤\t激於義憤\n激光二极管\t激光二極管\n激出\t激出\n激发\t激發\n激发出\t激發出\n激发出来\t激發出來\n激发态\t激發態\n激发注射\t激發注射\n激发起\t激發起\n激发起来\t激發起來\n激活整合模型\t激活整合模型\n激荡\t激盪\n激荡不已\t激盪不已\n激荡出\t激盪出\n激进党\t激進黨\n濒临绝种\t瀕臨絕種\n濒于\t瀕於\n濒于绝境\t瀕於絕境\n濒于绝种\t瀕於絕種\n濒危物种\t瀕危物種\n濠梁\t濠樑\n瀍河回族区\t瀍河回族區\n瀑布\t瀑布\n瀑布区\t瀑布區\n瀑布群\t瀑布群\n瀛台\t瀛臺\n瀛表\t瀛表\n灌个\t灌個\n灌了\t灌了\n灌于\t灌於\n灌云\t灌雲\n灌云县\t灌雲縣\n灌出\t灌出\n灌出去\t灌出去\n灌出来\t灌出來\n灌制\t灌製\n灌向\t灌向\n灌回\t灌回\n灌回去\t灌回去\n灌录\t灌錄\n灌注\t灌注\n灌注器\t灌注器\n灌溉系统\t灌溉系統\n灌溉面积\t灌溉面積\n灌药\t灌藥\n火中取栗\t火中取栗\n火了\t火了\n火云\t火雲\n火云邪\t火雲邪\n火力发电\t火力發電\n火力发电厂\t火力發電廠\n火山岩\t火山岩\n火山爆发\t火山爆發\n火山爆发指数\t火山爆發指數\n火并\t火併\n火彩儿\t火彩兒\n火成岩\t火成岩\n火折子\t火摺子\n火斗\t火斗\n火杯\t火盃\n火柴杆\t火柴桿\n火海战术\t火海戰術\n火灭烟消\t火滅煙消\n火炬松\t火炬松\n火烟\t火煙\n火烧云\t火燒雲\n火症\t火症\n火种\t火種\n火签\t火籤\n火箭发动\t火箭發動\n火箭喷射推进系统\t火箭噴射推進系統\n火箭布雷\t火箭佈雷\n火绳杆\t火繩桿\n火耕水种\t火耕水種\n火耕流种\t火耕流種\n火药\t火藥\n火药味\t火藥味\n火药味甚浓\t火藥味甚濃\n火药库\t火藥庫\n火虫儿\t火蟲兒\n火里火去水里水去\t火裡火去水裡水去\n火里火发\t火裡火發\n火里赤\t火裡赤\n火链片\t火鏈片\n火鸡面\t火雞麵\n灭不个\t滅不個\n灭尸\t滅屍\n灭尽\t滅盡\n灭种\t滅種\n灭种罪\t滅種罪\n灭绝种族\t滅絕種族\n灭罪修因\t滅罪修因\n灭虫剂\t滅蟲劑\n灭虫宁\t滅蟲寧\n灯台\t燈臺\n灯台不照自己\t燈臺不照自己\n灯台不自照\t燈臺不自照\n灯彩\t燈綵\n灯杆\t燈杆\n灯杯\t燈杯\n灯火万家\t燈火萬家\n灯火管制\t燈火管制\n灰云\t灰雲\n灰发\t灰髮\n";

/// Part 99 of the text.
pub const ST_PHRASES_99: &'static str = "灰同协\t灰同協\n灰头土面\t灰頭土面\n灰头草面\t灰頭草面\n灰姑娘\t灰姑娘\n灰岩残丘\t灰巖殘丘\n灰暗\t灰暗\n灰灰暗暗\t灰灰暗暗\n灰灰蒙蒙\t灰灰濛濛\n灰胡\t灰鬍\n灰蒙\t灰濛\n灰蒙蒙\t灰濛濛\n灰面𫛭鹰\t灰面鵟鷹\n灰飞烟灭\t灰飛煙滅\n灵丹圣药\t靈丹聖藥\n灵丹妙药\t靈丹妙藥\n灵修\t靈脩\n灵台\t靈臺\n灵台县\t靈臺縣\n灵坛\t靈壇\n灵欲\t靈慾\n灵药\t靈藥\n灵谷寺\t靈谷寺\n灵迹\t靈蹟\n灸术\t灸術\n灸阳谷\t灸陽谷\n灾后\t災後\n灾害链\t災害鏈\n灿烂多彩\t燦爛多彩\n炆面\t炆麵\n炉台\t爐臺\n炉里\t爐裡\n炊烟\t炊煙\n炊烟袅袅\t炊煙裊裊\n炊臼之戚\t炊臼之鏚\n炎日当空\t炎日當空\n炎症\t炎症\n炎症性\t炎症性\n炒栗子\t炒栗子\n炒汇\t炒匯\n炒码面\t炒碼麵\n炒菜铲\t炒菜鏟\n炒面\t炒麵\n炒面块子\t炒麵塊子\n炒鳝面\t炒鱔麵\n炕席\t炕蓆\n炕面砖\t炕面磚\n炖了\t燉了\n炖药\t燉藥\n炭水化合物\t炭水化合物\n炭疽杆菌\t炭疽桿菌\n炮制\t炮製\n炮台\t炮臺\n炮台山循道卫理中学\t炮台山循道衛理中學\n炮炼\t炮煉\n炳烛夜游\t炳燭夜遊\n炸出\t炸出\n炸毁\t炸燬\n炸药\t炸藥\n炸药箱\t炸藥箱\n炸酱面\t炸醬麵\n点个\t點個\n点了\t點了\n点出\t點出\n点出去\t點出去\n点出来\t點出來\n点击一个链接\t點擊一個鏈接\n点半钟\t點半鐘\n点发\t點發\n点名表\t點名表\n点回\t點回\n点回去\t點回去\n点回来\t點回來\n点多钟\t點多鐘\n点将录\t點將錄\n点扎\t點扎\n点播曲\t點播曲\n点染云烟\t點染雲煙\n点核\t點核\n点烟\t點菸\n点烟器\t點菸器\n点线面\t點線面\n点里\t點裡\n点钟\t點鐘\n点集合\t點集合\n点面结合\t點面結合\n点饥\t點飢\n炼丹\t煉丹\n炼丹八卦炉\t煉丹八卦爐\n炼丹术\t煉丹術\n炼之未定\t煉之未定\n炼乳\t煉乳\n炼冶\t鍊冶\n炼制\t煉製\n炼制厂\t煉製廠\n炼化\t煉化\n炼句\t煉句\n炼字\t煉字\n炼山\t煉山\n炼师\t鍊師\n炼度\t鍊度\n炼形\t煉形\n炼气\t煉氣\n炼汞\t鍊汞\n炼油\t煉油\n炼油厂\t煉油廠\n炼焦\t煉焦\n炼焦厂\t煉焦廠\n炼焦炉\t煉焦爐\n炼焦煤\t煉焦煤\n炼狱\t煉獄\n炼石\t煉石\n炼石补天\t煉石補天\n炼糖\t煉糖\n炼糖厂\t煉糖廠\n炼药\t煉藥\n炼贫\t鍊貧\n炼金\t鍊金\n炼金术\t鍊金術\n炼钢\t煉鋼\n炼钢业\t煉鋼業\n炼钢厂\t煉鋼廠\n炼钢炉\t煉鋼爐\n炼铁\t煉鐵\n炼铁厂\t煉鐵廠\n炼铁炉\t煉鐵爐\n炼铜\t煉銅\n炼铜厂\t煉銅廠\n炼铝\t煉鋁\n炽热火山云\t熾熱火山雲\n烂了嘴\t爛了嘴\n烂了舌头\t爛了舌頭\n烂板乌龟\t爛板烏龜\n烂板洋钱\t爛板洋錢\n烂游\t爛遊\n烈日当空\t烈日當空\n烈火干柴\t烈火乾柴\n烘了\t烘了\n烘云托月\t烘雲托月\n烘制\t烘製\n烘干\t烘乾\n烘干机\t烘乾機\n烘托\t烘托\n烘托出\t烘托出\n烘板\t烘板\n烘熏\t烘燻\n烛台\t燭臺\n烛杯\t燭杯\n烛穗\t燭穗\n烝尝\t烝嘗\n烟丝\t菸絲\n烟云\t煙雲\n烟云供养\t煙雲供養\n烟云过眼\t煙雲過眼\n烟供\t煙供\n烟具\t煙具\n烟农\t菸農\n烟卷\t菸捲\n烟卷儿\t菸捲兒\n烟厂\t菸廠\n烟台\t煙臺\n烟台地区\t煙臺地區\n烟台市\t煙臺市\n烟台师范学院\t煙臺師範學院\n烟叶\t菸葉\n烟合包\t煙合包\n烟味\t煙味\n烟商\t煙商\n烟嘴\t菸嘴\n烟嘴儿\t菸嘴兒\n烟囱\t煙囪\n烟圈\t菸圈\n烟土\t煙土\n烟夜蛾\t煙夜蛾\n烟头\t菸頭\n烟子\t煙子\n烟客\t煙客\n烟害\t菸害\n烟家伙\t煙傢伙\n烟尘\t煙塵\n烟屁股\t菸屁股\n烟岚\t煙嵐\n烟岚云岫\t煙嵐雲岫\n烟岸\t煙岸\n烟幕\t煙幕\n烟幕弹\t煙幕彈\n烟户\t煙戶\n烟斗\t菸斗\n烟斗丝\t菸斗絲\n烟景\t煙景\n烟月\t煙月\n烟月场\t煙月場\n烟月牌\t煙月牌\n烟机\t煙機\n烟杆\t煙桿\n烟枪\t煙槍\n烟枪洞\t煙槍洞\n烟柱\t煙柱\n烟树\t煙樹\n烟毒\t煙毒\n烟毒犯\t煙毒犯\n烟民\t菸民\n烟气\t煙氣\n烟油\t煙油\n烟泡\t煙泡\n烟波\t煙波\n烟波万顷\t煙波萬頃\n烟波客\t煙波客\n烟波浩渺\t煙波浩渺\n烟波钓叟\t煙波釣叟\n烟波钓徒\t煙波釣徒\n烟海\t煙海\n烟消云散\t煙消雲散\n烟消冰释\t煙消冰釋\n烟消火灭\t煙消火滅\n烟消雾散\t煙消霧散\n烟渚\t煙渚\n烟火\t煙火\n烟火之警\t煙火之警\n烟火气\t煙火氣\n烟火秀\t煙火秀\n烟火节\t煙火節\n烟火邻居\t煙火鄰居\n烟火食\t煙火食\n烟灯\t煙燈\n烟灰\t菸灰\n烟灰缸\t菸灰缸\n烟焰障天\t煙燄障天\n烟煤\t煙煤\n烟煴\t煙熅\n烟熏\t煙燻\n烟熏妆\t煙燻妝\n烟熏火燎\t煙熏火燎\n烟爨\t煙爨\n烟生喉舌\t煙生喉舌\n烟瘴\t煙瘴\n烟瘾\t煙癮\n烟盒\t煙盒\n烟硝\t煙硝\n烟硝味\t煙硝味\n烟碱\t菸鹼\n烟碱酸\t菸鹼酸\n烟禁\t菸禁\n烟穗\t煙穗\n烟突\t煙突\n烟窝\t煙窩\n烟笼雾锁\t煙籠霧鎖\n烟筒\t煙筒\n烟筒山\t煙筒山\n烟管\t煙管\n烟管面\t煙管麵\n烟篷\t煙篷\n烟粉\t煙粉\n烟纸店\t菸紙店\n烟缕\t煙縷\n烟缸\t菸缸\n烟肉\t煙肉\n烟膏\t煙膏\n烟臭\t煙臭\n烟臭味\t煙臭味\n烟花\t煙花\n烟花债\t煙花債\n烟花厂\t煙花廠\n烟花场\t煙花場\n烟花女\t煙花女\n烟花寨\t煙花寨\n烟花寨主\t煙花寨主\n烟花巷\t煙花巷\n烟花市\t煙花市\n烟花柳巷\t煙花柳巷\n烟花窟\t煙花窟\n烟花簿\t煙花簿\n烟花粉柳\t煙花粉柳\n烟花粉黛\t煙花粉黛\n烟花行院\t煙花行院\n烟花门户\t煙花門戶\n烟花队\t煙花隊\n烟花阵\t煙花陣\n烟花风月\t煙花風月\n烟苗\t煙苗\n烟草\t菸草\n烟草味\t菸草味\n烟蒂\t菸蒂\n烟蓑雨笠\t煙蓑雨笠\n烟蚜\t菸蚜\n烟袋\t菸袋\n烟袋哨子\t菸袋哨子\n烟袋嘴\t菸袋嘴\n烟袋嘴儿\t菸袋嘴兒\n烟袋杆儿\t菸袋桿兒\n烟袋油子\t菸袋油子\n烟袋荷包\t菸袋荷包\n烟袋锅子\t菸袋鍋子\n烟视媚行\t煙視媚行\n烟酒\t菸酒\n烟酒不沾\t煙酒不沾\n烟酒公卖\t菸酒公賣\n烟酒公卖局\t菸酒公賣局\n烟酒税\t菸酒稅\n烟酸\t煙酸\n烟锅\t煙鍋\n烟雨\t煙雨\n烟雨楼\t煙雨樓\n烟雾\t煙霧\n烟雾剂\t煙霧劑\n烟雾弥漫\t煙霧瀰漫\n烟雾弹\t煙霧彈\n烟雾症\t煙霧症\n烟雾迷漫\t煙霧迷漫\n烟霏\t煙霏\n烟霏雾集\t煙霏霧集\n烟霏露结\t煙霏露結\n烟霞\t煙霞\n烟霞外人\t煙霞外人\n烟霞痼疾\t煙霞痼疾\n烟霞癖\t煙霞癖\n烟霭\t煙靄\n烟霾\t煙霾\n烟飞星散\t煙飛星散\n烟馆\t煙館\n烟鬟\t煙鬟\n烟鬼\t煙鬼\n烤个\t烤個\n烤了\t烤了\n烤干\t烤乾\n烤晒\t烤曬\n烤漆板\t烤漆板\n烤烟\t烤煙\n烤胡椒香肠\t烤胡椒香腸\n烤面包\t烤麵包\n烤面包机\t烤麵包機\n烦了\t煩了\n烦复\t煩複\n烦恼皆因强出头\t煩惱皆因強出頭\n烦死了\t煩死了\n烧了\t燒了\n烧出\t燒出\n烧出去\t燒出去\n烧出来\t燒出來\n烧制\t燒製\n烧尽\t燒盡\n烧干\t燒乾\n烧录\t燒錄\n烧录器\t燒錄器\n烧录机\t燒錄機\n烧杯\t燒杯\n烧杯架\t燒杯架\n烧毁\t燒燬\n烧炼\t燒煉\n烧糊了洗脸水\t燒糊了洗臉水\n烩面\t燴麵\n烫一个发\t燙一個髮\n烫一次发\t燙一次髮\n烫个\t燙個\n烫个发\t燙個髮\n烫出\t燙出\n烫发\t燙髮\n烫发师\t燙髮師\n烫头发\t燙頭髮\n烫完发\t燙完髮\n烫次发\t燙次髮\n烫蜡\t燙蠟\n烫衣板\t燙衣板\n烫面\t燙麵\n烬余\t燼餘\n热出病来\t熱出病來\n热功当量\t熱功當量\n热发光剂量计\t熱發光劑量計\n热合\t熱合\n热干面\t熱乾麵\n热当量\t熱當量\n热核\t熱核\n热电厂\t熱電廠\n热症\t熱症\n";

/// Part 100 of the text.
pub const ST_PHRASES_100: &'static str = "热脉冲\t熱脈衝\n热药\t熱藥\n热衷于\t熱衷於\n热量表\t熱量表\n热闹哄哄\t熱鬧鬨鬨\n烹制\t烹製\n烹调术\t烹調術\n烽火台\t烽火臺\n烽烟\t烽煙\n烽烟四起\t烽煙四起\n烽烟四起战火纷飞\t烽煙四起戰火紛飛\n烽烟遍地\t烽煙遍地\n焉耆回族自治县\t焉耆回族自治縣\n焊了\t焊了\n焊出\t焊出\n焊接艺术\t焊接藝術\n焕别\t煥別\n焕发\t煥發\n焕发起来\t煥發起來\n焖肉面\t燜肉麵\n焖面\t燜麵\n焗猪扒面\t焗豬扒麵\n焗面\t焗麵\n焙干\t焙乾\n焚修\t焚修\n焚化厂\t焚化廠\n焚尸\t焚屍\n焚尸扬灰\t焚屍揚灰\n焚尸案\t焚屍案\n焚尸炉\t焚屍爐\n焚毁\t焚燬\n焦了\t焦了\n焦化厂\t焦化廠\n焦干\t焦乾\n焦急万分\t焦急萬分\n焦获\t焦穫\n焦虑症\t焦慮症\n焦面大士\t焦面大士\n焰彩\t焰彩\n然后\t然後\n然后就\t然後就\n然身死才数月耳\t然身死才數月耳\n煅炼\t煅煉\n煎个\t煎個\n煎了\t煎了\n煎出\t煎出\n煎药\t煎藥\n煎药法\t煎藥法\n煎蛋卷\t煎蛋卷\n煎面\t煎麵\n煞费周章\t煞費周章\n煤核\t煤核\n煤气工厂\t煤氣工廠\n煤气表\t煤氣錶\n煤烟\t煤煙\n煤系\t煤系\n煤铲\t煤鏟\n照个\t照個\n照了\t照了\n照价\t照價\n照价征税\t照價徵稅\n照价收买\t照價收買\n照价收购\t照價收購\n照价赔偿\t照價賠償\n照入签\t照入籤\n照准\t照準\n照出\t照出\n照出去\t照出去\n照出来\t照出來\n照占\t照佔\n照发\t照發\n照台\t照臺\n照后镜\t照後鏡\n照录\t照錄\n照直\t照直\n照相制版\t照相製版\n照相干片\t照相乾片\n照相术\t照相術\n照签\t照簽\n照签不误\t照簽不誤\n照表\t照表\n照面\t照面\n煨干\t煨乾\n煨干就湿\t煨乾就濕\n煨干避湿\t煨乾避濕\n煮个\t煮個\n煮出\t煮出\n煮出来\t煮出來\n煮字疗饥\t煮字療飢\n煮沸后\t煮沸後\n煮熟的鸭子飞了\t煮熟的鴨子飛了\n煮粥焚须\t煮粥焚鬚\n煮面\t煮麵\n煴斗\t熅斗\n熄了\t熄了\n熊克武\t熊克武\n熊据虎跱\t熊據虎跱\n熏习\t熏習\n熏人\t燻人\n熏制\t熏製\n熏天\t熏天\n熏染\t薰染\n熏沐\t薰沐\n熏炉\t燻爐\n熏烝\t熏烝\n熏烤\t燻烤\n熏熏\t熏熏\n熏笼\t熏籠\n熏肉\t燻肉\n熏腐\t熏腐\n熏草\t燻草\n熏草纸\t燻草紙\n熏蒸\t燻蒸\n熏蒸剂\t熏蒸劑\n熏蒸室\t熏蒸室\n熏衣\t薰衣\n熏衣草\t薰衣草\n熏赫\t燻赫\n熏陶\t薰陶\n熏陶成性\t熏陶成性\n熏风\t薰風\n熏风徐来\t熏風徐來\n熏香\t薰香\n熏鱼儿\t燻魚兒\n熏鸡\t燻雞\n熏黑\t燻黑\n熏黑了\t燻黑了\n熔于\t熔於\n熔合\t熔合\n熔岩\t熔岩\n熔岩流\t熔岩流\n熔岩湖\t熔岩湖\n熔岩穹丘\t熔岩穹丘\n熔核\t熔核\n熔毁\t熔燬\n熔炼\t熔煉\n熔炼炉\t熔煉爐\n熔融岩浆\t熔融岩漿\n熟了\t熟了\n熟念\t熟念\n熟药\t熟藥\n熟读王叔和不如临症多\t熟讀王叔和不如臨症多\n熟面人\t熟面人\n熟面孔\t熟面孔\n熨斗\t熨斗\n熬出\t熬出\n熬出头\t熬出頭\n熬出来\t熬出來\n熬制\t熬製\n熬姜呷醋\t熬薑呷醋\n熬炼\t熬煉\n熬药\t熬藥\n熬药汤\t熬藥湯\n燃尽\t燃盡\n燃料处理厂\t燃料處理廠\n燃料组合\t燃料組合\n燃气电厂\t燃氣電廠\n燎发\t燎髮\n燔针\t燔針\n燕云十六州\t燕雲十六州\n燕几\t燕几\n燕台\t燕臺\n燕巢于幕\t燕巢於幕\n燕昭筑台\t燕昭築臺\n燕游\t燕遊\n燕燕于飞\t燕燕于飛\n燕雀安知鸿鹄之志\t燕雀安知鴻鵠之志\n燕雀焉知鸿鹄之志\t燕雀焉知鴻鵠之志\n爆出\t爆出\n爆发\t爆發\n爆发出\t爆發出\n爆发出来\t爆發出來\n爆发力\t爆發力\n爆发性\t爆發性\n爆发星\t爆發星\n爆发音\t爆發音\n爆扣\t爆扣\n爆破术\t爆破術\n爬出\t爬出\n爬出去\t爬出去\n爬出来\t爬出來\n爬升\t爬升\n爬回\t爬回\n爬满了\t爬滿了\n爬虫\t爬蟲\n爬虫动物\t爬蟲動物\n爬虫类\t爬蟲類\n爬虫类动物\t爬蟲類動物\n爰历篇\t爰歷篇\n爱丽丝梦游记\t愛麗絲夢遊記\n爱丽丝漫游奇境记\t愛麗絲漫遊奇境記\n爱丽舍\t愛麗舍\n爱丽舍宫\t愛麗舍宮\n爱之欲其生恶之欲其死\t愛之欲其生惡之欲其死\n爱之适足以害之\t愛之適足以害之\n爱乐乐团\t愛樂樂團\n爱了\t愛了\n爱别离苦\t愛別離苦\n爱困\t愛睏\n爱在心里\t愛在心裡\n爱幸\t愛幸\n爱弥儿\t愛彌兒\n爱彼表\t愛彼錶\n爱德蒙\t愛德蒙\n爱心刮刮乐\t愛心刮刮樂\n爱心彩券\t愛心彩券\n爱念\t愛念\n爱恶分明\t愛惡分明\n爱情征服一切\t愛情征服一切\n爱情里\t愛情裡\n爱才\t愛才\n爱才好士\t愛才好士\n爱才如命\t愛才如命\n爱才若渴\t愛才若渴\n爱抽烟\t愛抽菸\n爱欲\t愛慾\n爱游玩\t愛遊玩\n爱管闲事\t愛管閒事\n爱莫大于心死\t愛莫大於心死\n爱远恶近\t愛遠惡近\n爱里\t愛裡\n爱面子\t愛面子\n爵仇\t爵仇\n父党\t父黨\n父台\t父臺\n父子同牝\t父子同牝\n父权制\t父權制\n父母两系血统主义\t父母兩系血統主義\n父母在不远游\t父母在不遠遊\n父系\t父系\n父系亲属\t父系親屬\n父系制度\t父系制度\n爷娘\t爺娘\n爷羹娘饭\t爺羹娘飯\n爷饭娘羹\t爺飯娘羹\n爹娘\t爹娘\n爽荡\t爽蕩\n片云遮顶\t片雲遮頂\n片价\t片價\n片善小才\t片善小才\n片头曲\t片頭曲\n片尾曲\t片尾曲\n片岩\t片岩\n片甲不回\t片甲不回\n片石千钧\t片石千鈞\n片纸只字\t片紙隻字\n片言只字\t片言隻字\n片言只语\t片言隻語\n片言折狱\t片言折獄\n片语只字\t片語隻字\n片语只辞\t片語隻辭\n片面\t片面\n片面之言\t片面之言\n片面之词\t片面之詞\n片面性\t片面性\n片面最惠国\t片面最惠國\n片麻岩\t片麻岩\n版筑\t版築\n版面\t版面\n牉合\t牉合\n牌价\t牌價\n牌子曲\t牌子曲\n牌板\t牌板\n牌面\t牌面\n牒发\t牒發\n牖里\t牖里\n牙买加胡椒\t牙買加胡椒\n牙克石\t牙克石\n牙克石市\t牙克石市\n牙医系\t牙醫系\n牙后慧\t牙後慧\n牙周\t牙周\n牙周炎\t牙周炎\n牙周病\t牙周病\n牙机巧制\t牙機巧制\n牙板\t牙板\n牙签\t牙籤\n牙签万轴\t牙籤萬軸\n牙签犀轴\t牙籤犀軸\n牙签玉轴\t牙籤玉軸\n牙签锦轴\t牙籤錦軸\n牙缝里\t牙縫裡\n牙虫\t牙蟲\n牙雕\t牙雕\n牙齿咬合不正\t牙齒咬合不正\n牛仔布\t牛仔布\n牛只\t牛隻\n牛后\t牛後\n牛回磨转\t牛回磨轉\n牛头马面\t牛頭馬面\n牛李党争\t牛李黨爭\n牛柳面\t牛柳麵\n牛筋面\t牛筋麵\n牛肉干\t牛肉乾\n牛肉拉面\t牛肉拉麵\n牛肉汤面\t牛肉湯麵\n牛肉炒面\t牛肉炒麵\n牛肉面\t牛肉麵\n牛肉面节\t牛肉麵節\n牛腩面\t牛腩麵\n牛舍\t牛舍\n牛表牛斤\t牛表牛觔\n牛角挂书\t牛角掛書\n牛角面包\t牛角麵包\n牛骥同一皂\t牛驥同一皂\n牛骥同槽\t牛驥同槽\n牛骥同皂\t牛驥同皂\n牡丹虽好全仗绿叶扶\t牡丹雖好全仗綠葉扶\n牡丹虽好全仗绿叶扶持\t牡丹雖好全仗綠葉扶持\n牡丹虽好全凭绿叶扶持\t牡丹雖好全憑綠葉扶持\n牡丹虽好终须绿叶扶持\t牡丹雖好終須綠葉扶持\n牢靠妥当\t牢靠妥當\n牧神午后\t牧神午後\n物产丰富\t物產豐富\n物件导向\t物件導向\n物价\t物價\n物价指数\t物價指數\n物价督导会报\t物價督導會報\n物尽其用\t物盡其用\n物极则衰\t物極則衰\n物极必反\t物極必反\n物欲\t物慾\n物欲世界\t物慾世界\n物欲横流\t物慾橫流\n物流系统\t物流系統\n物理\t物理\n物理系\t物理系\n物种\t物種\n";

/// Part 101 of the text.
pub const ST_PHRASES_101: &'static str = "物种来由\t物種來由\n物种起源\t物種起源\n物美价廉\t物美價廉\n物腐虫生\t物腐蟲生\n物色人才\t物色人才\n物阜民丰\t物阜民豐\n牲干下\t牲幹下\n牵一发\t牽一髮\n牵一发而动全身\t牽一髮而動全身\n牵三挂四\t牽三掛四\n牵了\t牽了\n牵五挂四\t牽五掛四\n牵出\t牽出\n牵出去\t牽出去\n牵出来\t牽出來\n牵制\t牽制\n牵制行动\t牽制行動\n牵合\t牽合\n牵合附会\t牽合附會\n牵回\t牽回\n牵回去\t牽回去\n牵回来\t牽回來\n牵引出\t牽引出\n牵引发电机\t牽引發電機\n牵彩\t牽彩\n牵心挂肠\t牽心掛腸\n牵念\t牽念\n牵挂\t牽掛\n牵机药\t牽機藥\n牵系\t牽繫\n牵肚挂肠\t牽肚掛腸\n牵肠挂肚\t牽腸掛肚\n牵藤带叶\t牽籐帶葉\n特于\t特於\n特价\t特價\n特价品\t特價品\n特价菜\t特價菜\n特使团\t特使團\n特克斯\t特克斯\n特克斯县\t特克斯縣\n特克斯市\t特克斯市\n特克斯河\t特克斯河\n特内里费\t特內里費\n特准\t特准\n特出\t特出\n特别\t特別\n特别任务连\t特別任務連\n特别公积\t特別公積\n特别公积金\t特別公積金\n特别刑法\t特別刑法\n特别助理\t特別助理\n特别卖力\t特別賣力\n特别号\t特別號\n特别奖\t特別獎\n特别客串\t特別客串\n特别座\t特別座\n特别待遇\t特別待遇\n特别感谢\t特別感謝\n特别扣除额\t特別扣除額\n特别护士\t特別護士\n特别护理\t特別護理\n特别报导\t特別報導\n特别报道\t特別報道\n特别提款权\t特別提款權\n特别是\t特別是\n特别来宾\t特別來賓\n特别法\t特別法\n特别版\t特別版\n特别组\t特別組\n特别股\t特別股\n特别致\t特別緻\n特别节目\t特別節目\n特别行政区\t特別行政區\n特别费\t特別費\n特别费案\t特別費案\n特别长\t特別長\n特别门诊\t特別門診\n特制\t特製\n特制住\t特制住\n特制品\t特製品\n特制定\t特制定\n特制止\t特制止\n特制订\t特制訂\n特地回\t特地回\n特征\t特徵\n特征值\t特徵值\n特征向量\t特徵向量\n特征多项式\t特徵多項式\n特征联合\t特徵聯合\n特惠价\t特惠價\n特惠制度\t特惠制度\n特技团\t特技團\n特效药\t特效藥\n特有种\t特有種\n特松加\t特松加\n特林布\t特林布\n特殊性向\t特殊性向\n特殊才能\t特殊才能\n特种\t特種\n特种作战\t特種作戰\n特种兵\t特種兵\n特种工艺\t特種工藝\n特种文书\t特種文書\n特种空勤团\t特種空勤團\n特种考试\t特種考試\n特种行业\t特種行業\n特种警察\t特種警察\n特种部队\t特種部隊\n特种钢\t特種鋼\n特艺彩色\t特藝彩色\n特蒙德\t特蒙德\n特里\t特里\n特里尔\t特里爾\n犁板\t犁板\n犬只\t犬隻\n犬牙相制\t犬牙相制\n犯了\t犯了\n犯台\t犯臺\n犯奸\t犯奸\n犯恶\t犯惡\n犯罪团伙\t犯罪團伙\n犯罪集团\t犯罪集團\n犵党\t犵黨\n状态参数\t狀態參數\n状态表\t狀態表\n犹太历\t猶太曆\n犹太复国主义\t猶太復國主義\n犹太复国主义者\t猶太復國主義者\n犹太复国运动\t猶太復國運動\n犹如表\t猶如錶\n犹如钟\t猶如鐘\n犹如钟表\t猶如鐘錶\n狂占\t狂佔\n狂并潮\t狂併潮\n狂想曲\t狂想曲\n狂搜\t狂搜\n狂牛症\t狂牛症\n狂花病叶\t狂花病葉\n狂荡\t狂蕩\n狂药\t狂藥\n狃于\t狃於\n狃于成见\t狃於成見\n狄仁杰\t狄仁傑\n狄克\t狄克\n狄克森\t狄克森\n狄志杰\t狄志杰\n狄拉克\t狄拉克\n狄里斯\t狄里斯\n狎妓冶游\t狎妓冶游\n狎游\t狎遊\n狐借虎威\t狐藉虎威\n狐朋狗党\t狐朋狗黨\n狐群狗党\t狐群狗黨\n狐裘蒙戎\t狐裘蒙戎\n狗党狐群\t狗黨狐群\n狗占马坑\t狗占馬坑\n狗口里吐不出象牙\t狗口裡吐不出象牙\n狗嘴里\t狗嘴裡\n狗嘴里还有象牙\t狗嘴裡還有象牙\n狗娘养的\t狗娘養的\n狗才\t狗才\n狗扣\t狗釦\n狗杂种\t狗雜種\n狗皮膏药\t狗皮膏藥\n狗链\t狗鏈\n狞恶\t獰惡\n狞恶可怖\t獰惡可怖\n狠了\t狠了\n狠干\t狠幹\n狠恶\t狠惡\n独具只眼\t獨具隻眼\n独出一时\t獨出一時\n独出心裁\t獨出心裁\n独出机杼\t獨出機杼\n独占\t獨佔\n独占事业\t獨佔事業\n独占市场\t獨佔市場\n独占性\t獨佔性\n独占权\t獨佔權\n独占花魁\t獨佔花魁\n独占资本\t獨佔資本\n独占鳌头\t獨佔鰲頭\n独占鼇头\t獨佔鼇頭\n独唱曲\t獨唱曲\n独奏曲\t獨奏曲\n独尊儒术\t獨尊儒術\n独当\t獨當\n独当一面\t獨當一面\n独挑大梁\t獨挑大樑\n独擅胜场\t獨擅勝場\n独曲\t獨曲\n独根孤种\t獨根孤種\n独步当时\t獨步當時\n独立党\t獨立黨\n独立出来\t獨立出來\n独立千古\t獨立千古\n独立国家联合体\t獨立國家聯合體\n独立悬吊系统\t獨立懸吊系統\n独自个\t獨自個\n独辟蹊径\t獨闢蹊徑\n独钟\t獨鍾\n狭心症\t狹心症\n狭谷\t狹谷\n狮坛\t獅壇\n狮身人面像\t獅身人面像\n狱里\t獄裡\n狼仆\t狼僕\n狼卜食\t狼卜食\n狼吞虎咽\t狼吞虎嚥\n狼心狗幸\t狼心狗幸\n狼来了\t狼來了\n狼烟\t狼煙\n狼烟四起\t狼煙四起\n狼狈万状\t狼狽萬狀\n狼狈为奸\t狼狽為奸\n狼虎药\t狼虎藥\n狼飧虎咽\t狼飧虎嚥\n狼餐虎咽\t狼餐虎嚥\n猎狩终极\t獵狩終極\n猎获\t獵獲\n猎获物\t獵獲物\n猛个劲\t猛個勁\n猛于\t猛於\n猛冲\t猛衝\n猛升\t猛升\n猛可里\t猛可裡\n猛回头\t猛回頭\n猛地里\t猛地裡\n猛干\t猛幹\n猛药\t猛藥\n猜三划五\t猜三划五\n猜出\t猜出\n猜出来\t猜出來\n猜得出\t猜得出\n猜测出\t猜測出\n猝发\t猝發\n猢狲入布袋\t猢猻入布袋\n猥当大任\t猥當大任\n猪八戒吃人参果\t豬八戒吃人參果\n猪只\t豬隻\n猪肉干\t豬肉乾\n猪肉面\t豬肉麵\n猪肝面\t豬肝麵\n猪脚面\t豬腳麵\n猪脚面线\t豬腳麵線\n猪舌面\t豬舌麵\n猪舍\t豬舍\n猪链球菌\t豬鏈球菌\n猪链球菌病\t豬鏈球菌病\n猫儿见了鱼鲜饭\t貓兒見了魚鮮飯\n猫耳面\t貓耳麵\n猫鼠同眠\t貓鼠同眠\n猫鼠游戏\t貓鼠遊戲\n献丑\t獻醜\n献了\t獻了\n献出\t獻出\n献台\t獻臺\n猴面包\t猴麵包\n猴面包树\t猴麵包樹\n猿鹤沙虫\t猿鶴沙蟲\n猿鹤虫沙\t猿鶴蟲沙\n獑胡\t獑胡\n獠面\t獠面\n玄了\t玄了\n玄云\t玄雲\n玄冬\t玄冬\n玄制\t玄製\n玄参\t玄參\n玄机暗藏\t玄機暗藏\n玄武岩\t玄武岩\n玄武质熔岩\t玄武質熔岩\n玄胄\t玄胄\n玄针\t玄針\n玄黄翻覆\t玄黃翻覆\n率先垂范\t率先垂範\n率同\t率同\n率团\t率團\n率团参加\t率團參加\n率土同庆\t率土同慶\n玉制\t玉製\n玉勒雕鞍\t玉勒雕鞍\n玉卮无当\t玉卮無當\n玉历\t玉曆\n玉参差\t玉參差\n玉台\t玉臺\n玉台体\t玉臺體\n玉台新咏\t玉臺新詠\n玉叶金枝\t玉葉金枝\n玉叶金柯\t玉葉金柯\n玉叶金花\t玉葉金花\n玉尺量才\t玉尺量才\n玉山杯\t玉山杯\n玉帘\t玉簾\n玉手纤纤\t玉手纖纖\n玉斗\t玉斗\n玉杯\t玉杯\n玉枝卜寿\t玉枝卜壽\n玉溪生\t玉谿生\n玉石同沉\t玉石同沉\n玉石同烬\t玉石同燼\n玉石同焚\t玉石同焚\n玉米淀粉\t玉米澱粉\n玉米面\t玉米麵\n玉米须\t玉米鬚\n玉纤\t玉纖\n玉虫\t玉蟲\n玉里\t玉里\n玉里镇\t玉里鎮\n玉镜台\t玉鏡臺\n玉雕\t玉雕\n玉面\t玉面\n玉面狸\t玉面貍\n王于真\t王于真\n王云五\t王雲五\n王佐之才\t王佐之才\n王余鱼\t王餘魚\n王侯后\t王侯后\n王公贵戚\t王公貴戚\n王制\t王制\n王台\t王臺\n王后\t王后\n";

/// Part 102 of the text.
pub const ST_PHRASES_102: &'static str = "王太后\t王太后\n王婆卖瓜自卖自夸\t王婆賣瓜自賣自誇\n王婆子卖了磨\t王婆子賣了磨\n王子犯法与庶民同罪\t王子犯法與庶民同罪\n王子面\t王子麵\n王室里\t王室裡\n王干发\t王乾發\n王幸男\t王幸男\n王庄\t王莊\n王府里\t王府裡\n王彩桦\t王彩樺\n王彩碧\t王彩碧\n王志华\t王志華\n王志文\t王志文\n王志群\t王志羣\n王志贞\t王志貞\n王杰\t王傑\n王杰胜\t王傑勝\n王正杰\t王正杰\n王母娘娘\t王母娘娘\n王涂发\t王塗發\n王熙松\t王熙松\n王献极\t王獻極\n王秋凤\t王秋鳳\n王者风范\t王者風範\n王茂松\t王茂松\n王范\t王范\n王蒙\t王蒙\n王鉴\t王鑑\n玛斯克\t瑪斯克\n玛曲\t瑪曲\n玛曲县\t瑪曲縣\n玛泰克\t瑪泰克\n玢岩\t玢岩\n玩了\t玩了\n玩具厂\t玩具廠\n玩出\t玩出\n玩出去\t玩出去\n玩出来\t玩出來\n玩团\t玩團\n玩忽\t翫忽\n玩物丧志\t玩物喪志\n环保斗士\t環保鬥士\n环安系\t環安系\n环工系\t環工系\n环扣\t環扣\n环极涡旋\t環極渦旋\n环游\t環遊\n环游世界\t環遊世界\n环球定位系统\t環球定位系統\n环面\t環面\n环顾四周\t環顧四周\n现于\t現於\n现代修正主义\t現代修正主義\n现代建筑\t現代建築\n现代舞团\t現代舞團\n现代艺术\t現代藝術\n现代集团\t現代集團\n现出\t現出\n现出原形\t現出原形\n现出原身\t現出原身\n现制性\t現制性\n现场表演\t現場表演\n现场采访\t現場採訪\n现实面\t現實面\n现货价\t現貨價\n现进现出\t現進現出\n现金流量表\t現金流量表\n玳梁\t玳樑\n玳瑁梁\t玳瑁樑\n玻璃布\t玻璃布\n玻璃杯\t玻璃杯\n玻璃板\t玻璃板\n玻璃柜\t玻璃櫃\n玻璃浮雕\t玻璃浮雕\n玻璃纤维\t玻璃纖維\n玻里尼西\t玻里尼西\n玻里尼西亚人\t玻里尼西亞人\n珂里\t珂里\n珊卓布拉克\t珊卓布拉克\n珊瑚虫\t珊瑚蟲\n珍同拱璧\t珍同拱璧\n珍娜杰克森\t珍娜傑克森\n珍珠岩\t珍珠岩\n珍珠项链\t珍珠項鍊\n珍肴异馔\t珍餚異饌\n珐琅彩\t琺瑯彩\n珠帘\t珠簾\n珠斗烂班\t珠斗爛班\n珠联璧合\t珠聯璧合\n珠胎暗结\t珠胎暗結\n珠还合浦\t珠還合浦\n班代表\t班代表\n班克劳夫\t班克勞夫\n班克拉夫特\t班克拉夫特\n班克斯\t班克斯\n班兰叶\t班蘭葉\n班别\t班別\n班师回朝\t班師回朝\n班游\t班遊\n班艾伏列克\t班艾伏列克\n班艾佛列克\t班艾佛列克\n班里\t班裡\n球台\t球檯\n球后\t球后\n球后小\t球后小\n球后艾宁\t球后艾寧\n球后辛吉丝\t球后辛吉絲\n球团\t球團\n球团矿\t球團礦\n球坛\t球壇\n球坛上\t球壇上\n球杆\t球杆\n球状星团\t球狀星團\n球面\t球面\n球面三角\t球面三角\n球面体\t球面體\n球面几何\t球面幾何\n球面几何学\t球面幾何學\n球面镜\t球面鏡\n琅邪台刻石\t琅邪臺刻石\n理一个发\t理一個髮\n理一次发\t理一次髮\n理不胜辞\t理不勝辭\n理个\t理個\n理个发\t理個髮\n理了\t理了\n理事长杯\t理事長盃\n理出\t理出\n理出头绪\t理出頭緒\n理发\t理髮\n理发匠\t理髮匠\n理发厅\t理髮廳\n理发员\t理髮員\n理发师\t理髮師\n理发师傅\t理髮師傅\n理发店\t理髮店\n理发院\t理髮院\n理合\t理合\n理固当然\t理固當然\n理头发\t理頭髮\n理完发\t理完髮\n理当\t理當\n理当如此\t理當如此\n理念\t理念\n理所当然\t理所當然\n理次发\t理次髮\n理胡子\t理鬍子\n理致\t理致\n琉璃厂\t琉璃廠\n琐才\t瑣才\n琐碎\t瑣碎\n琛板\t琛板\n琨玉秋霜\t琨玉秋霜\n琴弦\t琴絃\n琴断朱弦\t琴斷朱絃\n琴斯托霍瓦\t琴斯托霍瓦\n琴杆\t琴桿\n琴钟\t琴鐘\n琵琶别抱\t琵琶別抱\n琵琶录\t琵琶錄\n琵琶虫\t琵琶蟲\n琼台玉宇\t瓊臺玉宇\n琼台玉阁\t瓊臺玉閣\n琼枝玉叶\t瓊枝玉葉\n琼瑶曲\t瓊瑤曲\n瑜伽术\t瑜伽術\n瑜珈术\t瑜珈術\n瑞丰\t瑞豐\n瑞云\t瑞雲\n瑞克\t瑞克\n瑞克希\t瑞克希\n瑞士卷\t瑞士捲\n瑞征\t瑞徵\n瑞气祥云\t瑞氣祥雲\n瑞秋\t瑞秋\n瑞秋怀兹\t瑞秋懷茲\n瑞穗\t瑞穗\n瑞穗乡\t瑞穗鄉\n瑞签\t瑞簽\n瑞贝里\t瑞貝里\n瑞郎方面\t瑞郎方面\n瑟瑟发抖\t瑟瑟發抖\n瑟瑟秋风\t瑟瑟秋風\n瑶台\t瑤臺\n瑶台琼室\t瑤臺瓊室\n瑶台银阙\t瑤臺銀闕\n瑶台镜\t瑤臺鏡\n瑶签\t瑤籤\n璅虫\t璅蟲\n璧合\t璧合\n璧合珠联\t璧合珠聯\n璧合珠连\t璧合珠連\n璧回\t璧回\n璧炉台\t璧爐臺\n瓠叶\t瓠葉\n瓢虫\t瓢蟲\n瓦利泰克\t瓦利泰克\n瓦历斯\t瓦歷斯\n瓦合\t瓦合\n瓦合之卒\t瓦合之卒\n瓦尔基里\t瓦爾基里\n瓦尔达克\t瓦爾達克\n瓦尔达克省\t瓦爾達克省\n瓦当\t瓦當\n瓦当文\t瓦當文\n瓦拉干\t瓦拉干\n瓦松\t瓦松\n瓦特表\t瓦特表\n瓦瑞泰克\t瓦瑞泰克\n瓦舍\t瓦舍\n瓦萨里\t瓦薩里\n瓦西里\t瓦西里\n瓦西里耶维奇\t瓦西里耶維奇\n瓦解云散\t瓦解雲散\n瓦达克\t瓦達克\n瓦里\t瓦里\n瓦里斯\t瓦里斯\n瓮安\t甕安\n瓮尽杯干\t甕盡杯乾\n瓮里醯鸡\t甕裡醯雞\n瓶坠簪折\t瓶墜簪折\n瓷杯\t瓷杯\n甄别\t甄別\n甄别考试\t甄別考試\n甄后\t甄后\n甄奇录异\t甄奇錄異\n甄才品能\t甄才品能\n甄选人才\t甄選人才\n甘于\t甘於\n甘居下游\t甘居下游\n甘巴里\t甘巴里\n甘当\t甘當\n甘心情愿\t甘心情願\n甘愿\t甘願\n甘托克\t甘托克\n甘谷\t甘谷\n甘谷县\t甘谷縣\n甚么\t甚麼\n甚么都干\t甚麼都幹\n甚于\t甚於\n甚至于\t甚至於\n甚获\t甚獲\n甚获好评\t甚獲好評\n甜水面\t甜水麵\n甜萝卜\t甜蘿蔔\n甜面酱\t甜麵醬\n生个\t生個\n生了\t生了\n生于\t生於\n生于忧患\t生於憂患\n生于忧患死于安乐\t生於憂患死於安樂\n生产制度\t生產制度\n生产合作\t生產合作\n生产合作社\t生產合作社\n生产斗争\t生產鬥爭\n生产管制\t生產管制\n生产里\t生產裡\n生佛万家\t生佛萬家\n生出\t生出\n生出来\t生出來\n生刍致祭\t生芻致祭\n生别死离\t生別死離\n生力面\t生力麵\n生华发\t生華髮\n生发\t生髮\n生发中心\t生發中心\n生发剂\t生髮劑\n生发水\t生髮水\n生发药\t生髮藥\n生同衾死同穴\t生同衾死同穴\n生命不息战斗不止\t生命不息戰鬥不止\n生命共同体\t生命共同體\n生命周期\t生命週期\n生命在于运动\t生命在於運動\n生命征象\t生命徵象\n生命表\t生命表\n生姜\t生薑\n生姜丝\t生薑絲\n生姜汁\t生薑汁\n生姜片\t生薑片\n生字表\t生字表\n生布\t生布\n生态旅游\t生態旅遊\n生态环境游\t生態環境游\n生态系\t生態系\n生态系统\t生態系統\n生情发意\t生情發意\n生技医药\t生技醫藥\n生日里\t生日裡\n生旦净末丑\t生旦淨末丑\n生栋覆屋\t生棟覆屋\n生死别离\t生死別離\n生死斗\t生死鬥\n生死未卜\t生死未卜\n生死轮回\t生死輪迴\n生殖洄游\t生殖洄游\n生殖系统\t生殖系統\n生民涂炭\t生民塗炭\n生活杯\t生活杯\n生活水准\t生活水準\n生活面\t生活面\n生涯规划\t生涯規劃\n生灵涂地\t生靈塗地\n生灵涂炭\t生靈塗炭\n生物伦琴当量\t生物倫琴當量\n生物制剂\t生物製劑\n生物制品\t生物製品\n生物合成\t生物合成\n生物学系\t生物學系\n生物弹药\t生物彈藥\n生物技术\t生物技術\n生物时钟\t生物時鐘\n生物系\t生物系\n生物钟\t生物鐘\n生理\t生理\n生理时钟\t生理時鐘\n生田斗\t生田斗\n生离死别\t生離死別\n";

/// Part 103 of the text.
pub const ST_PHRASES_103: &'static str = "生药\t生藥\n生药局\t生藥局\n生词表\t生詞表\n生迭水准\t生迭水準\n生锈\t生鏽\n生长发育\t生長發育\n生长板\t生長板\n生面\t生面\n生面团\t生麵糰\n生面孔\t生面孔\n用一当十\t用一當十\n用不了\t用不了\n用于\t用於\n用于修饰\t用於修飾\n用作配种\t用作配種\n用出\t用出\n用字不当\t用字不當\n用尽\t用盡\n用尽心思\t用盡心思\n用尽心机\t用盡心機\n用尽方法\t用盡方法\n用幸福\t用幸福\n用志不分\t用志不分\n用户数据\t用戶數據\n用户界面\t用戶界面\n用报台\t用報臺\n用搜\t用搜\n用来配种\t用來配種\n用汇\t用匯\n用舍失宜\t用舍失宜\n用舍行藏\t用舍行藏\n用药\t用藥\n用行舍藏\t用行舍藏\n用词不当\t用詞不當\n甩出\t甩出\n甩出去\t甩出去\n甩出来\t甩出來\n甩发\t甩髮\n甩开\t甩開\n甩手掌柜\t甩手掌櫃\n甪里\t甪里\n甫里\t甫里\n甬道里\t甬道裡\n甯采臣\t甯采臣\n田园交响曲\t田園交響曲\n田园曲\t田園曲\n田字面\t田字面\n田家庵\t田家庵\n田家庵区\t田家庵區\n田庄\t田莊\n田径\t田徑\n田志兴\t田志興\n田梁子\t田梁子\n田父之获\t田父之獲\n田秋堇\t田秋堇\n田种玉\t田種玉\n田舍\t田舍\n田舍奴\t田舍奴\n田舍翁\t田舍翁\n田舍郎\t田舍郎\n田螺含水过冬\t田螺含水過冬\n田谷\t田穀\n田里\t田裡\n由于\t由於\n由余\t由余\n由恪志远\t由恪志遠\n由表及里\t由表及裡\n甲壳虫\t甲殼蟲\n甲壳虫类\t甲殼蟲類\n甲板\t甲板\n甲种\t甲種\n甲种体位\t甲種體位\n甲种国库券\t甲種國庫券\n甲种国民兵役\t甲種國民兵役\n甲种维生素\t甲種維生素\n甲第连云\t甲第連雲\n甲胄\t甲冑\n甲胄鱼类\t甲冑魚類\n甲虫\t甲蟲\n甲虫类\t甲蟲類\n甲虫车\t甲蟲車\n申复\t申覆\n申扎\t申扎\n申扎县\t申扎縣\n申曲\t申曲\n申请表\t申請表\n电价\t電價\n电冰柜\t電冰櫃\n电冲\t電衝\n电力厂\t電力廠\n电卷星飞\t電卷星飛\n电卷风驰\t電卷風馳\n电厂\t電廠\n电压表\t電壓表\n电台\t電臺\n电唱针\t電唱針\n电复\t電覆\n电子云\t電子雲\n电子反制\t電子反制\n电子学系\t電子學系\n电子店面\t電子店面\n电子数据交换\t電子數據交換\n电子杂志\t電子雜誌\n电子游戏\t電子遊戲\n电子看板\t電子看板\n电子系\t電子系\n电子表\t電子錶\n电子表单\t電子表單\n电子表情\t電子表情\n电子表格\t電子表格\n电子表示\t電子表示\n电子论坛\t電子論壇\n电子邮件系统\t電子郵件系統\n电子钟\t電子鐘\n电子钟表\t電子鐘錶\n电宰厂\t電宰廠\n电度表\t電度表\n电影分级制\t電影分級制\n电影制作\t電影製作\n电影制片\t電影製片\n电影台\t電影臺\n电影回顾展\t電影回顧展\n电影美术\t電影美術\n电影艺术\t電影藝術\n电影集团\t電影集團\n电机及电子学工程师联合会\t電機及電子學工程師聯合會\n电机系\t電機系\n电杆\t電杆\n电板\t電板\n电极\t電極\n电检制\t電檢制\n电汇\t電匯\n电池厂\t電池廠\n电池板\t電池板\n电流表\t電流表\n电热杯\t電熱杯\n电熨斗\t電熨斗\n电码表\t電碼表\n电磁干扰\t電磁干擾\n电磁振荡\t電磁振盪\n电磁脉冲\t電磁脈衝\n电线杆\t電線杆\n电缆调制解调器\t電纜調製解調器\n电胡刀\t電鬍刀\n电脑与电话系统整合\t電腦與電話系統整合\n电脑互动艺术\t電腦互動藝術\n电脑台\t電腦檯\n电脑周边设备\t電腦周邊設備\n电脑图书出版业\t電腦圖書出版業\n电脑彩喷\t電腦彩噴\n电脑游戏\t電腦遊戲\n电脑看板\t電腦看板\n电脑系统\t電腦系統\n电脑系统业\t電腦系統業\n电脑绘图技术\t電腦繪圖技術\n电脑网志\t電腦網誌\n电脑艺术\t電腦藝術\n电脑闸道系统\t電腦閘道系統\n电荷耦合\t電荷耦合\n电荷耦合器件\t電荷耦合器件\n电表\t電錶\n电视兴奋症\t電視興奮症\n电视台\t電視臺\n电视柜\t電視櫃\n电视游乐器\t電視遊樂器\n电视采访\t電視採訪\n电视里\t電視裡\n电话录音\t電話錄音\n电话答录机\t電話答錄機\n电路板\t電路板\n电量表\t電量表\n电针\t電針\n电针麻醉\t電針麻醉\n电钟\t電鐘\n电铲\t電鏟\n电须刀\t電鬚刀\n男人里\t男人裡\n男仆\t男僕\n男佣\t男傭\n男佣人\t男傭人\n男同学\t男同學\n男同志\t男同志\n男大当婚\t男大當婚\n男女有别\t男女有別\n男尸\t男屍\n男性厌恶\t男性厭惡\n男才女貌\t男才女貌\n男生宿舍\t男生宿舍\n男用表\t男用錶\n男系\t男系\n甸后\t甸後\n画了\t畫了\n画出\t畫出\n画出来\t畫出來\n画卷\t畫卷\n画坛\t畫壇\n画布\t畫布\n画板\t畫板\n画栋雕梁\t畫棟雕樑\n画栋飞云\t畫棟飛雲\n画梁雕栋\t畫樑雕棟\n画法几何\t畫法幾何\n画着\t畫著\n画表\t畫表\n画表格\t畫表格\n画阁朱楼\t畫閣朱樓\n画面\t畫面\n画饼充饥\t畫餅充飢\n畅所欲为\t暢所欲為\n畅所欲言\t暢所欲言\n畅游\t暢遊\n畅销曲\t暢銷曲\n界分别观\t界分別觀\n界别\t界別\n界面\t界面\n畎亩下才\t畎畝下才\n畏于\t畏於\n畏影恶迹\t畏影惡跡\n留个\t留個\n留中不发\t留中不發\n留了\t留了\n留余地\t留餘地\n留出\t留出\n留别\t留別\n留发\t留髮\n留后\t留後\n留后手\t留後手\n留后步\t留後步\n留后路\t留後路\n留头发\t留頭髮\n留念\t留念\n留种\t留種\n留种地\t留種地\n留美同学会\t留美同學會\n留胡子\t留鬍子\n留胡须\t留鬍鬚\n留脸面\t留臉面\n留芳千古\t留芳千古\n留芳后世\t留芳後世\n留言板\t留言板\n留连不舍\t留連不捨\n留针\t留針\n留面子\t留面子\n畚斗\t畚斗\n略低于\t略低於\n略同\t略同\n略大于\t略大於\n略尽情谊\t略盡情誼\n略无参商\t略無參商\n略有出入\t略有出入\n略胜\t略勝\n略胜一筹\t略勝一籌\n略语表\t略語表\n略高于\t略高於\n番泻叶\t番瀉葉\n番茄面\t番茄麵\n畸形发展\t畸形發展\n疋先里\t疋先裡\n疏于\t疏於\n疏于防备\t疏於防備\n疏于防范\t疏於防範\n疏松\t疏鬆\n疏松症\t疏鬆症\n疑云\t疑雲\n疑云重重\t疑雲重重\n疑信参半\t疑信參半\n疑凶\t疑兇\n疑团\t疑團\n疑心生暗鬼\t疑心生暗鬼\n疑念\t疑念\n疑核\t疑核\n疑系\t疑係\n疑难杂症\t疑難雜症\n疗饥\t療飢\n疟原虫\t瘧原蟲\n疟虫\t瘧蟲\n疥癣虫\t疥癬蟲\n疥虫\t疥蟲\n疯了\t瘋了\n疱疹性咽狭症\t皰疹性咽狹症\n疲于\t疲於\n疲于奔命\t疲於奔命\n疲劳极限\t疲勞極限\n疲劳症\t疲勞症\n疲困\t疲睏\n疵蒙谬累\t疵蒙謬累\n疾之如仇\t疾之如仇\n疾之若仇\t疾之若仇\n疾恶\t疾惡\n疾恶好善\t疾惡好善\n疾恶如仇\t疾惡如仇\n疾恶若仇\t疾惡若仇\n疾病控制中心\t疾病控制中心\n疾病突发\t疾病突發\n疾风扫秋叶\t疾風掃秋葉\n病了\t病了\n病从口入祸从口出\t病從口入禍從口出\n病余\t病餘\n病出\t病出\n病历\t病歷\n病历卡\t病歷卡\n病历室\t病歷室\n病历表\t病歷表\n病原虫\t病原蟲\n病发\t病發\n病后\t病後\n病后初愈\t病後初愈\n病容满面\t病容滿面\n病征\t病徵\n病愈\t病癒\n病毒血症\t病毒血症\n病毒防范\t病毒防範\n病理\t病理\n病症\t病症\n病舍\t病舍\n病虫\t病蟲\n病虫危害\t病蟲危害\n病虫害\t病蟲害\n症侯群\t症侯群\n症候\t症候\n症候群\t症候群\n症状\t症狀\n症状性\t症狀性\n症结\t癥結\n";

/// Part 104 of the text.
pub const ST_PHRASES_104: &'static str = "症结点\t癥結點\n痊愈\t痊癒\n痒了\t癢了\n痒疹\t癢疹\n痒痒\t癢癢\n痔核\t痔核\n痕迹\t痕跡\n痖弦\t瘂弦\n痘疹娘娘\t痘疹娘娘\n痛不欲生\t痛不欲生\n痛了\t痛了\n痛失英才\t痛失英才\n痛快淋漓\t痛快淋漓\n痛恶\t痛惡\n痛毁极诋\t痛毀極詆\n痛苦万分\t痛苦萬分\n痛赞\t痛贊\n痢疾杆菌\t痢疾桿菌\n痨虫\t癆蟲\n痫症\t癇症\n痰症\t痰症\n痲痹不了\t痲痹不了\n痲痺不了\t痲痺不了\n痴儿\t痴兒\n痴念\t痴念\n痴虫\t痴蟲\n瘅恶彰善\t癉惡彰善\n瘙痒症\t瘙癢症\n瘦了\t瘦了\n瘦小枯干\t瘦小枯乾\n瘦岩岩\t瘦岩岩\n瘫子掉在井里\t癱子掉在井裡\n癌症\t癌症\n癌症病患\t癌症病患\n癌症肿瘤\t癌症腫瘤\n癫痫症\t癲癇症\n癸丑\t癸丑\n登个\t登個\n登了\t登了\n登云梯\t登雲梯\n登出\t登出\n登出去\t登出去\n登出来\t登出來\n登台\t登臺\n登台拜将\t登臺拜將\n登台演唱\t登臺演唱\n登台表演\t登臺表演\n登坛\t登壇\n登坛拜将\t登壇拜將\n登峰造极\t登峰造極\n登庸人才\t登庸人才\n登录\t登錄\n登机手续柜台\t登機手續櫃檯\n登极\t登極\n登科录\t登科錄\n登记表\t登記表\n登革出血热\t登革出血熱\n登龙术\t登龍術\n白了了\t白了了\n白云\t白雲\n白云乡\t白雲鄉\n白云亲舍\t白雲親舍\n白云区\t白雲區\n白云孤飞\t白雲孤飛\n白云山\t白雲山\n白云岩\t白雲岩\n白云机场\t白雲機場\n白云母\t白雲母\n白云片片\t白雲片片\n白云石\t白雲石\n白云矿区\t白雲礦區\n白云苍狗\t白雲蒼狗\n白云观\t白雲觀\n白僵蚕\t白殭蠶\n白兔捣药\t白兔搗藥\n白净面皮\t白淨面皮\n白刀子进去红刀子出来\t白刀子進去紅刀子出來\n白化症\t白化症\n白千层\t白千層\n白卷\t白卷\n白发\t白髮\n白发人\t白髮人\n白发其事\t白發其事\n白发如新\t白髮如新\n白发朱颜\t白髮朱顏\n白发相守\t白髮相守\n白发红颜\t白髮紅顏\n白发苍苍\t白髮蒼蒼\n白发苍颜\t白髮蒼顏\n白发郎潜\t白髮郎潛\n白发银须\t白髮銀鬚\n白发青衫\t白髮青衫\n白发齐眉\t白髮齊眉\n白变种\t白變種\n白古苏花\t白古蘇花\n白合金\t白合金\n白喉杆菌\t白喉桿菌\n白团\t白團\n白团扇\t白團扇\n白垩系\t白堊系\n白娘子\t白娘子\n白布\t白布\n白干\t白乾\n白干儿\t白乾兒\n白当\t白當\n白得发亮\t白得發亮\n白搽白折\t白搽白折\n白斑症\t白斑症\n白日升天\t白日昇天\n白日里\t白日裡\n白日飞升\t白日飛昇\n白术\t白朮\n白朴\t白樸\n白杆兵\t白桿兵\n白松\t白松\n白板\t白板\n白板单吊\t白板單吊\n白板天子\t白板天子\n白板笔\t白板筆\n白果松\t白果松\n白洋淀\t白洋淀\n白烟\t白煙\n白皮松\t白皮松\n白种\t白種\n白种人\t白種人\n白粉面\t白粉麵\n白胡\t白鬍\n白胡椒\t白胡椒\n白色人种\t白色人種\n白色系\t白色系\n白苏\t白蘇\n白苹\t白蘋\n白苹洲\t白蘋洲\n白药\t白藥\n白菜价\t白菜價\n白萝卜\t白蘿蔔\n白蒙蒙\t白濛濛\n白蜡\t白蠟\n白蜡明经\t白蠟明經\n白蜡杆子\t白蠟杆子\n白蜡树\t白蠟樹\n白蜡虫\t白蠟蟲\n白蜡蜡\t白蠟蠟\n白血球过多症\t白血球過多症\n白里安\t白里安\n白里透红\t白裡透紅\n白雪公主症候群\t白雪公主症候群\n白雪曲\t白雪曲\n白霉\t白黴\n白面\t白麵\n白面书生\t白面書生\n白面书郎\t白面書郎\n白面僧面猴\t白面僧面猴\n白面儿\t白麵兒\n白面无须\t白面無鬚\n白面鼯鼠\t白面鼯鼠\n白须\t白鬚\n白首北面\t白首北面\n白首同归\t白首同歸\n白马归周\t白馬歸周\n白驹空谷\t白駒空谷\n白骨松\t白骨松\n白鹤梁\t白鶴梁\n白鹤秀才\t白鶴秀才\n百万\t百萬\n百万之众\t百萬之眾\n百万买宅千万买邻\t百萬買宅千萬買鄰\n百万位\t百萬位\n百万分之一\t百萬分之一\n百万吨\t百萬噸\n百万吨级核武器\t百萬噸級核武器\n百万富翁\t百萬富翁\n百万年\t百萬年\n百万赫兹\t百萬赫茲\n百万雄兵\t百萬雄兵\n百万雄师\t百萬雄師\n百不当一\t百不當一\n百个\t百個\n百中百发\t百中百發\n百了\t百了\n百了千当\t百了千當\n百事和合\t百事和合\n百余\t百餘\n百余只\t百餘隻\n百余里\t百餘里\n百几个\t百幾個\n百出\t百出\n百分之一千\t百分之一千\n百分制\t百分制\n百分表\t百分表\n百划\t百劃\n百卉千葩\t百卉千葩\n百发\t百發\n百发百中\t百發百中\n百只\t百隻\n百只足够\t百只足夠\n百叶\t百葉\n百叶卷\t百葉捲\n百叶窗\t百葉窗\n百叶窗帘\t百葉窗簾\n百叶箱\t百葉箱\n百合\t百合\n百合子\t百合子\n百合科\t百合科\n百合花\t百合花\n百合花饰\t百合花飾\n百团大战\t百團大戰\n百多只\t百多隻\n百天后\t百天後\n百姿千态\t百姿千態\n百媚千娇\t百媚千嬌\n百子千孙\t百子千孫\n百孔千创\t百孔千創\n百孔千疮\t百孔千瘡\n百尺竿头更尽一步\t百尺竿頭更盡一步\n百岁之后\t百歲之後\n百岁千秋\t百歲千秋\n百巧千穷\t百巧千窮\n百年之后\t百年之後\n百年后\t百年後\n百年好合\t百年好合\n百度表\t百度表\n百当\t百當\n百念\t百念\n百战百胜\t百戰百勝\n百扎\t百紮\n百折不回\t百折不回\n百折不挠\t百折不撓\n百折不挫\t百折不挫\n百折裙\t百摺裙\n百拙千丑\t百拙千醜\n百汇\t百匯\n百炼\t百鍊\n百炼成钢\t百鍊成鋼\n百科里\t百科裡\n百紫千红\t百紫千紅\n百纵千随\t百縱千隨\n百老汇\t百老匯\n百胜餐饮\t百勝餐飲\n百胜餐饮集团\t百勝餐飲集團\n百脑汇\t百腦匯\n百舍重茧\t百舍重繭\n百舍重趼\t百舍重趼\n百花历\t百花曆\n百花历史\t百花歷史\n百花娘子\t百花娘子\n百药之长\t百藥之長\n百虑一致\t百慮一致\n百计千心\t百計千心\n百计千方\t百計千方\n百计千谋\t百計千謀\n百谋千计\t百謀千計\n百谷\t百穀\n百谷王\t百谷王\n百足不僵\t百足不僵\n百足之虫\t百足之蟲\n百足之虫死而不僵\t百足之蟲死而不僵\n百足之虫至死不僵\t百足之蟲至死不僵\n百足虫\t百足蟲\n百辟\t百辟\n百里\t百里\n百里之才\t百里之才\n百里侯\t百里侯\n百里傒\t百里傒\n百里挑一\t百裡挑一\n百里香\t百里香\n百锻千练\t百鍛千練\n百面雷\t百面雷\n百香果干\t百香果乾\n皂化\t皂化\n皂白\t皂白\n皂荚\t皂莢\n皂荚树\t皂莢樹\n皂角\t皂角\n的一确二\t的一確二\n的历\t的歷\n的当\t的當\n的扣\t的扣\n的杯\t的杯\n的核\t的核\n的泛\t的泛\n的海里\t的海裡\n的的确确\t的的確確\n的确\t的確\n的确会\t的確會\n的确如此\t的確如此\n的确是\t的確是\n的确良\t的確良\n的钟\t的鐘\n的黎波里\t的黎波里\n皆准\t皆準\n皆可作淀\t皆可作澱\n皇亲国戚\t皇親國戚\n皇冠出版\t皇冠出版\n皇冠出版集团\t皇冠出版集團\n皇历\t皇曆\n皇后\t皇后\n皇后区\t皇后區\n皇后号\t皇后號\n皇后镇\t皇后鎮\n皇天后土\t皇天后土\n皇太后\t皇太后\n皇太极\t皇太極\n皇太极清太宗\t皇太極清太宗\n皇室里\t皇室裡\n皇家加勒比海游轮公司\t皇家加勒比海遊輪公司\n皇家马德里\t皇家馬德里\n皇庄\t皇莊\n皇恩浩荡\t皇恩浩蕩\n皇极\t皇極\n皇极历\t皇極曆\n皇极历史\t皇極歷史\n皇极数\t皇極數\n皇胄\t皇胄\n皇辟\t皇辟\n皓发\t皓髮\n皓月千里\t皓月千里\n皓月当空\t皓月當空\n";

/// Part 105 of the text.
pub const ST_PHRASES_105: &'static str = "皓齿朱唇\t皓齒朱脣\n皖系军阀\t皖系軍閥\n皖系战败\t皖系戰敗\n皙面\t皙面\n皮下出血\t皮下出血\n皮下注射\t皮下注射\n皮克斯\t皮克斯\n皮克林\t皮克林\n皮克罗比\t皮克羅比\n皮划艇\t皮划艇\n皮划艇激流回旋\t皮划艇激流回旋\n皮划艇静水\t皮划艇靜水\n皮制\t皮製\n皮制品\t皮製品\n皮制服\t皮制服\n皮困秋\t皮困秋\n皮夹克\t皮夾克\n皮尔斯布洛斯南\t皮爾斯布洛斯南\n皮层下失语症\t皮層下失語症\n皮托管\t皮托管\n皮松\t皮鬆\n皮松肉紧\t皮鬆肉緊\n皮松骨痒\t皮鬆骨癢\n皮板儿\t皮板兒\n皮特拉克\t皮特拉克\n皮肤\t皮膚\n皮里抽肉\t皮裡抽肉\n皮里春秋\t皮裡春秋\n皮里晋书\t皮裡晉書\n皮里膜外\t皮裡膜外\n皮里走肉\t皮裡走肉\n皮里阳秋\t皮裡陽秋\n皮雕\t皮雕\n皮面\t皮面\n皱别\t皺彆\n皱叶欧芹\t皺葉歐芹\n皱折\t皺摺\n盆吊\t盆吊\n盆里\t盆裡\n盈余\t盈餘\n盈千累万\t盈千累萬\n盈千累百\t盈千累百\n盈泛\t盈泛\n盈盈秋水\t盈盈秋水\n盈车嘉穗\t盈車嘉穗\n盈馀加征\t盈餘加徵\n益于\t益於\n益发\t益發\n益州名画录\t益州名畫錄\n益虫\t益蟲\n益觉困难\t益覺困難\n益鸟益虫\t益鳥益蟲\n盎格鲁撒克逊\t盎格魯撒克遜\n盎格鲁萨克逊\t盎格魯薩克遜\n盎格鲁萨克逊人\t盎格魯薩克遜人\n盎盂相系\t盎盂相繫\n盐余\t鹽餘\n盐卤\t鹽滷\n盐城师范学院\t鹽城師範學院\n盐打怎么咸\t鹽打怎麼鹹\n盐打怎么咸醋打怎么酸\t鹽打怎麼鹹醋打怎麼酸\n盐水选种\t鹽水選種\n盐水针\t鹽水針\n盐酸克仑特罗\t鹽酸克侖特羅\n监修\t監修\n监制\t監製\n监听系统\t監聽系統\n监察御史\t監察御史\n监管不周\t監管不周\n监管体制\t監管體制\n监管范围\t監管範圍\n监系\t監繫\n盒子里\t盒子裡\n盒式录音带\t盒式錄音帶\n盒式录音磁带\t盒式錄音磁帶\n盒里\t盒裡\n盖世之才\t蓋世之才\n盖了\t蓋了\n盖了又盖\t蓋了又蓋\n盖于\t蓋於\n盖杯\t蓋杯\n盖板\t蓋板\n盖维克\t蓋維克\n盗录\t盜錄\n盗御马\t盜御馬\n盗无实据\t盜無實據\n盗版党\t盜版黨\n盗跖\t盜跖\n盗采\t盜採\n盗钟\t盜鐘\n盗钟掩耳\t盜鐘掩耳\n盘回\t盤迴\n盘托\t盤托\n盘扣\t盤扣\n盘据\t盤據\n盘旋曲折\t盤旋曲折\n盘曲\t盤曲\n盘术\t盤術\n盘松\t盤松\n盘游\t盤遊\n盘获\t盤獲\n盘谷\t盤谷\n盘里\t盤裡\n盘面\t盤面\n盛了\t盛了\n盛价\t盛价\n盛冬\t盛冬\n盛德遗范\t盛德遺範\n盛极一时\t盛極一時\n盛极必衰\t盛極必衰\n盛极而衰\t盛極而衰\n盛行于\t盛行於\n盛赞\t盛讚\n盟旗制度\t盟旗制度\n目前目后\t目前目後\n目力表\t目力表\n目录\t目錄\n目录卡\t目錄卡\n目录学\t目錄學\n目无余子\t目無餘子\n目标价\t目標價\n目牛游刃\t目牛游刃\n目眦尽裂\t目眥盡裂\n目瞪口僵\t目瞪口僵\n目瞪舌僵\t目瞪舌僵\n目短于自见\t目短於自見\n目视云霄\t目視雲霄\n目骇耳回\t目駭耳回\n盲干\t盲幹\n直上青云\t直上青雲\n直了\t直了\n直于\t直於\n直冲\t直衝\n直升\t直升\n直升机\t直升機\n直升飞机\t直升飛機\n直发\t直髮\n直发女\t直髮女\n直发毛\t直發毛\n直头布袋\t直頭布袋\n直布罗陀\t直布羅陀\n直布罗陀海峡\t直布羅陀海峽\n直径\t直徑\n直截了当\t直截了當\n直捷了当\t直捷了當\n直接了当\t直接了當\n直接制版\t直接制版\n直接参与\t直接參與\n直接征税\t直接徵稅\n直接数据\t直接數據\n直接证据\t直接證據\n直摆\t直襬\n直杆\t直杆\n直流发电机\t直流發電機\n直系\t直系\n直系亲\t直系親\n直系亲属\t直系親屬\n直系军阀\t直系軍閥\n直系祖先\t直系祖先\n直系血亲\t直系血親\n直致\t直致\n直落布兰雅\t直落布蘭雅\n直言尽意\t直言盡意\n直言极谏\t直言極諫\n直进直出\t直進直出\n直链\t直鏈\n直销式传销制度\t直銷式傳銷制度\n直须\t直須\n相为表里\t相為表裡\n相于\t相於\n相交满天下知心能几人\t相交滿天下知心能幾人\n相克\t相剋\n相克制\t相剋制\n相克服\t相克服\n相关系数\t相關係數\n相冲\t相沖\n相别\t相別\n相别多年\t相別多年\n相去万里\t相去萬里\n相去无几\t相去無幾\n相台\t相臺\n相叶雅纪\t相葉雅紀\n相合\t相合\n相同\t相同\n相同点\t相同點\n相向\t相向\n相奸\t相姦\n相对于\t相對於\n相对极\t相對極\n相差无几\t相差無幾\n相干\t相干\n相平面\t相平面\n相并\t相併\n相当\t相當\n相当于\t相當於\n相当于或大于\t相當於或大於\n相当程度\t相當程度\n相念\t相念\n相托\t相托\n相扣\t相扣\n相提并论\t相提並論\n相斗\t相鬥\n相术\t相術\n相生相克\t相生相剋\n相符合\t相符合\n相等于\t相等於\n相结合\t相結合\n相融合\t相融合\n相距千里\t相距千里\n相适应\t相適應\n相里\t相里\n相门出相\t相門出相\n相面\t相面\n相须为命\t相須為命\n相须而行\t相須而行\n盼了\t盼了\n盾板\t盾板\n省个\t省個\n省了\t省了\n省党部\t省黨部\n省出\t省出\n省出来\t省出來\n省欲去奢\t省慾去奢\n省民同胞\t省民同胞\n省道台\t省道臺\n眉分八彩\t眉分八彩\n眉南面北\t眉南面北\n眉垂目合\t眉垂目合\n眉毛胡子一把抓\t眉毛鬍子一把抓\n眉角里\t眉角裡\n眉里\t眉裡\n眉面\t眉面\n看上了\t看上了\n看下表\t看下錶\n看下钟\t看下鐘\n看不出\t看不出\n看不出来\t看不出來\n看个究竟\t看個究竟\n看中了\t看中了\n看了\t看了\n看了又看\t看了又看\n看傻了眼\t看傻了眼\n看准\t看準\n看出\t看出\n看出了神\t看出了神\n看出去\t看出去\n看出来\t看出來\n看台\t看臺\n看台股\t看臺股\n看向\t看向\n看回\t看回\n看尽\t看盡\n看得出\t看得出\n看得出来\t看得出來\n看朱成碧\t看朱成碧\n看板\t看板\n看淡后市\t看淡後市\n看终了\t看終了\n看花了\t看花了\n看表\t看錶\n看表面\t看表面\n看走了眼\t看走了眼\n看钟\t看鐘\n看风向\t看風向\n看麦娘\t看麥娘\n真个\t真個\n真主党\t真主黨\n真保志\t真保志\n真值表\t真值表\n真凭实据\t真憑實據\n真凶\t真兇\n真凶实犯\t真兇實犯\n真受不了\t真受不了\n真后生动物\t真後生動物\n真实面\t真實面\n真彩色\t真彩色\n真成了\t真成了\n真才实学\t真才實學\n真是\t真是\n真服了\t真服了\n真核\t真核\n真理必胜\t真理必勝\n真确\t真確\n真草千字文\t真草千字文\n真身舍利\t真身舍利\n真金不怕火炼\t真金不怕火煉\n真面目\t真面目\n眠云\t眠雲\n眷念\t眷念\n眷注\t眷注\n眷舍\t眷舍\n眺台\t眺臺\n眺望台\t眺望臺\n眼下城里\t眼下城裡\n眼前花发\t眼前花發\n眼动技术\t眼動技術\n眼动记录\t眼動記錄\n眼同\t眼同\n眼周\t眼周\n眼圈红了\t眼圈紅了\n眼如秋水\t眼如秋水\n眼帘\t眼簾\n眼干\t眼乾\n眼干症\t眼乾症\n眼手并用\t眼手並用\n眼扎毛\t眼扎毛\n眼泛\t眼泛\n眼泪往肚子里流\t眼淚往肚子裡流\n眼泪洗面\t眼淚洗面\n眼球干燥症\t眼球乾燥症\n眼看四面\t眼看四面\n眼眶里\t眼眶裡\n眼睛里\t眼睛裡\n眼神里\t眼神裡\n眼花了乱\t眼花瞭亂\n眼药\t眼藥\n眼药水\t眼藥水\n眼药膏\t眼藥膏\n眼虫\t眼蟲\n眼观四面\t眼觀四面\n眼角里\t眼角裡\n眼迷心荡\t眼迷心蕩\n眼酸\t眼痠\n眼里\t眼裡\n";

/// Part 106 of the text.
pub const ST_PHRASES_106: &'static str = "眼里不揉沙子\t眼裡不揉沙子\n眼里揉不下沙子\t眼裡揉不下沙子\n眼镜布\t眼鏡布\n着儿\t著兒\n着手于\t著手於\n着眼于\t著眼於\n着色软体\t著色軟體\n着迷于\t著迷於\n着重于\t著重於\n着重指出\t著重指出\n睁一只眼\t睜一隻眼\n睟面盎背\t睟面盎背\n睡个\t睡個\n睡个够\t睡個夠\n睡个痛快\t睡個痛快\n睡个觉\t睡個覺\n睡了\t睡了\n睡了又睡\t睡了又睡\n睡游病\t睡遊病\n睡病虫\t睡病蟲\n睡眠曲\t睡眠曲\n睡眠欲\t睡眠慾\n睡眠虫\t睡眠蟲\n睡眼蒙眬\t睡眼矇矓\n睡莲叶\t睡蓮葉\n睥睨物表\t睥睨物表\n睽合\t睽合\n瞄不准\t瞄不準\n瞄了\t瞄了\n瞄准\t瞄準\n瞄准到\t瞄準到\n瞄出\t瞄出\n瞅下表\t瞅下錶\n瞅下钟\t瞅下鐘\n瞅不准\t瞅不準\n瞇了\t瞇了\n瞌睡虫\t瞌睡蟲\n瞎了\t瞎了\n瞎了眼\t瞎了眼\n瞎了眼睛\t瞎了眼睛\n瞎扎呼\t瞎扎呼\n瞑子里\t瞑子裡\n瞒了\t瞞了\n瞒哄\t瞞哄\n瞒天讨价就地还钱\t瞞天討價就地還錢\n瞠乎其后\t瞠乎其後\n瞠乎后矣\t瞠乎後矣\n瞧不准\t瞧不準\n瞧不出\t瞧不出\n瞧了\t瞧了\n瞧出\t瞧出\n瞩托\t矚託\n瞪了\t瞪了\n瞬发中子\t瞬發中子\n瞬发辐射\t瞬發輻射\n瞬得彩色电影\t瞬得彩色電影\n瞬息万变\t瞬息萬變\n瞬息千变\t瞬息千變\n瞭望\t瞭望\n瞭望台\t瞭望臺\n瞭望塔\t瞭望塔\n瞭望山\t瞭望山\n瞭望所\t瞭望所\n瞳蒙\t瞳矇\n瞻前忽后\t瞻前忽後\n瞻前顾后\t瞻前顧後\n瞻念\t瞻念\n瞿秋白\t瞿秋白\n矛头指向\t矛頭指向\n矛盾百出\t矛盾百出\n矛盾相向\t矛盾相向\n矜功负胜\t矜功負勝\n矜夸\t矜誇\n矜庄\t矜莊\n矜才使气\t矜才使氣\n矜能负才\t矜能負才\n矞云\t矞雲\n矢不虚发\t矢不虛發\n矢尽兵穷\t矢盡兵窮\n矢志\t矢志\n矢志不移\t矢志不移\n矢无虚发\t矢無虛發\n知了\t知了\n知人知面\t知人知面\n知人知面不知心\t知人知面不知心\n知几其神\t知幾其神\n知制诰\t知制誥\n知名当世\t知名當世\n知尽能索\t知盡能索\n知往鉴今\t知往鑑今\n知情同意\t知情同意\n知感不尽\t知感不盡\n知无不言言无不尽\t知無不言言無不盡\n知行合一\t知行合一\n知识范围\t知識範圍\n知道\t知道\n知道了\t知道了\n矩里迦\t矩里迦\n矫制\t矯制\n矫情干誉\t矯情干譽\n矫托\t矯託\n矫正术\t矯正術\n矫若游龙\t矯若遊龍\n矬个儿\t矬個兒\n矬子里头选将军\t矬子裡頭選將軍\n短不了\t短不了\n短了\t短了\n短于\t短於\n短价\t短價\n短发\t短髮\n短发性\t短發性\n短叹\t短嘆\n短叹长吁\t短嘆長吁\n短后\t短後\n短小精干\t短小精幹\n短幸\t短幸\n短折\t短折\n短曲\t短曲\n短板\t短板\n短纤维\t短纖維\n短针\t短針\n短须\t短鬚\n矮个\t矮個\n矮个儿\t矮個兒\n矮个子\t矮個子\n矮了\t矮了\n矮了一截\t矮了一截\n矮了半截\t矮了半截\n矮冬瓜\t矮冬瓜\n矮几\t矮几\n矮子里拔将军\t矮子裡拔將軍\n矮杆品种\t矮桿品種\n石内卜\t石內卜\n石几\t石几\n石化厂\t石化廠\n石台\t石臺\n石台县\t石臺縣\n石坛\t石壇\n石头布\t石頭布\n石家庄\t石家莊\n石屋余沈\t石屋餘瀋\n石屋制果\t石屋製果\n石屋续沈\t石屋續瀋\n石工术\t石工術\n石志伟\t石志偉\n石拐\t石柺\n石敢当\t石敢當\n石松\t石松\n石松粉\t石松粉\n石板\t石板\n石板屋\t石板屋\n石板瓦\t石板瓦\n石板路\t石板路\n石板道\t石板道\n石枯松老\t石枯松老\n石柜\t石櫃\n石梁\t石樑\n石棉布\t石棉布\n石棉板\t石棉板\n石棉症\t石棉症\n石油蜡\t石油蠟\n石油输出\t石油輸出\n石油输出国家组织\t石油輸出國家組織\n石油输出国组织\t石油輸出國組織\n石灰岩\t石灰岩\n石灰岩洞\t石灰岩洞\n石炭系\t石炭系\n石版术\t石版術\n石百合\t石百合\n石绵板\t石綿板\n石胡荽\t石胡荽\n石膏墙板\t石膏牆板\n石英卤素灯\t石英鹵素燈\n石英岩\t石英岩\n石英表\t石英錶\n石英钟\t石英鐘\n石英钟表\t石英鐘錶\n石莼\t石蓴\n石蜡\t石蠟\n石蜡像\t石蠟像\n石道里\t石道裡\n石针\t石針\n石钟乳\t石鐘乳\n石雕\t石雕\n石雕像\t石雕像\n石雕家\t石雕家\n石黑彩\t石黑彩\n矽岩\t矽岩\n矽肺症\t矽肺症\n矽谷\t矽谷\n矽质岩\t矽質岩\n矿物纤维\t礦物纖維\n码表\t碼錶\n砂岩\t砂岩\n砂布\t砂布\n砂锅面\t砂鍋麵\n砌合\t砌合\n砌合法\t砌合法\n砌块建筑\t砌塊建築\n砍了\t砍了\n砍出\t砍出\n砍出去\t砍出去\n砍出来\t砍出來\n砍向\t砍向\n研修\t研修\n研修员\t研修員\n研修班\t研修班\n研几探赜\t研幾探賾\n研几析理\t研幾析理\n研判出\t研判出\n研制\t研製\n研制出\t研製出\n研制过程\t研製過程\n研发\t研發\n研发出\t研發出\n研发出来\t研發出來\n研发替代役\t研發替代役\n研发部\t研發部\n研发部门\t研發部門\n研拟出\t研擬出\n研究出\t研究出\n研究出来\t研究出來\n砖厂\t磚廠\n砖雕\t磚雕\n砖面\t磚面\n砚台\t硯臺\n砥志砺行\t砥志礪行\n砥据\t砥據\n砧板\t砧板\n砭灸术\t砭灸術\n砭针\t砭針\n砰当\t砰噹\n砲台\t砲臺\n破了脸\t破了臉\n破产财团\t破產財團\n破价\t破價\n破发\t破發\n破发点\t破發點\n破坏欲\t破壞慾\n破布\t破布\n破布子\t破布子\n破折号\t破折號\n破格录用\t破格錄用\n破盘价\t破盤價\n破纪录\t破紀錄\n破绽百出\t破綻百出\n破茧而出\t破繭而出\n破获\t破獲\n破蒸笼只会撒气\t破蒸籠只會撒氣\n破表\t破錶\n破记录\t破記錄\n破道里\t破道裡\n破釜沉舟\t破釜沉舟\n破镜重合\t破鏡重合\n破面\t破面\n破风筝抖起来了\t破風箏抖起來了\n砸了\t砸了\n砻谷机\t礱穀機\n砾岩\t礫岩\n硅谷\t硅谷\n硅质岩\t硅質岩\n硗确\t磽确\n硝烟\t硝煙\n硝烟弹雨\t硝煙彈雨\n硫磺谷\t硫磺谷\n硫酸烟碱\t硫酸菸鹼\n硬了\t硬了\n硬了起来\t硬了起來\n硬件平台\t硬件平臺\n硬冲\t硬衝\n硬化症\t硬化症\n硬咽\t硬嚥\n硬干\t硬幹\n硬彩\t硬彩\n硬是\t硬是\n硬核\t硬核\n硬纸板\t硬紙板\n硬肥皂\t硬肥皂\n硬质合金\t硬質合金\n硬里子\t硬裡子\n硬面\t硬麵\n硬页岩\t硬頁岩\n确乎\t確乎\n确保\t確保\n确保安全\t確保安全\n确信\t確信\n确信无疑\t確信無疑\n确凿\t確鑿\n确凿不移\t確鑿不移\n确切\t確切\n确切不变\t確切不變\n确切性\t確切性\n确定\t確定\n确定会\t確定會\n确定判决\t確定判決\n确定性\t確定性\n确定故意\t確定故意\n确定效应\t確定效應\n确定是\t確定是\n确定有\t確定有\n确定能\t確定能\n确实\t確實\n确实会\t確實會\n确实可靠\t確實可靠\n确实在\t確實在\n确实性\t確實性\n确实是\t確實是\n确实有\t確實有\n确实能\t確實能\n确山县\t確山縣\n确当\t確當\n确是\t確是\n确有\t確有\n确有其事\t確有其事\n确有其人\t確有其人\n确有此事\t確有此事\n确瘠\t确瘠\n确知\t確知\n确确实实\t確確實實\n确立\t確立\n确系\t確係\n确认\t確認\n确认为\t確認為\n确认是\t確認是\n确论\t確論\n确证\t確證\n确非\t確非\n碌曲\t碌曲\n碌曲县\t碌曲縣\n碌碌庸才\t碌碌庸才\n碍于\t礙於\n碍于情面\t礙於情面\n碍难照准\t礙難照准\n碍面子\t礙面子\n碎修儿\t碎修兒\n碎发\t碎髮\n碎尸万段\t碎屍萬段\n碎屑岩\t碎屑岩\n碎布\t碎布\n碎布条\t碎布條\n碑坛\t碑壇\n碑志\t碑誌\n碑面\t碑面\n碗柜\t碗櫃\n";

/// Part 107 of the text.
pub const ST_PHRASES_107: &'static str = "碗白干\t碗白乾\n碗里\t碗裡\n碗面\t碗麵\n碛卤\t磧鹵\n碧云\t碧雲\n碧云寺\t碧雲寺\n碧波万顷\t碧波萬頃\n碧波荡漾\t碧波盪漾\n碧瓦朱甍\t碧瓦朱甍\n碧眼紫须\t碧眼紫鬚\n碧眼胡\t碧眼胡\n碧眼金发\t碧眼金髮\n碧里杂存\t碧里雜存\n碧鸡漫志\t碧雞漫志\n碰了\t碰了\n碰杯\t碰杯\n碰碰胡\t碰碰胡\n碰钟\t碰鐘\n碰面\t碰面\n碱性岩\t鹼性岩\n碱纤维素\t鹼纖維素\n碳氢化合\t碳氫化合\n碳氢化合物\t碳氫化合物\n碳水化合\t碳水化合\n碳水化合物\t碳水化合物\n碳的化合物\t碳的化合物\n碳纤\t碳纖\n碳纤维\t碳纖維\n碳酸岩\t碳酸岩\n碳链纤维\t碳鏈纖維\n碾米厂\t碾米廠\n磁制\t磁製\n磁北极\t磁北極\n磁单极子\t磁單極子\n磁南极\t磁南極\n磁扣\t磁扣\n磁极\t磁極\n磁核\t磁核\n磁碟作业系统\t磁碟作業系統\n磁针\t磁針\n磊落轶荡\t磊落軼蕩\n磕个响头\t磕個響頭\n磕个头\t磕個頭\n磕头虫\t磕頭蟲\n磨了\t磨了\n磨了半截舌头\t磨了半截舌頭\n磨出\t磨出\n磨制\t磨製\n磨制石器\t磨製石器\n磨厉以须\t磨厲以須\n磨变岩\t磨變岩\n磨合\t磨合\n磨合期\t磨合期\n磨合罗\t磨合羅\n磨折\t磨折\n磨杵成针\t磨杵成針\n磨炼\t磨鍊\n磨皮术\t磨皮術\n磨石子面\t磨石子面\n磨石粗砂岩\t磨石粗砂岩\n磨砺以须\t磨礪以須\n磨粉厂\t磨粉廠\n磨耗症\t磨耗症\n磨脊梁\t磨脊樑\n磨针溪\t磨針溪\n磨铁成针\t磨鐵成針\n磬折\t磬折\n磬钟\t磬鐘\n磷酸盐岩\t磷酸鹽岩\n礁岩\t礁岩\n示复\t示覆\n示威游行\t示威遊行\n示范\t示範\n示范企业\t示範企業\n示范作用\t示範作用\n示范动作\t示範動作\n示范区\t示範區\n示范单位\t示範單位\n示范厂\t示範廠\n示范园\t示範園\n示范园区\t示範園區\n示范场\t示範場\n示范基地\t示範基地\n示范学校\t示範學校\n示范岗\t示範崗\n示范工程\t示範工程\n示范带\t示範帶\n示范店\t示範店\n示范性\t示範性\n示范户\t示範戶\n示范效应\t示範效應\n示范教学\t示範教學\n示范文本\t示範文本\n示范村\t示範村\n示范校\t示範校\n示范法\t示範法\n示范点\t示範點\n示范片\t示範片\n示范班\t示範班\n示范田\t示範田\n示范社区\t示範社區\n示范街\t示範街\n示范表演\t示範表演\n示范课\t示範課\n示范赛\t示範賽\n示范项目\t示範項目\n礼义生于富足\t禮義生於富足\n礼乐射御\t禮樂射御\n礼仪规范\t禮儀規範\n礼制\t禮制\n礼台\t禮臺\n礼所当然\t禮所當然\n礼数周到\t禮數周到\n礼斗\t禮斗\n礼赞\t禮讚\n礼轻人意重千里送鹅毛\t禮輕人意重千里送鵝毛\n社交恐惧症\t社交恐懼症\n社交才能\t社交才能\n社会主义制度\t社會主義制度\n社会价值\t社會價值\n社会体系\t社會體系\n社会党\t社會黨\n社会制度\t社會制度\n社会发展\t社會發展\n社会团体\t社會團體\n社会学系\t社會學系\n社会控制\t社會控制\n社会整合\t社會整合\n社会民主党\t社會民主黨\n社会民主党人\t社會民主黨人\n社会福利彩券\t社會福利彩券\n社会系\t社會系\n社会规范\t社會規範\n社会调适\t社會調適\n社党\t社黨\n社区发展\t社區發展\n社区电台\t社區電臺\n社团\t社團\n社团活动\t社團活動\n社团课\t社團課\n社工系\t社工系\n社教系\t社教系\n社民党\t社民黨\n社里\t社裡\n祁奚荐仇\t祁奚薦仇\n祇洹精舍\t祇洹精舍\n祈仙台\t祈仙臺\n祈愿\t祈願\n祈祷团\t祈禱團\n祖冲之\t祖沖之\n祖国光复会\t祖國光復會\n祛痰药\t祛痰藥\n祛蠹除奸\t祛蠹除奸\n祝厘\t祝釐\n祝发\t祝髮\n祝年丰\t祝年豐\n祝愿\t祝願\n祝英台\t祝英臺\n祝赞\t祝讚\n神不守舍\t神不守舍\n神人鉴知\t神人鑑知\n神出鬼入\t神出鬼入\n神出鬼没\t神出鬼沒\n神分志夺\t神分志奪\n神台\t神臺\n神圣同盟\t神聖同盟\n神圣周\t神聖週\n神坛\t神壇\n神头鬼面\t神頭鬼面\n神彩奕奕\t神彩奕奕\n神志\t神志\n神志昏迷\t神志昏迷\n神态悠闲\t神態悠閒\n神摇魂荡\t神搖魂盪\n神曲\t神曲\n神曲茶\t神麴茶\n神术\t神術\n神术妙法\t神術妙法\n神术妙策\t神術妙策\n神术妙计\t神術妙計\n神机妙术\t神機妙術\n神杯\t神杯\n神殿里\t神殿裡\n神游\t神遊\n神游太虚\t神遊太虛\n神秘\t神祕\n神经干\t神經幹\n神经战术\t神經戰術\n神经症\t神經症\n神经系\t神經系\n神经系统\t神經系統\n神经纤维\t神經纖維\n神经纤维瘤\t神經纖維瘤\n神胄\t神胄\n神荼郁垒\t神荼鬱壘\n神迹\t神蹟\n神采\t神采\n神采奕奕\t神采奕奕\n神采奕然\t神采奕然\n神采焕发\t神采煥發\n神采英拔\t神采英拔\n神采飘逸\t神采飄逸\n神采飞扬\t神采飛揚\n神采骏发\t神采駿發\n神里\t神里\n神雕\t神鵰\n神雕侠侣\t神鵰俠侶\n神雕像\t神雕像\n神魂摇荡\t神魂搖盪\n神魂荡漾\t神魂盪漾\n神魂荡飏\t神魂盪颺\n神魂飘荡\t神魂飄蕩\n神魂飞荡\t神魂飛蕩\n神魂驰荡\t神魂馳蕩\n祥丰街\t祥豐街\n祥云\t祥雲\n祥云县\t祥雲縣\n祥云瑞彩\t祥雲瑞彩\n祥云瑞气\t祥雲瑞氣\n祥风庆云\t祥風慶雲\n票价\t票價\n票庄\t票莊\n票房价值\t票房價值\n票房毒药\t票房毒藥\n票房纪录\t票房紀錄\n票房记录\t票房記錄\n票据\t票據\n票据交换\t票據交換\n票据交易所\t票據交易所\n票据存款\t票據存款\n票据法\t票據法\n票据行为\t票據行為\n票汇\t票匯\n票选出\t票選出\n票面\t票面\n票面价值\t票面價值\n票面值\t票面值\n祭东施娘\t祭東施娘\n祭了\t祭了\n祭五脏庙\t祭五臟廟\n祭出\t祭出\n祭台\t祭臺\n祭司权术\t祭司權術\n祭吊\t祭弔\n祭吊文\t祭弔文\n祭坛\t祭壇\n祭尸\t祭尸\n祭遵布被\t祭遵布被\n祷念\t禱唸\n祸于\t禍於\n祸从口出\t禍從口出\n祸出不测\t禍出不測\n祸发萧墙\t禍發蕭牆\n祸发齿牙\t禍發齒牙\n祸因恶积\t禍因惡積\n祸生于忽\t禍生於忽\n祸盈恶稔\t禍盈惡稔\n祸福吉凶\t禍福吉凶\n祸福同门\t禍福同門\n祸种\t禍種\n祸种头\t禍種頭\n祸稔恶盈\t禍稔惡盈\n禀复\t稟覆\n禁制\t禁制\n禁制令\t禁制令\n禁制品\t禁製品\n禁奸除猾\t禁奸除猾\n禁当\t禁當\n禁忌站台\t禁忌站臺\n禁核\t禁核\n禁欲\t禁慾\n禁欲主义\t禁慾主義\n禁止吸烟\t禁止吸菸\n禁止外出\t禁止外出\n禁毁\t禁燬\n禁毁书\t禁燬書\n禁烟\t禁菸\n禁烟令\t禁菸令\n禁烟节\t禁菸節\n禁药\t禁藥\n禁药案\t禁藥案\n禄丰\t祿豐\n禄丰县\t祿豐縣\n福克\t福克\n福克兰群岛\t福克蘭群島\n福克斯\t福克斯\n福克纳\t福克納\n福兰克\t福蘭克\n福尽灾生\t福盡災生\n福布斯\t福布斯\n福建师范\t福建師範\n福建师范大学\t福建師範大學\n福建面\t福建麵\n福惠双修\t福惠雙修\n福无重受日祸有并来时\t福無重受日禍有並來時\n福瑞克\t福瑞克\n福生于微\t福生于微\n福维克\t福維克\n福舍\t福舍\n福荫\t福廕\n福雷\t福雷\n禹余粮\t禹餘糧\n禹王台\t禹王臺\n禹王台区\t禹王臺區\n禺谷\t禺谷\n离不了\t離不了\n离了\t離了\n离于\t離於\n离别\t離別\n离别多年\t離別多年\n离别已久\t離別已久\n离合\t離合\n离合体诗\t離合體詩\n离合器\t離合器\n离合悲欢\t離合悲歡\n离合板\t離合板\n离合诗\t離合詩\n离奇曲折\t離奇曲折\n离娘饭\t離娘飯\n";

/// Part 108 of the text.
pub const ST_PHRASES_108: &'static str = "离婚同意书\t離婚同意書\n离家出走\t離家出走\n离岸价\t離岸價\n离弦\t離弦\n离弦走板儿\t離弦走板兒\n离情别绪\t離情別緒\n离题万里\t離題萬里\n离鸾别凤\t離鸞別鳳\n禽困覆车\t禽困覆車\n禽滑厘\t禽滑釐\n禽舍\t禽舍\n禾虫\t禾蟲\n禾谷\t禾穀\n禾谷类作物\t禾穀類作物\n秀出\t秀出\n秀出班行\t秀出班行\n秀发\t秀髮\n秀发垂肩\t秀髮垂肩\n秀才\t秀才\n秀才不出门能知天下事\t秀才不出門能知天下事\n秀才人情\t秀才人情\n秀才作医如菜作虀\t秀才作醫如菜作虀\n秀才造反\t秀才造反\n私下里\t私下裡\n私了\t私了\n私仇\t私仇\n私党\t私黨\n私心藏奸\t私心藏奸\n私念\t私念\n私斗\t私鬥\n私曲\t私曲\n私有制\t私有制\n私有财产制\t私有財產制\n私欲\t私慾\n私自同意\t私自同意\n秃发\t禿髮\n秃发症\t禿髮症\n秃妃之发\t禿妃之髮\n秃秃里\t禿禿裡\n秉台衡\t秉臺衡\n秉烛夜游\t秉燭夜遊\n秉鉴\t秉鑑\n秋不干\t秋不乾\n秋事\t秋事\n秋令\t秋令\n秋假里\t秋假裡\n秋冬\t秋冬\n秋决\t秋決\n秋凉\t秋涼\n秋凉时节\t秋涼時節\n秋刀鱼\t秋刀魚\n秋分\t秋分\n秋分点\t秋分點\n秋初\t秋初\n秋千\t鞦韆\n秋发\t秋髮\n秋叶\t秋葉\n秋叶原\t秋葉原\n秋后\t秋後\n秋后算帐\t秋後算帳\n秋后算账\t秋後算賬\n秋场\t秋場\n秋士\t秋士\n秋声\t秋聲\n秋声赋\t秋聲賦\n秋夜\t秋夜\n秋天\t秋天\n秋天里\t秋天裡\n秋娘\t秋娘\n秋季\t秋季\n秋季学期\t秋季學期\n秋季旅行\t秋季旅行\n秋季档\t秋季檔\n秋季班\t秋季班\n秋季赛\t秋季賽\n秋官\t秋官\n秋审\t秋審\n秋山\t秋山\n秋川雅史\t秋川雅史\n秋庄稼\t秋莊稼\n秋征\t秋征\n秋心\t秋心\n秋思\t秋思\n秋意\t秋意\n秋意已浓\t秋意已濃\n秋成\t秋成\n秋扇\t秋扇\n秋扇见捐\t秋扇見捐\n秋播\t秋播\n秋收\t秋收\n秋收冬藏\t秋收冬藏\n秋收季节\t秋收季節\n秋收起义\t秋收起義\n秋方\t秋方\n秋日\t秋日\n秋日里\t秋日裡\n秋旱\t秋旱\n秋景\t秋景\n秋月\t秋月\n秋月寒江\t秋月寒江\n秋月春风\t秋月春風\n秋期\t秋期\n秋枫\t秋楓\n秋榜\t秋榜\n秋毫\t秋毫\n秋毫不犯\t秋毫不犯\n秋毫之末\t秋毫之末\n秋毫无犯\t秋毫無犯\n秋气\t秋氣\n秋水\t秋水\n秋水仙素\t秋水仙素\n秋水伊人\t秋水伊人\n秋汛\t秋汛\n秋河\t秋河\n秋波\t秋波\n秋波送情\t秋波送情\n秋海棠\t秋海棠\n秋海棠花\t秋海棠花\n秋游\t秋遊\n秋灌\t秋灌\n秋熟\t秋熟\n秋燥\t秋燥\n秋牡丹\t秋牡丹\n秋瑾\t秋瑾\n秋田\t秋田\n秋田县\t秋田縣\n秋眉\t秋眉\n秋石\t秋石\n秋社\t秋社\n秋禊\t秋禊\n秋筱宫\t秋篠宮\n秋粮\t秋糧\n秋老虎\t秋老虎\n秋耕\t秋耕\n秋胡\t秋胡\n秋胡变文\t秋胡變文\n秋胡戏妻\t秋胡戲妻\n秋色\t秋色\n秋色宜人\t秋色宜人\n秋节\t秋節\n秋茶\t秋茶\n秋草\t秋草\n秋草人情\t秋草人情\n秋荼\t秋荼\n秋荼密网\t秋荼密網\n秋莲\t秋蓮\n秋菊\t秋菊\n秋菊傲霜\t秋菊傲霜\n秋菜\t秋菜\n秋葵\t秋葵\n秋葵荚\t秋葵莢\n秋虫\t秋蟲\n秋蝉\t秋蟬\n秋衣\t秋衣\n秋装\t秋裝\n秋裤\t秋褲\n秋试\t秋試\n秋闱\t秋闈\n秋阳\t秋陽\n秋阴入井干\t秋陰入井幹\n秋雨\t秋雨\n秋霖\t秋霖\n秋霜\t秋霜\n秋颜\t秋顏\n秋风\t秋風\n秋风团扇\t秋風團扇\n秋风扫落叶\t秋風掃落葉\n秋风落叶\t秋風落葉\n秋风辞\t秋風辭\n秋风过耳\t秋風過耳\n秋风送爽\t秋風送爽\n秋风飒飒\t秋風颯颯\n秋香\t秋香\n秋高气爽\t秋高氣爽\n秋高气肃\t秋高氣肅\n秋高马肥\t秋高馬肥\n秋麻\t秋麻\n种上\t種上\n种上蒺藜就要扎脚\t種上蒺藜就要扎腳\n种下\t種下\n种下祸根\t種下禍根\n种人\t種人\n种仁\t種仁\n种公畜\t種公畜\n种出\t種出\n种出来\t種出來\n种切\t種切\n种别\t種別\n种到\t種到\n种名\t種名\n种因\t種因\n种地\t種地\n种姓\t種姓\n种姓制\t種姓制\n种姓制度\t種姓制度\n种子\t種子\n种子园\t種子園\n种子地\t種子地\n种子岛\t種子島\n种子植物\t種子植物\n种子球员\t種子球員\n种子田\t種子田\n种子网路\t種子網路\n种子选手\t種子選手\n种子队\t種子隊\n种差\t種差\n种师中\t种師中\n种师道\t种師道\n种庄稼\t種莊稼\n种得\t種得\n种德\t種德\n种性\t種性\n种户\t種戶\n种放\t种放\n种族\t種族\n种族中心主义\t種族中心主義\n种族主义\t種族主義\n种族主义者\t種族主義者\n种族偏见\t種族偏見\n种族平等\t種族平等\n种族歧视\t種族歧視\n种族清洗\t種族清洗\n种族清除\t種族清除\n种族灭绝\t種族滅絕\n种族迫害\t種族迫害\n种族问题\t種族問題\n种族隔离\t種族隔離\n种树\t種樹\n种植\t種植\n种植业\t種植業\n种植义齿\t種植義齒\n种植区\t種植區\n种植园\t種植園\n种植户\t種植戶\n种概念\t種概念\n种源中心\t種源中心\n种源论\t種源論\n种火又长拄门又短\t種火又長拄門又短\n种牛\t種牛\n种牛痘\t種牛痘\n种猪\t種豬\n种玉\t種玉\n种瓜得瓜\t種瓜得瓜\n种瓜得瓜种豆得豆\t種瓜得瓜種豆得豆\n种生\t種生\n种田\t種田\n种田人家\t種田人家\n种畜\t種畜\n种痘\t種痘\n种的\t種的\n种皮\t種皮\n种祸\t種禍\n种种\t種種\n种稻\t種稻\n种类\t種類\n种籽\t種籽\n种系\t種系\n种群\t種群\n种肥\t種肥\n种花\t種花\n种花草\t種花草\n种菜\t種菜\n种蛋\t種蛋\n种谷\t種穀\n种豆\t種豆\n种豆得豆\t種豆得豆\n种起\t種起\n种过\t種過\n种过去\t種過去\n种过来\t種過來\n种近乎幻想\t種近乎幻想\n种间杂交\t種間雜交\n种马\t種馬\n种麦得麦\t種麥得麥\n种麻\t種麻\n科举制\t科舉制\n科举制度\t科舉制度\n科克\t科克\n科克林\t科克林\n科别\t科別\n科学万能\t科學萬能\n科学中药\t科學中藥\n科学技术\t科學技術\n科学技术是第一生产力\t科學技術是第一生產力\n科学技术现代化\t科學技術現代化\n科学种田\t科學種田\n科学规范\t科學規範\n科学面\t科學麵\n科尔沁左翼后\t科爾沁左翼後\n科尔沁左翼后旗\t科爾沁左翼後旗\n科尼赛克\t科尼賽克\n科布多\t科布多\n科布多河\t科布多河\n科布多盆地\t科布多盆地\n科托努\t科托努\n科技示范户\t科技示範戶\n科斗\t科斗\n科斗书\t科斗書\n科斗文\t科斗文\n科特布斯\t科特布斯\n科班出身\t科班出身\n科目表\t科目表\n科系\t科系\n科纳克里\t科納克里\n科罗拉多大峡谷\t科羅拉多大峽谷\n科范\t科範\n科迪勒拉山系\t科迪勒拉山系\n科际整合\t科際整合\n秒表\t秒錶\n秒针\t秒針\n秒钟\t秒鐘\n秕谷\t秕穀\n秘制\t祕製\n秘密\t祕密\n秘录\t祕錄\n秘鲁\t秘魯\n租价\t租價\n租借\t租借\n租借人\t租借人\n租借地\t租借地\n租借法案\t租借法案\n租借给\t租借給\n租出\t租出\n租出去\t租出去\n秤平斗满\t秤平斗滿\n秤斤注两\t秤斤注兩\n秤杆\t秤桿\n秤砣虽小压千斤\t秤砣雖小壓千斤\n秦吉了\t秦吉了\n秦少游\t秦少游\n秧针\t秧針\n积于忽微\t積於忽微\n积云\t積雲\n积分制\t積分制\n积层云\t積層雲\n积恶\t積惡\n积恶余殃\t積惡餘殃\n积恶馀殃\t積惡餘殃\n积极\t積極\n积极份子\t積極份子\n积极参与\t積極參與\n积极参加\t積極參加\n积极反应\t積極反應\n积极因素\t積極因素\n积极型\t積極型\n积极性\t積極性\n积极论\t積極論\n积淀\t積澱\n";

/// Part 109 of the text.
pub const ST_PHRASES_109: &'static str = "积谷\t積穀\n积谷防饥\t積穀防饑\n积郁\t積鬱\n积里渐里\t積裡漸裡\n积金至斗\t積金至斗\n积雨云\t積雨雲\n称出\t稱出\n称制\t稱制\n称叹\t稱歎\n称心满志\t稱心滿志\n称念\t稱念\n称愿\t稱願\n称王封后\t稱王封后\n称谓录\t稱謂錄\n称赞\t稱讚\n称赞不已\t稱讚不已\n移出\t移出\n移出去\t移出去\n移出来\t移出來\n移向\t移向\n移回\t移回\n移山志\t移山志\n移情别恋\t移情別戀\n移星换斗\t移星換斗\n移植手术\t移植手術\n移祸于\t移禍於\n秾纤\t穠纖\n秾纤合度\t穠纖合度\n稀松\t稀鬆\n稀松平常\t稀鬆平常\n稀松骨质\t稀鬆骨質\n稀释后\t稀釋後\n稀里\t稀里\n稀里哗啦\t稀里嘩啦\n稀里打哄\t稀里打哄\n稀里糊涂\t稀裡糊塗\n程序修宪\t程序修憲\n程序控制\t程序控制\n程式控制\t程式控制\n程式规划\t程式規劃\n程朱\t程朱\n程砚秋\t程硯秋\n稍出\t稍出\n稍占上风\t稍占上風\n稍后\t稍後\n稍干的\t稍乾的\n稍感不适\t稍感不適\n稍有不准\t稍有不準\n稍胜一筹\t稍勝一籌\n稍高于\t稍高於\n税制\t稅制\n税后\t稅後\n税捐稽征\t稅捐稽徵\n税捐稽征处\t稅捐稽徵處\n税种\t稅種\n税负制\t稅負制\n稔恶不悛\t稔惡不悛\n稠云\t稠雲\n稳占\t穩佔\n稳吃三注\t穩吃三注\n稳坐钓鱼台\t穩坐釣魚臺\n稳定物价\t穩定物價\n稳当\t穩當\n稳当性\t穩當性\n稳扎\t穩紮\n稳扎稳打\t穩紮穩打\n稳操胜券\t穩操勝券\n稳操胜算\t穩操勝算\n稳稳当当\t穩穩當當\n稳获\t穩獲\n稻种\t稻種\n稻穗\t稻穗\n稻谷\t稻穀\n稽征\t稽徵\n稽征处\t稽徵處\n稽征所\t稽徵所\n稽核\t稽覈\n穆克吉\t穆克吉\n穆巴拉克\t穆巴拉克\n穆斯坦西里\t穆斯坦西里\n穆棱\t穆稜\n穆罕默德历\t穆罕默德曆\n穆罕默德历史\t穆罕默德歷史\n穗儿\t穗兒\n穗子\t穗子\n穗帏飘井干\t繐幃飄井幹\n穗帐\t繐帳\n穗帷\t繐帷\n穗状\t穗狀\n穗状花序\t穗狀花序\n穗肥\t穗肥\n穗花杉\t穗花杉\n穗裳\t繐裳\n穗轴\t穗軸\n穗选\t穗選\n穷于\t窮於\n穷于应付\t窮於應付\n穷兵极武\t窮兵極武\n穷兵黩武\t窮兵黷武\n穷冬\t窮冬\n穷凶恶极\t窮兇惡極\n穷凶极恶\t窮兇極惡\n穷凶极虐\t窮兇極虐\n穷发\t窮髮\n穷困\t窮困\n穷困人家\t窮困人家\n穷天极地\t窮天極地\n穷奢极侈\t窮奢極侈\n穷奢极多\t窮奢極多\n穷奢极欲\t窮奢極欲\n穷妙极巧\t窮妙極巧\n穷富极贵\t窮富極貴\n穷尽\t窮盡\n穷山恶水\t窮山惡水\n穷工极巧\t窮工極巧\n穷幽极微\t窮幽極微\n穷当益坚\t窮當益堅\n穷当益坚老当益壮\t窮當益堅老當益壯\n穷形尽相\t窮形盡相\n穷形极状\t窮形極狀\n穷本极源\t窮本極源\n穷极\t窮極\n穷极其妙\t窮極其妙\n穷极则变\t窮極則變\n穷极无聊\t窮極無聊\n穷极要妙\t窮極要妙\n穷根寻叶\t窮根尋葉\n穷灵尽妙\t窮靈盡妙\n穷理尽性\t窮理盡性\n穷纤入微\t窮纖入微\n穷而后工\t窮而後工\n穷贵极富\t窮貴極富\n穷追不舍\t窮追不捨\n穷里\t窮里\n穹谷\t穹谷\n空个\t空個\n空中交通管制\t空中交通管制\n空中交通管制员\t空中交通管制員\n空中布雷\t空中佈雷\n空中格斗\t空中格鬥\n空中管制站\t空中管制站\n空了\t空了\n空优迷彩\t空優迷彩\n空余\t空餘\n空军航空技术学院\t空軍航空技術學院\n空出\t空出\n空出来\t空出來\n空前绝后\t空前絕後\n空前绝后后\t空前絕後後\n空叹\t空嘆\n空当\t空當\n空当儿\t空當兒\n空当子\t空當子\n空心汤团\t空心湯糰\n空心萝卜\t空心蘿蔔\n空手而回\t空手而回\n空投布雷\t空投佈雷\n空杯\t空杯\n空柜子\t空櫃子\n空梁落燕泥\t空樑落燕泥\n空气喷气发动机\t空氣噴氣發動機\n空气缓冲间\t空氣緩衝間\n空泛\t空泛\n空疏无据\t空疏無據\n空空荡荡\t空空蕩蕩\n空荡\t空蕩\n空荡荡\t空蕩蕩\n空蒙\t空濛\n空调症\t空調症\n空谷\t空谷\n空谷幽兰\t空谷幽蘭\n空谷足音\t空谷足音\n空钟\t空鐘\n空间曲线\t空間曲線\n空间艺术\t空間藝術\n空集合\t空集合\n穿不出\t穿不出\n穿云裂石\t穿雲裂石\n穿出\t穿出\n穿出去\t穿出去\n穿出来\t穿出來\n穿回\t穿回\n穿跟斗\t穿跟斗\n穿针\t穿針\n穿针引线\t穿針引線\n穿针走线\t穿針走線\n穿鞋的不斗赤脚的\t穿鞋的不鬥赤腳的\n穿麻挂孝\t穿麻掛孝\n突出\t突出\n突出去\t突出去\n突出来\t突出來\n突出重围\t突出重圍\n突升\t突升\n突发\t突發\n突发事件\t突發事件\n突发奇想\t突發奇想\n突发性\t突發性\n突发状况\t突發狀況\n突围而出\t突圍而出\n突显出\t突顯出\n突袭战术\t突襲戰術\n突触后\t突觸後\n窃占\t竊占\n窃占罪\t竊占罪\n窃幸乘宠\t竊幸乘寵\n窃据\t竊據\n窃钟掩耳\t竊鐘掩耳\n窄路里\t窄路裡\n窄道里\t窄道裡\n窅娘\t窅娘\n窒欲\t窒慾\n窗台\t窗臺\n窗台上\t窗臺上\n窗帘\t窗簾\n窗帘布\t窗簾布\n窗明几亮\t窗明几亮\n窗明几净\t窗明几淨\n窗格里\t窗格裡\n窘困\t窘困\n窘态百出\t窘態百出\n窜出\t竄出\n窜升\t竄升\n窜游\t竄遊\n窜进窜出\t竄進竄出\n窝里\t窩裡\n窝里反\t窩裡反\n窝里发炮\t窩裡發炮\n窝里炮\t窩裡炮\n窝里窝囊\t窩裡窩囊\n窝里翻\t窩裡翻\n窝阔台\t窩闊臺\n窝阔台汗\t窩闊臺汗\n窝阔台汗国\t窩闊臺汗國\n窟里拔蛇\t窟裡拔蛇\n窥御激夫\t窺御激夫\n窦太后\t竇太后\n窨子里秋月\t窨子裡秋月\n立了\t立了\n立于\t立於\n立于不败\t立於不敗\n立于不败之地\t立於不敗之地\n立体几何\t立體幾何\n立体身历声\t立體身歷聲\n立克次体\t立克次體\n立冬\t立冬\n立升\t立升\n立宪民主党\t立憲民主黨\n立当\t立當\n立志\t立志\n立扎\t立扎\n立扫千言\t立掃千言\n立方公里\t立方公里\n立方厘米\t立方釐米\n立杆\t立杆\n立杆见影\t立杆見影\n立柜\t立櫃\n立氏立克次体\t立氏立克次體\n立秋\t立秋\n立联合医院\t立聯合醫院\n立范\t立範\n立面\t立面\n立面图\t立面圖\n竖人毛发\t豎人毛髮\n竖柱上梁\t豎柱上樑\n竖起脊梁\t豎起脊樑\n站个\t站個\n站了\t站了\n站出\t站出\n站出去\t站出去\n站出来\t站出來\n站台\t站臺\n站台票\t站臺票\n站干岸儿\t站乾岸兒\n站柜台\t站櫃檯\n竞争和聚合\t競爭和聚合\n竞价\t競價\n竞合现象\t競合現象\n竞向\t競向\n竞斗\t競鬥\n竟于\t竟於\n竟须\t竟須\n章台\t章臺\n章台杨柳\t章臺楊柳\n章台柳\t章臺柳\n章回\t章回\n章回体\t章回體\n章回小说\t章回小說\n章表\t章表\n童仆\t童僕\n童军团\t童軍團\n童蒙\t童蒙\n童蒙训\t童蒙訓\n童颜鹤发\t童顏鶴髮\n竭尽\t竭盡\n竭尽全力\t竭盡全力\n竭尽力量\t竭盡力量\n竭尽心思\t竭盡心思\n竭尽所能\t竭盡所能\n竭尽棉薄\t竭盡棉薄\n竭智尽力\t竭智盡力\n竭智尽忠\t竭智盡忠\n竭智尽虑\t竭智盡慮\n竭诚尽节\t竭誠盡節\n端了\t端了\n端出\t端出\n端出去\t端出去\n端出来\t端出來\n端庄\t端莊\n端杯\t端杯\n端系统\t端系統\n端面\t端面\n竹几\t竹几\n竹制\t竹製\n竹叶\t竹葉\n竹叶青\t竹葉青\n竹叶青蛇\t竹葉青蛇\n竹叶鲢\t竹葉鰱\n竹布\t竹布\n竹帘\t竹簾\n竹席\t竹蓆\n竹扣\t竹扣\n竹杠\t竹槓\n竹板\t竹板\n竹板书\t竹板書\n竹板歌\t竹板歌\n竹林之游\t竹林之遊\n竹溪\t竹谿\n竹笋干\t竹筍乾\n竹签\t竹籤\n";

/// Part 110 of the text.
pub const ST_PHRASES_110: &'static str = "竹篱茅舍\t竹籬茅舍\n竹节虫\t竹節蟲\n竹苞松茂\t竹苞松茂\n竹野内丰\t竹野內豐\n竺乾\t竺乾\n笃志\t篤志\n笃志好学\t篤志好學\n笃志爱古\t篤志愛古\n笆斗\t笆斗\n笋干\t筍乾\n笋里不知茆里\t筍裡不知茆裡\n笏板\t笏板\n笑个\t笑個\n笑个痛快\t笑個痛快\n笑了\t笑了\n笑了起来\t笑了起來\n笑代表拒绝\t笑代表拒絕\n笑出\t笑出\n笑出来\t笑出來\n笑出眼泪\t笑出眼淚\n笑口弥勒\t笑口彌勒\n笑容满面\t笑容滿面\n笑成一团\t笑成一團\n笑耍头回\t笑耍頭回\n笑话百出\t笑話百出\n笑里藏刀\t笑裡藏刀\n笑面\t笑面\n笑面夜叉\t笑面夜叉\n笑面虎\t笑面虎\n笔划\t筆劃\n笔划检字表\t筆劃檢字表\n笔力万钧\t筆力萬鈞\n笔卷\t筆捲\n笔参造化\t筆參造化\n笔录\t筆錄\n笔扫千军\t筆掃千軍\n笔据\t筆據\n笔杆\t筆桿\n笔杆子\t筆桿子\n笔秃墨干\t筆禿墨乾\n笔管面\t筆管麵\n笔胜于刀文比武强\t筆勝於刀文比武強\n笔致\t筆致\n笔迹鉴定\t筆跡鑑定\n笙磬同音\t笙磬同音\n笛卡儿坐标制\t笛卡兒座標制\n笛布斯\t笛布斯\n符号表\t符號表\n符合\t符合\n符合标准\t符合標準\n符合美国利益\t符合美國利益\n符拉迪沃斯托克\t符拉迪沃斯托克\n符采\t符采\n笨蛋挂\t笨蛋掛\n第一个\t第一個\n第一个层次\t第一個層次\n第一信号系统\t第一信號系統\n第一准备金\t第一準備金\n第一出\t第一齣\n第一千\t第一千\n第一千万\t第一千萬\n第一卷\t第一卷\n第一回\t第一回\n第一志愿\t第一志願\n第一性征\t第一性徵\n第七个\t第七個\n第七出\t第七齣\n第七回\t第七回\n第三个\t第三個\n第三出\t第三齣\n第三回\t第三回\n第九个\t第九個\n第九出\t第九齣\n第九回\t第九回\n第九艺术\t第九藝術\n第二个\t第二個\n第二出\t第二齣\n第二回\t第二回\n第二性征\t第二性徵\n第五个\t第五個\n第五个现代化\t第五個現代化\n第五出\t第五齣\n第五回\t第五回\n第八个\t第八個\n第八出\t第八齣\n第八回\t第八回\n第八艺术\t第八藝術\n第六个\t第六個\n第六出\t第六齣\n第六回\t第六回\n第几\t第幾\n第几个\t第幾個\n第几册\t第幾冊\n第几只\t第幾隻\n第几名\t第幾名\n第几周\t第幾週\n第几回\t第幾回\n第几次\t第幾次\n第几章\t第幾章\n第几节\t第幾節\n第几课\t第幾課\n第十个\t第十個\n第十出\t第十齣\n第十回\t第十回\n第四个\t第四個\n第四出\t第四齣\n第四出局\t第四出局\n第四台\t第四臺\n第四回\t第四回\n笺注\t箋註\n等个\t等個\n等了\t等了\n等于\t等於\n等于在\t等於在\n等于是\t等於是\n等于有\t等於有\n等于零\t等於零\n等价\t等價\n等价交换\t等價交換\n等价关系\t等價關係\n等价物\t等價物\n等值价格\t等值價格\n等势面\t等勢面\n等同\t等同\n等同于\t等同於\n等周不等式\t等周不等式\n等效百万吨当量\t等效百萬噸當量\n等级制度\t等級制度\n等轴晶系\t等軸晶系\n等速圆周运动\t等速圓周運動\n等闲之辈\t等閒之輩\n等闲人物\t等閒人物\n等闲视之\t等閒視之\n等高种植\t等高種植\n筋斗\t筋斗\n筋斗云\t筋斗雲\n筋疲力尽\t筋疲力盡\n筋面粉\t筋麵粉\n筑前\t筑前\n筑北\t筑北\n筑后\t筑後\n筑土墙\t築土牆\n筑坛\t築壇\n筑坛拜将\t築壇拜將\n筑城\t築城\n筑堤\t築堤\n筑墙\t築牆\n筑大高速\t筑大高速\n筑室\t築室\n筑室反耕\t築室反耕\n筑室道谋\t築室道謀\n筑屋\t築屋\n筑州\t筑州\n筑巢\t築巢\n筑底\t築底\n筑底巷\t築底巷\n筑成\t築成\n筑有\t築有\n筑栏\t築欄\n筑波\t筑波\n筑磕\t築磕\n筑筑磕磕\t築築磕磕\n筑紫\t筑紫\n筑肥\t筑肥\n筑西\t筑西\n筑起\t築起\n筑路\t築路\n筑路工程\t築路工程\n筑邦\t筑邦\n筑阳\t筑陽\n答不出\t答不出\n答出\t答出\n答出来\t答出來\n答剌苏\t答剌蘇\n答卷\t答卷\n答复\t答覆\n答录机\t答錄機\n答案卷\t答案卷\n策划\t策劃\n策划人\t策劃人\n策划者\t策劃者\n筛子喂驴\t篩子餵驢\n筛板\t篩板\n筛检出\t篩檢出\n筛选出\t篩選出\n筲斗\t筲斗\n筵几\t筵几\n筹划\t籌劃\n筹码面\t籌碼面\n签上\t簽上\n签上去\t簽上去\n签上来\t簽上來\n签下\t簽下\n签下去\t簽下去\n签下来\t簽下來\n签为\t簽為\n签书会\t簽書會\n签了\t簽了\n签些\t簽些\n签入\t簽入\n签写\t簽寫\n签出\t簽出\n签到\t簽到\n签到处\t簽到處\n签到簿\t簽到簿\n签单\t簽單\n签印\t簽印\n签发\t簽發\n签发地点\t簽發地點\n签发日期\t簽發日期\n签名\t簽名\n签名会\t簽名會\n签名信\t簽名信\n签名球\t簽名球\n签名簿\t簽名簿\n签名运动\t簽名運動\n签呈\t簽呈\n签唱\t簽唱\n签唱会\t簽唱會\n签在\t簽在\n签好\t簽好\n签妥\t簽妥\n签子\t籤子\n签字\t簽字\n签字笔\t簽字筆\n签字者\t簽字者\n签字费\t簽字費\n签完\t簽完\n签定\t簽定\n签帐\t簽帳\n签帐卡\t簽帳卡\n签幐\t籤幐\n签得\t簽得\n签报\t簽報\n签押\t簽押\n签押房\t簽押房\n签收\t簽收\n签有\t簽有\n签条\t籤條\n签注\t簽註\n签派室\t簽派室\n签着\t簽著\n签章\t簽章\n签筒\t籤筒\n签约\t簽約\n签约人\t簽約人\n签约国\t簽約國\n签约奖金\t簽約獎金\n签约金\t簽約金\n签结\t簽結\n签署\t簽署\n签署人\t簽署人\n签署国\t簽署國\n签订\t簽訂\n签证\t簽證\n签证费\t簽證費\n签诗\t籤詩\n签语饼\t籤語餅\n签赌\t簽賭\n签赌案\t簽賭案\n签赌站\t簽賭站\n签过\t簽過\n签退\t簽退\n简余晏\t簡余晏\n简别\t簡別\n简单明了\t簡單明瞭\n简历\t簡歷\n简历表\t簡歷表\n简字表\t簡字表\n简字谱录\t簡字譜錄\n简尸\t簡屍\n简并\t簡併\n简截了当\t簡截了當\n简报导览系统\t簡報導覽系統\n简易包扎法\t簡易包紮法\n简易师范\t簡易師範\n简朝仑\t簡朝崙\n简朴\t簡樸\n简板\t簡板\n简氏防务周刊\t簡氏防務週刊\n简直\t簡直\n箕山之志\t箕山之志\n箕斗\t箕斗\n算不了\t算不了\n算不出\t算不出\n算了\t算了\n算了又算\t算了又算\n算准\t算準\n算出\t算出\n算出去\t算出去\n算出来\t算出來\n算历\t算曆\n算得了\t算得了\n算是\t算是\n算术\t算術\n算术和\t算術和\n算术家\t算術家\n算术平均\t算術平均\n算术平均数\t算術平均數\n算术式\t算術式\n算术级数\t算術級數\n算术课\t算術課\n箝制\t箝制\n管不了\t管不了\n管个\t管個\n管乐团\t管樂團\n管了\t管了\n管人吊脚儿事\t管人弔腳兒事\n管制\t管制\n管制中心\t管制中心\n管制区\t管制區\n管制区域\t管制區域\n管制员\t管制員\n管制品\t管制品\n管制塔台\t管制塔臺\n管制局\t管制局\n管制法\t管制法\n管制点\t管制點\n管制空域\t管制空域\n管制站\t管制站\n管制路线\t管制路線\n管圆线虫\t管圓線蟲\n管城回族区\t管城回族區\n管家娘子\t管家娘子\n管干\t管幹\n管弦\t管絃\n管弦乐团\t管弦樂團\n管径\t管徑\n管理\t管理\n管理人才\t管理人才\n管理体制\t管理體制\n管理系\t管理系\n管理规范\t管理規範\n管理资讯系统\t管理資訊系統\n管辖范围\t管轄範圍\n管道升\t管道昇\n管道里\t管道裡\n管闲事\t管閒事\n箭不虚发\t箭不虛發\n箭在弦上不得不发\t箭在弦上不得不發\n箭无虚发\t箭無虛發\n箭杆\t箭桿\n箭虫\t箭蟲\n箱帘\t箱簾\n箱扣\t箱釦\n箱梁\t箱樑\n箱里\t箱裡\n";

/// Part 111 of the text.
pub const ST_PHRASES_111: &'static str = "篆烟\t篆煙\n篇卷\t篇卷\n篝火里\t篝火裡\n篡党\t篡黨\n篮下三秒钟\t籃下三秒鐘\n篮坛\t籃壇\n篮板\t籃板\n篮板王\t籃板王\n篮板球\t籃板球\n篮虹杯\t籃虹盃\n篷盖布\t篷蓋佈\n簇合\t簇合\n簌簌发抖\t簌簌發抖\n簪笔磬折\t簪筆磬折\n簪缨世胄\t簪纓世胄\n簳面杖\t簳麵杖\n簸荡\t簸盪\n簿历\t簿歷\n簿录\t簿錄\n簿据\t簿據\n籧篨戚施\t籧篨戚施\n米价\t米價\n米克\t米克\n米克杰格\t米克傑格\n米克森\t米克森\n米克诺斯\t米克諾斯\n米利托\t米利托\n米制\t米制\n米卤蛋\t米滷蛋\n米厘米突\t米釐米突\n米德尔伯里\t米德爾伯里\n米格式战斗机\t米格式戰鬥機\n米纳谷\t米納谷\n米罗的维纳斯雕像\t米羅的維納斯雕像\n米苏里\t米蘇里\n米苏里州\t米蘇里州\n米虫\t米蟲\n米蛀虫\t米蛀蟲\n米谷\t米穀\n米里\t米里\n米雅托维奇\t米雅托維奇\n米雕\t米雕\n米面\t米麵\n类似于\t類似於\n类别\t類別\n类别的团体\t類別的團體\n类同\t類同\n类同法\t類同法\n类球面\t類球面\n粉丝\t粉絲\n粉丝团\t粉絲團\n粉丝谷\t粉絲谷\n粉团儿\t粉團兒\n粉团儿似的\t粉團兒似的\n粉彩\t粉彩\n粉拳绣腿\t粉拳繡腿\n粉板\t粉板\n粉砂岩\t粉砂岩\n粉签子\t粉籤子\n粉红色系\t粉紅色系\n粉面\t粉面\n粉面朱唇\t粉面朱脣\n粉面油头\t粉面油頭\n粉饰门面\t粉飾門面\n粒变岩\t粒變岩\n粗制\t粗製\n粗制品\t粗製品\n粗制滥造\t粗製濫造\n粗卤\t粗鹵\n粗布\t粗布\n粗布条\t粗布條\n粗恶\t粗惡\n粗枝大叶\t粗枝大葉\n粗毛布\t粗毛布\n粗管面\t粗管麵\n粗纤维\t粗纖維\n粗衣恶食\t粗衣惡食\n粗面\t粗麵\n粗面岩\t粗面岩\n粘合剂\t粘合劑\n粘板岩\t粘板岩\n粜出\t糶出\n粤曲\t粵曲\n粤胡\t粵胡\n粥厂\t粥廠\n粪坑里的石头\t糞坑裡的石頭\n粪秽蔑面\t糞穢衊面\n粪缸里掷骰子\t糞缸裡擲骰子\n粮尽援绝\t糧盡援絕\n粮食平准基金\t糧食平準基金\n粲夸克\t粲夸克\n粽粑叶\t粽粑葉\n精于\t精於\n精于此道\t精於此道\n精兵制\t精兵制\n精准\t精準\n精准度\t精準度\n精制\t精製\n精制品\t精製品\n精制服\t精制服\n精奇里江\t精奇里江\n精干\t精幹\n精干高效\t精幹高效\n精当\t精當\n精彩\t精彩\n精彩度\t精彩度\n精彩生动\t精彩生動\n精彩逼人\t精彩逼人\n精彩镜头\t精彩鏡頭\n精心制作\t精心製作\n精心制造\t精心製造\n精心杰作\t精心傑作\n精悟玄鉴\t精悟玄鑑\n精明了\t精明了\n精明干练\t精明幹練\n精明强干\t精明強幹\n精明能干\t精明能幹\n精松\t精鬆\n精核\t精核\n精炼\t精煉\n精炼厂\t精煉廠\n精炼炉\t精煉爐\n精疲力尽\t精疲力盡\n精确\t精確\n精确到\t精確到\n精确度\t精確度\n精确性\t精確性\n精神分裂症\t精神分裂症\n精神官能症\t精神官能症\n精神性厌食症\t精神性厭食症\n精神焕发\t精神煥發\n精神药物\t精神藥物\n精神里\t精神裡\n精致\t精緻\n精致化\t精緻化\n精致度\t精緻度\n精舍\t精舍\n精虫\t精蟲\n精虫冲脑\t精蟲衝腦\n精诚团结\t精誠團結\n精辟\t精闢\n精通于\t精通於\n精采\t精采\n精采度\t精采度\n精采绝伦\t精采絕倫\n精金百炼\t精金百煉\n精雕\t精雕\n精雕细刻\t精雕細刻\n精雕细琢\t精雕細琢\n精雕细镂\t精雕細鏤\n糅合\t糅合\n糊口\t餬口\n糊涂\t糊塗\n糊涂一时\t糊塗一時\n糊涂帐\t糊塗帳\n糊涂油蒙心\t糊塗油蒙心\n糊涂虫\t糊塗蟲\n糊涂蛋\t糊塗蛋\n糊涂账\t糊塗賬\n糊糊涂涂\t糊糊塗塗\n糊里糊涂\t糊里糊塗\n糕干\t糕乾\n糖厂\t糖廠\n糖堆里养的\t糖堆裡養的\n糖炒栗子\t糖炒栗子\n糖萝卜\t糖蘿蔔\n糖醋里脊\t糖醋里脊\n糙叶树\t糙葉樹\n糙面内质网\t糙面內質網\n糜棱岩\t糜稜岩\n糟了\t糟了\n糟糕了\t糟糕了\n糟透了\t糟透了\n糟齿类爬虫\t糟齒類爬蟲\n糠穗\t糠穗\n糯米团\t糯米糰\n系一片\t係一片\n系一番\t係一番\n系一种\t係一種\n系一线\t繫一線\n系上\t繫上\n系世\t繫世\n系丝带\t繫絲帶\n系个\t繫個\n系为\t係為\n系主任\t系主任\n系了\t繫了\n系争\t係爭\n系争物\t係爭物\n系于\t繫於\n系于一发\t繫於一髮\n系住\t繫住\n系出名门\t系出名門\n系刊\t系刊\n系列\t系列\n系列化\t系列化\n系列战\t系列戰\n系列放大器\t系列放大器\n系列片\t系列片\n系列电视剧\t系列電視劇\n系列赛\t系列賽\n系列里\t系列裡\n系到\t繫到\n系务\t系務\n系发带\t繫髮帶\n系命\t繫命\n系囚\t繫囚\n系头巾\t繫頭巾\n系好\t繫好\n系孙\t系孫\n系学会\t系學會\n系带\t繫帶\n系心\t繫心\n系念\t繫念\n系怀\t繫懷\n系恋\t繫戀\n系所\t系所\n系扣\t係扣\n系指\t係指\n系捻儿\t繫捻兒\n系数\t係數\n系族\t系族\n系有\t繫有\n系条\t繫條\n系泊\t繫泊\n系爪\t繫爪\n系牢\t繫牢\n系狱\t繫獄\n系璧\t系璧\n系留\t繫留\n系着\t繫著\n系系\t繫系\n系紧\t繫緊\n系累\t繫累\n系结\t繫結\n系统\t系統\n系统分析\t系統分析\n系统分类\t系統分類\n系统化\t系統化\n系统发育\t系統發育\n系统商\t系統商\n系统图\t系統圖\n系统工程\t系統工程\n系统性\t系統性\n系统抽样法\t系統抽樣法\n系统流程图\t系統流程圖\n系统理论\t系統理論\n系统级\t系統級\n系统论\t系統論\n系统设计\t系統設計\n系统软体\t系統軟體\n系统部\t系統部\n系绳\t繫繩\n系缆\t繫纜\n系缚\t繫縛\n系而不食\t繫而不食\n系胄\t系胄\n系腰\t繫腰\n系臂\t係臂\n系臂之宠\t繫臂之寵\n系船桩\t繫船樁\n系花\t系花\n系获\t係獲\n系裤子\t繫褲子\n系裹\t繫裹\n系词\t系詞\n系谱\t系譜\n系趾\t繫趾\n系踵\t係踵\n系蹄\t係蹄\n系辞\t繫辭\n系里\t系裡\n系铃人\t繫鈴人\n系铃解铃\t繫鈴解鈴\n系鞋带\t繫鞋帶\n系颈\t繫頸\n系颈阙庭\t係頸闕庭\n系风捕影\t繫風捕影\n系风捕景\t繫風捕景\n系馆\t系館\n系马\t繫馬\n素借\t素藉\n素发\t素髮\n素志\t素志\n素愿\t素願\n素日里\t素日裡\n素未谋面\t素未謀面\n素朴\t素樸\n素面\t素面\n素面朝天\t素面朝天\n素食面\t素食麵\n素餐尸位\t素餐尸位\n索价\t索價\n索价过高\t索價過高\n索克\t索克\n索克斯队\t索克斯隊\n索合\t索合\n索夫克\t索夫克\n索夫克郡\t索夫克郡\n索尔兹伯里平原\t索爾茲伯里平原\n索尔兹伯里石环\t索爾茲伯里石環\n索尽枯肠\t索盡枯腸\n索托\t索托\n索杰纳\t索傑納\n索福克勒斯\t索福克勒斯\n索福克里斯\t索福克里斯\n索里亚\t索里亞\n索里士\t索里士\n索面\t索面\n索马里\t索馬里\n索马里亚\t索馬里亞\n紧了\t緊了\n紧关里\t緊關裡\n紧密配合\t緊密配合\n紧急制动\t緊急制動\n紧急集合\t緊急集合\n紧扣\t緊扣\n紧挨\t緊挨\n紧溜子里\t緊溜子裡\n紧系\t緊繫\n紧绷\t緊繃\n紧绷着\t緊繃著\n紧绷绷\t緊繃繃\n紧致\t緊緻\n紧追不舍\t緊追不捨\n紧随其后\t緊隨其後\n紫云\t紫雲\n紫云乡\t紫雲鄉\n紫云苗族布依族自治县\t紫雲苗族布依族自治縣\n紫云英\t紫雲英\n紫台\t紫臺\n紫姜\t紫薑\n紫微斗数\t紫微斗數\n紫穗槐\t紫穗槐\n紫苏\t紫蘇\n紫苏属\t紫蘇屬\n紫苏梅\t紫蘇梅\n紫药水\t紫藥水\n紫金山天文台\t紫金山天文臺\n累了\t累了\n累囚\t累囚\n累块积苏\t累塊積蘇\n累堆\t累堆\n累瓦结绳\t累瓦結繩\n累积性伤害症候群\t累積性傷害症候群\n";

/// Part 112 of the text.
pub const ST_PHRASES_112: &'static str = "累积折耗\t累積折耗\n累绁\t累紲\n累臣\t累臣\n絣扒吊拷\t絣扒吊拷\n綦溪利跂\t綦谿利跂\n縻系\t縻繫\n繁台\t繁臺\n繁复\t繁複\n繁征博引\t繁徵博引\n繁殖系数\t繁殖係數\n繁钟\t繁鐘\n纂修\t纂修\n纂胄\t纂胄\n纠合\t糾合\n纡余\t紆餘\n纡回\t紆迴\n纡曲\t紆曲\n纡朱怀金\t紆朱懷金\n纡郁\t紆鬱\n红丝暗系\t紅絲暗繫\n红中白板\t紅中白板\n红了\t紅了\n红云\t紅雲\n红光满面\t紅光滿面\n红冬冬\t紅鼕鼕\n红发\t紅髮\n红发女郎\t紅髮女郎\n红叶\t紅葉\n红叶之题\t紅葉之題\n红叶少棒队\t紅葉少棒隊\n红叶村\t紅葉村\n红叶杯\t紅葉盃\n红叶树\t紅葉樹\n红叶题诗\t紅葉題詩\n红头发\t紅頭髮\n红姑娘\t紅姑娘\n红娘\t紅娘\n红孩症\t紅孩症\n红尘万丈\t紅塵萬丈\n红岩\t紅巖\n红得发紫\t紅得發紫\n红日当午\t紅日當午\n红曲\t紅曲\n红杏出墙\t紅杏出牆\n红杠\t紅槓\n红松\t紅松\n红极一时\t紅極一時\n红枣干\t紅棗乾\n红牙板\t紅牙板\n红眼症\t紅眼症\n红种人\t紅種人\n红紫乱朱\t紅紫亂朱\n红绳系足\t紅繩繫足\n红胡子\t紅鬍子\n红色娘子军\t紅色娘子軍\n红色系\t紅色系\n红花绿叶\t紅花綠葉\n红药\t紅藥\n红药水\t紅藥水\n红萝卜\t紅蘿蔔\n红萝卜炒辣椒\t紅蘿蔔炒辣椒\n红薯干\t紅薯乾\n红虫\t紅蟲\n红运当头\t紅運當頭\n红醋栗\t紅醋栗\n红钟\t紅鐘\n红铃虫\t紅鈴蟲\n红霉素\t紅黴素\n红面番鸭\t紅面番鴨\n红须绿眼\t紅鬚綠眼\n纤不盈握\t纖不盈握\n纤丽\t纖麗\n纤云\t纖雲\n纤人\t纖人\n纤介\t纖介\n纤体\t纖體\n纤儿\t纖兒\n纤夫\t縴夫\n纤妍\t纖妍\n纤密\t纖密\n纤小\t纖小\n纤尘不染\t纖塵不染\n纤屑\t纖屑\n纤巧\t纖巧\n纤度\t纖度\n纤弱\t纖弱\n纤微\t纖微\n纤悉\t纖悉\n纤悉无遗\t纖悉無遺\n纤户\t縴戶\n纤手\t纖手\n纤指\t纖指\n纤柔\t纖柔\n纤毛\t纖毛\n纤毛动力蛋白\t纖毛動力蛋白\n纤毛虫\t纖毛蟲\n纤毛运动\t纖毛運動\n纤毫\t纖毫\n纤玉\t纖玉\n纤画\t纖畫\n纤瘦\t纖瘦\n纤离\t纖離\n纤秾中度\t纖穠中度\n纤纤\t纖纖\n纤纤弱质\t纖纖弱質\n纤纤玉手\t纖纖玉手\n纤细\t纖細\n纤细画\t纖細畫\n纤维\t纖維\n纤维丛\t纖維叢\n纤维光学\t纖維光學\n纤维化\t纖維化\n纤维囊泡症\t纖維囊泡症\n纤维工业\t纖維工業\n纤维板\t纖維板\n纤维植物\t纖維植物\n纤维状\t纖維狀\n纤维素\t纖維素\n纤维细胞\t纖維細胞\n纤维肌痛\t纖維肌痛\n纤维胶\t纖維膠\n纤维蛋原\t纖維蛋原\n纤维蛋白\t纖維蛋白\n纤维蛋白原\t纖維蛋白原\n纤维质\t纖維質\n纤维镜\t纖維鏡\n纤维长度\t纖維長度\n纤美\t纖美\n纤腰\t纖腰\n纤芥不遗\t纖芥不遺\n纤芯直径\t纖芯直徑\n纤道\t縴道\n纤长\t纖長\n纤阿\t纖阿\n约克\t約克\n约克夏\t約克夏\n约克夏猪\t約克夏豬\n约克曼\t約克曼\n约克维奇\t約克維奇\n约克郡\t約克郡\n约出\t約出\n约占\t約佔\n约同\t約同\n约当现金\t約當現金\n约据\t約據\n约柜\t約櫃\n约核\t約核\n约等于\t約等於\n约维克\t約維克\n约翰参书\t約翰參書\n约翰松\t約翰松\n级任制\t級任制\n级别\t級別\n纪元后\t紀元後\n纪历\t紀曆\n纪录\t紀錄\n纪录下来\t紀錄下來\n纪录创造者\t紀錄創造者\n纪录器\t紀錄器\n纪录点\t紀錄點\n纪录片\t紀錄片\n纪录片儿\t紀錄片兒\n纪录片奖\t紀錄片獎\n纪录表\t紀錄表\n纪念\t紀念\n纪念周\t紀念週\n纪里谷\t紀里谷\n纯吃茶\t純喫茶\n纯属巧合\t純屬巧合\n纯情蜡妹\t純情蠟妹\n纯朴\t純樸\n纯种\t純種\n纯种牛\t純種牛\n纯种马\t純種馬\n纱厂\t紗廠\n纱布\t紗布\n纱布口罩\t紗布口罩\n纱布绷带\t紗布繃帶\n纲鉴\t綱鑑\n纳修斯\t納修斯\n纳克希班迪\t納克希班迪\n纳合\t納合\n纳吉布\t納吉布\n纳奇录异\t納奇錄異\n纳征\t納徵\n纳德阿里\t納德阿里\n纳扎尔巴耶夫\t納扎爾巴耶夫\n纳斯达克\t納斯達克\n纳杰夫\t納傑夫\n纳波里塔诺\t納波里塔諾\n纳米技术\t納米技術\n纳粹党\t納粹黨\n纳莉台风\t納莉颱風\n纳采\t納采\n纵出\t縱出\n纵切面\t縱切面\n纵剖面\t縱剖面\n纵向\t縱向\n纵情恣欲\t縱情恣欲\n纵情遂欲\t縱情遂欲\n纵断面\t縱斷面\n纵曲枉直\t縱曲枉直\n纵梁\t縱樑\n纵横交布\t縱橫交佈\n纵欲\t縱慾\n纵欲主义\t縱慾主義\n纵欲无度\t縱慾無度\n纵谷\t縱谷\n纵谷区\t縱谷區\n纷如烟\t紛如煙\n纸制\t紙製\n纸卷子\t紙卷子\n纸叶子\t紙葉子\n纸团\t紙團\n纸尿布\t紙尿布\n纸扎\t紙紮\n纸扎店\t紙紮店\n纸杯\t紙杯\n纸板\t紙板\n纸板盒\t紙板盒\n纸板部\t紙板部\n纸浆厂\t紙漿廠\n纸烟\t紙菸\n纸雕\t紙雕\n纸面\t紙面\n纹光针\t紋光針\n纹板\t紋板\n纹路里\t紋路裡\n纹面\t紋面\n纺纤\t紡纖\n纺纱厂\t紡紗廠\n纺织厂\t紡織廠\n纺织娘\t紡織娘\n纺锤虫\t紡錘蟲\n纽几内亚\t紐幾內亞\n纽华克\t紐華克\n纽瓦克\t紐瓦克\n纽芬兰与拉布拉多\t紐芬蘭與拉布拉多\n纽蒙特\t紐蒙特\n纾困\t紓困\n线上\t線上\n线团\t線團\n线性系统\t線性系統\n线性规划\t線性規劃\n线虫\t線蟲\n练习曲\t練習曲\n练了\t練了\n练出\t練出\n练出来\t練出來\n练团室\t練團室\n练声曲\t練聲曲\n练武术\t練武術\n组党\t組黨\n组别\t組別\n组合\t組合\n组合为\t組合為\n组合式\t組合式\n组合成\t組合成\n组合数学\t組合數學\n组合服装\t組合服裝\n组合法\t組合法\n组合而成\t組合而成\n组合菜\t組合菜\n组合论\t組合論\n组合语言\t組合語言\n组合音响\t組合音響\n组团\t組團\n组曲\t組曲\n组立式建筑\t組立式建築\n组织里\t組織裡\n组里\t組裡\n细不容发\t細不容髮\n细别\t細別\n细叶山茶\t細葉山茶\n细叶脉\t細葉脈\n细叶金午时花\t細葉金午時花\n细咽\t細嚥\n细如发\t細如髮\n细娘\t細娘\n细布\t細布\n细曲\t細曲\n细术\t細術\n细炼\t細鍊\n细胞周期\t細胞週期\n细胞融合\t細胞融合\n细致\t細緻\n细致入微\t細緻入微\n细蒙蒙\t細濛濛\n细表\t細表\n细袅袅\t細嫋嫋\n细针密缕\t細針密縷\n细雨蒙蒙\t細雨濛濛\n细雨蒙蒙忆当年\t細雨濛濛憶當年\n细面\t細麵\n织出\t織出\n织布\t織布\n织布厂\t織布廠\n织布娘\t織布娘\n织布机\t織布機\n织席\t織蓆\n织当访婢\t織當訪婢\n织里\t織里\n织锦回文\t織錦回文\n终了\t終了\n终于\t終於\n终制\t終制\n终南别业\t終南別業\n终归于\t終歸於\n终曲\t終曲\n终极\t終極\n终极杀阵\t終極殺陣\n终极目标\t終極目標\n终止症\t終止症\n终焉之志\t終焉之志\n终端台\t終端檯\n终而复始\t終而復始\n终身有托\t終身有托\n终须\t終須\n绉布\t縐布\n经世之才\t經世之才\n经世致用\t經世致用\n经丝彩色显花\t經絲彩色顯花\n经典动力系统\t經典動力系統\n经制\t經制\n经卷\t經卷\n经厂本\t經廠本\n经历\t經歷\n经历过\t經歷過\n经历风雨\t經歷風雨\n经发\t經發\n经合会\t經合會\n经合组织\t經合組織\n经国之才\t經國之才\n经坛\t經壇\n经折\t經摺\n经折装\t經摺裝\n经曲\t經曲\n经有云\t經有云\n经术\t經術\n经板儿\t經板兒\n经济之才\t經濟之才\n经济体制\t經濟體制\n经济体系\t經濟體系\n经济制度\t經濟制度\n经济制裁\t經濟制裁\n经济协力开发机构\t經濟協力開發機構\n经济发展\t經濟發展\n";

/// Part 113 of the text.
pub const ST_PHRASES_113: &'static str = "经济合作与发展组织\t經濟合作與發展組織\n经济合作开发组织\t經濟合作開發組織\n经济周期\t經濟週期\n经济困境\t經濟困境\n经济技术\t經濟技術\n经济杠杆\t經濟槓桿\n经济系\t經濟系\n经济范畴\t經濟範疇\n经济落后\t經濟落後\n经济计划\t經濟計劃\n经济部标准检验局\t經濟部標準檢驗局\n经济面\t經濟面\n经理\t經理\n经营决策资讯系统\t經營決策資訊系統\n经营范围\t經營範圍\n经贸关系\t經貿關係\n经验丰富\t經驗豐富\n绑回\t綁回\n绑回去\t綁回去\n绑回来\t綁回來\n绑扎\t綁紮\n绑架丁丁当\t綁架丁丁當\n绒布\t絨布\n结了\t結了\n结仇\t結仇\n结伙\t結夥\n结伙抢劫\t結夥搶劫\n结伴同游\t結伴同遊\n结伴同行\t結伴同行\n结余\t結餘\n结党\t結黨\n结党聚群\t結黨聚群\n结党营私\t結黨營私\n结党连群\t結黨連群\n结出\t結出\n结制\t結制\n结发\t結髮\n结发事师\t結髮事師\n结发人\t結髮人\n结发夫妻\t結髮夫妻\n结合\t結合\n结合为\t結合為\n结合体\t結合體\n结合剂\t結合劑\n结合实际\t結合實際\n结合律\t結合律\n结合成\t結合成\n结合模型\t結合模型\n结合水\t結合水\n结合点\t結合點\n结合线\t結合線\n结合能\t結合能\n结合起来\t結合起來\n结合过程\t結合過程\n结合韵\t結合韻\n结合韵母\t結合韻母\n结彩\t結綵\n结扎\t結紮\n结扎手术\t結紮手術\n结扎术\t結紮術\n结托\t結托\n结扣\t結釦\n结晶岩\t結晶岩\n结核\t結核\n结核杆菌\t結核桿菌\n结梁子\t結樑子\n结汇\t結匯\n结汇证\t結匯證\n结草虫\t結草蟲\n结采\t結采\n绕回\t繞回\n绕梁\t繞樑\n绕梁三日\t繞樑三日\n绕梁之音\t繞樑之音\n绕梁韵永\t繞樑韻永\n绘事后素\t繪事後素\n绘出\t繪出\n绘制\t繪製\n绘制图\t繪製圖\n绘图板\t繪圖板\n绘彩陶\t繪彩陶\n绘画板\t繪畫板\n绘里\t繪里\n给个棒锤当针认\t給個棒錘當針認\n给于\t給於\n给价\t給價\n给出\t給出\n给我干脆\t給我乾脆\n给药\t給藥\n绚丽多彩\t絢麗多彩\n绚烂归于平淡\t絢爛歸於平淡\n络合\t絡合\n络合物\t絡合物\n络绎于途\t絡繹於途\n络腮胡\t絡腮鬍\n络腮胡子\t絡腮鬍子\n绝不相同\t絕不相同\n绝世出尘\t絕世出塵\n绝于\t絕於\n绝后\t絕後\n绝后光前\t絕後光前\n绝后患\t絕後患\n绝后计\t絕後計\n绝对参照\t絕對參照\n绝岩\t絕巖\n绝才\t絕才\n绝望已极\t絕望已極\n绝症\t絕症\n绝种\t絕種\n绝缘台\t絕緣檯\n绞刑台\t絞刑臺\n绞包针\t絞包針\n绞尽\t絞盡\n绞尽脑汁\t絞盡腦汁\n绞干\t絞乾\n绞面\t絞面\n统一党\t統一黨\n统一发票\t統一發票\n统一规划\t統一規劃\n统一规范\t統一規範\n统一计划\t統一計劃\n统制\t統制\n统合\t統合\n统合体\t統合體\n统合力\t統合力\n统合性\t統合性\n统御\t統御\n统筹规划\t統籌規劃\n统计出\t統計出\n统计制图\t統計製圖\n统计图表\t統計圖表\n统计数据\t統計數據\n统计表\t統計表\n绢布版\t絹布版\n绣像\t繡像\n绣出\t繡出\n绣口\t繡口\n绣帘\t繡簾\n绣得\t繡得\n绣户\t繡戶\n绣房\t繡房\n绣毯\t繡毯\n绣球\t繡球\n绣的\t繡的\n绣花\t繡花\n绣花针\t繡花針\n绣花针儿\t繡花針兒\n绣虎雕龙\t繡虎雕龍\n绣衣\t繡衣\n绣衣御史\t繡衣御史\n绣衣朱履\t繡衣朱履\n绣起\t繡起\n绣针\t繡針\n绣阁\t繡閣\n绣面\t繡面\n绣鞋\t繡鞋\n绥棱\t綏稜\n绦虫\t絛蟲\n绦虫纲\t絛蟲綱\n继天立极\t繼天立極\n继志\t繼志\n继志述事\t繼志述事\n继续干\t繼續幹\n绪余\t緒餘\n绪胄\t緒胄\n续借\t續借\n续借手续\t續借手續\n续发性\t續發性\n续发感染\t續發感染\n续后\t續後\n续后汉书\t續後漢書\n续弦\t續絃\n续杯\t續杯\n续签\t續簽\n续西游记\t續西遊記\n续通志\t續通志\n绮云\t綺雲\n绮想曲\t綺想曲\n绰板\t綽板\n绰板婆\t綽板婆\n绰绰有余\t綽綽有餘\n绳扣\t繩釦\n维修\t維修\n维修区\t維修區\n维修费\t維修費\n维克\t維克\n维克佛瑞柏加\t維克佛瑞柏加\n维克利\t維克利\n维克托\t維克托\n维几尼亚\t維幾尼亞\n维几尼亚州\t維幾尼亞州\n维基数据\t維基數據\n维基物种\t維基物種\n维多利亚瀑布\t維多利亞瀑布\n维多里欧\t維多里歐\n维尔布鲁根\t維爾布魯根\n维斗\t維斗\n维斯杯\t維斯杯\n维杰辛\t維傑辛\n维科扬斯克\t維科揚斯克\n维系\t維繫\n维系人心\t維繫人心\n维苏威\t維蘇威\n维苏威火山\t維蘇威火山\n绵中刺笑里刀\t綿中刺笑裡刀\n绵历\t綿歷\n绵延不尽\t綿延不盡\n绵里藏针\t綿裡藏針\n绵里针\t綿裡針\n绷价\t繃價\n绷住\t繃住\n绷场面\t繃場面\n绷子\t繃子\n绷巴吊拷\t繃巴吊拷\n绷带\t繃帶\n绷开\t繃開\n绷扒吊拷\t繃扒吊拷\n绷爬吊拷\t繃爬吊拷\n绷紧\t繃緊\n绷脸\t繃臉\n绷针\t繃針\n绸布\t綢布\n绸缎庄\t綢緞莊\n综合\t綜合\n综合业务数字网\t綜合業務數字網\n综合体\t綜合體\n综合医院\t綜合醫院\n综合叙述\t綜合敘述\n综合型\t綜合型\n综合存款\t綜合存款\n综合布线\t綜合佈線\n综合平衡\t綜合平衡\n综合征\t綜合徵\n综合性\t綜合性\n综合所得\t綜合所得\n综合所得税\t綜合所得稅\n综合扩大机\t綜合擴大機\n综合报导\t綜合報導\n综合报道\t綜合報道\n综合服务数位网络\t綜合服務數位網絡\n综合杂志\t綜合雜誌\n综合法\t綜合法\n综合症\t綜合症\n综合类\t綜合類\n综合艺术\t綜合藝術\n综合语\t綜合語\n综合课\t綜合課\n综合银行\t綜合銀行\n综合防治\t綜合防治\n综合险\t綜合險\n综核\t綜覈\n综艺团\t綜藝團\n绽出\t綻出\n绽放出\t綻放出\n绾发\t綰髮\n绿云\t綠雲\n绿党\t綠黨\n绿发\t綠髮\n绿叶\t綠葉\n绿叶成荫\t綠葉成蔭\n绿叶成阴\t綠葉成陰\n绿暗红稀\t綠暗紅稀\n绿松石\t綠松石\n绿游网\t綠遊網\n绿烟红雾\t綠煙紅霧\n绿蜡\t綠蠟\n绿衣黄里\t綠衣黃裡\n绿鬓朱颜\t綠鬢朱顏\n缀出\t綴出\n缀合\t綴合\n缆索吊椅\t纜索吊椅\n缉凶\t緝兇\n缉获\t緝獲\n缎面\t緞面\n缓了\t緩了\n缓冲\t緩衝\n缓冲体\t緩衝體\n缓冲作用\t緩衝作用\n缓冲剂\t緩衝劑\n缓冲区\t緩衝區\n缓冲器\t緩衝器\n缓冲国\t緩衝國\n缓冲地\t緩衝地\n缓冲地区\t緩衝地區\n缓冲地带\t緩衝地帶\n缓冲式\t緩衝式\n缓冲期\t緩衝期\n缓冲液\t緩衝液\n缓冲溶液\t緩衝溶液\n缓发中子\t緩發中子\n缓征\t緩徵\n缔造出\t締造出\n缕当\t縷當\n编个\t編個\n编了\t編了\n编余\t編餘\n编余人员\t編餘人員\n编修\t編修\n编写出\t編寫出\n编出\t編出\n编出来\t編出來\n编列出\t編列出\n编制\t編制\n编制成\t編製成\n编制法\t編制法\n编发\t編髮\n编录\t編錄\n编曲\t編曲\n编构出\t編構出\n编注\t編注\n编目表格\t編目表格\n编目记录\t編目記錄\n编目记录输入\t編目記錄輸入\n编码系统\t編碼系統\n编码表\t編碼表\n编算出\t編算出\n编织出\t編織出\n编选出\t編選出\n编造出\t編造出\n编采\t編採\n编钟\t編鐘\n缘分已尽\t緣分已盡\n缙云\t縉雲\n缙云县\t縉雲縣\n缜致\t縝緻\n缝个\t縫個\n缝了\t縫了\n缝制\t縫製\n缝制成\t縫製成\n缝合\t縫合\n缝合处\t縫合處\n缝合带\t縫合帶\n缝合线\t縫合線\n缝衣针\t縫衣針\n缝里\t縫裡\n缝针\t縫針\n缝针补线\t縫針補線\n缝针迹\t縫針跡\n";

/// Part 114 of the text.
pub const ST_PHRASES_114: &'static str = "缝隙里\t縫隙裡\n缠回\t纏回\n缠斗\t纏鬥\n缣缃黄卷\t縑緗黃卷\n缥致\t縹致\n缦胡\t縵胡\n缩合\t縮合\n缩回\t縮回\n缩回去\t縮回去\n缩回来\t縮回來\n缩影微卷\t縮影微捲\n缩成一团\t縮成一團\n缩栗\t縮慄\n缪种流传\t繆種流傳\n缮修\t繕修\n缱绻难舍\t繾綣難捨\n缴不出来\t繳不出來\n缴出\t繳出\n缴出去\t繳出去\n缴出来\t繳出來\n缴卷\t繳卷\n缴回\t繳回\n缴白卷\t繳白卷\n缴获\t繳獲\n缺乏症\t缺乏症\n缺氧症\t缺氧症\n缺课纪录\t缺課紀錄\n缾沉簪折\t缾沉簪折\n罂粟种子\t罌粟種子\n罄尽\t罄盡\n罐子里\t罐子裡\n网上杂志\t網上雜誌\n网坛\t網壇\n网坛史\t網壇史\n网布\t網布\n网开一面\t網開一面\n网开三面\t網開三面\n网御\t網禦\n网志\t網誌\n网志上\t網誌上\n网扣\t網扣\n网游\t網遊\n网状系统\t網狀系統\n网管系统\t網管系統\n网络技术\t網絡技術\n网络操作系统\t網絡操作系統\n网络游戏\t網絡遊戲\n网络管理系统\t網絡管理系統\n网络规划人员\t網絡規劃人員\n网罗人才\t網羅人才\n网里\t網裡\n网际电台\t網際電臺\n罔极\t罔極\n罗克耶\t羅克耶\n罗兴梁\t羅興樑\n罗圣杰\t羅聖傑\n罗宗胜\t羅宗勝\n罗密欧与朱丽叶\t羅密歐與朱麗葉\n罗密欧与茱丽叶\t羅密歐與茱麗葉\n罗布\t羅布\n罗布林卡\t羅布林卡\n罗布森\t羅布森\n罗布泊\t羅布泊\n罗布麻\t羅布麻\n罗式几何\t羅式幾何\n罗彦杰\t羅彥傑\n罗德里奎兹\t羅德里奎茲\n罗德里格兹\t羅德里格茲\n罗德里格斯\t羅德里格斯\n罗德里盖兹\t羅德里蓋茲\n罗志恩\t羅志恩\n罗志明\t羅志明\n罗志祥\t羅志祥\n罗志良\t羅志良\n罗拉巴克\t羅拉巴克\n罗斯托克\t羅斯托克\n罗斯托夫\t羅斯托夫\n罗时丰\t羅時豐\n罗曼蒂克\t羅曼蒂克\n罗杰\t羅傑\n罗杰斯\t羅傑斯\n罗杰斯杯\t羅傑斯杯\n罗柜\t羅櫃\n罗氏几何\t羅氏幾何\n罗汉松\t羅漢松\n罗盘针\t羅盤針\n罗素克洛\t羅素克洛\n罗胡斯\t羅胡斯\n罗致\t羅致\n罗致人材\t羅致人材\n罗致政\t羅致政\n罗蒙诺索\t羅蒙諾索\n罗西里尼\t羅西里尼\n罗迪克\t羅迪克\n罗马建筑\t羅馬建築\n罚不当罪\t罰不當罪\n罚个\t罰個\n罚了\t罰了\n罚出\t罰出\n罚出去\t罰出去\n罚出来\t罰出來\n罢了\t罷了\n罢于\t罷於\n罢于奔命\t罷於奔命\n罢黜百家独尊儒术\t罷黜百家獨尊儒術\n罩杯\t罩杯\n罪大恶极\t罪大惡極\n罪当万死\t罪當萬死\n罪恶\t罪惡\n罪恶如山\t罪惡如山\n罪恶感\t罪惡感\n罪恶深重\t罪惡深重\n罪恶滔天\t罪惡滔天\n罪恶累累\t罪惡累累\n罪恶行径\t罪惡行徑\n罪恶贯盈\t罪惡貫盈\n罪证确凿\t罪證確鑿\n罪该万死\t罪該萬死\n置之死地而后生\t置之死地而後生\n置之脑后\t置之腦後\n置于\t置於\n置信系数\t置信係數\n置换\t置換\n置换术\t置換術\n置物柜\t置物櫃\n置言成范\t置言成範\n羁系\t羈繫\n羊卜\t羊卜\n羊布婚\t羊布婚\n羊拐\t羊拐\n羊毛出在羊身上\t羊毛出在羊身上\n羊瘙痒症\t羊瘙癢症\n羊群里跑出骆驼来\t羊群裡跑出駱駝來\n羊肉落在狗嘴里\t羊肉落在狗嘴裡\n羊肉面\t羊肉麵\n羊膜穿刺术\t羊膜穿刺術\n羊舍\t羊舍\n羊角面包\t羊角麵包\n羊须疮\t羊鬚瘡\n羌胡\t羌胡\n美不胜收\t美不勝收\n美丑\t美醜\n美于\t美於\n美仑\t美崙\n美仑美奂\t美侖美奐\n美利坚合众国\t美利堅合眾國\n美制\t美製\n美占\t美佔\n美发\t美髮\n美发业\t美髮業\n美发师\t美髮師\n美发店\t美髮店\n美台\t美臺\n美后\t美后\n美国制\t美國製\n美国参议院\t美國參議院\n美国国际开发总署\t美國國際開發總署\n美国国际集团\t美國國際集團\n美国在台协会\t美國在臺協會\n美国存托凭证\t美國存託憑證\n美国总统报复权\t美國總統報復權\n美国标准交换码\t美國標準交換碼\n美国谷\t美國谷\n美国资讯交换标准码\t美國資訊交換標準碼\n美女如云\t美女如雲\n美娇娘\t美嬌娘\n美容手术\t美容手術\n美容术\t美容術\n美恶\t美惡\n美才\t美才\n美日关系\t美日關係\n美术\t美術\n美术史\t美術史\n美术品\t美術品\n美术商\t美術商\n美术大师\t美術大師\n美术字\t美術字\n美术家\t美術家\n美术灯\t美術燈\n美术班\t美術班\n美术电影\t美術電影\n美术界\t美術界\n美术系\t美術系\n美术节\t美術節\n美术设计\t美術設計\n美术课\t美術課\n美术馆\t美術館\n美林集团\t美林集團\n美沙冬\t美沙冬\n美泽鉴人\t美澤鑑人\n美洲杯\t美洲盃\n美白针\t美白針\n美穗\t美穗\n美系\t美系\n美耐板\t美耐板\n美苏\t美蘇\n美苏关系\t美蘇關係\n美里\t美里\n美里达\t美里達\n羑里\t羑里\n羚羊挂角\t羚羊掛角\n羞于\t羞於\n羞于启齿\t羞於啟齒\n羞以牛后\t羞以牛後\n羞恶\t羞惡\n羞恶之心\t羞惡之心\n羞愧难当\t羞愧難當\n羞面见人\t羞面見人\n羡余\t羨餘\n羡叹\t羨歎\n群丑\t群醜\n群众关系\t群眾關係\n群众团体\t群眾團體\n群后\t群后\n群系\t群系\n群而不党\t群而不黨\n群谋咸同\t群謀咸同\n群轻折轴\t群輕折軸\n群辟\t群辟\n群里\t群裡\n群雕\t群雕\n羹里来饭里去\t羹裡來飯裡去\n羽毛丰满\t羽毛豐滿\n羽毛未丰\t羽毛未豐\n羽状复叶\t羽狀複葉\n羽翼丰满\t羽翼豐滿\n羽翼已丰\t羽翼已豐\n羽虫\t羽蟲\n翁同和\t翁同和\n翁同龢\t翁同龢\n翁山苏姬\t翁山蘇姬\n翁干晃\t翁乾晃\n翁郁容\t翁郁容\n翊赞\t翊贊\n翕辟\t翕闢\n翘了\t翹了\n翘出\t翹出\n翘出去\t翹出去\n翘出来\t翹出來\n翘曲\t翹曲\n翘翘板\t翹翹板\n翠云裘\t翠雲裘\n翡翠拉面小笼包\t翡翠拉麵小籠包\n翡翠谷\t翡翠谷\n翦彩\t翦綵\n翰墨志\t翰墨志\n翱游\t翱遊\n翱游四海\t翱遊四海\n翻个\t翻個\n翻了\t翻了\n翻云覆雨\t翻雲覆雨\n翻修\t翻修\n翻出\t翻出\n翻出去\t翻出去\n翻出来\t翻出來\n翻卷\t翻卷\n翻台\t翻檯\n翻天覆地\t翻天覆地\n翻录\t翻錄\n翻手为云\t翻手為雲\n翻手为云覆手变雨\t翻手為雲覆手變雨\n翻手作云覆手雨\t翻手作雲覆手雨\n翻把恩人当仇人\t翻把恩人當仇人\n翻新后\t翻新後\n翻来吊去\t翻來吊去\n翻来覆去\t翻來覆去\n翻松\t翻鬆\n翻空出奇\t翻空出奇\n翻筋斗\t翻筋斗\n翻箱倒柜\t翻箱倒櫃\n翻覆\t翻覆\n翻覆无常\t翻覆無常\n翻觔斗\t翻觔斗\n翻译出\t翻譯出\n翻跟斗\t翻跟斗\n翻过筋斗\t翻過筋斗\n翻面\t翻面\n翻面皮\t翻面皮\n翾风回雪\t翾風迴雪\n老不修\t老不修\n老个\t老個\n老了\t老了\n老于\t老於\n老于世故\t老於世故\n老人失智症\t老人失智症\n老仆\t老僕\n老克\t老克\n老八板儿\t老八板兒\n老几\t老幾\n老医少卜\t老醫少卜\n老千\t老千\n老古板\t老古板\n老台\t老臺\n老合儿\t老合兒\n老同学\t老同學\n老向\t老向\n老和尚撞钟\t老和尚撞鐘\n老咬虫\t老咬蟲\n老大娘\t老大娘\n老太婆的裹脚布\t老太婆的裹腳布\n老奴才\t老奴才\n老奸\t老奸\n老奸巨猾\t老奸巨猾\n老妈拌面\t老媽拌麵\n老姑娘\t老姑娘\n老姜\t老薑\n老娘\t老娘\n老娘儿\t老娘兒\n老婆娘\t老婆娘\n老婆当军\t老婆當軍\n老实的终须在\t老實的終須在\n老少一同\t老少一同\n老少咸宜\t老少咸宜\n老干\t老幹\n老干妈\t老乾媽\n老干部\t老幹部\n";

/// Part 115 of the text.
pub const ST_PHRASES_115: &'static str = "老幼咸宜\t老幼咸宜\n老庄\t老莊\n老当\t老當\n老当益壮\t老當益壯\n老态龙钟\t老態龍鍾\n老斗\t老斗\n老是\t老是\n老板\t老闆\n老板人\t老闆人\n老板娘\t老闆娘\n老板家\t老闆家\n老残游记\t老殘遊記\n老气横秋\t老氣橫秋\n老烟枪\t老煙槍\n老烟鬼\t老煙鬼\n老熊当道\t老熊當道\n老爷钟\t老爺鐘\n老猫鼻子上挂咸鱼\t老貓鼻子上掛鹹魚\n老王卖瓜自卖自夸\t老王賣瓜自賣自誇\n老皇历\t老皇曆\n老米饭捏杀不成团\t老米飯捏殺不成團\n老糊涂\t老糊塗\n老罴当道\t老羆當道\n老而弥坚\t老而彌堅\n老胡\t老胡\n老腌儿\t老醃兒\n老腌瓜\t老醃瓜\n老臊胡\t老臊胡\n老舍\t老舍\n老蒙\t老懞\n老虎挂念佛珠\t老虎掛念佛珠\n老虎生了翅膀一般\t老虎生了翅膀一般\n老蚌出明珠\t老蚌出明珠\n老表\t老表\n老起面皮\t老起面皮\n老郎庵\t老郎庵\n老雕\t老鵰\n老面子\t老面子\n老面孔\t老面孔\n老面皮\t老面皮\n老骥伏枥志在千里\t老驥伏櫪志在千里\n老鸹窝里出凤凰\t老鴰窩裡出鳳凰\n考个\t考個\n考了\t考了\n考信录\t考信錄\n考克斯\t考克斯\n考出\t考出\n考出来\t考出來\n考前考后\t考前考後\n考卷\t考卷\n考卷纸\t考卷紙\n考后\t考後\n考察团\t考察團\n考征\t考徵\n考据\t考據\n考据学\t考據學\n考核\t考覈\n考种\t考種\n考虑不周\t考慮不周\n考虑周到\t考慮周到\n考试制\t考試制\n考试制卷\t考試製卷\n考试卷\t考試卷\n考试卷子\t考試卷子\n考试范围\t考試範圍\n考试里\t考試裡\n者回\t者回\n而于\t而於\n而云\t而云\n而今而后\t而今而後\n而克制\t而剋制\n而后\t而後\n而回\t而回\n而胜于蓝\t而勝於藍\n耍奸\t耍奸\n耍得团团转\t耍得團團轉\n耍斗\t耍鬥\n耍笔杆\t耍筆桿\n耍老千\t耍老千\n耐克\t耐克\n耐冬\t耐冬\n耐多药\t耐多藥\n耐多药结核病\t耐多藥結核病\n耐热合金\t耐熱合金\n耐药性\t耐藥性\n耕九余三\t耕九餘三\n耕作制度\t耕作制度\n耕佣\t耕傭\n耕出\t耕出\n耕前锄后\t耕前耡後\n耕地面积\t耕地面積\n耕当问奴\t耕當問奴\n耕当问奴织当访婢\t耕當問奴織當訪婢\n耕御路\t耕御路\n耕种\t耕種\n耕获\t耕穫\n耗尽\t耗盡\n耘荡\t耘盪\n耦合\t耦合\n耳余\t耳餘\n耳刮子\t耳刮子\n耳卜\t耳卜\n耳后\t耳後\n耳垂\t耳垂\n耳提面命\t耳提面命\n耳提面训\t耳提面訓\n耳朵里冒出脚来\t耳朵裡冒出腳來\n耳朵里响\t耳朵裡響\n耳檐儿当不的胡帽\t耳簷兒當不的胡帽\n耳沉\t耳沉\n耳目之欲\t耳目之欲\n耳红面赤\t耳紅面赤\n耳道里\t耳道裡\n耳针\t耳針\n耶娘\t耶孃\n耶烈万\t耶烈萬\n耶稣升天节\t耶穌升天節\n耶稣基督后期圣徒教会\t耶穌基督後期聖徒教會\n耸了\t聳了\n耸了耸\t聳了聳\n耸了耸肩\t聳了聳肩\n耸入云霄\t聳入雲霄\n耸出\t聳出\n耻居王后\t恥居王後\n耽于\t耽於\n耿于\t耿於\n耿耿于心\t耿耿於心\n耿耿于怀\t耿耿於懷\n聊个\t聊個\n聊个天\t聊個天\n聊个痛快\t聊個痛快\n聊复备数\t聊復備數\n聊复尔尔\t聊復爾爾\n聊复尔耳\t聊復爾耳\n聊斋志异\t聊齋志異\n聊胜一筹\t聊勝一籌\n聊胜于无\t聊勝於無\n聊表\t聊表\n聊表寸心\t聊表寸心\n聊表心意\t聊表心意\n聋哑症\t聾啞症\n聋虫\t聾蟲\n职业代表制\t職業代表制\n职业倦怠症\t職業倦怠症\n职业团体\t職業團體\n职业水准\t職業水準\n职别\t職別\n职员录\t職員錄\n职员表\t職員表\n职志\t職志\n职权范围\t職權範圍\n职系\t職系\n职能范围\t職能範圍\n职责范围\t職責範圍\n聒噪\t聒噪\n联于\t聯於\n联体别墅\t聯體別墅\n联准会\t聯準會\n联发科\t聯發科\n联合\t聯合\n联合企业\t聯合企業\n联合会\t聯合會\n联合体\t聯合體\n联合作战\t聯合作戰\n联合促销\t聯合促銷\n联合党\t聯合黨\n联合公报\t聯合公報\n联合内阁\t聯合內閣\n联合军演\t聯合軍演\n联合利华\t聯合利華\n联合制\t聯合制\n联合制作\t聯合製作\n联合制造\t聯合製造\n联合包裹服务公司\t聯合包裹服務公司\n联合参谋\t聯合參謀\n联合发表\t聯合發表\n联合号\t聯合號\n联合国\t聯合國\n联合国日\t聯合國日\n联合国案\t聯合國案\n联合声明\t聯合聲明\n联合大学\t聯合大學\n联合战线\t聯合戰線\n联合报\t聯合報\n联合报系\t聯合報系\n联合政府\t聯合政府\n联合文学\t聯合文學\n联合晚报\t聯合晚報\n联合机\t聯合機\n联合演习\t聯合演習\n联合王国\t聯合王國\n联合目录\t聯合目錄\n联合社\t聯合社\n联合组织\t聯合組織\n联合自强\t聯合自強\n联合舰队\t聯合艦隊\n联合行\t聯合行\n联合行动\t聯合行動\n联合通讯社\t聯合通訊社\n联合部队\t聯合部隊\n联想集团\t聯想集團\n联机游戏\t聯機遊戲\n联盟党\t聯盟黨\n联盟杯\t聯盟杯\n联系\t聯繫\n联系实际\t聯繫實際\n联系方式\t聯繫方式\n联系汇率\t聯繫匯率\n联系群众\t聯繫群眾\n联赛杯\t聯賽盃\n联邦制\t聯邦制\n聘任制\t聘任制\n聘姑娘\t聘姑娘\n聘雇\t聘僱\n聚了\t聚了\n聚合\t聚合\n聚合体\t聚合體\n聚合作用\t聚合作用\n聚合反应\t聚合反應\n聚合果\t聚合果\n聚合物\t聚合物\n聚合脢\t聚合脢\n聚合资讯订阅\t聚合資訊訂閱\n聚合起来\t聚合起來\n聚合酶\t聚合酶\n聚药雄蕊\t聚葯雄蕊\n聚酯纤维\t聚酯纖維\n聪了\t聰了\n聪明一世糊涂一时\t聰明一世糊塗一時\n聪明了\t聰明了\n聪明才智\t聰明才智\n肃北蒙古族自治县\t肅北蒙古族自治縣\n肆奸植党\t肆奸植黨\n肆志\t肆志\n肇因于\t肇因於\n肉丝面\t肉絲麵\n肉吊窗\t肉吊窗\n肉干\t肉乾\n肉松\t肉鬆\n肉松罐头\t肉鬆罐頭\n肉欲\t肉慾\n肉欲主义\t肉慾主義\n肉毒杆菌\t肉毒桿菌\n肉毒杆菌毒素\t肉毒桿菌毒素\n肉毒梭状芽孢杆菌\t肉毒梭狀芽孢桿菌\n肉汤面\t肉湯麵\n肉穗花序\t肉穗花序\n肉羹面\t肉羹麵\n肉袒面缚\t肉袒面縛\n肉酱面\t肉醬麵\n肉里\t肉裡\n肉里钱\t肉裡錢\n肉重千斤\t肉重千斤\n肌原纤维\t肌原纖維\n肌理丰盈\t肌理豐盈\n肌纤维\t肌纖維\n肌纤蛋白\t肌纖蛋白\n肌肉发达\t肌肉發達\n肌肉松弛剂\t肌肉鬆弛劑\n肌肉注射\t肌肉注射\n肌肉萎缩症\t肌肉萎縮症\n肌腺症\t肌腺症\n肐膊只折在袖子里\t肐膊只折在袖子裡\n肐膊折了往袖子里藏\t肐膊折了往袖子裡藏\n肖邦\t肖邦\n肘后方\t肘後方\n肘手链足\t肘手鍊足\n肚儿里有勾当\t肚兒裡有勾當\n肚子里点灯\t肚子裡點燈\n肚皮里\t肚皮裡\n肚肠阁落里边\t肚腸閣落裡邊\n肚里\t肚裡\n肚里一轮\t肚裡一輪\n肚里寻思\t肚裡尋思\n肚里明白\t肚裡明白\n肚里的蛔虫\t肚裡的蛔蟲\n肚里说不出来的苦\t肚裡說不出來的苦\n肚里踌躇\t肚裡躊躇\n肚里雷鸣\t肚裡雷鳴\n肚饥\t肚飢\n肝吸虫\t肝吸蟲\n肝脏\t肝臟\n肝脑涂地\t肝腦塗地\n肝郁\t肝鬱\n肠系膜\t腸繫膜\n肠胃药\t腸胃藥\n肠脏\t腸臟\n肠道里\t腸道裡\n股东特别大会\t股東特別大會\n股价\t股價\n股价指数\t股價指數\n股份制\t股份制\n股栗\t股慄\n股栗肤粟\t股栗膚粟\n股票价值\t股票價值\n股票价格\t股票價格\n股票投资获利率\t股票投資獲利率\n肢体冲突\t肢體衝突\n肤发\t膚髮\n";

/// Part 116 of the text.
pub const ST_PHRASES_116: &'static str = "肥了\t肥了\n肥冬瘦年\t肥冬瘦年\n肥料厂\t肥料廠\n肥水不过别人田\t肥水不過別人田\n肥皂\t肥皂\n肥皂丝\t肥皂絲\n肥皂剧\t肥皂劇\n肥皂泡\t肥皂泡\n肥皂粉\t肥皂粉\n肥皂荚\t肥皂莢\n肥筑方言\t肥筑方言\n肥肠面\t肥腸麵\n肥胖症\t肥胖症\n肥虫蚁\t肥蟲蟻\n肩并肩\t肩並肩\n肩须拍\t肩須拍\n肮肮脏脏\t骯骯髒髒\n肮脏\t骯髒\n肮脏鬼\t骯髒鬼\n肯出\t肯出\n肯出去\t肯出去\n肯出来\t肯出來\n肯回\t肯回\n肯回去\t肯回去\n肯回来\t肯回來\n肯定并例句\t肯定並例句\n肯干\t肯幹\n肯干啊\t肯幹啊\n肯德瑞克\t肯德瑞克\n育乐台\t育樂臺\n育才\t育才\n育种\t育種\n肴馔\t餚饌\n肺出血\t肺出血\n肺叶\t肺葉\n肺吸虫\t肺吸蟲\n肺尘矽症\t肺塵矽症\n肺炎克雷伯氏菌\t肺炎克雷伯氏菌\n肺脏\t肺臟\n肽链\t肽鏈\n肾脏\t腎臟\n肾脏炎\t腎臟炎\n肾脏病\t腎臟病\n肾脏癌\t腎臟癌\n肾脏科\t腎臟科\n肿大症\t腫大症\n肿瘤切除术\t腫瘤切除術\n胁制\t脅制\n胃出血\t胃出血\n胃口\t胃口\n胃脏\t胃臟\n胃药\t胃藥\n胃药片\t胃藥片\n胃里\t胃裡\n胄嗣\t胄嗣\n胄子\t胄子\n胄序\t胄序\n胄族\t胄族\n胄甲\t冑甲\n胄监\t胄監\n胄科\t冑科\n胄绪\t胄緒\n胄胤\t胄胤\n胄裔\t胄裔\n胄裔繁衍\t胄裔繁衍\n胄阀\t胄閥\n胆大于天\t膽大於天\n胆大如斗\t膽大如斗\n胆石症\t膽石症\n背人\t揹人\n背他\t揹他\n背你\t揹你\n背债\t揹債\n背出\t背出\n背出去\t揹出去\n背出来\t背出來\n背前背后\t背前背後\n背包袱\t揹包袱\n背后\t背後\n背向\t背向\n背回\t揹回\n背回家去\t揹回家去\n背地里\t背地裡\n背城借一\t背城借一\n背她\t揹她\n背小孩\t揹小孩\n背山面水\t背山面水\n背带\t揹帶\n背我\t揹我\n背暗投明\t背暗投明\n背来\t揹來\n背板\t背板\n背梁骨\t背樑骨\n背榜\t揹榜\n背物\t揹物\n背着\t揹著\n背筐\t揹筐\n背篓\t揹簍\n背胶布\t背膠布\n背负\t揹負\n背走\t揹走\n背酸\t背痠\n背面\t背面\n背风面\t背風面\n背饥荒\t揹饑荒\n胎发\t胎髮\n胎里坏\t胎裡壞\n胎里富\t胎裡富\n胎里毒\t胎裡毒\n胎里素\t胎裡素\n胎面\t胎面\n胖姑娘坐小轿儿\t胖姑娘坐小轎兒\n胚叶\t胚葉\n胚胎\t胚胎\n胚胎发生\t胚胎發生\n胚胎发育\t胚胎發育\n胚胎干\t胚胎幹\n胜不骄\t勝不驕\n胜不骄败不馁\t勝不驕敗不餒\n胜之不武\t勝之不武\n胜乐金刚\t勝樂金剛\n胜了\t勝了\n胜事\t勝事\n胜于\t勝於\n胜仗\t勝仗\n胜任\t勝任\n胜任愉快\t勝任愉快\n胜任能力\t勝任能力\n胜会\t勝會\n胜似\t勝似\n胜出\t勝出\n胜利\t勝利\n胜利在望\t勝利在望\n胜利归来\t勝利歸來\n胜利投手\t勝利投手\n胜利果实\t勝利果實\n胜利组\t勝利組\n胜利者\t勝利者\n胜利队\t勝利隊\n胜券\t勝券\n胜券在握\t勝券在握\n胜博殿\t勝博殿\n胜在\t勝在\n胜地\t勝地\n胜境\t勝境\n胜局\t勝局\n胜常\t勝常\n胜得\t勝得\n胜投数\t勝投數\n胜投王\t勝投王\n胜景\t勝景\n胜朝\t勝朝\n胜概\t勝概\n胜残去杀\t勝殘去殺\n胜流\t勝流\n胜游\t勝遊\n胜率\t勝率\n胜的\t勝的\n胜算\t勝算\n胜肽\t胜肽\n胜落袋\t勝落袋\n胜衣\t勝衣\n胜诉\t勝訴\n胜负\t勝負\n胜负乃兵家常事\t勝負乃兵家常事\n胜败\t勝敗\n胜败乃兵家常事\t勝敗乃兵家常事\n胜过\t勝過\n胜过一个诸葛亮\t勝過一個諸葛亮\n胜迹\t勝蹟\n胜部\t勝部\n胜部冠军\t勝部冠軍\n胜键\t胜鍵\n胞子虫\t胞子蟲\n胞芽杯\t胞芽杯\n胡三\t胡三\n胡三省\t胡三省\n胡为\t胡為\n胡为慎\t胡為慎\n胡乐\t胡樂\n胡乱\t胡亂\n胡二巴越\t胡二巴越\n胡云\t胡云\n胡亥\t胡亥\n胡人\t胡人\n胡伶\t胡伶\n胡佛\t胡佛\n胡作非为\t胡作非為\n胡佩兰\t胡佩蘭\n胡佳\t胡佳\n胡侃\t胡侃\n胡做乔为\t胡做喬為\n胡儿\t胡兒\n胡元辉\t胡元輝\n胡克\t胡克\n胡克定律\t胡克定律\n胡克斯特拉\t胡克斯特拉\n胡兰成\t胡蘭成\n胡力\t胡力\n胡匪\t鬍匪\n胡卢\t胡盧\n胡卢提\t胡盧提\n胡厮哄\t胡廝哄\n胡厮混\t胡廝混\n胡厮缠\t胡廝纏\n胡吃海喝\t胡吃海喝\n胡吃闷睡\t胡吃悶睡\n胡同\t衚衕\n胡同里\t衚衕裡\n胡吣\t胡唚\n胡吹\t胡吹\n胡吹乱捧\t胡吹亂捧\n胡吹乱滂\t胡吹亂滂\n胡吹乱诌\t胡吹亂謅\n胡吹大气\t胡吹大氣\n胡哨\t胡哨\n胡喷\t胡噴\n胡嘈\t胡嘈\n胡噜\t胡嚕\n胡国强\t胡國強\n胡图族\t胡圖族\n胡天\t胡天\n胡天胡地\t胡天胡地\n胡天胡帝\t胡天胡帝\n胡夫\t胡夫\n胡如虹\t胡如虹\n胡姑姑\t胡姑姑\n胡姓\t胡姓\n胡姬花\t胡姬花\n胡婷婷\t胡婷婷\n胡子\t鬍子\n胡子工程\t鬍子工程\n胡子拉碴\t鬍子拉碴\n胡子昂\t胡子昂\n胡子渣\t鬍子渣\n胡子阿姨\t鬍子阿姨\n胡孟轩\t胡孟軒\n胡学东\t胡學東\n胡宁\t胡寧\n胡安国\t胡安國\n胡宝元\t胡寶元\n胡富雄\t胡富雄\n胡幼伟\t胡幼偉\n胡幼凤\t胡幼鳳\n胡幼幼\t胡幼幼\n胡床\t胡牀\n胡建雄\t胡建雄\n胡弄局\t胡弄局\n胡彦斌\t胡彥斌\n胡德夫\t胡德夫\n胡心夫\t胡心夫\n胡志强\t胡志強\n胡志明\t胡志明\n胡志明市\t胡志明市\n胡志隆\t胡志隆\n胡忠信\t胡忠信\n胡思\t胡思\n胡思乱想\t胡思亂想\n胡思乱量\t胡思亂量\n胡惟庸\t胡惟庸\n胡想\t胡想\n胡慧中\t胡慧中\n胡才勇\t胡才勇\n胡扑掩\t胡撲掩\n胡扑搭\t胡撲搭\n胡打海摔\t胡打海摔\n胡托莫\t胡托莫\n胡扯\t胡扯\n胡扯八溜\t胡扯八溜\n胡扯淡\t胡扯淡\n胡技烜\t胡技烜\n胡抡混闹\t胡掄混鬧\n胡拉混扯\t胡拉混扯\n胡拨四\t胡撥四\n胡掳\t胡擄\n胡掳忙乱\t胡擄忙亂\n胡搅\t胡攪\n胡搅蛮缠\t胡攪蠻纏\n胡搞\t胡搞\n胡支对\t胡支對\n胡支扯叶\t胡支扯葉\n胡敲\t胡敲\n胡旋舞\t胡旋舞\n胡晓菁\t胡曉菁\n胡服\t胡服\n胡朴安\t胡樸安\n胡来\t胡來\n胡杨\t胡楊\n胡杰\t胡杰\n胡林翼\t胡林翼\n胡枝子\t胡枝子\n胡柏\t胡柏\n胡某\t胡某\n胡柴\t胡柴\n胡根班德\t胡根班德\n胡桃\t胡桃\n胡桃木\t胡桃木\n胡桃科\t胡桃科\n胡桃钳\t胡桃鉗\n胡桃钳组曲\t胡桃鉗組曲\n胡桐\t胡桐\n胡梢\t鬍梢\n胡梦卜\t胡夢卜\n胡梯\t胡梯\n胡椒\t胡椒\n胡椒子\t胡椒子\n胡椒属\t胡椒屬\n胡椒盐\t胡椒鹽\n胡椒粉\t胡椒粉\n胡椒粒\t胡椒粒\n胡椒薄荷\t胡椒薄荷\n胡椒面\t胡椒麵\n胡椒饼\t胡椒餅\n胡歌\t胡歌\n胡歌野调\t胡歌野調\n胡母敬\t胡母敬\n胡汉民\t胡漢民\n胡浩德\t胡浩德\n胡海\t胡海\n胡海峰\t胡海峯\n胡涂\t胡塗\n胡涂虫\t胡塗蟲\n胡淑贞\t胡淑貞\n胡混\t胡混\n胡清晖\t胡清暉\n胡渣\t鬍渣\n胡温新政\t胡溫新政\n胡渰\t胡渰\n胡燕妮\t胡燕妮\n胡牌\t胡牌\n胡猜\t胡猜\n胡琴\t胡琴\n胡琴儿\t胡琴兒\n胡瑗\t胡瑗\n胡瓜\t胡瓜\n胡瓜鱼\t胡瓜魚\n胡碴子\t鬍碴子\n胡祖庆\t胡祖慶\n胡秦\t胡秦\n胡突\t胡突\n胡立宗\t胡立宗\n胡笙\t胡笙\n胡笳\t胡笳\n胡笳十八拍\t胡笳十八拍\n胡粉\t胡粉\n胡素秋\t胡素秋\n胡紫微\t胡紫微\n胡紫薇\t胡紫薇\n胡编乱造\t胡編亂造\n胡缠\t胡纏\n胡羼\t胡羼\n胡耀邦\t胡耀邦\n胡耇\t胡耈\n胡胜川\t胡勝川\n胡胜正\t胡勝正\n胡胡卢卢\t胡胡盧盧\n胡自强\t胡自強\n胡臭\t胡臭\n胡芦巴\t胡蘆巴\n胡荽\t胡荽\n胡萝卜\t胡蘿蔔\n胡萝卜就烧酒\t胡蘿蔔就燒酒\n胡萝卜汁\t胡蘿蔔汁\n胡萝卜素\t胡蘿蔔素\n胡蓝之狱\t胡藍之獄\n胡蔓草\t胡蔓草\n胡蔓藤\t胡蔓藤\n";

/// Part 117 of the text.
pub const ST_PHRASES_117: &'static str = "胡虏\t胡虜\n胡蜂\t胡蜂\n胡蝶梦\t胡蝶夢\n胡行\t胡行\n胡行乱作\t胡行亂作\n胡言\t胡言\n胡言乱语\t胡言亂語\n胡言汉语\t胡言漢語\n胡讲\t胡講\n胡诌\t胡謅\n胡诌乱傍\t胡謅亂傍\n胡诌乱扯\t胡謅亂扯\n胡诌乱说\t胡謅亂說\n胡诌乱道\t胡謅亂道\n胡诌八扯\t胡謅八扯\n胡话\t胡話\n胡语\t胡語\n胡说\t胡說\n胡说乱语\t胡說亂語\n胡说乱道\t胡說亂道\n胡说八道\t胡說八道\n胡说散道\t胡說散道\n胡说白道\t胡說白道\n胡豆\t胡豆\n胡赖\t胡賴\n胡越\t胡越\n胡越一家\t胡越一家\n胡适\t胡適\n胡适之\t胡適之\n胡适纪念馆\t胡適紀念館\n胡遮刺\t胡遮刺\n胡鄂公\t胡鄂公\n胡里胡涂\t胡里胡塗\n胡金龙\t胡金龍\n胡铨\t胡銓\n胡铺搭\t胡鋪搭\n胡锦涛\t胡錦濤\n胡长豪\t胡長豪\n胡闹\t胡鬧\n胡雕刺\t胡雕刺\n胡雪岩\t胡雪巖\n胡须\t鬍鬚\n胡须渣\t鬍鬚渣\n胡颓子\t胡頹子\n胡风\t胡風\n胡饼\t胡餅\n胡马\t胡馬\n胡马依北风\t胡馬依北風\n胡骑\t胡騎\n胡髭\t鬍髭\n胡髯\t鬍髯\n胡麻\t胡麻\n胡麻油\t胡麻油\n胡麻籽\t胡麻籽\n胤胄\t胤胄\n胰淀粉酶\t胰澱粉酶\n胰脏\t胰臟\n胰脏炎\t胰臟炎\n胰脏癌\t胰臟癌\n胶卷\t膠捲\n胶原纤维\t膠原纖維\n胶合\t膠合\n胶合板\t膠合板\n胶布\t膠布\n胶布膏\t膠布膏\n胶彩画\t膠彩畫\n胶莱谷地\t膠萊谷地\n胸廓切开术\t胸廓切開術\n胸怀坦荡\t胸懷坦蕩\n胸怀大志\t胸懷大志\n胸无大志\t胸無大志\n胸杯\t胸杯\n胸罗万象\t胸羅萬象\n胸部手术\t胸部手術\n胸针\t胸針\n胼胚种\t胼胚種\n能借\t能借\n能克制\t能剋制\n能力范围\t能力範圍\n能干\t能幹\n能干巴巴\t能乾巴巴\n能干扰\t能干擾\n能干杯\t能乾杯\n能干涉\t能干涉\n能干着急\t能乾著急\n能干耗\t能乾耗\n能干脆\t能乾脆\n能干预\t能干預\n能征善战\t能征善戰\n能征惯战\t能征慣戰\n能愿动词\t能願動詞\n能自制\t能自制\n能舍\t能捨\n能说不能干\t能說不能幹\n脂漏性角化症\t脂漏性角化症\n脆快了当\t脆快了當\n脆谷乐\t脆穀樂\n脉不制肉\t脈不制肉\n脉冲\t脈衝\n脉冲光\t脈衝光\n脉冲式\t脈衝式\n脉冲数\t脈衝數\n脉冲星\t脈衝星\n脉冲电磁场\t脈衝電磁場\n脉冲雷达\t脈衝雷達\n脉岩\t脈岩\n脊梁\t脊樑\n脊梁背\t脊樑背\n脊梁骨\t脊樑骨\n脊百合\t脊百合\n脏东西\t髒東西\n脏乱\t髒亂\n脏乱点\t髒亂點\n脏了\t髒了\n脏兮兮\t髒兮兮\n脏发\t髒髮\n脏器\t臟器\n脏土\t髒土\n脏字\t髒字\n脏字儿\t髒字兒\n脏弹\t髒彈\n脏得\t髒得\n脏心\t髒心\n脏死\t髒死\n脏水\t髒水\n脏污\t髒污\n脏病\t髒病\n脏的\t髒的\n脏脏\t髒髒\n脏腑\t臟腑\n脏词\t髒詞\n脏话\t髒話\n脏钱\t髒錢\n脑出血\t腦出血\n脑前额叶\t腦前額葉\n脑力激荡\t腦力激盪\n脑力激荡术\t腦力激盪術\n脑力激荡法\t腦力激盪法\n脑后\t腦後\n脑回\t腦回\n脑子里\t腦子裡\n脑干\t腦幹\n脑成像技术\t腦成像技術\n脑海里\t腦海裡\n脑震荡\t腦震盪\n脓团\t膿團\n脚价\t腳價\n脚划船\t腳划船\n脚后跟\t腳後跟\n脚夫\t腳伕\n脚底板\t腳底板\n脚底板儿\t腳底板兒\n脚扣\t腳釦\n脚板\t腳板\n脚注\t腳註\n脚炼\t腳鍊\n脚踏板\t腳踏板\n脚酸\t腳痠\n脚面\t腳面\n脱不了\t脫不了\n脱不了身\t脫不了身\n脱了\t脫了\n脱党\t脫黨\n脱出\t脫出\n脱出重围\t脫出重圍\n脱发\t脫髮\n脱发剂\t脫髮劑\n脱口而出\t脫口而出\n脱困\t脫困\n脱尽\t脫盡\n脱帽致敬\t脫帽致敬\n脱离不了\t脫離不了\n脱离关系\t脫離關係\n脱蜡\t脫蠟\n脱衣舞娘\t脫衣舞娘\n脱谷机\t脫穀機\n脱身而出\t脫身而出\n脱轨而出\t脫軌而出\n脱颎而出\t脫熲而出\n脱颖而出\t脫穎而出\n脸上挂了招牌\t臉上掛了招牌\n脸都绿了\t臉都綠了\n脸面\t臉面\n脸面之情\t臉面之情\n脸面无光\t臉面無光\n脺脏\t脺臟\n脾脏\t脾臟\n腊之以为饵\t腊之以為餌\n腊味\t臘味\n腊尽\t臘盡\n腊尽冬残\t臘盡冬殘\n腊斯克\t臘斯克\n腊笔\t臘筆\n腌䐶\t腌䐶\n腌制\t醃製\n腌成\t醃成\n腌汁\t醃汁\n腌泡\t醃泡\n腌渍\t醃漬\n腌渍物\t醃漬物\n腌猪肉\t醃豬肉\n腌肉\t醃肉\n腌腊\t醃臘\n腌臜\t腌臢\n腌菜\t醃菜\n腌起来\t醃起來\n腌过\t醃過\n腌酱瓜\t醃醬瓜\n腌里巴臜\t腌裡巴臢\n腌鱼\t醃魚\n腌鱼肉\t醃魚肉\n腌黄瓜\t醃黃瓜\n腐余\t腐餘\n腐女军团\t腐女軍團\n腐干\t腐乾\n腐恶\t腐惡\n腐肠之药\t腐腸之藥\n腑脏\t腑臟\n腕表\t腕錶\n腕道症候群\t腕道症候群\n腕隧道症\t腕隧道症\n腕隧道症候群\t腕隧道症候群\n腥黑穗病\t腥黑穗病\n腮托\t腮托\n腮斗\t腮斗\n腰一卷\t腰一捲\n腰布\t腰布\n腰扣\t腰釦\n腰杆\t腰桿\n腰杆子\t腰桿子\n腰板\t腰板\n腰板儿\t腰板兒\n腰板脖硬\t腰板脖硬\n腰柜\t腰櫃\n腰椎间盘突出\t腰椎間盤突出\n腰椎间盘突出症\t腰椎間盤突出症\n腰系\t腰繫\n腰缠万贯\t腰纏萬貫\n腰花面\t腰花麵\n腰酸\t腰痠\n腰里\t腰裡\n腰里硬\t腰裡硬\n腰间系\t腰間繫\n腹板\t腹板\n腹泻药\t腹瀉藥\n腹语术\t腹語術\n腹里\t腹裡\n腹面\t腹面\n腻了\t膩了\n腻云\t膩雲\n腼面\t靦面\n腼颜事仇\t靦顏事仇\n腼颜借命\t靦顏借命\n腾云\t騰雲\n腾云跨风\t騰雲跨風\n腾云驾雾\t騰雲駕霧\n腾冲\t騰衝\n腾冲县\t騰衝縣\n腾出\t騰出\n腾出来\t騰出來\n腾升\t騰昇\n腾捷飞升\t騰捷飛升\n腾格里\t騰格里\n腾格里山\t騰格里山\n腾格里沙漠\t騰格里沙漠\n腾格里湖\t騰格里湖\n腿后腱\t腿後腱\n腿酸\t腿痠\n膊风板\t膊風板\n膏药\t膏藥\n膏药旗\t膏藥旗\n膨土岩\t膨土岩\n膨松\t膨鬆\n膨松剂\t膨鬆劑\n膨胀系数\t膨脹係數\n膻中\t膻中\n膻中穴\t膻中穴\n臀位取胎术\t臀位取胎術\n臂一卷\t臂一捲\n臊子面\t臊子麵\n臣仆\t臣僕\n臣服于\t臣服於\n臣服于心\t臣服於心\n臧获\t臧獲\n臧谷亡羊\t臧穀亡羊\n自个\t自個\n自个儿\t自個兒\n自主旅游\t自主旅遊\n自主游\t自主遊\n自主系统\t自主系統\n自了\t自了\n自于\t自於\n自交系\t自交系\n自修\t自修\n自修室\t自修室\n自修法\t自修法\n自修课\t自修課\n自出\t自出\n自出一家\t自出一家\n自出机杼\t自出機杼\n自制\t自制\n自制一下\t自制一下\n自制下来\t自制下來\n自制之力\t自制之力\n自制之能\t自制之能\n自制力\t自制力\n自制炸弹\t自製炸彈\n自制的能\t自制的能\n自制能力\t自制能力\n自动化技术\t自動化技術\n自动恢复\t自動恢復\n自动挂挡\t自動掛擋\n自动控制\t自動控制\n自动柜员机\t自動櫃員機\n自动离合\t自動離合\n自动自发\t自動自發\n自动表\t自動錶\n自动资料处理系统\t自動資料處理系統\n自助旅游\t自助旅遊\n自助游\t自助遊\n自卖自夸\t自賣自誇\n自发\t自發\n自发对称破缺\t自發對稱破缺\n自发性\t自發性\n自发电位\t自發電位\n自发运动\t自發運動\n自叹\t自嘆\n自同寒蝉\t自同寒蟬\n自后\t自後\n自夸\t自誇\n自学成才\t自學成才\n自尽\t自盡\n自干五\t自乾五\n自度曲\t自度曲\n自当\t自當\n自愿\t自願\n自愿书\t自願書\n自愿就学方案\t自願就學方案\n自愿性\t自願性\n自愿者\t自願者\n自我表现\t自我表現\n自我评价\t自我評價\n自是\t自是\n自来水厂\t自來水廠\n自核\t自核\n自此以后\t自此以後\n";

/// Part 118 of the text.
pub const ST_PHRASES_118: &'static str = "自此而后\t自此而後\n自民党\t自民黨\n自治制\t自治制\n自注\t自注\n自海里\t自海裡\n自点曲\t自點曲\n自然卷\t自然捲\n自然历\t自然歷\n自然接种\t自然接種\n自由亚洲电台\t自由亞洲電臺\n自由党\t自由黨\n自由意志\t自由意志\n自由意志主义\t自由意志主義\n自由斗士\t自由鬥士\n自由民主党\t自由民主黨\n自由组合\t自由組合\n自由组合规律\t自由組合規律\n自由面\t自由面\n自种\t自種\n自觉自愿\t自覺自願\n自诒伊戚\t自詒伊戚\n自贻伊戚\t自貽伊戚\n自赞\t自贊\n自适\t自適\n自适应\t自適應\n自选曲\t自選曲\n自采\t自採\n自闭症\t自閉症\n自须\t自須\n自食恶果\t自食惡果\n自驾汽车出租\t自駕汽車出租\n自鸣钟\t自鳴鐘\n臭不可当\t臭不可當\n臭局\t臭侷\n臭气冲天\t臭氣沖天\n臭气熏天\t臭氣熏天\n臭熏熏\t臭燻燻\n臭虫\t臭蟲\n至于\t至於\n至多\t至多\n至当\t至當\n至愚极陋\t至愚極陋\n至极\t至極\n至矣尽矣\t至矣盡矣\n致上\t致上\n致书\t致書\n致乱\t致亂\n致于\t致於\n致仕\t致仕\n致以\t致以\n致使\t致使\n致使动词\t致使動詞\n致冷\t致冷\n致冷剂\t致冷劑\n致函\t致函\n致力\t致力\n致力于\t致力於\n致命\t致命\n致命伤\t致命傷\n致命处\t致命處\n致命性\t致命性\n致哀\t致哀\n致奠\t致奠\n致密\t緻密\n致富\t致富\n致富之道\t致富之道\n致师\t致師\n致志\t致志\n致思\t致思\n致意\t致意\n致政\t致政\n致敬\t致敬\n致歉\t致歉\n致死\t致死\n致死剂量\t致死劑量\n致死性\t致死性\n致死性毒剂\t致死性毒劑\n致死案\t致死案\n致死率\t致死率\n致死量\t致死量\n致残\t致殘\n致理\t致理\n致理商专\t致理商專\n致理商业专科学校\t致理商業專科學校\n致理技术学院\t致理技術學院\n致用\t致用\n致电\t致電\n致畸\t致畸\n致疑\t致疑\n致病\t致病\n致病性\t致病性\n致病菌\t致病菌\n致癌\t致癌\n致癌物\t致癌物\n致癌物质\t致癌物質\n致知\t致知\n致祭\t致祭\n致胜\t致勝\n致胜率\t致勝率\n致胜球\t致勝球\n致获\t致獲\n致词\t致詞\n致详\t致詳\n致语\t致語\n致谢\t致謝\n致贺\t致賀\n致赠\t致贈\n致身\t致身\n致辞\t致辭\n致远\t致遠\n致远任重\t致遠任重\n致送\t致送\n臻于\t臻於\n臻于完善\t臻於完善\n臻于郅治\t臻於郅治\n舂谷\t舂穀\n舄卤\t舄鹵\n舆台\t輿臺\n舆地志\t輿地志\n舆尸\t輿尸\n舆志\t輿志\n舌一卷\t舌一捲\n舌叶\t舌葉\n舌叶音\t舌葉音\n舌后\t舌後\n舌尖后音\t舌尖後音\n舌干唇焦\t舌乾脣焦\n舌面\t舌面\n舌面元音\t舌面元音\n舌面前音\t舌面前音\n舌面后音\t舌面後音\n舌面如镜\t舌面如鏡\n舌面音\t舌面音\n舍下\t舍下\n舍下他\t捨下他\n舍下你\t捨下你\n舍下她\t捨下她\n舍下我\t捨下我\n舍不得\t捨不得\n舍亲\t舍親\n舍人\t舍人\n舍出\t捨出\n舍利\t舍利\n舍利佛\t舍利佛\n舍利塔\t舍利塔\n舍利子\t舍利子\n舍利子塔\t舍利子塔\n舍利弗\t舍利弗\n舍去\t捨去\n舍命\t捨命\n舍命救人\t捨命救人\n舍堕\t捨墮\n舍妹\t舍妹\n舍姪\t舍姪\n舍安就危\t捨安就危\n舍实\t捨實\n舍实求虚\t捨實求虛\n舍己\t捨己\n舍己为人\t捨己為人\n舍己为公\t捨己為公\n舍己为国\t捨己為國\n舍己从人\t捨己從人\n舍己就人\t捨己就人\n舍己成人\t捨己成人\n舍己救人\t捨己救人\n舍己芸人\t捨己芸人\n舍弃\t捨棄\n舍弗勒\t舍弗勒\n舍弟\t舍弟\n舍得\t捨得\n舍德主义\t舍德主義\n舍我其谁\t捨我其誰\n舍我复谁\t捨我復誰\n舍旧迎新\t捨舊迎新\n舍本\t捨本\n舍本事末\t捨本事末\n舍本逐末\t捨本逐末\n舍本问末\t捨本問末\n舍正从邪\t捨正從邪\n舍死忘生\t捨死忘生\n舍生\t捨生\n舍生取义\t捨生取義\n舍生存义\t舍生存義\n舍生忘死\t捨生忘死\n舍监\t舍監\n舍短从长\t捨短從長\n舍短取长\t捨短取長\n舍短录长\t捨短錄長\n舍短用长\t捨短用長\n舍身\t捨身\n舍身为国\t捨身為國\n舍身图报\t捨身圖報\n舍身报国\t捨身報國\n舍身救人\t捨身救人\n舍身求法\t捨身求法\n舍车保帅\t捨車保帥\n舍近务远\t捨近務遠\n舍近即远\t捨近即遠\n舍近求远\t捨近求遠\n舍近谋远\t捨近謀遠\n舍间\t舍間\n舒卷\t舒捲\n舒卷自如\t舒捲自如\n舒发\t舒發\n舒适\t舒適\n舒适度\t舒適度\n舒适性\t舒適性\n舒适感\t舒適感\n舒适音\t舒適音\n舒马克\t舒馬克\n舔干净\t舔乾淨\n舞出\t舞出\n舞台\t舞臺\n舞台剧\t舞臺劇\n舞台区\t舞臺區\n舞台戏\t舞臺戲\n舞台效果\t舞臺效果\n舞台秀\t舞臺秀\n舞台艺术\t舞臺藝術\n舞台音乐\t舞臺音樂\n舞后\t舞后\n舞团\t舞團\n舞娘\t舞娘\n舞曲\t舞曲\n舞榭歌台\t舞榭歌臺\n舞水端里\t舞水端里\n舞蹈团\t舞蹈團\n舞蹈症\t舞蹈症\n舞蹈系\t舞蹈系\n舟曲\t舟曲\n舟曲县\t舟曲縣\n舢板\t舢板\n舢板运动\t舢板運動\n航发中心\t航發中心\n航发会\t航發會\n航向\t航向\n航太系\t航太系\n航海历\t航海曆\n航海历史\t航海歷史\n航海年表\t航海年表\n航海日志\t航海日誌\n航班表\t航班表\n航空术\t航空術\n航空母舰战斗群\t航空母艦戰鬥群\n舰只\t艦隻\n舳舻千里\t舳艫千里\n船不漏针漏针没外人\t船不漏針漏針沒外人\n船厂\t船廠\n船只\t船隻\n船台\t船臺\n船员表\t船員表\n船夫\t船伕\n船娘\t船孃\n船期表\t船期表\n船板\t船板\n船载的金银填不满烟花债\t船載的金銀填不滿煙花債\n船边交货价\t船邊交貨價\n船钟\t船鐘\n艇甲板\t艇甲板\n艎板\t艎板\n艨冲\t艨衝\n良价\t良价\n良心发现\t良心發現\n良游\t良遊\n良田万顷不如薄艺随身\t良田萬頃不如薄藝隨身\n良种\t良種\n良种繁育\t良種繁育\n良药\t良藥\n良药苦口\t良藥苦口\n良药苦口忠言逆耳\t良藥苦口忠言逆耳\n艰困\t艱困\n艰巨\t艱鉅\n艰苦备尝\t艱苦備嚐\n艰苦奋斗\t艱苦奮鬥\n艰难困苦\t艱難困苦\n艰难曲折\t艱難曲折\n色当\t色當\n色彩\t色彩\n色彩三要素\t色彩三要素\n色彩学\t色彩學\n色彩缤纷\t色彩繽紛\n色彩艳丽\t色彩艷麗\n色彩鲜明\t色彩鮮明\n色彩鲜艳\t色彩鮮艷\n色情杂志\t色情雜誌\n色欲\t色慾\n色盲症\t色盲症\n色系\t色系\n艳后\t艷后\n艸木丰丰\t艸木丰丰\n艺压当行\t藝壓當行\n艺坛\t藝壇\n艺文志\t藝文志\n艺术\t藝術\n艺术体操\t藝術體操\n艺术化\t藝術化\n艺术区\t藝術區\n艺术厅\t藝術廳\n艺术史\t藝術史\n艺术品\t藝術品\n艺术团\t藝術團\n艺术奖\t藝術獎\n艺术字\t藝術字\n艺术季\t藝術季\n艺术学院\t藝術學院\n艺术家\t藝術家\n艺术展\t藝術展\n艺术性\t藝術性\n艺术指导\t藝術指導\n艺术村\t藝術村\n艺术歌曲\t藝術歌曲\n艺术片\t藝術片\n艺术界\t藝術界\n艺术类\t藝術類\n艺术系\t藝術系\n艺术美\t藝術美\n艺术者\t藝術者\n艺术节\t藝術節\n艺术街\t藝術街\n艺术院\t藝術院\n艺术馆\t藝術館\n艺穗节\t藝穗節\n艾万斯\t艾萬斯\n艾伦图克\t艾倫圖克\n艾克尔\t艾克爾\n艾克斯\t艾克斯\n艾克曼\t艾克曼\n艾克森\t艾克森\n艾克森美孚\t艾克森美孚\n艾克雷史东\t艾克雷史東\n艾力克\t艾力克\n艾力克斯\t艾力克斯\n艾回\t艾迴\n艾布兰\t艾布蘭\n艾布拉莫维奇\t艾布拉莫維奇\n艾希克罗\t艾希克羅\n艾弥尔\t艾彌爾\n";

/// Part 119 of the text.
pub const ST_PHRASES_119: &'static str = "艾德蒙斯\t艾德蒙斯\n艾德蒙顿\t艾德蒙頓\n艾斯托利尔\t艾斯托利爾\n艾瑞克\t艾瑞克\n艾瑞克森\t艾瑞克森\n艾瑞斯托\t艾瑞斯托\n艾瑞里\t艾瑞里\n艾米里\t艾米里\n艾维斯普里斯莱\t艾維斯普里斯萊\n艾赛克斯\t艾賽克斯\n艾达克\t艾達克\n艾里亚森\t艾里亞森\n艾里斯\t艾里斯\n艾里森\t艾里森\n艾里西\t艾里西\n艾里西湖\t艾里西湖\n艾里西湖镇\t艾里西湖鎮\n艾里赛宫\t艾里賽宮\n节余\t節餘\n节制\t節制\n节制资本\t節制資本\n节奏布鲁斯\t節奏布魯斯\n节录\t節錄\n节录自\t節錄自\n节日里\t節日裡\n节欲\t節慾\n节流踏板\t節流踏板\n节目表\t節目表\n节节上升\t節節上升\n节节胜利\t節節勝利\n芍药\t芍藥\n芍药花\t芍藥花\n芒果干\t芒果乾\n芒种\t芒種\n芙蓉出水\t芙蓉出水\n芝柏表\t芝柏錶\n芟秋\t芟秋\n芥子气恶病质\t芥子氣惡病質\n芥子纳须弥\t芥子納須彌\n芦帘\t蘆簾\n芦席\t蘆蓆\n芦洲蟹舍\t蘆洲蟹舍\n芦花荡\t蘆花蕩\n芦荡\t蘆蕩\n芧栗\t芧栗\n芫荽叶\t芫荽葉\n芬郁\t芬鬱\n芭丝克华\t芭絲克華\n芭托莉\t芭托莉\n芭蕉布\t芭蕉布\n芭蕾舞团\t芭蕾舞團\n芯慧同用\t芯慧同用\n芯片\t芯片\n芯片厂\t芯片廠\n花个\t花個\n花了\t花了\n花价\t花價\n花儿针\t花兒針\n花六出\t花六出\n花卷\t花捲\n花厂\t花廠\n花发老\t花髮老\n花台\t花臺\n花叶\t花葉\n花叶病\t花葉病\n花哄\t花鬨\n花团\t花團\n花团锦簇\t花團錦簇\n花园里\t花園裡\n花坛\t花壇\n花坛乡\t花壇鄉\n花娘\t花娘\n花尽\t花盡\n花岗岩\t花崗岩\n花岗岩质层\t花崗岩質層\n花布\t花布\n花布包\t花布包\n花庵词选\t花菴詞選\n花彩\t花彩\n花心萝卜\t花心蘿蔔\n花托\t花托\n花招百出\t花招百出\n花拳绣腿\t花拳繡腿\n花旗参\t花旗參\n花无百日开人无千日好\t花無百日開人無千日好\n花明柳暗\t花明柳暗\n花栗鼠\t花栗鼠\n花样游泳\t花樣游泳\n花样百出\t花樣百出\n花格里\t花格裡\n花椒面\t花椒麵\n花烟馆\t花煙館\n花盆里\t花盆裡\n花种\t花種\n花粉症\t花粉症\n花红叶绿\t花紅葉綠\n花胜\t花勝\n花胡同\t花衚衕\n花胡瓜\t花胡瓜\n花荡\t花蕩\n花药\t花葯\n花药瓣\t花葯瓣\n花莲师范学院\t花蓮師範學院\n花藜胡哨\t花藜胡哨\n花虫\t花蟲\n花车游行\t花車遊行\n花采\t花采\n花里活\t花里活\n花里胡哨\t花裡胡哨\n花钟\t花鐘\n花雕\t花雕\n花雕酒\t花雕酒\n花面\t花面\n花面狸\t花面狸\n花马吊嘴\t花馬弔嘴\n花魁娘子\t花魁娘子\n芳名录\t芳名錄\n芸苔\t蕓薹\n芸薹\t蕓薹\n芸辉\t蕓輝\n苇席\t葦蓆\n苇苕系巢\t葦苕繫巢\n苍发\t蒼髮\n苍术\t蒼朮\n苍松\t蒼松\n苍松翠柏\t蒼松翠柏\n苍生涂炭\t蒼生塗炭\n苍翠欲滴\t蒼翠欲滴\n苍蝇掐了头\t蒼蠅掐了頭\n苍郁\t蒼鬱\n苍黄翻覆\t蒼黃翻覆\n苎麻\t苧麻\n苏东启案\t蘇東啓案\n苏东坡\t蘇東坡\n苏丹\t蘇丹\n苏丹人\t蘇丹人\n苏丹共和国\t蘇丹共和國\n苏丹达佛\t蘇丹達佛\n苏丹达佛区\t蘇丹達佛區\n苏丽文\t蘇麗文\n苏乐明\t蘇樂明\n苏乐桃\t蘇樂桃\n苏仙区\t蘇仙區\n苏伊士\t蘇伊士\n苏伊士河\t蘇伊士河\n苏伊士运河\t蘇伊士運河\n苏俄\t蘇俄\n苏俄在中国\t蘇俄在中國\n苏俊仁\t蘇俊仁\n苏俊宾\t蘇俊賓\n苏克雷\t蘇克雷\n苏公堤\t蘇公隄\n苏共\t蘇共\n苏凡纳布\t蘇凡納布\n苏利南\t蘇利南\n苏利南共和国\t蘇利南共和國\n苏利文\t蘇利文\n苏北\t蘇北\n苏区\t蘇區\n苏占区\t蘇佔區\n苏合香\t蘇合香\n苏启荣\t蘇啓榮\n苏哈托\t蘇哈托\n苏哲毅\t蘇哲毅\n苏嘉全\t蘇嘉全\n苏圣斌\t蘇聖斌\n苏堤\t蘇堤\n苏头\t蘇頭\n苏妮儿\t蘇妮兒\n苏妮妮\t蘇妮妮\n苏妮萨\t蘇妮薩\n苏姆盖特\t蘇姆蓋特\n苏子油\t蘇子油\n苏宁\t蘇寧\n苏宁电器\t蘇寧電器\n苏家\t蘇家\n苏家屯\t蘇家屯\n苏家屯区\t蘇家屯區\n苏家明\t蘇家明\n苏富比\t蘇富比\n苏富比公司\t蘇富比公司\n苏小妹\t蘇小妹\n苏尔\t蘇爾\n苏尔坦\t蘇爾坦\n苏尔奈\t蘇爾奈\n苏尼特右旗\t蘇尼特右旗\n苏尼特左旗\t蘇尼特左旗\n苏峻\t蘇峻\n苏州\t蘇州\n苏州人\t蘇州人\n苏州地区\t蘇州地區\n苏州城\t蘇州城\n苏州大学\t蘇州大學\n苏州市\t蘇州市\n苏州弹词\t蘇州彈詞\n苏州片\t蘇州片\n苏州码\t蘇州碼\n苏州码子\t蘇州碼子\n苏州评弹\t蘇州評彈\n苏州话\t蘇州話\n苏巴猜\t蘇巴猜\n苏帕瑞\t蘇帕瑞\n苏建\t蘇建\n苏建和\t蘇建和\n苏建忠\t蘇建忠\n苏建荣\t蘇建榮\n苏式\t蘇式\n苏德曼\t蘇德曼\n苏必利尔湖\t蘇必利爾湖\n苏必略湖\t蘇必略湖\n苏志明\t蘇志明\n苏志燮\t蘇志燮\n苏息\t蘇息\n苏恺二七战机\t蘇愷二七戰機\n苏打\t蘇打\n苏打水\t蘇打水\n苏打粉\t蘇打粉\n苏打绿\t蘇打綠\n苏打饼干\t蘇打餅乾\n苏扬托\t蘇揚托\n苏报案\t蘇報案\n苏拉\t蘇拉\n苏拉威\t蘇拉威\n苏拉威西\t蘇拉威西\n苏拉威西岛\t蘇拉威西島\n苏拉朋\t蘇拉朋\n苏拉特\t蘇拉特\n苏拉育\t蘇拉育\n苏拾平\t蘇拾平\n苏振平\t蘇振平\n苏文生\t蘇文生\n苏方\t蘇方\n苏昆\t蘇崑\n苏易简\t蘇易簡\n苏曼殊\t蘇曼殊\n苏有朋\t蘇有朋\n苏木\t蘇木\n苏杭\t蘇杭\n苏杯\t蘇盃\n苏枋木\t蘇枋木\n苏格兰\t蘇格蘭\n苏格兰人\t蘇格蘭人\n苏格兰场\t蘇格蘭場\n苏格兰女王玛丽\t蘇格蘭女王瑪麗\n苏格兰帽\t蘇格蘭帽\n苏格兰折耳猫\t蘇格蘭摺耳貓\n苏格兰王\t蘇格蘭王\n苏格兰裙\t蘇格蘭裙\n苏格兰队\t蘇格蘭隊\n苏格拉底\t蘇格拉底\n苏梅岛\t蘇梅島\n苏步青\t蘇步青\n苏武\t蘇武\n苏武牧羊\t蘇武牧羊\n苏比克湾\t蘇比克灣\n苏永康\t蘇永康\n苏永耀\t蘇永耀\n苏永钦\t蘇永欽\n苏治芬\t蘇治芬\n苏泽光\t蘇澤光\n苏洵\t蘇洵\n苏海韩潮\t蘇海韓潮\n苏澳\t蘇澳\n苏澳港\t蘇澳港\n苏澳镇\t蘇澳鎮\n苏炎坤\t蘇炎坤\n苏炳宪\t蘇炳憲\n苏焕智\t蘇煥智\n苏玲瑶\t蘇玲瑤\n苏珊\t蘇珊\n苏珊娜\t蘇珊娜\n苏珊莎兰登\t蘇珊莎蘭登\n苏瓦\t蘇瓦\n苏白\t蘇白\n苏盈贵\t蘇盈貴\n苏禄岛\t蘇祿島\n苏福男\t蘇福男\n苏秦\t蘇秦\n苏秦刺股\t蘇秦刺股\n苏立吉\t蘇立吉\n苏糖\t蘇糖\n苏绣\t蘇繡\n苏维埃\t蘇維埃\n苏维埃俄国\t蘇維埃俄國\n苏维埃社会主义共和国联盟\t蘇維埃社會主義共和國聯盟\n苏维埃社会主义共和国联邦\t蘇維埃社會主義共和國聯邦\n苏维成\t蘇維成\n苏罗河\t蘇羅河\n苏美人\t蘇美人\n苏美尔\t蘇美爾\n苏翊杰\t蘇翊傑\n苏联\t蘇聯\n苏联之友社\t蘇聯之友社\n苏联人\t蘇聯人\n苏联共产党\t蘇聯共產黨\n苏联最高苏维埃\t蘇聯最高蘇維埃\n苏胺酸\t蘇胺酸\n苏舜钦\t蘇舜欽\n苏芮\t蘇芮\n苏花公路\t蘇花公路\n苏花高\t蘇花高\n苏苏\t蘇蘇\n苏莱曼\t蘇萊曼\n苏菜\t蘇菜\n苏菲\t蘇菲\n苏菲亚\t蘇菲亞\n苏菲亚罗兰\t蘇菲亞羅蘭\n苏菲玛索\t蘇菲瑪索\n苏菲雅\t蘇菲雅\n苏蕙\t蘇蕙\n苏西洛\t蘇西洛\n苏谢配\t蘇謝配\n苏贞昌\t蘇貞昌\n苏超凡\t蘇超凡\n苏轩弘\t蘇軒弘\n苏轼\t蘇軾\n苏辙\t蘇轍\n苏达拉\t蘇達拉\n苏达索诺\t蘇達索諾\n苏迪曼杯\t蘇迪曼杯\n苏迪约梭\t蘇迪約梭\n苏醒\t甦醒\n苏醒剂\t甦醒劑\n苏醒过来\t甦醒過來\n苏里\t蘇里\n苏里南\t蘇里南\n苏里南河\t蘇里南河\n";

/// Part 120 of the text.
pub const ST_PHRASES_120: &'static str = "苏里安提沙洛索\t蘇里安提沙洛索\n苏金达\t蘇金達\n苏铁\t蘇鐵\n苏镇霖\t蘇鎮霖\n苏门答腊\t蘇門答臘\n苏门答腊岛\t蘇門答臘島\n苏门答腊省\t蘇門答臘省\n苏门达腊\t蘇門達臘\n苏门达腊岛\t蘇門達臘島\n苏门长啸\t蘇門長嘯\n苏隄\t蘇隄\n苏雷曼\t蘇雷曼\n苏非\t蘇非\n苏非主义\t蘇非主義\n苏非教派\t蘇非教派\n苏黎世\t蘇黎世\n苏黎世联邦理工学院\t蘇黎世聯邦理工學院\n苏黎士\t蘇黎士\n苑里\t苑裡\n苑里镇\t苑裡鎮\n苗栗\t苗栗\n苗栗人\t苗栗人\n苗栗县\t苗栗縣\n苗栗市\t苗栗市\n苗种\t苗種\n苗胄\t苗胄\n苛政猛于虎\t苛政猛於虎\n苜蓿长栏干\t苜蓿長欄干\n苞叶\t苞葉\n苞虫\t苞蟲\n苟合\t苟合\n苟合取容\t苟合取容\n苟同\t苟同\n苟容曲从\t苟容曲從\n若个\t若個\n若于\t若於\n若出一辙\t若出一轍\n若合符节\t若合符節\n若向\t若向\n若干\t若干\n若干个\t若干個\n若干人\t若干人\n若干周\t若干週\n若干周围\t若干周圍\n若干周边\t若干周邊\n若干周遭\t若干周遭\n若干年\t若干年\n若是\t若是\n若虫\t若蟲\n苦了\t苦了\n苦于\t苦於\n苦修\t苦修\n苦卤\t苦鹵\n苦参\t苦參\n苦大仇深\t苦大仇深\n苦尽甘来\t苦盡甘來\n苦干\t苦幹\n苦干实干\t苦幹實幹\n苦思恶想\t苦思惡想\n苦斗\t苦鬥\n苦杯\t苦杯\n苦海无边回头是岸\t苦海無邊回頭是岸\n苦瓜干\t苦瓜乾\n苦药\t苦藥\n苦读出身\t苦讀出身\n苦酒满杯\t苦酒滿杯\n苦里\t苦裡\n苧悴\t薴悴\n苧烯\t薴烯\n苫布\t苫布\n苯并噻吩\t苯並噻吩\n苯酮尿症\t苯酮尿症\n英克丝特\t英克絲特\n英制\t英制\n英占\t英佔\n英发\t英發\n英国广播电台\t英國廣播電臺\n英姿焕发\t英姿煥發\n英布\t英布\n英才\t英才\n英才俊伟\t英才俊偉\n英文系\t英文系\n英日同盟\t英日同盟\n英杰\t英傑\n英气风发\t英氣風發\n英烈千秋\t英烈千秋\n英王面包\t英王麵包\n英联合王国\t英聯合王國\n英胄\t英胄\n英语系\t英語系\n英里\t英里\n英雄交响曲\t英雄交響曲\n英雄只怕病来磨\t英雄只怕病來磨\n英雄所见略同\t英雄所見略同\n英雄模范\t英雄模範\n英雄豪杰\t英雄豪傑\n苴布\t苴布\n苹叶\t蘋葉\n苹婆\t蘋婆\n苹果\t蘋果\n苹果公司\t蘋果公司\n苹果园\t蘋果園\n苹果子姜尼\t蘋果子姜尼\n苹果干\t蘋果乾\n苹果手机\t蘋果手機\n苹果树\t蘋果樹\n苹果核\t蘋果核\n苹果汁\t蘋果汁\n苹果派\t蘋果派\n苹果电脑\t蘋果電腦\n苹果皮\t蘋果皮\n苹果绿\t蘋果綠\n苹果肉\t蘋果肉\n苹果脸\t蘋果臉\n苹果螺\t蘋果螺\n苹果蠹蛾\t蘋果蠹蛾\n苹果迷\t蘋果迷\n苹果酒\t蘋果酒\n苹果酱\t蘋果醬\n苹果酸\t蘋果酸\n苹果馅饼\t蘋果餡餅\n苹萦\t苹縈\n苹风\t蘋風\n茂发\t茂發\n茂才\t茂才\n茂才异等\t茂才異等\n茂松\t茂松\n茂都淀\t茂都澱\n范仲淹\t范仲淹\n范伦铁诺\t范倫鐵諾\n范佩西\t范佩西\n范例\t範例\n范光群\t范光羣\n范公\t范公\n范公偁\t范公偁\n范公堤\t范公堤\n范冰冰\t范冰冰\n范县\t范縣\n范叔\t范叔\n范可钦\t范可欽\n范各庄\t范各莊\n范哈能\t范哈能\n范嘉骅\t范嘉驊\n范围\t範圍\n范围之内\t範圍之內\n范围之外\t範圍之外\n范围之广\t範圍之廣\n范围内\t範圍內\n范围属性\t範圍屬性\n范围很大\t範圍很大\n范围是\t範圍是\n范围查询\t範圍查詢\n范围调整\t範圍調整\n范国铨\t范國銓\n范坝\t范壩\n范增\t范增\n范士丹\t范士丹\n范太史\t范太史\n范姜\t范姜\n范字\t範字\n范家\t范家\n范宽\t范寬\n范寨\t范寨\n范小姐\t范小姐\n范尼斯特鲁伊\t范尼斯特魯伊\n范履霜\t范履霜\n范岗\t范崗\n范式\t範式\n范张鸡黍\t范張雞黍\n范德机\t范德機\n范德林特\t范德林特\n范德格拉夫\t范德格拉夫\n范德瓦耳斯\t范德瓦耳斯\n范德瓦耳斯力\t范德瓦耳斯力\n范德维德\t范德維德\n范德萨\t范德薩\n范志毅\t范志毅\n范忠宣\t范忠宣\n范性形变\t範性形變\n范戈德\t范戈德\n范成大\t范成大\n范文\t範文\n范文同\t范文同\n范文正\t范文正\n范文正公\t范文正公\n范文澜\t范文瀾\n范文照\t范文照\n范文程\t范文程\n范文网\t範文網\n范文芳\t范文芳\n范文藤\t范文藤\n范文虎\t范文虎\n范文选读\t範文選讀\n范斯坦\t范斯坦\n范晓萱\t范曉萱\n范晔\t范曄\n范本\t範本\n范村\t范村\n范桥\t范橋\n范植伟\t范植偉\n范植谷\t范植谷\n范楼\t范樓\n范欣妤\t范欣妤\n范正祥\t范正祥\n范氏\t范氏\n范洪森\t范洪森\n范湘暄\t范湘暄\n范特尔\t范特爾\n范特西\t范特西\n范玮琪\t范瑋琪\n范琪斐\t范琪斐\n范甘迪\t范甘迪\n范畴\t範疇\n范畴内\t範疇內\n范畴论\t範疇論\n范登堡\t范登堡\n范皓阗\t范皓闐\n范筱梵\t范筱梵\n范纲武\t范綱武\n范织钦\t范織欽\n范绮馨\t范綺馨\n范罗山\t范羅山\n范范之辈\t范範之輩\n范营\t范營\n范蠡\t范蠡\n范进\t范進\n范逸臣\t范逸臣\n范里\t范里\n范金\t範金\n范镇\t范鎮\n范阳\t范陽\n范陈柏\t范陳柏\n范集\t范集\n范雎\t范雎\n范靖瑶\t范靖瑤\n茄二十八星瓢虫\t茄二十八星瓢蟲\n茄克\t茄克\n茄克衫\t茄克衫\n茄冬\t茄冬\n茅以升\t茅以升\n茅厕里的石头\t茅廁裡的石頭\n茅台\t茅臺\n茅台酒\t茅臺酒\n茅舍\t茅舍\n茅针\t茅針\n茈胡\t茈胡\n茉莉克\t茉莉克\n茎干\t莖幹\n茑萝施乔松\t蔦蘿施喬松\n茧栗\t繭栗\n茧纤维\t繭纖維\n茨万吉拉伊\t茨萬吉拉伊\n茫茫荡荡\t茫茫蕩蕩\n茱丽叶\t茱麗葉\n茵借\t茵藉\n茶余\t茶餘\n茶几\t茶几\n茶卤\t茶滷\n茶叶\t茶葉\n茶叶末\t茶葉末\n茶叶末儿\t茶葉末兒\n茶叶碱\t茶葉鹼\n茶叶罐\t茶葉罐\n茶叶蛋\t茶葉蛋\n茶已干\t茶已乾\n茶庄\t茶莊\n茶庄里\t茶莊裡\n茶托\t茶托\n茶杯\t茶杯\n茶毛虫\t茶毛蟲\n茶社里\t茶社裡\n茶里王\t茶裡王\n茶面\t茶麵\n茶面子\t茶麵子\n茶馀酒后\t茶餘酒後\n茶馀饭后\t茶餘飯後\n茹志鹃\t茹志鵑\n荅布\t荅布\n荆尸\t荊尸\n荆布\t荊布\n荆钗布袄\t荊釵布襖\n荆钗布裙\t荊釵布裙\n荆钗裙布\t荊釵裙布\n草丛里\t草叢裡\n草原千里\t草原千里\n草台班子\t草臺班子\n草叶\t草葉\n草叶集\t草葉集\n草团瓢\t草團瓢\n草头药\t草頭藥\n草字汇\t草字彙\n草履虫\t草履蟲\n草席\t草蓆\n草庵\t草菴\n草枝摆\t草枝擺\n草签\t草簽\n草舍\t草舍\n草草了事\t草草了事\n草荐\t草荐\n草药\t草藥\n草药方\t草藥方\n草莓干\t草莓乾\n草虫\t草蟲\n荐居\t荐居\n荐臻\t荐臻\n荐饥\t荐饑\n荑手纤纤\t荑手纖纖\n荒了\t荒了\n荒年谷\t荒年穀\n荒无人烟\t荒無人煙\n荒烟漫草\t荒煙漫草\n荒烟蔓草\t荒煙蔓草\n荒腔走板\t荒腔走板\n荔枝干\t荔枝乾\n荞面\t蕎麵\n荞麦面\t蕎麥麵\n荡产\t蕩產\n荡产倾家\t蕩產傾家\n荡出\t盪出\n荡到\t盪到\n荡口\t盪口\n荡垢涤污\t盪垢滌污\n荡女\t蕩女\n荡妇\t蕩婦\n荡子\t蕩子\n荡寇\t蕩寇\n荡寒\t盪寒\n荡尽\t蕩盡\n荡平\t蕩平\n荡开\t盪開\n荡心\t蕩心\n荡志\t蕩志\n荡悠悠\t盪悠悠\n荡散\t蕩散\n荡来荡去\t盪來盪去\n荡析\t蕩析\n荡析离居\t蕩析離居\n荡检逾闲\t蕩檢逾閑\n荡气回肠\t蕩氣迴腸\n荡气回阳\t蕩氣迴陽\n荡涤\t盪滌\n荡漾\t盪漾\n荡漾出\t盪漾出\n荡潏\t蕩潏\n荡然\t蕩然\n荡然无存\t蕩然無存\n荡瑕涤秽\t蕩瑕滌穢\n荡田\t蕩田\n";

/// Part 121 of the text.
pub const ST_PHRASES_121: &'static str = "荡秋千\t盪鞦韆\n荡舟\t盪舟\n荡船\t盪船\n荡荡\t蕩蕩\n荡荡悠悠\t盪盪悠悠\n荡覆\t蕩覆\n荡酒\t盪酒\n荡风\t盪風\n荣升\t榮升\n荣幸\t榮幸\n荣幸之至\t榮幸之至\n荣归故里\t榮歸故里\n荣登后座\t榮登后座\n荣获\t榮獲\n荣获冠军\t榮獲冠軍\n荤油蒙了心\t葷油蒙了心\n荦确\t犖确\n荧郁\t熒鬱\n荫庇\t廕庇\n荫生\t廕生\n荫监\t廕監\n荫蔽\t蔭蔽\n荫袭\t廕襲\n药专\t藥專\n药业\t藥業\n药丸\t藥丸\n药事法\t藥事法\n药价\t藥價\n药价差\t藥價差\n药典\t藥典\n药兽\t藥獸\n药农\t藥農\n药到命除\t藥到命除\n药到回春\t藥到回春\n药到病除\t藥到病除\n药剂\t藥劑\n药剂士\t藥劑士\n药剂学\t藥劑學\n药剂师\t藥劑師\n药剂量\t藥劑量\n药力\t藥力\n药包\t藥包\n药医\t藥醫\n药医不死病佛度有缘人\t藥醫不死病佛度有緣人\n药医学系\t藥醫學系\n药单\t藥單\n药厂\t藥廠\n药叉\t藥叉\n药发傀儡\t藥發傀儡\n药吊子\t藥吊子\n药名\t藥名\n药味\t藥味\n药品\t藥品\n药品店\t藥品店\n药商\t藥商\n药壶\t藥壺\n药头\t藥頭\n药妆\t藥妝\n药妆品\t藥妝品\n药妆店\t藥妝店\n药婆\t藥婆\n药学\t藥學\n药学专科学校\t藥學專科學校\n药学系\t藥學系\n药害\t藥害\n药局\t藥局\n药师\t藥師\n药师佛\t藥師佛\n药师如来\t藥師如來\n药师经\t藥師經\n药师节\t藥師節\n药店\t藥店\n药引\t藥引\n药引子\t藥引子\n药性\t藥性\n药性气\t藥性氣\n药房\t藥房\n药房里\t藥房裡\n药捻子\t藥捻子\n药政处\t藥政處\n药效\t藥效\n药效持久\t藥效持久\n药方\t藥方\n药方儿\t藥方兒\n药明康德\t藥明康德\n药末\t藥末\n药杀\t藥殺\n药材\t藥材\n药械\t藥械\n药检\t藥檢\n药检局\t藥檢局\n药棉\t藥棉\n药死\t藥死\n药水\t藥水\n药水儿\t藥水兒\n药水味\t藥水味\n药汁\t藥汁\n药油\t藥油\n药法\t藥法\n药浴\t藥浴\n药液\t藥液\n药渣\t藥渣\n药片\t藥片\n药物\t藥物\n药物中毒\t藥物中毒\n药物学\t藥物學\n药物学家\t藥物學家\n药物成瘾\t藥物成癮\n药物治疗\t藥物治療\n药王\t藥王\n药王菩萨\t藥王菩薩\n药理\t藥理\n药理学\t藥理學\n药瓶\t藥瓶\n药瓶子\t藥瓶子\n药用\t藥用\n药用价值\t藥用價值\n药用植物\t藥用植物\n药疗\t藥療\n药疹\t藥疹\n药瘾\t藥癮\n药皂\t藥皂\n药监局\t藥監局\n药盒\t藥盒\n药石\t藥石\n药石之言\t藥石之言\n药石罔效\t藥石罔效\n药科\t藥科\n药笼中物\t藥籠中物\n药筒\t藥筒\n药签\t藥籤\n药箭\t藥箭\n药箱\t藥箱\n药粉\t藥粉\n药糖\t藥糖\n药线\t藥線\n药罐\t藥罐\n药罐子\t藥罐子\n药而愈\t藥而癒\n药膏\t藥膏\n药膛\t藥膛\n药膳\t藥膳\n药茶\t藥茶\n药草\t藥草\n药草茶\t藥草茶\n药行\t藥行\n药衡\t藥衡\n药衣子\t藥衣子\n药补\t藥補\n药袋\t藥袋\n药裹关心\t藥裹關心\n药言\t藥言\n药贩\t藥販\n药贴\t藥貼\n药费\t藥費\n药酒\t藥酒\n药量\t藥量\n药针\t藥針\n药铺\t藥鋪\n药锭\t藥錠\n药面儿\t藥麵兒\n药食同源\t藥食同源\n药饵\t藥餌\n药饼\t藥餅\n药骰\t藥骰\n荷叶\t荷葉\n荷叶先师\t荷葉先師\n荷叶肉\t荷葉肉\n荷尔蒙\t荷爾蒙\n荷花出水\t荷花出水\n荷花淀\t荷花澱\n荷里活\t荷里活\n荷雷克\t荷雷克\n莎玛海耶克\t莎瑪海耶克\n莒光周\t莒光週\n莜面\t莜麵\n莫三比克\t莫三比克\n莫三比克人民共和国\t莫三比克人民共和國\n莫乃耳合金\t莫乃耳合金\n莫余毒也\t莫余毒也\n莫信直中直须防人不仁\t莫信直中直須防人不仁\n莫克姆湾\t莫克姆灣\n莫吉托\t莫吉托\n莫布里\t莫布里\n莫干山\t莫干山\n莫当\t莫當\n莫扎里拉\t莫扎里拉\n莫折大提\t莫折大提\n莫报万一\t莫報萬一\n莫曼斯克\t莫曼斯克\n莫杰斯特\t莫傑斯特\n莫管闲事\t莫管閒事\n莫索里尼\t莫索里尼\n莫荷不连续面\t莫荷不連續面\n莫莉克\t莫莉克\n莫蹪于山而蹪于垤\t莫蹪於山而蹪於垤\n莫辨楮叶\t莫辨楮葉\n莫过于\t莫過於\n莫里\t莫里\n莫里叶\t莫里葉\n莫里哀\t莫里哀\n莫里尼奥\t莫里尼奧\n莫里希\t莫里希\n莫里斯\t莫里斯\n莫里森\t莫里森\n莫里纳\t莫里納\n莫霍洛维奇不连续面\t莫霍洛維奇不連續面\n莫霍面\t莫霍面\n莫须\t莫須\n莫须有\t莫須有\n莱布尼兹\t萊布尼茲\n莱彩\t萊彩\n莱彩北堂\t萊綵北堂\n莱德杯\t萊德杯\n莱里达\t萊里達\n莲台\t蓮臺\n莲叶\t蓮葉\n莲开并蒂\t蓮開並蒂\n莲须\t蓮鬚\n获准\t獲准\n获刑\t獲刑\n获判\t獲判\n获判无罪\t獲判無罪\n获利\t獲利\n获利倍蓰\t獲利倍蓰\n获利率\t獲利率\n获利王\t獲利王\n获到\t獲到\n获匪其丑\t獲匪其醜\n获取\t獲取\n获咎\t獲咎\n获嘉\t獲嘉\n获嘉县\t獲嘉縣\n获奖\t獲獎\n获奖人\t獲獎人\n获奖率\t獲獎率\n获奖者\t獲獎者\n获得\t獲得\n获得四\t獲得四\n获得四坏\t獲得四壞\n获得性\t獲得性\n获得者\t獲得者\n获得胜利\t獲得勝利\n获悉\t獲悉\n获戾\t獲戾\n获报\t獲報\n获捷\t獲捷\n获救\t獲救\n获暴利者\t獲暴利者\n获有\t獲有\n获益\t獲益\n获益不浅\t獲益不淺\n获益匪浅\t獲益匪淺\n获益者\t獲益者\n获益良多\t獲益良多\n获知\t獲知\n获罪\t獲罪\n获胜\t獲勝\n获胜者\t獲勝者\n获致\t獲致\n获赠\t獲贈\n获赦\t獲赦\n获选\t獲選\n获选为\t獲選為\n获邀\t獲邀\n获释\t獲釋\n获颁\t獲頒\n获鹿\t獲鹿\n获鹿县\t獲鹿縣\n获鹿镇\t獲鹿鎮\n莺谷\t鶯谷\n莽卤\t莽鹵\n莽荡\t莽蕩\n菁英杯\t菁英盃\n菅野美穗\t菅野美穗\n菊坛\t菊壇\n菊秋\t菊秋\n菌丝体\t菌絲體\n菌托\t菌托\n菌核\t菌核\n菌种\t菌種\n菌胶团\t菌膠團\n菌血症\t菌血症\n菜干\t菜乾\n菜板\t菜板\n菜瓜布\t菜瓜布\n菜种\t菜種\n菜系\t菜系\n菜肴\t菜餚\n菜苔\t菜薹\n菜虫\t菜蟲\n菜青虫\t菜青蟲\n菠棱菜\t菠稜菜\n菠菜面\t菠菜麵\n菠萝干\t菠蘿乾\n菩提流志\t菩提流志\n菲佣\t菲傭\n菲利克斯\t菲利克斯\n菲力克斯\t菲力克斯\n菲尼克斯\t菲尼克斯\n菲德烈克\t菲德烈克\n菲才寡学\t菲才寡學\n菲舍尔\t菲舍爾\n菲茨杰拉德\t菲茨傑拉德\n菲衣恶食\t菲衣惡食\n萌发\t萌發\n萎缩症\t萎縮症\n萎雕\t萎雕\n萝卜\t蘿蔔\n萝卜头\t蘿蔔頭\n萝卜干\t蘿蔔乾\n萝卜精\t蘿蔔精\n萝卜精头上青\t蘿蔔精頭上青\n萝卜糕\t蘿蔔糕\n萝卜腿\t蘿蔔腿\n萤光板\t螢光板\n萤火虫\t螢火蟲\n萤火虫儿\t螢火蟲兒\n营养价值\t營養價值\n营养系\t營養系\n营干\t營幹\n营建厂\t營建廠\n营舍\t營舍\n营造出\t營造出\n营造出来\t營造出來\n营造厂\t營造廠\n营造厂商\t營造廠商\n萦回\t縈迴\n萦系\t縈繫\n萧万长\t蕭萬長\n萧参\t蕭參\n萧太后\t蕭太后\n萧娘\t蕭娘\n萧扎某\t蕭扎某\n萧玮志\t蕭瑋志\n萧行范篆\t蕭行范篆\n萨克\t薩克\n萨克号\t薩克號\n萨克司风\t薩克司風\n萨克斯\t薩克斯\n萨克斯管\t薩克斯管\n萨克斯风\t薩克斯風\n萨克森\t薩克森\n萨克森州\t薩克森州\n萨克森邦\t薩克森邦\n萨克洛夫\t薩克洛夫\n萨克洛夫奖\t薩克洛夫獎\n萨克管\t薩克管\n萨克逊\t薩克遜\n萨克逊人\t薩克遜人\n萨列里\t薩列里\n萨尔布吕肯\t薩爾布呂肯\n萨巴托\t薩巴托\n萨布里\t薩布里\n萨布里多\t薩布里多\n萨格勒布\t薩格勒布\n萨瓦里\t薩瓦里\n萨蒂\t薩蒂\n萨迪克\t薩迪克\n萨里\t薩里\n萨里郡\t薩里郡\n落个直过儿\t落個直過兒\n";

/// Part 122 of the text.
pub const ST_PHRASES_122: &'static str = "落了\t落了\n落了灶\t落了灶\n落于\t落於\n落于下风\t落於下風\n落价\t落價\n落卷\t落卷\n落发\t落髮\n落发为僧\t落髮為僧\n落台\t落臺\n落叶\t落葉\n落叶乔木\t落葉喬木\n落叶剂\t落葉劑\n落叶层\t落葉層\n落叶归根\t落葉歸根\n落叶归根家\t落葉歸根家\n落叶松\t落葉松\n落叶林\t落葉林\n落叶果树\t落葉果樹\n落叶树\t落葉樹\n落叶植物\t落葉植物\n落叶知秋\t落葉知秋\n落后\t落後\n落后国家\t落後國家\n落在后面\t落在後面\n落地签\t落地簽\n落地签证\t落地簽證\n落托\t落托\n落月屋梁\t落月屋樑\n落腮胡\t落腮鬍\n落落寡合\t落落寡合\n落落难合\t落落難合\n葑菲之采\t葑菲之采\n著录\t著錄\n著志\t著志\n著称于世\t著稱於世\n葛兰素史克\t葛蘭素史克\n葛布\t葛布\n葛托维纳\t葛托維納\n葛拉斯里\t葛拉斯里\n葛斯范桑\t葛斯范桑\n葛罗托斯基\t葛羅托斯基\n葛里芬\t葛里芬\n葡占\t葡佔\n葡萄叶银莲花\t葡萄葉銀蓮花\n葡萄干\t葡萄乾\n葡萄干儿\t葡萄乾兒\n董氏封发\t董氏封髮\n董里府\t董里府\n葫芦谷\t葫蘆谷\n葫芦里卖甚么药\t葫蘆裡賣甚麼藥\n葫芦里卖的甚么药\t葫蘆裡賣的甚麼藥\n葱姜蒜\t蔥薑蒜\n葱油面\t蔥油麵\n葱胡子\t蔥鬍子\n葱葱郁郁\t蔥蔥郁郁\n葱郁\t蔥鬱\n葵涌\t葵涌\n蒂森克虏伯\t蒂森克虜伯\n蒋国梁\t蔣國樑\n蒋干\t蔣幹\n蒋百里\t蔣百里\n蒋舍三径\t蔣舍三徑\n蒌叶\t蔞葉\n蒙一饭之恩尚杀身以报\t蒙一飯之恩尚殺身以報\n蒙上\t蒙上\n蒙主宠召\t蒙主寵召\n蒙事\t矇事\n蒙人\t蒙人\n蒙代尔\t蒙代爾\n蒙住\t矇住\n蒙兀儿\t蒙兀兒\n蒙兀儿帝国\t蒙兀兒帝國\n蒙养\t蒙養\n蒙冤\t蒙冤\n蒙冲\t蒙衝\n蒙受\t蒙受\n蒙叟\t蒙叟\n蒙古\t蒙古\n蒙古人\t蒙古人\n蒙古人民共和国\t蒙古人民共和國\n蒙古人种\t蒙古人種\n蒙古儿\t蒙古兒\n蒙古利亚\t蒙古利亞\n蒙古包\t蒙古包\n蒙古国\t蒙古國\n蒙古地方\t蒙古地方\n蒙古大夫\t蒙古大夫\n蒙古帝国\t蒙古帝國\n蒙古文\t蒙古文\n蒙古斑\t蒙古斑\n蒙古族\t蒙古族\n蒙古症\t蒙古症\n蒙古话\t蒙古話\n蒙古语\t蒙古語\n蒙古高原\t蒙古高原\n蒙台梭利\t蒙臺梭利\n蒙吏\t蒙吏\n蒙哄\t蒙哄\n蒙哥\t蒙哥\n蒙哥马利\t蒙哥馬利\n蒙嘉慧\t蒙嘉慧\n蒙在\t蒙在\n蒙在鼓里\t矇在鼓裡\n蒙地卡罗\t蒙地卡羅\n蒙坑\t蒙坑\n蒙垢\t蒙垢\n蒙城\t蒙城\n蒙城县\t蒙城縣\n蒙塔丝\t蒙塔絲\n蒙塔尼斯\t蒙塔尼斯\n蒙塔斯\t蒙塔斯\n蒙塔达\t蒙塔達\n蒙大拿\t蒙大拿\n蒙大拿州\t蒙大拿州\n蒙太奇\t蒙太奇\n蒙太奇电影\t蒙太奇電影\n蒙头\t矇頭\n蒙头大睡\t矇頭大睡\n蒙头衲被\t矇頭衲被\n蒙头转\t矇頭轉\n蒙头转向\t矇頭轉向\n蒙娜丽莎\t蒙娜麗莎\n蒙学\t蒙學\n蒙尘\t蒙塵\n蒙山\t蒙山\n蒙山县\t蒙山縣\n蒙巴萨\t蒙巴薩\n蒙巴顿\t蒙巴頓\n蒙师\t蒙師\n蒙帕纳斯\t蒙帕納斯\n蒙席\t蒙席\n蒙庄\t蒙莊\n蒙彼利埃\t蒙彼利埃\n蒙得维的亚\t蒙得維的亞\n蒙恩\t蒙恩\n蒙恬\t蒙恬\n蒙恬造笔\t蒙恬造筆\n蒙懂\t懞懂\n蒙戎\t蒙戎\n蒙托罗拉\t蒙托羅拉\n蒙拾\t蒙拾\n蒙故业\t蒙故業\n蒙文\t蒙文\n蒙族\t蒙族\n蒙昧\t矇昧\n蒙昧不清\t濛昧不清\n蒙昧无知\t矇昧無知\n蒙松雨\t濛鬆雨\n蒙求\t蒙求\n蒙汗药\t蒙汗藥\n蒙汜\t濛汜\n蒙混\t矇混\n蒙混过关\t矇混過關\n蒙爱\t蒙愛\n蒙牛\t蒙牛\n蒙特\t蒙特\n蒙特内哥罗\t蒙特內哥羅\n蒙特利\t蒙特利\n蒙特利尔\t蒙特利爾\n蒙特卡洛\t蒙特卡洛\n蒙特卡洛法\t蒙特卡洛法\n蒙特卡罗\t蒙特卡羅\n蒙特卡罗方法\t蒙特卡羅方法\n蒙特塞拉特\t蒙特塞拉特\n蒙特娄\t蒙特婁\n蒙特维多\t蒙特維多\n蒙特贝娄\t蒙特貝婁\n蒙特雷\t蒙特雷\n蒙特鲁\t蒙特魯\n蒙狄维欧\t蒙狄維歐\n蒙田\t蒙田\n蒙皮\t蒙皮\n蒙盖\t蒙蓋\n蒙直\t懞直\n蒙眬\t矇矓\n蒙眼\t矇眼\n蒙瞍\t矇瞍\n蒙稚\t蒙稚\n蒙童\t蒙童\n蒙笼\t蒙籠\n蒙笼暗碧\t蒙籠暗碧\n蒙络\t蒙絡\n蒙罗维亚\t蒙羅維亞\n蒙羞\t蒙羞\n蒙聩\t矇聵\n蒙胞\t蒙胞\n蒙脸\t蒙臉\n蒙自\t蒙自\n蒙自县\t蒙自縣\n蒙茏\t蒙蘢\n蒙药\t蒙藥\n蒙菲尔斯\t蒙菲爾斯\n蒙蒙\t濛濛\n蒙蒙亮\t矇矇亮\n蒙蒙懂懂\t懞懞懂懂\n蒙蒙眬眬\t矇矇矓矓\n蒙蒙细雨\t濛濛細雨\n蒙蒙谷\t濛濛谷\n蒙蒙黑\t矇矇黑\n蒙蔽\t矇蔽\n蒙藏\t蒙藏\n蒙藏同胞\t蒙藏同胞\n蒙藏委员\t蒙藏委員\n蒙藏委员会\t蒙藏委員會\n蒙语\t蒙語\n蒙谷\t蒙谷\n蒙贝列\t蒙貝列\n蒙起\t蒙起\n蒙起来\t蒙起來\n蒙阴\t蒙陰\n蒙阴县\t蒙陰縣\n蒙难\t蒙難\n蒙难记\t蒙難記\n蒙雾\t濛霧\n蒙雾露\t濛霧露\n蒙面\t蒙面\n蒙面人\t蒙面人\n蒙面侠\t蒙面俠\n蒙面客\t蒙面客\n蒙馆\t蒙館\n蒙骗\t矇騙\n蒙鸿\t濛鴻\n蒜发\t蒜髮\n蒜苔\t蒜薹\n蒲团\t蒲團\n蒲扇价增\t蒲扇價增\n蒲松龄\t蒲松齡\n蒸了\t蒸了\n蒸便当\t蒸便當\n蒸发\t蒸發\n蒸发器\t蒸發器\n蒸发掉\t蒸發掉\n蒸发散\t蒸發散\n蒸发热\t蒸發熱\n蒸发皿\t蒸發皿\n蒸发空调\t蒸發空調\n蒸发计\t蒸發計\n蒸发量\t蒸發量\n蒸干\t蒸乾\n蒸汽熨斗\t蒸汽熨斗\n蒸沤历澜\t蒸漚歷瀾\n蒸藜出妻\t蒸藜出妻\n蒸面\t蒸麵\n蒸骨验尸\t蒸骨驗屍\n蒿里\t蒿里\n蓄势待发\t蓄勢待發\n蓄发\t蓄髮\n蓄志\t蓄志\n蓄胡\t蓄鬍\n蓄长发\t蓄長髮\n蓄须\t蓄鬚\n蓄须明志\t蓄鬚明志\n蓊郁\t蓊鬱\n蓝发\t藍髮\n蓝布\t藍布\n蓝托斯\t藍托斯\n蓝板\t藍板\n蓝淀\t藍澱\n蓝田出玉\t藍田出玉\n蓝田种玉\t藍田種玉\n蓝胡子\t藍鬍子\n蓝色系\t藍色系\n蓝采和\t藍采和\n蓟训历家\t薊訓歷家\n蓦然回首\t驀然回首\n蓬勃发展\t蓬勃發展\n蓬发\t蓬髮\n蓬头垢面\t蓬頭垢面\n蓬松\t蓬鬆\n蓬蓬松松\t蓬蓬鬆鬆\n蓬门荆布\t蓬門荊布\n蓬首垢面\t蓬首垢面\n蔑如\t蔑如\n蔑弃\t蔑棄\n蔑称\t蔑稱\n蔑蒙\t蔑蒙\n蔑视\t蔑視\n蔗板\t蔗板\n蔡丰州\t蔡豐州\n蔡仰秋\t蔡仰秋\n蔡克嵩\t蔡克嵩\n蔡同荣\t蔡同榮\n蔡志忠\t蔡志忠\n蔡志杰\t蔡志傑\n蔡文丰\t蔡文豐\n蔡松坡\t蔡松坡\n蔡清游\t蔡清遊\n蔡秋炎\t蔡秋炎\n蔡细历\t蔡細歷\n蔷薇十字团\t薔薇十字團\n蔼彩\t藹彩\n蔽形术\t蔽形術\n蔽面\t蔽面\n蕃薯叶\t蕃薯葉\n蕈状云\t蕈狀雲\n蕉叶\t蕉葉\n蕉布\t蕉布\n蕲向\t蘄向\n蕴借\t蘊藉\n蕴借含蓄\t蘊藉含蓄\n蕴奇待价\t蘊奇待價\n薄云\t薄雲\n薄干\t薄幹\n薄幸\t薄倖\n薄幸人\t薄倖人\n薄恶\t薄惡\n薄曲\t薄曲\n薄松松\t薄鬆鬆\n薄板\t薄板\n薄海同仇\t薄海同仇\n薄荷叶\t薄荷葉\n薄面\t薄面\n薄面含嗔\t薄面含嗔\n薙发\t薙髮\n薙发令\t薙髮令\n薛仁贵\t薛仁貴\n薛松干\t薛松乾\n薝卜\t薝蔔\n薪尽火传\t薪盡火傳\n薪资表\t薪資表\n薰修\t薰脩\n薰莸不同器\t薰蕕不同器\n薰莸同器\t薰蕕同器\n藉资挹注\t藉資挹注\n藏于\t藏於\n藏匿于\t藏匿於\n藏南纵谷\t藏南縱谷\n藏历\t藏曆\n藏奸\t藏奸\n藏尸\t藏屍\n藏幸\t藏幸\n藏蒙歌儿\t藏矇歌兒\n藏量丰富\t藏量豐富\n藏针缝\t藏針縫\n藕覆\t藕覆\n藜藿不采\t藜藿不採\n藤制\t藤製\n藩台\t藩臺\n蘑菇云\t蘑菇雲\n虎克\t虎克\n虎克党\t虎克黨\n虎克定律\t虎克定律\n虎兕出柙\t虎兕出柙\n虎山艺术馆\t虎山藝術館\n虎据\t虎據\n虎斗\t虎鬥\n虎斗龙争\t虎鬥龍爭\n";

/// Part 123 of the text.
pub const ST_PHRASES_123: &'static str = "虎甲虫\t虎甲蟲\n虎皮松\t虎皮松\n虎荡羊群\t虎蕩羊群\n虎须\t虎鬚\n虏获\t虜獲\n虑周行果\t慮周行果\n虑无不周\t慮無不周\n虚云大师\t虛雲大師\n虚冲\t虛沖\n虚发\t虛發\n虚夸\t虛誇\n虚心使人进步骄傲使人落后\t虛心使人進步驕傲使人落後\n虚怀若谷\t虛懷若谷\n虚拟通道标志符\t虛擬通道標誌符\n虚有其表\t虛有其表\n虚症\t虛症\n虚荡\t虛蕩\n虞歌决别\t虞歌決別\n虫书\t蟲書\n虫体\t蟲體\n虫儿\t蟲兒\n虫出\t蟲出\n虫卵\t蟲卵\n虫吃牙\t蟲吃牙\n虫声\t蟲聲\n虫媒病毒\t蟲媒病毒\n虫媒花\t蟲媒花\n虫子\t蟲子\n虫子牙\t蟲子牙\n虫孔\t蟲孔\n虫字旁儿\t蟲字旁兒\n虫害\t蟲害\n虫情\t蟲情\n虫沙微类\t蟲沙微類\n虫沙猿鹤\t蟲沙猿鶴\n虫漆\t蟲漆\n虫灾\t蟲災\n虫牙\t蟲牙\n虫瘿\t蟲癭\n虫白蜡\t蟲白蠟\n虫眼\t蟲眼\n虫篆\t蟲篆\n虫篆之技\t蟲篆之技\n虫类\t蟲類\n虫胶\t蟲膠\n虫臂鼠肝\t蟲臂鼠肝\n虫虫\t蟲蟲\n虫虫蚁蚁\t蟲蟲蟻蟻\n虫蚀\t蟲蝕\n虫蚁\t蟲蟻\n虫蛭\t蟲蛭\n虫豸\t蟲豸\n虫部\t虫部\n虫霜水旱\t蟲霜水旱\n虫鱼\t蟲魚\n虫鸟叫声\t蟲鳥叫聲\n虫鸣\t蟲鳴\n虫鸣水沸\t蟲鳴水沸\n虬须\t虯鬚\n虮虱相吊\t蟣蝨相弔\n虱多了不咬债多了不愁\t蝨多了不咬債多了不愁\n虱目鱼\t虱目魚\n虹彩\t虹彩\n虹彩流辉\t虹彩流輝\n虹彩炎\t虹彩炎\n虹彩膜\t虹彩膜\n虽覆能复\t雖覆能復\n虾仁面\t蝦仁麵\n虾干\t蝦乾\n虾球面\t蝦球麵\n虾蟆跳在戥盘子里\t蝦蟆跳在戥盤子裡\n虾须\t蝦鬚\n蚀船虫\t蝕船蟲\n蚁合\t蟻合\n蚁后\t蟻后\n蚁斗蜗争\t蟻鬥蝸爭\n蚁术\t蟻術\n蚃干\t蠁幹\n蚊动牛斗\t蚊動牛鬥\n蚊子遭扇打只为嘴伤人\t蚊子遭扇打只為嘴傷人\n蚊睫之虫\t蚊睫之蟲\n蚊虫\t蚊蟲\n蚊虫叮咬\t蚊蟲叮咬\n蚕种\t蠶種\n蚕豆症\t蠶豆症\n蚜虫\t蚜蟲\n蚝涌\t蠔涌\n蚵仔面线\t蚵仔麵線\n蛀虫\t蛀蟲\n蛆虫\t蛆蟲\n蛇发女妖\t蛇髮女妖\n蛇口蜂针\t蛇口蜂針\n蛇皮松\t蛇皮松\n蛇纹岩\t蛇紋岩\n蛇绿岩\t蛇綠岩\n蛇绿混杂岩\t蛇綠混雜岩\n蛇绿混杂岩带\t蛇綠混雜岩帶\n蛋卷\t蛋卷\n蛋彩画\t蛋彩畫\n蛋杯\t蛋杯\n蛏干\t蟶乾\n蛓毛虫\t蛓毛蟲\n蛔虫\t蛔蟲\n蛔虫病\t蛔蟲病\n蛔虫症\t蛔蟲症\n蛔虫药\t蛔蟲藥\n蛙鼓虫吟\t蛙鼓蟲吟\n蛟龙得云雨\t蛟龍得雲雨\n蛮干\t蠻幹\n蛮干净\t蠻乾淨\n蛮干到底\t蠻幹到底\n蛮干爽\t蠻乾爽\n蛮针瞎灸\t蠻針瞎灸\n蛰虫\t蟄蟲\n蛲虫\t蟯蟲\n蛲虫病\t蟯蟲病\n蜀党\t蜀黨\n蜂准\t蜂準\n蜂出\t蜂出\n蜂午并起\t蜂午並起\n蜂后\t蜂后\n蜂巢式行动电话系统\t蜂巢式行動電話系統\n蜂涌而出\t蜂湧而出\n蜂蒙\t蜂蒙\n蜂蜡\t蜂蠟\n蜗杆\t蝸桿\n蜗舍\t蝸舍\n蜜蜡\t蜜蠟\n蜜里调油\t蜜裡調油\n蜡丸\t蠟丸\n蜡书\t蠟書\n蜡人\t蠟人\n蜡人馆\t蠟人館\n蜡像\t蠟像\n蜡像馆\t蠟像館\n蜡光纸\t蠟光紙\n蜡原型\t蠟原型\n蜡台\t蠟臺\n蜡嘴\t蠟嘴\n蜡坨儿\t蠟坨兒\n蜡坨子\t蠟坨子\n蜡头儿\t蠟頭兒\n蜡封\t蠟封\n蜡屐\t蠟屐\n蜡布\t蠟布\n蜡弹\t蠟彈\n蜡扦\t蠟扦\n蜡月\t蜡月\n蜡本\t蠟本\n蜡板\t蠟板\n蜡果\t蠟果\n蜡枪头\t蠟槍頭\n蜡染\t蠟染\n蜡查\t蠟查\n蜡梅\t蠟梅\n蜡油\t蠟油\n蜡泪\t蠟淚\n蜡渣\t蠟渣\n蜡灯\t蠟燈\n蜡炬\t蠟炬\n蜡烛\t蠟燭\n蜡烛不点不亮\t蠟燭不點不亮\n蜡烛台\t蠟燭臺\n蜡烛油\t蠟燭油\n蜡烛相\t蠟燭相\n蜡烛线\t蠟燭線\n蜡版\t蠟版\n蜡珀\t蠟珀\n蜡画\t蠟畫\n蜡疗\t蠟療\n蜡皮\t蠟皮\n蜡祭\t蜡祭\n蜡笔\t蠟筆\n蜡笔小新\t蠟筆小新\n蜡笔画\t蠟筆畫\n蜡笺\t蠟箋\n蜡纸\t蠟紙\n蜡膏\t蠟膏\n蜡膜\t蠟膜\n蜡芯儿\t蠟芯兒\n蜡花\t蠟花\n蜡茶\t蠟茶\n蜡虫\t蠟蟲\n蜡蜂\t蠟蜂\n蜡诏\t蠟詔\n蜡质\t蠟質\n蜡铺\t蠟鋪\n蜡黄\t蠟黃\n蜡黄色\t蠟黃色\n蜰虫\t蜰蟲\n蜷曲\t蜷曲\n蝎谮\t蠍譖\n蝗虫\t蝗蟲\n蝗虫过境\t蝗蟲過境\n蝴蝶谷\t蝴蝶谷\n蝼蚁得志\t螻蟻得志\n融合\t融合\n融合为\t融合為\n融合为一\t融合為一\n融合式\t融合式\n融合式翼梢小翼\t融合式翼梢小翼\n融合线\t融合線\n融汇\t融匯\n螟虫\t螟蟲\n螫针\t螫針\n螳臂当车\t螳臂當車\n螳螂捕蝉黄雀在后\t螳螂捕蟬黃雀在後\n螹胡\t螹胡\n螺旋千斤顶\t螺旋千斤頂\n螺旋曲面\t螺旋曲面\n螺旋杆菌\t螺旋桿菌\n螺旋面\t螺旋麵\n螺杆\t螺桿\n螽斯之征\t螽斯之徵\n螾庐曲谈\t螾廬曲談\n蟠尾丝虫\t蟠尾絲蟲\n蟠尾丝虫症\t蟠尾絲蟲症\n蟠据\t蟠據\n蟠曲\t蟠曲\n蟠桃胜会\t蟠桃勝會\n蟠采\t蟠采\n蟠龙松\t蟠龍松\n蟪蛄不知春秋\t蟪蛄不知春秋\n蟭蟟虫\t蟭蟟蟲\n蟹黄鲍鱼面\t蟹黃鮑魚麵\n蟾宫折桂\t蟾宮折桂\n蟾彩\t蟾彩\n蠓虫\t蠓蟲\n蠕虫\t蠕蟲\n蠕虫形\t蠕蟲形\n蠢虫\t蠢蟲\n蠢蠢欲动\t蠢蠢欲動\n蠹书虫\t蠹書蟲\n蠹众木折\t蠹眾木折\n蠹众而木折隙大而墙坏\t蠹眾而木折隙大而牆壞\n蠹啄剖梁柱\t蠹啄剖樑柱\n蠹虫\t蠹蟲\n血亲复仇\t血親復仇\n血仇\t血仇\n血余\t血餘\n血克帮帮\t血克幫幫\n血制品\t血製品\n血参\t血參\n血吸虫\t血吸蟲\n血吸虫病\t血吸蟲病\n血小板\t血小板\n血已干\t血已乾\n血才干\t血才乾\n血栓症\t血栓症\n血汗工厂\t血汗工廠\n血流如注\t血流如注\n血浓于水\t血濃於水\n血海尸山\t血海屍山\n血海深仇\t血海深仇\n血海里\t血海裡\n血液恐怖症\t血液恐怖症\n血症\t血症\n血线虫\t血線蟲\n血缘关系\t血緣關係\n血肉淋漓\t血肉淋漓\n血胄\t血胄\n血胡同\t血衚衕\n血脂升高症\t血脂升高症\n血色素沉积症\t血色素沉積症\n血霉\t血霉\n衅发萧墙\t釁發蕭牆\n衅恶\t釁惡\n衅钟\t釁鐘\n衅面\t釁面\n行万里路\t行萬里路\n行万里路胜读万卷书\t行萬里路勝讀萬卷書\n行万里路读万卷书\t行萬里路讀萬卷書\n行不苟合\t行不苟合\n行业别\t行業別\n行业规范\t行業規範\n行个方便\t行個方便\n行为世范\t行為世範\n行为准则\t行為準則\n行为艺术\t行為藝術\n行为艺术者\t行為藝術者\n行为规范\t行為規範\n行了\t行了\n行事历\t行事曆\n行事历史\t行事歷史\n行于\t行於\n行云\t行雲\n行云流水\t行雲流水\n行伍出身\t行伍出身\n行佣\t行佣\n行修寺\t行修寺\n行兵布阵\t行兵佈陣\n行凶\t行兇\n行凶前\t行兇前\n行凶后\t行兇後\n行凶杀人\t行兇殺人\n行凶者\t行兇者\n行动党\t行動黨\n行动计划\t行動計劃\n行千里路读万卷书\t行千里路讀萬卷書\n行卷\t行卷\n行台\t行臺\n行合趋同\t行合趨同\n行同\t行同\n行同狗彘\t行同狗彘\n行同狗豨\t行同狗豨\n行善不欲人知\t行善不欲人知\n行复\t行復\n行奸卖俏\t行奸賣俏\n行尸\t行屍\n行尸视肉\t行屍視肉\n行尸走肉\t行屍走肉\n行尸走骨\t行屍走骨\n行幸\t行幸\n行当\t行當\n行径\t行徑\n行志\t行志\n行情价\t行情價\n行情表\t行情表\n行成于思\t行成於思\n行政区划\t行政區劃\n行政区划图\t行政區劃圖\n行政当局\t行政當局\n行政系\t行政系\n行政诉愿\t行政訴願\n行有余力\t行有餘力\n行李卷\t行李捲\n行板\t行板\n行游\t行遊\n行百里\t行百里\n行百里者半于九十\t行百里者半於九十\n行短才乔\t行短才喬\n行短才高\t行短才高\n行程表\t行程表\n行药\t行藥\n行行出状元\t行行出狀元\n";

/// Part 124 of the text.
pub const ST_PHRASES_124: &'static str = "行针\t行針\n行针布线\t行針佈線\n行针走线\t行針走線\n行雨朝云\t行雨朝雲\n衍声复词\t衍聲複詞\n衍极\t衍極\n衍生\t衍生\n衍生出\t衍生出\n衍生出来\t衍生出來\n衔哀致诚\t銜哀致誠\n衔恨蒙枉\t銜恨蒙枉\n衔缺相当\t銜缺相當\n街坊邻舍\t街坊鄰舍\n街坊邻里\t街坊鄰里\n街道里\t街道裡\n街里街坊\t街里街坊\n街面儿\t街面兒\n衡量制\t衡量制\n衣不兼采\t衣不兼采\n衣不完采\t衣不完采\n衣不布体\t衣不布體\n衣不重采\t衣不重采\n衣丰食足\t衣豐食足\n衣丰食饱\t衣豐食飽\n衣冠云集\t衣冠雲集\n衣扣\t衣釦\n衣摆\t衣襬\n衣斗木\t衣斗木\n衣柜\t衣櫃\n衣物已干\t衣物已乾\n衣物柜\t衣物櫃\n衣物渐干\t衣物漸乾\n衣绣昼行\t衣繡晝行\n衣衫已干\t衣衫已乾\n衣锦夜游\t衣錦夜游\n衣锦昼游\t衣錦晝游\n补于\t補於\n补修\t補修\n补发\t補發\n补回\t補回\n补回来\t補回來\n补扣\t補釦\n补挂朝珠\t補掛朝珠\n补气固表\t補氣固表\n补注\t補註\n补票价\t補票價\n补种\t補種\n补药\t補藥\n补血药\t補血藥\n补血针\t補血針\n补针\t補針\n表亲\t表親\n表仪\t表儀\n表件\t表件\n表侄\t表侄\n表停\t錶停\n表兄\t表兄\n表兄弟\t表兄弟\n表册\t表冊\n表冠\t錶冠\n表决\t表決\n表决权\t表決權\n表出\t表出\n表出来\t表出來\n表列\t表列\n表列出\t表列出\n表功\t表功\n表单\t表單\n表厂\t錶廠\n表叔\t表叔\n表同情\t表同情\n表哥\t表哥\n表唱\t表唱\n表土\t表土\n表土层\t表土層\n表壮不如里壮\t表壯不如裡壯\n表壳\t錶殼\n表壳儿\t錶殼兒\n表头\t表頭\n表奏\t表奏\n表妹\t表妹\n表姊\t表姊\n表姊妹\t表姊妹\n表姊家\t表姊家\n表姐\t表姐\n表姐妹\t表姐妹\n表姑\t表姑\n表姨\t表姨\n表姨父\t表姨父\n表姪\t表姪\n表婶\t表嬸\n表嫂\t表嫂\n表子\t表子\n表字\t表字\n表尺\t表尺\n表层\t表層\n表层水\t表層水\n表带\t錶帶\n表店\t錶店\n表弟\t表弟\n表形文字\t表形文字\n表彰\t表彰\n表彰出来\t表彰出來\n表征\t表徵\n表德\t表德\n表快\t錶快\n表态\t表態\n表态句\t表態句\n表情\t表情\n表意\t表意\n表意文字\t表意文字\n表意符阶段\t表意符階段\n表慢\t錶慢\n表扬\t表揚\n表扬大会\t表揚大會\n表报\t表報\n表揭\t表揭\n表文\t表文\n表明\t表明\n表明心迹\t表明心跡\n表显\t表顯\n表本\t表本\n表板\t錶板\n表格\t表格\n表格化公文\t表格化公文\n表款\t錶款\n表沃夫\t表沃夫\n表海\t表海\n表演\t表演\n表演会\t表演會\n表演区\t表演區\n表演厅\t表演廳\n表演性\t表演性\n表演欲\t表演慾\n表演秀\t表演秀\n表演给\t表演給\n表演艺术\t表演藝術\n表演赛\t表演賽\n表演过火\t表演過火\n表照\t表照\n表率\t表率\n表王\t錶王\n表现\t表現\n表现为\t表現為\n表现为费\t表現為費\n表现主义\t表現主義\n表现出\t表現出\n表现出来\t表現出來\n表现力\t表現力\n表现型\t表現型\n表现对象\t表現對象\n表现形\t表現形\n表现自己\t表現自己\n表甥\t表甥\n表白\t表白\n表的历史\t錶的歷史\n表的嘀嗒\t錶的嘀嗒\n表皮\t表皮\n表皮剥脱素\t表皮剝脫素\n表皮层\t表皮層\n表盘\t錶盤\n表相\t表相\n表示\t表示\n表示出\t表示出\n表示出来\t表示出來\n表示层\t表示層\n表示敬意\t表示敬意\n表礼\t表禮\n表章\t表章\n表笔\t表筆\n表笺\t表箋\n表背\t表背\n表舅\t表舅\n表舅母\t表舅母\n表荐\t表薦\n表蒙子\t錶蒙子\n表行\t錶行\n表表\t表表\n表襮\t表襮\n表观\t表觀\n表记\t表記\n表记物件\t表記物件\n表证\t表證\n表识\t表識\n表词\t表詞\n表语\t表語\n表象\t表象\n表转\t錶轉\n表达\t表達\n表达出\t表達出\n表达出来\t表達出來\n表达力\t表達力\n表达失语症\t表達失語症\n表达式\t表達式\n表达能力\t表達能力\n表述\t表述\n表速\t錶速\n表里\t表裡\n表里一致\t表裡一致\n表里不一\t表裡不一\n表里受敌\t表裡受敵\n表里如一\t表裡如一\n表里山河\t表裡山河\n表里相合\t表裡相合\n表里相应\t表裡相應\n表里相济\t表裡相濟\n表针\t錶針\n表链\t錶鏈\n表错\t表錯\n表错情\t表錯情\n表门\t表門\n表露\t表露\n表露出\t表露出\n表露无遗\t表露無遺\n表面\t表面\n表面上\t表面上\n表面信息\t表面信息\n表面光洁\t表面光潔\n表面化\t表面化\n表面外膜\t表面外膜\n表面工夫\t表面工夫\n表面张力\t表面張力\n表面性\t表面性\n表面活化剂\t表面活化劑\n表面活性剂\t表面活性劑\n表面流\t表面流\n表面的\t表面的\n表面积\t表面積\n表面质量\t表面質量\n表音\t表音\n表音文字\t表音文字\n表题\t表題\n表饰\t表飾\n衬出\t襯出\n衬布\t襯布\n衬托\t襯托\n衬托出\t襯托出\n衬托底\t襯托底\n衬托物\t襯托物\n衬衣里\t襯衣裡\n衬里\t襯裡\n衰变曲线\t衰變曲線\n衰变链\t衰變鏈\n衲被蒙头\t衲被蒙頭\n衷于\t衷於\n衷曲\t衷曲\n衿曲\t衿曲\n袁于令\t袁于令\n袁友范\t袁友范\n袁承志\t袁承志\n袁术\t袁術\n袅娜\t嫋娜\n袅娜纤巧\t嫋娜纖巧\n袅娜风流\t嫋娜風流\n袅窕\t裊窕\n袅绕\t裊繞\n袅袅\t嫋嫋\n袅袅上升\t裊裊上升\n袅袅娉娉\t嫋嫋娉娉\n袅袅娜娜\t嫋嫋娜娜\n袅袅婷婷\t嫋嫋婷婷\n袅袅炊烟\t裊裊炊煙\n袋表\t袋錶\n袋里\t袋裡\n袒露出\t袒露出\n袖一卷\t袖一捲\n袖扣\t袖釦\n袖里\t袖裡\n袖里乾坤\t袖裡乾坤\n袖里来袖里去\t袖裡來袖裡去\n被人背\t被人揹\n被动吸烟\t被動吸菸\n被动挨打\t被動挨打\n被发\t被髮\n被发佯狂\t被髮佯狂\n被发入山\t被髮入山\n被发左衽\t被髮左衽\n被发文身\t被髮文身\n被发缨冠\t被髮纓冠\n被发阳狂\t被髮陽狂\n被复\t被複\n被头散发\t被頭散髮\n被害妄想症\t被害妄想症\n被干\t被幹\n被扣\t被扣\n被拐\t被拐\n被服厂\t被服廠\n被泽蒙庥\t被澤蒙庥\n被灾蒙祸\t被災蒙禍\n被窝里\t被窩裡\n被窝里放屁\t被窩裡放屁\n被角里\t被角裡\n被里\t被裡\n被面\t被面\n袭击战术\t襲擊戰術\n袭卷\t襲捲\n裁划\t裁劃\n裁制\t裁製\n裁并\t裁併\n裁样板\t裁樣板\n裁衣合帐\t裁衣合帳\n裂了\t裂了\n裂体吸虫\t裂體吸蟲\n裂变同位素\t裂變同位素\n裂致\t裂致\n裂解厂\t裂解廠\n裂谷\t裂谷\n裂谷热\t裂谷熱\n裂谷热病毒\t裂谷熱病毒\n装修\t裝修\n装修门面\t裝修門面\n装出\t裝出\n装出去\t裝出去\n装出来\t裝出來\n装回\t裝回\n装岩机\t裝岩機\n装折\t裝摺\n装点门面\t裝點門面\n装糊涂\t裝糊塗\n装订厂\t裝訂廠\n装配厂\t裝配廠\n装配工厂\t裝配工廠\n装门面\t裝門面\n裒克\t裒剋\n裔胄\t裔胄\n裕丰\t裕豐\n裘弊金尽\t裘弊金盡\n裘馨氏肌肉萎缩症\t裘馨氏肌肉萎縮症\n裙布荆钗\t裙布荊釵\n裙带关系\t裙帶關係\n裙摆\t裙襬\n裤带面\t褲帶麵\n裤扣\t褲釦\n裴回\t裴回\n裴松之\t裴松之\n裴航遇云英\t裴航遇雲英\n裴里诺\t裴里諾\n裸体女尸\t裸體女屍\n裸叶\t裸葉\n裸尸\t裸屍\n裸岩\t裸岩\n裸露出\t裸露出\n裹了\t裹了\n裹尸\t裹屍\n裹尸布\t裹屍布\n裹尸马革\t裹屍馬革\n裹布\t裹布\n裹扎\t裹紮\n裹脚布\t裹腳布\n褐布\t褐布\n褒善贬恶\t褒善貶惡\n褒录\t褒錄\n褒贤遏恶\t褒賢遏惡\n褒赞\t褒讚\n褒采一介\t褒采一介\n褚人获\t褚人獲\n褪前擦后\t褪前擦後\n褶子了\t褶子了\n褶曲\t褶曲\n";

/// Part 125 of the text.
pub const ST_PHRASES_125: &'static str = "褶曲山脉\t褶曲山脈\n褶皱山系\t褶皺山系\n褶皱山系火地岛\t褶皺山系火地島\n襄赞\t襄贊\n襟曲\t襟曲\n西丰\t西豐\n西丰县\t西豐縣\n西冲\t西衝\n西出\t西出\n西利古里\t西利古里\n西北向\t西北向\n西北师范大学\t西北師範大學\n西北面\t西北面\n西华师范大学\t西華師範大學\n西南向\t西南向\n西南师范大学\t西南師範大學\n西南面\t西南面\n西占\t西佔\n西厂\t西廠\n西历\t西曆\n西历纪元\t西曆紀元\n西原借款\t西原借款\n西发里亚条约\t西發里亞條約\n西台\t西臺\n西台人\t西臺人\n西台古堡\t西臺古堡\n西台帝国\t西臺帝國\n西后\t西后\n西向\t西向\n西周\t西周\n西周时\t西周時\n西周时代\t西周時代\n西周时期\t西周時期\n西周钟\t西周鐘\n西哈努克\t西哈努克\n西太后\t西太后\n西尼克学派\t西尼克學派\n西岳\t西嶽\n西征\t西征\n西文系\t西文系\n西斗星君\t西斗星君\n西斗铺\t西斗鋪\n西方极乐\t西方極樂\n西方极乐世界\t西方極樂世界\n西晒\t西曬\n西曲\t西曲\n西来庵\t西來庵\n西松\t西松\n西松建设\t西松建設\n西极\t西極\n西格蒙德\t西格蒙德\n西梅干\t西梅乾\n西欧集团\t西歐集團\n西洋参\t西洋參\n西涌\t西涌\n西游\t西遊\n西游补\t西遊補\n西游记\t西遊記\n西点面包\t西點麵包\n西王母娘娘\t西王母娘娘\n西米谷\t西米谷\n西药\t西藥\n西药房\t西藥房\n西蒙\t西蒙\n西蒙斯\t西蒙斯\n西蒙逊\t西蒙遜\n西藏百万农奴解放纪念日\t西藏百萬農奴解放紀念日\n西西里\t西西里\n西西里岛\t西西里島\n西谷椰子\t西谷椰子\n西谷米\t西谷米\n西谷米冻\t西谷米凍\n西里\t西里\n西里尔\t西里爾\n西里尔字母\t西里爾字母\n西里西亚\t西里西亞\n西门子电机厂\t西門子電機廠\n西除东荡\t西除東蕩\n西面\t西面\n要么\t要麼\n要了\t要了\n要价\t要價\n要价还价\t要價還價\n要克制\t要剋制\n要冲\t要衝\n要千取万\t要千取萬\n要占\t要佔\n要占卜\t要占卜\n要回\t要回\n要干了\t要乾了\n要念\t要念\n要怎么收获先怎么栽\t要怎麼收穫先怎麼栽\n要扣\t要扣\n要拐\t要拐\n要是\t要是\n要自制\t要自制\n要面子\t要面子\n覃天同\t覃天同\n覆上\t覆上\n覆住\t覆住\n覆冒\t覆冒\n覆军\t覆軍\n覆军杀将\t覆軍殺將\n覆去翻来\t覆去翻來\n覆在\t覆在\n覆宗\t覆宗\n覆巢之下无完卵\t覆巢之下無完卵\n覆帱\t覆幬\n覆庇之恩\t覆庇之恩\n覆成\t覆成\n覆杯\t覆杯\n覆水\t覆水\n覆水难收\t覆水難收\n覆没\t覆沒\n覆海移山\t覆海移山\n覆灭\t覆滅\n覆瓿\t覆瓿\n覆盂\t覆盂\n覆盂之固\t覆盂之固\n覆盂之安\t覆盂之安\n覆盆\t覆盆\n覆盆之冤\t覆盆之冤\n覆盆子\t覆盆子\n覆盆难照\t覆盆難照\n覆盖\t覆蓋\n覆盖住\t覆蓋住\n覆盖率\t覆蓋率\n覆盖范围\t覆蓋範圍\n覆盖面\t覆蓋面\n覆盘\t覆盤\n覆盘难照\t覆盤難照\n覆育\t覆育\n覆舟\t覆舟\n覆舟载舟\t覆舟載舟\n覆蔽\t覆蔽\n覆蕉寻鹿\t覆蕉尋鹿\n覆被\t覆被\n覆败\t覆敗\n覆车\t覆車\n覆车之戒\t覆車之戒\n覆车之轨\t覆車之軌\n覆车之辙\t覆車之轍\n覆车之鉴\t覆車之鑑\n覆车当戒\t覆車當戒\n覆车继轨\t覆車繼軌\n覆载\t覆載\n覆辙\t覆轍\n覆辙重蹈\t覆轍重蹈\n覆逆\t覆逆\n覆酱瓿\t覆醬瓿\n覆醢\t覆醢\n覆雨翻云\t覆雨翻雲\n覆露\t覆露\n覆鹿寻蕉\t覆鹿尋蕉\n覆鹿遗蕉\t覆鹿遺蕉\n覆鼎\t覆鼎\n覆𫗧\t覆餗\n覆𫗧之忧\t覆餗之憂\n覆𫗧之患\t覆餗之患\n覆𫗧之衅\t覆餗之釁\n见不到面\t見不到面\n见世面\t見世面\n见个\t見個\n见个情\t見個情\n见之不取思之千里\t見之不取思之千里\n见了\t見了\n见了和尚骂贼秃\t見了和尚罵賊禿\n见了新人忘旧人\t見了新人忘舊人\n见了面\t見了面\n见于\t見於\n见几\t見幾\n见几而作\t見幾而作\n见到面\t見到面\n见危致命\t見危致命\n见复\t見覆\n见尧于墙\t見堯於牆\n见得多了\t見得多了\n见棱见角\t見稜見角\n见物不取失之千里\t見物不取失之千里\n见笑于人\t見笑於人\n见素抱朴\t見素抱樸\n见缝插针\t見縫插針\n见见面\t見見面\n见过世面\t見過世面\n见鉴\t見鑒\n见钟不打\t見鐘不打\n见钟不打更去炼铜\t見鐘不打更去煉銅\n见面\t見面\n见面三分情\t見面三分情\n见面会\t見面會\n见面礼\t見面禮\n见马克思\t見馬克思\n观众台\t觀眾臺\n观光台\t觀光臺\n观光周\t觀光週\n观光团\t觀光團\n观光游憩性资源\t觀光遊憩性資源\n观光签证\t觀光簽證\n观光胜地\t觀光勝地\n观台\t觀臺\n观叶植物\t觀葉植物\n观后感\t觀後感\n观审制度\t觀審制度\n观察出来\t觀察出來\n观察团\t觀察團\n观影\t觀影\n观念\t觀念\n观护制度\t觀護制度\n观星台\t觀星臺\n观景台\t觀景臺\n观望台\t觀望臺\n观测台\t觀測臺\n观礼台\t觀禮臺\n观者云集\t觀者雲集\n观者如云\t觀者如雲\n观象台\t觀象臺\n观采\t觀採\n观音庵\t觀音庵\n规划\t規劃\n规划为\t規劃為\n规划人员\t規劃人員\n规划出\t規劃出\n规划好\t規劃好\n规划局\t規劃局\n规划成\t規劃成\n规划案\t規劃案\n规划范围\t規劃範圍\n规制\t規制\n规复\t規復\n规定价格\t規定價格\n规定出来\t規定出來\n规定地价\t規定地價\n规定范围\t規定範圍\n规画出\t規畫出\n规矩准绳\t規矩準繩\n规章制度\t規章制度\n规范\t規範\n规范企业\t規範企業\n规范作用\t規範作用\n规范动作\t規範動作\n规范化\t規範化\n规范化管理\t規範化管理\n规范司\t規範司\n规范名\t規範名\n规范字\t規範字\n规范学\t規範學\n规范市场\t規範市場\n规范性\t規範性\n规范性文件\t規範性文件\n规范意见\t規範意見\n规范执法\t規範執法\n规范技术\t規範技術\n规范文件\t規範文件\n规范理论\t規範理論\n规范的\t規範的\n规范管理\t規範管理\n规范行为\t規範行為\n规范语言\t規範語言\n视于\t視於\n视力表\t視力表\n视同\t視同\n视同儿戏\t視同兒戲\n视同具文\t視同具文\n视同手足\t視同手足\n视同秦越\t視同秦越\n视同陌路\t視同陌路\n视如寇仇\t視如寇仇\n视如己出\t視如己出\n视杯\t視杯\n视空间系统\t視空間系統\n视窗基准\t視窗基準\n视觉系\t視覺系\n视觉艺术\t視覺藝術\n视觉适应\t視覺適應\n视讯会议系统\t視訊會議系統\n视讯系统\t視訊系統\n视野范围\t視野範圍\n览胜\t覽勝\n觉出\t覺出\n觉发\t覺發\n觉察出\t覺察出\n觊幸\t覬倖\n觊觎之志\t覬覦之志\n觌面\t覿面\n觑个意顺\t覷個意順\n觑当\t覷當\n角化症\t角化症\n角斗\t角鬥\n角斗场\t角鬥場\n角斗士\t角鬥士\n角曲尺\t角曲尺\n角砾岩\t角礫岩\n角膜移植术\t角膜移植術\n角色冲突\t角色衝突\n角色扮演游戏\t角色扮演遊戲\n角落\t角落\n角落里\t角落裡\n角角里\t角角裡\n角谷猜想\t角谷猜想\n角里\t角里\n角页岩\t角頁岩\n觔斗\t觔斗\n觔斗云\t觔斗雲\n解了\t解了\n解决不了\t解決不了\n解决困难\t解決困難\n解出\t解出\n解出来\t解出來\n解到县里\t解到縣裡\n解制\t解制\n解剑拜仇\t解劍拜仇\n解发\t解發\n解发佯狂\t解髮佯狂\n解困\t解困\n解封\t解封\n解当\t解當\n解当铺\t解當鋪\n解扣\t解釦\n解放出来\t解放出來\n";

/// Part 126 of the text.
pub const ST_PHRASES_126: &'static str = "解放后\t解放後\n解救出来\t解救出來\n解析几何\t解析幾何\n解析几何学\t解析幾何學\n解毒药\t解毒藥\n解溪\t解谿\n解溪穴\t解谿穴\n解理方向\t解理方向\n解理面\t解理面\n解痛药\t解痛藥\n解药\t解藥\n解酸药\t解酸藥\n解铃仍须系铃人\t解鈴仍須繫鈴人\n解铃系铃\t解鈴繫鈴\n解铃还是系铃人\t解鈴還是繫鈴人\n解铃还须系铃人\t解鈴還須繫鈴人\n解雇\t解僱\n触事面墙\t觸事面牆\n触发\t觸發\n触发器\t觸發器\n触发式\t觸發式\n触发引信\t觸發引信\n触发清单\t觸發清單\n触技曲\t觸技曲\n触控板\t觸控板\n触斗蛮争\t觸鬥蠻爭\n触板\t觸板\n触霉头\t觸霉頭\n触须\t觸鬚\n觱发\t觱發\n言不尽意\t言不盡意\n言且表过\t言且表過\n言之不尽\t言之不盡\n言之有据\t言之有據\n言云\t言云\n言出如山\t言出如山\n言出必行\t言出必行\n言出患入\t言出患入\n言出法随\t言出法隨\n言大而夸\t言大而夸\n言尽于此\t言盡於此\n言归于好\t言歸於好\n言必有据\t言必有據\n言文一致\t言文一致\n言无不尽\t言無不盡\n言无二价\t言無二價\n言行一致\t言行一致\n言行合一\t言行合一\n言行录\t言行錄\n言语失常症\t言語失常症\n言辩而确\t言辯而确\n言隐于荣华\t言隱於榮華\n詹千慧\t詹千慧\n詹姆士布朗\t詹姆士布朗\n詹姆斯布朗\t詹姆斯布朗\n詹宏志\t詹宏志\n詹志宏\t詹志宏\n詹志维\t詹誌維\n詹氏年鉴\t詹氏年鑑\n詹江布尔\t詹江布爾\n誊写板\t謄寫板\n誊出\t謄出\n誊出来\t謄出來\n誊录\t謄錄\n誊录所\t謄錄所\n誓同生死\t誓同生死\n誓愿\t誓願\n誓无二志\t誓無二志\n謷丑\t謷醜\n謻台\t謻臺\n譆譆出出\t譆譆出出\n警世钟\t警世鐘\n警察制度\t警察制度\n警察广播电台\t警察廣播電臺\n警寤钟\t警寤鐘\n警报系统\t警報系統\n警报钟\t警報鐘\n警民冲突\t警民衝突\n警示钟\t警示鐘\n警辟\t警闢\n警钟\t警鐘\n譬似闲\t譬似閒\n譬如闲\t譬如閒\n计价\t計價\n计价器\t計價器\n计出万全\t計出萬全\n计分板\t計分板\n计划\t計劃\n计划书\t計劃書\n计划图\t計劃圖\n计划好\t計劃好\n计划性\t計劃性\n计划案\t計劃案\n计划生育\t計劃生育\n计划目标\t計劃目標\n计划经济\t計劃經濟\n计划署\t計劃署\n计划者\t計劃者\n计将安出\t計將安出\n计尽力穷\t計盡力窮\n计无所出\t計無所出\n计时表\t計時錶\n计本里\t計本裡\n计白当黑\t計白當黑\n计程车共乘制\t計程車共乘制\n计穷力尽\t計窮力盡\n计穷力极\t計窮力極\n计穷虑极\t計窮慮極\n计算\t計算\n计算出\t計算出\n计算出来\t計算出來\n计算机制图\t計算機製圖\n计算机集成制造\t計算機集成製造\n计量制\t計量制\n订个\t訂個\n订了\t訂了\n订于\t訂於\n订价\t訂價\n订出\t訂出\n订出来\t訂出來\n订制\t訂製\n订制服\t訂製服\n订杂志\t訂雜誌\n认不出\t認不出\n认不出来\t認不出來\n认个\t認個\n认了\t認了\n认准\t認準\n认出\t認出\n认出来\t認出來\n认制修\t認製修\n认同\t認同\n认同卡\t認同卡\n认同度\t認同度\n认同感\t認同感\n认尸\t認屍\n认得出\t認得出\n认知神经心理学\t認知神經心理學\n讦发\t訐發\n讨个\t討個\n讨个分晓\t討個分曉\n讨个吉利\t討個吉利\n讨了\t討了\n讨价\t討價\n讨价还价\t討價還價\n讨出\t討出\n讨出来\t討出來\n讨回\t討回\n讨彩\t討彩\n讨恶剪暴\t討惡剪暴\n讨没脸面\t討沒臉面\n讨针线\t討針線\n讨面皮\t討面皮\n让价\t讓價\n让位于\t讓位於\n让出\t讓出\n让出去\t讓出去\n让出来\t讓出來\n让胡路\t讓胡路\n让胡路区\t讓胡路區\n讫了\t訖了\n讬了\t託了\n训兽术\t訓獸術\n训练出\t訓練出\n训练出来\t訓練出來\n训胄\t訓胄\n训蒙\t訓蒙\n议事录\t議事錄\n议事纪录\t議事紀錄\n议价\t議價\n议价空间\t議價空間\n议会制\t議會制\n议会斗争\t議會鬥爭\n议和团\t議和團\n议坛\t議壇\n讯息处理系统\t訊息處理系統\n讯框传送论坛\t訊框傳送論壇\n记不了\t記不了\n记了\t記了\n记事本里\t記事本裡\n记事板\t記事板\n记仇\t記仇\n记分板\t記分板\n记录\t記錄\n记录下\t記錄下\n记录下来\t記錄下來\n记录为\t記錄為\n记录仪\t記錄儀\n记录到\t記錄到\n记录员\t記錄員\n记录器\t記錄器\n记录本\t記錄本\n记录板\t記錄板\n记录片\t記錄片\n记录簿\t記錄簿\n记忆里\t記憶裡\n记念\t記念\n记挂\t記掛\n记本里\t記本裡\n记者团\t記者團\n讲个\t講個\n讲了\t講了\n讲价\t講價\n讲信修睦\t講信修睦\n讲出\t講出\n讲出去\t講出去\n讲出来\t講出來\n讲台\t講臺\n讲坛\t講壇\n讲情面\t講情面\n讲闲话\t講閒話\n讲面子\t講面子\n讳恶不悛\t諱惡不悛\n许下愿心\t許下願心\n许久以后\t許久以後\n许人丰\t許人丰\n许凯克\t許凱克\n许历农\t許歷農\n许圣杰\t許聖杰\n许建发\t許建發\n许志华\t許志華\n许志彰\t許志彰\n许志煌\t許志煌\n许志雄\t許志雄\n许志鸿\t許志鴻\n许愿\t許願\n许愿树\t許願樹\n许愿池\t許願池\n许愿牌\t許願牌\n许愿起经\t許愿起經\n许振发\t許振發\n许智杰\t許智傑\n许杰\t許傑\n许杰辉\t許傑輝\n许胜发\t許勝發\n许胜雄\t許勝雄\n许至胜\t許至勝\n许致强\t許致強\n许豪升\t許豪升\n许铭杰\t許銘傑\n论价\t論價\n论千论万\t論千論萬\n论坛\t論壇\n论坛区\t論壇區\n论坛报\t論壇報\n论据\t論據\n论据不足\t論據不足\n论赞\t論贊\n设了\t設了\n设于\t設於\n设党\t設黨\n设厂\t設廠\n设台\t設臺\n设坛\t設壇\n设坛祭拜\t設壇祭拜\n设朝升殿\t設朝升殿\n设柜\t設櫃\n设言托意\t設言托意\n设计出\t設計出\n设计出来\t設計出來\n设计系\t設計系\n设计规范\t設計規範\n设限于\t設限於\n设鼓悬钟\t設鼓懸鐘\n访华团\t訪華團\n访台\t訪臺\n访台之旅\t訪臺之旅\n访察团\t訪察團\n访日团\t訪日團\n访问团\t訪問團\n访韩团\t訪韓團\n诀别\t訣別\n诀别书\t訣別書\n证于\t證於\n证出\t證出\n证出来\t證出來\n证券交易所\t證券交易所\n证卷\t證卷\n证据\t證據\n证据力\t證據力\n证据裁判主义\t證據裁判主義\n证明了\t證明了\n证明出来\t證明出來\n评个\t評個\n评个分数\t評個分數\n评了\t評了\n评价\t評價\n评价分类\t評價分類\n评估板\t評估板\n评出\t評出\n评出来\t評出來\n评分标准\t評分標準\n评判出\t評判出\n评卷\t評卷\n评审团\t評審團\n评审团特别奖\t評審團特別獎\n评核\t評覈\n评注\t評註\n评选出\t評選出\n评鉴\t評鑑\n评鉴为\t評鑑為\n评鉴报告\t評鑑報告\n识别\t識別\n识别信号\t識別信號\n识别力\t識別力\n识别区\t識別區\n识别号\t識別號\n识别字\t識別字\n识别码\t識別碼\n识别证\t識別證\n识多才广\t識多才廣\n识微见几\t識微見幾\n识才\t識才\n识才尊贤\t識才尊賢\n识时务者为俊杰\t識時務者為俊傑\n识面\t識面\n识面台官\t識面臺官\n诈哄\t詐哄\n诈奸不及\t詐奸不及\n诈尸\t詐屍\n诈术\t詐術\n诈胡\t詐胡\n诉愿\t訴願\n诉愿权\t訴願權\n诉愿状\t訴願狀\n诉说出来\t訴說出來\n诉诸于\t訴諸於\n诊断出\t診斷出\n诊断出来\t診斷出來\n诋毁\t詆譭\n词余\t詞餘\n词干\t詞幹\n词干启动\t詞幹啟動\n词无枝叶\t詞無枝葉\n词曲\t詞曲\n";

/// Part 127 of the text.
pub const ST_PHRASES_127: &'static str = "词汇\t詞彙\n词汇分解\t詞彙分解\n词汇判断\t詞彙判斷\n词汇判断任务\t詞彙判斷任務\n词汇判断作业\t詞彙判斷作業\n词汇判断法\t詞彙判斷法\n词汇学\t詞彙學\n词汇通路\t詞彙通路\n词穷理尽\t詞窮理盡\n词表\t詞表\n词语汇\t詞語彙\n词采\t詞采\n诏板\t詔板\n译制\t譯製\n译注\t譯註\n诓哄\t誆哄\n诔赞\t誄讚\n试出\t試出\n试出来\t試出來\n试制\t試製\n试卷\t試卷\n试周\t試周\n试炼\t試煉\n试种\t試種\n试算表\t試算表\n试胄\t試胄\n试药\t試藥\n试表\t試表\n试验台\t試驗檯\n诗云\t詩云\n诗云子曰\t詩云子曰\n诗以言志\t詩以言志\n诗余\t詩餘\n诗卷\t詩卷\n诗坛\t詩壇\n诗才\t詩才\n诗社里\t詩社裡\n诗言志歌永言\t詩言志歌永言\n诗词曲语辞汇释\t詩詞曲語辭匯釋\n诗赞\t詩讚\n诗钟\t詩鐘\n诘曲\t詰曲\n诙谐曲\t詼諧曲\n诚征\t誠徵\n诚朴\t誠樸\n诛凶殄逆\t誅兇殄逆\n诛凶讨逆\t誅兇討逆\n诛尽杀绝\t誅盡殺絕\n诛戮殆尽\t誅戮殆盡\n话别\t話別\n话剧表演\t話劇表演\n话又说回来\t話又說回來\n话念\t話念\n话本里\t話本裡\n话说回来\t話說回來\n话里套话\t話裡套話\n话里有话\t話裡有話\n话里藏阄\t話裡藏鬮\n诠注\t詮註\n诠释出\t詮釋出\n诡计百出\t詭計百出\n诡辩术\t詭辯術\n询于\t詢於\n询于刍荛\t詢於芻蕘\n询价\t詢價\n该于\t該於\n该党\t該黨\n该厂\t該廠\n该向\t該向\n该回\t該回\n该当\t該當\n该当何罪\t該當何罪\n该扣\t該扣\n该钟\t該鐘\n该面\t該面\n详尽\t詳盡\n详尽无遗\t詳盡無遺\n详征博引\t詳徵博引\n详注\t詳註\n详确\t詳確\n诬蔑\t誣衊\n诬蔑性\t誣衊性\n语云\t語云\n语出\t語出\n语录\t語錄\n语意区分量表\t語意區分量表\n语意差别量表\t語意差別量表\n语有云\t語有云\n语汇\t語彙\n语法术语\t語法術語\n语系\t語系\n语言规范\t語言規範\n语音合成\t語音合成\n语音失语症\t語音失語症\n语音数据机\t語音數據機\n语音识别\t語音識別\n语音输入系统\t語音輸入系統\n误尽天下苍生\t誤盡天下蒼生\n误差范围\t誤差範圍\n诰封\t誥封\n诱出\t誘出\n诱发\t誘發\n诱发型\t誘發型\n诱发式\t誘發式\n诱奸\t誘姦\n诱拐\t誘拐\n诱掖后进\t誘掖後進\n诱敌战术\t誘敵戰術\n诱杀战术\t誘殺戰術\n诱虫灯\t誘蟲燈\n诱降战术\t誘降戰術\n说不了\t說不了\n说不准\t說不準\n说不出\t說不出\n说不出口\t說不出口\n说不出来\t說不出來\n说不出话来\t說不出話來\n说不尽\t說不盡\n说东斗\t說東斗\n说了\t說了\n说了又说\t說了又說\n说了算\t說了算\n说出\t說出\n说出去\t說出去\n说出口\t說出口\n说出来\t說出來\n说出话来\t說出話來\n说千说万\t說千說萬\n说单生万岁\t說單生萬歲\n说参请\t說參請\n说合\t說合\n说合了盖儿了\t說合了蓋兒了\n说嘴郎中无好药\t說嘴郎中無好藥\n说回来\t說回來\n说好了\t說好了\n说定了\t說定了\n说家克计\t說家克計\n说尽\t說盡\n说岳\t說岳\n说岳全传\t說岳全傳\n说干便干\t說幹便幹\n说教术\t說教術\n说文解字注\t說文解字注\n说明了\t說明了\n说白了\t說白了\n说穿了\t說穿了\n说西斗\t說西斗\n说话不当话\t說話不當話\n说闲话\t說閒話\n说雨谈云\t說雨談雲\n诵念\t誦唸\n诵经台\t誦經臺\n请个\t請個\n请了\t請了\n请出\t請出\n请出去\t請出去\n请出来\t請出來\n请别见怪\t請別見怪\n请勿吸烟\t請勿吸菸\n请参阅\t請參閱\n请向\t請向\n请君入瓮\t請君入甕\n请回\t請回\n请回到\t請回到\n请回去\t請回去\n请回来\t請回來\n请您回复\t請您回覆\n请愿\t請願\n请愿书\t請願書\n请愿团\t請願團\n请愿权\t請願權\n请愿案\t請願案\n请托\t請託\n请说出\t請說出\n诸余\t諸餘\n诸葛亮借东风\t諸葛亮借東風\n诺瓦克\t諾瓦克\n诺福克\t諾福克\n诺福克岛\t諾福克島\n诺美克斯\t諾美克斯\n诺里\t諾里\n读万卷书\t讀萬卷書\n读万卷书行万里路\t讀萬卷書行萬里路\n读不舍手\t讀不捨手\n读书三余\t讀書三餘\n读书种子\t讀書種子\n读了\t讀了\n读出\t讀出\n读出来\t讀出來\n读后\t讀後\n读后心得\t讀後心得\n读后感\t讀後感\n读唇术\t讀脣術\n读心术\t讀心術\n课件里\t課件裡\n课余\t課餘\n课前课后\t課前課後\n课卷\t課卷\n课后\t課後\n课后复习\t課後複習\n课后练习\t課後練習\n课后辅导\t課後輔導\n课征\t課徵\n课田制\t課田制\n课程标准\t課程標準\n课程表\t課程表\n课表\t課表\n课表上\t課表上\n诿过于人\t諉過於人\n谁个\t誰個\n谁家灶内无烟\t誰家灶內無煙\n谁干\t誰幹\n谁干净\t誰乾淨\n谁干的\t誰幹的\n谁笑到最后谁笑得最好\t誰笑到最後誰笑得最好\n谁笑在最后谁笑得最好\t誰笑在最後誰笑得最好\n调个\t調個\n调了\t調了\n调价\t調價\n调准\t調準\n调出\t調出\n调出去\t調出去\n调出来\t調出來\n调制\t調製\n调制出\t調製出\n调制法\t調製法\n调制波\t調製波\n调升\t調升\n调卷\t調卷\n调发\t調發\n调合\t調合\n调合漆\t調合漆\n调哄\t調哄\n调回\t調回\n调回去\t調回去\n调回来\t調回來\n调幅台\t調幅臺\n调干\t調幹\n调弦\t調絃\n调当\t調當\n调换\t調換\n调整范围\t調整範圍\n调查出\t調查出\n调查团\t調查團\n调查范围\t調查範圍\n调查表\t調查表\n调画出\t調畫出\n调药刀\t調藥刀\n调表\t調錶\n调适\t調適\n调配出\t調配出\n调钟表\t調鐘錶\n调频台\t調頻臺\n调频电台\t調頻電臺\n谈不出\t談不出\n谈了\t談了\n谈出\t談出\n谈判代表\t談判代表\n谈判制度\t談判制度\n谈吐有致\t談吐有致\n谈征\t談徵\n谈得出\t談得出\n谈论出\t談論出\n谈辞如云\t談辭如雲\n谋出路\t謀出路\n谋划\t謀劃\n谋取面试\t謀取面試\n谋定后动\t謀定後動\n谋定而后\t謀定而後\n谋干\t謀幹\n谋而后动\t謀而後動\n谋面\t謀面\n谎价\t謊價\n谎敲才\t謊敲才\n谐价\t諧價\n谐当\t諧當\n谙历\t諳歷\n谜团\t謎團\n谜面\t謎面\n谢了\t謝了\n谢克\t謝克\n谢克尔\t謝克爾\n谢别\t謝別\n谢叶配\t謝葉配\n谢安折屐\t謝安折屐\n谢尔托夫\t謝爾托夫\n谢志伟\t謝志偉\n谢福松\t謝福松\n谢秋华\t謝秋華\n谢系\t謝系\n谢绝参观\t謝絕參觀\n谢苏\t謝蘇\n谢苏叶\t謝蘇葉\n谢苏配\t謝蘇配\n谢表\t謝表\n谢里\t謝里\n谢里夫\t謝里夫\n谣言止于\t謠言止於\n谣言止于智者\t謠言止於智者\n谦克\t謙克\n谦冲\t謙沖\n谦冲自牧\t謙沖自牧\n谨于心\t謹於心\n谨致\t謹致\n谨致谢意\t謹致謝意\n谬以千里\t謬以千里\n谬种\t謬種\n谬种流传\t謬種流傳\n谬误百出\t謬誤百出\n谬赞\t謬讚\n谬采虚声\t謬採虛聲\n谭嗣同\t譚嗣同\n谯周\t譙周\n谯周独笑\t譙周獨笑\n谱出\t譜出\n谱出来\t譜出來\n谱录\t譜錄\n谱曲\t譜曲\n谱系\t譜系\n谱系分类法\t譜系分類法\n谱表\t譜表\n谷中谷\t谷中谷\n谷人\t穀人\n谷仓\t穀倉\n谷保家商\t穀保家商\n谷关\t谷關\n谷口\t谷口\n谷口耕岩\t谷口耕岩\n谷圭\t穀圭\n谷地\t谷地\n谷场\t穀場\n谷垣\t谷垣\n谷垣祯\t谷垣禎\n谷垣祯一\t谷垣禎一\n谷城\t穀城\n谷城县\t穀城縣\n谷壁\t谷壁\n谷壳\t穀殼\n谷子\t穀子\n谷峰\t谷峰\n谷川\t谷川\n谷底\t谷底\n谷日\t穀日\n谷旦\t穀旦\n谷月涵\t谷月涵\n谷树皮\t谷樹皮\n";

/// Part 128 of the text.
pub const ST_PHRASES_128: &'static str = "谷梁\t穀梁\n谷梁传\t穀梁傳\n谷歌\t谷歌\n谷氨酰胺\t穀氨酰胺\n谷氨酸\t穀氨酸\n谷永\t谷永\n谷湾\t谷灣\n谷物\t穀物\n谷皮\t穀皮\n谷神\t谷神\n谷神星\t穀神星\n谷穗\t穀穗\n谷米\t穀米\n谷类\t穀類\n谷类作物\t穀類作物\n谷粉\t穀粉\n谷粒\t穀粒\n谷糠\t穀糠\n谷舱\t穀艙\n谷苗\t穀苗\n谷草\t穀草\n谷蠡\t谷蠡\n谷象\t谷象\n谷贱伤农\t穀賤傷農\n谷贵饿农\t穀貴餓農\n谷贵饿农谷贱伤农\t穀貴餓農穀賤傷農\n谷道\t穀道\n谷都\t谷都\n谷里\t谷里\n谷里街道\t谷里街道\n谷阳\t穀陽\n谷阳县\t穀陽縣\n谷阳竖\t穀陽豎\n谷阳街道\t谷陽街道\n谷阳郡\t穀陽郡\n谷阳镇\t穀陽鎮\n谷雨\t穀雨\n谷风\t穀風\n谷食\t穀食\n谷饮\t谷飲\n谿谷\t谿谷\n豁上干\t豁上幹\n豁出\t豁出\n豁出去\t豁出去\n豁出命干\t豁出命幹\n豁出来\t豁出來\n豁命干\t豁命幹\n豁死干\t豁死幹\n豁荡\t豁蕩\n豁起来干\t豁起來幹\n豆制品\t豆製品\n豆姑娘\t豆姑娘\n豆娘\t豆娘\n豆娘子\t豆娘子\n豆干\t豆乾\n豆干展\t豆乾展\n豆干肉丝\t豆干肉絲\n豆签\t豆簽\n豆腐干\t豆腐乾\n豆面\t豆麵\n豉虫\t豉蟲\n象征\t象徵\n象征主义\t象徵主義\n象征性\t象徵性\n象征着\t象徵著\n象板\t象板\n象牙针尖\t象牙針尖\n象牙雕\t象牙雕\n象箸玉杯\t象箸玉杯\n象鼻虫\t象鼻蟲\n豪华游\t豪華遊\n豪厘千里\t豪釐千里\n豪情万丈\t豪情萬丈\n豪情壮志\t豪情壯志\n豪情逸致\t豪情逸致\n豪杰\t豪傑\n豪气万丈\t豪氣萬丈\n豪气万千\t豪氣萬千\n豪气干云\t豪氣干雲\n豪门贵胄\t豪門貴胄\n豫游\t豫遊\n豺狼当涂\t豺狼當塗\n豺狼当路\t豺狼當路\n豺狼当道\t豺狼當道\n貂覆额\t貂覆額\n貌合心离\t貌合心離\n貌合情离\t貌合情離\n貌合神离\t貌合神離\n貌合行离\t貌合行離\n貌同实异\t貌同實異\n賨布\t賨布\n賸余\t賸餘\n賸馀价值\t賸餘價值\n贝他系数\t貝他係數\n贝伽特症候群\t貝伽特症候群\n贝克\t貝克\n贝克休斯\t貝克休斯\n贝克勒\t貝克勒\n贝克勒耳\t貝克勒耳\n贝克尔\t貝克爾\n贝克曼\t貝克曼\n贝克汉\t貝克漢\n贝克汉姆\t貝克漢姆\n贝克特\t貝克特\n贝卡谷地\t貝卡谷地\n贝叶\t貝葉\n贝叶书\t貝葉書\n贝叶树\t貝葉樹\n贝叶棕\t貝葉棕\n贝叶经\t貝葉經\n贝奇马克\t貝奇馬克\n贝娅特丽克丝\t貝婭特麗克絲\n贝娜齐尔布托\t貝娜齊爾布托\n贝尔托内\t貝爾托內\n贝尔杰\t貝爾傑\n贝当\t貝當\n贝理克\t貝理克\n贝胄\t貝冑\n贝西克\t貝西克\n贝那芬托\t貝那芬托\n贝里\t貝里\n贝里拉\t貝里拉\n贝里斯\t貝里斯\n贝雕\t貝雕\n贞丰\t貞豐\n贞丰县\t貞豐縣\n贞卜文字\t貞卜文字\n负乘致寇\t負乘致寇\n负债累累\t負債累累\n负债表\t負債表\n负后像\t負後像\n负向\t負向\n负回馈\t負回饋\n负图之托\t負圖之托\n负心违愿\t負心違願\n负手板\t負手板\n负才\t負才\n负才任气\t負才任氣\n负才使气\t負才使氣\n负极\t負極\n负气斗狠\t負氣鬥狠\n负笈千里\t負笈千里\n负荷不了\t負荷不了\n负重致远\t負重致遠\n负面\t負面\n负面性\t負面性\n负鼎之愿\t負鼎之願\n贡烟\t貢菸\n贡献出\t貢獻出\n财产价值\t財產價值\n财产关系\t財產關係\n财产目录\t財產目錄\n财划法\t財劃法\n财务报表\t財務報表\n财团\t財團\n财团法人\t財團法人\n财布施\t財佈施\n财政支出\t財政支出\n财殚力尽\t財殫力盡\n财竭力尽\t財竭力盡\n财金系\t財金系\n责任准备\t責任準備\n责任制\t責任制\n责任范围\t責任範圍\n贤后\t賢后\n贤奸倒置\t賢奸倒置\n贤才\t賢才\n贤胄\t賢胄\n败于\t敗於\n败于垂成\t敗於垂成\n败兵折将\t敗兵折將\n败军折将\t敗軍折將\n败叶\t敗葉\n败坏门面\t敗壞門面\n败子回头\t敗子回頭\n败子回头金不换\t敗子回頭金不換\n败血性休克\t敗血性休克\n败血症\t敗血症\n败血脓毒症\t敗血膿毒症\n败部复活\t敗部復活\n账面\t賬面\n货价\t貨價\n货卜\t貨卜\n货布\t貨布\n货柜\t貨櫃\n货柜场\t貨櫃場\n货柜屋\t貨櫃屋\n货柜船\t貨櫃船\n货柜车\t貨櫃車\n货柜轮\t貨櫃輪\n货物柜\t貨物櫃\n货真价实\t貨真價實\n质当\t質當\n质朴\t質樸\n质量规范\t質量規範\n贪婪是万恶之源\t貪婪是萬惡之源\n贪念\t貪念\n贪杯\t貪杯\n贪杯惜醉人\t貪杯惜醉人\n贪欲\t貪慾\n贪欲无艺\t貪慾無藝\n贪生恶死\t貪生惡死\n贪生舍义\t貪生舍義\n贪睡虫\t貪睡蟲\n贫嘴恶舌\t貧嘴惡舌\n贫困\t貧困\n贫困人家\t貧困人家\n贫困化\t貧困化\n贫困地区\t貧困地區\n贫困率\t貧困率\n贫寒出身\t貧寒出身\n贫血症\t貧血症\n贬价\t貶價\n购买欲\t購買慾\n购回\t購回\n购并\t購併\n购并案\t購併案\n购彩\t購彩\n购物台\t購物臺\n购物欲\t購物慾\n购销差价\t購銷差價\n贯云石\t貫雲石\n贯斗\t貫斗\n贯注\t貫注\n贱价\t賤價\n贱价出售\t賤價出售\n贱才\t賤才\n贱敛贵出\t賤斂貴出\n贱敛贵发\t賤斂貴發\n贴个\t貼個\n贴出\t貼出\n贴出去\t貼出去\n贴出来\t貼出來\n贴后\t貼後\n贴布\t貼布\n贴换\t貼換\n贵了\t貴了\n贵价\t貴价\n贵州师范大学\t貴州師範大學\n贵干\t貴幹\n贵幸\t貴幸\n贵征\t貴徵\n贵戚\t貴戚\n贵极人臣\t貴極人臣\n贵游子弟\t貴遊子弟\n贵筑\t貴筑\n贵筑县\t貴筑縣\n贵胄\t貴胄\n贵贱之别\t貴賤之別\n贷个\t貸個\n贷了\t貸了\n贷借\t貸借\n贷出\t貸出\n贸易伙伴\t貿易伙伴\n费了\t費了\n费利克斯\t費利克斯\n费占\t費佔\n费卢杰\t費盧傑\n费后\t費後\n费周章\t費周章\n费尔干纳\t費爾干納\n费尔干纳槃地\t費爾干納槃地\n费尔干纳盆地\t費爾干納盆地\n费尔法克斯\t費爾法克斯\n费尽\t費盡\n费尽唇舌\t費盡脣舌\n费尽心思\t費盡心思\n费尽心机\t費盡心機\n费尽精神\t費盡精神\n费杰罗\t費傑羅\n费洛蒙\t費洛蒙\n费玛最后定理\t費瑪最後定理\n费舍尔\t費舍爾\n费茨派垂克\t費茨派垂克\n费达克\t費達克\n费里克斯\t費里克斯\n费里克斯布朗\t費里克斯布朗\n费里尼\t費里尼\n费里斯特\t費里斯特\n贺后骂殿\t賀后罵殿\n贺尔蒙\t賀爾蒙\n贺尔蒙针\t賀爾蒙針\n贺表\t賀表\n贻笑万世\t貽笑萬世\n贻笑千古\t貽笑千古\n贻笑千秋\t貽笑千秋\n贻羞万年\t貽羞萬年\n贻范\t貽範\n贻范古今\t貽範古今\n贼党\t賊黨\n贼没种只怕哄\t賊沒種只怕哄\n贾克逊\t賈克遜\n贾可布斯\t賈可布斯\n贾后\t賈后\n贾斯克\t賈斯克\n贾氏症\t賈氏症\n贾第虫\t賈第蟲\n贾第虫属\t賈第蟲屬\n贾第虫病\t賈第蟲病\n贾胡\t賈胡\n贾里尔\t賈里爾\n贾鸿秋\t賈鴻秋\n贿赂并行\t賄賂並行\n资产价值\t資產價值\n资产组合\t資產組合\n资产负债表\t資產負債表\n资历\t資歷\n资料介面\t資料介面\n资料室里\t資料室裡\n资料库管理系统\t資料庫管理系統\n资料录\t資料錄\n资料表\t資料表\n资料链结层\t資料鏈結層\n资方代表\t資方代表\n资治通鉴\t資治通鑑\n资源回收\t資源回收\n资溪\t資谿\n资管系\t資管系\n资讯学系\t資訊學系\n资讯系\t資訊系\n资金\t資金\n资金占用\t資金佔用\n资金面\t資金面\n赈饥\t賑饑\n赉发\t賚發\n赊借\t賒借\n赋别\t賦別\n赋格曲\t賦格曲\n赋诗言志\t賦詩言志\n赋闲\t賦閒\n赌了\t賭了\n赌台\t賭檯\n";

/// Part 129 of the text.
pub const ST_PHRASES_129: &'static str = "赌咒发愿\t賭咒發願\n赌当\t賭當\n赌斗\t賭鬥\n赌注\t賭注\n赌海里\t賭海裡\n赌胜\t賭勝\n赌身发誓\t賭身發誓\n赌钱厂\t賭錢廠\n赍发\t齎發\n赍志没地\t齎志沒地\n赍志而殁\t齎志而歿\n赎回\t贖回\n赎回权\t贖回權\n赎当\t贖當\n赎药\t贖藥\n赏不当功\t賞不當功\n赏了\t賞了\n赏同罚异\t賞同罰異\n赏善罚恶\t賞善罰惡\n赏罚不当\t賞罰不當\n赏赞\t賞讚\n赏鉴\t賞鑑\n赏面子\t賞面子\n赐了\t賜了\n赐复\t賜復\n赐恤\t賜卹\n赒急扶困\t賙急扶困\n赔个不是\t賠個不是\n赔了\t賠了\n赔了夫人\t賠了夫人\n赔了夫人又折兵\t賠了夫人又折兵\n赔出\t賠出\n赔尽\t賠盡\n赖于\t賴於\n赖希\t賴希\n赖幸媛\t賴幸媛\n赖索托\t賴索托\n赖索托王国\t賴索托王國\n赖蒙特\t賴蒙特\n赚不了\t賺不了\n赚个\t賺個\n赚个饱\t賺個飽\n赚了\t賺了\n赚哄\t賺哄\n赚回来\t賺回來\n赛制\t賽制\n赛后\t賽後\n赛德克\t賽德克\n赛愿\t賽願\n赛程表\t賽程表\n赛里木湖\t賽里木湖\n赛门铁克\t賽門鐵克\n赞一句\t讚一句\n赞一声\t讚一聲\n赞一赞\t讚一讚\n赞不绝口\t讚不絕口\n赞两句\t讚兩句\n赞个不\t讚個不\n赞乐\t讚樂\n赞了\t讚了\n赞伯拉诺\t贊伯拉諾\n赞佩\t讚佩\n赞佩不已\t讚佩不已\n赞助\t贊助\n赞助人\t贊助人\n赞助商\t贊助商\n赞助者\t贊助者\n赞口不\t讚口不\n赞叹\t讚歎\n赞叹不已\t讚歎不已\n赞叹声\t讚歎聲\n赞同\t贊同\n赞呗\t讚唄\n赞善\t贊善\n赞布拉诺\t贊布拉諾\n赞成\t贊成\n赞成票\t贊成票\n赞成者\t贊成者\n赞我\t讚我\n赞扬\t讚揚\n赞拜\t贊拜\n赞普\t贊普\n赞歌\t讚歌\n赞理\t贊理\n赞的\t讚的\n赞皇\t贊皇\n赞皇县\t贊皇縣\n赞礼\t贊禮\n赞美\t讚美\n赞美有加\t讚美有加\n赞美歌\t讚美歌\n赞美诗\t讚美詩\n赞羡\t讚羨\n赞翼\t贊翼\n赞自己\t讚自己\n赞誉\t讚譽\n赞誉为\t讚譽為\n赞许\t讚許\n赞词\t讚詞\n赞语\t讚語\n赞赏\t讚賞\n赞赏不已\t讚賞不已\n赞辞\t讚辭\n赞道\t讚道\n赞颂\t讚頌\n赠别\t贈別\n赡表子\t贍表子\n赢不了\t贏不了\n赢了\t贏了\n赢余\t贏餘\n赢出\t贏出\n赢回\t贏回\n赢回去\t贏回去\n赢回来\t贏回來\n赢奸卖俏\t贏奸賣俏\n赢定了\t贏定了\n赢面\t贏面\n赣南师范学院\t贛南師範學院\n赤地千里\t赤地千里\n赤术\t赤朮\n赤松\t赤松\n赤松子\t赤松子\n赤留出律\t赤留出律\n赤绳系足\t赤繩繫足\n赤道几内亚\t赤道幾內亞\n赤道几内亚共和国\t赤道幾內亞共和國\n赤道面\t赤道面\n赤霉素\t赤黴素\n赫克比\t赫克比\n赫克迈泰尔\t赫克邁泰爾\n赫弗里希\t赫弗里希\n赫拉克利特\t赫拉克利特\n赫里斯\t赫里斯\n赫里斯登科\t赫里斯登科\n赫麦汉士台\t赫麥漢士臺\n赭面\t赭面\n走上台\t走上臺\n走下台\t走下臺\n走不了\t走不了\n走了\t走了\n走了和尚走不了庙\t走了和尚走不了廟\n走了大褶儿\t走了大褶兒\n走了风声\t走了風聲\n走了马脚\t走了馬腳\n走亲戚\t走親戚\n走出\t走出\n走出去\t走出去\n走出来\t走出來\n走千门踏万户\t走千門踏萬戶\n走后\t走後\n走后门\t走後門\n走向\t走向\n走向前去\t走向前去\n走向前来\t走向前來\n走向断层\t走向斷層\n走向滑动断层\t走向滑動斷層\n走回\t走回\n走回去\t走回去\n走回头\t走回頭\n走回头路\t走回頭路\n走回来\t走回來\n走回路\t走迴路\n走娘家\t走娘家\n走廊里\t走廊裡\n走来回\t走來回\n走板\t走板\n走板眼\t走板眼\n走肉行尸\t走肉行屍\n走道里\t走道裡\n走马章台\t走馬章臺\n走骨行尸\t走骨行屍\n赴台\t赴臺\n赴曲\t赴曲\n赵丰邦\t趙豐邦\n赵云\t趙雲\n赵五娘\t趙五娘\n赵坤郁\t趙坤郁\n赵庄\t趙莊\n赵志坚\t趙志堅\n赵无极\t趙無極\n赵治勋\t趙治勳\n赵玄坛\t趙玄壇\n赶下台\t趕下臺\n赶不出\t趕不出\n赶不出来\t趕不出來\n赶了\t趕了\n赶修\t趕修\n赶出\t趕出\n赶出去\t趕出去\n赶出来\t趕出來\n赶制\t趕製\n赶前不赶后\t趕前不趕後\n赶向\t趕向\n赶回\t趕回\n赶回到\t趕回到\n赶回去\t趕回去\n赶回来\t趕回來\n赶尸\t趕屍\n赶尽杀绝\t趕盡殺絕\n赶录\t趕錄\n赶得出\t趕得出\n赶面棍\t趕麵棍\n起不了\t起不了\n起了\t起了\n起价\t起價\n起出\t起出\n起发性\t起發性\n起吊\t起吊\n起哄\t起鬨\n起因于\t起因於\n起复\t起復\n起居注\t起居注\n起扑杆\t起撲桿\n起承转合\t起承轉合\n起根发脚\t起根發腳\n起模范\t起模範\n起死回生\t起死回生\n起源于\t起源於\n起航出海\t起航出海\n起获\t起獲\n起跳价\t起跳價\n起跳板\t起跳板\n趁哄\t趁哄\n趁哄打劫\t趁哄打劫\n趁愿\t趁願\n超世之才\t超世之才\n超低价\t超低價\n超党派\t超黨派\n超准\t超準\n超凡出世\t超凡出世\n超出\t超出\n超出范围\t超出範圍\n超前瞄准\t超前瞄準\n超前绝后\t超前絕後\n超升\t超升\n超友谊关系\t超友誼關係\n超基性岩\t超基性岩\n超大曲道赛\t超大曲道賽\n超完美告别\t超完美告別\n超尘出俗\t超塵出俗\n超平面\t超平面\n超手游廊\t超手遊廊\n超新星剩余\t超新星剩餘\n超杯\t超杯\n超然台\t超然臺\n超级台风\t超級颱風\n超级杯\t超級盃\n超级链接\t超級鏈接\n超群出众\t超群出眾\n超范围\t超範圍\n超计划利润\t超計劃利潤\n超赞\t超讚\n超链接\t超鏈接\n超额录取\t超額錄取\n越冬\t越冬\n越冬作物\t越冬作物\n越出\t越出\n越出界线\t越出界線\n越发\t越發\n越活越回去\t越活越回去\n越王尝蓼\t越王嘗蓼\n趋于\t趨於\n趋于平稳\t趨於平穩\n趋于稳定\t趨於穩定\n趋前退后\t趨前退後\n趋吉避凶\t趨吉避凶\n趋同\t趨同\n趋向\t趨向\n趋舍\t趨舍\n趋舍异路\t趨舍異路\n趋舍指凑\t趨舍指湊\n趋近于\t趨近於\n趫才\t趫才\n趱干\t趲幹\n足不出户\t足不出戶\n足不出门\t足不出門\n足了十人\t足了十人\n足于\t足於\n足协杯\t足協盃\n足坛\t足壇\n足总杯\t足總盃\n足食丰衣\t足食豐衣\n趸售物价\t躉售物價\n趸当\t躉當\n趸批卖出\t躉批賣出\n趿拉板儿\t趿拉板兒\n跃出\t躍出\n跃升\t躍升\n跃升为\t躍升為\n跃跃欲试\t躍躍欲試\n跋前疐后\t跋前疐後\n跋前踬后\t跋前躓後\n跋涉千里\t跋涉千里\n跋胡疐尾\t跋胡疐尾\n跌了\t跌了\n跌了弹的斑鸠\t跌了彈的斑鳩\n跌价\t跌價\n跌停板\t跌停板\n跌出\t跌出\n跌回\t跌回\n跌打药\t跌打藥\n跌至谷底\t跌至谷底\n跌荡\t跌蕩\n跌荡不羁\t跌蕩不羈\n跌荡放言\t跌蕩放言\n跎纤\t跎縴\n跑不了\t跑不了\n跑了和尚跑不了寺\t跑了和尚跑不了寺\n跑了和尚跑不了庙\t跑了和尚跑不了廟\n跑出\t跑出\n跑出去\t跑出去\n跑出来\t跑出來\n跑台子\t跑檯子\n跑合\t跑合\n跑回\t跑回\n跑回去\t跑回去\n跑回来\t跑回來\n跑得了和尚跑不了庙\t跑得了和尚跑不了廟\n跑表\t跑表\n跖犬吠尧\t跖犬吠堯\n跖狗吠尧\t跖狗吠堯\n跖蹻\t跖蹻\n跗注\t跗注\n跗面\t跗面\n跛行症\t跛行症\n跛鳖千里\t跛鱉千里\n跟了\t跟了\n跟他一斗\t跟他一鬥\n跟出\t跟出\n跟出去\t跟出去\n跟出来\t跟出來\n跟前跟后\t跟前跟後\n跟头虫\t跟頭蟲\n跟屁虫\t跟屁蟲\n跟斗\t跟斗\n跨了\t跨了\n跨党\t跨黨\n跨出\t跨出\n跨出去\t跨出去\n跨出来\t跨出來\n跨向\t跨向\n跨媒体合作\t跨媒體合作\n";

/// Part 130 of the text.
pub const ST_PHRASES_130: &'static str = "跨平台\t跨平臺\n跨步向前\t跨步向前\n跨通道启动技术\t跨通道啟動技術\n跨鹤西游\t跨鶴西遊\n跪了\t跪了\n跬步千里\t跬步千里\n路克\t路克\n路克索\t路克索\n路径\t路徑\n路志\t路誌\n路怒症\t路怒症\n路码表\t路碼表\n路签\t路籤\n路线斗争\t路線鬥爭\n路透集团\t路透集團\n路里\t路里\n路面\t路面\n路面等级\t路面等級\n跳了\t跳了\n跳井自尽\t跳井自盡\n跳价\t跳價\n跳伞台\t跳傘臺\n跳出\t跳出\n跳出去\t跳出去\n跳出来\t跳出來\n跳出火坑\t跳出火坑\n跳出釜底进火坑\t跳出釜底進火坑\n跳升\t跳升\n跳只舞\t跳隻舞\n跳台\t跳臺\n跳台滑雪\t跳臺滑雪\n跳回\t跳回\n跳回去\t跳回去\n跳回来\t跳回來\n跳墙出去\t跳牆出去\n跳板\t跳板\n跳梁\t跳樑\n跳梁小丑\t跳樑小丑\n跳梁猖獗之小丑\t跳樑猖獗之小丑\n跳楼自尽\t跳樓自盡\n跳水台\t跳水臺\n跳河自尽\t跳河自盡\n跳海自尽\t跳海自盡\n跳脱出\t跳脫出\n跳脱出来\t跳脫出來\n跳荡\t跳蕩\n跳表\t跳錶\n跳针\t跳針\n践极\t踐極\n跷了\t蹺了\n跷出\t蹺出\n跷跷板\t蹺蹺板\n跻升\t躋升\n跻身于\t躋身於\n踅回\t踅回\n踅门了户\t踅門瞭戶\n踊跃发言\t踴躍發言\n踌躇满志\t躊躇滿志\n踏了\t踏了\n踏出\t踏出\n踏出去\t踏出去\n踏出来\t踏出來\n踏小板凳儿糊险道神\t踏小板凳兒糊險道神\n踏板\t踏板\n踏板车\t踏板車\n踏脚板\t踏腳板\n踏足板\t踏足板\n踔厉风发\t踔厲風發\n踢不出\t踢不出\n踢了\t踢了\n踢出\t踢出\n踢出去\t踢出去\n踢出来\t踢出來\n踢到铁板\t踢到鐵板\n踢向\t踢向\n踢回\t踢回\n踢回去\t踢回去\n踢回来\t踢回來\n踢铲\t踢鏟\n踩坏了\t踩壞了\n踪迹\t蹤跡\n踬仆\t躓仆\n蹀里蹀斜\t蹀里蹀斜\n蹇修\t蹇修\n蹈厉之志\t蹈厲之志\n蹈厉奋发\t蹈厲奮發\n蹦出\t蹦出\n蹦出来\t蹦出來\n蹪于\t蹪於\n蹭棱子\t蹭稜子\n蹲了\t蹲了\n蹲板\t蹲板\n蹻跖\t蹻跖\n躁狂抑郁症\t躁狂抑鬱症\n躁狂症\t躁狂症\n躁郁\t躁鬱\n躁郁症\t躁鬱症\n躄出\t躄出\n躏借\t躪藉\n躐胡\t躐胡\n身于\t身於\n身价\t身價\n身价百倍\t身價百倍\n身价非凡\t身價非凡\n身份识别卡\t身份識別卡\n身体发肤\t身體髮膚\n身体里\t身體裡\n身做身当\t身做身當\n身历其境\t身歷其境\n身历声\t身歷聲\n身后\t身後\n身后之事\t身後之事\n身后事\t身後事\n身后萧条\t身後蕭條\n身当其境\t身當其境\n身当矢石\t身當矢石\n身才\t身才\n身教胜于言教\t身教勝於言教\n身教重于言教\t身教重於言教\n身有同感\t身有同感\n身板\t身板\n身板儿\t身板兒\n身正为范\t身正為範\n身系囹圄\t身繫囹圄\n躬先表率\t躬先表率\n躬擐甲胄\t躬擐甲冑\n躯干\t軀幹\n躯干骨\t軀幹骨\n躲一棒槌挨一榔头\t躲一棒槌挨一榔頭\n躲不了\t躲不了\n躲了雷公遇了霹雳\t躲了雷公遇了霹靂\n躲回\t躲回\n躲得不知去向\t躲得不知去向\n躲清闲\t躲清閒\n躲过了风暴又遇了雨\t躲過了風暴又遇了雨\n躺个\t躺個\n躺出\t躺出\n躺出去\t躺出去\n躺出来\t躺出來\n躺回\t躺回\n车仔面\t車仔麵\n车到没恶路\t車到沒惡路\n车厂\t車廠\n车厂子\t車廠子\n车厢里\t車廂裡\n车叶草\t車葉草\n车同轨书同文\t車同軌書同文\n车后箱\t車後箱\n车坛\t車壇\n车夫\t車伕\n车库里\t車庫裡\n车攻马同\t車攻馬同\n车斗\t車斗\n车无退表\t車無退表\n车百合\t車百合\n车种\t車種\n车站里\t車站裡\n车笼里\t車籠裡\n车系\t車系\n车载斗量\t車載斗量\n车里\t車裡\n车里雅宾斯克\t車里雅賓斯克\n车马夫\t車馬伕\n轧制\t軋製\n轧钢厂\t軋鋼廠\n轨制\t軌制\n轨范\t軌範\n轨道面\t軌道面\n轩辟\t軒闢\n转个\t轉個\n转个弯\t轉個彎\n转了\t轉了\n转借\t轉借\n转关系\t轉關係\n转出\t轉出\n转出去\t轉出去\n转出来\t轉出來\n转动曲柄\t轉動曲柄\n转发\t轉發\n转台\t轉檯\n转向\t轉向\n转向信号\t轉向信號\n转向器\t轉向器\n转向往\t轉向往\n转向架\t轉向架\n转向灯\t轉向燈\n转向离合\t轉向離合\n转回\t轉回\n转回去\t轉回去\n转回来\t轉回來\n转圜余地\t轉圜餘地\n转干\t轉幹\n转录\t轉錄\n转念\t轉念\n转意回心\t轉意回心\n转战千里\t轉戰千里\n转托\t轉託\n转折\t轉折\n转折亲\t轉折親\n转折点\t轉折點\n转换\t轉換\n转换方向\t轉換方向\n转播台\t轉播臺\n转斗千里\t轉鬥千里\n转日回天\t轉日回天\n转汇\t轉匯\n转注\t轉註\n转注字\t轉註字\n转游\t轉游\n转系\t轉系\n转胜为败\t轉勝為敗\n转败为胜\t轉敗為勝\n转车台\t轉車臺\n转速表\t轉速錶\n转面无情\t轉面無情\n轮休制\t輪休制\n轮作制度\t輪作制度\n轮值表\t輪值表\n轮发\t輪發\n轮台\t輪臺\n轮台县\t輪臺縣\n轮台古城\t輪臺古城\n轮唱曲\t輪唱曲\n轮回\t輪迴\n轮奸\t輪姦\n轮换\t輪換\n轮旋曲\t輪旋曲\n轮流制\t輪流制\n轮流制作\t輪流製作\n轮流制造\t輪流製造\n轮流干\t輪流幹\n轮班制\t輪班制\n轮班制作\t輪班製作\n轮班制造\t輪班製造\n轮生叶\t輪生葉\n轮种\t輪種\n轮种法\t輪種法\n轮系\t輪系\n轮虫\t輪蟲\n轮调制\t輪調制\n软不叮当\t軟不叮噹\n软件平台\t軟件平臺\n软件开发\t軟件開發\n软件开发人员\t軟件開發人員\n软件技术\t軟件技術\n软件系统\t軟件系統\n软体出版协会\t軟體出版協會\n软困\t軟困\n软肥皂\t軟肥皂\n软软松松\t軟軟鬆鬆\n软面筋\t軟麵筋\n轰了\t轟了\n轰出\t轟出\n轰出去\t轟出去\n轰出来\t轟出來\n轴承合金\t軸承合金\n轴根系\t軸根系\n轴系\t軸系\n轴舻千里\t軸艫千里\n轴面\t軸面\n轶荡\t軼蕩\n轸念\t軫念\n轻于\t輕於\n轻于鸿毛\t輕於鴻毛\n轻叹\t輕嘆\n轻度台风\t輕度颱風\n轻扣\t輕釦\n轻松\t輕鬆\n轻松地\t輕鬆地\n轻松愉快\t輕鬆愉快\n轻松自在\t輕鬆自在\n轻松自如\t輕鬆自如\n轻核\t輕核\n轻油裂解工厂\t輕油裂解工廠\n轻烟\t輕煙\n轻蔑\t輕蔑\n轻蔑性\t輕蔑性\n轻袅袅\t輕嫋嫋\n轻轻松松\t輕輕鬆鬆\n载于\t載於\n载出\t載出\n载出去\t載出去\n载出来\t載出來\n载浮载沉\t載浮載沉\n载满了\t載滿了\n载舟覆舟\t載舟覆舟\n轿夫\t轎伕\n辁才\t輇才\n较于\t較於\n较胜一筹\t較勝一籌\n辅导团\t輔導團\n辅系\t輔系\n辅赞\t輔贊\n辈出\t輩出\n辈子干\t輩子幹\n辉格党\t輝格黨\n辉格党人\t輝格黨人\n辉绿岩\t輝綠岩\n辉长岩\t輝長岩\n辍耕录\t輟耕錄\n辐射警告标志\t輻射警告標誌\n辑录\t輯錄\n辑录出来\t輯錄出來\n输了\t輸了\n输入系统\t輸入系統\n输入许可制\t輸入許可制\n输出\t輸出\n输出业\t輸出業\n输出入\t輸出入\n输出到\t輸出到\n输出功率\t輸出功率\n输出区\t輸出區\n输出去\t輸出去\n输出变压\t輸出變壓\n输出品\t輸出品\n输出国\t輸出國\n输出来\t輸出來\n输出管\t輸出管\n输出表\t輸出表\n输出量\t輸出量\n输出阻抗\t輸出阻抗\n输征\t輸征\n辖制\t轄制\n辗米厂\t輾米廠\n辛丑\t辛丑\n辛丑和约\t辛丑和約\n辛丑条约\t辛丑條約\n辛克\t辛克\n辛辣面\t辛辣麵\n辛里希\t辛里希\n辜濂松\t辜濂松\n辞不获命\t辭不獲命\n辞丰意雄\t辭豐意雄\n辞修\t辭修\n辞别\t辭別\n辞托\t辭託\n辞汇\t辭彙\n辞致\t辭致\n辞采\t辭采\n辟世\t辟世\n辟为\t闢為\n辟举\t辟舉\n";

/// Part 131 of the text.
pub const ST_PHRASES_131: &'static str = "辟书\t辟書\n辟人之士\t辟人之士\n辟佛\t闢佛\n辟作\t闢作\n辟出\t闢出\n辟划\t闢劃\n辟匿\t辟匿\n辟历施鞭\t辟歷施鞭\n辟召\t辟召\n辟君三舍\t辟君三舍\n辟命\t辟命\n辟咡\t辟咡\n辟土\t闢土\n辟地\t闢地\n辟地开天\t闢地開天\n辟室\t闢室\n辟廱\t辟廱\n辟建\t闢建\n辟引\t辟引\n辟恶\t辟惡\n辟恶除患\t辟惡除患\n辟支佛\t辟支佛\n辟易\t辟易\n辟淫\t辟淫\n辟然\t辟然\n辟田\t闢田\n辟筑\t闢築\n辟纑\t辟纑\n辟色\t辟色\n辟芷\t辟芷\n辟言\t辟言\n辟设\t闢設\n辟谣\t闢謠\n辟谷\t辟穀\n辟谷绝粒\t辟穀絕粒\n辟辟\t闢辟\n辟违\t辟違\n辟逻\t辟邏\n辟邪\t辟邪\n辟邪以律\t闢邪以律\n辟雍\t辟雍\n辟雍砚\t辟雍硯\n辣哈布\t辣哈布\n辣椒面\t辣椒麵\n辣胡椒\t辣胡椒\n辨出\t辨出\n辨别\t辨別\n辨别出来\t辨別出來\n辨别力\t辨別力\n辨别是非\t辨別是非\n辨向\t辨向\n辨复\t辨復\n辨奸论\t辨姦論\n辨志\t辨志\n辨折\t辨折\n辨认出\t辨認出\n辨认出来\t辨認出來\n辨识出\t辨識出\n辩别\t辯別\n辩才\t辯才\n辩才天\t辯才天\n辩才无碍\t辯才無礙\n辩斗\t辯鬥\n辩论术\t辯論術\n辫发\t辮髮\n辫穗头\t辮穗頭\n辰溪\t辰谿\n辱游\t辱游\n边修\t邊修\n边境冲突\t邊境衝突\n边幅不修\t邊幅不修\n边核\t邊核\n边角里\t邊角裡\n辽三彩\t遼三彩\n辽太后\t遼太后\n辽宁师范大学\t遼寧師範大學\n辽沈\t遼瀋\n达克\t達克\n达克龙\t達克龍\n达尔罕茂明安联合旗\t達爾罕茂明安聯合旗\n达布洛沃斯基\t達布洛沃斯基\n达欣杯\t達欣盃\n达沃斯论坛\t達沃斯論壇\n达瓦党\t達瓦黨\n达致\t達致\n迁了\t遷了\n迁于\t遷於\n迁出\t遷出\n迁出去\t遷出去\n迁出来\t遷出來\n迁升\t遷升\n迁厂\t遷廠\n迁台\t遷臺\n迁回\t遷回\n迁回去\t遷回去\n迁回来\t遷回來\n迁就于\t遷就於\n迁怒于\t遷怒於\n迁怒于人\t遷怒於人\n迁思回虑\t遷思迴慮\n迂回\t迂迴\n迂回奔袭\t迂回奔襲\n迂回战术\t迂迴戰術\n迂回曲折\t迂迴曲折\n迂徊战术\t迂徊戰術\n迂曲\t迂曲\n迂迂曲曲\t迂迂曲曲\n迅即出发\t迅即出發\n迅速发展\t迅速發展\n过不了\t過不了\n过世面\t過世面\n过了\t過了\n过了这个村儿没这个店儿\t過了這個村兒沒這個店兒\n过了这村没这店\t過了這村沒這店\n过了青春无少年\t過了青春無少年\n过于\t過於\n过云雨\t過雲雨\n过人才略\t過人才略\n过冬\t過冬\n过冲\t過沖\n过几\t過幾\n过几周\t過幾週\n过出\t過出\n过动症\t過動症\n过半\t過半\n过历\t過歷\n过去了\t過去了\n过后\t過後\n过境签证\t過境簽證\n过失致死\t過失致死\n过家伙\t過傢伙\n过干瘾\t過乾癮\n过庭录\t過庭錄\n过当\t過當\n过当防卫\t過當防衛\n过录\t過錄\n过得了\t過得了\n过敏性休克\t過敏性休克\n过敏症\t過敏症\n过杆\t過杆\n过松\t過鬆\n过桥抽板\t過橋抽板\n过梁\t過樑\n过水面\t過水麵\n过河抽板\t過河抽板\n过滤出来\t過濾出來\n过滤嘴香烟\t過濾嘴香菸\n过眼云烟\t過眼雲煙\n过眼烟云\t過眼煙雲\n过耳秋风\t過耳秋風\n过蒙\t過蒙\n过道里\t過道裡\n迈了\t邁了\n迈克\t邁克\n迈克尔\t邁克爾\n迈克尔克莱顿\t邁克爾克萊頓\n迈克尔杰克逊\t邁克爾傑克遜\n迈出\t邁出\n迈向\t邁向\n迈科里\t邁科里\n迎出\t迎出\n迎合\t迎合\n迎合人心\t迎合人心\n迎向\t迎向\n迎向前去\t迎向前去\n迎回\t迎回\n迎奸卖俏\t迎奸賣俏\n迎宾曲\t迎賓曲\n迎斗灯\t迎斗燈\n迎春曲\t迎春曲\n迎面\t迎面\n迎面而来\t迎面而來\n运出\t運出\n运出去\t運出去\n运出来\t運出來\n运出运费\t運出運費\n运动党\t運動黨\n运回\t運回\n运回去\t運回去\n运回来\t運回來\n运用之妙在于一心\t運用之妙在於一心\n运用于\t運用於\n运筹决胜\t運籌決勝\n运筹千里\t運籌千里\n运输系统\t運輸系統\n运输设备修护费\t運輸設備修護費\n近乎同步\t近乎同步\n近乎同步数位阶层\t近乎同步數位階層\n近了\t近了\n近于\t近於\n近似于\t近似於\n近几年\t近幾年\n近几年来\t近幾年來\n近思录\t近思錄\n近日无仇\t近日無仇\n近日里\t近日裡\n近朱者赤\t近朱者赤\n近朱者赤近墨者黑\t近朱者赤近墨者黑\n近朱近墨\t近朱近墨\n近水楼台\t近水樓臺\n近视眼生了瞎子\t近視眼生了瞎子\n返佣\t返佣\n返台\t返臺\n返吟复吟\t返吟復吟\n返回\t返回\n返复\t返復\n返朴\t返樸\n返照回光\t返照回光\n返还占有\t返還占有\n返里\t返里\n返魂乏术\t返魂乏術\n还不出\t還不出\n还乡团\t還鄉團\n还了\t還了\n还了得\t還了得\n还于\t還於\n还价\t還價\n还修\t還修\n还冲\t還衝\n还出\t還出\n还出去\t還出去\n还出来\t還出來\n还占\t還佔\n还原熔炼\t還原熔煉\n还发\t還發\n还向\t還向\n还回\t還回\n还愿\t還願\n还愿意\t還願意\n还政于民\t還政於民\n还是\t還是\n还淳反朴\t還淳反樸\n还淳返朴\t還淳返樸\n还珠合浦\t還珠合浦\n还辟\t還辟\n还采\t還採\n这一个\t這一個\n这个\t這個\n这个当儿\t這個當兒\n这个挡口\t這個擋口\n这个月\t這個月\n这个那个\t這個那個\n这么\t這麼\n这么个\t這麼個\n这么干\t這麼幹\n这么着\t這麼著\n这些个\t這些個\n这伙人\t這夥人\n这几个\t這幾個\n这几个人\t這幾個人\n这几个月\t這幾個月\n这几周\t這幾週\n这几天\t這幾天\n这几次\t這幾次\n这出剧\t這齣劇\n这出好戏\t這齣好戲\n这出电影\t這齣電影\n这只\t這隻\n这只不\t這只不\n这只会\t這只會\n这只够\t這只夠\n这只怕\t這只怕\n这只是\t這只是\n这只有\t這只有\n这只能\t這只能\n这只要\t這只要\n这只需\t這只需\n这只靠\t這只靠\n这周\t這週\n这周围\t這周圍\n这周边\t這周邊\n这周遭\t這周遭\n这回\t這回\n这回事\t這回事\n这当儿\t這當兒\n这方面\t這方面\n这最多\t這最多\n这本里\t這本裡\n这杯\t這杯\n这注\t這注\n这海里\t這海裡\n这种\t這種\n这种事\t這種事\n这种人\t這種人\n这种方式\t這種方式\n这般干法\t這般幹法\n这还了得\t這還了得\n这里\t這裡\n这里会\t這裡會\n这里在\t這裡在\n这里是\t這裡是\n这里有\t這裡有\n这里能\t這裡能\n这钟\t這鐘\n进一步规范\t進一步規範\n进不了\t進不了\n进了\t進了\n进了天堂\t進了天堂\n进了海里\t進了海裡\n进价\t進價\n进修\t進修\n进修班\t進修班\n进出\t進出\n进出口\t進出口\n进出口商\t進出口商\n进出境\t進出境\n进占\t進佔\n进厂\t進廠\n进发\t進發\n进口加签权\t進口加簽權\n进士出身\t進士出身\n进幸\t進幸\n进度表\t進度表\n进得了\t進得了\n进德修业\t進德修業\n进步伙伴展\t進步夥伴展\n进步党\t進步黨\n进海里\t進海裡\n进行曲\t進行曲\n进货价\t進貨價\n进货让价\t進貨讓價\n进货退出\t進貨退出\n进货退回\t進貨退回\n进进出出\t進進出出\n进退失据\t進退失據\n进退无据\t進退無據\n进退维谷\t進退維谷\n进香团\t進香團\n远东技术学院\t遠東技術學院\n远于\t遠於\n远亲近戚\t遠親近戚\n远别\t遠別\n远县才至\t遠縣才至\n远处夸称近方卖弄\t遠處誇稱近方賣弄\n远引曲喻\t遠引曲喻\n远征\t遠征\n远征军\t遠征軍\n远志\t遠志\n远恶\t遠惡\n远房亲戚\t遠房親戚\n远打周折\t遠打周折\n";

/// Part 132 of the text.
pub const ST_PHRASES_132: &'static str = "远期外汇\t遠期外匯\n远水救不了近火\t遠水救不了近火\n远游\t遠遊\n远程登录\t遠程登錄\n远端监控系统\t遠端監控系統\n远端签入\t遠端簽入\n远胄\t遠胄\n远胜\t遠勝\n远距图书服务系统\t遠距圖書服務系統\n远远落后\t遠遠落後\n远隔千里\t遠隔千里\n违禁药品\t違禁藥品\n违章建筑\t違章建築\n违纪参选\t違紀參選\n连三并四\t連三併四\n连个\t連個\n连了\t連了\n连于\t連於\n连云\t連雲\n连云区\t連雲區\n连云叠嶂\t連雲疊嶂\n连云港\t連雲港\n连云港市\t連雲港市\n连亘\t連亙\n连出\t連出\n连升\t連升\n连占\t連佔\n连卷\t連卷\n连发\t連發\n连台\t連臺\n连台好戏\t連臺好戲\n连台本戏\t連臺本戲\n连合\t連合\n连同\t連同\n连哄带骗\t連哄帶騙\n连回\t連回\n连城之价\t連城之價\n连带关系\t連帶關係\n连年丰收\t連年豐收\n连庄\t連莊\n连战连胜\t連戰連勝\n连杆\t連桿\n连杆机构\t連桿機構\n连枝分叶\t連枝分葉\n连枝带叶\t連枝帶葉\n连根拔出\t連根拔出\n连珠合璧\t連珠合璧\n连登云路\t連登雲路\n连种\t連種\n连系\t連繫\n连系词\t連繫詞\n连系起来\t連繫起來\n连胜\t連勝\n连胜文\t連勝文\n连采\t連採\n连镳并轸\t連鑣並軫\n连须胡子\t連鬚鬍子\n连鬓胡子\t連鬢鬍子\n连鬼也不见一个\t連鬼也不見一個\n迟了\t遲了\n迟发性损伤\t遲發性損傷\n迟回\t遲迴\n迟回观望\t遲回觀望\n迢迢千里\t迢迢千里\n迥不相同\t迥不相同\n迥乎不同\t迥乎不同\n迥别\t迥別\n迥然不同\t迥然不同\n迥然回异\t迥然迴異\n迥然有别\t迥然有別\n迦叶\t迦葉\n迦叶佛\t迦葉佛\n迦叶尊者\t迦葉尊者\n迪克\t迪克\n迪克斯\t迪克斯\n迪化厂\t迪化廠\n迪吉苏斯\t迪吉蘇斯\n迪拉萨布里\t迪拉薩布里\n迪雅巴克\t迪雅巴克\n迪黑苏斯\t迪黑蘇斯\n迫于\t迫於\n迫于形势\t迫於形勢\n迫于眉睫\t迫於眉睫\n迭出迭入\t迭出迭入\n迭有发现\t迭有發現\n迭有斩获\t迭有斬獲\n迭见杂出\t迭見雜出\n迷了\t迷了\n迷了心窍\t迷了心竅\n迷于\t迷於\n迷团\t迷團\n迷奸\t迷姦\n迷幻药\t迷幻藥\n迷彩\t迷彩\n迷彩服\t迷彩服\n迷彩裤\t迷彩褲\n迷暗\t迷暗\n迷胡\t迷胡\n迷药\t迷藥\n迷蒙\t迷濛\n迷迷蒙蒙\t迷迷濛濛\n迷魂药\t迷魂藥\n迸出\t迸出\n迸发\t迸發\n迸发出\t迸發出\n迹蹈\t蹟蹈\n追凶\t追兇\n追出\t追出\n追向\t追向\n追回\t追回\n追念\t追念\n追思弥撒\t追思彌撒\n追查出\t追查出\n追求幸福\t追求幸福\n退伍军人症\t退伍軍人症\n退伙\t退夥\n退党\t退黨\n退出\t退出\n退出运行\t退出運行\n退前缩后\t退前縮後\n退后\t退後\n退向\t退向\n退回\t退回\n退团\t退團\n退居幕后\t退居幕後\n退徙三舍\t退徙三舍\n退换\t退換\n退有后言\t退有後言\n退烧药\t退燒藥\n退藏于密\t退藏於密\n退避三舍\t退避三舍\n退针\t退針\n送个\t送個\n送了\t送了\n送修\t送修\n送出\t送出\n送别\t送別\n送君千里\t送君千里\n送回\t送回\n送客出门\t送客出門\n送客台\t送客臺\n送报夫\t送報伕\n送秋波\t送秋波\n适不适合\t適不適合\n适中\t適中\n适中下怀\t適中下懷\n适之\t適之\n适于\t適於\n适人\t適人\n适从\t適從\n适任\t適任\n适值\t適值\n适切\t適切\n适口\t適口\n适可而止\t適可而止\n适合\t適合\n适合于\t適合於\n适合者\t適合者\n适婚\t適婚\n适婚年龄\t適婚年齡\n适婚期\t適婚期\n适婚者\t適婚者\n适孙\t適孫\n适宜\t適宜\n适应\t適應\n适应力\t適應力\n适应性\t適應性\n适应期\t適應期\n适应环境\t適應環境\n适应症\t適應症\n适度\t適度\n适度微调\t適度微調\n适当\t適當\n适当地\t適當地\n适当性\t適當性\n适当的\t適當的\n适当范围\t適當範圍\n适得其反\t適得其反\n适得其所\t適得其所\n适性\t適性\n适意\t適意\n适才\t適才\n适时\t適時\n适时地\t適時地\n适材适用\t適材適用\n适来\t適來\n适法性\t適法性\n适然\t適然\n适用\t適用\n适用于\t適用於\n适用性\t適用性\n适用者\t適用者\n适用范围\t適用範圍\n适者\t適者\n适者生存\t適者生存\n适航性\t適航性\n适航指令\t適航指令\n适逢\t適逢\n适逢其会\t適逢其會\n适配层\t適配層\n适量\t適量\n适销\t適銷\n适销对路\t適銷對路\n适间\t適間\n适闷\t適悶\n适龄\t適齡\n逃不了\t逃不了\n逃不出\t逃不出\n逃不出手掌心\t逃不出手掌心\n逃了\t逃了\n逃债台\t逃債臺\n逃出\t逃出\n逃出去\t逃出去\n逃出来\t逃出來\n逃出生天\t逃出生天\n逃出虎口\t逃出虎口\n逃回\t逃回\n逃脱出\t逃脫出\n逆价差\t逆價差\n逆党\t逆黨\n逆入平出\t逆入平出\n逆向\t逆向\n逆向公车\t逆向公車\n逆向思考\t逆向思考\n逆向拥塞通知\t逆向擁塞通知\n逆向整合\t逆向整合\n逆向行驶\t逆向行駛\n逆折\t逆折\n逆时针\t逆時針\n逆转录\t逆轉錄\n逆转录病毒\t逆轉錄病毒\n逆转录酶\t逆轉錄酶\n逆钟\t逆鐘\n逆钟向\t逆鐘向\n选个\t選個\n选举人团\t選舉人團\n选举制\t選舉制\n选举制度\t選舉制度\n选修\t選修\n选修科\t選修科\n选修科目\t選修科目\n选修课\t選修課\n选出\t選出\n选出来\t選出來\n选后\t選後\n选录\t選錄\n选手表决\t選手表決\n选手表明\t選手表明\n选手表现\t選手表現\n选手表示\t選手表示\n选手表达\t選手表達\n选才\t選才\n选拔出\t選拔出\n选拔干部\t選拔幹部\n选择范围\t選擇範圍\n选曲\t選曲\n选校不选系\t選校不選系\n选民代表\t選民代表\n选民参加率\t選民參加率\n选派代表\t選派代表\n选种\t選種\n选系\t選系\n选系不选校\t選系不選校\n选美皇后\t選美皇后\n逊于\t遜於\n逊克\t遜克\n逊克县\t遜克縣\n逊志时敏\t遜志時敏\n逋发\t逋髮\n逋荡\t逋蕩\n逍遥游\t逍遙遊\n透了\t透了\n透出\t透出\n透出去\t透出去\n透出来\t透出來\n透漏出\t透漏出\n透辟\t透闢\n透露出\t透露出\n逐个\t逐個\n逐出\t逐出\n逐出门墙\t逐出門牆\n逐末舍本\t逐末捨本\n逐步升级\t逐步升級\n递了\t遞了\n递出\t遞出\n递出去\t遞出去\n递出来\t遞出來\n递升\t遞升\n递向\t遞向\n递回\t遞迴\n递回去\t遞回去\n递回来\t遞回來\n递推关系\t遞推關係\n递解出境\t遞解出境\n途径\t途徑\n逗人发笑\t逗人發笑\n通了\t通了\n通事舍人\t通事舍人\n通于\t通於\n通人达才\t通人達才\n通便药\t通便藥\n通信技术\t通信技術\n通信系统\t通信系統\n通党库\t通黨庫\n通力合作\t通力合作\n通历\t通曆\n通合一气\t通合一氣\n通同\t通同\n通同一气\t通同一氣\n通向\t通向\n通奸\t通姦\n通奸罪\t通姦罪\n通布图\t通佈圖\n通庄\t通莊\n通心面\t通心麵\n通志\t通志\n通志馆\t通志館\n通才\t通才\n通才教育\t通才教育\n通才练识\t通才練識\n通汇\t通匯\n通用汉字标准交换码\t通用漢字標準交換碼\n通用资源识别号\t通用資源識別號\n通盘计划\t通盤計劃\n通红\t通紅\n通联记录\t通聯記錄\n通讯录\t通訊錄\n通讯系统\t通訊系統\n通讯里\t通訊裡\n通车里程\t通車里程\n通过事后\t通過事後\n通道里\t通道裡\n通鉴\t通鑑\n逛了\t逛了\n逛出\t逛出\n逛出去\t逛出去\n逛出来\t逛出來\n逛回\t逛回\n逛回去\t逛回去\n逛回来\t逛回來\n逛荡\t逛蕩\n逞凶\t逞兇\n逞凶斗狠\t逞兇鬥狠\n";

/// Part 133 of the text.
pub const ST_PHRASES_133: &'static str = "逞异夸能\t逞異誇能\n逞志\t逞志\n逞恶\t逞惡\n逞欲\t逞欲\n速克达\t速克達\n速去速回\t速去速回\n速回\t速回\n速食面\t速食麵\n造价\t造價\n造出\t造出\n造出来\t造出來\n造型艺术\t造型藝術\n造天立极\t造天立極\n造就人才\t造就人才\n造就出\t造就出\n造岩矿物\t造岩礦物\n造币厂\t造幣廠\n造形艺术\t造形藝術\n造曲\t造麴\n造极登峰\t造極登峰\n造福万民\t造福萬民\n造纸厂\t造紙廠\n造纸术\t造紙術\n造船厂\t造船廠\n造船系\t造船系\n造血干\t造血幹\n造血干细胞\t造血幹細胞\n造钟\t造鐘\n造钟表\t造鐘錶\n逢人只说三分话\t逢人只說三分話\n逢低卖出\t逢低賣出\n逢凶化吉\t逢凶化吉\n逢君之恶\t逢君之惡\n逢蒙\t逢蒙\n逢高卖出\t逢高賣出\n逮系\t逮繫\n逮获\t逮獲\n逸出\t逸出\n逸出功\t逸出功\n逸周书\t逸周書\n逸才\t逸才\n逸欲\t逸欲\n逸游自恣\t逸游自恣\n逸群之才\t逸群之才\n逸致\t逸緻\n逻辑链路控制\t邏輯鏈路控制\n逼上梁山\t逼上梁山\n逼下台\t逼下臺\n逼了\t逼了\n逼出\t逼出\n逼出去\t逼出去\n逼出来\t逼出來\n逼向\t逼向\n逼回\t逼回\n逼回去\t逼回去\n逼回来\t逼回來\n逼并\t逼併\n逾出\t逾出\n逾闲荡检\t逾閑蕩檢\n遂其所愿\t遂其所願\n遂愿\t遂願\n遄征\t遄征\n遇合\t遇合\n遇风后\t遇風後\n遍于\t遍於\n遍历\t遍歷\n遍布\t遍佈\n遏云\t遏雲\n遏云社\t遏雲社\n遏制\t遏制\n遏恶扬善\t遏惡揚善\n遐布\t遐布\n遐志\t遐志\n遐胄\t遐胄\n道不了\t道不了\n道不出\t道不出\n道不同不相为谋\t道不同不相為謀\n道克鲁\t道克魯\n道冲\t道沖\n道出\t道出\n道别\t道別\n道合志同\t道合志同\n道同志合\t道同志合\n道听涂说\t道聽塗說\n道咸\t道咸\n道尔顿制\t道爾頓制\n道尽\t道盡\n道尽涂殚\t道盡塗殫\n道尽途穷\t道盡途窮\n道德发展\t道德發展\n道德困境\t道德困境\n道德规范\t道德規範\n道曲\t道曲\n道术\t道術\n道格拉斯麦克阿瑟\t道格拉斯麥克阿瑟\n道种智\t道種智\n道范\t道範\n道范长昭\t道範長昭\n道里\t道里\n道里区\t道里區\n道鉴\t道鑒\n遗传钟\t遺傳鐘\n遗体告别式\t遺體告別式\n遗害万年\t遺害萬年\n遗志\t遺志\n遗忘症\t遺忘症\n遗念\t遺念\n遗恨千古\t遺恨千古\n遗愿\t遺願\n遗才\t遺才\n遗胄\t遺胄\n遗臭万代\t遺臭萬代\n遗臭万年\t遺臭萬年\n遗臭万载\t遺臭萬載\n遗臭千年\t遺臭千年\n遗范\t遺範\n遗葑菲采\t遺葑菲采\n遗表\t遺表\n遗迹\t遺蹟\n遗风余\t遺風餘\n遣发\t遣發\n遣回\t遣回\n遣送出境\t遣送出境\n遣送回\t遣送回\n遣送回国\t遣送回國\n遥地里\t遙地裡\n遥念\t遙念\n遥测技术\t遙測技術\n遥胄\t遙胄\n遥遥华胄\t遙遙華胄\n遨游\t遨遊\n遨游四海\t遨遊四海\n遨游天下\t遨遊天下\n遭人暗算\t遭人暗算\n遭致\t遭致\n遮不了\t遮不了\n遮丑\t遮醜\n遮光板\t遮光板\n遮前掩后\t遮前掩後\n遮场面\t遮場面\n遮头盖面\t遮頭蓋面\n遮护板\t遮護板\n遮挽\t遮挽\n遮羞布\t遮羞布\n遮覆\t遮覆\n遮道挽留\t遮道挽留\n遮阳板\t遮陽板\n遮面\t遮面\n遴选出\t遴選出\n遴选出来\t遴選出來\n避不见面\t避不見面\n避了\t避了\n避凶就吉\t避凶就吉\n避凶趋吉\t避凶趨吉\n避向\t避向\n避孕药\t避孕藥\n避恶\t避惡\n避暑胜地\t避暑勝地\n避雷针\t避雷針\n避风台\t避風臺\n邀天之幸\t邀天之幸\n邅回\t邅回\n邋里邋遢\t邋裡邋遢\n邑里\t邑里\n邓布利多\t鄧布利多\n邢台\t邢臺\n邢台县\t邢臺縣\n邢台地区\t邢臺地區\n邢台市\t邢臺市\n那个\t那個\n那个人\t那個人\n那个猫儿不吃腥\t那個貓兒不吃腥\n那个耗子不偷油\t那個耗子不偷油\n那么\t那麼\n那么干\t那麼幹\n那么着\t那麼著\n那伙人\t那夥人\n那借\t那借\n那几\t那幾\n那几个\t那幾個\n那几只\t那幾隻\n那几周\t那幾週\n那几天\t那幾天\n那几次\t那幾次\n那出剧\t那齣劇\n那出好戏\t那齣好戲\n那出电影\t那齣電影\n那卷\t那捲\n那只\t那隻\n那只不\t那只不\n那只够\t那只夠\n那只怕\t那只怕\n那只是\t那只是\n那只有\t那只有\n那只能\t那只能\n那只要\t那只要\n那只需\t那只需\n那只靠\t那只靠\n那台\t那臺\n那周\t那週\n那周围\t那周圍\n那周边\t那周邊\n那周遭\t那周遭\n那回\t那回\n那当儿\t那當兒\n那斯达克\t那斯達克\n那方面\t那方面\n那曲\t那曲\n那曲县\t那曲縣\n那曲地区\t那曲地區\n那曲市\t那曲市\n那最多\t那最多\n那杯\t那杯\n那种\t那種\n那种人\t那種人\n那维克\t那維克\n那里\t那裡\n邪不干正\t邪不干正\n邪不胜正\t邪不勝正\n邪念\t邪念\n邪恶\t邪惡\n邪恶轴心\t邪惡軸心\n邪曲\t邪曲\n邪术\t邪術\n邪辟\t邪辟\n邮政储金转存制度\t郵政儲金轉存制度\n邮政划拨\t郵政劃撥\n邮政汇票\t郵政匯票\n邮汇\t郵匯\n邮汇局\t郵匯局\n邮购价格\t郵購價格\n邮购目录\t郵購目錄\n邱富郁\t邱富郁\n邱正杰\t邱正傑\n邱胜琦\t邱勝琦\n邱胜翊\t邱勝翊\n邱郁婷\t邱郁婷\n邵廷采\t邵廷采\n邵杰\t邵傑\n邵维杰\t邵維傑\n邸舍\t邸舍\n邻曲\t鄰曲\n邻舍\t鄰舍\n邻里\t鄰里\n邻里乡党\t鄰里鄉黨\n邻里长\t鄰里長\n郁伊\t鬱伊\n郁勃\t鬱勃\n郁卒\t鬱卒\n郁南\t鬱南\n郁南县\t鬱南縣\n郁哉\t郁哉\n郁垒\t鬱壘\n郁堙不偶\t鬱堙不偶\n郁塞\t鬱塞\n郁多罗\t郁多羅\n郁律\t鬱律\n郁悒\t鬱悒\n郁愤\t鬱憤\n郁抑\t鬱抑\n郁挹\t鬱挹\n郁朴\t郁樸\n郁李\t郁李\n郁林\t鬱林\n郁气\t鬱氣\n郁江\t鬱江\n郁沉沉\t鬱沉沉\n郁泱\t鬱泱\n郁火\t鬱火\n郁烈\t郁烈\n郁热\t鬱熱\n郁燠\t鬱燠\n郁症\t鬱症\n郁离子\t郁離子\n郁积\t鬱積\n郁穆\t郁穆\n郁纡\t鬱紆\n郁结\t鬱結\n郁蒸\t鬱蒸\n郁蓊\t鬱蓊\n郁血\t鬱血\n郁达夫\t郁達夫\n郁迦罗越\t郁迦羅越\n郁邑\t鬱邑\n郁郁\t鬱郁\n郁郁不乐\t鬱鬱不樂\n郁郁不平\t鬱鬱不平\n郁郁寡欢\t鬱鬱寡歡\n郁郁而终\t鬱鬱而終\n郁郁菲菲\t郁郁菲菲\n郁郁葱葱\t鬱鬱蔥蔥\n郁郁青青\t郁郁青青\n郁金\t鬱金\n郁金香\t鬱金香\n郁闭\t鬱閉\n郁闭度\t鬱閉度\n郁闷\t鬱悶\n郁闷不乐\t鬱悶不樂\n郁陶\t鬱陶\n郁馥\t郁馥\n郁黑\t鬱黑\n郇山隐修会\t郇山隱修會\n郊坛\t郊壇\n郊坛下窑\t郊壇下窯\n郊游\t郊遊\n郎个\t郎個\n郎之万\t郎之萬\n郎当\t郎當\n郎才女姿\t郎才女姿\n郎才女貌\t郎才女貌\n郎潜白发\t郎潛白髮\n郑丞杰\t鄭丞傑\n郑丰喜\t鄭豐喜\n郑余豪\t鄭余豪\n郑俊杰\t鄭俊傑\n郑克塽\t鄭克塽\n郑克爽\t鄭克爽\n郑凯云\t鄭凱云\n郑卫之曲\t鄭衛之曲\n郑家钟\t鄭家鐘\n郑幸娟\t鄭幸娟\n郑庄公\t鄭莊公\n郑志龙\t鄭志龍\n郑明修\t鄭明修\n郑易里\t鄭易里\n郑杰文\t鄭傑文\n郑板桥\t鄭板橋\n郑梦准\t鄭夢準\n郑苹如\t鄭蘋如\n郑荣松\t鄭榮松\n郑重宣布\t鄭重宣佈\n郘钟\t郘鐘\n郝铭鉴\t郝銘鑒\n郡县制\t郡縣制\n郡县制度\t郡縣制度\n郡国制\t郡國制\n部下里\t部下裡\n部党\t部黨\n部发\t部發\n部曲\t部曲\n部胡林\t部胡林\n部落\t部落\n部落同盟\t部落同盟\n郭勇志\t郭勇志\n郭台成\t郭台成\n郭台铭\t郭台銘\n郭子干\t郭子乾\n郭志明\t郭志明\n郭松焘\t郭松燾\n郭泓志\t郭泓志\n郭采洁\t郭采潔\n都于\t都於\n都俞吁咈\t都俞吁咈\n都出\t都出\n都出去\t都出去\n";

/// Part 134 of the text.
pub const ST_PHRASES_134: &'static str = "都出来\t都出來\n都卜勒\t都卜勒\n都发\t都發\n都发局\t都發局\n都发局长\t都發局長\n都受了\t都受了\n都向\t都向\n都回\t都回\n都回去\t都回去\n都回来\t都回來\n都市计划\t都市計劃\n都必须\t都必須\n都念\t都念\n都是\t都是\n都肯干\t都肯幹\n都舍下\t都捨下\n鄂托克\t鄂托克\n鄂托克前旗\t鄂托克前旗\n鄂托克旗\t鄂托克旗\n鄂温克族\t鄂溫克族\n鄂温克族自治旗\t鄂溫克族自治旗\n鄂温克语\t鄂溫克語\n鄂霍次克海\t鄂霍次克海\n酉溪\t酉谿\n酋长制度\t酋長制度\n酌古御今\t酌古御今\n配了\t配了\n配享千秋\t配享千秋\n配件挂勾\t配件掛勾\n配位化合物\t配位化合物\n配出\t配出\n配出来\t配出來\n配制\t配製\n配制饲料\t配制飼料\n配发\t配發\n配合\t配合\n配合上\t配合上\n配合度\t配合度\n配合款\t配合款\n配合着\t配合著\n配合禁忌\t配合禁忌\n配合起来\t配合起來\n配合题\t配合題\n配水干管\t配水幹管\n配水系统\t配水系統\n配种\t配種\n配种季节\t配種季節\n配给制度\t配給制度\n配膳台\t配膳檯\n配药\t配藥\n配药师\t配藥師\n配送范围\t配送範圍\n酒入舌出\t酒入舌出\n酒厂\t酒廠\n酒后\t酒後\n酒后吐真言\t酒後吐真言\n酒后失态\t酒後失態\n酒后失言\t酒後失言\n酒后驾车\t酒後駕車\n酒后驾驶\t酒後駕駛\n酒吧里\t酒吧裡\n酒困\t酒困\n酒坛\t酒罈\n酒娘子\t酒娘子\n酒已干\t酒已乾\n酒帘\t酒帘\n酒帘子\t酒帘子\n酒干了\t酒乾了\n酒干尽\t酒乾盡\n酒干掉\t酒乾掉\n酒恶\t酒惡\n酒曲\t酒麴\n酒有别肠\t酒有別腸\n酒杯\t酒杯\n酒柜\t酒櫃\n酒气冲天\t酒氣沖天\n酒气熏人\t酒氣熏人\n酒注子\t酒注子\n酒游花\t酒游花\n酒病酒药医\t酒病酒藥醫\n酒肴\t酒餚\n酒胡\t酒胡\n酒药\t酒藥\n酒逢知己千钟少\t酒逢知己千鍾少\n酒醴曲蘖\t酒醴麴櫱\n酒里\t酒裡\n酒面\t酒面\n酒食征逐\t酒食徵逐\n酝借\t醞藉\n酝酿出\t醞釀出\n酣嬉淋漓\t酣嬉淋漓\n酣畅淋漓\t酣暢淋漓\n酥松\t酥鬆\n酥松可口\t酥鬆可口\n酥松油脂\t酥鬆油脂\n酥签\t酥簽\n酩子里\t酩子裡\n酮体症\t酮體症\n酱面\t醬麵\n酷刑折磨\t酷刑折磨\n酷毙了\t酷斃了\n酸懒\t痠懶\n酸疼\t痠疼\n酸痛\t痠痛\n酸菜鱼面\t酸菜魚麵\n酸软\t痠軟\n酸辣面\t酸辣麵\n酸酸咸咸\t酸酸鹹鹹\n酸麻\t痠麻\n酿出\t釀出\n酿制\t釀製\n酿造出来\t釀造出來\n酿酒厂\t釀酒廠\n醇朴\t醇樸\n醇郁\t醇郁\n醉于\t醉於\n醉心于\t醉心於\n醉熏熏\t醉熏熏\n醋坛\t醋罈\n醋坛子\t醋罈子\n醋娘子要食杨梅\t醋娘子要食楊梅\n醋栗\t醋栗\n醋酸纤维\t醋酸纖維\n醒吾技术学院\t醒吾技術學院\n醒狮团\t醒獅團\n醣厂\t醣廠\n醮坛\t醮壇\n醯鸡甕里\t醯雞甕裡\n采下\t採下\n采下去\t採下去\n采下来\t採下來\n采为\t採為\n采买\t採買\n采伐\t採伐\n采住\t採住\n采信\t採信\n采光\t採光\n采光剖璞\t采光剖璞\n采兰赠芍\t采蘭贈芍\n采兰赠药\t採蘭贈藥\n采写\t採寫\n采到\t採到\n采制\t採製\n采办\t採辦\n采区\t採區\n采去\t採去\n采及葑菲\t采及葑菲\n采取\t採取\n采取措施\t採取措施\n采取行动\t採取行動\n采回\t採回\n采回去\t採回去\n采回来\t採回來\n采在\t採在\n采地\t采地\n采场\t採場\n采声\t采聲\n采头\t采頭\n采女\t采女\n采好\t採好\n采录\t採錄\n采得\t採得\n采择\t採擇\n采拾\t採拾\n采挖\t採挖\n采掘\t採掘\n采摘\t採摘\n采摭\t採摭\n采撷\t採擷\n采收\t採收\n采收期\t採收期\n采收率\t採收率\n采料\t採料\n采景\t採景\n采暖\t採暖\n采果\t採果\n采树种\t採樹種\n采样\t採樣\n采样法\t採樣法\n采桑\t採桑\n采棉机\t採棉機\n采椽不斫\t采椽不斲\n采椽不斲\t采椽不斲\n采樵人\t採樵人\n采气\t採氣\n采水\t採水\n采油\t採油\n采烈\t采烈\n采煤\t採煤\n采煤矿\t採煤礦\n采猎\t採獵\n采珠\t採珠\n采珠人\t採珠人\n采生折割\t採生折割\n采用\t採用\n采用到\t採用到\n采用率\t採用率\n采的\t採的\n采盐\t採鹽\n采石\t採石\n采石之役\t采石之役\n采石之战\t采石之戰\n采石厂\t採石廠\n采石场\t採石場\n采矿\t採礦\n采矿业\t採礦業\n采矿场\t採礦場\n采矿工\t採礦工\n采矿工业\t採礦工業\n采矿工程\t採礦工程\n采矿方法\t採礦方法\n采砂场\t採砂場\n采种\t採種\n采稿\t採稿\n采空区\t採空區\n采空采穗\t採空採穗\n采精\t採精\n采纳\t採納\n采给\t採給\n采绿\t采綠\n采缉\t采緝\n采编\t採編\n采脂\t採脂\n采色\t采色\n采芑\t采芑\n采花\t採花\n采花贼\t採花賊\n采芹\t采芹\n采芹人\t採芹人\n采苓\t采苓\n采茶\t採茶\n采茶戏\t採茶戲\n采茶歌\t採茶歌\n采药\t採藥\n采药人\t採藥人\n采莲\t採蓮\n采莲曲\t採蓮曲\n采莲船\t採蓮船\n采获\t採獲\n采菊\t採菊\n采菽\t采菽\n采葛\t采葛\n采薇\t采薇\n采薪\t採薪\n采薪之忧\t采薪之憂\n采薪之疾\t采薪之疾\n采蘩\t采蘩\n采蜜\t採蜜\n采血\t採血\n采行\t採行\n采衣\t采衣\n采补\t採補\n采认\t採認\n采访\t採訪\n采访使\t採訪使\n采访员\t採訪員\n采访团\t採訪團\n采访新闻\t採訪新聞\n采访权\t採訪權\n采访编辑\t採訪編輯\n采访记者\t採訪記者\n采证\t採證\n采诗\t采詩\n采购\t採購\n采购供应\t採購供應\n采购员\t採購員\n采购团\t採購團\n采购案\t採購案\n采购法\t採購法\n采购站\t採購站\n采购规则\t採購規則\n采购量\t採購量\n采过\t採過\n采过去\t採過去\n采过来\t採過來\n采运\t採運\n采选\t採選\n采邑\t采邑\n采采\t采采\n采金\t採金\n采铁\t採鐵\n采集\t採集\n采集到\t採集到\n采集法\t採集法\n采集起来\t採集起來\n采风\t採風\n采风录\t采風錄\n采风问俗\t採風問俗\n采食\t採食\n釉下彩\t釉下彩\n釉彩\t釉彩\n釉药\t釉藥\n释出\t釋出\n释卷\t釋卷\n释放出\t釋放出\n释放出来\t釋放出來\n释放出狱\t釋放出獄\n释迦佛也恼下莲台\t釋迦佛也惱下蓮臺\n里乘\t里乘\n里亚\t里亞\n里人\t里人\n里仁\t里仁\n里仁为美\t里仁為美\n里克特\t里克特\n里党\t里黨\n里兹\t里茲\n里出外进\t裡出外進\n里加\t里加\n里勾外连\t裡勾外連\n里包恩\t里包恩\n里名\t里名\n里君\t里君\n里咽\t裡嚥\n里士满\t里士滿\n里外\t裡外\n里外里\t裡外裡\n里奇蒙\t里奇蒙\n里契蒙\t里契蒙\n里奥\t里奧\n里奥斯\t里奧斯\n里奥格兰德\t里奧格蘭德\n里姆斯基\t里姆斯基\n里子\t裡子\n里实\t裡實\n里宰\t里宰\n里尔\t里爾\n里尔队\t里爾隊\n里尼\t里尼\n里层\t裡層\n里居\t里居\n里屋\t裡屋\n里巷\t里巷\n里布\t里布\n里希特霍芬\t里希特霍芬\n里带\t裡帶\n里应外合\t裡應外合\n里廉\t裡廉\n里弄\t里弄\n里弗赛德\t里弗賽德\n里弦\t裡弦\n里急后重\t裡急後重\n里手\t裡手\n里扣\t里扣\n里拉\t里拉\n里挑一\t裡挑一\n里斯\t里斯\n里斯本\t里斯本\n里昂\t里昂\n里昂市\t里昂市\n里昂队\t里昂隊\n里望\t里望\n里望乡\t里望鄉\n里木店\t里木店\n里根\t里根\n里欧\t里歐\n里欧斯\t里歐斯\n里正\t里正\n里氏\t里氏\n里氏震级\t里氏震級\n里民\t里民\n里民大会\t里民大會\n里海\t裡海\n里港\t里港\n里港乡\t里港鄉\n里漏社\t里漏社\n里漏部落\t里漏部落\n里牵绵\t裡牽綿\n里特维宁科\t里特維寧科\n里瓦几亚条约\t里瓦幾亞條約\n里瓦尔多\t里瓦爾多\n里甲\t里甲\n";

/// Part 135 of the text.
pub const ST_PHRASES_135: &'static str = "里社\t里社\n里科\t里科\n里程\t里程\n里程碑\t里程碑\n里程碑式\t里程碑式\n里程表\t里程錶\n里程计\t里程計\n里约\t里約\n里约热内卢\t里約熱內盧\n里纳\t里納\n里维拉\t里維拉\n里美\t里美\n里老\t里老\n里耳\t里耳\n里肌\t里肌\n里胥\t里胥\n里脊\t裡脊\n里脊肉\t裡脊肉\n里舍\t里舍\n里蒙诺夫\t里蒙諾夫\n里虚\t裡虛\n里衣\t裡衣\n里言\t裡言\n里语\t里語\n里谈巷议\t里談巷議\n里谚\t里諺\n里豪\t里豪\n里贝利\t里貝利\n里贾纳\t里賈納\n里路\t里路\n里踢\t裡踢\n里边\t裡邊\n里边儿\t裡邊兒\n里进外出\t裡進外出\n里通外国\t裡通外國\n里通外敌\t裡通外敵\n里邻长\t里鄰長\n里里\t裡裡\n里里外外\t裡裡外外\n里长\t里長\n里长伯\t里長伯\n里门\t里門\n里闬\t里閈\n里间\t裡間\n里闾\t里閭\n里面\t裡面\n里面儿\t裡面兒\n重于\t重於\n重于泰山\t重於泰山\n重价\t重價\n重估后\t重估後\n重修\t重修\n重修旧好\t重修舊好\n重出\t重出\n重划\t重劃\n重划区\t重劃區\n重划局\t重劃局\n重制\t重製\n重力摆\t重力擺\n重历旧游\t重歷舊遊\n重发\t重發\n重台\t重臺\n重合\t重合\n重回\t重回\n重复\t重複\n重复使用\t重複使用\n重复启动效应\t重複啟動效應\n重复式\t重複式\n重复本\t重複本\n重复法\t重複法\n重复节\t重複節\n重复记录\t重複記錄\n重复语境\t重複語境\n重复课税\t重複課稅\n重定向\t重定向\n重岩叠嶂\t重巖疊嶂\n重庆小面\t重慶小麵\n重庆小面积\t重慶小面積\n重庆师范大学\t重慶師範大學\n重当\t重當\n重托\t重託\n重扣\t重扣\n重折\t重摺\n重新装修\t重新裝修\n重新评价\t重新評價\n重涂\t重塗\n重游\t重遊\n重游旧地\t重遊舊地\n重点采访\t重點採訪\n重生爷娘\t重生爺娘\n重症\t重症\n重罗面\t重羅麵\n重置价格\t重置價格\n重获\t重獲\n重见复出\t重見複出\n重蹈覆辙\t重蹈覆轍\n重重困难\t重重困難\n重锤\t重錘\n野台\t野臺\n野台戏\t野臺戲\n野合\t野合\n野外定向\t野外定向\n野姜\t野薑\n野姜花\t野薑花\n野无遗才\t野無遺才\n野游\t野遊\n野种\t野種\n野胡萝卜\t野胡蘿蔔\n野草闲花\t野草閒花\n野获编\t野獲編\n野鹤闲云\t野鶴閒雲\n量了\t量了\n量入为出\t量入為出\n量出\t量出\n量出制入\t量出制入\n量回\t量回\n量回去\t量回去\n量回来\t量回來\n量才录用\t量才錄用\n量材录用\t量材錄用\n量杯\t量杯\n量表\t量表\n量雨表\t量雨表\n金万福\t金萬福\n金乌西坠玉兔东升\t金烏西墜玉兔東昇\n金云母\t金雲母\n金仆姑\t金僕姑\n金仑溪\t金崙溪\n金价\t金價\n金伯利岩\t金伯利岩\n金光党\t金光黨\n金创药\t金創藥\n金升圭\t金昇圭\n金升渊\t金升淵\n金印如斗\t金印如斗\n金发\t金髮\n金发女郎\t金髮女郎\n金发碧眼\t金髮碧眼\n金台\t金臺\n金台区\t金臺區\n金叶\t金葉\n金合欢\t金合歡\n金周成\t金周成\n金坛\t金壇\n金坛市\t金壇市\n金基范\t金基範\n金头银面\t金頭銀面\n金属制\t金屬製\n金属杆\t金屬桿\n金属板\t金屬板\n金布道\t金布道\n金斗\t金斗\n金曲\t金曲\n金曲奖\t金曲獎\n金本位制\t金本位制\n金杯\t金盃\n金枝玉叶\t金枝玉葉\n金柜\t金櫃\n金柜石室\t金櫃石室\n金桔干\t金桔乾\n金榜挂名\t金榜掛名\n金正云\t金正雲\n金氏纪录\t金氏紀錄\n金玉其表\t金玉其表\n金甲虫\t金甲蟲\n金疮药\t金瘡藥\n金盏银台\t金盞銀臺\n金石录\t金石錄\n金穗奖\t金穗獎\n金粉楼台\t金粉樓臺\n金线虫\t金線蟲\n金胄\t金胄\n金花虫\t金花蟲\n金范\t金範\n金虫\t金蟲\n金融杠杆\t金融槓桿\n金融系统\t金融系統\n金衡制\t金衡制\n金表\t金錶\n金表态\t金表態\n金表情\t金表情\n金表扬\t金表揚\n金表明\t金表明\n金表演\t金表演\n金表现\t金表現\n金表示\t金表示\n金表达\t金表達\n金表露\t金表露\n金表面\t金表面\n金装玉里\t金裝玉裡\n金谷\t金谷\n金谷园\t金谷園\n金谷堕楼\t金谷墮樓\n金谷酒数\t金谷酒數\n金里奇\t金里奇\n金针\t金針\n金针山\t金針山\n金针度人\t金針度人\n金针花\t金針花\n金针菇\t金針菇\n金针菜\t金針菜\n金钟\t金鐘\n金钟罩\t金鐘罩\n金钟铲\t金鐘鏟\n金钱万能\t金錢萬能\n金钱挂帅\t金錢掛帥\n金钱松\t金錢松\n金钱游戏\t金錢遊戲\n金链\t金鍊\n金面\t金面\n金马仑道\t金馬崙道\n金马克\t金馬克\n金黄\t金黃\n金黄长发\t金黃長髮\n釜底游魂\t釜底遊魂\n釜底游鱼\t釜底游魚\n釜里之鱼\t釜裡之魚\n鉴于\t鑑於\n鉴别\t鑑別\n鉴别力\t鑑別力\n鉴别器\t鑑別器\n鉴别能力\t鑑別能力\n鉴古推今\t鑑古推今\n鉴堂\t鑑堂\n鉴定\t鑑定\n鉴定为\t鑑定為\n鉴定书\t鑑定書\n鉴定人\t鑑定人\n鉴定委员会\t鑑定委員會\n鉴定考试\t鑑定考試\n鉴宝\t鑑寶\n鉴察\t鑑察\n鉴往知来\t鑑往知來\n鉴戒\t鑑戒\n鉴明\t鑑明\n鉴核备查\t鑑核備查\n鉴此\t鑑此\n鉴毛辨色\t鑑毛辨色\n鉴泉\t鑑泉\n鉴湖\t鑑湖\n鉴湖女侠\t鑑湖女俠\n鉴照\t鑑照\n鉴相\t鑑相\n鉴真\t鑑真\n鉴真和尚\t鑑真和尚\n鉴藏印\t鑑藏印\n鉴证\t鑑證\n鉴识\t鑑識\n鉴诫\t鑑誡\n鉴谅\t鑑諒\n鉴貌辨色\t鑑貌辨色\n鉴赏\t鑑賞\n鉴赏力\t鑑賞力\n鉴赏印\t鑑賞印\n鉴赏家\t鑑賞家\n鉴赏能力\t鑑賞能力\n鉴频\t鑑頻\n鉴频器\t鑑頻器\n针关\t針關\n针具\t針具\n针刺\t針刺\n针刺麻醉\t針刺麻醉\n针剂\t針劑\n针口\t針口\n针叶\t針葉\n针叶林\t針葉林\n针叶树\t針葉樹\n针叶植物\t針葉植物\n针头\t針頭\n针孔\t針孔\n针孔摄影机\t針孔攝影機\n针孔照像\t針孔照像\n针孔照像机\t針孔照像機\n针孔现象\t針孔現象\n针对\t針對\n针对于\t針對於\n针对性\t針對性\n针尖\t針尖\n针尖儿\t針尖兒\n针工\t針工\n针布\t針布\n针形叶\t針形葉\n针扣\t針釦\n针指\t針指\n针挑刀挖\t針挑刀挖\n针梳机\t針梳機\n针毡\t針氈\n针法\t針法\n针灸\t針灸\n针灸铜人\t針灸銅人\n针灸麻醉\t針灸麻醉\n针炙\t針炙\n针状\t針狀\n针状物\t針狀物\n针盘\t針盤\n针眼\t針眼\n针眼子\t針眼子\n针砭\t針砭\n针神\t針神\n针笔\t針筆\n针笔匠\t針筆匠\n针筒\t針筒\n针箍\t針箍\n针箍儿\t針箍兒\n针线\t針線\n针线包\t針線包\n针线娘\t針線娘\n针线活\t針線活\n针线活计\t針線活計\n针线盒\t針線盒\n针线箔篱\t針線箔籬\n针织\t針織\n针织厂\t針織廠\n针织品\t針織品\n针织料\t針織料\n针脚\t針腳\n针芒\t針芒\n针芥相投\t針芥相投\n针针见血\t針針見血\n针铓\t針鋩\n针锋\t針鋒\n针锋相对\t針鋒相對\n针锋相投\t針鋒相投\n针阳谷\t針陽谷\n针饵莫减\t針餌莫減\n针骨\t針骨\n针鱼\t針魚\n针黹\t針黹\n针黹纺绩\t針黹紡績\n针鼹\t針鼴\n针鼻\t針鼻\n针鼻儿\t針鼻兒\n钉个\t釘個\n钉书针\t釘書針\n钉了\t釘了\n钉合\t釘合\n钉扣\t釘釦\n钉锤\t釘錘\n钓个\t釣個\n钓了\t釣了\n钓游旧地\t釣遊舊地\n钓鱼台\t釣魚臺\n钓鱼台列岛\t釣魚臺列島\n钓鱼杆\t釣魚杆\n钗云\t釵雲\n钛合金\t鈦合金\n钜万\t鉅萬\n钞录\t鈔錄\n钟上\t鐘上\n钟下\t鐘下\n钟不\t鐘不\n钟不扣不鸣\t鐘不扣不鳴\n钟不撞不鸣\t鐘不撞不鳴\n钟不敲不响\t鐘不敲不響\n钟不空则哑\t鐘不空則啞\n钟乐\t鐘樂\n钟乳洞\t鐘乳洞\n钟乳石\t鐘乳石\n钟体\t鐘體\n";

/// Part 136 of the text.
pub const ST_PHRASES_136: &'static str = "钟停\t鐘停\n钟关\t鐘關\n钟匠\t鐘匠\n钟发音\t鐘發音\n钟口\t鐘口\n钟响\t鐘響\n钟响声\t鐘響聲\n钟在寺里\t鐘在寺裡\n钟塔\t鐘塔\n钟壁\t鐘壁\n钟声\t鐘聲\n钟太\t鐘太\n钟头\t鐘頭\n钟好\t鐘好\n钟山\t鐘山\n钟山区\t鐘山區\n钟山县\t鐘山縣\n钟左右\t鐘左右\n钟差\t鐘差\n钟座\t鐘座\n钟形\t鐘形\n钟形虫\t鐘形蟲\n钟律\t鐘律\n钟快\t鐘快\n钟情\t鍾情\n钟意\t鍾意\n钟慢\t鐘慢\n钟摆\t鐘擺\n钟敲\t鐘敲\n钟无艳\t鍾無豔\n钟有\t鐘有\n钟楚红\t鐘楚紅\n钟楼\t鐘樓\n钟楼区\t鐘樓區\n钟楼怪人\t鐘樓怪人\n钟模\t鐘模\n钟欣桐\t鍾欣桐\n钟没\t鐘沒\n钟漏\t鐘漏\n钟点\t鐘點\n钟点房\t鐘點房\n钟点费\t鐘點費\n钟爱\t鍾愛\n钟王\t鐘王\n钟珮瑄\t鐘珮瑄\n钟琴\t鐘琴\n钟的\t鐘的\n钟盘\t鐘盤\n钟相\t鐘相\n钟磬\t鐘磬\n钟祥\t鍾祥\n钟祥县\t鍾祥縣\n钟祥市\t鍾祥市\n钟福松\t鐘福松\n钟离\t鍾離\n钟纽\t鐘紐\n钟罩\t鐘罩\n钟腰\t鐘腰\n钟螺\t鐘螺\n钟行\t鐘行\n钟表\t鐘錶\n钟表停\t鐘錶停\n钟表盘\t鐘錶盤\n钟被\t鐘被\n钟调\t鐘調\n钟身\t鐘身\n钟速\t鐘速\n钟面\t鐘面\n钟顶\t鐘頂\n钟馗\t鍾馗\n钟鸣\t鐘鳴\n钟鸣漏尽\t鐘鳴漏盡\n钟鸣鼎食\t鐘鳴鼎食\n钟鼎\t鐘鼎\n钟鼎之家\t鐘鼎之家\n钟鼎人家\t鐘鼎人家\n钟鼎山林\t鐘鼎山林\n钟鼎文\t鐘鼎文\n钟鼎款识\t鐘鼎款識\n钟鼎高门\t鐘鼎高門\n钟鼓\t鐘鼓\n钟鼓齐鸣\t鐘鼓齊鳴\n钢制\t鋼製\n钢制品\t鋼製品\n钢扣\t鋼釦\n钢曲尺\t鋼曲尺\n钢杯\t鋼杯\n钢板\t鋼板\n钢梁\t鋼樑\n钢琴曲\t鋼琴曲\n钢种\t鋼種\n钢笔杆\t鋼筆桿\n钢针\t鋼針\n钢铁厂\t鋼鐵廠\n钢铲\t鋼鏟\n钥匙链\t鑰匙鏈\n钧复\t鈞覆\n钧鉴\t鈞鑒\n钩党\t鉤黨\n钩心斗角\t鉤心鬥角\n钩深致远\t鉤深致遠\n钩花点叶\t鉤花點葉\n钩虫\t鉤蟲\n钩虫病\t鉤蟲病\n钩针\t鉤針\n钮扣\t鈕釦\n钱复\t錢復\n钱布\t錢布\n钱庄\t錢莊\n钱庄里\t錢莊裡\n钱板儿\t錢板兒\n钱柜\t錢櫃\n钱柜杂志\t錢櫃雜誌\n钱玄同\t錢玄同\n钱眼里安身\t錢眼裡安身\n钱范\t錢範\n钱谷\t錢穀\n钱过北斗\t錢過北斗\n钱钟书\t錢鍾書\n钳制\t鉗制\n钻井平台\t鑽井平臺\n钻出\t鑽出\n钻台\t鑽臺\n钻心虫\t鑽心蟲\n钻懒帮闲\t鑽懶幫閒\n钻杆\t鑽桿\n钻皮出羽\t鑽皮出羽\n钻石项链\t鑽石項鍊\n钿合\t鈿合\n钿头云篦\t鈿頭雲篦\n铁云藏龟\t鐵雲藏龜\n铁价\t鐵價\n铁俑里\t鐵俑裡\n铁制\t鐵製\n铁厂\t鐵廠\n铁叶\t鐵葉\n铁合金\t鐵合金\n铁娘子\t鐵娘子\n铁托\t鐵托\n铁扣\t鐵釦\n铁拐\t鐵柺\n铁杆\t鐵桿\n铁杠\t鐵槓\n铁板\t鐵板\n铁板大鼓\t鐵板大鼓\n铁板快书\t鐵板快書\n铁板注脚\t鐵板註腳\n铁板烧\t鐵板燒\n铁板牛柳\t鐵板牛柳\n铁板牛肉\t鐵板牛肉\n铁板茄子\t鐵板茄子\n铁板路\t鐵板路\n铁板面\t鐵板麵\n铁柜\t鐵櫃\n铁栏杆\t鐵欄杆\n铁甲虫\t鐵甲蟲\n铁索郎当\t鐵索郎當\n铁胃团\t鐵胃團\n铁苏木\t鐵蘇木\n铁路干线\t鐵路幹線\n铁针\t鐵針\n铁钟\t鐵鐘\n铁铲\t鐵鏟\n铁链\t鐵鏈\n铁锤\t鐵錘\n铁雕\t鐵雕\n铁面\t鐵面\n铁面判官\t鐵面判官\n铁面御史\t鐵面御史\n铁面无情\t鐵面無情\n铁面无私\t鐵面無私\n铃虫\t鈴蟲\n铅制\t鉛製\n铅字合金\t鉛字合金\n铅板\t鉛板\n铉台\t鉉臺\n铜制\t銅製\n铜制品\t銅製品\n铜厂\t銅廠\n铜叶\t銅葉\n铜山西崩洛钟东应\t銅山西崩洛鐘東應\n铜扣\t銅釦\n铜斗儿\t銅斗兒\n铜斗儿家缘\t銅斗兒家緣\n铜板\t銅板\n铜梁\t銅梁\n铜梁区\t銅梁區\n铜梁县\t銅梁縣\n铜琵铁板\t銅琵鐵板\n铜范\t銅範\n铜钟\t銅鐘\n铜雀台\t銅雀臺\n铜雕\t銅雕\n铝制\t鋁製\n铝制品\t鋁製品\n铝合金\t鋁合金\n铝板\t鋁板\n铠胄\t鎧冑\n铯钟\t銫鐘\n铰链\t鉸鏈\n铰链叶\t鉸鏈葉\n铲下\t鏟下\n铲伤\t鏟傷\n铲倒\t鏟倒\n铲冰\t鏟冰\n铲出\t鏟出\n铲凿\t鏟鑿\n铲刀\t鏟刀\n铲刈\t剷刈\n铲土\t鏟土\n铲土机\t鏟土機\n铲头\t鏟頭\n铲子\t鏟子\n铲射\t鏟射\n铲平\t剷平\n铲抢\t鏟搶\n铲掉\t剷掉\n铲斗\t鏟斗\n铲断\t鏟斷\n铲板\t鏟板\n铲煤\t鏟煤\n铲球\t鏟球\n铲草\t剷草\n铲起\t鏟起\n铲车\t鏟車\n铲运机\t鏟運機\n铲运车\t鏟運車\n铲铲\t剷剷\n铲除\t剷除\n铲雪\t鏟雪\n铲雪车\t鏟雪車\n银丝卷\t銀絲捲\n银丝面\t銀絲麵\n银价\t銀價\n银制\t銀製\n银发\t銀髮\n银发产业\t銀髮產業\n银发族\t銀髮族\n银台\t銀臺\n银合欢\t銀合歡\n银团\t銀團\n银本位制\t銀本位制\n银朱\t銀硃\n银杯\t銀盃\n银杯羽化\t銀杯羽化\n银板\t銀板\n银柜\t銀櫃\n银核\t銀核\n银河系\t銀河系\n银纤维\t銀纖維\n银色冲浪手\t銀色衝浪手\n银行体系资金\t銀行體系資金\n银行借款\t銀行借款\n银行利害关系人\t銀行利害關係人\n银行卡里\t銀行卡裡\n银行团\t銀行團\n银行存折\t銀行存摺\n银针\t銀針\n银须\t銀鬚\n铸币厂\t鑄幣廠\n铸造出\t鑄造出\n铸钟\t鑄鐘\n铺了\t鋪了\n铺伙\t鋪夥\n铺出\t鋪出\n铺出去\t鋪出去\n铺出来\t鋪出來\n铺向\t鋪向\n铺地板\t鋪地板\n铺板\t鋪板\n铺盖卷儿\t鋪蓋捲兒\n铺眉扇眼\t鋪眉搧眼\n铺眉蒙眼\t鋪眉蒙眼\n铺锦列绣\t鋪錦列繡\n铺面\t鋪面\n铺面临街房\t鋪面臨街房\n铺面房\t鋪面房\n链传动\t鏈傳動\n链反应\t鏈反應\n链坠\t鍊墜\n链套\t鏈套\n链子\t鏈子\n链式\t鏈式\n链式反应\t鏈式反應\n链式裂变反应\t鏈式裂變反應\n链形\t鍊形\n链扣\t鏈釦\n链接\t鏈接\n链条\t鏈條\n链椎\t鏈椎\n链烃\t鏈烴\n链环\t鏈環\n链球\t鏈球\n链球菌\t鏈球菌\n链甲\t鍊甲\n链罩\t鏈罩\n链表\t鏈表\n链路\t鏈路\n链路层\t鏈路層\n链轨\t鏈軌\n链轮\t鏈輪\n链钳子\t鏈鉗子\n链锁\t鏈鎖\n链锁反应\t鏈鎖反應\n链锯\t鏈鋸\n链霉素\t鏈黴素\n销了\t銷了\n销出\t銷出\n销售价格\t銷售價格\n销售时点情报系统\t銷售時點情報系統\n销回\t銷回\n销回去\t銷回去\n销回来\t銷回來\n销志\t銷志\n销毁\t銷毀\n销货折扣\t銷貨折扣\n锁扣\t鎖釦\n锁柜\t鎖櫃\n锁链\t鎖鏈\n锄奸\t鋤奸\n锄铲\t鋤鏟\n锅伙\t鍋伙\n锅台\t鍋臺\n锅庄\t鍋莊\n锅烟\t鍋煙\n锅烟子\t鍋煙子\n锅烧面\t鍋燒麵\n锅里\t鍋裡\n锅铲\t鍋鏟\n锆合金\t鋯合金\n锈病\t鏽病\n锈菌\t鏽菌\n锈蚀\t鏽蝕\n锋出\t鋒出\n锋发韵流\t鋒發韻流\n锋芒所向\t鋒芒所向\n锋面\t鋒面\n锋面雨\t鋒面雨\n锌板\t鋅板\n锐不可当\t銳不可當\n锐志\t銳志\n锐未可当\t銳未可當\n锕系元素\t錒系元素\n错不了\t錯不了\n错了\t錯了\n错了又错\t錯了又錯\n错别字\t錯別字\n错化合物\t錯化合物\n错彩镂金\t錯彩鏤金\n错综复杂\t錯綜複雜\n错落有致\t錯落有致\n错觉结合\t錯覺結合\n错觉结合的词\t錯覺結合的詞\n错误百出\t錯誤百出\n错误的结合\t錯誤的結合\n锚杆\t錨杆\n锚虫\t錨蟲\n锚链\t錨鏈\n锚链孔\t錨鏈孔\n锡克拜\t錫克拜\n锡克教\t錫克教\n锡克族\t錫克族\n锡当河\t錫當河\n锡杯\t錫杯\n锤儿\t錘兒\n锤头\t錘頭\n锤子\t錘子\n锤炼\t錘鍊\n锥虫病\t錐蟲病\n锥面\t錐面\n锦囊佳制\t錦囊佳製\n锦回文\t錦迴文\n锦熏笼\t錦熏籠\n锦绣\t錦繡\n锦绣花园\t錦繡花園\n锦胡同\t錦衚衕\n锦里\t錦里\n锯了\t鋸了\n锯了嘴的葫芦\t鋸了嘴的葫蘆\n锯出\t鋸出\n锯木厂\t鋸木廠\n锲而不舍\t鍥而不捨\n锹形虫\t鍬形蟲\n锺万梅\t鍾萬梅\n";

/// Part 137 of the text.
pub const ST_PHRASES_137: &'static str = "锺重发\t鍾重發\n锺馗\t鍾馗\n锻炼\t鍛鍊\n锻炼出\t鍛煉出\n锻炼身体\t鍛鍊身體\n镁合金\t鎂合金\n镂冰雕朽\t鏤冰雕朽\n镂彩摛文\t鏤彩摛文\n镂月裁云\t鏤月裁雲\n镂金错采\t鏤金錯采\n镇台\t鎮臺\n镇宁布依族苗族自治县\t鎮寧布依族苗族自治縣\n镇定药\t鎮定藥\n镇痛药\t鎮痛藥\n镇荣里\t鎮榮里\n镇静药\t鎮靜藥\n镍合金\t鎳合金\n镕岩\t鎔岩\n镜台\t鏡臺\n镜框舞台\t鏡框舞臺\n镜里孤鸾\t鏡裡孤鸞\n镜鉴\t鏡鑑\n镜面\t鏡面\n镜面呢\t鏡面呢\n镧系元素\t鑭系元素\n镭射印表机\t鐳射印表機\n镰仓\t鎌倉\n镰形血球贫血症\t鐮形血球貧血症\n镰状细胞血症\t鐮狀細胞血症\n镶了\t鑲了\n镶板\t鑲板\n长丰\t長豐\n长丰县\t長豐縣\n长了\t長了\n长于\t長於\n长他人志气灭自己威风\t長他人志氣滅自己威風\n长几\t長几\n长出\t長出\n长出来\t長出來\n长卷\t長卷\n长历\t長曆\n长发\t長髮\n长发屯\t長發屯\n长发镇\t長發鎮\n长叹\t長嘆\n长吁\t長吁\n长吁短叹\t長吁短嘆\n长君之恶\t長君之惡\n长头布\t長頭布\n长寿烟\t長壽菸\n长寿面\t長壽麵\n长干巷\t長干巷\n长干曲\t長干曲\n长干里\t長干里\n长征\t長征\n长征军\t長征軍\n长恶不悛\t長惡不悛\n长才\t長才\n长春师范学院\t長春師範學院\n长期借款\t長期借款\n长板\t長板\n长板凳\t長板凳\n长林丰草\t長林豐草\n长歌当哭\t長歌當哭\n长江后浪\t長江後浪\n长烟\t長煙\n长烟一空\t長煙一空\n长生药\t長生藥\n长程计划\t長程計劃\n长绳系日\t長繩繫日\n长绳系景\t長繩繫景\n长胡\t長鬍\n长虫\t長蟲\n长谷\t長谷\n长谷川\t長谷川\n长辔远御\t長轡遠御\n长针\t長針\n长须\t長鬚\n长须鲸\t長鬚鯨\n长风万里\t長風萬里\n门前门后\t門前門後\n门吊儿\t門吊兒\n门帘\t門簾\n门当户对\t門當戶對\n门扣\t門扣\n门拐\t門拐\n门斗\t門斗\n门板\t門板\n门殚户尽\t門殫戶盡\n门皁\t門皁\n门皂\t門皁\n门胄\t門胄\n门道里\t門道裡\n门里\t門裡\n门里人\t門裡人\n门里出身\t門裡出身\n门里安心\t門裡安心\n门里门外\t門裡門外\n门面\t門面\n门面话\t門面話\n闪了\t閃了\n闪出\t閃出\n闪含语系\t閃含語系\n闪念\t閃念\n闪电战术\t閃電戰術\n闪闪发光\t閃閃發光\n闫怀礼\t閆懷禮\n闭一只眼\t閉一隻眼\n闭卷\t閉卷\n闭卷考\t閉卷考\n闭卷考试\t閉卷考試\n闭合\t閉合\n闭合电路\t閉合電路\n闭门家里坐祸从天上来\t閉門家裡坐禍從天上來\n闭面\t閉面\n问个\t問個\n问个问题\t問個問題\n问了\t問了\n问出\t問出\n问卜\t問卜\n问卷\t問卷\n问卷大调查\t問卷大調查\n问卷调查\t問卷調查\n问卷调查表\t問卷調查表\n问当\t問當\n问政于民\t問政於民\n问舍求田\t問舍求田\n问道于盲\t問道於盲\n闯出\t闖出\n闯出去\t闖出去\n闯出来\t闖出來\n闯炼\t闖鍊\n闯荡\t闖蕩\n闯荡江湖\t闖蕩江湖\n闯进闯出\t闖進闖出\n闲下来\t閒下來\n闲不住\t閒不住\n闲云孤鹤\t閒雲孤鶴\n闲云野鹤\t閒雲野鶴\n闲人免进\t閒人免進\n闲余\t閒餘\n闲庭信步\t閒庭信步\n闲情逸致\t閒情逸致\n闲情逸趣\t閒情逸趣\n闲打牙儿\t閒打牙兒\n闲扯淡\t閒扯淡\n闲是闲非\t閒是閒非\n闲杂人员\t閒雜人員\n闲杂人等\t閒雜人等\n闲来无事\t閒來無事\n闲淘气\t閒淘氣\n闲游\t閒遊\n闲理会\t閒理會\n闲盘儿\t閒盤兒\n闲磕牙\t閒磕牙\n闲篇儿\t閒篇兒\n闲置不用\t閒置不用\n闲聊天\t閒聊天\n闲聒七\t閒聒七\n闲花野草\t閒花野草\n闲茶浪酒\t閒茶浪酒\n闲荡\t閒蕩\n闲言乱语\t閒言亂語\n闲言碎语\t閒言碎語\n闲言长语\t閒言長語\n闲言闲事\t閒言閒事\n闲言闲语\t閒言閒語\n闲话家常\t閒話家常\n闲话少说\t閒話少說\n闲适\t閒適\n闲邪存诚\t閒邪存誠\n间不容发\t間不容髮\n间充质干细胞\t間充質幹細胞\n间出\t間出\n间别\t間別\n间叶干\t間葉幹\n间奏曲\t間奏曲\n间接证据\t間接證據\n间深里\t間深裡\n间里\t間裡\n闵凶\t閔凶\n闵子里\t閔子裡\n闵采尔\t閔采爾\n闷出\t悶出\n闷在心里\t悶在心裡\n闷板\t悶板\n闷着头儿干\t悶著頭兒幹\n闷表\t悶錶\n闸板\t閘板\n闹个\t鬧個\n闹了半天鬼\t鬧了半天鬼\n闹出\t鬧出\n闹出去\t鬧出去\n闹出来\t鬧出來\n闹出笑话\t鬧出笑話\n闹别扭\t鬧彆扭\n闹台\t鬧臺\n闹哄\t鬧鬨\n闹哄哄\t鬧鬨鬨\n闹拧了\t鬧擰了\n闹着玩儿\t鬧著玩兒\n闹表\t鬧錶\n闹钟\t鬧鐘\n闹铃时钟\t鬧鈴時鐘\n闹饥荒\t鬧饑荒\n闺范\t閨範\n闻了\t聞了\n闻出\t聞出\n闻名于世\t聞名於世\n闻风后\t聞風後\n闽台\t閩臺\n闽台地区\t閩臺地區\n闾党姻娅\t閭黨姻婭\n闾里\t閭里\n阀杆\t閥杆\n阃范\t閫範\n阅兵台\t閱兵臺\n阅卷\t閱卷\n阅卷组\t閱卷組\n阅历\t閱歷\n阉党\t閹黨\n阎云浚\t閻雲浚\n阎王好见小鬼难当\t閻王好見小鬼難當\n阎罗王面前须没放回的鬼\t閻羅王面前須沒放回的鬼\n阐发\t闡發\n阑尾切除术\t闌尾切除術\n阑干\t闌干\n阔别\t闊別\n阔别多年\t闊別多年\n阔叶林\t闊葉林\n阔叶树\t闊葉樹\n阙里\t闕里\n阜新蒙古族自治县\t阜新蒙古族自治縣\n阜阳师范学院\t阜陽師範學院\n队别\t隊別\n阡表\t阡表\n阨困\t阨困\n阮咸\t阮咸\n防不胜防\t防不勝防\n防个\t防個\n防了\t防了\n防人之口甚于防川\t防人之口甚於防川\n防修\t防修\n防制\t防制\n防制法\t防制法\n防卫过当\t防衛過當\n防台\t防颱\n防守战术\t防守戰術\n防御\t防禦\n防御力\t防禦力\n防御工事\t防禦工事\n防御性\t防禦性\n防御战\t防禦戰\n防御术\t防禦術\n防御率\t防禦率\n防御率王\t防禦率王\n防御网\t防禦網\n防患于未然\t防患於未然\n防护团\t防護團\n防护面具\t防護面具\n防晒\t防曬\n防毒斗篷\t防毒斗篷\n防毒面具\t防毒面具\n防民之口甚于防川\t防民之口甚於防川\n防水布\t防水布\n防水表\t防水錶\n防滑链\t防滑鏈\n防火布\t防火布\n防火系统\t防火系統\n防疫针\t防疫針\n防秋\t防秋\n防空识别区\t防空識別區\n防范\t防範\n防范体系\t防範體系\n防范得宜\t防範得宜\n防范意识\t防範意識\n防范控制\t防範控制\n防范措施\t防範措施\n防范未然\t防範未然\n防身术\t防身術\n防锁死煞车系统\t防鎖死煞車系統\n防锈\t防鏽\n防雨布\t防雨布\n阳历\t陽曆\n阳历年\t陽曆年\n阳台\t陽臺\n阳台云雨\t陽臺雲雨\n阳台春梦\t陽臺春夢\n阳春面\t陽春麵\n阳曲\t陽曲\n阳曲县\t陽曲縣\n阳极\t陽極\n阳极射线\t陽極射線\n阳极板\t陽極板\n阳极泥\t陽極泥\n阳溪\t陽溪\n阳溪穴\t陽谿穴\n阳电极\t陽電極\n阳秋\t陽秋\n阳虚发热\t陽虛發熱\n阳谷\t陽穀\n阳谷县\t陽穀縣\n阳谷穴\t陽谷穴\n阳面\t陽面\n阴丹布\t陰丹布\n阴云\t陰雲\n阴占\t陰占\n阴历\t陰曆\n阴历年\t陰曆年\n阴山背后\t陰山背後\n阴干\t陰乾\n阴恶\t陰惡\n阴暗\t陰暗\n阴暗处\t陰暗處\n阴暗面\t陰暗面\n阴极\t陰極\n阴极射线\t陰極射線\n阴极管\t陰極管\n阴核\t陰核\n阴沉\t陰沉\n阴沉沉\t陰沉沉\n阴沟里翻船\t陰溝裡翻船\n阴离子界面活性剂\t陰離子界面活性劑\n阴胜则寒\t陰勝則寒\n阴虚发热\t陰虛發熱\n阴郁\t陰鬱\n阴阳历\t陰陽曆\n阴阳合历\t陰陽合曆\n";

/// Part 138 of the text.
pub const ST_PHRASES_138: &'static str = "阴阴暗暗\t陰陰暗暗\n阴阴沉沉\t陰陰沉沉\n阴雕\t陰雕\n阴面\t陰面\n阵云\t陣雲\n阵发性\t陣發性\n阵线党\t陣線黨\n阵面上\t陣面上\n阶梯计价\t階梯計價\n阶级斗争\t階級鬥爭\n阻于\t阻於\n阻修\t阻修\n阻挡不了\t阻擋不了\n阻止不了\t阻止不了\n阿云\t阿雲\n阿什克隆\t阿什克隆\n阿仙药\t阿仙藥\n阿信曲\t阿信曲\n阿修罗\t阿修羅\n阿修罗道\t阿修羅道\n阿克伦\t阿克倫\n阿克伦河\t阿克倫河\n阿克塞县\t阿克塞縣\n阿克塞哈萨克族自治县\t阿克塞哈薩克族自治縣\n阿克拉\t阿克拉\n阿克苏\t阿克蘇\n阿克苏地区\t阿克蘇地區\n阿克苏市\t阿克蘇市\n阿克苏河\t阿克蘇河\n阿克赛钦\t阿克賽欽\n阿克达\t阿克達\n阿克陶\t阿克陶\n阿克陶县\t阿克陶縣\n阿党\t阿黨\n阿兹海默氏症\t阿茲海默氏症\n阿兹海默症\t阿茲海默症\n阿兹海默症病患\t阿茲海默症病患\n阿列克西斯\t阿列克西斯\n阿利托\t阿利托\n阿加莎克里斯蒂\t阿加莎克里斯蒂\n阿卜杜拉\t阿卜杜拉\n阿卡提里\t阿卡提里\n阿历山大\t阿歷山大\n阿叶德\t阿葉德\n阿合奇\t阿合奇\n阿合奇县\t阿合奇縣\n阿咸\t阿咸\n阿奇里斯\t阿奇里斯\n阿娘\t阿娘\n阿尔发粒子\t阿爾發粒子\n阿尔梅里亚\t阿爾梅里亞\n阿尔汉格尔斯克州\t阿爾漢格爾斯克州\n阿布\t阿布\n阿布加\t阿布加\n阿布叔醇\t阿布叔醇\n阿布哈兹\t阿布哈茲\n阿布尔\t阿布爾\n阿布扎比\t阿布扎比\n阿布扎比市\t阿布扎比市\n阿布杜拉\t阿布杜拉\n阿布杜拉曼\t阿布杜拉曼\n阿布沙伊夫\t阿布沙伊夫\n阿布沙耶夫\t阿布沙耶夫\n阿布瑞\t阿布瑞\n阿布瑞尤\t阿布瑞尤\n阿布贝卡\t阿布貝卡\n阿布贾\t阿布賈\n阿布贾里布\t阿布賈里布\n阿布达\t阿布達\n阿布达比\t阿布達比\n阿布雷尤\t阿布雷尤\n阿弥陀佛\t阿彌陀佛\n阿弥陀如来\t阿彌陀如來\n阿弥陀经\t阿彌陀經\n阿志\t阿志\n阿意曲从\t阿意曲從\n阿扎伦卡\t阿紮倫卡\n阿扎尼亚\t阿扎尼亞\n阿托品\t阿托品\n阿拉伯共同市场\t阿拉伯共同市場\n阿拉伯联合大公国\t阿拉伯聯合大公國\n阿拉克\t阿拉克\n阿拉干山脉\t阿拉干山脈\n阿斗\t阿斗\n阿斯图里亚斯\t阿斯圖里亞斯\n阿旺曲培\t阿旺曲培\n阿旺曲沛\t阿旺曲沛\n阿曼苏丹国\t阿曼蘇丹國\n阿朱\t阿朱\n阿杰\t阿杰\n阿松森岛\t阿松森島\n阿柏克兹亚\t阿柏克茲亞\n阿森松岛\t阿森松島\n阿波罗计划\t阿波羅計劃\n阿滋海默症\t阿滋海默症\n阿热勒托别\t阿熱勒托別\n阿瓦里德\t阿瓦里德\n阿秋\t阿秋\n阿米巴原虫\t阿米巴原蟲\n阿米纳达布\t阿米納達布\n阿耳忒弥斯\t阿耳忒彌斯\n阿胡斯\t阿胡斯\n阿芝特克人\t阿芝特克人\n阿芝特克语\t阿芝特克語\n阿苏\t阿蘇\n阿苏山\t阿蘇山\n阿苏火山\t阿蘇火山\n阿蒙\t阿蒙\n阿谀苟合\t阿諛苟合\n阿贾克斯\t阿賈克斯\n阿赫蒂萨里\t阿赫蒂薩里\n阿里\t阿里\n阿里亚斯\t阿里亞斯\n阿里地区\t阿里地區\n阿里山\t阿里山\n阿里山之歌\t阿里山之歌\n阿里山乡\t阿里山鄉\n阿里山区\t阿里山區\n阿里山山脉\t阿里山山脈\n阿里巴巴\t阿里巴巴\n阿里巴巴与四十大盗\t阿里巴巴與四十大盜\n阿里斯托芬\t阿里斯托芬\n阿里斯托芳\t阿里斯托芳\n阿里曼\t阿里曼\n阿里桑那\t阿里桑那\n阿里郎\t阿里郎\n附了\t附了\n附于\t附於\n附会假借\t附會假借\n附加价值\t附加價值\n附合\t附合\n附录\t附錄\n附注\t附註\n附膻逐秽\t附膻逐穢\n附膻逐腥\t附膻逐腥\n附膻逐臭\t附膻逐臭\n附致语\t附致語\n附表\t附表\n附面层\t附面層\n际会风云\t際會風雲\n陆丰\t陸豐\n陆丰市\t陸豐市\n陆云\t陸雲\n陆云浩\t陸雲浩\n陆克文\t陸克文\n陆均松\t陸均松\n陆征祥\t陸徵祥\n陆梁\t陸梁\n陆游\t陸游\n陆詟水栗\t陸讋水慄\n陆龟蒙\t陸龜蒙\n陇种\t隴種\n陈万松\t陳萬松\n陈万立\t陳萬立\n陈三五娘\t陳三五娘\n陈世杰\t陳世杰\n陈义丰\t陳義豐\n陈云\t陳雲\n陈云林\t陳雲林\n陈云程\t陳雲程\n陈俊杰\t陳俊傑\n陈克帆\t陳克帆\n陈冲\t陳沖\n陈列台\t陳列臺\n陈升\t陳昇\n陈同海\t陳同海\n陈后主\t陳後主\n陈嘉爵沈培智\t陳嘉爵沈培智\n陈尸\t陳屍\n陈尹杰\t陳尹杰\n陈布雷\t陳布雷\n陈希同\t陳希同\n陈幸\t陳幸\n陈幸妤\t陳幸妤\n陈幸嫚\t陳倖嫚\n陈建志\t陳建志\n陈志伟\t陳志偉\n陈志勇\t陳志勇\n陈志声\t陳志聲\n陈志强\t陳志強\n陈志忠\t陳志忠\n陈志明\t陳志明\n陈志玮\t陳志瑋\n陈志维\t陳志維\n陈志诚\t陳志誠\n陈志豪\t陳志豪\n陈志远\t陳志遠\n陈志鸿\t陳志鴻\n陈情表\t陳情表\n陈木胜\t陳木勝\n陈杰\t陳杰\n陈永丰\t陳永豐\n陈汉升\t陳漢昇\n陈瀛钟\t陳瀛鐘\n陈炼\t陳鍊\n陈秋婷\t陳秋婷\n陈秋扬\t陳秋揚\n陈秋火\t陳秋火\n陈胜\t陳勝\n陈胜在\t陳勝在\n陈胜宏\t陳勝宏\n陈胜福\t陳勝福\n陈致中\t陳致中\n陈致远\t陳致遠\n陈荣杰\t陳榮傑\n陈谷子烂芝麻\t陳穀子爛芝麻\n陈郁秀\t陳郁秀\n陈隆志\t陳隆志\n陈面谟\t陳面謨\n陈鼎击钟\t陳鼎擊鐘\n降了\t降了\n降于\t降於\n降价\t降價\n降价出售\t降價出售\n降价求售\t降價求售\n降升调\t降升調\n降压药\t降壓藥\n降噪\t降噪\n降回\t降回\n降回到\t降回到\n降回去\t降回去\n降回来\t降回來\n降志辱身\t降志辱身\n降血压药\t降血壓藥\n降血脂药\t降血脂藥\n降表\t降表\n限于\t限於\n限价\t限價\n限制\t限制\n限制住\t限制住\n限制住居\t限制住居\n限制器\t限制器\n限制币\t限制幣\n限制式\t限制式\n限制性\t限制性\n限制是\t限制是\n限制碱\t限制鹼\n限制类\t限制類\n限制级\t限制級\n限制词\t限制詞\n限制选举\t限制選舉\n限制酶\t限制酶\n限制酶图谱\t限制酶圖譜\n限尽\t限盡\n陕西师范大学\t陝西師範大學\n陕飞集团\t陝飛集團\n陡然升高\t陡然升高\n院子里\t院子裡\n院系\t院系\n院里\t院裡\n除不尽\t除不盡\n除了\t除了\n除奸\t除奸\n除恶\t除惡\n除恶务尽\t除惡務盡\n除恶务本\t除惡務本\n除恶扶善\t除惡扶善\n除旧布新\t除舊佈新\n除臭药\t除臭藥\n除虫剂\t除蟲劑\n除虫菊\t除蟲菊\n陨获\t隕穫\n险恶\t險惡\n险症\t險症\n险胜\t險勝\n陪了\t陪了\n陪出\t陪出\n陪吊\t陪弔\n陪同\t陪同\n陪同到\t陪同到\n陪审制\t陪審制\n陪审制度\t陪審制度\n陪审团\t陪審團\n陵云\t陵雲\n陵土未干\t陵土未乾\n陵折\t陵折\n陵谷\t陵谷\n陶制\t陶製\n陶土制品\t陶土製品\n陶庵梦忆\t陶庵夢憶\n陶朱公\t陶朱公\n陶板屋\t陶板屋\n陶罐里\t陶罐裡\n陶菲克\t陶菲克\n陷之死地而后生\t陷之死地而後生\n陷于\t陷於\n陷入困境\t陷入困境\n隆乳手术\t隆乳手術\n隆冬\t隆冬\n隆准\t隆準\n隆准许\t隆准許\n隆回\t隆回\n隆回县\t隆回縣\n隆极\t隆極\n隆河谷地\t隆河谷地\n随之而后\t隨之而後\n随于\t隨於\n随口胡诌\t隨口胡謅\n随同\t隨同\n随后\t隨後\n随后就到\t隨後就到\n随后就去\t隨後就去\n随后就来\t隨後就來\n随心所欲\t隨心所欲\n随想曲\t隨想曲\n随才器使\t隨才器使\n随时制宜\t隨時制宜\n隐于\t隱於\n隐修士\t隱修士\n隐修院\t隱修院\n隐几\t隱几\n隐占\t隱佔\n隐名合伙\t隱名合夥\n隐形涂料\t隱形塗料\n";

/// Part 139 of the text.
pub const ST_PHRASES_139: &'static str = "隐恶扬善\t隱惡揚善\n隐暗\t隱暗\n隐睪症\t隱睪症\n隐翅虫\t隱翅蟲\n隐身术\t隱身術\n隔了\t隔了\n隔出\t隔出\n隔出来\t隔出來\n隔别\t隔別\n隔向\t隔向\n隔周\t隔週\n隔山观虎斗\t隔山觀虎鬥\n隔年的皇历\t隔年的皇曆\n隔年皇历\t隔年皇曆\n隔房同辈\t隔房同輩\n隔断板\t隔斷板\n隔板\t隔板\n隔热板\t隔熱板\n隔舱板\t隔艙板\n隔音板\t隔音板\n隧道尽头的光亮\t隧道盡頭的光亮\n隧道症\t隧道症\n隧道里\t隧道裡\n隶仆\t隸僕\n隶属于\t隸屬於\n难了\t難了\n难于\t難於\n难于上天\t難於上天\n难于接近\t難於接近\n难于登天\t難於登天\n难以出口\t難以出口\n难住了\t難住了\n难偿所愿\t難償所願\n难出\t難出\n难出手心\t難出手心\n难分难舍\t難分難捨\n难割难舍\t難割難捨\n难咽\t難嚥\n难容于\t難容於\n难当\t難當\n难当重任\t難當重任\n难得糊涂\t難得糊塗\n难挨\t難捱\n难控制\t難控制\n难施面目\t難施面目\n难易适中\t難易適中\n难舍\t難捨\n难舍难分\t難捨難分\n难舍难离\t難捨難離\n难荫\t難廕\n难道\t難道\n雀噪\t雀噪\n雁荡\t雁蕩\n雁荡山\t雁蕩山\n雄师百万\t雄師百萬\n雄心万丈\t雄心萬丈\n雄心壮志\t雄心壯志\n雄才\t雄才\n雄才大略\t雄才大略\n雄据一方\t雄據一方\n雄斗斗\t雄斗斗\n雄胜\t雄勝\n雅人深致\t雅人深致\n雅克\t雅克\n雅克萨\t雅克薩\n雅库次克\t雅庫次克\n雅游\t雅游\n雅筑\t雅筑\n雅致\t雅緻\n雅舍\t雅舍\n雅范\t雅範\n雅鉴\t雅鑒\n雅鲁藏布\t雅魯藏布\n雅鲁藏布大峡谷\t雅魯藏布大峽谷\n雅鲁藏布江\t雅魯藏布江\n集中托运\t集中托運\n集了\t集了\n集于\t集於\n集于一身\t集於一身\n集会游行法\t集會遊行法\n集体强奸\t集體強姦\n集合\t集合\n集合令\t集合令\n集合体\t集合體\n集合到\t集合到\n集合号\t集合號\n集合名词\t集合名詞\n集合地点\t集合地點\n集合式\t集合式\n集合时间\t集合時間\n集合点\t集合點\n集合论\t集合論\n集合起来\t集合起來\n集团\t集團\n集团主义\t集團主義\n集团军\t集團軍\n集团案\t集團案\n集团结婚\t集團結婚\n集团股\t集團股\n集录\t集錄\n集注\t集註\n集游法\t集遊法\n集电极\t集電極\n集训团\t集訓團\n集资合建\t集資合建\n雇主\t僱主\n雇于\t僱於\n雇人\t僱人\n雇佣\t僱傭\n雇农\t僱農\n雇到\t僱到\n雇员\t僱員\n雇工\t僱工\n雇用\t僱用\n雌核\t雌核\n雌雄同体\t雌雄同體\n雌雄同体人\t雌雄同體人\n雌雄同株\t雌雄同株\n雍容闲雅\t雍容閒雅\n雕丧\t雕喪\n雕丽\t雕麗\n雕云\t雕雲\n雕像\t雕像\n雕具座\t鵰具座\n雕出\t雕出\n雕凿\t雕鑿\n雕刻\t雕刻\n雕刻出\t雕刻出\n雕刻刀\t雕刻刀\n雕刻匠\t雕刻匠\n雕刻品\t雕刻品\n雕刻家\t雕刻家\n雕刻师\t雕刻師\n雕刻术\t雕刻術\n雕刻画\t雕刻畫\n雕励\t雕勵\n雕啄\t雕啄\n雕塑\t雕塑\n雕塑品\t雕塑品\n雕塑家\t雕塑家\n雕墙\t雕牆\n雕工\t雕工\n雕弓\t雕弓\n雕心雁爪\t鵰心雁爪\n雕悍\t鵰悍\n雕戈\t雕戈\n雕成\t雕成\n雕敝\t雕敝\n雕板\t雕板\n雕栏\t雕欄\n雕梁\t雕樑\n雕梁画柱\t雕樑畫柱\n雕梁画栋\t雕樑畫棟\n雕楹碧槛\t雕楹碧檻\n雕残\t雕殘\n雕漆\t雕漆\n雕版\t雕版\n雕版印刷\t雕版印刷\n雕琢\t雕琢\n雕瑑\t雕瑑\n雕砌\t雕砌\n雕空\t雕空\n雕章缋句\t雕章繢句\n雕章镂句\t雕章鏤句\n雕簇\t雕簇\n雕绘\t雕繪\n雕翎\t鵰翎\n雕翎扇\t鵰翎扇\n雕肝琢肾\t雕肝琢腎\n雕肝琢膂\t雕肝琢膂\n雕肝镂肾\t雕肝鏤腎\n雕胡米\t雕胡米\n雕色\t雕色\n雕花\t雕花\n雕花漆彩\t雕花漆彩\n雕虫\t雕蟲\n雕虫小技\t雕蟲小技\n雕虫小艺\t雕蟲小藝\n雕虫篆\t雕蟲篆\n雕虫篆刻\t雕蟲篆刻\n雕蚶镂蛤\t雕蚶鏤蛤\n雕谢\t雕謝\n雕镂\t雕鏤\n雕镌\t雕鐫\n雕零\t雕零\n雕青\t雕青\n雕题\t雕題\n雕飕\t雕颼\n雕饰\t雕飾\n雕饰品\t雕飾品\n雕骚\t雕騷\n雕鹗\t鵰鶚\n雕龙\t雕龍\n雨云\t雨雲\n雨余芳草斜阳\t雨餘芳草斜陽\n雨刮\t雨刮\n雨后\t雨後\n雨后春笋\t雨後春筍\n雨层云\t雨層雲\n雨布\t雨布\n雨散云收\t雨散雲收\n雨村曲话\t雨村曲話\n雨泽下注\t雨澤下注\n雨约云期\t雨約雲期\n雨花台\t雨花臺\n雨花台区\t雨花臺區\n雨露均沾\t雨露均霑\n雨魄云魂\t雨魄雲魂\n雩坛\t雩壇\n雪松\t雪松\n雪板\t雪板\n雪柜\t雪櫃\n雪狮子向火\t雪獅子向火\n雪窗萤几\t雪窗螢几\n雪耻复国\t雪恥復國\n雪耻报仇\t雪恥報仇\n雪茄烟\t雪茄煙\n雪里\t雪裡\n雪里红\t雪裡紅\n雪里蕻\t雪裡蕻\n雪里送炭\t雪裡送炭\n雪铲\t雪鏟\n零个\t零個\n零件厂\t零件廠\n零余\t零餘\n零余子\t零餘子\n零只\t零隻\n零周期\t零週期\n零售价\t零售價\n零售价格\t零售價格\n零多只\t零多隻\n零天后\t零天後\n零布\t零布\n零曲率\t零曲率\n零碎\t零碎\n零系数\t零係數\n雷云\t雷雲\n雷克\t雷克\n雷克南\t雷克南\n雷克坦跑道\t雷克坦跑道\n雷克斯\t雷克斯\n雷克斯暴龙\t雷克斯暴龍\n雷克萨斯\t雷克薩斯\n雷克雅维克\t雷克雅維克\n雷同\t雷同\n雷夫范恩斯\t雷夫范恩斯\n雷射血管成形术\t雷射血管成形術\n雷德克里夫\t雷德克里夫\n雷扎耶湖\t雷扎耶湖\n雷文克劳\t雷文克勞\n雷昂卡发洛\t雷昂卡發洛\n雷神进行曲\t雷神進行曲\n雷蒙\t雷蒙\n雷蒙德\t雷蒙德\n雷蒙德电\t雷蒙德電\n雷贾帕克斯\t雷賈帕克斯\n雷达搜索\t雷達搜索\n雷雨云\t雷雨雲\n雷霆万钧\t雷霆萬鈞\n雷霆万钧之势\t雷霆萬鈞之勢\n雷马克\t雷馬克\n雾台\t霧臺\n雾台乡\t霧臺鄉\n雾蒙蒙\t霧濛濛\n雾里\t霧裡\n雾里看花\t霧裡看花\n雾锁云埋\t霧鎖雲埋\n需才孔亟\t需才孔亟\n需求面\t需求面\n需要是发明之母\t需要是發明之母\n霁范\t霽範\n霁范永存\t霽範永存\n霄壤之别\t霄壤之別\n震于\t震於\n震天价响\t震天價響\n震旦方向\t震旦方向\n震栗\t震慄\n震波曲线\t震波曲線\n震源机制\t震源機制\n震耳欲聋\t震耳欲聾\n震荡\t震盪\n震荡不安\t震盪不安\n震荡性\t震盪性\n霉味\t霉味\n霉天\t霉天\n霉头\t霉頭\n霉干菜\t霉乾菜\n霉毒\t黴毒\n霉气\t霉氣\n霉气冲天\t霉氣沖天\n霉湿\t霉濕\n霉烂\t霉爛\n霉素\t黴素\n霉菌\t黴菌\n霉豆腐\t霉豆腐\n霉运\t霉運\n霉运当头\t霉運當頭\n霉雨\t霉雨\n霉黑\t黴黑\n霉黧\t黴黧\n霍乱杆菌\t霍亂桿菌\n霍克松\t霍克松\n霍克海姆\t霍克海姆\n霍尔布鲁克\t霍爾布魯克\n霍布斯\t霍布斯\n霍布森\t霍布森\n霍普曼杯\t霍普曼杯\n霍里\t霍里\n霓裳羽衣曲\t霓裳羽衣曲\n霜叶\t霜葉\n霞云\t霞雲\n霞彩\t霞彩\n霞表\t霞表\n露丑\t露醜\n露了\t露了\n露出\t露出\n露出了狐狸尾巴\t露出了狐狸尾巴\n露出原形\t露出原形\n露出去\t露出去\n露出来\t露出來\n露出破绽\t露出破綻\n露出马脚\t露出馬腳\n露台\t露臺\n露台弟子\t露臺弟子\n露天开采\t露天開採\n露尸\t露屍\n露布\t露布\n露才\t露才\n露才扬己\t露才揚己\n露板\t露板\n露营休闲车旅游\t露營休閒車旅遊\n露覆\t露覆\n露面\t露面\n露面抛头\t露面拋頭\n霸占\t霸佔\n霸占住\t霸佔住\n霸才\t霸才\n霸据\t霸據\n霸术\t霸術\n霸王别姬\t霸王別姬\n霸陵折柳\t霸陵折柳\n霹雳游侠\t霹靂遊俠\n青云\t青雲\n青云之器\t青雲之器\n青云之士\t青雲之士\n";

/// Part 140 of the text.
pub const ST_PHRASES_140: &'static str = "青云志\t青雲志\n青云直上\t青雲直上\n青云谱\t青雲譜\n青云谱区\t青雲譜區\n青出于蓝\t青出於藍\n青出于蓝而胜于蓝\t青出於藍而勝於藍\n青发\t青發\n青叶\t青葉\n青少年团\t青少年團\n青山一发\t青山一髮\n青帘\t青帘\n青年党\t青年黨\n青年团\t青年團\n青年救国团\t青年救國團\n青康滇纵谷高原\t青康滇縱谷高原\n青杠\t青槓\n青松\t青松\n青果合作社\t青果合作社\n青海师范大学\t青海師範大學\n青灯黄卷\t青燈黃卷\n青烟\t青煙\n青瓦台\t青瓦臺\n青石板\t青石板\n青红皂白\t青紅皂白\n青苹\t青苹\n青苹果\t青蘋果\n青虫\t青蟲\n青蝇吊客\t青蠅弔客\n青过于蓝\t青過於藍\n青钱万选\t青錢萬選\n青霉\t青黴\n青霉素\t青黴素\n青面獠牙\t青面獠牙\n青鞋布袜\t青鞋布襪\n靖康传信录\t靖康傳信錄\n靖康要录\t靖康要錄\n静以制动\t靜以制動\n静修\t靜修\n静极思动\t靜極思動\n静脉曲张\t靜脈曲張\n静脉注入\t靜脈注入\n静脉注射\t靜脈注射\n静脉血栓症\t靜脈血栓症\n静舍\t靜舍\n静荡荡\t靜蕩蕩\n静配合\t靜配合\n静默致哀\t靜默致哀\n非于\t非於\n非借不可\t非借不可\n非党人士\t非黨人士\n非党员\t非黨員\n非出\t非出\n非出不可\t非出不可\n非占不可\t非佔不可\n非发不可\t非發不可\n非发光体\t非發光體\n非合并\t非合併\n非同\t非同\n非同儿戏\t非同兒戲\n非同容易\t非同容易\n非同寻常\t非同尋常\n非同小可\t非同小可\n非同步\t非同步\n非吸烟\t非吸菸\n非层岩\t非層巖\n非师范\t非師範\n非师范类\t非師範類\n非当\t非當\n非当不可\t非當不可\n非形象艺术\t非形象藝術\n非意相干\t非意相干\n非才\t非才\n非据\t非據\n非杠杆化\t非槓桿化\n非标准\t非標準\n非核\t非核\n非欧几何\t非歐幾何\n非欧几何学\t非歐幾何學\n非法勾当\t非法勾當\n非洲出血热\t非洲出血熱\n非洲团结组织\t非洲團結組織\n非洲大裂谷\t非洲大裂谷\n非洲开发银行\t非洲開發銀行\n非洲锥虫病\t非洲錐蟲病\n非涂不可\t非塗不可\n非游离辐射伤害\t非游離輻射傷害\n非确定性\t非確定性\n非种子\t非種子\n非签不可\t非簽不可\n非致命\t非致命\n非营业支出\t非營業支出\n非规范\t非規範\n非词重复测验\t非詞重複測驗\n非贸易创汇\t非貿易創匯\n靠了\t靠了\n靠前面\t靠前面\n靠后\t靠後\n靠后面\t靠後面\n靠外面\t靠外面\n靠外面走\t靠外面走\n靠水面\t靠水面\n靠里面\t靠裡面\n靠里面走\t靠裡面走\n靡不有初鲜克有终\t靡不有初鮮克有終\n靡然向风\t靡然向風\n面上\t面上\n面上无光\t面上無光\n面不改容\t面不改容\n面不改色\t面不改色\n面世\t面世\n面临\t面臨\n面临到\t面臨到\n面临困难\t面臨困難\n面交\t面交\n面人\t麵人\n面人儿\t麵人兒\n面从\t面從\n面价\t麵價\n面会\t面會\n面值\t面值\n面儿\t面兒\n面允\t面允\n面光\t面光\n面具\t面具\n面分\t面分\n面刺\t面刺\n面前\t面前\n面包\t麵包\n面包刀\t麵包刀\n面包屑\t麵包屑\n面包师\t麵包師\n面包师傅\t麵包師傅\n面包店\t麵包店\n面包心\t麵包心\n面包房\t麵包房\n面包树\t麵包樹\n面包渣\t麵包渣\n面包片\t麵包片\n面包皮\t麵包皮\n面包粉\t麵包粉\n面包花\t麵包花\n面包车\t麵包車\n面北\t面北\n面北眉南\t面北眉南\n面厂\t麵廠\n面叙\t面敘\n面向\t面向\n面向对象的技术\t面向對象的技術\n面向对象语言\t面向對象語言\n面向连接\t面向連接\n面君\t面君\n面听\t面聽\n面呈\t面呈\n面告\t面告\n面命耳提\t面命耳提\n面商\t面商\n面善\t面善\n面善心恶\t面善心惡\n面善心狠\t面善心狠\n面嘱\t面囑\n面嘴\t面嘴\n面团\t麵糰\n面团团\t面團團\n面圆耳大\t面圓耳大\n面圣\t面聖\n面坊\t麵坊\n面坯儿\t麵坯兒\n面型\t面型\n面垢\t面垢\n面塑\t麵塑\n面墙\t面牆\n面墙而立\t面牆而立\n面壁\t面壁\n面壁下帷\t面壁下帷\n面壁功深\t面壁功深\n面壁坐禅\t面壁坐禪\n面壁思过\t面壁思過\n面奏\t面奏\n面如\t面如\n面如傅粉\t面如傅粉\n面如冠玉\t面如冠玉\n面如噀血\t面如噀血\n面如土色\t面如土色\n面如敷粉\t面如敷粉\n面如桃花\t面如桃花\n面如槁木\t面如槁木\n面如死灰\t面如死灰\n面如灰土\t面如灰土\n面如白纸\t面如白紙\n面如白蜡\t面如白蠟\n面如美玉\t面如美玉\n面如重枣\t面如重棗\n面如金纸\t面如金紙\n面如铁色\t面如鐵色\n面嫩\t面嫩\n面子\t面子\n面子上\t面子上\n面子上的人\t面子上的人\n面子上的差使\t面子上的差使\n面子上的话\t面子上的話\n面子情儿\t面子情兒\n面子药\t麵子藥\n面子话\t面子話\n面孔\t面孔\n面容\t面容\n面宽\t面寬\n面对\t面對\n面对现实\t面對現實\n面对面\t面對面\n面尘\t面塵\n面山\t面山\n面巾\t面巾\n面市\t面市\n面带\t面帶\n面带微笑\t面帶微笑\n面带忧容\t面帶憂容\n面带愁容\t面帶愁容\n面带病容\t面帶病容\n面带笑容\t面帶笑容\n面店\t麵店\n面庞\t面龐\n面弱\t面弱\n面形\t面形\n面影\t面影\n面心立方最密堆积\t面心立方最密堆積\n面恶\t面惡\n面恶心善\t面惡心善\n面情\t面情\n面房街\t麵房街\n面房里\t麵房里\n面折\t面折\n面折廷争\t面折廷爭\n面授\t面授\n面授机宜\t面授機宜\n面摊\t麵攤\n面摊子\t麵攤子\n面数\t面數\n面料\t面料\n面斥\t面斥\n面方口阔\t面方口闊\n面旋\t面旋\n面无\t面無\n面无人色\t面無人色\n面无血色\t面無血色\n面无表情\t面無表情\n面晤\t面晤\n面月印记\t面月印記\n面有\t面有\n面有喜色\t面有喜色\n面有忧色\t面有憂色\n面有菜色\t面有菜色\n面有难色\t面有難色\n面朋\t面朋\n面朝\t面朝\n面杖\t麵杖\n面杖吹火\t麵杖吹火\n面条\t麵條\n面条儿\t麵條兒\n面条目\t麵條目\n面板\t面板\n面板厂\t面板廠\n面板股\t面板股\n面染\t面染\n面桌\t面桌\n面水\t面水\n面汤\t麵湯\n面泛\t面泛\n面洽\t面洽\n面浆\t麵漿\n面海\t面海\n面灰\t麵灰\n面点\t麵點\n面点师\t麵點師\n面点王\t麵點王\n面熟\t面熟\n面版\t面版\n面甜\t面甜\n面生\t面生\n面生不熟\t面生不熟\n面疔\t面疔\n面疙瘩\t麵疙瘩\n面疱\t面皰\n面白无须\t面白無鬚\n面皂\t面皂\n面皮\t麵皮\n面皮厚\t面皮厚\n面皮失色\t面皮失色\n面皮焦黄\t面皮焦黃\n面皮薄\t面皮薄\n面皮铁青\t面皮鐵青\n面盆\t面盆\n面盘\t面盤\n面目\t面目\n面目一新\t面目一新\n面目全非\t面目全非\n面目可憎\t面目可憎\n面目清秀\t面目清秀\n面目狰狞\t面目猙獰\n面目黄瘦\t面目黃瘦\n面相\t面相\n面码儿\t麵碼兒\n面碗\t麵碗\n面票\t麵票\n面禀\t面稟\n面积\t面積\n面积分\t面積分\n面筋\t麵筋\n面粉\t麵粉\n面粉袋\t麵粉袋\n面糊\t麵糊\n面红\t面紅\n面红耳热\t面紅耳熱\n面红耳赤\t面紅耳赤\n面红过耳\t面紅過耳\n面红面赤\t面紅面赤\n面纱\t面紗\n面纸\t面紙\n面缚\t面縛\n面缚舆榇\t面縛輿櫬\n面缚衔璧\t面縛銜璧\n面缸\t麵缸\n面罄\t面罄\n面罩\t面罩\n面肥\t麵肥\n面膜\t面膜\n面致\t面致\n面般\t面般\n面色\t面色\n面色发白\t面色發白\n面色如土\t面色如土\n面色如生\t面色如生\n面色如金纸\t面色如金紙\n面色苍白\t面色蒼白\n";

/// Part 141 of the text.
pub const ST_PHRASES_141: &'static str = "面若春花\t面若春花\n面茶\t麵茶\n面薄\t面薄\n面薄腰纤\t面薄腰纖\n面衣\t面衣\n面西\t面西\n面见\t面見\n面见江东\t面見江東\n面誉\t面譽\n面誉背毁\t面譽背毀\n面议\t面議\n面试\t面試\n面试会\t面試會\n面试官\t面試官\n面试工作\t面試工作\n面请\t面請\n面谀\t面諛\n面谈\t面談\n面谒\t面謁\n面谕\t面諭\n面谢\t面謝\n面貌\t面貌\n面貌一新\t面貌一新\n面貌全非\t面貌全非\n面质\t面質\n面辞\t面辭\n面邀\t面邀\n面部\t面部\n面部表情\t面部表情\n面酱\t麵醬\n面重\t面重\n面门\t面門\n面阔口方\t面闊口方\n面陈\t面陳\n面霜\t面霜\n面露不悦\t面露不悅\n面霸\t麵霸\n面青唇白\t面青脣白\n面面\t面面\n面面俱全\t面面俱全\n面面俱到\t面面俱到\n面面俱圆\t面面俱圓\n面面厮觑\t面面廝覷\n面面相窥\t面面相窺\n面面相觑\t面面相覷\n面面观\t面面觀\n面靥\t面靨\n面颊\t面頰\n面颜\t面顏\n面额\t面額\n面食\t麵食\n面食类\t麵食類\n面饰\t面飾\n面饺\t麵餃\n面饼\t麵餅\n面馆\t麵館\n面首\t面首\n面驾\t面駕\n面黄\t面黃\n面黄唇白\t面黃脣白\n面黄肌瘦\t面黃肌瘦\n面黄肌闳\t面黃肌閎\n革出\t革出\n革出山门\t革出山門\n革出教门\t革出教門\n革制品\t革製品\n革命党\t革命黨\n革命党人\t革命黨人\n革命发展\t革命發展\n革命发展阶段论\t革命發展階段論\n革命干劲\t革命幹勁\n革命意志\t革命意志\n革命斗志\t革命鬥志\n革命积极\t革命積極\n革命积极性\t革命積極性\n革面\t革面\n革面洗心\t革面洗心\n靴后跟\t靴後跟\n靶台\t靶臺\n靶台上\t靶臺上\n鞋厂\t鞋廠\n鞋扣\t鞋釦\n鞋柜\t鞋櫃\n鞋里\t鞋裡\n鞋面\t鞋面\n鞠躬尽力\t鞠躬盡力\n鞠躬尽悴\t鞠躬盡悴\n鞠躬尽瘁\t鞠躬盡瘁\n鞠躬尽瘁死而后已\t鞠躬盡瘁死而後已\n鞣制\t鞣製\n鞭尸\t鞭屍\n鞭毛虫\t鞭毛蟲\n鞭虫\t鞭蟲\n鞭辟入里\t鞭辟入裡\n鞭辟近里\t鞭辟近裡\n韦后\t韋后\n韦娘\t韋娘\n韦布\t韋布\n韦布匹夫\t韋布匹夫\n韦布斯特\t韋布斯特\n韦庄\t韋莊\n韦陟朵云\t韋陟朵雲\n韧皮纤维\t韌皮纖維\n韩侂胄\t韓侂冑\n韩信登坛\t韓信登壇\n韩制\t韓製\n韩升洙\t韓昇洙\n韩国制\t韓國製\n韩国联合通讯社\t韓國聯合通訊社\n韩复矩\t韓復榘\n韩宗志\t韓宗志\n韩山师范学院\t韓山師範學院\n韩巴里\t韓巴里\n韩干\t韓幹\n韩干画马\t韓幹畫馬\n韩幸霖\t韓幸霖\n韩康卖药\t韓康賣藥\n韩彩英\t韓彩英\n韩海苏潮\t韓海蘇潮\n韩立克\t韓立克\n韩蒙德\t韓蒙德\n韫椟待价\t韞櫝待價\n韬戈卷甲\t韜戈卷甲\n音乐台\t音樂臺\n音乐团\t音樂團\n音乐系\t音樂系\n音乐里\t音樂裡\n音像制品\t音像製品\n音准\t音準\n音同\t音同\n音声如钟\t音聲如鐘\n音系\t音系\n韵母\t韻母\n韵致\t韻致\n韶山冲\t韶山沖\n韶钢松山\t韶鋼松山\n页岩\t頁岩\n页面\t頁面\n顶个\t頂個\n顶了\t頂了\n顶凶\t頂兇\n顶叶\t頂葉\n顶回\t頂回\n顶回去\t頂回去\n顶回来\t頂回來\n顶多\t頂多\n顶夸克\t頂夸克\n顶板\t頂板\n顶核\t頂核\n顶梁柱\t頂樑柱\n顶梁骨走了真魂\t頂樑骨走了真魂\n顶针\t頂針\n顶针儿\t頂針兒\n顶针挨住\t頂針捱住\n顶门针\t頂門針\n顶面\t頂面\n项别骓\t項別騅\n项庄\t項莊\n项庄舞剑志在沛公\t項莊舞劍志在沛公\n项梁\t項梁\n项目表\t項目表\n项链\t項鍊\n顺于\t順於\n顺发\t順發\n顺向\t順向\n顺当\t順當\n顺德者吉逆天者凶\t順德者吉逆天者凶\n顺时针\t順時針\n顺时钟\t順時鐘\n顺朱儿\t順硃兒\n顺河回族区\t順河回族區\n顺适\t順適\n顺钟向\t順鐘向\n顺风后\t順風後\n须不是\t須不是\n须发\t鬚髮\n须发展\t須發展\n须发文\t須發文\n须发皆白\t鬚髮皆白\n须发表\t須發表\n须后水\t鬚後水\n须子\t鬚子\n须将有日思无日\t須將有日思無日\n须弥\t須彌\n须弥山\t須彌山\n须弥座\t須彌座\n须待\t須待\n须得\t須得\n须捷\t須捷\n须是\t須是\n须根\t鬚根\n须根据\t須根據\n须毛\t鬚毛\n须然\t須然\n须生\t鬚生\n须用\t須用\n须留\t須留\n须眉\t鬚眉\n须知\t須知\n须索\t須索\n须胡\t鬚鬍\n须至\t須至\n须臾\t須臾\n须菩堤\t須菩堤\n须虑\t須慮\n须要\t須要\n须陀洹\t須陀洹\n须须\t鬚鬚\n须髯\t鬚髯\n须髯如戟\t鬚髯如戟\n须鲨\t鬚鯊\n须鲸\t鬚鯨\n顽卤\t頑鹵\n顽症\t頑症\n顽童历险记\t頑童歷險記\n顽筑舞笈\t頑筑舞笈\n顽蒙\t頑蒙\n顾不了\t顧不了\n顾借\t顧藉\n顾前不顾后\t顧前不顧後\n顾前顾后\t顧前顧後\n顾后瞻前\t顧後瞻前\n顾复之恩\t顧復之恩\n顾念\t顧念\n顾曲\t顧曲\n顾曲周郎\t顧曲周郎\n顾正秋\t顧正秋\n顾问团\t顧問團\n顾面子\t顧面子\n顾颜面\t顧顏面\n顿了\t頓了\n顿涅斯克\t頓涅斯克\n顿涅茨克\t頓涅茨克\n颁出\t頒出\n颁发\t頒發\n颁发奖品\t頒發獎品\n颁发奖杯\t頒發獎盃\n颁发奖牌\t頒發獎牌\n颁发奖状\t頒發獎狀\n颁发奖金\t頒發獎金\n颁奖台\t頒獎臺\n颁布\t頒佈\n颂系\t頌繫\n颂赞\t頌讚\n预借\t預借\n预制\t預製\n预制构件\t預製構件\n预卜\t預卜\n预后\t預後\n预征\t預徵\n预想出\t預想出\n预托证券\t預託證券\n预扣\t預扣\n预料出\t預料出\n预期收入票据\t預期收入票據\n预测出\t預測出\n预算表\t預算表\n预警系统\t預警系統\n预防接种\t預防接種\n预防注射\t預防注射\n预防针\t預防針\n颅盖内出血\t顱蓋內出血\n颅顶叶\t顱頂葉\n领出\t領出\n领出去\t領出去\n领出来\t領出來\n领台\t領檯\n领回\t領回\n领回去\t領回去\n领回来\t領回來\n领域里\t領域裡\n领导制度\t領導制度\n领导干部\t領導幹部\n领带针\t領帶針\n领悟出\t領悟出\n领扣\t領釦\n领据\t領據\n领略出\t領略出\n领表\t領表\n领表格\t領表格\n领袖欲\t領袖慾\n颇欲\t頗欲\n颇覆\t頗覆\n颈链\t頸鍊\n颊面\t頰面\n颊须\t頰鬚\n频危物种\t頻危物種\n频数分布\t頻數分佈\n频率合成\t頻率合成\n频率调制\t頻率調製\n频道里\t頻道裡\n颖脱而出\t穎脫而出\n题个\t題個\n题了\t題了\n题名录\t題名錄\n题库系统\t題庫系統\n题材范围\t題材範圍\n题材面\t題材面\n题签\t題簽\n颛制\t顓制\n颛蒙\t顓蒙\n颜回\t顏回\n颜志麟\t顏志麟\n颜范\t顏範\n颜面\t顏面\n颜面扫地\t顏面掃地\n颜面神经\t顏面神經\n颜面角\t顏面角\n颜面骨\t顏面骨\n额发\t額髮\n额征\t額徵\n额我略历\t額我略曆\n额我略历史\t額我略歷史\n额贺福志郎\t額賀福志郎\n额面\t額面\n颟里颟顸\t顢里顢頇\n颠乾倒坤\t顛乾倒坤\n颠仆\t顛仆\n颠倒乾坤\t顛倒乾坤\n颠儿面\t顛兒面\n颠番面皮\t顛番面皮\n颠覆\t顛覆\n颠覆性\t顛覆性\n颠连困苦\t顛連困苦\n颠颠仆仆\t顛顛仆仆\n颤栗\t顫慄\n风举云摇\t風舉雲搖\n风云\t風雲\n风云不测\t風雲不測\n风云之志\t風雲之志\n风云人物\t風雲人物\n风云人物奖\t風雲人物獎\n风云变幻\t風雲變幻\n风云变态\t風雲變態\n风云变色\t風雲變色\n风云叱咤\t風雲叱吒\n风云开阖\t風雲開闔\n风云感会\t風雲感會\n风云月露\t風雲月露\n风云气候\t風雲氣候\n风云突变\t風雲突變\n风云车\t風雲車\n风云际会\t風雲際會\n风从虎云从龙\t風從虎雲從龍\n风入松\t風入松\n风兴云蒸\t風興雲蒸\n风刮\t風颳\n";

/// Part 142 of the text.
pub const ST_PHRASES_142: &'static str = "风力发电\t風力發電\n风卷\t風捲\n风卷残云\t風捲殘雲\n风发\t風發\n风后\t風后\n风向\t風向\n风向器\t風向器\n风向标\t風向標\n风向球\t風向球\n风向袋\t風向袋\n风向针\t風向針\n风吹两面倒\t風吹兩面倒\n风吹砂子迷了眼\t風吹砂子迷了眼\n风团\t風團\n风土志\t風土誌\n风在那里起雨在那里落\t風在那裡起雨在那裡落\n风声一出\t風聲一出\n风尘仆仆\t風塵僕僕\n风尘恶俗\t風塵惡俗\n风尘表物\t風塵表物\n风干\t風乾\n风干机\t風乾機\n风情万种\t風情萬種\n风成砂岩\t風成砂岩\n风扫落叶\t風掃落葉\n风斗\t風斗\n风月宝鉴\t風月寶鑑\n风水术\t風水術\n风流云散\t風流雲散\n风流别致\t風流別緻\n风流千古\t風流千古\n风流才子\t風流才子\n风流标致\t風流標致\n风流蕴借\t風流蘊藉\n风流酝借\t風流醞藉\n风浪板\t風浪板\n风湿性心脏病\t風濕性心臟病\n风湿症\t風濕症\n风烟\t風煙\n风物志\t風物誌\n风胡子\t風胡子\n风致\t風致\n风范\t風範\n风药\t風藥\n风虎云龙\t風虎雲龍\n风起云布\t風起雲布\n风起云涌\t風起雲湧\n风起云蒸\t風起雲蒸\n风轻云净\t風輕雲淨\n风轻云淡\t風輕雲淡\n风速表\t風速表\n风采\t風采\n风采堂堂\t風采堂堂\n风里\t風裡\n风里杨花\t風裡楊花\n风里言\t風裡言\n风里语\t風裡語\n风铲\t風鏟\n风险与收益的关系\t風險與收益的關係\n风险防范\t風險防範\n风雨同舟\t風雨同舟\n风雨欲来\t風雨欲來\n风靡云涌\t風靡雲湧\n风靡云蒸\t風靡雲蒸\n风飞云会\t風飛雲會\n风马云车\t風馬雲車\n风马牛不相干\t風馬牛不相干\n风驰电卷\t風馳電卷\n飘出\t飄出\n飘向\t飄向\n飘回\t飄回\n飘摆\t飄擺\n飘游\t飄遊\n飘游四海\t飄遊四海\n飘然出世\t飄然出世\n飘荡\t飄蕩\n飘飘欲仙\t飄飄欲仙\n飘飘荡荡\t飄飄蕩蕩\n飙升\t飆升\n飙发电举\t飆發電舉\n飞个\t飛個\n飞了\t飛了\n飞云\t飛雲\n飞云掣电\t飛雲掣電\n飞出\t飛出\n飞出个未来\t飛出個未來\n飞出去\t飛出去\n飞出来\t飛出來\n飞刍挽粒\t飛芻輓粒\n飞刍挽粟\t飛芻輓粟\n飞刍挽粮\t飛芻輓糧\n飞升\t飛昇\n飞向\t飛向\n飞回\t飛回\n飞回去\t飛回去\n飞回来\t飛回來\n飞征\t飛征\n飞必冲天\t飛必沖天\n飞扎\t飛紮\n飞梁\t飛樑\n飞烟传\t飛煙傳\n飞燕游龙\t飛燕游龍\n飞粮挽秣\t飛糧輓秣\n飞腾之药\t飛騰之藥\n飞航资料记录器\t飛航資料記錄器\n飞虫\t飛蟲\n飞蚊症\t飛蚊症\n飞行云\t飛行雲\n飞行甲板\t飛行甲板\n飞行记录\t飛行記錄\n飞行记录仪\t飛行記錄儀\n飞行记录器\t飛行記錄器\n飞行钟\t飛行鐘\n飞谷\t飛谷\n飞车党\t飛車黨\n飞针走线\t飛針走線\n飞铲\t飛鏟\n飞鸟尽良弓藏\t飛鳥盡良弓藏\n飞龙乘云\t飛龍乘雲\n食不下咽\t食不下咽\n食不充饥\t食不充飢\n食不糊口\t食不餬口\n食品厂\t食品廠\n食品药品监督局\t食品藥品監督局\n食品药品监督管理局\t食品藥品監督管理局\n食心虫\t食心蟲\n食日万钱\t食日萬錢\n食欲\t食慾\n食欲不佳\t食慾不佳\n食欲不振\t食慾不振\n食物及药品管理局\t食物及藥品管理局\n食物柜\t食物櫃\n食物链\t食物鏈\n食用蜡烛木\t食用蠟燭木\n食虫植物\t食蟲植物\n食虫目\t食蟲目\n食虫虻\t食蟲虻\n食货志\t食貨志\n食道里\t食道裡\n食野之苹\t食野之苹\n食面\t食麵\n餍于游乐\t饜於游樂\n餐台\t餐檯\n餐松啖柏\t餐松啖柏\n餐松食柏\t餐松食柏\n餐松饮涧\t餐松飲澗\n饥不可食寒不可衣\t飢不可食寒不可衣\n饥不择食\t飢不擇食\n饥冻交切\t飢凍交切\n饥困\t飢困\n饥寒\t飢寒\n饥寒交切\t飢寒交切\n饥寒交迫\t飢寒交迫\n饥年\t饑年\n饥民\t饑民\n饥渴\t飢渴\n饥渴交攻\t飢渴交攻\n饥渴交迫\t飢渴交迫\n饥溺\t飢溺\n饥火\t飢火\n饥火中焚\t飢火中焚\n饥火烧肠\t飢火燒腸\n饥者易为食\t飢者易為食\n饥者甘糟糠\t飢者甘糟糠\n饥肠\t飢腸\n饥肠辘辘\t飢腸轆轆\n饥色\t飢色\n饥荒\t饑荒\n饥虎扑食\t飢虎撲食\n饥附饱飏\t飢附飽颺\n饥餐渴饮\t飢餐渴飲\n饥饱\t飢飽\n饥饿\t飢餓\n饥饿三十\t飢餓三十\n饥饿感\t飢餓感\n饥馁\t飢餒\n饥馑\t饑饉\n饥馑之岁\t饑饉之歲\n饥馑荐臻\t饑饉薦臻\n饥鹰饿虎\t飢鷹餓虎\n饬回\t飭回\n饭后\t飯後\n饭后服用\t飯後服用\n饭后漱口\t飯後漱口\n饭后百步走\t飯後百步走\n饭后钟\t飯後鐘\n饭团\t飯糰\n饭庄\t飯莊\n饭庄里\t飯莊裡\n饭店回葱\t飯店回蔥\n饭店里买葱\t飯店裡買蔥\n饭饱生余事\t飯飽生餘事\n饮弹自尽\t飲彈自盡\n饮料里\t飲料裡\n饮杯\t飲杯\n饮水曲肱\t飲水曲肱\n饮胄\t飲冑\n饯别\t餞別\n饰扣\t飾釦\n饰板\t飾板\n饰面\t飾面\n饱人不知饿人饥\t飽人不知餓人飢\n饱合\t飽合\n饱和化合物\t飽和化合物\n饱学秀才\t飽學秀才\n饱尝\t飽嘗\n饱当知人饥\t飽當知人飢\n饱暖思淫欲\t飽暖思淫慾\n饱暖生淫欲\t飽暖生淫慾\n饱汉不知饿汉饥\t飽漢不知餓漢飢\n饲养标准\t飼養標準\n饲喂\t飼餵\n饶舌歌曲\t饒舌歌曲\n饼干\t餅乾\n饼干店\t餅乾店\n饼干盒\t餅乾盒\n饿死了\t餓死了\n饿殍枕借\t餓殍枕藉\n饿虎饥鹰\t餓虎飢鷹\n馂余\t餕餘\n馄饨面\t餛飩麵\n馆舍\t館舍\n馆谷\t館穀\n馆里\t館裡\n馆际互借\t館際互借\n馋涎欲垂\t饞涎欲垂\n馋涎欲滴\t饞涎欲滴\n首丘夙愿\t首丘夙願\n首发\t首發\n首只\t首隻\n首台\t首臺\n首尔\t首爾\n首席代表\t首席代表\n首开纪录\t首開紀錄\n首当\t首當\n首当其冲\t首當其衝\n首恶\t首惡\n首部曲\t首部曲\n首都师范大学\t首都師範大學\n首都杯\t首都盃\n首长制\t首長制\n首面\t首面\n首须\t首須\n香干\t香乾\n香愿\t香願\n香斗\t香斗\n香格里拉\t香格里拉\n香格里拉县\t香格里拉縣\n香格里拉怡咖啡\t香格里拉怡咖啡\n香榭丽舍\t香榭麗舍\n香榭丽舍大街\t香榭麗舍大街\n香榭里大道\t香榭里大道\n香港工会联合会\t香港工會聯合會\n香港游\t香港遊\n香港电台\t香港電臺\n香港贸易发展局\t香港貿易發展局\n香烟\t香菸\n香烟不绝\t香煙不絕\n香烟后代\t香煙後代\n香烟头\t香菸頭\n香烟盒\t香菸盒\n香熏\t香薰\n香熏疗法\t香薰療法\n香皂\t香皂\n香菜叶\t香菜葉\n香蕉干\t香蕉乾\n香蜡\t香蠟\n香蜡店\t香蠟店\n香蜡纸马\t香蠟紙馬\n香蜡铺\t香蠟鋪\n香郁\t香郁\n馥郁\t馥郁\n马丁尼克\t馬丁尼克\n马丁杜里荷\t馬丁杜里荷\n马云\t馬雲\n马修连恩\t馬修連恩\n马修麦费狄恩\t馬修麥費狄恩\n马克\t馬克\n马克吐温\t馬克吐溫\n马克安东尼\t馬克安東尼\n马克安诺\t馬克安諾\n马克思\t馬克思\n马克思主义\t馬克思主義\n马克思列宁主义\t馬克思列寧主義\n马克数\t馬克數\n马克斯\t馬克斯\n马克斯主义\t馬克斯主義\n马克斯威尔\t馬克斯威爾\n马克斯普朗克\t馬克斯普朗克\n马克杯\t馬克杯\n马克沁\t馬克沁\n马克沁机枪\t馬克沁機槍\n马克笔\t馬克筆\n马克西米连\t馬克西米連\n马利布\t馬利布\n马占山\t馬占山\n马厂\t馬廠\n马厝卡舞曲\t馬厝卡舞曲\n马可波罗游记\t馬可波羅遊記\n马台\t馬臺\n马吊\t馬吊\n马后\t馬後\n马后炮\t馬後炮\n马后砲\t馬後砲\n";

/// Part 143 of the text.
pub const ST_PHRASES_143: &'static str = "马后练服\t馬后練服\n马噶尔尼使团\t馬噶爾尼使團\n马太受难曲\t馬太受難曲\n马夫\t馬伕\n马头娘\t馬頭娘\n马尔克奥雷利\t馬爾克奧雷利\n马尔扎赫\t馬爾扎赫\n马尔谷\t馬爾谷\n马尼托巴\t馬尼托巴\n马尾松\t馬尾松\n马布\t馬布\n马布瑞\t馬布瑞\n马干\t馬乾\n马德里\t馬德里\n马德里队\t馬德里隊\n马志英\t馬志英\n马戏团\t馬戲團\n马戏团表演\t馬戲團表演\n马戏表演\t馬戲表演\n马戛尔尼使团\t馬戛爾尼使團\n马扎\t馬紮\n马扎尔\t馬扎爾\n马扎尔语\t馬扎爾語\n马托格罗索\t馬託格羅索\n马拉巴栗\t馬拉巴栗\n马拉松\t馬拉松\n马拉松式\t馬拉松式\n马拉松组\t馬拉松組\n马拉松赛\t馬拉松賽\n马拉松赛跑\t馬拉松賽跑\n马提尼克\t馬提尼克\n马斯垂克\t馬斯垂克\n马斯垂克条约\t馬斯垂克條約\n马斯特里赫特\t馬斯特里赫特\n马普托\t馬普托\n马术\t馬術\n马术赛\t馬術賽\n马朱罗\t馬朱羅\n马杆\t馬杆\n马来亚玻里尼西亚语系\t馬來亞玻里尼西亞語系\n马杰明\t馬傑明\n马格里布\t馬格里布\n马桶里\t馬桶裡\n马死黄金尽\t馬死黃金盡\n马致远\t馬致遠\n马苏\t馬蘇\n马苏德\t馬蘇德\n马苏里拉\t馬蘇里拉\n马表\t馬錶\n马车夫\t馬車伕\n马里亚纳\t馬里亞納\n马里亚纳海沟\t馬里亞納海溝\n马里亚纳群岛\t馬里亞納群島\n马里克\t馬里克\n马里兰\t馬里蘭\n马里兰州\t馬里蘭州\n马里共和国\t馬里共和國\n马里内斯科\t馬里內斯科\n马里奇\t馬里奇\n马里奥\t馬里奧\n马里安纳海沟\t馬里安納海溝\n马里布\t馬里布\n马里斯\t馬里斯\n马面\t馬面\n马面战棚\t馬面戰棚\n马革裹尸\t馬革裹屍\n马鬣松\t馬鬣松\n驭兽术\t馭獸術\n驭夫有术\t馭夫有術\n驱出\t驅出\n驱恶向善\t驅惡向善\n驱虫\t驅蟲\n驱虫剂\t驅蟲劑\n驱虫效率\t驅蟲效率\n驱逐出\t驅逐出\n驱逐出境\t驅逐出境\n驳回\t駁回\n驳回去\t駁回去\n驳回来\t駁回來\n驳面子\t駁面子\n驴前马后\t驢前馬後\n驴蒙虎皮\t驢蒙虎皮\n驶出\t駛出\n驶向\t駛向\n驶回\t駛回\n驻台\t駐臺\n驻扎\t駐紮\n驻扎地\t駐紮地\n驻车制动\t駐車制動\n驻颜有术\t駐顏有術\n驽马十舍\t駑馬十舍\n驾了\t駕了\n驾云\t駕雲\n驾回\t駕回\n驾回去\t駕回去\n驾回来\t駕回來\n驾娘\t駕娘\n驾御\t駕御\n驾雾腾云\t駕霧騰雲\n驾鹤西游\t駕鶴西遊\n骀借\t駘藉\n骀荡\t駘蕩\n骂个\t罵個\n骂了\t罵了\n骋凶骋势\t騁兇騁勢\n骋志\t騁志\n验出\t驗出\n验尸\t驗屍\n验尸官\t驗屍官\n验收规范\t驗收規範\n验核\t驗覈\n骏业宏发\t駿業宏發\n骏发\t駿發\n骏豪集团\t駿豪集團\n骏马雕鞍\t駿馬雕鞍\n骑了\t騎了\n骑兵团\t騎兵團\n骑出\t騎出\n骑出去\t騎出去\n骑出来\t騎出來\n骑回\t騎回\n骑回去\t騎回去\n骑回来\t騎回來\n骑士团\t騎士團\n骑术\t騎術\n骗不了\t騙不了\n骗了\t騙了\n骗人布\t騙人布\n骗出\t騙出\n骗出去\t騙出去\n骗出来\t騙出來\n骗回\t騙回\n骗回去\t騙回去\n骗回来\t騙回來\n骗拐\t騙拐\n骗术\t騙術\n骗术奇谭\t騙術奇譚\n骨坛\t骨罈\n骨头里挣出来的钱才做得肉\t骨頭裡掙出來的錢才做得肉\n骨子里\t骨子裡\n骨子里头\t骨子裡頭\n骨岩岩\t骨岩岩\n骨干\t骨幹\n骨干分子\t骨幹分子\n骨干网路\t骨幹網路\n骨折\t骨折\n骨灰坛\t骨灰罈\n骨肉团圆\t骨肉團圓\n骨肉团聚\t骨肉團聚\n骨质疏松\t骨質疏鬆\n骨质疏松症\t骨質疏鬆症\n骨质石化症\t骨質石化症\n骨质软化症\t骨質軟化症\n骨里骨碌\t骨裡骨碌\n骨针\t骨針\n骺软骨板\t骺軟骨板\n骾朴\t骾朴\n髀肉复生\t髀肉復生\n高个\t高個\n高个儿\t高個兒\n高个子\t高個子\n高丽参\t高麗參\n高了\t高了\n高于\t高於\n高云\t高雲\n高价\t高價\n高价位\t高價位\n高价股\t高價股\n高几\t高几\n高出\t高出\n高升\t高升\n高参\t高參\n高发\t高發\n高台\t高臺\n高台县\t高臺縣\n高周波\t高週波\n高唱入云\t高唱入雲\n高坛\t高壇\n高处不胜寒\t高處不勝寒\n高学历\t高學歷\n高尔基复合体\t高爾基複合體\n高尔察克\t高爾察克\n高层云\t高層雲\n高层建筑\t高層建築\n高山症\t高山症\n高岸深谷\t高岸深谷\n高干\t高幹\n高干扰\t高干擾\n高干预\t高干預\n高度自制\t高度自制\n高度表\t高度表\n高志尚\t高志尚\n高志纲\t高志綱\n高志航\t高志航\n高志鹏\t高志鵬\n高性价\t高性價\n高手如云\t高手如雲\n高才\t高才\n高才生\t高才生\n高技术\t高技術\n高抬身价\t高抬身價\n高挂\t高掛\n高政升\t高政昇\n高杆\t高杆\n高杠\t高槓\n高柏松\t高柏松\n高标准\t高標準\n高梁\t高梁\n高梁川\t高梁川\n高梁市\t高梁市\n高歌一曲\t高歌一曲\n高步云衢\t高步雲衢\n高水准\t高水準\n高清愿\t高清愿\n高球杯\t高球杯\n高票当选\t高票當選\n高积云\t高積雲\n高等师范\t高等師範\n高筋面粉\t高筋麵粉\n高粱\t高粱\n高粱米\t高粱米\n高粱酒\t高粱酒\n高纤\t高纖\n高纤维\t高纖維\n高级管理人才\t高級管理人才\n高耸入云\t高聳入雲\n高胄\t高胄\n高能烈性炸药\t高能烈性炸藥\n高脂血症\t高脂血症\n高脚杯\t高腳杯\n高致病性\t高致病性\n高致病性禽\t高致病性禽\n高良姜\t高良薑\n高英杰\t高英傑\n高血压症\t高血壓症\n高血压药\t高血壓藥\n高血脂症\t高血脂症\n高跳台\t高跳臺\n高郁净\t高郁淨\n髡发\t髡髮\n髭胡\t髭鬍\n髭须\t髭鬚\n髯胡\t髯鬍\n髹饰录\t髹飾錄\n髼松\t髼鬆\n鬅松\t鬅鬆\n鬈发\t鬈髮\n鬈曲\t鬈曲\n鬒发\t鬒髮\n鬓云\t鬢雲\n鬓发\t鬢髮\n鬓发如银\t鬢髮如銀\n鬓发皆白\t鬢髮皆白\n鬓发皓然\t鬢髮皓然\n鬼出电入\t鬼出電入\n鬼录\t鬼錄\n鬼怕恶人\t鬼怕惡人\n鬼才\t鬼才\n鬼气冲天\t鬼氣沖天\n鬼片当道\t鬼片當道\n鬼胡油\t鬼胡油\n鬼胡由\t鬼胡由\n鬼谷子\t鬼谷子\n鬼迷了张天师\t鬼迷了張天師\n鬼针草\t鬼針草\n鬼门上占卦\t鬼門上占卦\n魁人党\t魁人黨\n魁北克\t魁北克\n魁北克市\t魁北克市\n魁北克省\t魁北克省\n魂不守舍\t魂不守舍\n魂牵梦系\t魂牽夢繫\n魏克\t魏克\n魏克菲尔\t魏克菲爾\n魏台复\t魏臺復\n魏幸雄\t魏幸雄\n魏征\t魏徵\n魏斯里史奈普\t魏斯里史奈普\n魏明谷\t魏明谷\n魏郁奇\t魏郁奇\n魔仆\t魔僕\n魔合罗\t魔合羅\n魔术\t魔術\n魔术家\t魔術家\n魔术师\t魔術師\n魔术数字\t魔術數字\n魔术方块\t魔術方塊\n魔术棒\t魔術棒\n魔术秀\t魔術秀\n魔术蛇\t魔術蛇\n魔术贴\t魔術貼\n魔术队\t魔術隊\n魔板\t魔板\n魔表\t魔錶\n魔赛克\t魔賽克\n鱼丸粗面\t魚丸粗麵\n鱼台\t魚臺\n鱼台县\t魚臺縣\n鱼头参政\t魚頭參政\n鱼尾板\t魚尾板\n鱼干\t魚乾\n鱼松\t魚鬆\n鱼板\t魚板\n鱼梁\t魚樑\n鱼沉雁杳\t魚沉雁杳\n鱼游釜中\t魚游釜中\n鱼游釜底\t魚游釜底\n鱼种\t魚種\n鱼篮宝卷\t魚籃寶卷\n鱼肉乡里\t魚肉鄉里\n鱼胄\t魚冑\n鱼虫\t魚蟲\n鱼贯而出\t魚貫而出\n鱼鳞松\t魚鱗松\n鱼鼓简板\t魚鼓簡板\n鲁克\t魯克\n鲁克斯\t魯克斯\n鲁毕克方块\t魯畢克方塊\n鲁肉面\t魯肉麵\n鲁般手里调大斧\t魯般手裡調大斧\n鲁适维\t魯適維\n鲇鱼\t鯰魚\n鲋鱼困涸辙难待西江水\t鮒魚困涸轍難待西江水\n鲍德里亚\t鮑德里亞\n";

/// Part 144 of the text.
pub const ST_PHRASES_144: &'static str = "鲍罗丁\t鮑羅丁\n鲗鱼涌\t鰂魚涌\n鲜于\t鮮于\n鲜彩\t鮮彩\n鲜明个性\t鮮明個性\n鲜胄\t鮮胄\n鲜血淋漓\t鮮血淋漓\n鲜谷王\t鮮穀王\n鲸蜡\t鯨蠟\n鲸须\t鯨鬚\n鳃叶\t鰓葉\n鳌头独占\t鰲頭獨佔\n鳌里夺尊\t鰲裡奪尊\n鳝鱼面\t鱔魚麵\n鳞叶\t鱗葉\n鳞游\t鱗游\n鳞虫\t鱗蟲\n鳣舍\t鱣舍\n鸟卜\t鳥卜\n鸟尽弓藏\t鳥盡弓藏\n鸟松\t鳥松\n鸟松乡\t鳥松鄉\n鸟虫书\t鳥蟲書\n鸟里鸟气\t鳥裡鳥氣\n鸟面鹄形\t鳥面鵠形\n鸠占鹊巢\t鳩佔鵲巢\n鸠合\t鳩合\n鸠形鹄面\t鳩形鵠面\n鸡丝\t雞絲\n鸡丝面\t雞絲麵\n鸡争鹅斗\t雞爭鵝鬥\n鸡兔同笼\t雞兔同籠\n鸡口牛后\t雞口牛後\n鸡只\t雞隻\n鸡同鸭讲\t雞同鴨講\n鸡吵鹅斗\t雞吵鵝鬥\n鸡奸\t雞姦\n鸡尸牛从\t雞尸牛從\n鸡犬俱升\t雞犬俱升\n鸡犬升天\t雞犬升天\n鸡犬识新丰\t雞犬識新豐\n鸡皮栗子\t雞皮栗子\n鸡皮鹤发\t雞皮鶴髮\n鸡肤鹤发\t雞膚鶴髮\n鸡腿面\t雞腿麵\n鸡舍\t雞舍\n鸡虫得失\t雞蟲得失\n鸡蛋里挑骨头\t雞蛋裡挑骨頭\n鸡蛋面\t雞蛋麵\n鸣咽\t鳴咽\n鸣榔板\t鳴榔板\n鸣钟\t鳴鐘\n鸣钟列鼎\t鳴鐘列鼎\n鸦片烟\t鴉片煙\n鸦窝里出凤凰\t鴉窩裡出鳳凰\n鸭子划水\t鴨子划水\n鸭跖草\t鴨跖草\n鸳鸯折颈\t鴛鴦折頸\n鸷虫\t鷙蟲\n鸿志\t鴻志\n鸿案相庄\t鴻案相莊\n鸿篇巨制\t鴻篇鉅製\n鸿篇巨著\t鴻篇鉅著\n鸿胄\t鴻胄\n鸿范\t鴻範\n鸿蒙\t鴻蒙\n鸿运当头\t鴻運當頭\n鸿鹄之志\t鴻鵠之志\n鸿鹄大志\t鴻鵠大志\n鹄发\t鵠髮\n鹄志\t鵠志\n鹄面\t鵠面\n鹄面鸟形\t鵠面鳥形\n鹄面鸠形\t鵠面鳩形\n鹅准\t鵝準\n鹊噪\t鵲噪\n鹊巢鸠占\t鵲巢鳩佔\n鹍鸡曲\t鵾雞曲\n鹏程万里\t鵬程萬里\n鹘仑吞枣\t鶻崙吞棗\n鹤发\t鶴髮\n鹤发童颜\t鶴髮童顏\n鹤吊\t鶴弔\n鹤板\t鶴板\n鹤骨松姿\t鶴骨松姿\n鹰嘴豆面粉\t鷹嘴豆麵粉\n鹰扬万里\t鷹揚萬里\n鹰架栈台\t鷹架棧臺\n鹰雕\t鷹鵰\n鹿台\t鹿臺\n鹿谷\t鹿谷\n鹿谷乡\t鹿谷鄉\n鹿车共挽\t鹿車共挽\n鹿门采药\t鹿門采藥\n麟台\t麟臺\n麟游\t麟遊\n麟游县\t麟遊縣\n麟种\t麟種\n麦个子\t麥個子\n麦克\t麥克\n麦克伦堡\t麥克倫堡\n麦克尼尔\t麥克尼爾\n麦克拉伦\t麥克拉倫\n麦克斯\t麥克斯\n麦克斯韦\t麥克斯韋\n麦克林\t麥克林\n麦克林登\t麥克林登\n麦克格雷格\t麥克格雷格\n麦克白\t麥克白\n麦克白夫人\t麥克白夫人\n麦克米兰\t麥克米蘭\n麦克维\t麥克維\n麦克罗尼西亚人\t麥克羅尼西亞人\n麦克贝\t麥克貝\n麦克连\t麥克連\n麦克道格拉斯\t麥克道格拉斯\n麦克阿瑟\t麥克阿瑟\n麦克雷兰\t麥克雷蘭\n麦克雷兰说\t麥克雷蘭說\n麦克风\t麥克風\n麦冬\t麥冬\n麦卡托\t麥卡托\n麦可杰克森\t麥可傑克森\n麦可维克\t麥可維克\n麦布莱\t麥布萊\n麦当乐\t麥當樂\n麦当劳\t麥當勞\n麦当劳叔叔\t麥當勞叔叔\n麦当娜\t麥當娜\n麦托姆\t麥托姆\n麦格里\t麥格里\n麦特克\t麥特克\n麦特戴蒙\t麥特戴蒙\n麦秋\t麥秋\n麦科里\t麥科里\n麦穗\t麥穗\n麦穗两歧\t麥穗兩歧\n麦考马克\t麥考馬克\n麦考马克说\t麥考馬克說\n麦达克斯\t麥達克斯\n麸曲\t麩曲\n麸皮面包\t麩皮麵包\n麻了花儿\t麻了花兒\n麻做一团\t麻做一團\n麻叶皮\t麻葉皮\n麻吉死党\t麻吉死黨\n麻团\t麻團\n麻姑仙坛记\t麻姑仙壇記\n麻婆子的裹脚布\t麻婆子的裹腳布\n麻布\t麻布\n麻布袋\t麻布袋\n麻杆\t麻桿\n麻栗坡\t麻栗坡\n麻栗坡县\t麻栗坡縣\n麻油厂\t麻油廠\n麻涌\t麻涌\n麻痹不了\t麻痹不了\n麻痺不了\t麻痺不了\n麻胡\t麻胡\n麻药\t麻藥\n麻辣面\t麻辣麵\n麻酱面\t麻醬麵\n麻醉药\t麻醉藥\n麻醉药品\t麻醉藥品\n麻醉针\t麻醉針\n麻雀在后\t麻雀在後\n麻雀虽小五脏俱全\t麻雀雖小五臟俱全\n麾之即去招则须来\t麾之即去招則須來\n黄上丰\t黃上豐\n黄世杰\t黃世傑\n黄东梁\t黃東樑\n黄了\t黃了\n黄仁杰\t黃仁傑\n黄仕杰\t黃仕傑\n黄俊杰\t黃俊杰\n黄克强\t黃克強\n黄凤秋\t黃鳳秋\n黄卷\t黃卷\n黄卷青灯\t黃卷青燈\n黄历\t黃曆\n黄历经\t黄歷經\n黄发\t黃髮\n黄发儿齿\t黃髮兒齒\n黄发垂髫\t黃髮垂髫\n黄发鲐背\t黃髮鮐背\n黄同纸\t黃同紙\n黄嘉千\t黃嘉千\n黄天荡\t黃天蕩\n黄山谷\t黃山谷\n黄岩\t黃岩\n黄岩区\t黃巖區\n黄岩岛\t黃巖島\n黄州寒食诗卷\t黃州寒食詩卷\n黄干黑瘦\t黃乾黑瘦\n黄志中\t黃志中\n黄志伟\t黃志偉\n黄志勇\t黃志勇\n黄志强\t黃志強\n黄志成\t黃志成\n黄志玮\t黃志瑋\n黄志芳\t黃志芳\n黄志雄\t黃志雄\n黄志鹏\t黃志鵬\n黄志龙\t黃志龍\n黄旭升\t黃旭昇\n黄明志\t黃明志\n黄曲毒素\t黃麴毒素\n黄曲霉\t黃麴黴\n黄曲霉毒素\t黃麴黴毒素\n黄曲霉菌\t黃麴黴菌\n黄有才\t黃有才\n黄松\t黃松\n黄果树瀑布\t黃菓樹瀑布\n黄毛团儿\t黃毛團兒\n黄沙盖面\t黃沙蓋面\n黄河大合唱\t黃河大合唱\n黄炎贵胄\t黃炎貴胄\n黄珮筑\t黃珮筑\n黄白之术\t黃白之術\n黄石大峡谷\t黃石大峽谷\n黄石瀑布\t黃石瀑布\n黄秋庆\t黃秋慶\n黄秋燕\t黃秋燕\n黄秋生\t黃秋生\n黄秋葵\t黃秋葵\n黄种\t黃種\n黄种人\t黃種人\n黄粱\t黃粱\n黄粱梦\t黃粱夢\n黄粱美梦\t黃粱美夢\n黄老治术\t黃老治術\n黄育杰\t黃育杰\n黄色人种\t黃色人種\n黄色炸药\t黃色炸藥\n黄花后生\t黃花後生\n黄英杰\t黃英傑\n黄莺出谷\t黃鶯出谷\n黄蜡\t黃蠟\n黄蝶翠谷\t黃蝶翠谷\n黄表纸\t黃表紙\n黄运杰\t黃運傑\n黄适卓\t黃適卓\n黄道周\t黃道周\n黄郁涵\t黃郁涵\n黄郁茹\t黃郁茹\n黄金入柜\t黃金入櫃\n黄金台\t黃金臺\n黄金周\t黃金週\n黄金存折\t黃金存摺\n黄金表\t黃金錶\n黄钟\t黃鐘\n黄钟大吕\t黃鐘大呂\n黄钟毁弃\t黃鐘毀棄\n黄钟长弃\t黃鐘長棄\n黄钰筑\t黃鈺筑\n黄长发\t黃長發\n黄雀在后\t黃雀在後\n黄须\t黃鬚\n黄鱼面\t黃魚麵\n黄鹰抓住了鹞子的脚\t黃鷹抓住了鷂子的腳\n黉舍\t黌舍\n黍谷生春\t黍谷生春\n黎托\t黎托\n黎托街道\t黎托街道\n黎明前的黑暗\t黎明前的黑暗\n黎曼几何\t黎曼幾何\n黎曼几何学\t黎曼幾何學\n黎曼曲面\t黎曼曲面\n黎曼面\t黎曼面\n黎涌\t黎涌\n黏了\t黏了\n黏合\t黏合\n黏合剂\t黏合劑\n黏合力\t黏合力\n黏合成\t黏合成\n黑不溜秋\t黑不溜秋\n黑了\t黑了\n黑云\t黑雲\n黑云母\t黑雲母\n黑亮发\t黑亮髮\n黑克索斯\t黑克索斯\n黑加仑\t黑加侖\n黑发\t黑髮\n黑发人\t黑髮人\n黑头虫\t黑頭蟲\n黑奴吁天录\t黑奴籲天錄\n黑尿症\t黑尿症\n黑布\t黑布\n黑手党\t黑手黨\n黑暗\t黑暗\n黑暗世界\t黑暗世界\n黑暗大陆\t黑暗大陸\n黑暗时代\t黑暗時代\n黑暗期\t黑暗期\n黑暗面\t黑暗面\n黑曜岩\t黑曜岩\n黑杰克\t黑傑克\n黑松\t黑松\n黑松汽水\t黑松汽水\n黑松沙士\t黑松沙士\n黑板\t黑板\n黑板报\t黑板報\n黑板擦\t黑板擦\n黑板树\t黑板樹\n黑气冲天\t黑氣沖天\n黑沉沉\t黑沉沉\n黑漆一团\t黑漆一團\n黑漆板凳\t黑漆板凳\n黑烟\t黑煙\n黑种\t黑種\n黑种人\t黑種人\n黑穗病\t黑穗病\n黑胡椒\t黑胡椒\n黑色棘皮症\t黑色棘皮症\n黑色火药\t黑色火藥\n黑色系\t黑色系\n黑豹党\t黑豹黨\n黑醋栗\t黑醋栗\n黑里\t黑裡\n黑面\t黑麵\n";

/// Part 145 of the text.
pub const ST_PHRASES_145: &'static str = "黑面包\t黑麵包\n黑面琵鹭\t黑面琵鷺\n黑须\t黑鬚\n黔南布依族苗族自治州\t黔南布依族苗族自治州\n黔西南布依族苗族自治州\t黔西南布依族苗族自治州\n默克\t默克\n默克尔\t默克爾\n默哀致意\t默哀致意\n默多克\t默多克\n默念\t默唸\n黛粉叶\t黛粉葉\n黝暗\t黝暗\n黥布\t黥布\n黥面\t黥面\n黮暗\t黮闇\n黯然欲绝\t黯然欲絕\n鼇头独占\t鼇頭獨占\n鼎折足\t鼎折足\n鼎泰丰\t鼎泰豐\n鼎食鸣钟\t鼎食鳴鐘\n鼓不打不响钟不撞不鸣\t鼓不打不響鐘不撞不鳴\n鼓出\t鼓出\n鼓出来\t鼓出來\n鼓台\t鼓臺\n鼓噪\t鼓譟\n鼓子曲\t鼓子曲\n鼓板\t鼓板\n鼓盆之戚\t鼓盆之戚\n鼓腹而游\t鼓腹而遊\n鼓荡\t鼓盪\n鼓足干劲\t鼓足幹勁\n鼓里\t鼓裡\n鼓面\t鼓面\n鼠得克\t鼠得克\n鼠曲草\t鼠麴草\n鼠标里面\t鼠標裡面\n鼠疫杆菌\t鼠疫桿菌\n鼠肝虫臂\t鼠肝蟲臂\n鼠药\t鼠藥\n鼠面人\t鼠面人\n鼻中出火\t鼻中出火\n鼻准\t鼻準\n鼻出血\t鼻出血\n鼻咽\t鼻咽\n鼻头出火\t鼻頭出火\n鼻子上挂鲞鱼\t鼻子上掛鯗魚\n鼻子里笑\t鼻子裡笑\n鼻无梁柱\t鼻無樑柱\n鼻梁\t鼻樑\n鼻梁儿\t鼻樑兒\n鼻梁骨\t鼻樑骨\n鼻烟\t鼻菸\n鼻烟壶\t鼻菸壺\n鼻烟盒\t鼻菸盒\n鼻针疗法\t鼻針療法\n齐克果\t齊克果\n齐克隆\t齊克隆\n齐出\t齊出\n齐发\t齊發\n齐发式\t齊發式\n齐名并价\t齊名並價\n齐后破环\t齊后破環\n齐头并进\t齊頭並進\n齐姜\t齊姜\n齐庄\t齊莊\n齐心合力\t齊心合力\n齐心同力\t齊心同力\n齐心并力\t齊心併力\n齐打伙儿\t齊打夥兒\n齐梁世界\t齊梁世界\n齐梁体\t齊梁體\n齐民要术\t齊民要術\n齐烟九点\t齊煙九點\n齐王舍牛\t齊王捨牛\n齐足并驰\t齊足並馳\n齐足并驱\t齊足並驅\n齐驱并驾\t齊驅並駕\n齐驱并骤\t齊驅並驟\n齿危发秀\t齒危髮秀\n齿发\t齒髮\n齿录\t齒錄\n齿条千斤顶\t齒條千斤頂\n齿胄\t齒胄\n齿落发白\t齒落髮白\n龄虫\t齡蟲\n龙争虎斗\t龍爭虎鬥\n龙凤之表\t龍鳳之表\n龙利叶\t龍利葉\n龙卷\t龍捲\n龙卷风\t龍捲風\n龙发堂\t龍發堂\n龙团\t龍團\n龙困浅滩\t龍困淺灘\n龙岩\t龍巖\n龙岩市\t龍巖市\n龙岩村\t龍巖村\n龙嵩叶\t龍嵩葉\n龙应台\t龍應台\n龙斗虎伤\t龍鬥虎傷\n龙无云而不行\t龍無雲而不行\n龙游\t龍游\n龙游县\t龍游縣\n龙游浅水\t龍游淺水\n龙烟铁矿\t龍煙鐵礦\n龙眼干\t龍眼乾\n龙种\t龍種\n龙胄\t龍胄\n龙胜县\t龍勝縣\n龙虎并伏\t龍虎並伏\n龙虎斗\t龍虎鬥\n龙虾面\t龍蝦麵\n龙里\t龍里\n龙里县\t龍里縣\n龙钟\t龍鍾\n龙门吊\t龍門吊\n龙须\t龍鬚\n龙须友\t龍鬚友\n龙须沟\t龍鬚溝\n龙须茶\t龍鬚茶\n龙须草\t龍鬚草\n龙须菜\t龍鬚菜\n龙须面\t龍鬚麵\n龙龛手鉴\t龍龕手鑑\n龚照胜\t龔照勝\n龚胜\t龔勝\n龟卜\t龜卜\n龟鉴\t龜鑑\n𣗊溪\t樠谿\n𣲘溪\t潕谿\n码头\t碼頭\n䦆头\t钁頭\n一头\t一頭\n一年到头\t一年到頭\n上头\t上頭\n下头\t下頭\n不摸头\t不摸頭\n丫头\t丫頭\n临头\t臨頭\n乳头\t乳頭\n二婚头\t二婚頭\n二锅头\t二鍋頭\n人头\t人頭\n从头\t從頭\n仰着头\t仰著頭\n会头\t會頭\n低头\t低頭\n侧头\t側頭\n俏头\t俏頭\n倒头\t倒頭\n偏头\t偏頭\n兆头\t兆頭\n先头\t先頭\n光头\t光頭\n关头\t關頭\n兴头\t興頭\n冒头\t冒頭\n冤大头\t冤大頭\n冤头\t冤頭\n分头\t分頭\n分镜头\t分鏡頭\n刊头\t刊頭\n到头\t到頭\n刺头\t刺頭\n剃光头\t剃光頭\n剃头\t剃頭\n前头\t前頭\n劈头\t劈頭\n劲头\t勁頭\n势头\t勢頭\n包头\t包頭\n包工头\t包工頭\n匹头\t匹頭\n十字街头\t十字街頭\n口头\t口頭\n叩头\t叩頭\n号头\t號頭\n后仰着头\t後仰著頭\n和尚头\t和尚頭\n咽头\t咽頭\n响头\t響頭\n唤头\t喚頭\n喉头\t喉頭\n喷头\t噴頭\n嘴头\t嘴頭\n噱头\t噱頭\n地头\t地頭\n块头\t塊頭\n坟头\t墳頭\n垡头\t垡頭\n埋头\t埋頭\n埠头\t埠頭\n墙头\t牆頭\n外头\t外頭\n多头\t多頭\n大块头\t大塊頭\n大头\t大頭\n大舌头\t大舌頭\n天地头\t天地頭\n天头\t天頭\n奔头\t奔頭\n奶头\t奶頭\n姘头\t姘頭\n孩子头\t孩子頭\n孱头\t孱頭\n寡头\t寡頭\n寸头\t寸頭\n对头\t對頭\n小头\t小頭\n少白头\t少白頭\n尺头\t尺頭\n山头\t山頭\n工头\t工頭\n巨头\t巨頭\n带头\t帶頭\n幞头\t幞頭\n幧头\t幧頭\n平头\t平頭\n广角镜头\t廣角鏡頭\n床头\t牀頭\n开头\t開頭\n弯头\t彎頭\n弹头\t彈頭\n心头\t心頭\n快镜头\t快鏡頭\n怵头\t怵頭\n想头\t想頭\n慢镜头\t慢鏡頭\n憷头\t憷頭\n懒骨头\t懶骨頭\n戆头\t戇頭\n户头\t戶頭\n手头\t手頭\n手指头\t手指頭\n打头\t打頭\n扭头\t扭頭\n找头\t找頭\n把头\t把頭\n抢镜头\t搶鏡頭\n报头\t報頭\n抬头\t抬頭\n抽头\t抽頭\n拉山头\t拉山頭\n拳头\t拳頭\n指头\t指頭\n挑头\t挑頭\n挠头\t撓頭\n掉头\t掉頭\n排头\t排頭\n探头\t探頭\n接头\t接頭\n推头\t推頭\n插头\t插頭\n搭头\t搭頭\n摇头\t搖頭\n摔跟头\t摔跟頭\n摸头\t摸頭\n教头\t教頭\n斧头\t斧頭\n日头\t日頭\n春头\t春頭\n木头\t木頭\n来头\t來頭\n杩头\t榪頭\n枕头\t枕頭\n柱头\t柱頭\n核弹头\t核彈頭\n栽跟头\t栽跟頭\n案头\t案頭\n桥头\t橋頭\n梢头\t梢頭\n梳头\t梳頭\n榔头\t榔頭\n榫头\t榫頭\n槽头\t槽頭\n死对头\t死對頭\n毛丫头\t毛丫頭\n水头\t水頭\n水龙头\t水龍頭\n汤头\t湯頭\n派头\t派頭\n浇头\t澆頭\n浪头\t浪頭\n渡头\t渡頭\n源头\t源頭\n滑头\t滑頭\n滩头\t灘頭\n潮头\t潮頭\n火头\t火頭\n火车头\t火車頭\n灯头\t燈頭\n灶头\t灶頭\n炕头\t炕頭\n点头\t點頭\n烫头\t燙頭\n片头\t片頭\n牵头\t牽頭\n狗血喷头\t狗血噴頭\n狗血淋头\t狗血淋頭\n狼头\t狼頭\n猎头\t獵頭\n猴头\t猴頭\n玉搔头\t玉搔頭\n甜头\t甜頭\n田头\t田頭\n由头\t由頭\n电唱头\t電唱頭\n电头\t電頭\n瘌痢头\t瘌痢頭\n瘾头\t癮頭\n白头\t白頭\n盔头\t盔頭\n盖头\t蓋頭\n盼头\t盼頭\n眉头\t眉頭\n矛头\t矛頭\n石头\t石頭\n砖头\t磚頭\n硬骨头\t硬骨頭\n碑头\t碑頭\n碰头\t碰頭\n磁头\t磁頭\n磕头\t磕頭\n秃头\t禿頭\n稖头\t稖頭\n穴头\t穴頭\n空头\t空頭\n窝头\t窩頭\n窝窝头\t窩窩頭\n笔头\t筆頭\n笼头\t籠頭\n箭头\t箭頭\n篙头\t篙頭\n纸头\t紙頭\n线头\t線頭\n绣花枕头\t繡花枕頭\n罐头\t罐頭\n翻跟头\t翻跟頭\n老头\t老頭\n耍滑头\t耍滑頭\n耍骨头\t耍骨頭\n肉头\t肉頭\n肩头\t肩頭\n背头\t背頭\n脚指头\t腳指頭\n脚趾头\t腳趾頭\n舌头\t舌頭\n芋头\t芋頭\n花头\t花頭\n苗头\t苗頭\n苦头\t苦頭\n莲蓬头\t蓮蓬頭\n葱头\t蔥頭\n蒜头\t蒜頭\n藠头\t藠頭\n蚂蚁啃骨头\t螞蟻啃骨頭\n蛇头\t蛇頭\n蝇头\t蠅頭\n行头\t行頭\n街头\t街頭\n被头\t被頭\n裤头\t褲頭\n触楣头\t觸楣頭\n认头\t認頭\n词头\t詞頭\n话头\t話頭\n调头\t調頭\n财政寡头\t財政寡頭\n贱骨头\t賤骨頭\n赚头\t賺頭\n赶浪头\t趕浪頭\n起头\t起頭\n跑码头\t跑碼頭\n跟头\t跟頭\n车头\t車頭\n软骨头\t軟骨頭\n辔头\t轡頭\n辟头\t闢頭\n过头\t過頭\n迎头\t迎頭\n避风头\t避風頭\n部头\t部頭\n里头\t裡頭\n重头\t重頭\n金融寡头\t金融寡頭\n钵头\t鉢頭\n钻头\t鑽頭\n银样镴枪头\t銀樣鑞槍頭\n锄头\t鋤頭\n镐头\t鎬頭\n镜头\t鏡頭\n闷头\t悶頭\n零头\t零頭\n露头\t露頭\n青菜头\t青菜頭\n面头\t面頭\n韵头\t韻頭\n顶头\t頂頭\n顽石点头\t頑石點頭\n领头\t領頭\n额头\t額頭\n风头\t風頭\n";

/// Part 146 of the text.
pub const ST_PHRASES_146: &'static str = "饶头\t饒頭\n馒头\t饅頭\n马锅头\t馬鍋頭\n骨头\t骨頭\n鬼剃头\t鬼剃頭\n鳌头\t鰲頭\n鸡头\t雞頭\n黄毛丫头\t黃毛丫頭\n黑头\t黑頭\n龙头\t龍頭\n龟头\t龜頭\n𨱍头\t鎯頭\n一技之长\t一技之長\n专长\t專長\n会长\t會長\n兄长\t兄長\n冗长\t冗長\n军士长\t軍士長\n军长\t軍長\n助长\t助長\n司务长\t司務長\n土生土长\t土生土長\n地久天长\t地久天長\n增长\t增長\n外长\t外長\n学长\t學長\n官长\t官長\n审判长\t審判長\n室长\t室長\n家长\t家長\n尊长\t尊長\n尺短寸长\t尺短寸長\n局长\t局長\n市长\t市長\n师长\t師長\n延长\t延長\n徒长\t徒長\n总长\t總長\n悠长\t悠長\n成长\t成長\n扬长\t揚長\n拔苗助长\t拔苗助長\n揠苗助长\t揠苗助長\n擅长\t擅長\n教学相长\t教學相長\n族长\t族長\n日久天长\t日久天長\n时长\t時長\n来日方长\t來日方長\n次长\t次長\n波长\t波長\n消长\t消長\n源远流长\t源遠流長\n滋长\t滋長\n漫长\t漫長\n特长\t特長\n狭长\t狹長\n班长\t班長\n生长\t生長\n疯长\t瘋長\n痴长\t痴長\n瘦长\t瘦長\n短长\t短長\n科长\t科長\n系长\t系長\n组长\t組長\n绵长\t綿長\n船长\t船長\n茁长\t茁長\n董事长\t董事長\n蜚短流长\t蜚短流長\n见长\t見長\n议长\t議長\n语重心长\t語重心長\n课长\t課長\n负增长\t負增長\n身长\t身長\n酋长\t酋長\n队长\t隊長\n零增长\t零增長\n音长\t音長\n颀长\t頎長\n飞短流长\t飛短流長\n馆长\t館長\n首长\t首長\n三长两短\t三長兩短\n亏短\t虧短\n取长补短\t取長補短\n截长补短\t截長補短\n扬长避短\t揚長避短\n护短\t護短\n揭短\t揭短\n气短\t氣短\n理短\t理短\n简短\t簡短\n缩短\t縮短\n说长道短\t說長道短\n长短\t長短\n问长问短\t問長問短\n九牛一毛\t九牛一毛\n二毛\t二毛\n刚毛\t剛毛\n原毛\t原毛\n块儿八毛\t塊兒八毛\n多如牛毛\t多如牛毛\n大毛\t大毛\n奶毛\t奶毛\n寒毛\t寒毛\n小毛\t小毛\n根毛\t根毛\n棕毛\t棕毛\n毫毛\t毫毛\n毳毛\t毳毛\n汗毛\t汗毛\n火烧眉毛\t火燒眉毛\n爱惜羽毛\t愛惜羽毛\n牛毛\t牛毛\n皮毛\t皮毛\n眉毛\t眉毛\n睫毛\t睫毛\n细毛\t細毛\n绒毛\t絨毛\n羊毛\t羊毛\n羽毛\t羽毛\n翎毛\t翎毛\n翻毛\t翻毛\n胎毛\t胎毛\n脱毛\t脫毛\n腋毛\t腋毛\n雁过拔毛\t雁過拔毛\n鞭毛\t鞭毛\n马海毛\t馬海毛\n鸿毛\t鴻毛\n鹅毛\t鵝毛\n𣭲毛\t氄毛\n乌黑\t烏黑\n墨黑\t墨黑\n天昏地黑\t天昏地黑\n心黑\t心黑\n慕尼黑\t慕尼黑\n手黑\t手黑\n打黑\t打黑\n抹黑\t抹黑\n拉黑\t拉黑\n昏黑\t昏黑\n漆黑\t漆黑\n灯下黑\t燈下黑\n焦黑\t焦黑\n起早摸黑\t起早摸黑\n起早贪黑\t起早貪黑\n近墨者黑\t近墨者黑\n食亲财黑\t食親財黑\n麻麻黑\t麻麻黑\n黎黑\t黎黑\n黑吃黑\t黑吃黑\n黝黑\t黝黑\n黢黑\t黢黑\n黧黑\t黧黑\n黯黑\t黯黑\n一穷二白\t一窮二白\n乳白\t乳白\n京白\t京白\n刷白\t刷白\n剖白\t剖白\n卵白\t卵白\n告白\t告白\n唇红齿白\t唇紅齒白\n坦白\t坦白\n大白\t大白\n定场白\t定場白\n宾白\t賓白\n对白\t對白\n平白\t平白\n建白\t建白\n开场白\t開場白\n惨白\t慘白\n扯白\t扯白\n抢白\t搶白\n斑白\t斑白\n旁白\t旁白\n明白\t明白\n显白\t顯白\n月白\t月白\n核蛋白\t核蛋白\n洁白\t潔白\n洗白\t洗白\n浅白\t淺白\n清白\t清白\n漂白\t漂白\n灰白\t灰白\n煞白\t煞白\n独白\t獨白\n班白\t班白\n白白\t白白\n直白\t直白\n眼白\t眼白\n眼睛白\t眼睛白\n科白\t科白\n空白\t空白\n粹白\t粹白\n美白\t美白\n自白\t自白\n花白\t花白\n苍白\t蒼白\n茭白\t茭白\n莲花白\t蓮花白\n葱白\t蔥白\n蛋白\t蛋白\n蜡白\t蠟白\n血红蛋白\t血紅蛋白\n补白\t補白\n话白\t話白\n说白\t說白\n辨白\t辨白\n辩白\t辯白\n道白\t道白\n银白\t銀白\n附白\t附白\n雪白\t雪白\n露白\t露白\n韵白\t韻白\n颁白\t頒白\n颠倒黑白\t顛倒黑白\n飞白\t飛白\n鱼白\t魚白\n鱼肚白\t魚肚白\n黑白\t黑白\n份额\t份額\n保额\t保額\n全额\t全額\n名额\t名額\n大额\t大額\n定额\t定額\n小额\t小額\n差额\t差額\n总额\t總額\n数额\t數額\n款额\t款額\n满额\t滿額\n空额\t空額\n等额\t等額\n超额\t超額\n足额\t足額\n配额\t配額\n金额\t金額\n限额\t限額\n高额\t高額\n保证金\t保證金\n公益金\t公益金\n公积金\t公積金\n利金\t利金\n助学金\t助學金\n劳金\t勞金\n基金\t基金\n奖学金\t獎學金\n奖金\t獎金\n定金\t定金\n抚恤金\t撫卹金\n押金\t押金\n按金\t按金\n本金\t本金\n母金\t母金\n现金\t現金\n白金\t白金\n礼金\t禮金\n税金\t稅金\n罚金\t罰金\n聘金\t聘金\n薪金\t薪金\n订金\t訂金\n贷学金\t貸學金\n贿金\t賄金\n赎金\t贖金\n酬金\t酬金\n黑金\t黑金\n中华\t中華\n五华\t五華\n京华\t京華\n光华\t光華\n凝华\t凝華\n含英咀华\t含英咀華\n嘉年华\t嘉年華\n奢华\t奢華\n年华\t年華\n日华\t日華\n月华\t月華\n水华\t水華\n浮华\t浮華\n清华\t清華\n精华\t精華\n繁华\t繁華\n耶和华\t耶和華\n荣华\t榮華\n菁华\t菁華\n豆蔻年华\t豆蔻年華\n豪华\t豪華\n踵事增华\t踵事增華\n铅华\t鉛華\n韶华\t韶華\n风华\t風華\n书生\t書生\n人生\t人生\n众生\t眾生\n儒生\t儒生\n先生\t先生\n医生\t醫生\n卫生\t衛生\n女生\t女生\n学生\t學生\n小生\t小生\n新生\t新生\n晚生\t晚生\n服务生\t服務生\n民生\t民生\n男生\t男生\n研究生\t研究生\n考生\t考生\n门生\t門生\n高材生\t高材生\n化妆\t化妝\n卸妆\t卸妝\n嫁妆\t嫁妝\n日妆\t日妝\n晚妆\t晚妝\n梳妆\t梳妝\n浓妆\t濃妝\n淡妆\t淡妝\n红妆\t紅妝\n补妆\t補妝\n靓妆\t靚妝\n直发亮\t直發亮\n直发出\t直發出\n直发困\t直發睏\n直发抖\t直發抖\n直发晕\t直發暈\n直发炸\t直發炸\n直发痒\t直發癢\n直发紧\t直發緊\n直发软\t直發軟\n直发酸\t直發酸\n直发闷\t直發悶\n直发飘\t直發飄\n直发飘扬\t直髮飄揚\n直发黑\t直發黑\n牙齿发抖\t牙齒發抖\n牙齿发紧\t牙齒發緊\n牙齿发软\t牙齒發軟\n牙齿发酸\t牙齒發酸\n被发丧\t被發喪\n被发亮\t被發亮\n被发付\t被發付\n被发令\t被發令\n被发作\t被發作\n被发傻\t被發傻\n被发光\t被發光\n被发兵\t被發兵\n被发凡\t被發凡\n被发出\t被發出\n被发券\t被發券\n被发力\t被發力\n被发动\t被發動\n被发包\t被發包\n被发呆\t被發呆\n被发售\t被發售\n被发嗲\t被發嗲\n被发噱\t被發噱\n被发困\t被發困\n被发墨\t被發墨\n被发声\t被發聲\n被发奋\t被發奮\n被发威\t被發威\n被发家\t被發家\n被发射\t被發射\n被发展\t被發展\n被发市\t被發市\n被发布\t被發布\n被发帖\t被發帖\n被发怒\t被發怒\n被发怔\t被發怔\n被发急\t被發急\n被发怵\t被發怵\n被发情\t被發情\n被发愁\t被發愁\n被发愣\t被發愣\n被发愤\t被發憤\n被发愿\t被發願\n被发慌\t被發慌\n被发憷\t被發憷\n被发懒\t被發懶\n被发扬\t被發揚\n被发抒\t被發抒\n被发抖\t被發抖\n被发报\t被發報\n被发挥\t被發揮\n被发排\t被發排\n被发掘\t被發掘\n被发放\t被發放\n被发散\t被發散\n被发文\t被發文\n被发明\t被發明\n被发昏\t被發昏\n被发条\t被發條\n被发标\t被發標\n被发样\t被發樣\n被发案\t被發案\n被发棵\t被發棵\n被发榜\t被發榜\n被发横\t被發橫\n被发毛\t被發毛\n被发水\t被發水\n被发汗\t被發汗\n被发泄\t被發洩\n被发源\t被發源\n被发火\t被發火\n被发炎\t被發炎\n";

/// Part 147 of the text.
pub const ST_PHRASES_147: &'static str = "被发烧\t被發燒\n被发烫\t被發燙\n被发热\t被發熱\n被发物\t被發物\n被发狂\t被發狂\n被发狠\t被發狠\n被发现\t被發現\n被发球\t被發球\n被发生\t被發生\n被发电\t被發電\n被发疯\t被發瘋\n被发病\t被發病\n被发痧\t被發痧\n被发痴\t被發痴\n被发票\t被發票\n被发福\t被發福\n被发稿\t被發稿\n被发窘\t被發窘\n被发端\t被發端\n被发笑\t被發笑\n被发粉\t被發粉\n被发糕\t被發糕\n被发绀\t被發紺\n被发育\t被發育\n被发胖\t被發胖\n被发花\t被發花\n被发芽\t被發芽\n被发苶\t被發苶\n被发菜\t被發菜\n被发落\t被發落\n被发蒙\t被發蒙\n被发蓝\t被發藍\n被发蔫\t被發蔫\n被发虚\t被發虛\n被发行\t被發行\n被发表\t被發表\n被发觉\t被發覺\n被发言\t被發言\n被发誓\t被發誓\n被发话\t被發話\n被发财\t被發財\n被发贱\t被發賤\n被发起\t被發起\n被发车\t被發車\n被发轫\t被發軔\n被发达\t被發達\n被发运\t被發運\n被发还\t被發還\n被发迹\t被發跡\n被发送\t被發送\n被发配\t被發配\n被发酵\t被發酵\n被发酸\t被發酸\n被发问\t被發問\n被发难\t被發難\n被发霉\t被發黴\n被发音\t被發音\n被发颤\t被發顫\n被发飘\t被發飄\n被发飙\t被發飆\n被发神经\t被發神經\n被发脾气\t被發脾氣\n被发酒疯\t被發酒瘋\n不名数\t不名數\n不计其数\t不計其數\n为数\t為數\n代数\t代數\n作数\t作數\n倍数\t倍數\n倒数\t倒數\n偶数\t偶數\n充数\t充數\n全数\t全數\n准数\t準數\n凑数\t湊數\n函数\t函數\n分数\t分數\n劫数\t劫數\n千分数\t千分數\n单数\t單數\n双数\t雙數\n变数\t變數\n名数\t名數\n命数\t命數\n和数\t和數\n商数\t商數\n因数\t因數\n基数\t基數\n天数\t天數\n奇数\t奇數\n套数\t套數\n如数\t如數\n字数\t字數\n定数\t定數\n实数\t實數\n对数\t對數\n寿数\t壽數\n小数\t小數\n尾数\t尾數\n岁数\t歲數\n差数\t差數\n已知数\t已知數\n常数\t常數\n平头数\t平頭數\n序数\t序數\n底数\t底數\n度数\t度數\n异数\t異數\n得数\t得數\n心中无数\t心中無數\n心中有数\t心中有數\n心数\t心數\n总数\t總數\n恒河沙数\t恆河沙數\n悉数\t悉數\n成数\t成數\n扫数\t掃數\n报数\t報數\n抵数\t抵數\n招数\t招數\n指数\t指數\n整数\t整數\n无理数\t無理數\n有理数\t有理數\n未知数\t未知數\n概数\t概數\n次数\t次數\n正数\t正數\n气数\t氣數\n滥竽充数\t濫竽充數\n百分数\t百分數\n相反数\t相反數\n真数\t真數\n礼数\t禮數\n答数\t答數\n算数\t算數\n素数\t素數\n约数\t約數\n胸中无数\t胸中無數\n胸中有数\t胸中有數\n自然数\t自然數\n荒数\t荒數\n虚数\t虛數\n解数\t解數\n计数\t計數\n读数\t讀數\n负数\t負數\n质数\t質數\n路数\t路數\n过数\t過數\n运数\t運數\n零数\t零數\n顶数\t頂數\n频数\t頻數\n额数\t額數\n马赫数\t馬赫數\n齿数\t齒數\n倒斗\t倒斗\n斗里\t斗裡\n旱斗\t旱斗\n量斗\t量斗\n几十只\t幾十隻\n几百只\t幾百隻\n几千只\t幾千隻\n几万只\t幾萬隻\n千万只\t千萬隻\n万万只\t萬萬隻\n亿万只\t億萬隻\n少数只\t少數隻\n无数只\t無數隻\n数只\t數隻\n数十只\t數十隻\n数百只\t數百隻\n数千只\t數千隻\n数万只\t數萬隻\n十几只\t十幾隻\n百几只\t百幾隻\n千几只\t千幾隻\n万几只\t萬幾隻\n好几只\t好幾隻\n无几只\t無幾隻\n见几只\t見幾隻\n过几只\t過幾隻\n一只只\t一隻隻\n一只只会\t一隻只會\n一只只够\t一隻只夠\n一只只有\t一隻只有\n一只只能\t一隻只能\n一只只要\t一隻只要\n一只只需\t一隻只需\n一只只靠\t一隻只靠\n几十里\t幾十里\n千万里\t千萬里\n万万里\t萬萬里\n亿万里\t億萬里\n数千里\t數千里\n数万里\t數萬里\n木苏里\t木蘇里\n几十米\t幾十米\n几百米\t幾百米\n一出丑\t一出醜\n一出世\t一出世\n一出丧\t一出喪\n一出乘\t一出乘\n一出九\t一出九\n一出乱子\t一出亂子\n一出了\t一出了\n一出事\t一出事\n一出亡\t一出亡\n一出产\t一出產\n一出人命\t一出人命\n一出仕\t一出仕\n一出价\t一出價\n一出任\t一出任\n一出使\t一出使\n一出倒\t一出倒\n一出借\t一出借\n一出偏\t一出偏\n一出公馆\t一出公館\n一出关\t一出關\n一出兵\t一出兵\n一出具\t一出具\n一出冷汗\t一出冷汗\n一出击\t一出擊\n一出列\t一出列\n一出力\t一出力\n一出动\t一出動\n一出勤\t一出勤\n一出卖\t一出賣\n一出卫\t一出衛\n一出厂\t一出廠\n一出县\t一出縣\n一出发\t一出發\n一出口\t一出口\n一出台\t一出臺\n一出名\t一出名\n一出品\t一出品\n一出售\t一出售\n一出国\t一出國\n一出圃\t一出圃\n一出圈\t一出圈\n一出土\t一出土\n一出境\t一出境\n一出处\t一出處\n一出外\t一出外\n一出大街\t一出大街\n一出头\t一出頭\n一出奔\t一出奔\n一出嫁\t一出嫁\n一出家\t一出家\n一出局\t一出局\n一出展\t一出展\n一出山\t一出山\n一出岔子\t一出岔子\n一出岛\t一出島\n一出峡谷\t一出峽谷\n一出巡\t一出巡\n一出工\t一出工\n一出差\t一出差\n一出师\t一出師\n一出席\t一出席\n一出店\t一出店\n一出庭\t一出庭\n一出彩\t一出彩\n一出征\t一出徵\n一出徒\t一出徒\n一出恭\t一出恭\n一出战\t一出戰\n一出房\t一出房\n一出手\t一出手\n一出挑\t一出挑\n一出操\t一出操\n一出新\t一出新\n一出月\t一出月\n一出村\t一出村\n一出栏\t一出欄\n一出榜\t一出榜\n一出槽\t一出槽\n一出殡\t一出殯\n一出毛病\t一出毛病\n一出气\t一出氣\n一出水\t一出水\n一出汗\t一出汗\n一出沙子\t一出沙子\n一出没\t一出沒\n一出洋\t一出洋\n一出洗\t一出洗\n一出活\t一出活\n一出海\t一出海\n一出游\t一出遊\n一出溜\t一出溜\n一出演\t一出演\n一出炉\t一出爐\n一出版\t一出版\n一出牌\t一出牌\n一出狱\t一出獄\n一出猎\t一出獵\n一出现\t一出現\n一出电梯\t一出電梯\n一出界\t一出界\n一出盘\t一出盤\n一出省\t一出省\n一出示\t一出示\n一出神\t一出神\n一出票\t一出票\n一出科\t一出科\n一出租\t一出租\n一出笼\t一出籠\n一出粜\t一出糶\n一出糗\t一出糗\n一出纳\t一出納\n一出线\t一出線\n一出继\t一出繼\n一出缺\t一出缺\n一出聘\t一出聘\n一出脱\t一出脫\n一出航\t一出航\n一出苗\t一出苗\n一出落\t一出落\n一出蛰\t一出蟄\n一出血\t一出血\n一出行\t一出行\n一出言\t一出言\n一出警\t一出警\n一出让\t一出讓\n一出访\t一出訪\n一出诊\t一出診\n一出语\t一出語\n一出账\t一出賬\n一出货\t一出貨\n一出资\t一出資\n一出赛\t一出賽\n一出走\t一出走\n一出超\t一出超\n一出路\t一出路\n一出身\t一出身\n一出车\t一出車\n一出轨\t一出軌\n一出逃\t一出逃\n一出那\t一出那\n一出镇\t一出鎮\n一出镜\t一出鏡\n一出门\t一出門\n一出阁\t一出閣\n一出阵\t一出陣\n一出院\t一出院\n一出险\t一出險\n一出面\t一出面\n一出顶\t一出頂\n一出风头\t一出風頭\n一出饭\t一出飯\n一出马\t一出馬\n但一出\t但一出\n出一出\t出一出\n字一出\t字一出\n才一出\t才一出\n言一出\t言一出\n话一出\t話一出\n语一出\t語一出\n一出一进\t一出一進\n一进一出\t一進一出\n一隐一出\t一隱一出\n事件一出\t事件一出\n事情一出\t事情一出\n";

/// Part 148 of the text.
pub const ST_PHRASES_148: &'static str = "变故一出\t變故一出\n只要一出\t只要一出\n新闻一出\t新聞一出\n通告一出\t通告一出\n别嘴刁\t別嘴刁\n别嘴快\t別嘴快\n别嘴损\t別嘴損\n别嘴松\t別嘴鬆\n别嘴硬\t別嘴硬\n别嘴碎\t別嘴碎\n别嘴软\t別嘴軟\n别强制\t別強制\n别强占\t別強佔\n别强攻\t別強攻\n别强求\t別強求\n别强渡\t別強渡\n别强行\t別強行\n别强调\t別強調\n别扭亏\t別扭虧\n别扭头\t別扭頭\n别扭打\t別扭打\n别扭捏\t別扭捏\n别扭搭\t別扭搭\n别扭摆\t別扭擺\n别扭曲\t別扭曲\n别扭结\t別扭結\n别扭转\t別扭轉\n别扭送\t別扭送\n别气急\t別氣急\n别气恼\t別氣惱\n别气愤\t別氣憤\n别气炸\t別氣炸\n别气馁\t別氣餒\n别着凉\t別著涼\n别着忙\t別著忙\n别着急\t別著急\n别着慌\t別著慌\n别着迷\t別著迷\n别着魔\t別著魔\n";

/// The number of parts of the text.
pub const PARTS: usize = 149;

/// Part `i` of the `STPhrases` text; a later entry for the same source wins.
pub open spec fn part(i: int) -> Seq<char> {
    if i == 0 {
        ST_PHRASES_0@
    } else if i == 1 {
        ST_PHRASES_1@
    } else if i == 2 {
        ST_PHRASES_2@
    } else if i == 3 {
        ST_PHRASES_3@
    } else if i == 4 {
        ST_PHRASES_4@
    } else if i == 5 {
        ST_PHRASES_5@
    } else if i == 6 {
        ST_PHRASES_6@
    } else if i == 7 {
        ST_PHRASES_7@
    } else if i == 8 {
        ST_PHRASES_8@
    } else if i == 9 {
        ST_PHRASES_9@
    } else if i == 10 {
        ST_PHRASES_10@
    } else if i == 11 {
        ST_PHRASES_11@
    } else if i == 12 {
        ST_PHRASES_12@
    } else if i == 13 {
        ST_PHRASES_13@
    } else if i == 14 {
        ST_PHRASES_14@
    } else if i == 15 {
        ST_PHRASES_15@
    } else if i == 16 {
        ST_PHRASES_16@
    } else if i == 17 {
        ST_PHRASES_17@
    } else if i == 18 {
        ST_PHRASES_18@
    } else if i == 19 {
        ST_PHRASES_19@
    } else if i == 20 {
        ST_PHRASES_20@
    } else if i == 21 {
        ST_PHRASES_21@
    } else if i == 22 {
        ST_PHRASES_22@
    } else if i == 23 {
        ST_PHRASES_23@
    } else if i == 24 {
        ST_PHRASES_24@
    } else if i == 25 {
        ST_PHRASES_25@
    } else if i == 26 {
        ST_PHRASES_26@
    } else if i == 27 {
        ST_PHRASES_27@
    } else if i == 28 {
        ST_PHRASES_28@
    } else if i == 29 {
        ST_PHRASES_29@
    } else if i == 30 {
        ST_PHRASES_30@
    } else if i == 31 {
        ST_PHRASES_31@
    } else if i == 32 {
        ST_PHRASES_32@
    } else if i == 33 {
        ST_PHRASES_33@
    } else if i == 34 {
        ST_PHRASES_34@
    } else if i == 35 {
        ST_PHRASES_35@
    } else if i == 36 {
        ST_PHRASES_36@
    } else if i == 37 {
        ST_PHRASES_37@
    } else if i == 38 {
        ST_PHRASES_38@
    } else if i == 39 {
        ST_PHRASES_39@
    } else if i == 40 {
        ST_PHRASES_40@
    } else if i == 41 {
        ST_PHRASES_41@
    } else if i == 42 {
        ST_PHRASES_42@
    } else if i == 43 {
        ST_PHRASES_43@
    } else if i == 44 {
        ST_PHRASES_44@
    } else if i == 45 {
        ST_PHRASES_45@
    } else if i == 46 {
        ST_PHRASES_46@
    } else if i == 47 {
        ST_PHRASES_47@
    } else if i == 48 {
        ST_PHRASES_48@
    } else if i == 49 {
        ST_PHRASES_49@
    } else if i == 50 {
        ST_PHRASES_50@
    } else if i == 51 {
        ST_PHRASES_51@
    } else if i == 52 {
        ST_PHRASES_52@
    } else if i == 53 {
        ST_PHRASES_53@
    } else if i == 54 {
        ST_PHRASES_54@
    } else if i == 55 {
        ST_PHRASES_55@
    } else if i == 56 {
        ST_PHRASES_56@
    } else if i == 57 {
        ST_PHRASES_57@
    } else if i == 58 {
        ST_PHRASES_58@
    } else if i == 59 {
        ST_PHRASES_59@
    } else if i == 60 {
        ST_PHRASES_60@
    } else if i == 61 {
        ST_PHRASES_61@
    } else if i == 62 {
        ST_PHRASES_62@
    } else if i == 63 {
        ST_PHRASES_63@
    } else if i == 64 {
        ST_PHRASES_64@
    } else if i == 65 {
        ST_PHRASES_65@
    } else if i == 66 {
        ST_PHRASES_66@
    } else if i == 67 {
        ST_PHRASES_67@
    } else if i == 68 {
        ST_PHRASES_68@
    } else if i == 69 {
        ST_PHRASES_69@
    } else if i == 70 {
        ST_PHRASES_70@
    } else if i == 71 {
        ST_PHRASES_71@
    } else if i == 72 {
        ST_PHRASES_72@
    } else if i == 73 {
        ST_PHRASES_73@
    } else if i == 74 {
        ST_PHRASES_74@
    } else if i == 75 {
        ST_PHRASES_75@
    } else if i == 76 {
        ST_PHRASES_76@
    } else if i == 77 {
        ST_PHRASES_77@
    } else if i == 78 {
        ST_PHRASES_78@
    } else if i == 79 {
        ST_PHRASES_79@
    } else if i == 80 {
        ST_PHRASES_80@
    } else if i == 81 {
        ST_PHRASES_81@
    } else if i == 82 {
        ST_PHRASES_82@
    } else if i == 83 {
        ST_PHRASES_83@
    } else if i == 84 {
        ST_PHRASES_84@
    } else if i == 85 {
        ST_PHRASES_85@
    } else if i == 86 {
        ST_PHRASES_86@
    } else if i == 87 {
        ST_PHRASES_87@
    } else if i == 88 {
        ST_PHRASES_88@
    } else if i == 89 {
        ST_PHRASES_89@
    } else if i == 90 {
        ST_PHRASES_90@
    } else if i == 91 {
        ST_PHRASES_91@
    } else if i == 92 {
        ST_PHRASES_92@
    } else if i == 93 {
        ST_PHRASES_93@
    } else if i == 94 {
        ST_PHRASES_94@
    } else if i == 95 {
        ST_PHRASES_95@
    } else if i == 96 {
        ST_PHRASES_96@
    } else if i == 97 {
        ST_PHRASES_97@
    } else if i == 98 {
        ST_PHRASES_98@
    } else if i == 99 {
        ST_PHRASES_99@
    } else if i == 100 {
        ST_PHRASES_100@
    } else if i == 101 {
        ST_PHRASES_101@
    } else if i == 102 {
        ST_PHRASES_102@
    } else if i == 103 {
        ST_PHRASES_103@
    } else if i == 104 {
        ST_PHRASES_104@
    } else if i == 105 {
        ST_PHRASES_105@
    } else if i == 106 {
        ST_PHRASES_106@
    } else if i == 107 {
        ST_PHRASES_107@
    } else if i == 108 {
        ST_PHRASES_108@
    } else if i == 109 {
        ST_PHRASES_109@
    } else if i == 110 {
        ST_PHRASES_110@
    } else if i == 111 {
        ST_PHRASES_111@
    } else if i == 112 {
        ST_PHRASES_112@
    } else if i == 113 {
        ST_PHRASES_113@
    } else if i == 114 {
        ST_PHRASES_114@
    } else if i == 115 {
        ST_PHRASES_115@
    } else if i == 116 {
        ST_PHRASES_116@
    } else if i == 117 {
        ST_PHRASES_117@
    } else if i == 118 {
        ST_PHRASES_118@
    } else if i == 119 {
        ST_PHRASES_119@
    } else if i == 120 {
        ST_PHRASES_120@
    } else if i == 121 {
        ST_PHRASES_121@
    } else if i == 122 {
        ST_PHRASES_122@
    } else if i == 123 {
        ST_PHRASES_123@
    } else if i == 124 {
        ST_PHRASES_124@
    } else if i == 125 {
        ST_PHRASES_125@
    } else if i == 126 {
        ST_PHRASES_126@
    } else if i == 127 {
        ST_PHRASES_127@
    } else if i == 128 {
        ST_PHRASES_128@
    } else if i == 129 {
        ST_PHRASES_129@
    } else if i == 130 {
        ST_PHRASES_130@
    } else if i == 131 {
        ST_PHRASES_131@
    } else if i == 132 {
        ST_PHRASES_132@
    } else if i == 133 {
        ST_PHRASES_133@
    } else if i == 134 {
        ST_PHRASES_134@
    } else if i == 135 {
        ST_PHRASES_135@
    } else if i == 136 {
        ST_PHRASES_136@
    } else if i == 137 {
        ST_PHRASES_137@
    } else if i == 138 {
        ST_PHRASES_138@
    } else if i == 139 {
        ST_PHRASES_139@
    } else if i == 140 {
        ST_PHRASES_140@
    } else if i == 141 {
        ST_PHRASES_141@
    } else if i == 142 {
        ST_PHRASES_142@
    } else if i == 143 {
        ST_PHRASES_143@
    } else if i == 144 {
        ST_PHRASES_144@
    } else if i == 145 {
        ST_PHRASES_145@
    } else if i == 146 {
        ST_PHRASES_146@
    } else if i == 147 {
        ST_PHRASES_147@
    } else if i == 148 {
        ST_PHRASES_148@
    } else {
        Seq::empty()
    }
}

/// Part `i` of the text.
pub fn part_exec(i: usize) -> (r: &'static str)
    requires
        i < PARTS,
    ensures
        r@ == part(i as int),
{
    match i {
        0 => ST_PHRASES_0,
        1 => ST_PHRASES_1,
        2 => ST_PHRASES_2,
        3 => ST_PHRASES_3,
        4 => ST_PHRASES_4,
        5 => ST_PHRASES_5,
        6 => ST_PHRASES_6,
        7 => ST_PHRASES_7,
        8 => ST_PHRASES_8,
        9 => ST_PHRASES_9,
        10 => ST_PHRASES_10,
        11 => ST_PHRASES_11,
        12 => ST_PHRASES_12,
        13 => ST_PHRASES_13,
        14 => ST_PHRASES_14,
        15 => ST_PHRASES_15,
        16 => ST_PHRASES_16,
        17 => ST_PHRASES_17,
        18 => ST_PHRASES_18,
        19 => ST_PHRASES_19,
        20 => ST_PHRASES_20,
        21 => ST_PHRASES_21,
        22 => ST_PHRASES_22,
        23 => ST_PHRASES_23,
        24 => ST_PHRASES_24,
        25 => ST_PHRASES_25,
        26 => ST_PHRASES_26,
        27 => ST_PHRASES_27,
        28 => ST_PHRASES_28,
        29 => ST_PHRASES_29,
        30 => ST_PHRASES_30,
        31 => ST_PHRASES_31,
        32 => ST_PHRASES_32,
        33 => ST_PHRASES_33,
        34 => ST_PHRASES_34,
        35 => ST_PHRASES_35,
        36 => ST_PHRASES_36,
        37 => ST_PHRASES_37,
        38 => ST_PHRASES_38,
        39 => ST_PHRASES_39,
        40 => ST_PHRASES_40,
        41 => ST_PHRASES_41,
        42 => ST_PHRASES_42,
        43 => ST_PHRASES_43,
        44 => ST_PHRASES_44,
        45 => ST_PHRASES_45,
        46 => ST_PHRASES_46,
        47 => ST_PHRASES_47,
        48 => ST_PHRASES_48,
        49 => ST_PHRASES_49,
        50 => ST_PHRASES_50,
        51 => ST_PHRASES_51,
        52 => ST_PHRASES_52,
        53 => ST_PHRASES_53,
        54 => ST_PHRASES_54,
        55 => ST_PHRASES_55,
        56 => ST_PHRASES_56,
        57 => ST_PHRASES_57,
        58 => ST_PHRASES_58,
        59 => ST_PHRASES_59,
        60 => ST_PHRASES_60,
        61 => ST_PHRASES_61,
        62 => ST_PHRASES_62,
        63 => ST_PHRASES_63,
        64 => ST_PHRASES_64,
        65 => ST_PHRASES_65,
        66 => ST_PHRASES_66,
        67 => ST_PHRASES_67,
        68 => ST_PHRASES_68,
        69 => ST_PHRASES_69,
        70 => ST_PHRASES_70,
        71 => ST_PHRASES_71,
        72 => ST_PHRASES_72,
        73 => ST_PHRASES_73,
        74 => ST_PHRASES_74,
        75 => ST_PHRASES_75,
        76 => ST_PHRASES_76,
        77 => ST_PHRASES_77,
        78 => ST_PHRASES_78,
        79 => ST_PHRASES_79,
        80 => ST_PHRASES_80,
        81 => ST_PHRASES_81,
        82 => ST_PHRASES_82,
        83 => ST_PHRASES_83,
        84 => ST_PHRASES_84,
        85 => ST_PHRASES_85,
        86 => ST_PHRASES_86,
        87 => ST_PHRASES_87,
        88 => ST_PHRASES_88,
        89 => ST_PHRASES_89,
        90 => ST_PHRASES_90,
        91 => ST_PHRASES_91,
        92 => ST_PHRASES_92,
        93 => ST_PHRASES_93,
        94 => ST_PHRASES_94,
        95 => ST_PHRASES_95,
        96 => ST_PHRASES_96,
        97 => ST_PHRASES_97,
        98 => ST_PHRASES_98,
        99 => ST_PHRASES_99,
        100 => ST_PHRASES_100,
        101 => ST_PHRASES_101,
        102 => ST_PHRASES_102,
        103 => ST_PHRASES_103,
        104 => ST_PHRASES_104,
        105 => ST_PHRASES_105,
        106 => ST_PHRASES_106,
        107 => ST_PHRASES_107,
        108 => ST_PHRASES_108,
        109 => ST_PHRASES_109,
        110 => ST_PHRASES_110,
        111 => ST_PHRASES_111,
        112 => ST_PHRASES_112,
        113 => ST_PHRASES_113,
        114 => ST_PHRASES_114,
        115 => ST_PHRASES_115,
        116 => ST_PHRASES_116,
        117 => ST_PHRASES_117,
        118 => ST_PHRASES_118,
        119 => ST_PHRASES_119,
        120 => ST_PHRASES_120,
        121 => ST_PHRASES_121,
        122 => ST_PHRASES_122,
        123 => ST_PHRASES_123,
        124 => ST_PHRASES_124,
        125 => ST_PHRASES_125,
        126 => ST_PHRASES_126,
        127 => ST_PHRASES_127,
        128 => ST_PHRASES_128,
        129 => ST_PHRASES_129,
        130 => ST_PHRASES_130,
        131 => ST_PHRASES_131,
        132 => ST_PHRASES_132,
        133 => ST_PHRASES_133,
        134 => ST_PHRASES_134,
        135 => ST_PHRASES_135,
        136 => ST_PHRASES_136,
        137 => ST_PHRASES_137,
        138 => ST_PHRASES_138,
        139 => ST_PHRASES_139,
        140 => ST_PHRASES_140,
        141 => ST_PHRASES_141,
        142 => ST_PHRASES_142,
        143 => ST_PHRASES_143,
        144 => ST_PHRASES_144,
        145 => ST_PHRASES_145,
        146 => ST_PHRASES_146,
        147 => ST_PHRASES_147,
        148 => ST_PHRASES_148,
        _ => ST_PHRASES_0,
    }
}

} // verus!
