//! Bundled `STCharacters` dictionary: entries `source<TAB>replacement`, one per line.

use vstd::prelude::*;

verus! {

/// Part 0 of the text.
pub const ST_CHARACTERS_0: &'static str = "㐷\t傌\n㐹\t㑶\n㐽\t偑\n㑇\t㑳\n㑈\t倲\n㑔\t㑯\n㑩\t儸\n㓆\t𠗣\n㓥\t劏\n㓰\t劃\n㔉\t劚\n㖊\t噚\n㖞\t喎\n㘎\t㘚\n㚯\t㜄\n㛀\t媰\n㛟\t𡞵\n㛠\t𡢃\n㛣\t㜏\n㛤\t孋\n㛿\t𡠹\n㟆\t㠏\n㟜\t𡾱\n㟥\t嵾\n㡎\t幓\n㤘\t㥮\n㤽\t懤\n㥪\t慺\n㧏\t掆\n㧐\t㩳\n㧑\t撝\n㧟\t擓\n㧰\t擽\n㨫\t㩜\n㭎\t棡\n㭏\t椲\n㭣\t𣙎\n㭤\t樢\n㭴\t樫\n㱩\t殰\n㱮\t殨\n㲿\t瀇\n㳔\t濧\n㳕\t灡\n㳠\t澾\n㳡\t濄\n㳢\t𣾷\n㳽\t瀰\n㴋\t潚\n㶉\t鸂\n㶶\t燶\n㶽\t煱\n㺍\t獱\n㻅\t璯\n㻏\t𤫩\n㻘\t𤪺\n䀥\t䁻\n䁖\t瞜\n䂵\t碽\n䃅\t磾\n䅉\t稏\n䅟\t穇\n䅪\t𥢢\n䇲\t筴\n䉤\t籔\n䌶\t䊷\n䌷\t紬\n䌸\t縳\n䌹\t絅\n䌺\t䋙\n䌻\t䋚\n䌼\t綐\n䌽\t綵\n䌾\t䋻\n䌿\t䋹\n䍀\t繿\n䍁\t繸\n䍠\t䍦\n䎬\t䎱\n䏝\t膞\n䑽\t𦪙\n䓓\t薵\n䓕\t薳\n䓖\t藭\n䓨\t罃\n䗖\t螮\n䘛\t𧝞\n䘞\t𧜗\n䙊\t𧜵\n䙌\t䙡\n䙓\t襬\n䜣\t訢\n䜤\t鿁\n䜥\t𧩙\n䜧\t䜀\n䜩\t讌\n䝙\t貙\n䞌\t𧵳\n䞍\t䝼\n䞎\t𧶧\n䞐\t賰\n䟢\t躎\n䢀\t𨊰\n䢁\t𨊸\n䢂\t𨋢\n䥺\t釾\n䥽\t鏺\n䥾\t䥱\n䥿\t𨯅\n䦀\t𨦫\n䦁\t𨧜\n䦂\t䥇\n䦃\t鐯\n䦅\t鐥\n䦆\t钁\n䦶\t䦛\n䦷\t䦟\n䩄\t靦\n䭪\t𩞯\n䯃\t𩣑\n䯄\t騧\n䯅\t䯀\n䲝\t䱽\n䲞\t𩶘\n䲟\t鮣\n䲠\t鰆\n䲡\t鰌\n䲢\t鰧\n䲣\t䱷\n䴓\t鳾\n䴔\t鵁\n䴕\t鴷\n䴖\t鶄\n䴗\t鶪\n䴘\t鷉\n䴙\t鸊\n䶮\t龑\n万\t萬\n与\t與\n丑\t醜\n专\t專\n业\t業\n丛\t叢\n东\t東\n丝\t絲\n丢\t丟\n两\t兩\n严\t嚴\n丧\t喪\n个\t個\n丰\t豐\n临\t臨\n为\t為\n丽\t麗\n举\t舉\n么\t麼\n义\t義\n乌\t烏\n乐\t樂\n乔\t喬\n习\t習\n乡\t鄉\n书\t書\n买\t買\n乱\t亂\n了\t了\n争\t爭\n于\t於\n亏\t虧\n云\t雲\n亘\t亙\n亚\t亞\n产\t產\n亩\t畝\n亲\t親\n亵\t褻\n亸\t嚲\n亿\t億\n仅\t僅\n仆\t僕\n仇\t仇\n从\t從\n仑\t侖\n仓\t倉\n仪\t儀\n们\t們\n价\t價\n仿\t仿\n众\t眾\n优\t優\n伙\t夥\n会\t會\n伛\t傴\n伞\t傘\n伟\t偉\n传\t傳\n伡\t俥\n伣\t俔\n伤\t傷\n伥\t倀\n伦\t倫\n伧\t傖\n伪\t偽\n伫\t佇\n体\t體\n余\t餘\n佛\t佛\n佣\t傭\n佥\t僉\n侠\t俠\n侣\t侶\n侥\t僥\n侦\t偵\n侧\t側\n侨\t僑\n侩\t儈\n侪\t儕\n侬\t儂\n侭\t儘\n俊\t俊\n俣\t俁\n俦\t儔\n俨\t儼\n俩\t倆\n俪\t儷\n俫\t倈\n俭\t儉\n修\t修\n借\t借\n债\t債\n倾\t傾\n偬\t傯\n偻\t僂\n偾\t僨\n偿\t償\n傤\t儎\n傥\t儻\n傧\t儐\n储\t儲\n傩\t儺\n僵\t僵\n儿\t兒\n克\t克\n兑\t兌\n兖\t兗\n党\t黨\n兰\t蘭\n关\t關\n兴\t興\n具\t具\n兹\t茲\n养\t養\n兽\t獸\n冁\t囅\n内\t內\n冈\t岡\n册\t冊\n写\t寫\n军\t軍\n农\t農\n冢\t冢\n冬\t冬\n冯\t馮\n冲\t衝\n决\t決\n况\t況\n冻\t凍\n净\t淨\n凄\t悽\n准\t準\n凉\t涼\n凌\t凌\n减\t減\n凑\t湊\n凛\t凜\n几\t幾\n凤\t鳳\n凫\t鳧\n凭\t憑\n凯\t凱\n凶\t兇\n出\t出\n击\t擊\n凿\t鑿\n刍\t芻\n划\t劃\n刘\t劉\n则\t則\n刚\t剛\n创\t創\n删\t刪\n别\t別\n刬\t剗\n刭\t剄\n刮\t刮\n制\t制\n刹\t剎\n刽\t劊\n刾\t㓨\n刿\t劌\n剀\t剴\n剂\t劑\n剐\t剮\n剑\t劍\n剥\t剝\n剧\t劇\n劝\t勸\n办\t辦\n务\t務\n劢\t勱\n动\t動\n励\t勵\n劲\t勁\n劳\t勞\n势\t勢\n勋\t勳\n勚\t勩\n匀\t勻\n匦\t匭\n匮\t匱\n区\t區\n医\t醫\n千\t千\n升\t升\n华\t華\n协\t協\n单\t單\n卖\t賣\n卜\t卜\n占\t佔\n卢\t盧\n卤\t滷\n卧\t臥\n卫\t衛\n却\t卻\n卷\t卷\n卺\t巹\n厂\t廠\n厅\t廳\n历\t歷\n厉\t厲\n压\t壓\n厌\t厭\n厍\t厙\n厐\t龎\n厕\t廁\n厘\t釐\n厢\t廂\n厣\t厴\n厦\t廈\n厨\t廚\n厩\t廄\n厮\t廝\n县\t縣\n叁\t叄\n参\t參\n叆\t靉\n叇\t靆\n双\t雙\n发\t發\n变\t變\n叙\t敘\n叠\t疊\n只\t只\n台\t臺\n叶\t葉\n号\t號\n叹\t嘆\n叽\t嘰\n吁\t籲\n吃\t吃\n合\t合\n吊\t吊\n同\t同\n后\t後\n向\t向\n吓\t嚇\n吕\t呂\n吗\t嗎\n吣\t唚\n吨\t噸\n听\t聽\n启\t啟\n吴\t吳\n呆\t呆\n呐\t吶\n呒\t嘸\n呓\t囈\n呕\t嘔\n呖\t嚦\n呗\t唄\n员\t員\n呙\t咼\n呛\t嗆\n呜\t嗚\n周\t周\n咏\t詠\n咙\t嚨\n咛\t嚀\n咝\t噝\n咤\t吒\n咨\t諮\n咸\t鹹\n咽\t咽\n哄\t哄\n响\t響\n哑\t啞\n哒\t噠\n哓\t嘵\n哔\t嗶\n哕\t噦\n哗\t譁\n哙\t噲\n哜\t嚌\n哝\t噥\n哟\t喲\n唇\t唇\n唛\t嘜\n唝\t嗊\n唠\t嘮\n唡\t啢\n唢\t嗩\n唤\t喚\n啧\t嘖\n啬\t嗇\n啭\t囀\n啮\t齧\n啯\t嘓\n啰\t囉\n啴\t嘽\n啸\t嘯\n喂\t喂\n喷\t噴\n喽\t嘍\n喾\t嚳\n嗫\t囁\n嗳\t噯\n嘘\t噓\n嘤\t嚶\n嘱\t囑\n噜\t嚕\n噪\t噪\n嚣\t囂\n回\t回\n团\t團\n园\t園\n困\t困\n囱\t囪\n围\t圍\n囵\t圇\n国\t國\n图\t圖\n圆\t圓\n圣\t聖\n圹\t壙\n场\t場\n坏\t壞\n坐\t坐\n块\t塊\n坚\t堅\n坛\t壇\n坜\t壢\n坝\t壩\n坞\t塢\n坟\t墳\n坠\t墜\n坯\t坯\n垄\t壟\n垅\t壠\n垆\t壚\n垒\t壘\n垦\t墾\n垩\t堊\n垫\t墊\n垭\t埡\n垯\t墶\n垱\t壋\n垲\t塏\n垴\t堖\n埘\t塒\n埙\t壎\n埚\t堝\n堑\t塹\n堕\t墮\n堤\t堤\n塆\t壪\n墙\t牆\n壮\t壯\n声\t聲\n壳\t殼\n壶\t壺\n壸\t壼\n处\t處\n备\t備\n复\t復\n够\t夠\n夫\t夫\n头\t頭\n夸\t誇\n夹\t夾\n夺\t奪\n奁\t奩\n奂\t奐\n奋\t奮\n奖\t獎\n奥\t奧\n奸\t奸\n妆\t妝\n妇\t婦\n妈\t媽\n妩\t嫵\n妪\t嫗\n妫\t媯\n姗\t姍\n姜\t姜\n姹\t奼\n娄\t婁\n娅\t婭\n娆\t嬈\n娇\t嬌\n娈\t孌\n娘\t娘\n娱\t娛\n娲\t媧\n娴\t嫻\n婳\t嫿\n婴\t嬰\n婵\t嬋\n婶\t嬸\n媪\t媼\n媭\t嬃\n嫒\t嬡\n嫔\t嬪\n嫱\t嬙\n嬷\t嬤\n孙\t孫\n学\t學\n孪\t孿\n宁\t寧\n它\t它\n宝\t寶\n实\t實\n宠\t寵\n审\t審\n宪\t憲\n宫\t宮\n家\t家\n宽\t寬\n宾\t賓\n寝\t寢\n对\t對\n寻\t尋\n导\t導\n寿\t壽\n将\t將\n尔\t爾\n尘\t塵\n尝\t嘗\n尧\t堯\n尴\t尷\n尸\t屍\n尽\t盡\n局\t局\n层\t層\n屃\t屓\n屉\t屜\n届\t屆\n属\t屬\n屡\t屢\n屦\t屨\n屿\t嶼\n岁\t歲\n岂\t豈\n岖\t嶇\n岗\t崗\n岘\t峴\n岚\t嵐\n岛\t島\n岩\t巖\n岭\t嶺\n岳\t岳\n岽\t崬\n岿\t巋\n峃\t嶨\n峄\t嶧\n峡\t峽\n峣\t嶢\n峤\t嶠\n峥\t崢\n峦\t巒\n峰\t峰\n崂\t嶗\n崃\t崍\n崄\t嶮\n崭\t嶄\n嵘\t嶸\n嵚\t嶔\n嵝\t嶁\n巅\t巔\n巨\t巨\n巩\t鞏\n巯\t巰\n币\t幣\n布\t布\n帅\t帥\n师\t師\n帏\t幃\n帐\t帳\n帘\t簾\n帜\t幟\n带\t帶\n帧\t幀\n席\t席\n帮\t幫\n帱\t幬\n帻\t幘\n帼\t幗\n幂\t冪\n干\t幹\n并\t並\n幸\t幸\n广\t廣\n庄\t莊\n庆\t慶\n床\t牀\n庐\t廬\n庑\t廡\n库\t庫\n应\t應\n庙\t廟\n庞\t龐\n废\t廢\n庵\t庵\n庼\t廎\n廪\t廩\n开\t開\n异\t異\n弃\t棄\n弑\t弒\n张\t張\n弥\t彌\n弦\t弦\n弪\t弳\n弯\t彎\n弹\t彈\n强\t強\n归\t歸\n当\t當\n录\t錄\n彟\t彠\n彦\t彥\n彨\t彲\n彩\t彩\n彻\t徹\n征\t徵\n径\t徑\n徕\t徠\n御\t御\n忆\t憶\n忏\t懺\n志\t志\n忧\t憂\n念\t念\n忾\t愾\n怀\t懷\n态\t態\n怂\t慫\n怃\t憮\n怄\t慪\n怅\t悵\n怆\t愴\n怜\t憐\n总\t總\n怼\t懟\n怿\t懌\n恋\t戀\n恒\t恆\n恤\t恤\n恳\t懇\n恶\t惡\n恸\t慟\n恹\t懨\n恺\t愷\n恻\t惻\n恼\t惱\n恽\t惲\n悦\t悅\n悫\t愨\n悬\t懸\n悭\t慳\n悮\t悞\n悯\t憫\n惊\t驚\n惧\t懼\n惨\t慘\n惩\t懲\n惫\t憊\n惬\t愜\n惭\t慚\n惮\t憚\n惯\t慣\n愈\t愈\n愠\t慍\n愤\t憤\n愦\t憒\n愿\t願\n慑\t懾\n慭\t憖\n懑\t懣\n懒\t懶\n懔\t懍\n戆\t戇\n戋\t戔\n戏\t戲\n戗\t戧\n战\t戰\n戚\t戚\n戬\t戩\n戯\t戱\n户\t戶\n扇\t扇\n才\t才\n扎\t扎\n扑\t撲\n托\t托\n扣\t扣\n执\t執\n扩\t擴\n扪\t捫\n扫\t掃\n扬\t揚\n扰\t擾\n折\t折\n抚\t撫\n抛\t拋\n抟\t摶\n抠\t摳\n抡\t掄\n抢\t搶\n护\t護\n报\t報\n抵\t抵\n担\t擔\n拐\t拐\n拟\t擬\n拢\t攏\n拣\t揀\n拥\t擁\n拦\t攔\n拧\t擰\n拨\t撥\n择\t擇\n拿\t拿\n挂\t掛\n挚\t摯\n挛\t攣\n挜\t掗\n挝\t撾\n挞\t撻\n挟\t挾\n挠\t撓\n挡\t擋\n挢\t撟\n挣\t掙\n挤\t擠\n挥\t揮\n挦\t撏\n挨\t挨\n挽\t挽\n捆\t捆\n捍\t捍\n捝\t挩\n捞\t撈\n损\t損\n捡\t撿\n换\t換\n捣\t搗\n据\t據\n掳\t擄\n掴\t摑\n掷\t擲\n掸\t撣\n掺\t摻\n掼\t摜\n揽\t攬\n揾\t搵\n揿\t撳\n搀\t攙\n搁\t擱\n搂\t摟\n搄\t揯\n搅\t攪\n搜\t搜\n携\t攜\n摄\t攝\n摅\t攄\n摆\t擺\n摇\t搖\n摈\t擯\n摊\t攤\n撄\t攖\n撑\t撐\n撵\t攆\n撷\t擷\n撸\t擼\n撺\t攛\n擜\t㩵\n擞\t擻\n攒\t攢\n敌\t敵\n敚\t敓\n敛\t斂\n敩\t斆\n数\t數\n斋\t齋\n斓\t斕\n斗\t鬥\n斤\t斤\n斩\t斬\n斫\t斫\n断\t斷\n旋\t旋\n无\t無\n旧\t舊\n时\t時\n旷\t曠\n旸\t暘\n昆\t昆\n昙\t曇\n昵\t暱\n昼\t晝\n昽\t曨\n显\t顯\n晋\t晉\n晒\t曬\n晓\t曉\n晔\t曄\n晕\t暈\n晖\t暉\n暂\t暫\n暅\t𣈶\n暗\t暗\n暧\t曖\n曲\t曲\n札\t札\n术\t術\n朱\t朱\n朴\t樸\n机\t機\n杀\t殺\n杂\t雜\n权\t權\n杆\t杆\n杠\t槓\n条\t條\n来\t來\n杨\t楊\n杩\t榪\n杯\t杯\n杰\t傑\n松\t松\n板\t板\n极\t極\n构\t構\n果\t果\n枞\t樅\n枢\t樞\n枣\t棗\n枥\t櫪\n枧\t梘\n枨\t棖\n";

/// Part 1 of the text.
pub const ST_CHARACTERS_1: &'static str = "枪\t槍\n枫\t楓\n枭\t梟\n柜\t櫃\n柠\t檸\n柽\t檉\n栀\t梔\n栅\t柵\n标\t標\n栈\t棧\n栉\t櫛\n栊\t櫳\n栋\t棟\n栌\t櫨\n栎\t櫟\n栏\t欄\n树\t樹\n栖\t棲\n栗\t栗\n样\t樣\n核\t核\n栾\t欒\n桠\t椏\n桡\t橈\n桢\t楨\n档\t檔\n桤\t榿\n桥\t橋\n桦\t樺\n桧\t檜\n桨\t槳\n桩\t樁\n桪\t樳\n梁\t梁\n梦\t夢\n梼\t檮\n梾\t棶\n梿\t槤\n检\t檢\n棁\t梲\n棂\t欞\n棱\t稜\n椁\t槨\n椝\t槼\n椟\t櫝\n椠\t槧\n椢\t槶\n椤\t欏\n椫\t樿\n椭\t橢\n椮\t槮\n楼\t樓\n榄\t欖\n榅\t榲\n榇\t櫬\n榈\t櫚\n榉\t櫸\n榝\t樧\n槚\t檟\n槛\t檻\n槟\t檳\n槠\t櫧\n横\t橫\n樯\t檣\n樱\t櫻\n橥\t櫫\n橱\t櫥\n橹\t櫓\n橼\t櫞\n檗\t檗\n檩\t檁\n欢\t歡\n欤\t歟\n欧\t歐\n欲\t欲\n歼\t殲\n殁\t歿\n殇\t殤\n残\t殘\n殒\t殞\n殓\t殮\n殚\t殫\n殡\t殯\n殴\t毆\n毁\t毀\n毂\t轂\n毕\t畢\n毙\t斃\n毡\t氈\n毵\t毿\n毶\t𣯶\n氇\t氌\n气\t氣\n氢\t氫\n氩\t氬\n氲\t氳\n汇\t匯\n汉\t漢\n汤\t湯\n汹\t洶\n沄\t澐\n沈\t沈\n沟\t溝\n没\t沒\n沣\t灃\n沤\t漚\n沥\t瀝\n沦\t淪\n沧\t滄\n沨\t渢\n沩\t溈\n沪\t滬\n沾\t沾\n泛\t泛\n泞\t濘\n注\t注\n泪\t淚\n泶\t澩\n泷\t瀧\n泸\t瀘\n泺\t濼\n泻\t瀉\n泼\t潑\n泽\t澤\n泾\t涇\n洁\t潔\n洒\t灑\n洼\t窪\n浃\t浹\n浅\t淺\n浆\t漿\n浇\t澆\n浈\t湞\n浉\t溮\n浊\t濁\n测\t測\n浍\t澮\n济\t濟\n浏\t瀏\n浐\t滻\n浑\t渾\n浒\t滸\n浓\t濃\n浔\t潯\n浕\t濜\n浚\t浚\n涂\t塗\n涌\t湧\n涚\t涗\n涛\t濤\n涝\t澇\n涞\t淶\n涟\t漣\n涠\t潿\n涡\t渦\n涢\t溳\n涣\t渙\n涤\t滌\n润\t潤\n涧\t澗\n涨\t漲\n涩\t澀\n淀\t澱\n渊\t淵\n渌\t淥\n渍\t漬\n渎\t瀆\n渐\t漸\n渑\t澠\n渔\t漁\n渖\t瀋\n渗\t滲\n温\t溫\n游\t遊\n湾\t灣\n湿\t濕\n溁\t濚\n溃\t潰\n溅\t濺\n溆\t漵\n溇\t漊\n溪\t溪\n滗\t潷\n滚\t滾\n滞\t滯\n滟\t灩\n滠\t灄\n满\t滿\n滢\t瀅\n滤\t濾\n滥\t濫\n滦\t灤\n滨\t濱\n滩\t灘\n滪\t澦\n漓\t漓\n潆\t瀠\n潇\t瀟\n潋\t瀲\n潍\t濰\n潜\t潛\n潴\t瀦\n澄\t澄\n澛\t瀂\n澜\t瀾\n濑\t瀨\n濒\t瀕\n灏\t灝\n灭\t滅\n灯\t燈\n灵\t靈\n灶\t灶\n灾\t災\n灿\t燦\n炀\t煬\n炉\t爐\n炖\t燉\n炜\t煒\n炝\t熗\n点\t點\n炼\t煉\n炽\t熾\n烁\t爍\n烂\t爛\n烃\t烴\n烛\t燭\n烟\t煙\n烦\t煩\n烧\t燒\n烨\t燁\n烩\t燴\n烫\t燙\n烬\t燼\n热\t熱\n焕\t煥\n焖\t燜\n焘\t燾\n焰\t焰\n煴\t熅\n熏\t燻\n爱\t愛\n爷\t爺\n牍\t牘\n牦\t犛\n牵\t牽\n牺\t犧\n犊\t犢\n状\t狀\n犷\t獷\n犸\t獁\n犹\t猶\n狈\t狽\n狝\t獮\n狞\t獰\n独\t獨\n狭\t狹\n狮\t獅\n狯\t獪\n狰\t猙\n狱\t獄\n狲\t猻\n狸\t狸\n猃\t獫\n猎\t獵\n猕\t獼\n猡\t玀\n猪\t豬\n猫\t貓\n猬\t蝟\n献\t獻\n獭\t獺\n玑\t璣\n玙\t璵\n玚\t瑒\n玛\t瑪\n玩\t玩\n玮\t瑋\n环\t環\n现\t現\n玱\t瑲\n玺\t璽\n珐\t琺\n珑\t瓏\n珰\t璫\n珲\t琿\n琅\t琅\n琎\t璡\n琏\t璉\n琐\t瑣\n琼\t瓊\n瑶\t瑤\n瑷\t璦\n瑸\t璸\n璇\t璇\n璎\t瓔\n瓒\t瓚\n瓮\t甕\n瓯\t甌\n电\t電\n画\t畫\n畅\t暢\n畴\t疇\n疖\t癤\n疗\t療\n疟\t瘧\n疠\t癘\n疡\t瘍\n疬\t癧\n疭\t瘲\n疮\t瘡\n疯\t瘋\n疱\t皰\n疴\t痾\n症\t症\n痈\t癰\n痉\t痙\n痒\t癢\n痖\t瘂\n痨\t癆\n痪\t瘓\n痫\t癇\n痴\t痴\n瘅\t癉\n瘆\t瘮\n瘗\t瘞\n瘘\t瘻\n瘪\t癟\n瘫\t癱\n瘾\t癮\n瘿\t癭\n癞\t癩\n癣\t癬\n癫\t癲\n皂\t皂\n皑\t皚\n皱\t皺\n皲\t皸\n盏\t盞\n盐\t鹽\n监\t監\n盖\t蓋\n盗\t盜\n盘\t盤\n眍\t瞘\n眦\t眥\n眬\t矓\n着\t著\n睁\t睜\n睐\t睞\n睑\t瞼\n瞆\t瞶\n瞒\t瞞\n瞩\t矚\n矩\t矩\n矫\t矯\n矶\t磯\n矾\t礬\n矿\t礦\n砀\t碭\n码\t碼\n砖\t磚\n砗\t硨\n砚\t硯\n砜\t碸\n砺\t礪\n砻\t礱\n砾\t礫\n础\t礎\n硁\t硜\n硕\t碩\n硖\t硤\n硗\t磽\n硙\t磑\n硚\t礄\n确\t確\n硵\t磠\n硷\t硷\n碍\t礙\n碛\t磧\n碜\t磣\n碱\t鹼\n礼\t禮\n祃\t禡\n祎\t禕\n祢\t禰\n祯\t禎\n祷\t禱\n祸\t禍\n禀\t稟\n禄\t祿\n禅\t禪\n离\t離\n私\t私\n秃\t禿\n秆\t稈\n秋\t秋\n种\t種\n秘\t祕\n积\t積\n称\t稱\n秽\t穢\n秾\t穠\n稆\t穭\n税\t稅\n稣\t穌\n稳\t穩\n穑\t穡\n穗\t穗\n穞\t穭\n穷\t窮\n窃\t竊\n窍\t竅\n窎\t窵\n窑\t窯\n窜\t竄\n窝\t窩\n窥\t窺\n窦\t竇\n窭\t窶\n竖\t豎\n竞\t競\n笃\t篤\n笋\t筍\n笔\t筆\n笕\t筧\n笺\t箋\n笼\t籠\n笾\t籩\n筑\t築\n筚\t篳\n筛\t篩\n筜\t簹\n筝\t箏\n筱\t筱\n筹\t籌\n筼\t篔\n签\t籤\n筿\t篠\n简\t簡\n箓\t籙\n箦\t簀\n箧\t篋\n箨\t籜\n箩\t籮\n箪\t簞\n箫\t簫\n篑\t簣\n篓\t簍\n篮\t籃\n篯\t籛\n篱\t籬\n簖\t籪\n籁\t籟\n籴\t糴\n类\t類\n籼\t秈\n粜\t糶\n粝\t糲\n粤\t粵\n粪\t糞\n粮\t糧\n粽\t糉\n糁\t糝\n糇\t餱\n糊\t糊\n糍\t餈\n系\t系\n紧\t緊\n累\t累\n絷\t縶\n緼\t縕\n縆\t緪\n纟\t糹\n纠\t糾\n纡\t紆\n红\t紅\n纣\t紂\n纤\t纖\n纥\t紇\n约\t約\n级\t級\n纨\t紈\n纩\t纊\n纪\t紀\n纫\t紉\n纬\t緯\n纭\t紜\n纮\t紘\n纯\t純\n纰\t紕\n纱\t紗\n纲\t綱\n纳\t納\n纴\t紝\n纵\t縱\n纶\t綸\n纷\t紛\n纸\t紙\n纹\t紋\n纺\t紡\n纻\t紵\n纼\t紖\n纽\t紐\n纾\t紓\n线\t線\n绀\t紺\n绁\t紲\n绂\t紱\n练\t練\n组\t組\n绅\t紳\n细\t細\n织\t織\n终\t終\n绉\t縐\n绊\t絆\n绋\t紼\n绌\t絀\n绍\t紹\n绎\t繹\n经\t經\n绐\t紿\n绑\t綁\n绒\t絨\n结\t結\n绔\t絝\n绕\t繞\n绖\t絰\n绗\t絎\n绘\t繪\n给\t給\n绚\t絢\n绛\t絳\n络\t絡\n绝\t絕\n绞\t絞\n统\t統\n绠\t綆\n绡\t綃\n绢\t絹\n绣\t繡\n绤\t綌\n绥\t綏\n绦\t絛\n继\t繼\n绨\t綈\n绩\t績\n绪\t緒\n绫\t綾\n绬\t緓\n续\t續\n绮\t綺\n绯\t緋\n绰\t綽\n绱\t鞝\n绲\t緄\n绳\t繩\n维\t維\n绵\t綿\n绶\t綬\n绷\t繃\n绸\t綢\n绹\t綯\n绺\t綹\n绻\t綣\n综\t綜\n绽\t綻\n绾\t綰\n绿\t綠\n缀\t綴\n缁\t緇\n缂\t緙\n缃\t緗\n缄\t緘\n缅\t緬\n缆\t纜\n缇\t緹\n缈\t緲\n缉\t緝\n缊\t縕\n缋\t繢\n缌\t緦\n缍\t綞\n缎\t緞\n缏\t緶\n缐\t線\n缑\t緱\n缒\t縋\n缓\t緩\n缔\t締\n缕\t縷\n编\t編\n缗\t緡\n缘\t緣\n缙\t縉\n缚\t縛\n缛\t縟\n缜\t縝\n缝\t縫\n缞\t縗\n缟\t縞\n缠\t纏\n缡\t縭\n缢\t縊\n缣\t縑\n缤\t繽\n缥\t縹\n缦\t縵\n缧\t縲\n缨\t纓\n缩\t縮\n缪\t繆\n缫\t繅\n缬\t纈\n缭\t繚\n缮\t繕\n缯\t繒\n缰\t繮\n缱\t繾\n缲\t繰\n缳\t繯\n缴\t繳\n缵\t纘\n罂\t罌\n网\t網\n罗\t羅\n罚\t罰\n罢\t罷\n罴\t羆\n羁\t羈\n羟\t羥\n羡\t羨\n群\t群\n翘\t翹\n翙\t翽\n翚\t翬\n耇\t耇\n耢\t耮\n耧\t耬\n耸\t聳\n耻\t恥\n聂\t聶\n聋\t聾\n职\t職\n聍\t聹\n联\t聯\n聩\t聵\n聪\t聰\n肃\t肅\n肠\t腸\n肤\t膚\n肮\t骯\n肴\t餚\n肾\t腎\n肿\t腫\n胀\t脹\n胁\t脅\n胄\t胄\n胆\t膽\n背\t背\n胜\t勝\n胡\t胡\n胧\t朧\n胨\t腖\n胪\t臚\n胫\t脛\n胶\t膠\n脉\t脈\n脍\t膾\n脏\t髒\n脐\t臍\n脑\t腦\n脓\t膿\n脔\t臠\n脚\t腳\n脱\t脫\n脶\t腡\n脸\t臉\n腊\t臘\n腌\t醃\n腘\t膕\n腭\t顎\n腻\t膩\n腼\t靦\n腽\t膃\n腾\t騰\n膑\t臏\n膻\t羶\n臜\t臢\n致\t致\n舆\t輿\n舍\t舍\n舣\t艤\n舰\t艦\n舱\t艙\n舻\t艫\n艰\t艱\n艳\t艷\n艺\t藝\n节\t節\n芈\t羋\n芗\t薌\n芜\t蕪\n芦\t蘆\n芸\t芸\n苁\t蓯\n苇\t葦\n苈\t藶\n苋\t莧\n苌\t萇\n苍\t蒼\n苎\t苧\n苏\t蘇\n苔\t苔\n苧\t薴\n苹\t蘋\n范\t範\n茎\t莖\n茏\t蘢\n茑\t蔦\n茔\t塋\n茕\t煢\n茧\t繭\n荆\t荊\n荐\t薦\n荙\t薘\n荚\t莢\n荛\t蕘\n荜\t蓽\n荝\t萴\n荞\t蕎\n荟\t薈\n荠\t薺\n荡\t蕩\n荣\t榮\n荤\t葷\n荥\t滎\n荦\t犖\n荧\t熒\n荨\t蕁\n荩\t藎\n荪\t蓀\n荫\t蔭\n荬\t蕒\n荭\t葒\n荮\t葤\n药\t藥\n莅\t蒞\n莱\t萊\n莲\t蓮\n莳\t蒔\n莴\t萵\n莶\t薟\n获\t獲\n莸\t蕕\n莹\t瑩\n莺\t鶯\n莼\t蓴\n萚\t蘀\n萝\t蘿\n萤\t螢\n营\t營\n萦\t縈\n萧\t蕭\n萨\t薩\n葱\t蔥\n蒀\t蒕\n蒇\t蕆\n蒉\t蕢\n蒋\t蔣\n蒌\t蔞\n蒏\t醟\n蒙\t蒙\n蓝\t藍\n蓟\t薊\n蓠\t蘺\n蓣\t蕷\n蓥\t鎣\n蓦\t驀\n蔂\t虆\n蔑\t蔑\n蔷\t薔\n蔹\t蘞\n蔺\t藺\n蔼\t藹\n蕰\t薀\n蕲\t蘄\n蕴\t蘊\n薮\t藪\n藓\t蘚\n藤\t藤\n藴\t蘊\n蘖\t櫱\n虏\t虜\n虑\t慮\n虚\t虛\n虫\t蟲\n虬\t虯\n虮\t蟣\n虱\t蝨\n虽\t雖\n虾\t蝦\n虿\t蠆\n蚀\t蝕\n蚁\t蟻\n蚂\t螞\n蚃\t蠁\n蚕\t蠶\n蚝\t蠔\n蚬\t蜆\n蛊\t蠱\n蛎\t蠣\n蛏\t蟶\n蛮\t蠻\n蛰\t蟄\n蛱\t蛺\n蛲\t蟯\n蛳\t螄\n蛴\t蠐\n蜕\t蛻\n蜗\t蝸\n蜡\t蠟\n蝇\t蠅\n蝈\t蟈\n蝉\t蟬\n蝎\t蠍\n蝼\t螻\n蝾\t蠑\n螀\t螿\n螨\t蟎\n蟏\t蠨\n衅\t釁\n衔\t銜\n补\t補\n表\t表\n衬\t襯\n衮\t袞\n袄\t襖\n袅\t嫋\n袆\t褘\n袜\t襪\n袭\t襲\n袯\t襏\n装\t裝\n裆\t襠\n裈\t褌\n裢\t褳\n裣\t襝\n裤\t褲\n裥\t襉\n褛\t褸\n褴\t襤\n襕\t襴\n见\t見\n观\t觀\n觃\t覎\n规\t規\n觅\t覓\n视\t視\n觇\t覘\n览\t覽\n觉\t覺\n觊\t覬\n觋\t覡\n觌\t覿\n觍\t覥\n觎\t覦\n觏\t覯\n觐\t覲\n觑\t覷\n觞\t觴\n触\t觸\n觯\t觶\n訚\t誾\n";

/// Part 2 of the text.
pub const ST_CHARACTERS_2: &'static str = "詟\t讋\n誉\t譽\n誊\t謄\n讠\t訁\n计\t計\n订\t訂\n讣\t訃\n认\t認\n讥\t譏\n讦\t訐\n讧\t訌\n讨\t討\n让\t讓\n讪\t訕\n讫\t訖\n讬\t託\n训\t訓\n议\t議\n讯\t訊\n记\t記\n讱\t訒\n讲\t講\n讳\t諱\n讴\t謳\n讵\t詎\n讶\t訝\n讷\t訥\n许\t許\n讹\t訛\n论\t論\n讻\t訩\n讼\t訟\n讽\t諷\n设\t設\n访\t訪\n诀\t訣\n证\t證\n诂\t詁\n诃\t訶\n评\t評\n诅\t詛\n识\t識\n诇\t詗\n诈\t詐\n诉\t訴\n诊\t診\n诋\t詆\n诌\t謅\n词\t詞\n诎\t詘\n诏\t詔\n诐\t詖\n译\t譯\n诒\t詒\n诓\t誆\n诔\t誄\n试\t試\n诖\t詿\n诗\t詩\n诘\t詰\n诙\t詼\n诚\t誠\n诛\t誅\n诜\t詵\n话\t話\n诞\t誕\n诟\t詬\n诠\t詮\n诡\t詭\n询\t詢\n诣\t詣\n诤\t諍\n该\t該\n详\t詳\n诧\t詫\n诨\t諢\n诩\t詡\n诪\t譸\n诫\t誡\n诬\t誣\n语\t語\n诮\t誚\n误\t誤\n诰\t誥\n诱\t誘\n诲\t誨\n诳\t誑\n说\t說\n诵\t誦\n诶\t誒\n请\t請\n诸\t諸\n诹\t諏\n诺\t諾\n读\t讀\n诼\t諑\n诽\t誹\n课\t課\n诿\t諉\n谀\t諛\n谁\t誰\n谂\t諗\n调\t調\n谄\t諂\n谅\t諒\n谆\t諄\n谇\t誶\n谈\t談\n谉\t讅\n谊\t誼\n谋\t謀\n谌\t諶\n谍\t諜\n谎\t謊\n谏\t諫\n谐\t諧\n谑\t謔\n谒\t謁\n谓\t謂\n谔\t諤\n谕\t諭\n谖\t諼\n谗\t讒\n谘\t諮\n谙\t諳\n谚\t諺\n谛\t諦\n谜\t謎\n谝\t諞\n谞\t諝\n谟\t謨\n谠\t讜\n谡\t謖\n谢\t謝\n谣\t謠\n谤\t謗\n谥\t諡\n谦\t謙\n谧\t謐\n谨\t謹\n谩\t謾\n谪\t謫\n谫\t譾\n谬\t謬\n谭\t譚\n谮\t譖\n谯\t譙\n谰\t讕\n谱\t譜\n谲\t譎\n谳\t讞\n谴\t譴\n谵\t譫\n谶\t讖\n谷\t谷\n豆\t豆\n象\t象\n豮\t豶\n贝\t貝\n贞\t貞\n负\t負\n贠\t貟\n贡\t貢\n财\t財\n责\t責\n贤\t賢\n败\t敗\n账\t賬\n货\t貨\n质\t質\n贩\t販\n贪\t貪\n贫\t貧\n贬\t貶\n购\t購\n贮\t貯\n贯\t貫\n贰\t貳\n贱\t賤\n贲\t賁\n贳\t貰\n贴\t貼\n贵\t貴\n贶\t貺\n贷\t貸\n贸\t貿\n费\t費\n贺\t賀\n贻\t貽\n贼\t賊\n贽\t贄\n贾\t賈\n贿\t賄\n赀\t貲\n赁\t賃\n赂\t賂\n赃\t贓\n资\t資\n赅\t賅\n赆\t贐\n赇\t賕\n赈\t賑\n赉\t賚\n赊\t賒\n赋\t賦\n赌\t賭\n赍\t齎\n赎\t贖\n赏\t賞\n赐\t賜\n赑\t贔\n赒\t賙\n赓\t賡\n赔\t賠\n赕\t賧\n赖\t賴\n赗\t賵\n赘\t贅\n赙\t賻\n赚\t賺\n赛\t賽\n赜\t賾\n赝\t贗\n赞\t贊\n赟\t贇\n赠\t贈\n赡\t贍\n赢\t贏\n赣\t贛\n赪\t赬\n赵\t趙\n赶\t趕\n趋\t趨\n趱\t趲\n趸\t躉\n跃\t躍\n跄\t蹌\n跖\t蹠\n跞\t躒\n践\t踐\n跶\t躂\n跷\t蹺\n跸\t蹕\n跹\t躚\n跻\t躋\n踌\t躊\n踪\t蹤\n踬\t躓\n踯\t躑\n蹑\t躡\n蹒\t蹣\n蹰\t躕\n蹿\t躥\n躏\t躪\n躜\t躦\n躯\t軀\n輼\t轀\n车\t車\n轧\t軋\n轨\t軌\n轩\t軒\n轪\t軑\n轫\t軔\n转\t轉\n轭\t軛\n轮\t輪\n软\t軟\n轰\t轟\n轱\t軲\n轲\t軻\n轳\t轤\n轴\t軸\n轵\t軹\n轶\t軼\n轷\t軤\n轸\t軫\n轹\t轢\n轺\t軺\n轻\t輕\n轼\t軾\n载\t載\n轾\t輊\n轿\t轎\n辀\t輈\n辁\t輇\n辂\t輅\n较\t較\n辄\t輒\n辅\t輔\n辆\t輛\n辇\t輦\n辈\t輩\n辉\t輝\n辊\t輥\n辋\t輞\n辌\t輬\n辍\t輟\n辎\t輜\n辏\t輳\n辐\t輻\n辑\t輯\n辒\t轀\n输\t輸\n辔\t轡\n辕\t轅\n辖\t轄\n辗\t輾\n辘\t轆\n辙\t轍\n辚\t轔\n辞\t辭\n辟\t闢\n辩\t辯\n辫\t辮\n边\t邊\n辽\t遼\n达\t達\n迁\t遷\n过\t過\n迈\t邁\n运\t運\n还\t還\n这\t這\n进\t進\n远\t遠\n违\t違\n连\t連\n迟\t遲\n迩\t邇\n迳\t逕\n迹\t跡\n适\t適\n选\t選\n逊\t遜\n递\t遞\n逦\t邐\n逻\t邏\n遗\t遺\n遥\t遙\n邓\t鄧\n邝\t鄺\n邬\t鄔\n邮\t郵\n邹\t鄒\n邺\t鄴\n邻\t鄰\n郁\t鬱\n郏\t郟\n郐\t鄶\n郑\t鄭\n郓\t鄆\n郦\t酈\n郧\t鄖\n郸\t鄲\n酂\t酇\n酝\t醞\n酦\t醱\n酱\t醬\n酸\t酸\n酽\t釅\n酾\t釃\n酿\t釀\n醖\t醞\n采\t採\n释\t釋\n里\t裡\n鉴\t鑑\n銮\t鑾\n錾\t鏨\n钅\t釒\n钆\t釓\n钇\t釔\n针\t針\n钉\t釘\n钊\t釗\n钋\t釙\n钌\t釕\n钍\t釷\n钎\t釺\n钏\t釧\n钐\t釤\n钑\t鈒\n钒\t釩\n钓\t釣\n钔\t鍆\n钕\t釹\n钖\t鍚\n钗\t釵\n钘\t鈃\n钙\t鈣\n钚\t鈈\n钛\t鈦\n钜\t鉅\n钝\t鈍\n钞\t鈔\n钟\t鍾\n钠\t鈉\n钡\t鋇\n钢\t鋼\n钣\t鈑\n钤\t鈐\n钥\t鑰\n钦\t欽\n钧\t鈞\n钨\t鎢\n钩\t鉤\n钪\t鈧\n钫\t鈁\n钬\t鈥\n钭\t鈄\n钮\t鈕\n钯\t鈀\n钰\t鈺\n钱\t錢\n钲\t鉦\n钳\t鉗\n钴\t鈷\n钵\t鉢\n钶\t鈳\n钷\t鉕\n钸\t鈽\n钹\t鈸\n钺\t鉞\n钻\t鑽\n钼\t鉬\n钽\t鉭\n钾\t鉀\n钿\t鈿\n铀\t鈾\n铁\t鐵\n铂\t鉑\n铃\t鈴\n铄\t鑠\n铅\t鉛\n铆\t鉚\n铇\t鉋\n铈\t鈰\n铉\t鉉\n铊\t鉈\n铋\t鉍\n铌\t鈮\n铍\t鈹\n铎\t鐸\n铏\t鉶\n铐\t銬\n铑\t銠\n铒\t鉺\n铓\t鋩\n铔\t錏\n铕\t銪\n铖\t鋮\n铗\t鋏\n铘\t鋣\n铙\t鐃\n铚\t銍\n铛\t鐺\n铜\t銅\n铝\t鋁\n铞\t銱\n铟\t銦\n铠\t鎧\n铡\t鍘\n铢\t銖\n铣\t銑\n铤\t鋌\n铥\t銩\n铦\t銛\n铧\t鏵\n铨\t銓\n铩\t鎩\n铪\t鉿\n铫\t銚\n铬\t鉻\n铭\t銘\n铮\t錚\n铯\t銫\n铰\t鉸\n铱\t銥\n铲\t鏟\n铳\t銃\n铴\t鐋\n铵\t銨\n银\t銀\n铷\t銣\n铸\t鑄\n铹\t鐒\n铺\t鋪\n铻\t鋙\n铼\t錸\n铽\t鋱\n链\t鏈\n铿\t鏗\n销\t銷\n锁\t鎖\n锂\t鋰\n锃\t鋥\n锄\t鋤\n锅\t鍋\n锆\t鋯\n锇\t鋨\n锈\t鏽\n锉\t銼\n锊\t鋝\n锋\t鋒\n锌\t鋅\n锍\t鋶\n锎\t鐦\n锏\t鐧\n锐\t銳\n锑\t銻\n锒\t鋃\n锓\t鋟\n锔\t鋦\n锕\t錒\n锖\t錆\n锗\t鍺\n锘\t鍩\n错\t錯\n锚\t錨\n锛\t錛\n锜\t錡\n锝\t鍀\n锞\t錁\n锟\t錕\n锠\t錩\n锡\t錫\n锢\t錮\n锣\t鑼\n锤\t錘\n锥\t錐\n锦\t錦\n锧\t鑕\n锨\t鍁\n锩\t錈\n锪\t鍃\n锫\t錇\n锬\t錟\n锭\t錠\n键\t鍵\n锯\t鋸\n锰\t錳\n锱\t錙\n锲\t鍥\n锳\t鍈\n锴\t鍇\n锵\t鏘\n锶\t鍶\n锷\t鍔\n锸\t鍤\n锹\t鍬\n锺\t鍾\n锻\t鍛\n锼\t鎪\n锽\t鍠\n锾\t鍰\n锿\t鎄\n镀\t鍍\n镁\t鎂\n镂\t鏤\n镃\t鎡\n镄\t鐨\n镅\t鎇\n镆\t鏌\n镇\t鎮\n镈\t鎛\n镉\t鎘\n镊\t鑷\n镋\t钂\n镌\t鐫\n镍\t鎳\n镎\t鎿\n镏\t鎦\n镐\t鎬\n镑\t鎊\n镒\t鎰\n镓\t鎵\n镔\t鑌\n镕\t鎔\n镖\t鏢\n镗\t鏜\n镘\t鏝\n镙\t鏍\n镚\t鏰\n镛\t鏞\n镜\t鏡\n镝\t鏑\n镞\t鏃\n镟\t鏇\n镠\t鏐\n镡\t鐔\n镢\t钁\n镣\t鐐\n镤\t鏷\n镥\t鑥\n镦\t鐓\n镧\t鑭\n镨\t鐠\n镩\t鑹\n镪\t鏹\n镫\t鐙\n镬\t鑊\n镭\t鐳\n镮\t鐶\n镯\t鐲\n镰\t鐮\n镱\t鐿\n镲\t鑔\n镳\t鑣\n镴\t鑞\n镵\t鑱\n镶\t鑲\n长\t長\n门\t門\n闩\t閂\n闪\t閃\n闫\t閆\n闬\t閈\n闭\t閉\n问\t問\n闯\t闖\n闰\t閏\n闱\t闈\n闲\t閒\n闳\t閎\n间\t間\n闵\t閔\n闶\t閌\n闷\t悶\n闸\t閘\n闹\t鬧\n闺\t閨\n闻\t聞\n闼\t闥\n闽\t閩\n闾\t閭\n闿\t闓\n阀\t閥\n阁\t閣\n阂\t閡\n阃\t閫\n阄\t鬮\n阅\t閱\n阆\t閬\n阇\t闍\n阈\t閾\n阉\t閹\n阊\t閶\n阋\t鬩\n阌\t閿\n阍\t閽\n阎\t閻\n阏\t閼\n阐\t闡\n阑\t闌\n阒\t闃\n阓\t闠\n阔\t闊\n阕\t闋\n阖\t闔\n阗\t闐\n阘\t闒\n阙\t闕\n阚\t闞\n阛\t闤\n队\t隊\n阳\t陽\n阴\t陰\n阵\t陣\n阶\t階\n际\t際\n陆\t陸\n陇\t隴\n陈\t陳\n陉\t陘\n陕\t陝\n陦\t隯\n陧\t隉\n陨\t隕\n险\t險\n随\t隨\n隐\t隱\n隶\t隸\n隽\t雋\n难\t難\n雇\t僱\n雏\t雛\n雕\t雕\n雠\t讎\n雳\t靂\n雾\t霧\n霁\t霽\n霉\t黴\n霡\t霢\n霭\t靄\n靓\t靚\n靔\t靝\n静\t靜\n面\t面\n靥\t靨\n鞑\t韃\n鞒\t鞽\n鞯\t韉\n鞲\t韝\n韦\t韋\n韧\t韌\n韨\t韍\n韩\t韓\n韪\t韙\n韫\t韞\n韬\t韜\n韵\t韻\n页\t頁\n顶\t頂\n顷\t頃\n顸\t頇\n项\t項\n顺\t順\n须\t須\n顼\t頊\n顽\t頑\n顾\t顧\n顿\t頓\n颀\t頎\n颁\t頒\n颂\t頌\n颃\t頏\n预\t預\n颅\t顱\n领\t領\n颇\t頗\n颈\t頸\n颉\t頡\n颊\t頰\n颋\t頲\n颌\t頜\n颍\t潁\n颎\t熲\n颏\t頦\n颐\t頤\n频\t頻\n颒\t頮\n颓\t頹\n颔\t頷\n颕\t頴\n颖\t穎\n颗\t顆\n题\t題\n颙\t顒\n颚\t顎\n颛\t顓\n颜\t顏\n额\t額\n颞\t顳\n颟\t顢\n颠\t顛\n颡\t顙\n颢\t顥\n颣\t纇\n颤\t顫\n颥\t顬\n颦\t顰\n颧\t顴\n风\t風\n飏\t颺\n飐\t颭\n飑\t颮\n飒\t颯\n飓\t颶\n飔\t颸\n飕\t颼\n飖\t颻\n飗\t飀\n飘\t飄\n飙\t飆\n飚\t飈\n飞\t飛\n飨\t饗\n餍\t饜\n饣\t飠\n饤\t飣\n饥\t飢\n饦\t飥\n饧\t餳\n饨\t飩\n饩\t餼\n饪\t飪\n饫\t飫\n饬\t飭\n饭\t飯\n饮\t飲\n饯\t餞\n饰\t飾\n饱\t飽\n饲\t飼\n饳\t飿\n饴\t飴\n饵\t餌\n饶\t饒\n饷\t餉\n饸\t餄\n饹\t餎\n饺\t餃\n饻\t餏\n饼\t餅\n饽\t餑\n饾\t餖\n饿\t餓\n馀\t餘\n馁\t餒\n馂\t餕\n馃\t餜\n馄\t餛\n馅\t餡\n馆\t館\n馇\t餷\n馈\t饋\n馉\t餶\n馊\t餿\n馋\t饞\n馌\t饁\n馍\t饃\n馎\t餺\n馏\t餾\n馐\t饈\n馑\t饉\n馒\t饅\n馓\t饊\n馔\t饌\n馕\t饢\n马\t馬\n驭\t馭\n驮\t馱\n驯\t馴\n驰\t馳\n驱\t驅\n驲\t馹\n驳\t駁\n驴\t驢\n驵\t駔\n驶\t駛\n驷\t駟\n驸\t駙\n驹\t駒\n驺\t騶\n驻\t駐\n驼\t駝\n驽\t駑\n驾\t駕\n驿\t驛\n骀\t駘\n骁\t驍\n骂\t罵\n骃\t駰\n骄\t驕\n骅\t驊\n骆\t駱\n骇\t駭\n骈\t駢\n骉\t驫\n骊\t驪\n骋\t騁\n验\t驗\n骍\t騂\n骎\t駸\n骏\t駿\n骐\t騏\n骑\t騎\n骒\t騍\n骓\t騅\n骔\t騌\n骕\t驌\n骖\t驂\n骗\t騙\n骘\t騭\n骙\t騤\n";

/// Part 3 of the text.
pub const ST_CHARACTERS_3: &'static str = "骚\t騷\n骛\t騖\n骜\t驁\n骝\t騮\n骞\t騫\n骟\t騸\n骠\t驃\n骡\t騾\n骢\t驄\n骣\t驏\n骤\t驟\n骥\t驥\n骦\t驦\n骧\t驤\n髅\t髏\n髋\t髖\n髌\t髕\n鬓\t鬢\n鬶\t鬹\n魇\t魘\n魉\t魎\n鱼\t魚\n鱽\t魛\n鱾\t魢\n鱿\t魷\n鲀\t魨\n鲁\t魯\n鲂\t魴\n鲃\t䰾\n鲄\t魺\n鲅\t鮁\n鲆\t鮃\n鲇\t鯰\n鲈\t鱸\n鲉\t鮋\n鲊\t鮓\n鲋\t鮒\n鲌\t鮊\n鲍\t鮑\n鲎\t鱟\n鲏\t鮍\n鲐\t鮐\n鲑\t鮭\n鲒\t鮚\n鲓\t鮳\n鲔\t鮪\n鲕\t鮞\n鲖\t鮦\n鲗\t鰂\n鲘\t鮜\n鲙\t鱠\n鲚\t鱭\n鲛\t鮫\n鲜\t鮮\n鲝\t鮺\n鲞\t鯗\n鲟\t鱘\n鲠\t鯁\n鲡\t鱺\n鲢\t鰱\n鲣\t鰹\n鲤\t鯉\n鲥\t鰣\n鲦\t鰷\n鲧\t鯀\n鲨\t鯊\n鲩\t鯇\n鲪\t鮶\n鲫\t鯽\n鲬\t鯒\n鲭\t鯖\n鲮\t鯪\n鲯\t鯕\n鲰\t鯫\n鲱\t鯡\n鲲\t鯤\n鲳\t鯧\n鲴\t鯝\n鲵\t鯢\n鲶\t鯰\n鲷\t鯛\n鲸\t鯨\n鲹\t鰺\n鲺\t鯴\n鲻\t鯔\n鲼\t鱝\n鲽\t鰈\n鲾\t鰏\n鲿\t鱨\n鳀\t鯷\n鳁\t鰮\n鳂\t鰃\n鳃\t鰓\n鳄\t鱷\n鳅\t鰍\n鳆\t鰒\n鳇\t鰉\n鳈\t鰁\n鳉\t鱂\n鳊\t鯿\n鳋\t鰠\n鳌\t鰲\n鳍\t鰭\n鳎\t鰨\n鳏\t鰥\n鳐\t鰩\n鳑\t鰟\n鳒\t鰜\n鳓\t鰳\n鳔\t鰾\n鳕\t鱈\n鳖\t鱉\n鳗\t鰻\n鳘\t鰵\n鳙\t鱅\n鳚\t䲁\n鳛\t鰼\n鳜\t鱖\n鳝\t鱔\n鳞\t鱗\n鳟\t鱒\n鳠\t鱯\n鳡\t鱤\n鳢\t鱧\n鳣\t鱣\n鳤\t䲘\n鸟\t鳥\n鸠\t鳩\n鸡\t雞\n鸢\t鳶\n鸣\t鳴\n鸤\t鳲\n鸥\t鷗\n鸦\t鴉\n鸧\t鶬\n鸨\t鴇\n鸩\t鴆\n鸪\t鴣\n鸫\t鶇\n鸬\t鸕\n鸭\t鴨\n鸮\t鴞\n鸯\t鴦\n鸰\t鴒\n鸱\t鴟\n鸲\t鴝\n鸳\t鴛\n鸴\t鷽\n鸵\t鴕\n鸶\t鷥\n鸷\t鷙\n鸸\t鴯\n鸹\t鴰\n鸺\t鵂\n鸻\t鴴\n鸼\t鵃\n鸽\t鴿\n鸾\t鸞\n鸿\t鴻\n鹀\t鵐\n鹁\t鵓\n鹂\t鸝\n鹃\t鵑\n鹄\t鵠\n鹅\t鵝\n鹆\t鵒\n鹇\t鷳\n鹈\t鵜\n鹉\t鵡\n鹊\t鵲\n鹋\t鶓\n鹌\t鵪\n鹍\t鵾\n鹎\t鵯\n鹏\t鵬\n鹐\t鵮\n鹑\t鶉\n鹒\t鶊\n鹓\t鵷\n鹔\t鷫\n鹕\t鶘\n鹖\t鶡\n鹗\t鶚\n鹘\t鶻\n鹙\t鶖\n鹚\t鷀\n鹛\t鶥\n鹜\t鶩\n鹝\t鷊\n鹞\t鷂\n鹟\t鶲\n鹠\t鶹\n鹡\t鶺\n鹢\t鷁\n鹣\t鶼\n鹤\t鶴\n鹥\t鷖\n鹦\t鸚\n鹧\t鷓\n鹨\t鷚\n鹩\t鷯\n鹪\t鷦\n鹫\t鷲\n鹬\t鷸\n鹭\t鷺\n鹮\t䴉\n鹯\t鸇\n鹰\t鷹\n鹱\t鸌\n鹲\t鸏\n鹳\t鸛\n鹴\t鸘\n鹾\t鹺\n麦\t麥\n麸\t麩\n麹\t麴\n麺\t麵\n麽\t麼\n黄\t黃\n黉\t黌\n黡\t黶\n黩\t黷\n黪\t黲\n黾\t黽\n鼋\t黿\n鼌\t鼂\n鼍\t鼉\n鼹\t鼴\n齐\t齊\n齑\t齏\n齿\t齒\n龀\t齔\n龁\t齕\n龂\t齗\n龃\t齟\n龄\t齡\n龅\t齙\n龆\t齠\n龇\t齜\n龈\t齦\n龉\t齬\n龊\t齪\n龋\t齲\n龌\t齷\n龙\t龍\n龚\t龔\n龛\t龕\n龟\t龜\n鿎\t䃮\n鿏\t䥑\n鿒\t鿓\n鿔\t鎶\n𠀾\t𠁞\n𠆲\t儣\n𠆿\t𠌥\n𠇹\t俓\n𠉂\t㒓\n𠉗\t𠏢\n𠋆\t儭\n𠚳\t𠠎\n𠛅\t剾\n𠛆\t𠞆\n𠛾\t𪟖\n𠡠\t勑\n𠮶\t嗰\n𠯟\t哯\n𠯠\t噅\n𠰱\t㘉\n𠰷\t嚧\n𠱞\t囃\n𠲥\t𡅏\n𠴛\t𡃕\n𠴢\t𡄔\n𠵸\t𡄣\n𠵾\t㗲\n𡋀\t𡓾\n𡋗\t𡑭\n𡋤\t壗\n𡍣\t𡔖\n𡒄\t壈\n𡝠\t㜷\n𡞋\t㜗\n𡞱\t㜢\n𡠟\t孎\n𡥧\t孻\n𡭜\t𡮉\n𡭬\t𡮣\n𡳃\t𡳳\n𡳒\t𦘧\n𡶴\t嵼\n𡸃\t𡽗\n𡺃\t嶈\n𡺄\t嶘\n𢋈\t㢝\n𢗓\t㦛\n𢘙\t𢤱\n𢘝\t𢣚\n𢘞\t𢣭\n𢙏\t愻\n𢙐\t憹\n𢙑\t𢠼\n𢙒\t憢\n𢙓\t懀\n𢛯\t㦎\n𢠁\t懎\n𢢐\t𤢻\n𢧐\t戰\n𢫊\t𢷮\n𢫞\t𢶫\n𢫬\t摋\n𢬍\t擫\n𢬦\t𢹿\n𢭏\t擣\n𢽾\t斅\n𣃁\t斸\n𣆐\t曥\n𣈣\t𣋋\n𣍨\t𦢈\n𣍯\t腪\n𣍰\t脥\n𣎑\t臗\n𣏢\t槫\n𣐕\t桱\n𣐤\t欍\n𣑶\t𣠲\n𣒌\t楇\n𣓿\t橯\n𣔌\t樤\n𣗊\t樠\n𣗋\t欓\n𣗙\t㰙\n𣘐\t㯤\n𣘓\t𣞻\n𣘴\t檭\n𣘷\t𣝕\n𣚚\t欘\n𣞎\t𣠩\n𣨼\t殢\n𣭤\t𣯴\n𣯣\t𣯩\n𣱝\t氭\n𣲗\t湋\n𣲘\t潕\n𣳆\t㵗\n𣶩\t澅\n𣶫\t𣿉\n𣶭\t𪷓\n𣷷\t𤅶\n𣸣\t濆\n𣺼\t灙\n𣺽\t𤁣\n𣽷\t瀃\n𤆡\t熓\n𤆢\t㷍\n𤇃\t爄\n𤇄\t熌\n𤇭\t爖\n𤇹\t熚\n𤈶\t熉\n𤈷\t㷿\n𤊀\t𤒎\n𤊰\t𤓩\n𤋏\t熡\n𤎺\t𤓎\n𤎻\t𤑳\n𤙯\t𤛮\n𤝢\t𤢟\n𤞃\t獩\n𤞤\t玁\n𤠋\t㺏\n𤦀\t瓕\n𤩽\t瓛\n𤳄\t𤳸\n𤶊\t癐\n𤶧\t𤸫\n𤻊\t㿗\n𤽯\t㿧\n𤾀\t皟\n𤿲\t麬\n𥁢\t䀉\n𥅘\t𥌃\n𥅴\t䀹\n𥅿\t𥊝\n𥆧\t瞤\n𥇢\t䁪\n𥎝\t䂎\n𥐟\t礒\n𥐯\t𥖅\n𥐰\t𥕥\n𥐻\t碙\n𥞦\t𥞵\n𥧂\t𥨐\n𥩟\t竚\n𥩺\t𥪂\n𥫣\t籅\n𥬀\t䉙\n𥬞\t籋\n𥬠\t篘\n𥭉\t𥵊\n𥮋\t𥸠\n𥮜\t䉲\n𥮾\t篸\n𥱔\t𥵃\n𥹥\t𥼽\n𥺅\t䊭\n𥺇\t𥽖\n𦈈\t𥿊\n𦈉\t緷\n𦈋\t綇\n𦈌\t綀\n𦈎\t繟\n𦈏\t緍\n𦈐\t縺\n𦈑\t緸\n𦈒\t𦂅\n𦈓\t䋿\n𦈔\t縎\n𦈕\t緰\n𦈖\t䌈\n𦈗\t𦃄\n𦈘\t䌋\n𦈙\t䌰\n𦈚\t縬\n𦈛\t繓\n𦈜\t䌖\n𦈝\t繏\n𦈞\t䌟\n𦈟\t䌝\n𦈠\t䌥\n𦈡\t繻\n𦍠\t䍽\n𦛨\t朥\n𦝼\t膢\n𦟗\t𦣎\n𦨩\t𦪽\n𦰏\t蓧\n𦰴\t䕳\n𦶟\t爇\n𦶻\t𦾟\n𦻕\t蘟\n𧉐\t𧕟\n𧉞\t䗿\n𧌥\t𧎈\n𧏖\t蠙\n𧏗\t蠀\n𧑏\t蠾\n𧒭\t𧔥\n𧜭\t䙱\n𧝝\t襰\n𧝧\t𧟀\n𧮪\t詀\n𧳕\t𧳟\n𧹑\t䞈\n𧹒\t買\n𧹓\t𧶔\n𧹔\t賬\n𧹕\t䝻\n𧹖\t賟\n𧹗\t贃\n𧿈\t𨇁\n𨀁\t躘\n𨀱\t𨄣\n𨁴\t𨅍\n𨂺\t𨈊\n𨄄\t𨈌\n𨅛\t䠱\n𨅫\t𨇞\n𨅬\t躝\n𨉗\t軉\n𨐅\t軗\n𨐆\t𨊻\n𨐇\t𨏠\n𨐈\t輄\n𨐉\t𨎮\n𨐊\t𨏥\n𨑹\t䢨\n𨟳\t𨣞\n𨠨\t𨣧\n𨡙\t𨢿\n𨡺\t𨣈\n𨤰\t𨤻\n𨰾\t鎷\n𨰿\t釳\n𨱀\t𨥛\n𨱁\t鈠\n𨱂\t鈋\n𨱃\t鈲\n𨱄\t鈯\n𨱅\t鉁\n𨱆\t龯\n𨱇\t銶\n𨱈\t鋉\n𨱉\t鍄\n𨱊\t𨧱\n𨱋\t錂\n𨱌\t鏆\n𨱍\t鎯\n𨱎\t鍮\n𨱏\t鎝\n𨱐\t𨫒\n𨱑\t鐄\n𨱒\t鏉\n𨱓\t鐎\n𨱔\t鐏\n𨱕\t𨮂\n𨱖\t䥩\n𨷿\t䦳\n𨸀\t𨳕\n𨸁\t𨳑\n𨸂\t閍\n𨸃\t閐\n𨸄\t䦘\n𨸅\t𨴗\n𨸆\t𨵩\n𨸇\t𨵸\n𨸉\t𨶀\n𨸊\t𨶏\n𨸋\t𨶲\n𨸌\t𨶮\n𨸎\t𨷲\n𨸘\t𨽏\n𨸟\t䧢\n𩏼\t䪏\n𩏽\t𩏪\n𩏾\t𩎢\n𩏿\t䪘\n𩐀\t䪗\n𩓋\t顂\n𩖕\t𩓣\n𩖖\t顃\n𩖗\t䫴\n𩙥\t颰\n𩙦\t𩗀\n𩙧\t䬞\n𩙨\t𩘹\n𩙩\t𩘀\n𩙪\t颷\n𩙫\t颾\n𩙬\t𩘺\n𩙭\t𩘝\n𩙮\t䬘\n𩙯\t䬝\n𩙰\t𩙈\n𩟿\t𩚛\n𩠀\t𩚥\n𩠁\t𩚵\n𩠂\t𩛆\n𩠃\t𩛩\n𩠅\t𩟐\n𩠆\t𩜦\n𩠇\t䭀\n𩠈\t䭃\n𩠉\t𩜇\n𩠊\t𩜵\n𩠋\t𩝔\n𩠌\t餸\n𩠎\t𩞄\n𩠏\t𩞦\n𩠠\t𩠴\n𩡖\t𩡣\n𩧦\t𩡺\n𩧨\t駎\n𩧩\t𩤊\n𩧪\t䮾\n𩧫\t駚\n𩧬\t𩢡\n𩧭\t䭿\n𩧮\t𩢾\n𩧯\t驋\n𩧰\t䮝\n𩧱\t𩥉\n𩧲\t駧\n𩧳\t𩢸\n𩧴\t駩\n𩧵\t𩢴\n𩧶\t𩣏\n𩧸\t𩣫\n𩧺\t駶\n𩧻\t𩣵\n𩧼\t𩣺\n𩧿\t䮠\n𩨀\t騔\n𩨁\t䮞\n𩨂\t驄\n𩨃\t騝\n𩨄\t騪\n𩨅\t𩤸\n𩨆\t𩤙\n𩨇\t䮫\n𩨈\t騟\n𩨉\t𩤲\n𩨊\t騚\n𩨋\t𩥄\n𩨌\t𩥑\n𩨍\t𩥇\n𩨎\t龭\n𩨏\t䮳\n𩨐\t𩧆\n𩩈\t䯤\n𩬣\t𩭙\n𩬤\t𩰀\n𩭹\t鬖\n𩯒\t𩯳\n𩰰\t𩰹\n𩲒\t𩳤\n𩴌\t𩴵\n𩽹\t魥\n𩽺\t𩵩\n𩽻\t𩵹\n𩽼\t鯶\n𩽽\t𩶱\n𩽾\t鮟\n𩽿\t𩶰\n𩾁\t鯄\n𩾂\t䲖\n𩾃\t鮸\n𩾄\t𩷰\n𩾅\t𩸃\n𩾆\t𩸦\n𩾇\t鯱\n𩾈\t䱙\n𩾊\t䱬\n𩾋\t䱰\n𩾌\t鱇\n𩾎\t𩽇\n𪉂\t䲰\n𪉃\t鳼\n𪉄\t𩿪\n𪉅\t𪀦\n𪉆\t鴲\n𪉈\t鴜\n𪉉\t𪁈\n𪉊\t鷨\n𪉋\t𪀾\n𪉌\t𪁖\n𪉍\t鵚\n𪉎\t𪂆\n𪉏\t𪃏\n𪉐\t𪃍\n𪉑\t鷔\n𪉒\t𪄕\n𪉔\t𪄆\n𪉕\t𪇳\n𪎈\t䴬\n𪎉\t麲\n𪎊\t麨\n𪎋\t䴴\n𪎌\t麳\n𪑅\t䵳\n𪔭\t𪔵\n𪚏\t𪘀\n𪚐\t𪘯\n𪜎\t𠿕\n𪞝\t凙\n𪟎\t㔋\n𪟝\t勣\n𪠀\t𧷎\n𪠟\t㓄\n𪠡\t𠬙\n𪠳\t唓\n𪠵\t㖮\n𪠸\t嚛\n𪠺\t𠽃\n𪠽\t噹\n𪡀\t嘺\n𪡃\t嘪\n𪡋\t噞\n𪡏\t嗹\n𪡛\t㗿\n𪡞\t嘳\n𪡺\t𡃄\n𪢌\t㘓\n𪢐\t𡃤\n𪢒\t𡂡\n𪢕\t嚽\n𪢖\t𡅯\n𪢠\t囒\n𪢮\t圞\n𪢸\t墲\n𪣆\t埬\n𪣒\t堚\n𪣻\t塿\n𪤄\t𡓁\n𪤚\t壣\n𪥠\t𧹈\n𪥫\t孇\n𪥰\t嬣\n𪥿\t嬻\n𪧀\t孾\n𪧘\t寠\n𪨊\t㞞\n𪨗\t屩\n𪨧\t崙\n𪨩\t𡸗\n𪨶\t輋\n𪨷\t巗\n𪨹\t𡹬\n𪩇\t㟺\n𪩎\t巊\n𪩘\t巘\n𪩛\t𡿖\n𪩷\t幝\n𪩸\t幩\n𪪏\t廬\n𪪑\t㢗\n𪪞\t廧\n𪪴\t𢍰\n𪪼\t彃\n𪫌\t徿\n𪫡\t𢤩\n𪫷\t㦞\n𪫺\t憸\n𪬚\t𢣐\n𪬯\t𢤿\n𪭝\t𢯷\n𪭢\t摐\n𪭧\t擟\n𪭯\t𢶒\n𪭵\t掚\n𪭾\t撊\n𪮃\t㨻\n𪮋\t㩋\n𪮖\t撧\n𪮳\t𢺳\n𪮶\t攋\n𪯋\t㪎\n𪰶\t曊\n𪱥\t膹\n𪱷\t梖\n𪲎\t櫅\n𪲔\t欐\n𪲛\t檵\n𪲮\t櫠\n𪳍\t欇\n𪳗\t𣜬\n𪴙\t欑\n𪵑\t毊\n𪵣\t霼\n𪵱\t濿\n𪶄\t溡\n𪶒\t𤄷\n𪶮\t𣽏\n𪷍\t㵾\n𪷽\t灒\n𪸕\t熂\n𪸩\t煇\n𪹀\t𤑹\n𪹠\t𤓌\n𪹳\t爥\n𪹹\t𤒻\n𪺣\t𤘀\n𪺪\t𤜆\n𪺭\t犞\n𪺷\t獊\n𪺸\t𤠮\n𪺻\t㺜\n𪺽\t猌\n𪻐\t瑽\n𪻨\t瓄\n𪻲\t瑻\n𪻺\t璝\n𪼋\t㻶\n𪼴\t𤬅\n𪽈\t畼\n𪽝\t𤳷\n𪽪\t痮\n𪽭\t𤷃\n𪽮\t㿖\n𪽴\t𤺔\n𪽷\t瘱\n𪾔\t盨\n𪾢\t睍\n𪾣\t眝\n𪾦\t矑\n𪾸\t矉\n𪿊\t𥏝\n𪿞\t𥖲\n𪿫\t礮\n𪿵\t𥗇\n𫀌\t𥜰\n𫀓\t𥜐\n𫀨\t䅐\n";

/// Part 4 of the text.
pub const ST_CHARACTERS_4: &'static str = "𫀬\t䅳\n𫀮\t𥢷\n𫁂\t䆉\n𫁟\t竱\n𫁡\t鴗\n𫁱\t𥶽\n𫁲\t䉑\n𫁳\t𥯤\n𫁷\t䉶\n𫁺\t𥴼\n𫂃\t簢\n𫂆\t簂\n𫂈\t䉬\n𫂖\t𥴨\n𫂿\t𥻦\n𫃗\t𩏷\n𫄙\t糺\n𫄚\t䊺\n𫄛\t紟\n𫄜\t䋃\n𫄝\t𥾯\n𫄞\t䋔\n𫄟\t絁\n𫄠\t絙\n𫄡\t絧\n𫄢\t絥\n𫄣\t繷\n𫄤\t繨\n𫄥\t纚\n𫄦\t𦀖\n𫄧\t綖\n𫄨\t絺\n𫄩\t䋦\n𫄪\t𦅇\n𫄫\t綟\n𫄬\t緤\n𫄭\t緮\n𫄮\t䋼\n𫄯\t𦃩\n𫄰\t縍\n𫄱\t繬\n𫄲\t縸\n𫄳\t縰\n𫄴\t繂\n𫄵\t𦅈\n𫄶\t繈\n𫄷\t繶\n𫄸\t纁\n𫄹\t纗\n𫅅\t䍤\n𫅗\t羵\n𫅥\t𦒀\n𫅭\t䎙\n𫅼\t𦔖\n𫆏\t聻\n𫆝\t𦟼\n𫆫\t𦡝\n𫇘\t𦧺\n𫇛\t艣\n𫇪\t𦱌\n𫇭\t蒍\n𫇴\t蒭\n𫇽\t蕽\n𫈉\t蕳\n𫈎\t葝\n𫈟\t蔯\n𫈵\t蕝\n𫉁\t薆\n𫉄\t藷\n𫊪\t䗅\n𫊮\t蠦\n𫊸\t蟜\n𫊹\t𧒯\n𫊻\t蟳\n𫋇\t蟂\n𫋌\t蟘\n𫋲\t䙔\n𫋷\t襗\n𫋹\t襓\n𫋻\t襘\n𫌀\t襀\n𫌇\t襵\n𫌋\t𧞫\n𫌨\t覼\n𫌪\t覛\n𫌫\t𧡴\n𫌬\t𧢄\n𫌭\t覹\n𫌯\t䚩\n𫍐\t𧭹\n𫍙\t訑\n𫍚\t訞\n𫍛\t訜\n𫍜\t詓\n𫍝\t諫\n𫍞\t𧦝\n𫍟\t𧦧\n𫍠\t䛄\n𫍡\t詑\n𫍢\t譊\n𫍣\t詷\n𫍤\t譑\n𫍥\t誂\n𫍦\t譨\n𫍧\t誺\n𫍨\t誫\n𫍩\t諣\n𫍪\t誋\n𫍫\t䛳\n𫍬\t誷\n𫍭\t𧩕\n𫍮\t誳\n𫍯\t諴\n𫍰\t諰\n𫍱\t諯\n𫍲\t謏\n𫍳\t諥\n𫍴\t謱\n𫍵\t謸\n𫍶\t𧩼\n𫍷\t謉\n𫍸\t謆\n𫍹\t謯\n𫍺\t𧫝\n𫍻\t譆\n𫍼\t𧬤\n𫍽\t譞\n𫍾\t𧭈\n𫍿\t譾\n𫎆\t豵\n𫎌\t貗\n𫎦\t贚\n𫎧\t䝭\n𫎨\t𧸘\n𫎩\t賝\n𫎪\t䞋\n𫎫\t贉\n𫎬\t贑\n𫎭\t䞓\n𫎱\t䟐\n𫎳\t䟆\n𫎸\t𧽯\n𫎺\t䟃\n𫏃\t䠆\n𫏆\t蹳\n𫏋\t蹻\n𫏌\t𨂐\n𫏐\t蹔\n𫏑\t𨇽\n𫏕\t𨆪\n𫏞\t𨇰\n𫏨\t𨇤\n𫐄\t軏\n𫐅\t軕\n𫐆\t轣\n𫐇\t軜\n𫐈\t軷\n𫐉\t軨\n𫐊\t軬\n𫐋\t𨎌\n𫐌\t軿\n𫐍\t𨌈\n𫐎\t輢\n𫐏\t輖\n𫐐\t輗\n𫐑\t輨\n𫐒\t輷\n𫐓\t輮\n𫐔\t𨍰\n𫐕\t轊\n𫐖\t轇\n𫐗\t轐\n𫐘\t轗\n𫐙\t轠\n𫐷\t遱\n𫑘\t鄟\n𫑡\t鄳\n𫑷\t醶\n𫓥\t釟\n𫓦\t釨\n𫓧\t鈇\n𫓨\t鈛\n𫓩\t鏦\n𫓪\t鈆\n𫓫\t𨥟\n𫓬\t鉔\n𫓭\t鉠\n𫓮\t𨪕\n𫓯\t銈\n𫓰\t銊\n𫓱\t鐈\n𫓲\t銁\n𫓳\t𨰋\n𫓴\t鉾\n𫓵\t鋠\n𫓶\t鋗\n𫓷\t𫒡\n𫓸\t錽\n𫓹\t錤\n𫓺\t鐪\n𫓻\t錜\n𫓼\t𨨛\n𫓽\t錝\n𫓾\t錥\n𫓿\t𨨢\n𫔀\t鍊\n𫔁\t鐼\n𫔂\t鍉\n𫔃\t𨰲\n𫔄\t鍒\n𫔅\t鎍\n𫔆\t䥯\n𫔇\t鎞\n𫔈\t鎙\n𫔉\t𨰃\n𫔊\t鏥\n𫔋\t䥗\n𫔌\t鏾\n𫔍\t鐇\n𫔎\t鐍\n𫔏\t𨬖\n𫔐\t𨭸\n𫔑\t𨭖\n𫔒\t𨮳\n𫔓\t𨯟\n𫔔\t鑴\n𫔕\t𨰥\n𫔖\t𨲳\n𫔭\t開\n𫔮\t閒\n𫔯\t閗\n𫔰\t閞\n𫔲\t𨴹\n𫔴\t閵\n𫔵\t䦯\n𫔶\t闑\n𫔽\t𨼳\n𫕚\t𩀨\n𫕥\t霣\n𫕨\t𩅙\n𫖃\t靧\n𫖅\t䪊\n𫖇\t鞾\n𫖑\t𩎖\n𫖒\t韠\n𫖓\t𩏂\n𫖔\t韛\n𫖕\t韝\n𫖖\t𩏠\n𫖪\t𩑔\n𫖫\t䪴\n𫖬\t䪾\n𫖭\t𩒎\n𫖮\t顗\n𫖯\t頫\n𫖰\t䫂\n𫖱\t䫀\n𫖲\t䫟\n𫖳\t頵\n𫖴\t𩔳\n𫖵\t𩓥\n𫖶\t顅\n𫖷\t𩔑\n𫖸\t願\n𫖹\t顣\n𫖺\t䫶\n𫗇\t䫻\n𫗈\t𩗓\n𫗉\t𩗴\n𫗊\t䬓\n𫗋\t飋\n𫗚\t𩟗\n𫗞\t飦\n𫗟\t䬧\n𫗠\t餦\n𫗡\t𩚩\n𫗢\t飵\n𫗣\t飶\n𫗤\t𩛌\n𫗥\t餫\n𫗦\t餔\n𫗧\t餗\n𫗨\t𩛡\n𫗩\t饠\n𫗪\t餧\n𫗫\t餬\n𫗬\t餪\n𫗭\t餵\n𫗮\t餭\n𫗯\t餱\n𫗰\t䭔\n𫗱\t䭑\n𫗳\t𩝽\n𫗴\t饘\n𫗵\t饟\n𫘛\t馯\n𫘜\t馼\n𫘝\t駃\n𫘞\t駞\n𫘟\t駊\n𫘠\t駤\n𫘡\t駫\n𫘣\t駻\n𫘤\t騃\n𫘥\t騉\n𫘦\t騊\n𫘧\t騄\n𫘨\t騠\n𫘩\t騜\n𫘪\t騵\n𫘫\t騴\n𫘬\t騱\n𫘭\t騻\n𫘮\t䮰\n𫘯\t驓\n𫘰\t驙\n𫘱\t驨\n𫘽\t鬠\n𫙂\t𩯁\n𫚈\t鱮\n𫚉\t魟\n𫚊\t鰑\n𫚋\t鱄\n𫚌\t魦\n𫚍\t魵\n𫚎\t𩶁\n𫚏\t䱁\n𫚐\t䱀\n𫚑\t鮅\n𫚒\t鮄\n𫚓\t鮤\n𫚔\t鮰\n𫚕\t鰤\n𫚖\t鮆\n𫚗\t鮯\n𫚘\t𩻮\n𫚙\t鯆\n𫚚\t鮿\n𫚛\t鮵\n𫚜\t䲅\n𫚝\t𩸄\n𫚞\t鯬\n𫚟\t𩸡\n𫚠\t䱧\n𫚡\t鯞\n𫚢\t鰋\n𫚣\t鯾\n𫚤\t鰦\n𫚥\t鰕\n𫚦\t鰫\n𫚧\t鰽\n𫚨\t𩻗\n𫚩\t𩻬\n𫚪\t鱊\n𫚫\t鱢\n𫚬\t𩼶\n𫚭\t鱲\n𫛚\t鳽\n𫛛\t鳷\n𫛜\t鴀\n𫛝\t鴅\n𫛞\t鴃\n𫛟\t鸗\n𫛠\t𩿤\n𫛡\t鴔\n𫛢\t鸋\n𫛣\t鴥\n𫛤\t鴐\n𫛥\t鵊\n𫛦\t鴮\n𫛧\t𪀖\n𫛨\t鵧\n𫛩\t鴳\n𫛪\t鴽\n𫛫\t鶰\n𫛬\t䳜\n𫛭\t鵟\n𫛮\t䳤\n𫛯\t鶭\n𫛰\t䳢\n𫛱\t鵫\n𫛲\t鵰\n𫛳\t鵩\n𫛴\t鷤\n𫛵\t鶌\n𫛶\t鶒\n𫛷\t鶦\n𫛸\t鶗\n𫛹\t𪃧\n𫛺\t䳧\n𫛻\t𪃒\n𫛼\t䳫\n𫛽\t鷅\n𫛾\t𪆷\n𫜀\t鷐\n𫜁\t鷩\n𫜂\t𪅂\n𫜃\t鷣\n𫜄\t鷷\n𫜅\t䴋\n𫜊\t𪉸\n𫜑\t麷\n𫜒\t䴱\n𫜓\t𪌭\n𫜔\t䴽\n𫜕\t𪍠\n𫜙\t䵴\n𫜟\t𪓰\n𫜨\t䶕\n𫜩\t齧\n𫜪\t齩\n𫜫\t𫜦\n𫜬\t齰\n𫜭\t齭\n𫜮\t齴\n𫜯\t𪙏\n𫜰\t齾\n𫜲\t龓\n𫜳\t䶲\n𫝈\t㑮\n𫝋\t𠐊\n𫝦\t㛝\n𫝧\t㜐\n𫝨\t媈\n𫝩\t嬦\n𫝪\t𡟫\n𫝫\t婡\n𫝬\t嬇\n𫝭\t孆\n𫝮\t孄\n𫝵\t嶹\n𫞅\t𦠅\n𫞗\t潣\n𫞚\t澬\n𫞛\t㶆\n𫞝\t灍\n𫞠\t爧\n𫞡\t爃\n𫞢\t𤛱\n𫞣\t㹽\n𫞥\t珼\n𫞦\t璾\n𫞧\t𤩂\n𫞨\t璼\n𫞩\t璊\n𫞷\t𥢶\n𫟃\t絍\n𫟄\t綋\n𫟅\t綡\n𫟆\t緟\n𫟇\t𦆲\n𫟑\t䖅\n𫟕\t䕤\n𫟞\t訨\n𫟟\t詊\n𫟠\t譂\n𫟡\t誴\n𫟢\t䜖\n𫟤\t䡐\n𫟥\t䡩\n𫟦\t䡵\n𫟫\t𨞺\n𫟬\t𨟊\n𫟲\t釚\n𫟳\t釲\n𫟴\t鈖\n𫟵\t鈗\n𫟶\t銏\n𫟷\t鉝\n𫟸\t鉽\n𫟹\t鉷\n𫟺\t䤤\n𫟻\t銂\n𫟼\t鐽\n𫟽\t𨧰\n𫟾\t𨩰\n𫟿\t鎈\n𫠀\t䥄\n𫠁\t鑉\n𫠂\t閝\n𫠅\t韚\n𫠆\t頍\n𫠇\t𩖰\n𫠈\t䫾\n𫠊\t䮄\n𫠋\t騼\n𫠌\t𩦠\n𫠏\t𩵦\n𫠐\t魽\n𫠑\t䱸\n𫠒\t鱆\n𫠖\t𩿅\n𫠜\t齯\n𫢸\t僤\n𫧃\t𣍐\n𫧮\t𪋿\n𫫇\t噁\n𫬐\t㘔\n𫭟\t塸\n𫭢\t埨\n𫭼\t𡑍\n𫮃\t墠\n𫰛\t娙\n𫵷\t㠣\n𫶇\t嵽\n𫷷\t廞\n𫸩\t彄\n𬀩\t暐\n𬀪\t晛\n𬂩\t梜\n𬃊\t櫍\n𬇕\t澫\n𬇙\t浿\n𬇹\t漍\n𬉼\t熰\n𬊈\t燖\n𬊤\t燀\n𬍛\t瓅\n𬍡\t璗\n𬍤\t璕\n𬒈\t礐\n𬒗\t𥗽\n𬕂\t篢\n𬘓\t紃\n𬘘\t紞\n𬘡\t絪\n𬘩\t綎\n𬘫\t綄\n𬘬\t綪\n𬘭\t綝\n𬘯\t綧\n𬙂\t縯\n𬙊\t纆\n𬙋\t纕\n𬜬\t蔄\n𬜯\t䓣\n𬞟\t蘋\n𬟁\t虉\n𬟽\t蝀\n𬣙\t訏\n𬣞\t詝\n𬣡\t諓\n𬣳\t詪\n𬤇\t諲\n𬤊\t諟\n𬤝\t譓\n𬨂\t軝\n𬨎\t輶\n𬩽\t鄩\n𬪩\t醲\n𬬩\t釴\n𬬭\t錀\n𬬮\t鋹\n𬬱\t釿\n𬬸\t鉥\n𬬹\t鉮\n𬬻\t鑪\n𬬿\t鉊\n𬭁\t鉧\n𬭊\t𨧀\n𬭎\t鋐\n𬭚\t錞\n𬭛\t𨨏\n𬭤\t鍭\n𬭩\t鎓\n𬭬\t鏏\n𬭭\t鏚\n𬭯\t䥕\n𬭳\t𨭎\n𬭶\t𨭆\n𬭸\t鏻\n𬭼\t鐩\n𬮱\t闉\n𬮿\t隑\n𬯀\t隮\n𬯎\t隤\n𬱖\t頔\n𬱟\t頠\n𬳵\t駓\n𬳶\t駉\n𬳽\t駪\n𬳿\t駼\n𬴂\t騑\n𬴃\t騞\n𬴊\t驎\n𬶋\t鮈\n𬶍\t鮀\n𬶏\t鮠\n𬶐\t鮡\n𬶟\t鯻\n𬶠\t鰊\n𬶨\t鱀\n𬶭\t鰶\n𬶮\t鱚\n𬷕\t鵏\n𬸘\t鶠\n𬸚\t鸑\n𬸣\t鶱\n𬸦\t鷟\n𬸪\t鷭\n𬸯\t鷿\n𬹼\t齘\n𬺈\t齮\n𬺓\t齼\n𰬸\t繐\n𰰨\t菕\n𰶎\t譅\n𰻝\t𰻞\n𰾄\t鋂\n𰾭\t鑀\n𱊜\t𪈼\n𣭲\t氄\n";

/// The number of parts of the text.
pub const PARTS: usize = 5;

/// Part `i` of the `STCharacters` text; a later entry for the same source wins.
pub open spec fn part(i: int) -> Seq<char> {
    if i == 0 {
        ST_CHARACTERS_0@
    } else if i == 1 {
        ST_CHARACTERS_1@
    } else if i == 2 {
        ST_CHARACTERS_2@
    } else if i == 3 {
        ST_CHARACTERS_3@
    } else if i == 4 {
        ST_CHARACTERS_4@
    } else {
        Seq::empty()
    }
}

/// Part `i` of the text.
pub fn part_exec(i: usize) -> (r: &'static str)
    requires
        i < PARTS,
    ensures
        r@ == part(i as int),
{
    match i {
        0 => ST_CHARACTERS_0,
        1 => ST_CHARACTERS_1,
        2 => ST_CHARACTERS_2,
        3 => ST_CHARACTERS_3,
        4 => ST_CHARACTERS_4,
        _ => ST_CHARACTERS_0,
    }
}

} // verus!
