//! Bundled `TSCharacters` dictionary: entries `source<TAB>replacement`, one per line.

use vstd::prelude::*;

verus! {

/// Part 0 of the text.
pub const TS_CHARACTERS_0: &'static str = "㑮\t𫝈\n㑯\t㑔\n㑳\t㑇\n㑶\t㐹\n㒓\t𠉂\n㓄\t𪠟\n㓨\t刾\n㔋\t𪟎\n㖮\t𪠵\n㗲\t𠵾\n㗿\t𪡛\n㘉\t𠰱\n㘓\t𪢌\n㘔\t𫬐\n㘚\t㘎\n㛝\t𫝦\n㜄\t㚯\n㜏\t㛣\n㜐\t𫝧\n㜗\t𡞋\n㜢\t𡞱\n㜷\t𡝠\n㞞\t𪨊\n㟺\t𪩇\n㠏\t㟆\n㠣\t𫵷\n㢗\t𪪑\n㢝\t𢋈\n㥮\t㤘\n㦎\t𢛯\n㦛\t𢗓\n㦞\t𪫷\n㨻\t𪮃\n㩋\t𪮋\n㩜\t㨫\n㩳\t㧐\n㩵\t擜\n㪎\t𪯋\n㯤\t𣘐\n㰙\t𣗙\n㵗\t𣳆\n㵾\t𪷍\n㶆\t𫞛\n㷍\t𤆢\n㷿\t𤈷\n㸇\t𤎺\n㹽\t𫞣\n㺏\t𤠋\n㺜\t𪺻\n㻶\t𪼋\n㿖\t𪽮\n㿗\t𤻊\n㿧\t𤽯\n䀉\t𥁢\n䀹\t𥅴\n䁪\t𥇢\n䁻\t䀥\n䂎\t𥎝\n䃮\t鿎\n䅐\t𫀨\n䅳\t𫀬\n䆉\t𫁂\n䉑\t𫁲\n䉙\t𥬀\n䉬\t𫂈\n䉲\t𥮜\n䉶\t𫁷\n䊭\t𥺅\n䊷\t䌶\n䊺\t𫄚\n䋃\t𫄜\n䋔\t𫄞\n䋙\t䌺\n䋚\t䌻\n䋦\t𫄩\n䋹\t䌿\n䋻\t䌾\n䋼\t𫄮\n䋿\t𦈓\n䌈\t𦈖\n䌋\t𦈘\n䌖\t𦈜\n䌝\t𦈟\n䌟\t𦈞\n䌥\t𦈠\n䌰\t𦈙\n䍤\t𫅅\n䍦\t䍠\n䍽\t𦍠\n䎙\t𫅭\n䎱\t䎬\n䓣\t𬜯\n䕤\t𫟕\n䕳\t𦰴\n䖅\t𫟑\n䗅\t𫊪\n䗿\t𧉞\n䙔\t𫋲\n䙡\t䙌\n䙱\t𧜭\n䚩\t𫌯\n䛄\t𫍠\n䛳\t𫍫\n䜀\t䜧\n䜖\t𫟢\n䝭\t𫎧\n䝻\t𧹕\n䝼\t䞍\n䞈\t𧹑\n䞋\t𫎪\n䞓\t𫎭\n䟃\t𫎺\n䟆\t𫎳\n䟐\t𫎱\n䠆\t𫏃\n䠱\t𨅛\n䡐\t𫟤\n䡩\t𫟥\n䡵\t𫟦\n䢨\t𨑹\n䤤\t𫟺\n䥄\t𫠀\n䥇\t䦂\n䥑\t鿏\n䥕\t𬭯\n䥗\t𫔋\n䥩\t𨱖\n䥯\t𫔆\n䥱\t䥾\n䦘\t𨸄\n䦛\t䦶\n䦟\t䦷\n䦯\t𫔵\n䦳\t𨷿\n䧢\t𨸟\n䪊\t𫖅\n䪏\t𩏼\n䪗\t𩐀\n䪘\t𩏿\n䪴\t𫖫\n䪾\t𫖬\n䫀\t𫖱\n䫂\t𫖰\n䫟\t𫖲\n䫴\t𩖗\n䫶\t𫖺\n䫻\t𫗇\n䫾\t𫠈\n䬓\t𫗊\n䬘\t𩙮\n䬝\t𩙯\n䬞\t𩙧\n䬧\t𫗟\n䭀\t𩠇\n䭃\t𩠈\n䭑\t𫗱\n䭔\t𫗰\n䭿\t𩧭\n䮄\t𫠊\n䮝\t𩧰\n䮞\t𩨁\n䮠\t𩧿\n䮫\t𩨇\n䮰\t𫘮\n䮳\t𩨏\n䮾\t𩧪\n䯀\t䯅\n䯤\t𩩈\n䰾\t鲃\n䱀\t𫚐\n䱁\t𫚏\n䱙\t𩾈\n䱧\t𫚠\n䱬\t𩾊\n䱰\t𩾋\n䱷\t䲣\n䱸\t𫠑\n䱽\t䲝\n䲁\t鳚\n䲅\t𫚜\n䲖\t𩾂\n䲘\t鳤\n䲰\t𪉂\n䳜\t𫛬\n䳢\t𫛰\n䳤\t𫛮\n䳧\t𫛺\n䳫\t𫛼\n䴉\t鹮\n䴋\t𫜅\n䴬\t𪎈\n䴱\t𫜒\n䴴\t𪎋\n䴽\t𫜔\n䵳\t𪑅\n䵴\t𫜙\n䶕\t𫜨\n䶲\t𫜳\n丟\t丢\n並\t并\n么\t么\n乾\t干\n亂\t乱\n亙\t亘\n亞\t亚\n仝\t仝\n佇\t伫\n佈\t布\n佔\t占\n併\t并\n來\t来\n侖\t仑\n侶\t侣\n侷\t局\n俁\t俣\n係\t系\n俓\t𠇹\n俔\t伣\n俠\t侠\n俥\t伡\n俬\t私\n俱\t俱\n倀\t伥\n倆\t俩\n倈\t俫\n倉\t仓\n個\t个\n們\t们\n倖\t幸\n倫\t伦\n倲\t㑈\n偉\t伟\n偑\t㐽\n側\t侧\n偵\t侦\n偽\t伪\n傌\t㐷\n傑\t杰\n傖\t伧\n傘\t伞\n備\t备\n傢\t家\n傭\t佣\n傯\t偬\n傳\t传\n傴\t伛\n債\t债\n傷\t伤\n傾\t倾\n僂\t偻\n僅\t仅\n僉\t佥\n像\t像\n僑\t侨\n僕\t仆\n僞\t伪\n僤\t𫢸\n僥\t侥\n僨\t偾\n僱\t雇\n價\t价\n儀\t仪\n儁\t俊\n儂\t侬\n億\t亿\n儈\t侩\n儉\t俭\n儎\t傤\n儐\t傧\n儔\t俦\n儕\t侪\n儘\t尽\n償\t偿\n儣\t𠆲\n優\t优\n儭\t𠋆\n儲\t储\n儷\t俪\n儸\t㑩\n儺\t傩\n儻\t傥\n儼\t俨\n兇\t凶\n兌\t兑\n兒\t儿\n兗\t兖\n內\t内\n兩\t两\n冊\t册\n冑\t胄\n冪\t幂\n凈\t净\n凍\t冻\n凙\t𪞝\n凜\t凛\n凱\t凯\n別\t别\n刪\t删\n剄\t刭\n則\t则\n剋\t克\n剎\t刹\n剗\t刬\n剛\t刚\n剝\t剥\n剮\t剐\n剴\t剀\n創\t创\n剷\t铲\n剾\t𠛅\n劃\t划\n劄\t札\n劇\t剧\n劉\t刘\n劊\t刽\n劌\t刿\n劍\t剑\n劏\t㓥\n劑\t剂\n劚\t㔉\n勁\t劲\n勑\t𠡠\n動\t动\n務\t务\n勛\t勋\n勝\t胜\n勞\t劳\n勢\t势\n勣\t𪟝\n勩\t勚\n勱\t劢\n勳\t勋\n勵\t励\n勸\t劝\n勻\t匀\n匭\t匦\n匯\t汇\n匱\t匮\n區\t区\n協\t协\n卹\t恤\n卻\t却\n卽\t即\n厙\t厍\n厠\t厕\n厤\t历\n厭\t厌\n厲\t厉\n厴\t厣\n參\t参\n叄\t叁\n叚\t叚\n叢\t丛\n吒\t咤\n吳\t吴\n吶\t呐\n呂\t吕\n咼\t呙\n員\t员\n哩\t哩\n哯\t𠯟\n唄\t呗\n唓\t𪠳\n唸\t念\n問\t问\n啓\t启\n啞\t哑\n啟\t启\n啢\t唡\n喆\t喆\n喎\t㖞\n喚\t唤\n喪\t丧\n喫\t吃\n喬\t乔\n單\t单\n喲\t哟\n嗆\t呛\n嗇\t啬\n嗊\t唝\n嗎\t吗\n嗚\t呜\n嗩\t唢\n嗰\t𠮶\n嗶\t哔\n嗹\t𪡏\n嘆\t叹\n嘍\t喽\n嘓\t啯\n嘔\t呕\n嘖\t啧\n嘗\t尝\n嘜\t唛\n嘩\t哗\n嘪\t𪡃\n嘮\t唠\n嘯\t啸\n嘰\t叽\n嘳\t𪡞\n嘵\t哓\n嘸\t呒\n嘺\t𪡀\n嘽\t啴\n噁\t恶\n噅\t𠯠\n噓\t嘘\n噚\t㖊\n噝\t咝\n噞\t𪡋\n噠\t哒\n噥\t哝\n噦\t哕\n噯\t嗳\n噲\t哙\n噴\t喷\n噸\t吨\n噹\t当\n嚀\t咛\n嚇\t吓\n嚌\t哜\n嚐\t尝\n嚕\t噜\n嚙\t啮\n嚛\t𪠸\n嚥\t咽\n嚦\t呖\n嚧\t𠰷\n嚨\t咙\n嚮\t向\n嚲\t亸\n嚳\t喾\n嚴\t严\n嚶\t嘤\n嚽\t𪢕\n囀\t啭\n囁\t嗫\n囂\t嚣\n囃\t𠱞\n囅\t冁\n囈\t呓\n囉\t啰\n囌\t苏\n囑\t嘱\n囒\t𪢠\n囪\t囱\n圇\t囵\n國\t国\n圍\t围\n園\t园\n圓\t圆\n圖\t图\n團\t团\n圞\t𪢮\n坏\t坏\n垻\t坝\n埡\t垭\n埨\t𫭢\n埬\t𪣆\n埰\t采\n執\t执\n堃\t堃\n堅\t坚\n堊\t垩\n堖\t垴\n堚\t𪣒\n堝\t埚\n堯\t尧\n報\t报\n場\t场\n塊\t块\n塋\t茔\n塏\t垲\n塒\t埘\n塗\t涂\n塚\t冢\n塢\t坞\n塤\t埙\n塵\t尘\n塸\t𫭟\n塹\t堑\n塿\t𪣻\n墊\t垫\n墜\t坠\n墠\t𫮃\n墮\t堕\n墰\t坛\n墲\t𪢸\n墳\t坟\n墶\t垯\n墻\t墙\n墾\t垦\n壇\t坛\n壈\t𡒄\n壋\t垱\n壎\t埙\n壓\t压\n壗\t𡋤\n壘\t垒\n壙\t圹\n壚\t垆\n壜\t坛\n壞\t坏\n壟\t垄\n壠\t垅\n壢\t坜\n壣\t𪤚\n壩\t坝\n壪\t塆\n壯\t壮\n壺\t壶\n壼\t壸\n壽\t寿\n夠\t够\n夢\t梦\n夥\t伙\n夾\t夹\n奐\t奂\n奧\t奥\n奩\t奁\n奪\t夺\n奬\t奖\n奮\t奋\n奼\t姹\n妝\t妆\n姍\t姗\n姦\t奸\n娙\t𫰛\n娛\t娱\n婁\t娄\n婡\t𫝫\n婦\t妇\n婭\t娅\n媈\t𫝨\n媧\t娲\n媯\t妫\n媰\t㛀\n媼\t媪\n媽\t妈\n嫋\t袅\n嫗\t妪\n嫵\t妩\n嫺\t娴\n嫻\t娴\n嫿\t婳\n嬀\t妫\n嬃\t媭\n嬇\t𫝬\n嬈\t娆\n嬋\t婵\n嬌\t娇\n嬙\t嫱\n嬡\t嫒\n嬣\t𪥰\n嬤\t嬷\n嬦\t𫝩\n嬪\t嫔\n嬰\t婴\n嬸\t婶\n嬻\t𪥿\n孃\t娘\n孄\t𫝮\n孆\t𫝭\n孇\t𪥫\n孋\t㛤\n孌\t娈\n孎\t𡠟\n孫\t孙\n學\t学\n孻\t𡥧\n孾\t𪧀\n孿\t孪\n宮\t宫\n寀\t采\n寠\t𪧘\n寢\t寝\n實\t实\n寧\t宁\n審\t审\n寫\t写\n寬\t宽\n寵\t宠\n寶\t宝\n將\t将\n專\t专\n尋\t寻\n對\t对\n導\t导\n尷\t尴\n屆\t届\n屍\t尸\n屓\t屃\n屜\t屉\n屢\t屡\n層\t层\n屨\t屦\n屩\t𪨗\n屬\t属\n岡\t冈\n峯\t峰\n峴\t岘\n島\t岛\n峽\t峡\n崍\t崃\n崑\t昆\n崗\t岗\n崙\t仑\n崢\t峥\n崬\t岽\n嵐\t岚\n嵗\t岁\n嵼\t𡶴\n嵽\t𫶇\n嵾\t㟥\n嶁\t嵝\n嶄\t崭\n嶇\t岖\n嶈\t𡺃\n嶔\t嵚\n嶗\t崂\n嶘\t𡺄\n嶠\t峤\n嶢\t峣\n嶧\t峄\n嶨\t峃\n嶮\t崄\n嶸\t嵘\n嶹\t𫝵\n嶺\t岭\n嶼\t屿\n嶽\t岳\n巊\t𪩎\n巋\t岿\n巒\t峦\n巔\t巅\n巖\t岩\n巗\t𪨷\n巘\t𪩘\n巰\t巯\n巹\t卺\n帥\t帅\n師\t师\n帳\t帐\n帶\t带\n幀\t帧\n幃\t帏\n幓\t㡎\n幗\t帼\n幘\t帻\n幝\t𪩷\n幟\t帜\n幣\t币\n幩\t𪩸\n幫\t帮\n幬\t帱\n幹\t干\n幾\t几\n庫\t库\n廁\t厕\n廂\t厢\n廄\t厩\n廈\t厦\n廎\t庼\n廕\t荫\n廚\t厨\n廝\t厮\n廞\t𫷷\n廟\t庙\n廠\t厂\n廡\t庑\n廢\t废\n廣\t广\n廧\t𪪞\n廩\t廪\n廬\t庐\n廳\t厅\n弒\t弑\n弔\t吊\n弳\t弪\n張\t张\n強\t强\n彃\t𪪼\n彄\t𫸩\n彆\t别\n彈\t弹\n彌\t弥\n彎\t弯\n彔\t录\n彙\t汇\n彠\t彟\n彥\t彦\n彫\t雕\n彲\t彨\n彷\t彷\n彿\t佛\n後\t后\n徑\t径\n從\t从\n徠\t徕\n復\t复\n徵\t征\n徹\t彻\n徿\t𪫌\n恆\t恒\n恥\t耻\n悅\t悦\n悞\t悮\n悵\t怅\n悶\t闷\n悽\t凄\n惡\t恶\n惱\t恼\n惲\t恽\n惻\t恻\n愛\t爱\n愜\t惬\n愨\t悫\n愴\t怆\n愷\t恺\n愻\t𢙏\n愾\t忾\n慄\t栗\n態\t态\n慍\t愠\n慘\t惨\n慚\t惭\n慟\t恸\n慣\t惯\n慤\t悫\n慪\t怄\n慫\t怂\n慮\t虑\n慳\t悭\n慶\t庆\n慺\t㥪\n慼\t戚\n慾\t欲\n憂\t忧\n憊\t惫\n憐\t怜\n憑\t凭\n憒\t愦\n憖\t慭\n憚\t惮\n憢\t𢙒\n憤\t愤\n憫\t悯\n憮\t怃\n憲\t宪\n憶\t忆\n憸\t𪫺\n憹\t𢙐\n懀\t𢙓\n懇\t恳\n應\t应\n懌\t怿\n懍\t懔\n懎\t𢠁\n懞\t蒙\n懟\t怼\n懣\t懑\n懤\t㤽\n懨\t恹\n懲\t惩\n懶\t懒\n懷\t怀\n懸\t悬\n懺\t忏\n懼\t惧\n懾\t慑\n戀\t恋\n戇\t戆\n戔\t戋\n戧\t戗\n戩\t戬\n戰\t战\n戱\t戯\n戲\t戏\n戶\t户\n扞\t捍\n拋\t抛\n拚\t拼\n挩\t捝\n挱\t挲\n挾\t挟\n捨\t舍\n捫\t扪\n捱\t挨\n捲\t卷\n掃\t扫\n掄\t抡\n掆\t㧏\n掗\t挜\n掙\t挣\n掚\t𪭵\n掛\t挂\n採\t采\n揀\t拣\n揚\t扬\n換\t换\n揮\t挥\n揯\t搄\n損\t损\n搖\t摇\n搗\t捣\n搧\t扇\n搵\t揾\n搶\t抢\n摋\t𢫬\n摐\t𪭢\n摑\t掴\n摜\t掼\n摟\t搂\n摯\t挚\n摳\t抠\n摶\t抟\n摺\t折\n摻\t掺\n撈\t捞\n撊\t𪭾\n撏\t挦\n撐\t撑\n撓\t挠\n撝\t㧑\n撟\t挢\n撣\t掸\n撥\t拨\n撧\t𪮖\n撫\t抚\n撲\t扑\n撳\t揿\n撻\t挞\n撾\t挝\n撿\t捡\n擁\t拥\n擄\t掳\n擇\t择\n擊\t击\n擋\t挡\n擓\t㧟\n擔\t担\n據\t据\n擟\t𪭧\n擠\t挤\n擡\t抬\n擣\t捣\n";

/// Part 1 of the text.
pub const TS_CHARACTERS_1: &'static str = "擫\t𢬍\n擬\t拟\n擯\t摈\n擰\t拧\n擱\t搁\n擲\t掷\n擴\t扩\n擷\t撷\n擺\t摆\n擻\t擞\n擼\t撸\n擽\t㧰\n擾\t扰\n攄\t摅\n攆\t撵\n攋\t𪮶\n攏\t拢\n攔\t拦\n攖\t撄\n攙\t搀\n攛\t撺\n攜\t携\n攝\t摄\n攢\t攒\n攣\t挛\n攤\t摊\n攪\t搅\n攬\t揽\n敎\t教\n敓\t敚\n敗\t败\n敘\t叙\n敵\t敌\n數\t数\n斂\t敛\n斃\t毙\n斅\t𢽾\n斆\t敩\n斕\t斓\n斬\t斩\n斷\t断\n斸\t𣃁\n於\t于\n旂\t旗\n旣\t既\n昇\t升\n時\t时\n晉\t晋\n晛\t𬀪\n晝\t昼\n暈\t晕\n暉\t晖\n暐\t𬀩\n暘\t旸\n暢\t畅\n暫\t暂\n曄\t晔\n曆\t历\n曇\t昙\n曉\t晓\n曊\t𪰶\n曏\t向\n曖\t暧\n曠\t旷\n曥\t𣆐\n曨\t昽\n曬\t晒\n書\t书\n會\t会\n朥\t𦛨\n朧\t胧\n朮\t术\n東\t东\n枴\t拐\n柵\t栅\n柺\t拐\n査\t查\n桱\t𣐕\n桿\t杆\n梔\t栀\n梖\t𪱷\n梘\t枧\n梜\t𬂩\n條\t条\n梟\t枭\n梲\t棁\n棄\t弃\n棊\t棋\n棖\t枨\n棗\t枣\n棟\t栋\n棡\t㭎\n棧\t栈\n棲\t栖\n棶\t梾\n椀\t椀\n椏\t桠\n椲\t㭏\n楇\t𣒌\n楊\t杨\n楓\t枫\n楨\t桢\n業\t业\n極\t极\n榘\t矩\n榦\t干\n榪\t杩\n榮\t荣\n榲\t榅\n榿\t桤\n構\t构\n槍\t枪\n槓\t杠\n槤\t梿\n槧\t椠\n槨\t椁\n槫\t𣏢\n槮\t椮\n槳\t桨\n槶\t椢\n槼\t椝\n樁\t桩\n樂\t乐\n樅\t枞\n樑\t梁\n樓\t楼\n標\t标\n樞\t枢\n樠\t𣗊\n樢\t㭤\n樣\t样\n樤\t𣔌\n樧\t榝\n樫\t㭴\n樳\t桪\n樸\t朴\n樹\t树\n樺\t桦\n樿\t椫\n橈\t桡\n橋\t桥\n機\t机\n橢\t椭\n橫\t横\n橯\t𣓿\n檁\t檩\n檉\t柽\n檔\t档\n檜\t桧\n檟\t槚\n檢\t检\n檣\t樯\n檭\t𣘴\n檮\t梼\n檯\t台\n檳\t槟\n檵\t𪲛\n檸\t柠\n檻\t槛\n櫃\t柜\n櫅\t𪲎\n櫍\t𬃊\n櫓\t橹\n櫚\t榈\n櫛\t栉\n櫝\t椟\n櫞\t橼\n櫟\t栎\n櫠\t𪲮\n櫥\t橱\n櫧\t槠\n櫨\t栌\n櫪\t枥\n櫫\t橥\n櫬\t榇\n櫱\t蘖\n櫳\t栊\n櫸\t榉\n櫻\t樱\n欄\t栏\n欅\t榉\n欇\t𪳍\n權\t权\n欍\t𣐤\n欏\t椤\n欐\t𪲔\n欑\t𪴙\n欒\t栾\n欓\t𣗋\n欖\t榄\n欘\t𣚚\n欞\t棂\n欽\t钦\n歎\t叹\n歐\t欧\n歟\t欤\n歡\t欢\n歲\t岁\n歷\t历\n歸\t归\n歿\t殁\n殘\t残\n殞\t殒\n殢\t𣨼\n殤\t殇\n殨\t㱮\n殫\t殚\n殭\t僵\n殮\t殓\n殯\t殡\n殰\t㱩\n殲\t歼\n殺\t杀\n殻\t壳\n殼\t壳\n毀\t毁\n毆\t殴\n毊\t𪵑\n毿\t毵\n氂\t牦\n氈\t毡\n氌\t氇\n氣\t气\n氫\t氢\n氬\t氩\n氭\t𣱝\n氳\t氲\n氾\t泛\n汎\t泛\n汙\t污\n決\t决\n沈\t沈\n沒\t没\n沖\t冲\n況\t况\n泝\t溯\n洩\t泄\n洶\t汹\n浹\t浃\n浿\t𬇙\n涇\t泾\n涗\t涚\n涼\t凉\n淒\t凄\n淚\t泪\n淥\t渌\n淨\t净\n淩\t凌\n淪\t沦\n淵\t渊\n淶\t涞\n淺\t浅\n淼\t淼\n渙\t涣\n減\t减\n渢\t沨\n渦\t涡\n測\t测\n渾\t浑\n湊\t凑\n湋\t𣲗\n湞\t浈\n湧\t涌\n湯\t汤\n溈\t沩\n準\t准\n溝\t沟\n溡\t𪶄\n溫\t温\n溮\t浉\n溳\t涢\n溼\t湿\n滄\t沧\n滅\t灭\n滌\t涤\n滎\t荥\n滙\t汇\n滬\t沪\n滯\t滞\n滲\t渗\n滷\t卤\n滸\t浒\n滻\t浐\n滾\t滚\n滿\t满\n漁\t渔\n漊\t溇\n漍\t𬇹\n漚\t沤\n漢\t汉\n漣\t涟\n漬\t渍\n漲\t涨\n漵\t溆\n漸\t渐\n漿\t浆\n潁\t颍\n潑\t泼\n潔\t洁\n潕\t𣲘\n潙\t沩\n潚\t㴋\n潛\t潜\n潣\t𫞗\n潤\t润\n潯\t浔\n潰\t溃\n潷\t滗\n潿\t涠\n澀\t涩\n澂\t澂\n澅\t𣶩\n澆\t浇\n澇\t涝\n澐\t沄\n澗\t涧\n澠\t渑\n澤\t泽\n澦\t滪\n澩\t泶\n澫\t𬇕\n澬\t𫞚\n澮\t浍\n澱\t淀\n澾\t㳠\n濁\t浊\n濃\t浓\n濄\t㳡\n濆\t𣸣\n濕\t湿\n濘\t泞\n濚\t溁\n濛\t蒙\n濜\t浕\n濟\t济\n濤\t涛\n濧\t㳔\n濫\t滥\n濰\t潍\n濱\t滨\n濺\t溅\n濼\t泺\n濾\t滤\n濿\t𪵱\n瀂\t澛\n瀃\t𣽷\n瀅\t滢\n瀆\t渎\n瀇\t㲿\n瀉\t泻\n瀋\t沈\n瀏\t浏\n瀕\t濒\n瀘\t泸\n瀝\t沥\n瀟\t潇\n瀠\t潆\n瀦\t潴\n瀧\t泷\n瀨\t濑\n瀰\t弥\n瀲\t潋\n瀾\t澜\n灃\t沣\n灄\t滠\n灍\t𫞝\n灑\t洒\n灒\t𪷽\n灕\t漓\n灘\t滩\n灙\t𣺼\n灝\t灏\n灡\t㳕\n灣\t湾\n灤\t滦\n灧\t滟\n灩\t滟\n災\t灾\n為\t为\n烏\t乌\n烴\t烃\n無\t无\n煇\t𪸩\n煉\t炼\n煒\t炜\n煙\t烟\n煢\t茕\n煥\t焕\n煩\t烦\n煬\t炀\n煱\t㶽\n熂\t𪸕\n熅\t煴\n熉\t𤈶\n熌\t𤇄\n熒\t荧\n熓\t𤆡\n熗\t炝\n熚\t𤇹\n熡\t𤋏\n熰\t𬉼\n熱\t热\n熲\t颎\n熾\t炽\n燀\t𬊤\n燁\t烨\n燈\t灯\n燉\t炖\n燒\t烧\n燖\t𬊈\n燙\t烫\n燜\t焖\n營\t营\n燦\t灿\n燬\t毁\n燭\t烛\n燴\t烩\n燶\t㶶\n燻\t熏\n燼\t烬\n燾\t焘\n爃\t𫞡\n爄\t𤇃\n爇\t𦶟\n爍\t烁\n爐\t炉\n爖\t𤇭\n爛\t烂\n爥\t𪹳\n爧\t𫞠\n爭\t争\n爲\t为\n爺\t爷\n爾\t尔\n牀\t床\n牆\t墙\n牘\t牍\n牴\t抵\n牽\t牵\n犇\t犇\n犖\t荦\n犛\t牦\n犞\t𪺭\n犢\t犊\n犧\t牺\n狀\t状\n狹\t狭\n狽\t狈\n猌\t𪺽\n猙\t狰\n猶\t犹\n猻\t狲\n獁\t犸\n獃\t呆\n獄\t狱\n獅\t狮\n獊\t𪺷\n獎\t奖\n獨\t独\n獩\t𤞃\n獪\t狯\n獫\t猃\n獮\t狝\n獰\t狞\n獱\t㺍\n獲\t获\n獵\t猎\n獷\t犷\n獸\t兽\n獺\t獭\n獻\t献\n獼\t猕\n玀\t猡\n玁\t𤞤\n珼\t𫞥\n現\t现\n琱\t雕\n琺\t珐\n琿\t珲\n瑋\t玮\n瑒\t玚\n瑣\t琐\n瑤\t瑶\n瑩\t莹\n瑪\t玛\n瑲\t玱\n瑻\t𪻲\n瑽\t𪻐\n璉\t琏\n璊\t𫞩\n璕\t𬍤\n璗\t𬍡\n璝\t𪻺\n璡\t琎\n璣\t玑\n璦\t瑷\n璫\t珰\n璯\t㻅\n環\t环\n璵\t玙\n璸\t瑸\n璼\t𫞨\n璽\t玺\n璾\t𫞦\n璿\t璇\n瓄\t𪻨\n瓅\t𬍛\n瓊\t琼\n瓏\t珑\n瓔\t璎\n瓕\t𤦀\n瓚\t瓒\n瓛\t𤩽\n甌\t瓯\n甕\t瓮\n產\t产\n産\t产\n甦\t甦\n甯\t甯\n畝\t亩\n畢\t毕\n畫\t画\n異\t异\n畵\t画\n當\t当\n畼\t𪽈\n疇\t畴\n疊\t叠\n痙\t痉\n痠\t酸\n痮\t𪽪\n痾\t疴\n瘂\t痖\n瘋\t疯\n瘍\t疡\n瘓\t痪\n瘞\t瘗\n瘡\t疮\n瘧\t疟\n瘮\t瘆\n瘱\t𪽷\n瘲\t疭\n瘺\t瘘\n瘻\t瘘\n療\t疗\n癆\t痨\n癇\t痫\n癉\t瘅\n癐\t𤶊\n癒\t愈\n癘\t疠\n癟\t瘪\n癡\t痴\n癢\t痒\n癤\t疖\n癥\t症\n癧\t疬\n癩\t癞\n癬\t癣\n癭\t瘿\n癮\t瘾\n癰\t痈\n癱\t瘫\n癲\t癫\n發\t发\n皁\t皂\n皚\t皑\n皟\t𤾀\n皰\t疱\n皸\t皲\n皺\t皱\n盃\t杯\n盜\t盗\n盞\t盏\n盡\t尽\n監\t监\n盤\t盘\n盧\t卢\n盨\t𪾔\n盪\t荡\n眝\t𪾣\n眞\t真\n眥\t眦\n眾\t众\n睍\t𪾢\n睏\t困\n睜\t睁\n睞\t睐\n瞘\t眍\n瞜\t䁖\n瞞\t瞒\n瞤\t𥆧\n瞭\t瞭\n瞶\t瞆\n瞼\t睑\n矇\t蒙\n矉\t𪾸\n矑\t𪾦\n矓\t眬\n矚\t瞩\n矯\t矫\n硃\t朱\n硜\t硁\n硤\t硖\n硨\t砗\n硯\t砚\n碕\t埼\n碙\t𥐻\n碩\t硕\n碭\t砀\n碸\t砜\n確\t确\n碼\t码\n碽\t䂵\n磑\t硙\n磚\t砖\n磠\t硵\n磣\t碜\n磧\t碛\n磯\t矶\n磽\t硗\n磾\t䃅\n礄\t硚\n礆\t礆\n礎\t础\n礐\t𬒈\n礒\t𥐟\n礙\t碍\n礦\t矿\n礪\t砺\n礫\t砾\n礬\t矾\n礮\t𪿫\n礱\t砻\n祇\t祇\n祕\t秘\n祿\t禄\n禍\t祸\n禎\t祯\n禕\t祎\n禡\t祃\n禦\t御\n禪\t禅\n禮\t礼\n禰\t祢\n禱\t祷\n禿\t秃\n秈\t籼\n稅\t税\n稈\t秆\n稏\t䅉\n稜\t棱\n稟\t禀\n種\t种\n稱\t称\n穀\t谷\n穇\t䅟\n穌\t稣\n積\t积\n穎\t颖\n穠\t秾\n穡\t穑\n穢\t秽\n穩\t稳\n穫\t获\n穭\t穞\n窩\t窝\n窪\t洼\n窮\t穷\n窯\t窑\n窵\t窎\n窶\t窭\n窺\t窥\n竄\t窜\n竅\t窍\n竇\t窦\n竈\t灶\n竊\t窃\n竚\t𥩟\n竪\t竖\n竱\t𫁟\n競\t竞\n筆\t笔\n筍\t笋\n筦\t筦\n筧\t笕\n筴\t䇲\n箇\t个\n箋\t笺\n箏\t筝\n箚\t札\n節\t节\n範\t范\n築\t筑\n篋\t箧\n篔\t筼\n篘\t𥬠\n篠\t筿\n篢\t𬕂\n篤\t笃\n篩\t筛\n篳\t筚\n篸\t𥮾\n簀\t箦\n簂\t𫂆\n簍\t篓\n簑\t蓑\n簞\t箪\n簡\t简\n簢\t𫂃\n簣\t篑\n簫\t箫\n簹\t筜\n簽\t签\n簾\t帘\n籃\t篮\n籅\t𥫣\n籋\t𥬞\n籌\t筹\n籔\t䉤\n籙\t箓\n籛\t篯\n籜\t箨\n籟\t籁\n籠\t笼\n籤\t签\n籩\t笾\n籪\t簖\n籬\t篱\n籮\t箩\n籲\t吁\n粵\t粤\n糉\t粽\n糝\t糁\n糞\t粪\n糧\t粮\n糰\t团\n糲\t粝\n糴\t籴\n糶\t粜\n糹\t纟\n糺\t𫄙\n糾\t纠\n紀\t纪\n紂\t纣\n紃\t𬘓\n約\t约\n紅\t红\n紆\t纡\n紇\t纥\n紈\t纨\n紉\t纫\n紋\t纹\n納\t纳\n紐\t纽\n紓\t纾\n純\t纯\n紕\t纰\n紖\t纼\n紗\t纱\n紘\t纮\n紙\t纸\n級\t级\n紛\t纷\n紜\t纭\n紝\t纴\n紞\t𬘘\n紟\t𫄛\n紡\t纺\n紬\t䌷\n紮\t扎\n細\t细\n紱\t绂\n紲\t绁\n紳\t绅\n紵\t纻\n紹\t绍\n紺\t绀\n紼\t绋\n紿\t绐\n絀\t绌\n絁\t𫄟\n終\t终\n絃\t弦\n組\t组\n絅\t䌹\n絆\t绊\n絍\t𫟃\n絎\t绗\n結\t结\n絕\t绝\n絙\t𫄠\n絛\t绦\n絜\t絜\n絝\t绔\n絞\t绞\n絡\t络\n絢\t绚\n絥\t𫄢\n給\t给\n絧\t𫄡\n絨\t绒\n絪\t𬘡\n絰\t绖\n統\t统\n絲\t丝\n絳\t绛\n絶\t绝\n絹\t绢\n絺\t𫄨\n綀\t𦈌\n綁\t绑\n綃\t绡\n綄\t𬘫\n綆\t绠\n綇\t𦈋\n綈\t绨\n綉\t绣\n綋\t𫟄\n綌\t绤\n綎\t𬘩\n綏\t绥\n綐\t䌼\n綑\t捆\n經\t经\n綖\t𫄧\n綜\t综\n綝\t𬘭\n綞\t缍\n綟\t𫄫\n綠\t绿\n綡\t𫟅\n綢\t绸\n綣\t绻\n綧\t𬘯\n綪\t𬘬\n綫\t线\n綬\t绶\n維\t维\n綯\t绹\n綰\t绾\n綱\t纲\n網\t网\n綳\t绷\n綴\t缀\n綵\t彩\n綸\t纶\n綹\t绺\n綺\t绮\n綻\t绽\n綽\t绰\n綾\t绫\n綿\t绵\n緄\t绲\n緇\t缁\n緊\t紧\n緋\t绯\n緍\t𦈏\n緑\t绿\n";

/// Part 2 of the text.
pub const TS_CHARACTERS_2: &'static str = "緒\t绪\n緓\t绬\n緔\t绱\n緗\t缃\n緘\t缄\n緙\t缂\n線\t线\n緝\t缉\n緞\t缎\n緟\t𫟆\n締\t缔\n緡\t缗\n緣\t缘\n緤\t𫄬\n緦\t缌\n編\t编\n緩\t缓\n緬\t缅\n緮\t𫄭\n緯\t纬\n緰\t𦈕\n緱\t缑\n緲\t缈\n練\t练\n緶\t缏\n緷\t𦈉\n緸\t𦈑\n緹\t缇\n緻\t致\n緼\t缊\n縈\t萦\n縉\t缙\n縊\t缢\n縋\t缒\n縍\t𫄰\n縎\t𦈔\n縐\t绉\n縑\t缣\n縕\t缊\n縗\t缞\n縛\t缚\n縝\t缜\n縞\t缟\n縟\t缛\n縣\t县\n縧\t绦\n縫\t缝\n縬\t𦈚\n縭\t缡\n縮\t缩\n縯\t𬙂\n縰\t𫄳\n縱\t纵\n縲\t缧\n縳\t䌸\n縴\t纤\n縵\t缦\n縶\t絷\n縷\t缕\n縸\t𫄲\n縹\t缥\n縺\t𦈐\n總\t总\n績\t绩\n繂\t𫄴\n繃\t绷\n繅\t缫\n繆\t缪\n繈\t𫄶\n繏\t𦈝\n繐\t𰬸\n繒\t缯\n繓\t𦈛\n織\t织\n繕\t缮\n繚\t缭\n繞\t绕\n繟\t𦈎\n繡\t绣\n繢\t缋\n繨\t𫄤\n繩\t绳\n繪\t绘\n繫\t系\n繬\t𫄱\n繭\t茧\n繮\t缰\n繯\t缳\n繰\t缲\n繳\t缴\n繶\t𫄷\n繷\t𫄣\n繸\t䍁\n繹\t绎\n繻\t𦈡\n繼\t继\n繽\t缤\n繾\t缱\n繿\t䍀\n纁\t𫄸\n纆\t𬙊\n纇\t颣\n纈\t缬\n纊\t纩\n續\t续\n纍\t累\n纏\t缠\n纓\t缨\n纔\t才\n纕\t𬙋\n纖\t纤\n纗\t𫄹\n纘\t缵\n纚\t𫄥\n纜\t缆\n缽\t钵\n罃\t䓨\n罈\t坛\n罌\t罂\n罎\t坛\n罰\t罚\n罵\t骂\n罷\t罢\n羅\t罗\n羆\t罴\n羈\t羁\n羋\t芈\n羣\t群\n羥\t羟\n羨\t羡\n義\t义\n羵\t𫅗\n羶\t膻\n習\t习\n翫\t玩\n翬\t翚\n翹\t翘\n翽\t翙\n耑\t耑\n耬\t耧\n耮\t耢\n聖\t圣\n聞\t闻\n聯\t联\n聰\t聪\n聲\t声\n聳\t耸\n聵\t聩\n聶\t聂\n職\t职\n聹\t聍\n聻\t𫆏\n聽\t听\n聾\t聋\n肅\t肃\n脅\t胁\n脈\t脉\n脛\t胫\n脣\t唇\n脥\t𣍰\n脩\t修\n脫\t脱\n脹\t胀\n腎\t肾\n腖\t胨\n腡\t脶\n腦\t脑\n腪\t𣍯\n腫\t肿\n腳\t脚\n腸\t肠\n膃\t腽\n膕\t腘\n膚\t肤\n膞\t䏝\n膠\t胶\n膢\t𦝼\n膩\t腻\n膹\t𪱥\n膽\t胆\n膾\t脍\n膿\t脓\n臉\t脸\n臍\t脐\n臏\t膑\n臗\t𣎑\n臘\t腊\n臚\t胪\n臟\t脏\n臠\t脔\n臢\t臜\n臥\t卧\n臨\t临\n臺\t台\n與\t与\n興\t兴\n舉\t举\n舊\t旧\n舖\t铺\n舘\t馆\n艙\t舱\n艣\t𫇛\n艤\t舣\n艦\t舰\n艫\t舻\n艱\t艰\n艷\t艳\n芻\t刍\n苧\t苎\n茲\t兹\n荊\t荆\n莊\t庄\n莖\t茎\n莢\t荚\n莧\t苋\n菉\t菉\n菕\t𰰨\n華\t华\n菴\t庵\n菸\t烟\n萇\t苌\n萊\t莱\n萬\t万\n萴\t荝\n萵\t莴\n葉\t叶\n葒\t荭\n葝\t𫈎\n葤\t荮\n葦\t苇\n葯\t药\n葷\t荤\n蒍\t𫇭\n蒐\t搜\n蒓\t莼\n蒔\t莳\n蒕\t蒀\n蒞\t莅\n蒭\t𫇴\n蒼\t苍\n蓀\t荪\n蓆\t席\n蓋\t盖\n蓧\t𦰏\n蓮\t莲\n蓯\t苁\n蓴\t莼\n蓽\t荜\n蔄\t𬜬\n蔔\t卜\n蔘\t参\n蔞\t蒌\n蔣\t蒋\n蔥\t葱\n蔦\t茑\n蔭\t荫\n蔯\t𫈟\n蔿\t𫇭\n蕁\t荨\n蕆\t蒇\n蕎\t荞\n蕒\t荬\n蕓\t芸\n蕕\t莸\n蕘\t荛\n蕝\t𫈵\n蕢\t蒉\n蕩\t荡\n蕪\t芜\n蕭\t萧\n蕳\t𫈉\n蕷\t蓣\n蕽\t𫇽\n薀\t蕰\n薆\t𫉁\n薈\t荟\n薊\t蓟\n薌\t芗\n薑\t姜\n薔\t蔷\n薘\t荙\n薟\t莶\n薦\t荐\n薩\t萨\n薳\t薳\n薴\t苧\n薵\t䓓\n薹\t苔\n薺\t荠\n藉\t藉\n藍\t蓝\n藎\t荩\n藝\t艺\n藥\t药\n藪\t薮\n藭\t䓖\n藴\t蕴\n藶\t苈\n藷\t𫉄\n藹\t蔼\n藺\t蔺\n蘀\t萚\n蘄\t蕲\n蘆\t芦\n蘇\t苏\n蘊\t蕴\n蘋\t苹\n蘚\t藓\n蘞\t蔹\n蘟\t𦻕\n蘢\t茏\n蘭\t兰\n蘺\t蓠\n蘿\t萝\n虆\t蔂\n虉\t𬟁\n處\t处\n虛\t虚\n虜\t虏\n號\t号\n虧\t亏\n虯\t虬\n蛺\t蛱\n蛻\t蜕\n蜆\t蚬\n蝀\t𬟽\n蝕\t蚀\n蝟\t猬\n蝦\t虾\n蝨\t虱\n蝸\t蜗\n螄\t蛳\n螞\t蚂\n螢\t萤\n螮\t䗖\n螻\t蝼\n螿\t螀\n蟂\t𫋇\n蟄\t蛰\n蟈\t蝈\n蟎\t螨\n蟘\t𫋌\n蟜\t𫊸\n蟣\t虮\n蟬\t蝉\n蟯\t蛲\n蟲\t虫\n蟳\t𫊻\n蟶\t蛏\n蟻\t蚁\n蠀\t𧏗\n蠁\t蚃\n蠅\t蝇\n蠆\t虿\n蠍\t蝎\n蠐\t蛴\n蠑\t蝾\n蠔\t蚝\n蠙\t𧏖\n蠟\t蜡\n蠣\t蛎\n蠦\t𫊮\n蠨\t蟏\n蠱\t蛊\n蠶\t蚕\n蠻\t蛮\n蠾\t𧑏\n衆\t众\n衊\t蔑\n術\t术\n衕\t同\n衚\t胡\n衛\t卫\n衝\t冲\n衹\t衹\n袞\t衮\n袷\t夹\n裊\t袅\n裏\t里\n補\t补\n裝\t装\n裡\t里\n製\t制\n複\t复\n褌\t裈\n褘\t袆\n褲\t裤\n褳\t裢\n褸\t褛\n褻\t亵\n襀\t𫌀\n襇\t裥\n襉\t裥\n襏\t袯\n襓\t𫋹\n襖\t袄\n襗\t𫋷\n襘\t𫋻\n襝\t裣\n襠\t裆\n襤\t褴\n襪\t袜\n襬\t摆\n襯\t衬\n襰\t𧝝\n襲\t袭\n襴\t襕\n襵\t𫌇\n覆\t覆\n覈\t核\n見\t见\n覎\t觃\n規\t规\n覓\t觅\n視\t视\n覘\t觇\n覛\t𫌪\n覡\t觋\n覥\t觍\n覦\t觎\n親\t亲\n覬\t觊\n覯\t觏\n覲\t觐\n覷\t觑\n覹\t𫌭\n覺\t觉\n覼\t𫌨\n覽\t览\n覿\t觌\n觀\t观\n觴\t觞\n觶\t觯\n觸\t触\n訁\t讠\n訂\t订\n訃\t讣\n計\t计\n訊\t讯\n訌\t讧\n討\t讨\n訏\t𬣙\n訐\t讦\n訑\t𫍙\n訒\t讱\n訓\t训\n訕\t讪\n訖\t讫\n託\t托\n記\t记\n訛\t讹\n訜\t𫍛\n訝\t讶\n訞\t𫍚\n訟\t讼\n訢\t䜣\n訣\t诀\n訥\t讷\n訨\t𫟞\n訩\t讻\n訪\t访\n設\t设\n許\t许\n訴\t诉\n訶\t诃\n診\t诊\n註\t注\n証\t证\n詀\t𧮪\n詁\t诂\n詆\t诋\n詊\t𫟟\n詎\t讵\n詐\t诈\n詑\t𫍡\n詒\t诒\n詓\t𫍜\n詔\t诏\n評\t评\n詖\t诐\n詗\t诇\n詘\t诎\n詛\t诅\n詝\t𬣞\n詞\t词\n詠\t咏\n詡\t诩\n詢\t询\n詣\t诣\n試\t试\n詩\t诗\n詪\t𬣳\n詫\t诧\n詬\t诟\n詭\t诡\n詮\t诠\n詰\t诘\n話\t话\n該\t该\n詳\t详\n詵\t诜\n詷\t𫍣\n詼\t诙\n詿\t诖\n誂\t𫍥\n誄\t诔\n誅\t诛\n誆\t诓\n誇\t夸\n誋\t𫍪\n誌\t志\n認\t认\n誑\t诳\n誒\t诶\n誕\t诞\n誘\t诱\n誚\t诮\n語\t语\n誠\t诚\n誡\t诫\n誣\t诬\n誤\t误\n誥\t诰\n誦\t诵\n誨\t诲\n說\t说\n誫\t𫍨\n説\t说\n誰\t谁\n課\t课\n誳\t𫍮\n誴\t𫟡\n誶\t谇\n誷\t𫍬\n誹\t诽\n誺\t𫍧\n誼\t谊\n誾\t訚\n調\t调\n諂\t谄\n諄\t谆\n談\t谈\n諉\t诿\n請\t请\n諍\t诤\n諏\t诹\n諑\t诼\n諒\t谅\n諓\t𬣡\n論\t论\n諗\t谂\n諛\t谀\n諜\t谍\n諝\t谞\n諞\t谝\n諟\t𬤊\n諡\t谥\n諢\t诨\n諣\t𫍩\n諤\t谔\n諥\t𫍳\n諦\t谛\n諧\t谐\n諫\t谏\n諭\t谕\n諮\t咨\n諯\t𫍱\n諰\t𫍰\n諱\t讳\n諲\t𬤇\n諳\t谙\n諴\t𫍯\n諶\t谌\n諷\t讽\n諸\t诸\n諺\t谚\n諼\t谖\n諾\t诺\n謀\t谋\n謁\t谒\n謂\t谓\n謄\t誊\n謅\t诌\n謆\t𫍸\n謉\t𫍷\n謊\t谎\n謎\t谜\n謏\t𫍲\n謐\t谧\n謔\t谑\n謖\t谡\n謗\t谤\n謙\t谦\n謚\t谥\n講\t讲\n謝\t谢\n謠\t谣\n謡\t谣\n謨\t谟\n謫\t谪\n謬\t谬\n謭\t谫\n謯\t𫍹\n謱\t𫍴\n謳\t讴\n謸\t𫍵\n謹\t谨\n謾\t谩\n譁\t哗\n譂\t𫟠\n譅\t𰶎\n譆\t𫍻\n證\t证\n譊\t𫍢\n譎\t谲\n譏\t讥\n譑\t𫍤\n譓\t𬤝\n譖\t谮\n識\t识\n譙\t谯\n譚\t谭\n譜\t谱\n譞\t𫍽\n譟\t噪\n譨\t𫍦\n譫\t谵\n譭\t毁\n譯\t译\n議\t议\n譴\t谴\n護\t护\n譸\t诪\n譽\t誉\n譾\t谫\n讀\t读\n讅\t谉\n變\t变\n讋\t詟\n讌\t䜩\n讎\t雠\n讒\t谗\n讓\t让\n讕\t谰\n讖\t谶\n讚\t赞\n讜\t谠\n讞\t谳\n谿\t溪\n豈\t岂\n豎\t竖\n豐\t丰\n豔\t艳\n豬\t猪\n豵\t𫎆\n豶\t豮\n貍\t狸\n貓\t猫\n貗\t𫎌\n貙\t䝙\n貝\t贝\n貞\t贞\n貟\t贠\n負\t负\n財\t财\n貢\t贡\n貧\t贫\n貨\t货\n販\t贩\n貪\t贪\n貫\t贯\n責\t责\n貯\t贮\n貰\t贳\n貲\t赀\n貳\t贰\n貴\t贵\n貶\t贬\n買\t买\n貸\t贷\n貺\t贶\n費\t费\n貼\t贴\n貽\t贻\n貿\t贸\n賀\t贺\n賁\t贲\n賂\t赂\n賃\t赁\n賄\t贿\n賅\t赅\n資\t资\n賈\t贾\n賊\t贼\n賑\t赈\n賒\t赊\n賓\t宾\n賕\t赇\n賙\t赒\n賚\t赉\n賜\t赐\n賝\t𫎩\n賞\t赏\n賟\t𧹖\n賠\t赔\n賡\t赓\n賢\t贤\n賣\t卖\n賤\t贱\n賦\t赋\n賧\t赕\n質\t质\n賫\t赍\n賬\t账\n賭\t赌\n賰\t䞐\n賴\t赖\n賵\t赗\n賺\t赚\n賻\t赙\n購\t购\n賽\t赛\n賾\t赜\n贃\t𧹗\n贄\t贽\n贅\t赘\n贇\t赟\n贈\t赠\n贉\t𫎫\n贊\t赞\n贋\t赝\n贍\t赡\n贏\t赢\n贐\t赆\n贑\t𫎬\n贓\t赃\n贔\t赑\n贖\t赎\n贗\t赝\n贚\t𫎦\n贛\t赣\n贜\t赃\n赬\t赪\n趕\t赶\n趙\t赵\n趨\t趋\n趲\t趱\n跡\t迹\n踐\t践\n踰\t逾\n踴\t踊\n蹌\t跄\n蹔\t𫏐\n蹕\t跸\n蹟\t迹\n蹠\t跖\n蹣\t蹒\n蹤\t踪\n蹳\t𫏆\n蹺\t跷\n蹻\t𫏋\n躂\t跶\n躉\t趸\n躊\t踌\n躋\t跻\n躍\t跃\n躎\t䟢\n躑\t踯\n躒\t跞\n躓\t踬\n躕\t蹰\n躘\t𨀁\n躚\t跹\n躝\t𨅬\n躡\t蹑\n躥\t蹿\n躦\t躜\n躪\t躏\n軀\t躯\n軉\t𨉗\n車\t车\n軋\t轧\n軌\t轨\n軍\t军\n軏\t𫐄\n軑\t轪\n軒\t轩\n軔\t轫\n軕\t𫐅\n軗\t𨐅\n軛\t轭\n軜\t𫐇\n軝\t𬨂\n軟\t软\n軤\t轷\n軨\t𫐉\n軫\t轸\n軬\t𫐊\n軲\t轱\n軷\t𫐈\n軸\t轴\n軹\t轵\n軺\t轺\n軻\t轲\n軼\t轶\n軾\t轼\n軿\t𫐌\n較\t较\n輄\t𨐈\n輅\t辂\n輇\t辁\n輈\t辀\n載\t载\n輊\t轾\n輋\t𪨶\n輒\t辄\n輓\t挽\n輔\t辅\n輕\t轻\n輖\t𫐏\n輗\t𫐐\n輛\t辆\n輜\t辎\n輝\t辉\n輞\t辋\n輟\t辍\n輢\t𫐎\n輥\t辊\n輦\t辇\n輨\t𫐑\n輩\t辈\n輪\t轮\n輬\t辌\n輮\t𫐓\n輯\t辑\n輳\t辏\n輶\t𬨎\n輷\t𫐒\n輸\t输\n輻\t辐\n輼\t辒\n輾\t辗\n輿\t舆\n轀\t辒\n轂\t毂\n轄\t辖\n轅\t辕\n轆\t辘\n轇\t𫐖\n轉\t转\n轊\t𫐕\n轍\t辙\n轎\t轿\n轐\t𫐗\n轔\t辚\n轗\t𫐘\n";

/// Part 3 of the text.
pub const TS_CHARACTERS_3: &'static str = "轟\t轰\n轠\t𫐙\n轡\t辔\n轢\t轹\n轣\t𫐆\n轤\t轳\n辦\t办\n辭\t辞\n辮\t辫\n辯\t辩\n農\t农\n迴\t回\n迺\t迺\n逕\t径\n這\t这\n連\t连\n週\t周\n進\t进\n遊\t游\n運\t运\n過\t过\n達\t达\n違\t违\n遙\t遥\n遜\t逊\n遞\t递\n遠\t远\n遡\t溯\n適\t适\n遱\t𫐷\n遲\t迟\n遶\t绕\n遷\t迁\n選\t选\n遺\t遗\n遼\t辽\n邁\t迈\n還\t还\n邇\t迩\n邊\t边\n邏\t逻\n邐\t逦\n邨\t邨\n郟\t郏\n郵\t邮\n鄆\t郓\n鄉\t乡\n鄒\t邹\n鄔\t邬\n鄖\t郧\n鄟\t𫑘\n鄧\t邓\n鄩\t𬩽\n鄭\t郑\n鄰\t邻\n鄲\t郸\n鄳\t𫑡\n鄴\t邺\n鄶\t郐\n鄺\t邝\n酇\t酂\n酈\t郦\n醃\t腌\n醖\t酝\n醜\t丑\n醞\t酝\n醟\t蒏\n醣\t糖\n醫\t医\n醬\t酱\n醱\t酦\n醲\t𬪩\n醶\t𫑷\n釀\t酿\n釁\t衅\n釃\t酾\n釅\t酽\n釋\t释\n釐\t厘\n釒\t钅\n釓\t钆\n釔\t钇\n釕\t钌\n釗\t钊\n釘\t钉\n釙\t钋\n釚\t𫟲\n針\t针\n釟\t𫓥\n釣\t钓\n釤\t钐\n釦\t扣\n釧\t钏\n釨\t𫓦\n釩\t钒\n釲\t𫟳\n釳\t𨰿\n釴\t𬬩\n釵\t钗\n釷\t钍\n釹\t钕\n釺\t钎\n釾\t䥺\n釿\t𬬱\n鈀\t钯\n鈁\t钫\n鈃\t钘\n鈄\t钭\n鈅\t钥\n鈆\t𫓪\n鈇\t𫓧\n鈈\t钚\n鈉\t钠\n鈋\t𨱂\n鈍\t钝\n鈎\t钩\n鈐\t钤\n鈑\t钣\n鈒\t钑\n鈔\t钞\n鈕\t钮\n鈖\t𫟴\n鈗\t𫟵\n鈛\t𫓨\n鈞\t钧\n鈠\t𨱁\n鈡\t钟\n鈣\t钙\n鈥\t钬\n鈦\t钛\n鈧\t钪\n鈮\t铌\n鈯\t𨱄\n鈰\t铈\n鈲\t𨱃\n鈳\t钶\n鈴\t铃\n鈷\t钴\n鈸\t钹\n鈹\t铍\n鈺\t钰\n鈽\t钸\n鈾\t铀\n鈿\t钿\n鉀\t钾\n鉁\t𨱅\n鉅\t巨\n鉆\t钻\n鉈\t铊\n鉉\t铉\n鉊\t𬬿\n鉋\t铇\n鉍\t铋\n鉑\t铂\n鉔\t𫓬\n鉕\t钷\n鉗\t钳\n鉚\t铆\n鉛\t铅\n鉝\t𫟷\n鉞\t钺\n鉠\t𫓭\n鉢\t钵\n鉤\t钩\n鉥\t𬬸\n鉦\t钲\n鉧\t𬭁\n鉬\t钼\n鉭\t钽\n鉮\t𬬹\n鉳\t锫\n鉶\t铏\n鉷\t𫟹\n鉸\t铰\n鉺\t铒\n鉻\t铬\n鉽\t𫟸\n鉾\t𫓴\n鉿\t铪\n銀\t银\n銁\t𫓲\n銂\t𫟻\n銃\t铳\n銅\t铜\n銈\t𫓯\n銊\t𫓰\n銍\t铚\n銏\t𫟶\n銑\t铣\n銓\t铨\n銖\t铢\n銘\t铭\n銚\t铫\n銛\t铦\n銜\t衔\n銠\t铑\n銣\t铷\n銥\t铱\n銦\t铟\n銨\t铵\n銩\t铥\n銪\t铕\n銫\t铯\n銬\t铐\n銱\t铞\n銳\t锐\n銶\t𨱇\n銷\t销\n銹\t锈\n銻\t锑\n銼\t锉\n鋁\t铝\n鋂\t𰾄\n鋃\t锒\n鋅\t锌\n鋇\t钡\n鋉\t𨱈\n鋌\t铤\n鋏\t铗\n鋐\t𬭎\n鋒\t锋\n鋗\t𫓶\n鋙\t铻\n鋝\t锊\n鋟\t锓\n鋠\t𫓵\n鋣\t铘\n鋤\t锄\n鋥\t锃\n鋦\t锔\n鋨\t锇\n鋩\t铓\n鋪\t铺\n鋭\t锐\n鋮\t铖\n鋯\t锆\n鋰\t锂\n鋱\t铽\n鋶\t锍\n鋸\t锯\n鋹\t𬬮\n鋼\t钢\n錀\t𬬭\n錁\t锞\n錂\t𨱋\n錄\t录\n錆\t锖\n錇\t锫\n錈\t锩\n錏\t铔\n錐\t锥\n錒\t锕\n錕\t锟\n錘\t锤\n錙\t锱\n錚\t铮\n錛\t锛\n錜\t𫓻\n錝\t𫓽\n錞\t𬭚\n錟\t锬\n錠\t锭\n錡\t锜\n錢\t钱\n錤\t𫓹\n錥\t𫓾\n錦\t锦\n錨\t锚\n錩\t锠\n錫\t锡\n錮\t锢\n錯\t错\n録\t录\n錳\t锰\n錶\t表\n錸\t铼\n錼\t镎\n錽\t𫓸\n鍀\t锝\n鍁\t锨\n鍃\t锪\n鍄\t𨱉\n鍅\t钫\n鍆\t钔\n鍇\t锴\n鍈\t锳\n鍉\t𫔂\n鍊\t炼\n鍋\t锅\n鍍\t镀\n鍒\t𫔄\n鍔\t锷\n鍘\t铡\n鍚\t钖\n鍛\t锻\n鍠\t锽\n鍤\t锸\n鍥\t锲\n鍩\t锘\n鍬\t锹\n鍭\t𬭤\n鍮\t𨱎\n鍰\t锾\n鍵\t键\n鍶\t锶\n鍺\t锗\n鍼\t针\n鍾\t钟\n鎂\t镁\n鎄\t锿\n鎇\t镅\n鎈\t𫟿\n鎊\t镑\n鎌\t镰\n鎍\t𫔅\n鎓\t𬭩\n鎔\t镕\n鎖\t锁\n鎘\t镉\n鎙\t𫔈\n鎚\t锤\n鎛\t镈\n鎝\t𨱏\n鎞\t𫔇\n鎡\t镃\n鎢\t钨\n鎣\t蓥\n鎦\t镏\n鎧\t铠\n鎩\t铩\n鎪\t锼\n鎬\t镐\n鎭\t镇\n鎮\t镇\n鎯\t𨱍\n鎰\t镒\n鎲\t镋\n鎳\t镍\n鎵\t镓\n鎶\t鿔\n鎷\t𨰾\n鎸\t镌\n鎿\t镎\n鏃\t镞\n鏆\t𨱌\n鏇\t旋\n鏈\t链\n鏉\t𨱒\n鏌\t镆\n鏍\t镙\n鏏\t𬭬\n鏐\t镠\n鏑\t镝\n鏗\t铿\n鏘\t锵\n鏚\t𬭭\n鏜\t镗\n鏝\t镘\n鏞\t镛\n鏟\t铲\n鏡\t镜\n鏢\t镖\n鏤\t镂\n鏥\t𫔊\n鏦\t𫓩\n鏨\t錾\n鏰\t镚\n鏵\t铧\n鏷\t镤\n鏹\t镪\n鏺\t䥽\n鏻\t𬭸\n鏽\t锈\n鏾\t𫔌\n鐃\t铙\n鐄\t𨱑\n鐇\t𫔍\n鐈\t𫓱\n鐋\t铴\n鐍\t𫔎\n鐎\t𨱓\n鐏\t𨱔\n鐐\t镣\n鐒\t铹\n鐓\t镦\n鐔\t镡\n鐘\t钟\n鐙\t镫\n鐝\t镢\n鐠\t镨\n鐥\t䦅\n鐦\t锎\n鐧\t锏\n鐨\t镄\n鐩\t𬭼\n鐪\t𫓺\n鐫\t镌\n鐮\t镰\n鐯\t䦃\n鐲\t镯\n鐳\t镭\n鐵\t铁\n鐶\t镮\n鐸\t铎\n鐺\t铛\n鐼\t𫔁\n鐽\t𫟼\n鐿\t镱\n鑀\t𰾭\n鑄\t铸\n鑉\t𫠁\n鑊\t镬\n鑌\t镔\n鑑\t鉴\n鑒\t鉴\n鑔\t镲\n鑕\t锧\n鑞\t镴\n鑠\t铄\n鑣\t镳\n鑥\t镥\n鑪\t𬬻\n鑭\t镧\n鑰\t钥\n鑱\t镵\n鑲\t镶\n鑴\t𫔔\n鑷\t镊\n鑹\t镩\n鑼\t锣\n鑽\t钻\n鑾\t銮\n鑿\t凿\n钁\t镢\n钂\t镋\n長\t长\n門\t门\n閂\t闩\n閃\t闪\n閆\t闫\n閈\t闬\n閉\t闭\n開\t开\n閌\t闶\n閍\t𨸂\n閎\t闳\n閏\t闰\n閐\t𨸃\n閑\t闲\n閒\t闲\n間\t间\n閔\t闵\n閗\t𫔯\n閘\t闸\n閝\t𫠂\n閞\t𫔰\n閡\t阂\n閣\t阁\n閤\t合\n閥\t阀\n閨\t闺\n閩\t闽\n閫\t阃\n閬\t阆\n閭\t闾\n閱\t阅\n閲\t阅\n閵\t𫔴\n閶\t阊\n閹\t阉\n閻\t阎\n閼\t阏\n閽\t阍\n閾\t阈\n閿\t阌\n闃\t阒\n闆\t板\n闇\t暗\n闈\t闱\n闉\t𬮱\n闊\t阔\n闋\t阕\n闌\t阑\n闍\t阇\n闐\t阗\n闑\t𫔶\n闒\t阘\n闓\t闿\n闔\t阖\n闕\t阙\n闖\t闯\n關\t关\n闞\t阚\n闠\t阓\n闡\t阐\n闢\t辟\n闤\t阛\n闥\t闼\n阪\t阪\n陘\t陉\n陝\t陕\n陞\t升\n陣\t阵\n陰\t阴\n陳\t陈\n陸\t陆\n陽\t阳\n隉\t陧\n隊\t队\n階\t阶\n隑\t𬮿\n隕\t陨\n際\t际\n隤\t𬯎\n隨\t随\n險\t险\n隮\t𬯀\n隯\t陦\n隱\t隐\n隴\t陇\n隸\t隶\n隻\t只\n雋\t隽\n雖\t虽\n雙\t双\n雛\t雏\n雜\t杂\n雞\t鸡\n離\t离\n難\t难\n雲\t云\n電\t电\n霑\t沾\n霢\t霡\n霣\t𫕥\n霧\t雾\n霼\t𪵣\n霽\t霁\n靂\t雳\n靄\t霭\n靆\t叇\n靈\t灵\n靉\t叆\n靚\t靓\n靜\t静\n靝\t靔\n靦\t腼\n靧\t𫖃\n靨\t靥\n鞏\t巩\n鞝\t绱\n鞦\t秋\n鞽\t鞒\n鞾\t𫖇\n韁\t缰\n韃\t鞑\n韆\t千\n韉\t鞯\n韋\t韦\n韌\t韧\n韍\t韨\n韓\t韩\n韙\t韪\n韚\t𫠅\n韛\t𫖔\n韜\t韬\n韝\t鞲\n韞\t韫\n韠\t𫖒\n韻\t韵\n響\t响\n頁\t页\n頂\t顶\n頃\t顷\n項\t项\n順\t顺\n頇\t顸\n須\t须\n頊\t顼\n頌\t颂\n頍\t𫠆\n頎\t颀\n頏\t颃\n預\t预\n頑\t顽\n頒\t颁\n頓\t顿\n頔\t𬱖\n頗\t颇\n領\t领\n頜\t颌\n頠\t𬱟\n頡\t颉\n頤\t颐\n頦\t颏\n頫\t𫖯\n頭\t头\n頮\t颒\n頰\t颊\n頲\t颋\n頴\t颕\n頵\t𫖳\n頷\t颔\n頸\t颈\n頹\t颓\n頻\t频\n頽\t颓\n顂\t𩓋\n顃\t𩖖\n顅\t𫖶\n顆\t颗\n題\t题\n額\t额\n顎\t颚\n顏\t颜\n顒\t颙\n顓\t颛\n顔\t颜\n顗\t𫖮\n願\t愿\n顙\t颡\n顛\t颠\n類\t类\n顢\t颟\n顣\t𫖹\n顥\t颢\n顧\t顾\n顫\t颤\n顬\t颥\n顯\t显\n顰\t颦\n顱\t颅\n顳\t颞\n顴\t颧\n風\t风\n颭\t飐\n颮\t飑\n颯\t飒\n颰\t𩙥\n颱\t台\n颳\t刮\n颶\t飓\n颷\t𩙪\n颸\t飔\n颺\t飏\n颻\t飖\n颼\t飕\n颾\t𩙫\n飀\t飗\n飄\t飘\n飆\t飙\n飈\t飚\n飋\t𫗋\n飛\t飞\n飠\t饣\n飢\t饥\n飣\t饤\n飥\t饦\n飦\t𫗞\n飩\t饨\n飪\t饪\n飫\t饫\n飭\t饬\n飯\t饭\n飱\t飧\n飲\t饮\n飴\t饴\n飵\t𫗢\n飶\t𫗣\n飼\t饲\n飽\t饱\n飾\t饰\n飿\t饳\n餃\t饺\n餄\t饸\n餅\t饼\n餈\t糍\n餉\t饷\n養\t养\n餌\t饵\n餎\t饹\n餏\t饻\n餑\t饽\n餒\t馁\n餓\t饿\n餔\t𫗦\n餕\t馂\n餖\t饾\n餗\t𫗧\n餘\t余\n餚\t肴\n餛\t馄\n餜\t馃\n餞\t饯\n餡\t馅\n餦\t𫗠\n餧\t𫗪\n館\t馆\n餪\t𫗬\n餫\t𫗥\n餬\t糊\n餭\t𫗮\n餱\t糇\n餳\t饧\n餵\t喂\n餶\t馉\n餷\t馇\n餸\t𩠌\n餺\t馎\n餼\t饩\n餾\t馏\n餿\t馊\n饁\t馌\n饃\t馍\n饅\t馒\n饈\t馐\n饉\t馑\n饊\t馓\n饋\t馈\n饌\t馔\n饑\t饥\n饒\t饶\n饗\t飨\n饘\t𫗴\n饜\t餍\n饞\t馋\n饟\t𫗵\n饠\t𫗩\n饢\t馕\n馬\t马\n馭\t驭\n馮\t冯\n馯\t𫘛\n馱\t驮\n馳\t驰\n馴\t驯\n馹\t驲\n馼\t𫘜\n駁\t驳\n駃\t𫘝\n駉\t𬳶\n駊\t𫘟\n駎\t𩧨\n駐\t驻\n駑\t驽\n駒\t驹\n駓\t𬳵\n駔\t驵\n駕\t驾\n駘\t骀\n駙\t驸\n駚\t𩧫\n駛\t驶\n駝\t驼\n駞\t𫘞\n駟\t驷\n駡\t骂\n駢\t骈\n駤\t𫘠\n駧\t𩧲\n駩\t𩧴\n駪\t𬳽\n駫\t𫘡\n駭\t骇\n駰\t骃\n駱\t骆\n駶\t𩧺\n駸\t骎\n駻\t𫘣\n駼\t𬳿\n駿\t骏\n騁\t骋\n騂\t骍\n騃\t𫘤\n騄\t𫘧\n騅\t骓\n騉\t𫘥\n騊\t𫘦\n騌\t骔\n騍\t骒\n騎\t骑\n騏\t骐\n騑\t𬴂\n騔\t𩨀\n騖\t骛\n騙\t骗\n騚\t𩨊\n騜\t𫘩\n騝\t𩨃\n騞\t𬴃\n騟\t𩨈\n騠\t𫘨\n騤\t骙\n騧\t䯄\n騪\t𩨄\n騫\t骞\n騭\t骘\n騮\t骝\n騰\t腾\n騱\t𫘬\n騴\t𫘫\n騵\t𫘪\n騶\t驺\n騷\t骚\n騸\t骟\n騻\t𫘭\n騼\t𫠋\n騾\t骡\n驀\t蓦\n驁\t骜\n驂\t骖\n驃\t骠\n驄\t骢\n驅\t驱\n驊\t骅\n驋\t𩧯\n驌\t骕\n驍\t骁\n驎\t𬴊\n驏\t骣\n驓\t𫘯\n驕\t骄\n驗\t验\n驙\t𫘰\n驚\t惊\n驛\t驿\n驟\t骤\n驢\t驴\n驤\t骧\n驥\t骥\n驦\t骦\n驨\t𫘱\n驪\t骊\n驫\t骉\n骯\t肮\n髏\t髅\n髒\t脏\n體\t体\n髕\t髌\n髖\t髋\n髮\t发\n鬆\t松\n鬍\t胡\n鬖\t𩭹\n鬚\t须\n鬠\t𫘽\n鬢\t鬓\n鬥\t斗\n鬧\t闹\n鬨\t哄\n鬩\t阋\n鬮\t阄\n";

/// Part 4 of the text.
pub const TS_CHARACTERS_4: &'static str = "鬱\t郁\n鬹\t鬶\n魎\t魉\n魘\t魇\n魚\t鱼\n魛\t鱽\n魟\t𫚉\n魢\t鱾\n魥\t𩽹\n魦\t𫚌\n魨\t鲀\n魯\t鲁\n魴\t鲂\n魵\t𫚍\n魷\t鱿\n魺\t鲄\n魽\t𫠐\n鮀\t𬶍\n鮁\t鲅\n鮃\t鲆\n鮄\t𫚒\n鮅\t𫚑\n鮆\t𫚖\n鮈\t𬶋\n鮊\t鲌\n鮋\t鲉\n鮍\t鲏\n鮎\t鲇\n鮐\t鲐\n鮑\t鲍\n鮒\t鲋\n鮓\t鲊\n鮚\t鲒\n鮜\t鲘\n鮝\t鲞\n鮞\t鲕\n鮟\t𩽾\n鮠\t𬶏\n鮡\t𬶐\n鮣\t䲟\n鮤\t𫚓\n鮦\t鲖\n鮪\t鲔\n鮫\t鲛\n鮭\t鲑\n鮮\t鲜\n鮯\t𫚗\n鮰\t𫚔\n鮳\t鲓\n鮵\t𫚛\n鮶\t鲪\n鮸\t𩾃\n鮺\t鲝\n鮿\t𫚚\n鯀\t鲧\n鯁\t鲠\n鯄\t𩾁\n鯆\t𫚙\n鯇\t鲩\n鯉\t鲤\n鯊\t鲨\n鯒\t鲬\n鯔\t鲻\n鯕\t鲯\n鯖\t鲭\n鯗\t鲞\n鯛\t鲷\n鯝\t鲴\n鯞\t𫚡\n鯡\t鲱\n鯢\t鲵\n鯤\t鲲\n鯧\t鲳\n鯨\t鲸\n鯪\t鲮\n鯫\t鲰\n鯬\t𫚞\n鯰\t鲶\n鯱\t𩾇\n鯴\t鲺\n鯶\t𩽼\n鯷\t鳀\n鯻\t𬶟\n鯽\t鲫\n鯾\t𫚣\n鯿\t鳊\n鰁\t鳈\n鰂\t鲗\n鰃\t鳂\n鰆\t䲠\n鰈\t鲽\n鰉\t鳇\n鰊\t𬶠\n鰋\t𫚢\n鰌\t䲡\n鰍\t鳅\n鰏\t鲾\n鰐\t鳄\n鰑\t𫚊\n鰒\t鳆\n鰓\t鳃\n鰕\t𫚥\n鰛\t鳁\n鰜\t鳒\n鰟\t鳑\n鰠\t鳋\n鰣\t鲥\n鰤\t𫚕\n鰥\t鳏\n鰦\t𫚤\n鰧\t䲢\n鰨\t鳎\n鰩\t鳐\n鰫\t𫚦\n鰭\t鳍\n鰮\t鳁\n鰱\t鲢\n鰲\t鳌\n鰳\t鳓\n鰵\t鳘\n鰶\t𬶭\n鰷\t鲦\n鰹\t鲣\n鰺\t鲹\n鰻\t鳗\n鰼\t鳛\n鰽\t𫚧\n鰾\t鳔\n鱀\t𬶨\n鱂\t鳉\n鱄\t𫚋\n鱅\t鳙\n鱆\t𫠒\n鱇\t𩾌\n鱈\t鳕\n鱉\t鳖\n鱊\t𫚪\n鱒\t鳟\n鱔\t鳝\n鱖\t鳜\n鱗\t鳞\n鱘\t鲟\n鱚\t𬶮\n鱝\t鲼\n鱟\t鲎\n鱠\t鲙\n鱢\t𫚫\n鱣\t鳣\n鱤\t鳡\n鱧\t鳢\n鱨\t鲿\n鱭\t鲚\n鱮\t𫚈\n鱯\t鳠\n鱲\t𫚭\n鱷\t鳄\n鱸\t鲈\n鱺\t鲡\n鳥\t鸟\n鳧\t凫\n鳩\t鸠\n鳬\t凫\n鳲\t鸤\n鳳\t凤\n鳴\t鸣\n鳶\t鸢\n鳷\t𫛛\n鳼\t𪉃\n鳽\t𫛚\n鳾\t䴓\n鴀\t𫛜\n鴃\t𫛞\n鴅\t𫛝\n鴆\t鸩\n鴇\t鸨\n鴉\t鸦\n鴐\t𫛤\n鴒\t鸰\n鴔\t𫛡\n鴕\t鸵\n鴗\t𫁡\n鴛\t鸳\n鴜\t𪉈\n鴝\t鸲\n鴞\t鸮\n鴟\t鸱\n鴣\t鸪\n鴥\t𫛣\n鴦\t鸯\n鴨\t鸭\n鴮\t𫛦\n鴯\t鸸\n鴰\t鸹\n鴲\t𪉆\n鴳\t𫛩\n鴴\t鸻\n鴷\t䴕\n鴻\t鸿\n鴽\t𫛪\n鴿\t鸽\n鵁\t䴔\n鵂\t鸺\n鵃\t鸼\n鵊\t𫛥\n鵏\t𬷕\n鵐\t鹀\n鵑\t鹃\n鵒\t鹆\n鵓\t鹁\n鵚\t𪉍\n鵜\t鹈\n鵝\t鹅\n鵟\t𫛭\n鵠\t鹄\n鵡\t鹉\n鵧\t𫛨\n鵩\t𫛳\n鵪\t鹌\n鵫\t𫛱\n鵬\t鹏\n鵮\t鹐\n鵯\t鹎\n鵰\t雕\n鵲\t鹊\n鵷\t鹓\n鵾\t鹍\n鶄\t䴖\n鶇\t鸫\n鶉\t鹑\n鶊\t鹒\n鶌\t𫛵\n鶒\t𫛶\n鶓\t鹋\n鶖\t鹙\n鶗\t𫛸\n鶘\t鹕\n鶚\t鹗\n鶠\t𬸘\n鶡\t鹖\n鶥\t鹛\n鶦\t𫛷\n鶩\t鹜\n鶪\t䴗\n鶬\t鸧\n鶭\t𫛯\n鶯\t莺\n鶰\t𫛫\n鶱\t𬸣\n鶲\t鹟\n鶴\t鹤\n鶹\t鹠\n鶺\t鹡\n鶻\t鹘\n鶼\t鹣\n鶿\t鹚\n鷀\t鹚\n鷁\t鹢\n鷂\t鹞\n鷄\t鸡\n鷅\t𫛽\n鷉\t䴘\n鷊\t鹝\n鷐\t𫜀\n鷓\t鹧\n鷔\t𪉑\n鷖\t鹥\n鷗\t鸥\n鷙\t鸷\n鷚\t鹨\n鷟\t𬸦\n鷣\t𫜃\n鷤\t𫛴\n鷥\t鸶\n鷦\t鹪\n鷨\t𪉊\n鷩\t𫜁\n鷫\t鹔\n鷭\t𬸪\n鷯\t鹩\n鷲\t鹫\n鷳\t鹇\n鷴\t鹇\n鷷\t𫜄\n鷸\t鹬\n鷹\t鹰\n鷺\t鹭\n鷽\t鸴\n鷿\t𬸯\n鸂\t㶉\n鸇\t鹯\n鸊\t䴙\n鸋\t𫛢\n鸌\t鹱\n鸏\t鹲\n鸑\t𬸚\n鸕\t鸬\n鸗\t𫛟\n鸘\t鹴\n鸚\t鹦\n鸛\t鹳\n鸝\t鹂\n鸞\t鸾\n鹵\t卤\n鹹\t咸\n鹺\t鹾\n鹼\t碱\n鹽\t盐\n麗\t丽\n麥\t麦\n麨\t𪎊\n麩\t麸\n麪\t面\n麫\t面\n麬\t𤿲\n麯\t曲\n麲\t𪎉\n麳\t𪎌\n麴\t曲\n麵\t面\n麷\t𫜑\n麼\t么\n麽\t么\n黃\t黄\n黌\t黉\n點\t点\n黨\t党\n黲\t黪\n黴\t霉\n黶\t黡\n黷\t黩\n黽\t黾\n黿\t鼋\n鼂\t鼌\n鼉\t鼍\n鼕\t冬\n鼴\t鼹\n齊\t齐\n齋\t斋\n齎\t赍\n齏\t齑\n齒\t齿\n齔\t龀\n齕\t龁\n齗\t龂\n齘\t𬹼\n齙\t龅\n齜\t龇\n齟\t龃\n齠\t龆\n齡\t龄\n齣\t出\n齦\t龈\n齧\t啮\n齩\t𫜪\n齪\t龊\n齬\t龉\n齭\t𫜭\n齮\t𬺈\n齯\t𫠜\n齰\t𫜬\n齲\t龋\n齴\t𫜮\n齶\t腭\n齷\t龌\n齼\t𬺓\n齾\t𫜰\n龍\t龙\n龎\t厐\n龐\t庞\n龑\t䶮\n龓\t𫜲\n龔\t龚\n龕\t龛\n龜\t龟\n龭\t𩨎\n龯\t𨱆\n鿁\t䜤\n鿓\t鿒\n𠁞\t𠀾\n𠌥\t𠆿\n𠏢\t𠉗\n𠐊\t𫝋\n𠗣\t㓆\n𠞆\t𠛆\n𠠎\t𠚳\n𠬙\t𪠡\n𠼤\t𫪄\n𠽃\t𪠺\n𠿕\t𪜎\n𡂡\t𪢒\n𡃄\t𪡺\n𡃕\t𠴛\n𡃤\t𪢐\n𡄔\t𠴢\n𡄣\t𠵸\n𡅏\t𠲥\n𡅯\t𪢖\n𡑍\t𫭼\n𡑭\t𡋗\n𡓁\t𪤄\n𡓾\t𡋀\n𡔖\t𡍣\n𡞵\t㛟\n𡟫\t𫝪\n𡠹\t㛿\n𡢃\t㛠\n𡮉\t𡭜\n𡮣\t𡭬\n𡳳\t𡳃\n𡸗\t𪨩\n𡹬\t𪨹\n𡻕\t岁\n𡽗\t𡸃\n𡾱\t㟜\n𡿖\t𪩛\n𢍰\t𪪴\n𢠼\t𢙑\n𢣐\t𪬚\n𢣚\t𢘝\n𢣭\t𢘞\n𢤩\t𪫡\n𢤱\t𢘙\n𢤿\t𪬯\n𢯷\t𪭝\n𢶒\t𪭯\n𢶫\t𢫞\n𢷮\t𢫊\n𢹿\t𢬦\n𢺳\t𪮳\n𣈶\t暅\n𣋋\t𣈣\n𣍐\t𫧃\n𣙎\t㭣\n𣜬\t𪳗\n𣝕\t𣘷\n𣞻\t𣘓\n𣠩\t𣞎\n𣠲\t𣑶\n𣯩\t𣯣\n𣯴\t𣭤\n𣯶\t毶\n𣽏\t𪶮\n𣾷\t㳢\n𣿉\t𣶫\n𤁣\t𣺽\n𤄷\t𪶒\n𤅶\t𣷷\n𤑳\t𤎻\n𤑹\t𪹀\n𤒎\t𤊀\n𤒻\t𪹹\n𤓌\t𪹠\n𤓎\t𤎺\n𤓩\t𤊰\n𤘀\t𪺣\n𤛮\t𤙯\n𤛱\t𫞢\n𤜆\t𪺪\n𤠮\t𪺸\n𤢟\t𤝢\n𤢻\t𢢐\n𤩂\t𫞧\n𤪺\t㻘\n𤫩\t㻏\n𤬅\t𪼴\n𤳷\t𪽝\n𤳸\t𤳄\n𤷃\t𪽭\n𤸫\t𤶧\n𤺔\t𪽴\n𥊝\t𥅿\n𥌃\t𥅘\n𥏝\t𪿊\n𥕥\t𥐰\n𥖅\t𥐯\n𥖲\t𪿞\n𥗇\t𪿵\n𥗽\t𬒗\n𥜐\t𫀓\n𥜰\t𫀌\n𥞵\t𥞦\n𥢢\t䅪\n𥢶\t𫞷\n𥢷\t𫀮\n𥨐\t𥧂\n𥪂\t𥩺\n𥯤\t𫁳\n𥴨\t𫂖\n𥴼\t𫁺\n𥵃\t𥱔\n𥵊\t𥭉\n𥶽\t𫁱\n𥸠\t𥮋\n𥻦\t𫂿\n𥼽\t𥹥\n𥽖\t𥺇\n𥾯\t𫄝\n𥿊\t𦈈\n𦀖\t𫄦\n𦂅\t𦈒\n𦃄\t𦈗\n𦃩\t𫄯\n𦅇\t𫄪\n𦅈\t𫄵\n𦆲\t𫟇\n𦒀\t𫅥\n𦔖\t𫅼\n𦘧\t𡳒\n𦟼\t𫆝\n𦠅\t𫞅\n𦡝\t𫆫\n𦢈\t𣍨\n𦣎\t𦟗\n𦧺\t𫇘\n𦪙\t䑽\n𦪽\t𦨩\n𦱌\t𫇪\n𦾟\t𦶻\n𧎈\t𧌥\n𧒯\t𫊹\n𧔥\t𧒭\n𧕟\t𧉐\n𧜗\t䘞\n𧜵\t䙊\n𧝞\t䘛\n𧞫\t𫌋\n𧟀\t𧝧\n𧡴\t𫌫\n𧢄\t𫌬\n𧦝\t𫍞\n𧦧\t𫍟\n𧩕\t𫍭\n𧩙\t䜥\n𧩼\t𫍶\n𧫝\t𫍺\n𧬤\t𫍼\n𧭈\t𫍾\n𧭹\t𫍐\n𧳟\t𧳕\n𧵳\t䞌\n𧶔\t𧹓\n𧶧\t䞎\n𧷎\t𪠀\n𧸘\t𫎨\n𧹈\t𪥠\n𧽯\t𫎸\n𨂐\t𫏌\n𨄣\t𨀱\n𨅍\t𨁴\n𨆪\t𫏕\n𨇁\t𧿈\n𨇞\t𨅫\n𨇤\t𫏨\n𨇰\t𫏞\n𨇽\t𫏑\n𨈊\t𨂺\n𨈌\t𨄄\n𨊰\t䢀\n𨊸\t䢁\n𨊻\t𨐆\n𨋢\t䢂\n𨌈\t𫐍\n𨍰\t𫐔\n𨎌\t𫐋\n𨎮\t𨐉\n𨏠\t𨐇\n𨏥\t𨐊\n𨞺\t𫟫\n𨟊\t𫟬\n𨢿\t𨡙\n𨣈\t𨡺\n𨣞\t𨟳\n𨣧\t𨠨\n𨤻\t𨤰\n𨥛\t𨱀\n𨥟\t𫓫\n𨦫\t䦀\n𨧀\t𬭊\n𨧜\t䦁\n𨧰\t𫟽\n𨧱\t𨱊\n𨨏\t𬭛\n𨨛\t𫓼\n𨨢\t𫓿\n𨩰\t𫟾\n𨪕\t𫓮\n𨫒\t𨱐\n𨬖\t𫔏\n𨭆\t𬭶\n𨭎\t𬭳\n𨭖\t𫔑\n𨭸\t𫔐\n𨮂\t𨱕\n𨮳\t𫔒\n𨯅\t䥿\n𨯟\t𫔓\n𨰃\t𫔉\n𨰋\t𫓳\n𨰥\t𫔕\n𨰲\t𫔃\n𨲳\t𫔖\n𨳑\t𨸁\n𨳕\t𨸀\n𨴗\t𨸅\n𨴹\t𫔲\n𨵩\t𨸆\n𨵸\t𨸇\n𨶀\t𨸉\n𨶏\t𨸊\n𨶮\t𨸌\n𨶲\t𨸋\n𨷲\t𨸎\n𨼳\t𫔽\n𨽏\t𨸘\n𩀨\t𫕚\n𩅙\t𫕨\n𩎖\t𫖑\n𩎢\t𩏾\n𩏂\t𫖓\n𩏠\t𫖖\n𩏪\t𩏽\n𩏷\t𫃗\n𩑔\t𫖪\n𩒎\t𫖭\n𩓣\t𩖕\n𩓥\t𫖵\n𩔑\t𫖷\n𩔳\t𫖴\n𩖰\t𫠇\n𩗀\t𩙦\n𩗓\t𫗈\n𩗴\t𫗉\n𩘀\t𩙩\n𩘝\t𩙭\n𩘹\t𩙨\n𩘺\t𩙬\n𩙈\t𩙰\n𩚛\t𩟿\n𩚥\t𩠀\n𩚩\t𫗡\n𩚵\t𩠁\n𩛆\t𩠂\n𩛌\t𫗤\n𩛡\t𫗨\n𩛩\t𩠃\n𩜇\t𩠉\n𩜦\t𩠆\n𩜵\t𩠊\n𩝔\t𩠋\n𩝽\t𫗳\n𩞄\t𩠎\n𩞦\t𩠏\n𩞯\t䭪\n𩟐\t𩠅\n𩟗\t𫗚\n𩠴\t𩠠\n𩡣\t𩡖\n𩡺\t𩧦\n𩢡\t𩧬\n𩢴\t𩧵\n𩢸\t𩧳\n𩢾\t𩧮\n𩣏\t𩧶\n𩣑\t䯃\n𩣫\t𩧸\n𩣵\t𩧻\n𩣺\t𩧼\n𩤊\t𩧩\n𩤙\t𩨆\n𩤲\t𩨉\n𩤸\t𩨅\n𩥄\t𩨋\n𩥇\t𩨍\n𩥉\t𩧱\n𩥑\t𩨌\n𩦠\t𫠌\n𩧆\t𩨐\n𩭙\t𩬣\n𩯁\t𫙂\n𩯳\t𩯒\n𩰀\t𩬤\n𩰹\t𩰰\n𩳤\t𩲒\n𩴵\t𩴌\n𩵦\t𫠏\n𩵩\t𩽺\n𩵹\t𩽻\n𩶁\t𫚎\n𩶘\t䲞\n𩶰\t𩽿\n𩶱\t𩽽\n𩷰\t𩾄\n𩸃\t𩾅\n𩸄\t𫚝\n𩸡\t𫚟\n𩸦\t𩾆\n𩻗\t𫚨\n𩻬\t𫚩\n𩻮\t𫚘\n𩼶\t𫚬\n𩽇\t𩾎\n𩿅\t𫠖\n𩿤\t𫛠\n𩿪\t𪉄\n𪀖\t𫛧\n𪀦\t𪉅\n𪀾\t𪉋\n𪁈\t𪉉\n𪁖\t𪉌\n𪂆\t𪉎\n𪃍\t𪉐\n𪃏\t𪉏\n𪃒\t𫛻\n𪃧\t𫛹\n𪄆\t𪉔\n𪄕\t𪉒\n𪅂\t𫜂\n𪆷\t𫛾\n𪇳\t𪉕\n𪈼\t𱊜\n𪉸\t𫜊\n𪋿\t𫧮\n𪌭\t𫜓\n𪍠\t𫜕\n𪓰\t𫜟\n𪔵\t𪔭\n𪘀\t𪚏\n𪘯\t𪚐\n𪙏\t𫜯\n𪟖\t𠛾\n𪷓\t𣶭\n𫒡\t𫓷\n𫜦\t𫜫\n𰻞\t𰻝\n唚\t吣\n拏\t拿\n揹\t背\n斲\t斫\n暱\t昵\n濬\t浚\n燄\t焰\n牠\t它\n瑯\t琅\n籐\t藤\n緪\t縆\n耈\t耇\n耡\t锄\n荳\t豆\n菓\t果\n薰\t熏\n蘗\t檗\n觔\t斤\n鎗\t枪\n隄\t堤\n氄\t𣭲\n著\t着\n";

/// The number of parts of the text.
pub const PARTS: usize = 5;

/// Part `i` of the `TSCharacters` text; a later entry for the same source wins.
pub open spec fn part(i: int) -> Seq<char> {
    if i == 0 {
        TS_CHARACTERS_0@
    } else if i == 1 {
        TS_CHARACTERS_1@
    } else if i == 2 {
        TS_CHARACTERS_2@
    } else if i == 3 {
        TS_CHARACTERS_3@
    } else if i == 4 {
        TS_CHARACTERS_4@
    } else {
        Seq::empty()
    }
}

/// Part `i` of the text.
pub fn part_exec(i: usize) -> (r: &'static str)
    requires
        i < PARTS,
    ensures
        r@ == part(i as int),
{
    match i {
        0 => TS_CHARACTERS_0,
        1 => TS_CHARACTERS_1,
        2 => TS_CHARACTERS_2,
        3 => TS_CHARACTERS_3,
        4 => TS_CHARACTERS_4,
        _ => TS_CHARACTERS_0,
    }
}

} // verus!
