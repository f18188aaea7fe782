//! Bundled CJK Compatibility Ideograph table: character pairs, source then target.

use vstd::prelude::*;

verus! {

/// Part 0 of the text.
pub const COMPAT_IDEOGRAPHS_0: &'static str = "豈豈更更車車賈賈滑滑串串句句龜龜龜龜契契金金喇喇奈奈懶懶癩癩羅羅蘿蘿螺螺裸裸邏邏樂樂洛洛烙烙珞珞落落酪酪駱駱亂亂卵卵欄欄爛爛蘭蘭鸞鸞嵐嵐濫濫藍藍襤襤拉拉臘臘蠟蠟廊廊朗朗浪浪狼狼郎郎來來冷冷勞勞擄擄櫓櫓爐爐盧盧老老蘆蘆虜虜路路露露魯魯鷺鷺碌碌祿祿綠綠菉菉錄錄鹿鹿論論壟壟弄弄籠籠聾聾牢牢磊磊賂賂雷雷壘壘屢屢樓樓淚淚漏漏累累縷縷陋陋勒勒肋肋凜凜凌凌稜稜綾綾菱菱陵陵讀讀拏拏樂樂諾諾丹丹寧寧怒怒率率異異北北磻磻便便復復不不泌泌數數索索參參塞塞省省葉葉說說殺殺辰辰沈沈拾拾若若掠掠略略亮亮兩兩凉凉梁梁糧糧良良諒諒量量勵勵呂呂女女廬廬旅旅濾濾礪礪閭閭驪驪麗麗黎黎力力曆曆歷歷轢轢年年憐憐戀戀撚撚漣漣煉煉璉璉秊秊練練聯聯輦輦蓮蓮連連鍊鍊列列劣劣咽咽烈烈裂裂說說廉廉念念捻捻殮殮簾簾獵獵令令囹囹寧寧嶺嶺怜怜玲玲瑩瑩羚羚聆聆鈴鈴零零靈靈領領例例禮禮醴醴隸隸惡惡了了僚僚寮寮尿尿料料樂樂燎燎療療蓼蓼遼遼龍龍暈暈阮阮劉劉杻杻柳柳流流溜溜琉琉留留硫硫紐紐類類六六戮戮陸陸倫倫崙崙淪淪輪輪律律慄慄栗栗率率隆隆利利吏吏履履易易李李梨梨泥泥理理痢痢罹罹裏裏裡裡里里離離匿匿溺溺吝吝燐燐璘璘藺藺隣隣鱗鱗麟麟林林淋淋臨臨立立笠笠粒粒狀狀炙炙識識什什茶茶刺刺切切度度拓拓糖糖宅宅洞洞暴暴輻輻行行降降見見廓廓兀兀嗀嗀塚塚晴晴凞凞猪猪益益礼礼神神祥祥福福靖靖精精羽羽蘒蘒諸諸逸逸都都飯飯飼飼館館鶴鶴郞郞隷隷侮侮僧僧免免勉勉勤勤卑卑喝喝嘆嘆器器塀塀墨墨層層屮屮悔悔慨慨憎憎懲懲敏敏既既暑暑梅梅海海渚渚漢漢煮煮爫爫琢琢碑碑社社祉祉祈祈祐祐祖祖祝祝禍禍禎禎穀穀突突節節練練縉縉繁繁署署者者臭臭艹艹艹艹著著褐褐視視謁謁謹謹賓賓贈贈辶辶逸逸難難響響頻頻恵恵𤋮𤋮舘舘並並况况全全侀侀充充冀冀勇勇勺勺喝喝啕啕喙喙嗢嗢塚塚墳墳奄奄奔奔婢婢嬨嬨廒廒廙廙彩彩徭徭惘惘慎慎愈愈憎憎慠慠懲懲戴戴揄揄搜搜摒摒敖敖晴晴朗朗望望杖杖歹歹殺殺流流滛滛滋滋漢漢瀞瀞煮煮瞧瞧爵爵犯犯猪猪瑱瑱甆甆画画瘝瘝瘟瘟益益盛盛直直睊睊着着磌磌窱窱節節类类絛絛練練缾缾者者荒荒華華蝹蝹襁襁覆覆視視調調諸諸請請謁謁諾諾諭諭謹謹變變贈贈輸輸遲遲醙醙鉶鉶陼陼難難靖靖韛韛響響頋頋頻頻鬒鬒龜龜𢡊𢡊𢡄𢡄𣏕𣏕㮝㮝䀘䀘䀹䀹𥉉𥉉𥳐𥳐𧻓𧻓齃齃龎龎丽丽丸丸乁乁𠄢𠄢你你侮侮侻侻倂倂偺偺備備僧僧像像㒞㒞𠘺𠘺免免兔兔兤兤具具𠔜𠔜㒹㒹內內再再𠕋𠕋冗冗冤冤仌仌冬冬况况𩇟𩇟凵凵刃刃㓟㓟刻刻剆剆割割剷剷㔕㔕勇勇勉勉勤勤勺勺包包匆匆北北卉卉卑卑博博即即卽卽卿卿卿卿卿卿𠨬𠨬灰灰及及叟叟𠭣𠭣叫叫叱叱吆吆咞咞吸吸呈呈周周咢咢哶哶唐唐啓啓啣啣善善善善喙喙喫喫喳喳嗂嗂圖圖嘆嘆圗圗噑噑噴噴切切壮壮城城埴埴堍堍型型堲堲報報墬墬𡓤𡓤売売壷壷夆夆多多夢夢奢奢𡚨𡚨𡛪𡛪姬姬娛娛娧娧姘姘婦婦㛮㛮㛼㛼嬈嬈嬾嬾嬾嬾𡧈𡧈寃寃寘寘寧寧寳寳𡬘𡬘寿寿将将当当尢尢㞁㞁屠屠屮屮峀峀岍岍𡷤𡷤嵃嵃𡷦𡷦嵮嵮嵫嵫嵼嵼巡巡巢巢㠯㠯巽巽帨帨帽帽幩幩㡢㡢𢆃𢆃㡼㡼庰庰庳庳庶庶廊廊𪎒𪎒廾廾𢌱𢌱𢌱𢌱舁舁弢弢弢弢㣇㣇𣊸𣊸𦇚𦇚形形彫彫㣣㣣徚徚忍忍志志忹忹悁悁㤺㤺㤜㤜悔悔𢛔𢛔惇惇慈慈慌慌慎慎慌慌慺慺憎憎憲憲憤憤憯憯懞懞懲懲懶懶成成戛戛扝扝抱抱拔拔捐捐𢬌𢬌挽挽拼拼捨捨掃掃揤揤𢯱𢯱搢搢揅揅掩掩㨮㨮摩摩摾摾撝撝摷摷㩬㩬敏敏敬敬𣀊𣀊旣旣書書晉晉㬙㬙暑暑㬈㬈㫤㫤冒冒冕冕最最暜暜肭肭䏙䏙朗朗望望朡朡杞杞杓杓𣏃𣏃㭉㭉柺柺枅枅桒桒梅梅𣑭𣑭梎梎栟栟椔椔㮝㮝楂楂榣榣槪槪檨檨𣚣𣚣櫛櫛㰘㰘次次𣢧𣢧歔歔㱎㱎歲歲殟殟殺殺殻殻𣪍𣪍𡴋𡴋𣫺𣫺汎汎𣲼𣲼沿沿泍泍汧汧洖洖派派海海流流浩浩浸浸涅涅𣴞𣴞洴洴港港湮湮㴳㴳滋滋滇滇𣻑𣻑淹淹潮潮𣽞𣽞𣾎𣾎濆濆瀹瀹瀞瀞瀛瀛㶖㶖灊灊災災灷灷炭炭𠔥𠔥煅煅𤉣𤉣熜熜𤎫𤎫爨爨爵爵牐牐𤘈𤘈犀犀犕犕𤜵𤜵𤠔𤠔獺獺王王㺬㺬玥玥㺸㺸㺸㺸瑇瑇瑜瑜瑱瑱璅璅瓊瓊㼛㼛甤甤𤰶𤰶甾甾𤲒𤲒異異𢆟𢆟瘐瘐𤾡𤾡𤾸𤾸𥁄𥁄㿼㿼䀈䀈直直𥃳𥃳𥃲𥃲𥄙𥄙𥄳𥄳眞眞真真真真睊睊䀹䀹瞋瞋䁆䁆䂖䂖𥐝𥐝硎硎碌碌磌磌䃣䃣𥘦𥘦祖祖𥚚𥚚𥛅𥛅福福秫秫䄯䄯穀穀穊穊穏穏𥥼𥥼𥪧𥪧𥪧𥪧竮竮䈂䈂𥮫𥮫篆篆築築䈧䈧𥲀𥲀糒糒䊠䊠糨糨糣糣紀紀𥾆𥾆絣絣䌁䌁緇緇縂縂繅繅䌴䌴𦈨𦈨𦉇𦉇䍙䍙𦋙𦋙罺罺𦌾𦌾羕羕翺翺者者𦓚𦓚𦔣𦔣聠聠𦖨𦖨聰聰𣍟𣍟䏕䏕育育脃脃䐋䐋脾脾媵媵𦞧𦞧𦞵𦞵𣎓𣎓𣎜𣎜舁舁舄舄辞辞䑫䑫芑芑芋芋芝芝劳劳花花芳芳芽芽苦苦𦬼𦬼若若茝茝荣荣莭莭茣茣莽莽菧菧著著荓荓菊菊菌菌菜菜𦰶𦰶𦵫𦵫𦳕𦳕䔫䔫蓱蓱蓳蓳蔖蔖𧏊𧏊蕤蕤𦼬𦼬䕝䕝䕡䕡𦾱𦾱𧃒𧃒䕫䕫虐虐虜虜虧虧虩虩蚩蚩蚈蚈蜎蜎蛢蛢蝹蝹蜨蜨蝫蝫螆螆䗗䗗蟡蟡蠁蠁䗹䗹衠衠衣衣𧙧𧙧裗裗裞裞䘵䘵裺裺㒻㒻𧢮𧢮𧥦𧥦䚾䚾䛇䛇誠誠諭諭變變豕豕𧲨𧲨貫貫賁賁贛贛起起𧼯𧼯𠠄𠠄跋跋趼趼跰跰𠣞𠣞軔軔輸輸𨗒𨗒𨗭𨗭邔邔郱郱鄑鄑𨜮𨜮鄛鄛鈸鈸鋗鋗鋘鋘鉼鉼鏹鏹鐕鐕𨯺𨯺開開䦕䦕閷閷𨵷𨵷䧦䧦雃雃嶲嶲霣霣𩅅𩅅𩈚𩈚䩮䩮䩶䩶韠韠𩐊𩐊䪲䪲𩒖𩒖頋頋頋頋頩頩𩖶𩖶飢飢䬳䬳餩餩馧馧駂駂駾駾䯎䯎𩬰𩬰鬒鬒鱀鱀鳽鳽䳎䳎䳭䳭鵧鵧𪃎𪃎䳸䳸𪄅𪄅𪈎𪈎𪊑𪊑麻麻䵖䵖黹黹黾黾鼅鼅鼏鼏鼖鼖鼻鼻𪘀𪘀";

/// The number of parts of the text.
pub const PARTS: usize = 1;

/// Part `i` of the pairs; a later pair for the same source wins.
pub open spec fn part(i: int) -> Seq<char> {
    if i == 0 {
        COMPAT_IDEOGRAPHS_0@
    } else {
        Seq::empty()
    }
}

/// Part `i` of the text.
pub fn part_exec(i: usize) -> (r: &'static str)
    requires
        i < PARTS,
    ensures
        r@ == part(i as int),
{
    match i {
        0 => COMPAT_IDEOGRAPHS_0,
        _ => COMPAT_IDEOGRAPHS_0,
    }
}

} // verus!
