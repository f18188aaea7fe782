//! Bundled extended Unicode compatibility table: character pairs, source then target.

use vstd::prelude::*;

verus! {

/// Part 0 of the text.
pub const UNICODE_COMPAT_0: &'static str = "⼀一⼁丨⼂丶⼃丿⼄乙⼅亅⼆二⼇亠⼈人⼉儿⼊入⼋八⼌冂⼍冖⼎冫⼏几⼐凵⼑刀⼒力⼓勹⼔匕⼕匚⼖匸⼗十⼘卜⼙卩⼚厂⼛厶⼜又⼝口⼞囗⼟土⼠士⼡夂⼢夊⼣夕⼤大⼥女⼦子⼧宀⼨寸⼩小⼪尢⼫尸⼬屮⼭山⼮巛⼯工⼰己⼱巾⼲干⼳幺⼴广⼵廴⼶廾⼷弋⼸弓⼹彐⼺彡⼻彳⼼心⼽戈⼾戶⼿手⽀支⽁攴⽂文⽃斗⽄斤⽅方⽆无⽇日⽈曰⽉月⽊木⽋欠⽌止⽍歹⽎殳⽏毋⽐比⽑毛⽒氏⽓气⽔水⽕火⽖爪⽗父⽘爻⽙爿⽚片⽛牙⽜牛⽝犬⽞玄⽟玉⽠瓜⽡瓦⽢甘⽣生⽤用⽥田⽦疋⽧疒⽨癶⽩白⽪皮⽫皿⽬目⽭矛⽮矢⽯石⽰示⽱禸⽲禾⽳穴⽴立⽵竹⽶米⽷糸⽸缶⽹网⽺羊⽻羽⽼老⽽而⽾耒⽿耳⾀聿⾁肉⾂臣⾃自⾄至⾅臼⾆舌⾇舛⾈舟⾉艮⾊色⾋艸⾌虍⾍虫⾎血⾏行⾐衣⾑襾⾒見⾓角⾔言⾕谷⾖豆⾗豕⾘豸⾙貝⾚赤⾛走⾜足⾝身⾞車⾟辛⾠辰⾡辵⾢邑⾣酉⾤釆⾥里⾦金⾧長⾨門⾩阜⾪隶⾫隹⾬雨⾭靑⾮非⾯面⾰革⾱韋⾲韭⾳音⾴頁⾵風⾶飛⾷食⾸首⾹香⾺馬⾻骨⾼高⾽髟⾾鬥⾿鬯⿀鬲⿁鬼⿂魚⿃鳥⿄鹵⿅鹿⿆麥⿇麻⿈黃⿉黍⿊黑⿋黹⿌黽⿍鼎⿎鼓⿏鼠⿐鼻⿑齊⿒齒⿓龍⿔龜⿕龠⺦丬⺰纟⻅见⻆角⻈讠⻉贝⻋车⻌辶⻐钅⻓长⻔门⻙韦⻚页⻛风⻜飞⻠饣⻢马⻥鱼⻦鸟⻧卤⻨麦⻩黄⻪黾⻬齐⻮齿⻰龙⻳龟⺋㔾⺖忄⺘扌⺞歺⺡氵⺣灬⺤爫⺨犭⺩𤣩⺫罒⺭礻⺮𥫗⺯糹⺲罒⺴⺳⺷𦍌⺼月⺾艹⻂衤⻃覀⻊𧾷⻏阝⻑長⻒镸⻖阝⻗雨⺟母⻘青⻤鬼〸十ム厶㑹會㓂寇㓜幼㕘參㝎定㝛宿㝠冥㝡最㡳底㢲巽㣲微㤗泰㤙恩㦯或㦳㘽㦸戟㧞拔㨗捷㫖旨㭊析㳙涓㴠涵㸑爨㸔看㺯弄㾗痕䂖石䆒究䎛㖈䑕鼠䒭等䟎趲䟦跋䧏降丗世乆久亊事亜亞亷廉亾亡仭仞倂併倶俱兊兌兠兜冐冒冝宜冦寇凢凡刄刃刋刊卽即厯歷叅參吿告呉吳呑吞唖啞噐器囘回囬回圅函圎圓圗圖圡土埀垂塡填夘卯娯娛宻密寃冤寕寧寛寬寜寧尙尚尭堯屛屏岀出嵗歲巓巔巻卷帯帶幤幣庻庶廏廄弾彈彚彙彛彝彞彝徃往徴徵恱悅愼慎懐懷戞戛戱戲戸戶扄扃揑捏揷插揺搖撃擊敎教敻夐旣既昬昏昻昂暁曉暦曆曁暨曵曳曺曹查査槩概槪概櫕欑歛斂歳歲歴歷浄淨涙淚淸清済濟湼涅溌潑漑溉濓濂濳潛濵濱濽灒焼燒熈熙瓉瓚甁瓶甞嘗畒畝畧略皷鼓眀明真眞硏研窰窑竒奇粛肅緖緒緪縆縁緣縦縱繋繫繍綉纉纘羙美羣群耈耇耉耇聴聽聼聽舎舍舗舖苖苗荘莊蝋蠟襃褒觧解諌諫譛譖讃讚賔賓賛贊軰輩輧軿逥迴逹達逺遠遅遲邉邊邜卯郷鄉鄕鄉鄷酆鄼酇醸釀錬鍊鎻鎖鐡鐵鑚鑽閠閏隂陰隠隱隣鄰隷隸靣面頥頤頺頹頼賴顚顛飮飲餠餅騈駢髙高髪髮鼔鼓龺𠦝𠀋丈𠁊爽𠂻衷𠉀候𠊱候𠑗㒨𠑽充𠕂再𠕋冊𠩄所𠫵參𠰥若𠰸咽𡈽土𡎖塤𡨋冥𡨕冥𡨚冤𡨜寂𡨥寇𡩋寧𡫞踰𡮢嘗𡵯步𡸁垂𡻕歲𢃄帶𢊸廩𢑱彝𢑴彝𢕄微𢖍衡𢦙或𢷤擯𢻻啓𣆨鼠𣔕𠓲𣪩殺𣱵永𣳚沒𣴑流𣵀涅𣶬涵𤇆烟𤈎㶷𤑕爋𤓰瓜𤕤爽𤣥玄𤤽珍𤧩𤦼𤨏瑣𤱈畝𤲢留𤼵發𥠺蒀𥧌寐𥨥竄𦄲縮𦔳助𦕻聰𦢤臢𦬆芒𧅄虁𧅰護𧥙𣁀𧫲諞𧺫起𨇃躦𨓜逸𨕞遷𨹓降𨽻隸𨽾隸𪇔鷀𪜭個𪡌咨𪧐宿𫑗卯𫞟為𫠦所𫮰墻𭁵寇𮡯鉚𱄔駰〈〈〉〉‧·︰：﹐，﹑、﹔；﹕：﹖？﹗！";

/// The number of parts of the text.
pub const PARTS: usize = 1;

/// Part `i` of the pairs; a later pair for the same source wins.
pub open spec fn part(i: int) -> Seq<char> {
    if i == 0 {
        UNICODE_COMPAT_0@
    } else {
        Seq::empty()
    }
}

/// Part `i` of the text.
pub fn part_exec(i: usize) -> (r: &'static str)
    requires
        i < PARTS,
    ensures
        r@ == part(i as int),
{
    match i {
        0 => UNICODE_COMPAT_0,
        _ => UNICODE_COMPAT_0,
    }
}

} // verus!
