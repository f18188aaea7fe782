//! Bundled `HKVariantsPhrases` dictionary: entries `source<TAB>replacement`, one per line.

use vstd::prelude::*;

verus! {

/// Part 0 of the text.
pub const HK_VARIANTS_PHRASES_0: &'static str = "一幻拉麪\t一幻拉麵\n一粥麪\t一粥麵\n三田製麪所\t三田製麵所\n仙姑峯\t仙姑峰\n何芷姍\t何芷姗\n佛教茂峯法師紀念中學\t佛教茂峰法師紀念中學\n儒林台\t儒林臺\n儒林臺\t儒林臺\n光明台\t光明臺\n光明臺\t光明臺\n光景台\t光景臺\n光景臺\t光景臺\n光漢台\t光漢臺\n光漢臺\t光漢臺\n冠冕台\t冠冕臺\n冠冕臺\t冠冕臺\n冠峯街\t冠峰街\n冼靖峯\t冼靖峰\n列拿士地台\t列拿士地臺\n列拿士地臺\t列拿士地臺\n利羣道\t利群道\n利舞台廣場\t利舞臺廣場\n利舞臺廣場\t利舞臺廣場\n劉利羣\t劉利群\n加倫台\t加倫臺\n加倫臺\t加倫臺\n加冕台\t加冕臺\n加冕臺\t加冕臺\n北港島線\t北港島綫\n北環線\t北環綫\n北角台\t北角臺\n北角臺\t北角臺\n匯基書院\t滙基書院\n匯豐\t滙豐\n匯豐銀行\t滙豐銀行\n南港島線\t南港島綫\n南記粉麪\t南記粉麵\n吃茶舍\t喫茶舍\n合羣街\t合群街\n吳子沖\t吳子冲\n味千拉麪\t味千拉麵\n啟思中學\t啓思中學\n喫茶小舖\t喫茶小舖\n喫茶舍\t喫茶舍\n大埔循道衛理小學\t大埔循道衛理小學\n大埔循道衞理小學\t大埔循道衛理小學\n大學教育資助委員會祕書處\t大學教育資助委員會秘書處\n大安台\t大安臺\n大安臺\t大安臺\n大班麪包西餅\t大班麵包西餅\n天文台圍\t天文臺圍\n天文台道\t天文臺道\n天文臺圍\t天文臺圍\n天文臺道\t天文臺道\n姜詠鑫\t姜咏鑫\n孖峯嶺路\t孖峰嶺路\n安慶台\t安慶臺\n安慶臺\t安慶臺\n安羣街\t安群街\n宋皇台\t宋皇臺\n宋皇台道\t宋皇臺道\n宋皇臺\t宋皇臺\n宋皇臺道\t宋皇臺道\n宏豐台\t宏豐臺\n宏豐臺\t宏豐臺\n寧漢豪\t甯漢豪\n寶峯徑\t寶峰徑\n將軍澳循道衛理小學\t將軍澳循道衛理小學\n將軍澳循道衞理小學\t將軍澳循道衛理小學\n將軍澳線\t將軍澳綫\n尖尾峯\t尖尾峰\n尖峯山\t尖峰山\n尚麪\t尚麵\n屯馬線\t屯馬綫\n山坡台\t山坡臺\n山坡臺\t山坡臺\n山城小麪\t山城小麵\n山崎麪飽\t山崎麵飽\n山村台\t山村臺\n山村臺\t山村臺\n山邊台\t山邊臺\n山邊臺\t山邊臺\n峯華邨\t峰華邨\n峯霞道\t峰霞道\n巷仔見麪館\t巷仔見麵館\n幺鳳士多\t么鳳士多\n康福台\t康福臺\n康福臺\t康福臺\n建羣街\t建群街\n張柏芝\t張柏芝\n張栢芝\t張栢芝\n張穎康\t張頴康\n張華峯\t張華峰\n張衛健\t張衛健\n張衞健\t張衛健\n循道衛理\t循道衛理\n循道衞理\t循道衛理\n恆大\t恒大\n恆指\t恒指\n恆生\t恒生\n恆生大學\t恒生大學\n恆生指數\t恒生指數\n愉峯道\t愉峰道\n愛羣道\t愛群道\n截取通訊及監察事務專員祕書處\t截取通訊及監察事務專員秘書處\n摩頓台\t摩頓臺\n摩頓臺\t摩頓臺\n春暉台\t春暉臺\n春暉臺\t春暉臺\n景峯\t景峰\n景峯徑\t景峰徑\n朱匯林\t朱滙林\n朱柏康\t朱栢康\n朱柏謙\t朱栢謙\n李啟傑\t李啓傑\n李鉅峯\t李鉅峰\n杜琪峯\t杜琪峰\n東九龍線\t東九龍綫\n東山台\t東山臺\n東山臺\t東山臺\n東涌線\t東涌綫\n東鐵線\t東鐵綫\n林一峯\t林一峰\n林曉峯\t林曉峰\n林正峯\t林正峰\n林海峯\t林海峰\n林逸峯\t林逸峰\n桃李台\t桃李臺\n桃李臺\t桃李臺\n梁季彝中學\t梁季彜中學\n梁證嘉\t梁証嘉\n梁輝台\t梁輝臺\n梁輝臺\t梁輝臺\n梁釗峯\t梁釗峰\n梅豔芳\t梅艷芳\n榮華台\t榮華臺\n榮華臺\t榮華臺\n樂景台\t樂景臺\n樂景臺\t樂景臺\n樂羣街\t樂群街\n樓梯台\t樓梯臺\n樓梯臺\t樓梯臺\n機場快線\t機場快綫\n正斗粥麪專家\t正斗粥麵專家\n沙中線\t沙中綫\n沙田循道衛理小學\t沙田循道衛理小學\n沙田循道衞理小學\t沙田循道衛理小學\n河上鄉排峯路\t河上鄉排峰路\n活倫台\t活倫臺\n活倫臺\t活倫臺\n温兆倫\t溫兆倫\n温碧霞\t溫碧霞\n港島線\t港島綫\n溫兆倫\t溫兆倫\n溫碧霞\t溫碧霞\n潘雲峯\t潘雲峰\n澳美斯牀褥\t澳美斯床褥\n炮台山循道衛理中學\t炮台山循道衛理中學\n炮台山循道衞理中學\t炮台山循道衛理中學\n無線新聞\t無綫新聞\n無線新聞台\t無綫新聞台\n爐峯峽\t爐峰峽\n牛驥同一皁\t牛驥同一皁\n牛驥同皁\t牛驥同皁\n王家衛\t王家衛\n王家衞\t王家衛\n璧峯路\t璧峰路\n白石台\t白石臺\n白石台路\t白石臺路\n白石臺\t白石臺\n白石臺路\t白石臺路\n白臘\t白腊\n白臘仔\t白腊仔\n白臘灣\t白腊灣\n百老匯\t百老滙\n益羣道\t益群道\n福羣道\t福群道\n純喫茶\t純喫茶\n純陽峯\t純陽峰\n緬甸台\t緬甸臺\n緬甸臺\t緬甸臺\n繼園台\t繼園臺\n繼園臺\t繼園臺\n翠羣徑\t翠群徑\n翡翠拉麪小籠包\t翡翠拉麵小籠包\n老媽拌麪\t老媽拌麵\n聯合祕書處\t聯合秘書處\n肇輝台\t肇輝臺\n肇輝臺\t肇輝臺\n育羣街\t育群街\n脣茶\t唇茶\n芝古台\t芝古臺\n芝古臺\t芝古臺\n英王麪包\t英王麵包\n英華台\t英華臺\n英華臺\t英華臺\n茂峯\t茂峰\n荃灣線\t荃灣綫\n荔峯街\t荔峰街\n萬茂台\t萬茂臺\n萬茂臺\t萬茂臺\n葉藴儀\t葉蘊儀\n葉蘊儀\t葉蘊儀\n蔡曉峯\t蔡曉峰\n薪諮會聯合祕書處\t薪諮會聯合秘書處\n衛志豪\t衛志豪\n衛蘭\t衛蘭\n衛訊\t衛訊\n衛詩\t衛詩\n衛詩雅\t衛詩雅\n衞志豪\t衛志豪\n衞蘭\t衛蘭\n衞訊\t衛訊\n衞詩\t衛詩\n衞詩雅\t衛詩雅\n西摩台\t西摩臺\n西摩臺\t西摩臺\n西灣台\t西灣臺\n西灣臺\t西灣臺\n西鐵線\t西鐵綫\n觀塘線\t觀塘綫\n諾士佛台\t諾士佛臺\n諾士佛臺\t諾士佛臺\n謝詠欣\t謝咏欣\n豔馬道\t艷馬道\n迪士尼線\t迪士尼綫\n郭偉強\t郭偉强\n郭柏妍\t郭柏姸\n鄧梓峯\t鄧梓峰\n鄭恕峯\t鄭恕峰\n鄭衍峯\t鄭衍峰\n金龍台\t金龍臺\n金龍臺\t金龍臺\n鉛礦坳\t鉛鑛坳\n銀台路\t銀臺路\n銀礦灣\t銀鑛灣\n銀礦灣路\t銀鑛灣路\n銀線灣道\t銀綫灣道\n銀臺路\t銀臺路\n鋼線灣道\t鋼綫灣道\n錦繡大道\t錦綉大道\n錦繡花園\t錦綉花園\n阮政峯\t阮政峰\n陳柏緯\t陳栢緯\n雅芳婷牀褥\t雅芳婷床褥\n雅蘭牀褥\t雅蘭床褥\n青蓮台\t青蓮臺\n青蓮臺\t青蓮臺\n馬鞍山循道衛理小學\t馬鞍山循道衛理小學\n馬鞍山循道衞理小學\t馬鞍山循道衛理小學\n馬頭峯\t馬頭峰\n駿羣路\t駿群路\n騰龍台\t騰龍臺\n騰龍臺\t騰龍臺\n高盛台\t高盛臺\n高盛臺\t高盛臺\n魏韻芝\t魏韵芝\n鳳凰台\t鳳凰臺\n鳳凰臺\t鳳凰臺\n鳳羣徑\t鳳群徑\n鳳羣街\t鳳群街\n鳳輝台\t鳳輝臺\n鳳輝臺\t鳳輝臺\n麪房街\t麵房街\n麪房里\t麵房里\n黃成\t黃成\n黃柏文\t黃栢文\n黃柏鳴\t黃栢鳴\n鼇磡\t鰲磡\n鼇磡沙\t鰲磡沙\n鼇磡石\t鰲磡石\n鼇魚頭\t鰲魚頭\n什麼\t甚麼\n";

/// The number of parts of the text.
pub const PARTS: usize = 1;

/// Part `i` of the `HKVariantsPhrases` text; a later entry for the same source wins.
pub open spec fn part(i: int) -> Seq<char> {
    if i == 0 {
        HK_VARIANTS_PHRASES_0@
    } else {
        Seq::empty()
    }
}

/// Part `i` of the text.
pub fn part_exec(i: usize) -> (r: &'static str)
    requires
        i < PARTS,
    ensures
        r@ == part(i as int),
{
    match i {
        0 => HK_VARIANTS_PHRASES_0,
        _ => HK_VARIANTS_PHRASES_0,
    }
}

} // verus!
