//! Bundled `TWPhrasesRev` dictionary: entries `source<TAB>replacement`, one per line.

use vstd::prelude::*;

verus! {

/// Part 0 of the text.
pub const TW_PHRASES_REV_0: &'static str = "A型肝炎\t甲型肝炎\nA肝\t甲肝\nBMW集團\t寶馬集團\nB型肝炎\t乙型肝炎\nB肝\t乙肝\nC型肝炎\t丙型肝炎\nC肝\t丙肝\nD型肝炎\t丁型肝炎\nD肝\t丁肝\nE型肝炎\t戊型肝炎\nE肝\t戊肝\nPN接面\tPN結\nSQL隱碼攻擊\tSQL注入\n三極體\t三極管\n下拉式清單\t下拉列表\n丙胺酸\t丙氨酸\n丟擲\t拋出\n中介軟體\t中間件\n丹尼·鮑伊\t丹尼·博伊爾\n主機板\t主板\n主開機記錄\t主引導記錄\n乙太網\t以太網\n乙太網路\t以太網\n乙太網路由器\t以太網路由器\n乙太網路路由器\t以太網路由器\n乙醯胺酚\t對乙酰氨基酚\n乳酪\t奶酪\n二極體\t二極管\n互動\t交互\n互動式\t交互式\n互連網路\t互聯網絡\n亞塞拜然\t阿塞拜疆\n亮胺酸\t亮氨酸\n人工智慧\t人工智能\n介面\t界面\n介面卡\t適配器\n代碼\t代碼\n代謝症候群\t代謝綜合徵\n伊利諾\t伊利諾伊\n伊利諾州\t伊利諾伊州\n伊力·卡山\t伊利亞·卡贊\n伺服器\t服務器\n佇列\t隊列\n位元\t比特\n位元率\t比特率\n位元組\t字節\n位元速率\t碼率\n位址\t地址\n位址列\t地址欄\n低級\t低級\n低階\t低級\n佛漢·威廉斯\t沃恩·威廉斯\n佛瑞\t福雷\n作業系統\t操作系統\n使用者\t用戶\n使用者名稱\t用戶名\n來電轉接\t呼叫轉移\n例項\t實例\n保羅·海吉斯\t保羅·哈吉斯\n信號\t信號\n停用\t禁用\n偵錯\t調試\n偵錯程式\t調試器\n傅立葉\t傅里葉\n傳送\t發送\n傷心小棧\t紅心大戰\n價效比\t性價比\n優先順序\t優先級\n儲存\t保存\n元件\t組件\n光碟\t光盤\n光碟機\t光驅\n克林·伊斯威特\t克林特·伊斯特伍德\n克羅埃西亞\t克羅地亞\n克萊門第\t克萊門蒂\n克里斯多福·諾蘭\t克里斯托弗·諾蘭\n入口網站\t門戶網站\n內建\t內置\n內碼表\t代碼頁\n內部網路\t內部網絡\n全域性\t全局\n全形\t全角\n全球資訊網\t萬維網\n公元紀年\t公元紀年\n冰棒\t冰棍\n冷盤\t涼菜\n凱吉\t凱奇\n凱文·科斯納\t凱文·科斯特納\n凱薩琳·畢格羅\t凱瑟琳·畢格羅\n函式\t函數\n函數語言程式設計\t函數式編程\n刀鋒伺服器\t刀片服務器\n分割槽\t分區\n分散式\t分佈式\n分時多工\t時分複用\n分時多重進接\t時分多址\n分碼多重進接\t碼分多址\n分空間多重進接\t空分多址\n分頻多工\t頻分複用\n分頻多重進接\t頻分多址\n列印\t打印\n列支敦斯登\t列支敦士登\n列舉\t枚舉\n利蓋悌\t利蓋蒂\n前處理器\t預處理器\n剪下\t剪切\n剪貼簿\t剪貼板\n副檔名\t擴展名\n加彭\t加蓬\n勞勃·懷斯\t羅伯特·懷斯\n勞勃·班頓\t羅伯特·本頓\n勞勃·瑞福\t羅伯特·雷德福\n包羅定\t鮑羅丁\n北卡羅萊納\t北卡羅來納\n北卡羅萊納州\t北卡羅來納州\n北馬利安納\t北馬里亞納\n北馬利安納群島\t北馬里亞納羣島\n匯入\t導入\n匯出\t導出\n匯流排\t總線\n區域性\t局部\n區域網\t局域網\n千里達及托巴哥\t特立尼達和多巴哥\n半形\t半角\n南卡羅萊納\t南卡羅來納\n南卡羅萊納州\t南卡羅來納州\n卡達\t卡塔爾\n印表機\t打印機\n即時\t實時\n厄利垂亞\t厄立特里亞\n厄瓜多\t厄瓜多爾\n原始檔\t源文件\n原始碼\t源代碼\n原生代碼\t本地代碼\n參數列\t參數表\n取樣\t採樣\n取樣率\t採樣率\n叢集\t集羣\n叮叮噹\t丁丁當\n叮叮噹噹\t丁丁當當\n叮噹\t丁當\n台積公司\t臺積公司\n台積電\t臺積電\n史他汀類\t他汀類\n史克里亞賓\t斯克里亞賓\n史卡拉第\t斯卡拉蒂\n史托克豪森\t施托克豪森\n史提夫·麥昆\t史蒂夫·麥奎因\n史特勞斯\t施特勞斯\n史特拉汶斯基\t斯特拉文斯基\n史瓦濟蘭\t斯威士蘭\n史蒂芬·史匹柏\t斯蒂芬·斯皮爾伯格\n史麥塔納\t斯美塔那\n司法程序\t司法程序\n吉勒摩·戴托羅\t吉列爾莫·德爾托羅\n吉布地\t吉布堤\n吉里巴斯\t基里巴斯\n名字空間\t命名空間\n名稱空間\t命名空間\n吐瓦魯\t圖瓦盧\n向量\t矢量\n呼叫\t調用\n命令列\t命令行\n咖哩\t咖喱\n哈薩克\t哈薩克斯坦\n哥斯大黎加\t哥斯達黎加\n唐氏症\t唐氏綜合徵\n啟用\t激活\n喬治·克隆尼\t喬治·克魯尼\n喬治亞\t喬治亞\n喬治亞共和國\t格魯吉亞共和國\n喬治亞州\t佐治亞州\n單核心\t宏內核\n回撥\t回調\n圖示\t圖標\n土庫曼\t土庫曼斯坦\n地址\t地址\n坦尚尼亞\t坦桑尼亞\n型別\t類型\n埠\t端口\n執行\t運行\n執行檔\t可執行文件\n執行緒\t線程\n執行長\t首席執行官\n堆疊\t堆棧\n場效電晶體\t場效應管\n塑膠\t塑料\n塔吉克\t塔吉克斯坦\n塞席爾\t塞舌爾\n塞普勒斯\t塞浦路斯\n壁紙\t壁紙\n夏農\t香農\n外掛\t插件\n外接\t外置\n外部索引鍵\t外鍵\n外部網路\t外部網絡\n多囊性卵巢症候群\t多囊卵巢綜合徵\n多型\t多態\n多執行緒\t多線程\n多尼采第\t多尼采蒂\n多工\t多任務\n多明尼加\t多米尼加\n大數據\t大數據\n大腸激躁症\t腸易激綜合徵\n天冬胺酸\t天冬氨酸\n天冬醯胺\t天冬酰胺\n天門冬胺酸\t天門冬氨酸\n天門冬醯胺\t天門冬酰胺\n太空梭\t航天飛機\n失智症\t痴呆症\n奈及利亞\t尼日利亞\n奈米\t納米\n奧克拉荷馬\t俄克拉何馬\n奧克拉荷馬城\t俄克拉何馬城\n奧克拉荷馬州\t俄克拉何馬州\n奧克拉荷馬市\t俄克拉何馬市\n奧利佛·史東\t奧利弗·斯通\n奧勒岡\t俄勒岡\n奧勒岡州\t俄勒岡州\n奧福\t奧爾夫\n好市多\t開市客\n好市多公司\t開市客公司\n妥瑞氏症\t抽動穢語綜合徵\n妥瑞症\t抽動穢語綜合徵\n威廉·佛雷金\t威廉·弗萊德金\n威斯康辛\t威斯康星\n威斯康辛州\t威斯康星州\n嬌生公司\t強生公司\n子音\t輔音\n字串\t字符串\n字元\t字符\n字元集\t字符集\n字型\t字體\n字型檔\t字庫\n字尾\t後綴\n字節跳動\t字節跳動\n字首\t前綴\n存取\t訪問\n存檔\t存盤\n孟德爾頌\t門德爾松\n安地卡及巴布達\t安提瓜和巴布達\n安比西林\t氨苄西林\n安莫西林\t阿莫西林\n宏\t宏\n宏都拉斯\t洪都拉斯\n宕機\t死機\n定址\t尋址\n宣告\t聲明\n密西根\t密歇根\n密西根州\t密歇根州\n實例\t實例\n實體地址\t物理地址\n實體記憶體\t物理內存\n寬頻\t寬帶\n寮人民民主共和國\t老撾人民民主共和國\n寮國\t老撾\n寶僑\t寶潔\n寶僑公司\t寶潔公司\n專案\t項目\n對乙醯胺基酚\t對乙酰氨基酚\n對映\t映射\n對話方塊\t對話框\n對象\t對象\n尚比亞\t贊比亞\n尤拉\t歐拉\n尼日\t尼日爾\n巢狀\t嵌套\n工作列\t任務欄\n工作管理員\t任務管理器\n巨集\t宏\n巨集函式\t宏函數\n巨集呼叫\t宏調用\n巨集命令\t宏命令\n巨集定義\t宏定義\n巨集展開\t宏展開\n巨集指令\t宏指令\n巨集替換\t宏替換\n巨集程式設計\t宏編程\n巨集處理\t宏處理\n巨集語言\t宏語言\n巴布亞紐幾內亞\t巴布亞新幾內亞\n巴貝多\t巴巴多斯\n巴金森氏症\t帕金森病\n市場行銷\t市場營銷\n布列敦\t布雷頓\n布列敦森林\t布雷頓森林\n布列敦森林制度\t布雷頓森林體系\n布吉納法索\t布基納法索\n布拉姆斯\t勃拉姆斯\n布林\t布爾\n布瑞頓\t布里頓\n布萊德·彼特\t布拉德·皮特\n布萊茲\t布列茲\n帕金森氏症\t帕金森病\n帛琉\t帕勞\n平行計算\t並行計算\n幾內亞比索\t幾內亞比紹\n序列\t串行\n序列埠\t串口\n序號產生器\t註冊機\n";

/// Part 1 of the text.
pub const TW_PHRASES_REV_1: &'static str = "庫欣氏症候群\t庫欣綜合徵\n康乃狄克\t康涅狄格\n康乃狄克州\t康涅狄格州\n建構函式\t構造函數\n建構子\t構造器\n建立\t創建\n引數\t參數\n彙編\t彙編\n彩色超音波\t彩超\n影像\t圖像\n影印\t複印\n影片\t視頻\n彼得·傑克森\t彼得·傑克遜\n後天免疫缺乏症候群\t獲得性免疫缺陷綜合徵\n後設資料\t元數據\n循環\t循環\n微控制器\t單片機\n德布西\t德彪西\n德弗札克\t德沃夏克\n德拉瓦\t特拉華\n德拉瓦州\t特拉華州\n心室顫動\t心室顫動\n心房撲動\t心房撲動\n心房顫動\t心房顫動\n心肌梗塞\t心肌梗死\n快取\t緩存\n快取記憶體\t高速緩存\n快捷半導體\t仙童半導體\n快閃記憶體\t閃存\n急性呼吸窘迫症候群\t急性呼吸窘迫綜合徵\n愛滋病\t艾滋病\n愛滋病患\t艾滋病人\n愛滋病毒\t艾滋病毒\n愛荷華\t艾奧瓦\n愛荷華州\t艾奧瓦州\n愛黛兒·羅曼斯基\t阿黛爾·羅曼斯基\n感測\t傳感\n慢性疲勞症候群\t慢性疲勞綜合徵\n憂鬱症\t抑鬱症\n戒斷症候群\t戒斷綜合徵\n截圖\t截屏\n戴奧辛\t二噁英\n戴流士\t戴留斯\n打開\t打開\n批次\t批量\n技術長\t首席技術官\n拉摩\t拉莫\n拉羅\t拉洛\n拉赫曼尼諾夫\t拉赫瑪尼諾夫\n指令式程式設計\t命令式編程\n指令碼\t腳本\n指標\t指針\n捲軸\t滾動條\n掃描器\t掃描儀\n排程\t調度\n控制代碼\t句柄\n控制元件\t控件\n提佩特\t蒂佩特\n搜尋\t搜索\n摩爾線程\t摩爾線程\n摺積\t捲積\n撥出\t呼出\n擴充套件\t擴展\n擴音\t免提\n擷取\t截取\n攜帶型\t便攜式\n攝護腺\t前列腺\n支持者\t支持者\n支援\t支持\n效能\t性能\n整合\t集成\n數位\t數字\n數位人文\t數字人文\n數位印刷\t數字印刷\n數位電子\t數字電子\n數位電路\t數字電路\n數字\t數字\n數據\t數據\n數據機\t調製解調器\n文件\t文檔\n文書處理\t文字處理\n斯洛維尼亞\t斯洛文尼亞\n新增\t添加\n新罕布夏\t新罕布什爾\n新罕布夏州\t新罕布什爾州\n方程式\t方程式\n映象\t鏡像\n映象管\t顯像管\n時脈頻率\t時鐘頻率\n普羅高菲夫\t普羅科菲耶夫\n普賽爾\t珀塞爾\n晶片\t芯片\n智慧\t智能\n智慧財產權\t知識產權\n暫存器\t寄存器\n最佳化\t優化\n有失真壓縮\t有損壓縮\n朗·霍華\t朗·霍華德\n林姆斯基·高沙可夫\t里姆斯基·科薩科夫\n查德\t乍得\n查詢\t查找\n柯恩兄弟\t科恩兄弟\n柯普蘭\t科普蘭\n柯雷利\t科雷利\n核取按鈕\t複選按鈕\n核取方塊\t複選框\n核心\t內核\n格瑞那達\t格林納達\n桌上型\t桌面型\n桌上型電腦\t臺式機\n梅湘\t梅西安\n梅爾·吉勃遜\t梅爾·吉布森\n楊納傑克\t雅納切克\n榴槤\t榴蓮\n標頭檔案\t頭文件\n模擬\t模擬\n模組\t模塊\n模里西斯\t毛里求斯\n機率\t概率\n檔名\t文件名\n檔案\t文件\n檔案開啟\t文件打開\n檢視\t查看\n欄位\t字段\n歐巴馬\t奧巴馬\n正子\t正電子\n正子斷層造影\t正電子發射計算機斷層\n正當程序\t正當程序\n正規化\t範式\n正規表示式\t正則表達式\n母音\t元音\n比特幣\t比特幣\n氣泡排序\t冒泡排序\n永珍\t萬象\n永續性\t持久性\n汶萊\t文萊\n沙烏地阿拉伯\t沙特阿拉伯\n沙烏地阿美\t沙特阿美\n沙烏地阿美公司\t沙特阿美公司\n法蘭西絲·麥朵曼\t弗朗西絲·麥克多曼德\n泡麵\t方便麪\n波克夏海瑟威\t伯克希爾哈撒韋\n波克夏海瑟威公司\t伯克希爾哈撒韋公司\n波凱里尼\t博凱里尼\n波士尼亞赫塞哥維納\t波斯尼亞黑塞哥維那\n波札那\t博茨瓦納\n波長分波多工\t波分複用\n海內存知己\t海內存知己\n海飛茲\t海菲茨\n消息\t消息\n游標\t光標\n溢位\t溢出\n滑鼠\t鼠標\n演算法\t演算法\n漢他病毒\t漢坦病毒\n潘德列茲基\t潘德列茨基\n烏茲別克\t烏茲別克斯坦\n無失真壓縮\t無損壓縮\n燒錄\t刻錄\n營運長\t首席運營官\n片語\t詞組\n物件\t對象\n物件導向\t面向對象\n狀態列\t狀態欄\n獅子山\t塞拉利昂\n珍·康萍\t簡·坎皮恩\n班·艾佛列克\t本·阿弗萊克\n瓜地馬拉\t危地馬拉\n甘比亞\t岡比亞\n甘胺酸\t甘氨酸\n甲硫胺酸\t甲硫氨酸\n畫素\t像素\n異亮胺酸\t異亮氨酸\n異白胺酸\t異亮氨酸\n登入\t登錄\n登出\t註銷\n登錄檔\t註冊表\n白胺酸\t亮氨酸\n白血球\t白細胞\n白遼士\t柏遼茲\n的士人\t的士人\n的士兵\t的士兵\n的士卒\t的士卒\n的士大夫\t的士大夫\n的士女\t的士女\n的士官\t的士官\n的士族\t的士族\n的士氣\t的士氣\n的士紳\t的士紳\n盧安達\t盧旺達\n目的碼\t目標代碼\n直譯器\t解釋器\n相容\t兼容\n相簿\t相冊\n真實模式\t實模式\n睡眠呼吸中止症\t睡眠呼吸暫停綜合徵\n短影音\t短視頻\n矽\t硅\n砈\t砹\n破圖\t花屏\n硬碟\t硬盤\n硬體\t硬件\n碟片\t盤片\n磁碟\t磁盤\n磁碟機代號\t盤符\n磁軌\t磁道\n社區\t社區\n社群\t社區\n福斯汽車\t大眾汽車\n福斯汽車集團\t大眾汽車集團\n福斯集團\t大眾集團\n程序\t進程\n程序不正義\t程序不正義\n程序導向\t面向過程\n程序式程式設計\t過程式編程\n程序正義\t程序正義\n程式\t程序\n程式碼\t代碼\n程式設計\t編程\n程式設計師\t程序員\n程式語言\t編程語言\n稽核\t審覈\n穀氨醯胺\t穀氨酰胺\n穀胺酸\t穀氨酸\n穆索斯基\t穆索爾斯基\n積體電路\t集成電路\n空氣清淨機\t空氣淨化器\n空間多工\t空分複用\n突尼西亞\t突尼斯\n筆記型電腦\t筆記本電腦\n範式\t範式\n簡報\t演示文稿\n簡訊\t短信\n簽帳金融卡\t借記卡\n米歇爾·哈札納維西斯\t米歇爾·阿扎納維西於斯\n粘貼\t粘貼\n精胺酸\t精氨酸\n約瑟夫·孟威茲\t約瑟夫·曼凱維奇\n紅血球\t紅細胞\n納米比亞\t納米比亞\n紐澤西\t新澤西\n紐澤西州\t新澤西州\n紐西蘭\t新西蘭\n索羅門群島\t所羅門群島\n索馬利亞\t索馬里\n終端使用者\t最終用戶\n組合語言\t彙編語言\n組胺酸\t組氨酸\n組譯\t彙編\n組譯器\t彙編器\n結束通話\t掛斷通話\n絲胺酸\t絲氨酸\n綁架丁丁當\t綁架丁丁當\n經前症候群\t經前期綜合徵\n維吉尼亞\t弗吉尼亞\n維吉尼亞州\t弗吉尼亞州\n維德角\t佛得角\n網咖\t網吧\n網絡卡\t網卡\n網路\t網絡\n網路上的芳鄰\t網上鄰居\n網際網路\t互聯網\n線上\t在線\n縮圖\t縮略圖\n縮排\t縮進\n繫結\t綁定\n纈胺酸\t纈氨酸\n羅勃·辛密克斯\t羅伯特·澤米吉斯\n羅德島\t羅得島\n羅德島州\t羅得島州\n美屬維京群島\t美屬維爾京羣島\n義大利\t意大利\n老年失智症\t老人痴呆症\n聖克里斯多福及尼維斯\t聖基茨和尼維斯\n聖文森及格瑞那丁\t聖文森特和格林納丁斯\n聖露西亞\t聖盧西亞\n聖馬利諾\t聖馬力諾\n聯結器\t連接器\n聯絡\t聯繫\n肯亞\t肯尼亞\n胰臟\t胰腺\n胱胺酸\t胱氨酸\n胺基酸\t氨基酸\n脯胺酸\t脯氨酸\n腎病症候群\t腎病綜合徵\n腕隧道症候群\t腕管綜合徵\n腦梗塞\t腦梗死\n腳踏車\t自行車\n自動旋轉螢幕\t自動轉屏\n自閉症\t孤獨症\n興德密特\t欣德米特\n色胺酸\t色氨酸\n艾克森美孚\t埃克森美孚\n艾爾加\t埃爾加\n艾瑪·湯瑪斯\t艾瑪·托馬斯\n苯丙胺酸\t苯丙氨酸\n茅利塔尼亞\t毛里塔尼亞\n荀白克\t勳伯格\n莫三比克\t莫桑比克\n莫札特\t莫扎特\n菜單\t菜單\n";

/// Part 2 of the text.
pub const TW_PHRASES_REV_2: &'static str = "華倫·比提\t沃倫·比蒂\n華格納\t瓦格納\n華爾頓\t沃爾頓\n萊許\t賴希\n萊雅\t歐萊雅\n萊雅集團\t歐萊雅集團\n萬用字元\t通配符\n萬那杜\t瓦努阿圖\n葉門\t也門\n葛令卡\t格林卡\n葛利格\t格里格\n葛拉斯\t格拉斯\n葛摩\t科摩羅\n蒲隆地\t布隆迪\n蓋亞那\t圭亞那\n蓋希文\t格什溫\n蕭士塔高維契\t肖斯塔科維奇\n蕭邦\t肖邦\n薛尼·波拉克\t西德尼·波拉克\n薩拉沙泰\t薩拉薩蒂\n薩提\t薩蒂\n藍色畫面\t藍屏\n蘇利南\t蘇里南\n蘇胺酸\t蘇氨酸\n處理程序\t處理程序\n虛擬函式\t虛函數\n虛擬機器\t虛擬機\n虛擬碼\t僞代碼\n螢幕\t屏幕\n血紅素\t血紅蛋白\n行內函數\t內聯函數\n行動式\t便攜式\n行動數據\t移動數據\n行動硬碟\t移動硬盤\n行動網路\t移動網絡\n行動通訊\t移動通信\n行動電話\t移動電話\n行程\t進程\n衣索比亞\t埃塞俄比亞\n表示式\t表達式\n裝置\t設備\n複製\t拷貝\n西元\t公元\n西恩·貝克\t肖恩·貝克\n西維吉尼亞\t西弗吉尼亞\n西維吉尼亞州\t西弗吉尼亞州\n西貝流士\t西貝柳斯\n視窗\t窗口\n視覺化\t可視化\n視訊\t視頻\n視訊會議\t視頻會議\n視訊記憶體\t顯存\n視訊通話\t視頻通話\n解析度\t分辨率\n解構函式\t析構函數\n解構子\t析構函數\n解除安裝\t卸載\n觸控\t觸摸\n觸控式螢幕\t觸摸屏\n計程車\t出租車\n訊息\t消息\n訊號\t信號\n訊雜比\t信噪比\n記憶體\t內存\n記憶體模組\t內存條\n訪問\t訪問\n設定\t設置\n許可權\t權限\n訴訟程序\t訴訟程序\n詹姆斯·卡麥隆\t詹姆斯·卡梅隆\n調色盤\t調色盤\n調變\t調製\n諾蘭\t諾蘭\n諾魯\t瑙魯\n識別符號\t標識符\n變數\t變量\n象牙海岸\t科特迪瓦\n貝南\t貝寧\n貝里尼\t貝利尼\n貝里斯\t伯利茲\n貼上\t粘貼\n資料\t數據\n資料來源\t數據源\n資料倉儲\t數據倉庫\n資料包\t數據報\n資料夾\t文件夾\n資料庫\t數據庫\n資料探勘\t數據挖掘\n資訊\t信息\n資訊安全\t信息安全\n資訊理論\t信息論\n資訊科技\t信息技術\n資訊長\t首席信息官\n賓士\t奔馳\n賴比瑞亞\t利比里亞\n賴索托\t萊索托\n超程式設計\t元編程\n超音波\t超聲波\n跳脫字元\t轉義字符\n軟碟機\t軟驅\n軟體\t軟件\n軟體動物\t軟體動物\n載入\t加載\n載入程式\t引導程序\n輝達\t英偉達\n辛巴威\t津巴布韋\n迦納\t加納\n迴圈\t循環\n通訊\t通信\n通話卡\t通訊卡\n通話記錄\t聯繫歷史\n通道\t通道\n速食麵\t方便麪\n連結\t鏈接\n連結串列\t鏈表\n連線\t連接\n進位制\t進制\n進程\t進程\n進階\t高級\n進階設定\t高級設置\n進階選項\t高級選項\n運算元\t操作數\n運算子\t操作符\n運算式\t表達式\n過動症\t多動症\n過載\t重載\n遞迴\t遞歸\n遠端\t遠程\n遮蔽\t屏蔽\n選單\t菜單\n邏輯閘\t邏輯門\n那杜\t溫納圖萬\n部落格\t博客\n都會網路\t城域網\n酪胺酸\t酪氨酸\n醯\t酰\n釋出\t發佈\n重新命名\t重命名\n重新整理\t刷新\n重灌\t重裝\n金氧半導體\t金屬氧化物半導體\n金鑰\t密鑰\n鈽\t鈈\n鉲\t鐦\n鉳\t錇\n鋂\t鎇\n錄影\t錄像\n錼\t鎿\n鍅\t鈁\n鎝\t鍀\n鎦\t鑥\n鑀\t鎄\n開啟檔案\t打開文件\n閘流體\t晶閘管\n閘道器\t網關\n閘電路\t門電路\n關聯式資料庫\t關係數據庫\n防寫\t寫保護\n防毒\t殺毒\n阻斷劑\t阻滯劑\n阿利安卓·崗札雷·伊納利圖\t亞歷杭德羅·岡薩雷斯·伊納裏圖\n阿拉伯聯合大公國\t阿拉伯聯合酋長國\n阿斯匹靈\t阿司匹林\n阿斯特捷利康\t阿斯利康\n阿斯特捷利康公司\t阿斯利康公司\n阿茲海默氏症\t阿爾茨海默氏症\n阿茲海默症\t阿爾茨海默症\n阿莫西林\t阿莫西林\n陣列\t數組\n除錯\t調試\n隨身碟\tU盤\n雜湊\t哈希\n離線\t脫機\n離胺酸\t賴氨酸\n雲端儲存\t雲存儲\n雲端計算\t雲計算\n雷射\t激光\n雷諾氏症候群\t雷諾綜合徵\n電晶體\t晶體管\n電腦保安\t計算機安全\n電腦斷層\t計算機斷層\n電腦桌布\t電腦壁紙\n電腦科學\t計算機科學\n霍洛維茲\t霍洛維茨\n非同步\t異步\n韋本\t韋伯恩\n韋瓦第\t維瓦爾第\n韌體\t固件\n韓德爾\t亨德爾\n音效卡\t聲卡\n音訊\t音頻\n頁尾\t頁腳\n頁首\t頁眉\n預設\t預設\n預設值\t默認值\n頻寬\t帶寬\n類别範本\t類模板\n類比\t模擬\n類比電子\t模擬電子\n類比電路\t模擬電路\n顧爾德\t古爾德\n顯示卡\t顯卡\n飛航模式\t飛行模式\n馬丁·史柯西斯\t馬丁·斯科塞斯\n馬凡氏症\t馬方綜合徵\n馬凡氏症候群\t馬方綜合徵\n馬利共和國\t馬里共和國\n馬爾地夫\t馬爾代夫\n駭客\t黑客\n高效能運算\t高性能計算\n高畫質\t高清\n高空彈跳\t蹦極\n高級\t高級\n高階\t高級\n麥克·尼可斯\t邁克·尼科爾斯\n麥克·道格拉斯\t邁克爾·道格拉斯\n麩胺酸\t穀氨酸\n麩醯胺酸\t穀氨酰胺\n麻薩諸塞\t馬薩諸塞\n麻薩諸塞州\t馬薩諸塞州\n黃體素\t孕酮\n點選\t點擊\n點陣圖\t位圖\n";

/// The number of parts of the text.
pub const PARTS: usize = 3;

/// Part `i` of the `TWPhrasesRev` text; a later entry for the same source wins.
pub open spec fn part(i: int) -> Seq<char> {
    if i == 0 {
        TW_PHRASES_REV_0@
    } else if i == 1 {
        TW_PHRASES_REV_1@
    } else if i == 2 {
        TW_PHRASES_REV_2@
    } else {
        Seq::empty()
    }
}

/// Part `i` of the text.
pub fn part_exec(i: usize) -> (r: &'static str)
    requires
        i < PARTS,
    ensures
        r@ == part(i as int),
{
    match i {
        0 => TW_PHRASES_REV_0,
        1 => TW_PHRASES_REV_1,
        2 => TW_PHRASES_REV_2,
        _ => TW_PHRASES_REV_0,
    }
}

} // verus!
