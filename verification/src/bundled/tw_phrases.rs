//! Bundled `TWPhrases` dictionary: entries `source<TAB>replacement`, one per line.

use vstd::prelude::*;

verus! {

/// Part 0 of the text.
pub const TW_PHRASES_0: &'static str = "B超\t超音波\nPN結\tPN接面\nSQL注入\tSQL隱碼攻擊\nSQL注入攻擊\tSQL隱碼攻擊\nU盤\t隨身碟\n丁丁當\t叮叮噹\n丁丁當當\t叮叮噹噹\n丁型肝炎\tD型肝炎\n丁當\t叮噹\n丁肝\tD肝\n三極管\t三極體\n下拉列表\t下拉式清單\n丙型肝炎\tC型肝炎\n丙氨酸\t丙胺酸\n丙肝\tC肝\n並行計算\t平行計算\n中間件\t中介軟體\n串口\t序列埠\n串行\t序列\n串行端口\t序列埠\n丹尼·博伊爾\t丹尼·鮑伊\n主引導記錄\t主開機記錄\n主板\t主機板\n乍得\t查德\n乙型肝炎\tB型肝炎\n乙肝\tB肝\n也門\t葉門\n二噁英\t戴奧辛\n二極管\t二極體\n互聯網\t網際網路\n互聯網絡\t互連網路\n亞歷杭德羅·岡薩雷斯·伊納裏圖\t阿利安卓·崗札雷·伊納利圖\n交互\t互動\n交互式\t互動式\n亨德爾\t韓德爾\n亮氨酸\t白胺酸\n人工智能\t人工智慧\n他汀類\t史他汀類\n仙童半導體\t快捷半導體\n代碼\t程式碼\n代碼頁\t內碼表\n代謝綜合徵\t代謝症候群\n以太網\t乙太網路\n以太網絡\t乙太網路\n以太網路\t乙太網路\n以太網路由器\t乙太網路路由器\n任務欄\t工作列\n任務管理器\t工作管理員\n仿真\t模擬\n伊利亞·卡贊\t伊力·卡山\n伊利諾伊\t伊利諾\n伊利諾伊州\t伊利諾州\n伯克希爾·哈撒韋\t波克夏海瑟威\n伯克希爾·哈撒韋公司\t波克夏海瑟威公司\n伯克希爾哈撒韋\t波克夏海瑟威\n伯克希爾哈撒韋公司\t波克夏海瑟威公司\n伯利茲\t貝里斯\n位圖\t點陣圖\n低級\t低級\n佐治亞\t喬治亞\n佐治亞州\t喬治亞州\n佛得角\t維德角\n便攜式\t行動式\n俄克拉何馬\t奧克拉荷馬\n俄克拉何馬城\t奧克拉荷馬城\n俄克拉何馬州\t奧克拉荷馬州\n俄克拉何馬市\t奧克拉荷馬市\n俄克拉荷馬\t奧克拉荷馬\n俄克拉荷馬城\t奧克拉荷馬城\n俄克拉荷馬州\t奧克拉荷馬州\n俄克拉荷馬市\t奧克拉荷馬市\n俄勒岡\t奧勒岡\n俄勒岡州\t奧勒岡州\n保存\t儲存\n保羅·哈吉斯\t保羅·海吉斯\n信噪比\t訊雜比\n信息\t資訊\n信息安全\t資訊安全\n信息技術\t資訊科技\n信息論\t資訊理論\n信號\t訊號\n信道\t通道\n借記卡\t簽帳金融卡\n傅里葉\t傅立葉\n傳感\t感測\n像素\t畫素\n僞代碼\t虛擬碼\n優先級\t優先順序\n優化\t最佳化\n元數據\t後設資料\n元編程\t超程式設計\n元音\t母音\n光標\t游標\n光盤\t光碟\n光驅\t光碟機\n克列門蒂\t克萊門第\n克林特·伊斯特伍德\t克林·伊斯威特\n克羅地亞\t克羅埃西亞\n克萊門蒂\t克萊門第\n克里斯托弗·諾蘭\t克里斯多福·諾蘭\n免提\t擴音\n內存\t記憶體\n內存條\t記憶體模組\n內核\t核心\n內置\t內建\n內聯函數\t行內函數\n內部網\t內部網路\n內部網絡\t內部網路\n全局\t全域性\n全角\t全形\n公元\t西元\n公元紀年\t公元紀年\n兼容\t相容\n冒泡排序\t氣泡排序\n冰棍\t冰棒\n凱奇\t凱吉\n凱文·科斯特納\t凱文·科斯納\n凱瑟琳·畢格羅\t凱薩琳·畢格羅\n出租車\t計程車\n函數\t函式\n函數式編程\t函數語言程式設計\n刀片服務器\t刀鋒伺服器\n分佈式\t分散式\n分區\t分割槽\n分辨率\t解析度\n列支敦士登\t列支敦斯登\n利比里亞\t賴比瑞亞\n利蓋蒂\t利蓋悌\n刷新\t重新整理\n刻錄\t燒錄\n前列腺\t攝護腺\n前綴\t字首\n剪切\t剪下\n剪貼板\t剪貼簿\n創建\t建立\n加納\t迦納\n加蓬\t加彭\n加載\t載入\n勃拉姆斯\t布拉姆斯\n勳伯格\t荀白克\n北卡羅來納\t北卡羅萊納\n北卡羅來納州\t北卡羅萊納州\n北馬里亞納\t北馬利安納\n北馬里亞納羣島\t北馬利安納群島\n半角\t半形\n南卡羅來納\t南卡羅萊納\n南卡羅來納州\t南卡羅萊納州\n博凱里尼\t波凱里尼\n博客\t部落格\n博茨瓦納\t波札那\n卡塔爾\t卡達\n危地馬拉\t瓜地馬拉\n卸載\t解除安裝\n厄瓜多爾\t厄瓜多\n厄立特里亞\t厄利垂亞\n原代碼\t原始碼\n參數\t引數\n參數表\t參數列\n古爾德\t顧爾德\n句柄\t控制代碼\n可執行文件\t執行檔\n可視化\t視覺化\n史蒂夫·麥奎因\t史提夫·麥昆\n司法程序\t司法程序\n吉列爾莫·德爾托羅\t吉勒摩·戴托羅\n吉布堤\t吉布地\n呼出\t撥出\n呼叫轉移\t來電轉接\n命令式編程\t指令式程式設計\n命令行\t命令列\n命名空間\t名稱空間\n咖喱\t咖哩\n哈希\t雜湊\n哈薩克斯坦\t哈薩克\n哥斯達黎加\t哥斯大黎加\n唐氏綜合徵\t唐氏症\n唐氏綜合症\t唐氏症\n喬治·克魯尼\t喬治·克隆尼\n喬治亞\t喬治亞\n單片機\t微控制器\n回調\t回撥\n固件\t韌體\n圖像\t影像\n圖庫\t相簿\n圖標\t圖示\n圖瓦盧\t吐瓦魯\n圖雷特綜合徵\t妥瑞氏症\n土庫曼斯坦\t土庫曼\n在線\t線上\n圭亞那\t蓋亞那\n地址\t地址\n地址欄\t位址列\n坦桑尼亞\t坦尚尼亞\n埃克森美孚\t艾克森美孚\n埃塞俄比亞\t衣索比亞\n埃爾加\t艾爾加\n城域網\t都會網路\n基里巴斯\t吉里巴斯\n堆棧\t堆疊\n堆棧溢出\t堆叠溢位\n場效應管\t場效電晶體\n塑料\t塑膠\n塔吉克斯坦\t塔吉克\n塞拉利昂\t獅子山\n塞浦路斯\t塞普勒斯\n塞舌爾\t塞席爾\n壁紙\t壁紙\n外置\t外接\n外部網\t外部網路\n外部網絡\t外部網路\n外鍵\t外部索引鍵\n多任務\t多工\n多動症\t過動症\n多囊卵巢綜合徵\t多囊性卵巢症候群\n多尼采蒂\t多尼采第\n多態\t多型\n多米尼加\t多明尼加\n多線程\t多執行緒\n大數據\t大數據\n大眾公司\t福斯汽車\n大眾汽車\t福斯汽車\n大眾汽車集團\t福斯汽車集團\n大眾集團\t福斯集團\n大衆公司\t福斯汽車\n大衆汽車\t福斯汽車\n大衆汽車集團\t福斯汽車集團\n大衆集團\t福斯集團\n天冬氨酸\t天冬胺酸\n天冬酰胺\t天冬醯胺\n天門冬氨酸\t天門冬胺酸\n天門冬酰胺\t天門冬醯胺\n奔馳\t賓士\n奧利弗·斯通\t奧利佛·史東\n奧巴馬\t歐巴馬\n奧爾夫\t奧福\n奶酪\t乳酪\n威廉·弗萊德金\t威廉·佛雷金\n威斯康星\t威斯康辛\n威斯康星州\t威斯康辛州\n孕酮\t黃體素\n字庫\t字型檔\n字段\t欄位\n字符\t字元\n字符串\t字串\n字符集\t字元集\n字節\t位元組\n字節跳動\t字節跳動\n字體\t字型\n存儲\t儲存\n存盤\t存檔\n孤獨症\t自閉症\n安提瓜和巴布達\t安地卡及巴布達\n宏\t宏\n宏內核\t單核心\n宏函數\t巨集函式\n宏命令\t巨集命令\n宏定義\t巨集定義\n宏展開\t巨集展開\n宏指令\t巨集指令\n宏替換\t巨集替換\n宏編程\t巨集程式設計\n宏處理\t巨集處理\n宏語言\t巨集語言\n宏調用\t巨集呼叫\n室顫\t心室顫動\n寄存器\t暫存器\n密歇根\t密西根\n密歇根州\t密西根州\n密鑰\t金鑰\n實例\t例項\n實時\t即時\n實模式\t真實模式\n審覈\t稽核\n寫保護\t防寫\n寬帶\t寬頻\n寶潔\t寶僑\n寶潔公司\t寶僑公司\n寶馬集團\tBMW集團\n尋址\t定址\n對乙酰氨基酚\t對乙醯胺基酚\n對話框\t對話方塊\n對象\t物件\n導入\t匯入\n導出\t匯出\n尼日利亞\t奈及利亞\n尼日爾\t尼日\n局域網\t區域網\n局部\t區域性\n屏幕\t螢幕\n屏蔽\t遮蔽\n岡比亞\t甘比亞\n嵌套\t巢狀\n巴巴多斯\t巴貝多\n巴布亞新幾內亞\t巴布亞紐幾內亞\n市場營銷\t市場行銷\n布列茲\t布萊茲\n布基納法索\t布吉納法索\n布拉德·皮特\t布萊德·彼特\n布爾\t布林\n布里頓\t布瑞頓\n布隆迪\t蒲隆地\n";

/// Part 1 of the text.
pub const TW_PHRASES_1: &'static str = "布雷頓\t布列敦\n布雷頓森林\t布列敦森林\n布雷頓森林體系\t布列敦森林制度\n帕勞\t帛琉\n帕金森病\t帕金森氏症\n帶寬\t頻寬\n幾內亞比紹\t幾內亞比索\n幾率\t機率\n庫欣綜合徵\t庫欣氏症候群\n康涅狄格\t康乃狄克\n康涅狄格州\t康乃狄克州\n引導程序\t載入程式\n弗吉尼亞\t維吉尼亞\n弗吉尼亞州\t維吉尼亞州\n弗朗西絲·麥克多曼德\t法蘭西絲·麥朵曼\n強生公司\t嬌生公司\n彙編\t彙編\n彙編器\t組譯器\n彙編語言\t組合語言\n彩超\t彩色超音波\n彼得·傑克遜\t彼得·傑克森\n後綴\t字尾\n循環\t迴圈\n德彪西\t德布西\n德沃夏克\t德弗札克\n心室顫動\t心室顫動\n心房撲動\t心房撲動\n心房顫動\t心房顫動\n心梗\t心肌梗塞\n心肌梗死\t心肌梗塞\n快閃存儲器\t快閃記憶體\n急性呼吸窘迫綜合徵\t急性呼吸窘迫症候群\n性價比\t價效比\n性能\t效能\n意大利\t義大利\n慢性疲勞綜合徵\t慢性疲勞症候群\n戊型肝炎\tE型肝炎\n戊肝\tE肝\n戒斷綜合徵\t戒斷症候群\n截取\t擷取\n截屏\t截圖\n戴留斯\t戴流士\n房撲\t心房撲動\n房顫\t心房顫動\n所羅門羣島\t索羅門群島\n所羅門群島\t索羅門群島\n打印\t列印\n打印機\t印表機\n打開\t打開\n打開文件\t開啟檔案\n批量\t批次\n抑鬱症\t憂鬱症\n抽動穢語綜合徵\t妥瑞氏症\n拉洛\t拉羅\n拉莫\t拉摩\n拉赫瑪尼諾夫\t拉赫曼尼諾夫\n拋出\t丟擲\n拷貝\t複製\n持久性\t永續性\n指針\t指標\n捲積\t摺積\n掃描儀\t掃描器\n掛斷通話\t結束通話\n採樣\t取樣\n採樣率\t取樣率\n接口\t介面\n控件\t控制元件\n插件\t外掛\n搜索\t搜尋\n摩爾線程\t摩爾線程\n撲熱息痛\t對乙醯胺基酚\n操作數\t運算元\n操作符\t運算子\n操作系統\t作業系統\n擴展\t擴充套件\n擴展名\t副檔名\n支持\t支援\n支持者\t支持者\n散列\t雜湊\n整數溢出\t整數溢位\n數字\t數字\n數字人文\t數位人文\n數字印刷\t數位印刷\n數字電子\t數位電子\n數字電路\t數位電路\n數據\t資料\n數據倉庫\t資料倉儲\n數據報\t資料包\n數據庫\t資料庫\n數據挖掘\t資料探勘\n數據源\t資料來源\n數組\t陣列\n文件\t檔案\n文件名\t檔名\n文件夾\t資料夾\n文件打開\t檔案開啟\n文件擴展名\t副檔名\n文字處理\t文書處理\n文檔\t文件\n文萊\t汶萊\n斯克里亞賓\t史克里亞賓\n斯卡拉蒂\t史卡拉第\n斯威士蘭\t史瓦濟蘭\n斯洛文尼亞\t斯洛維尼亞\n斯特拉文斯基\t史特拉汶斯基\n斯美塔那\t史麥塔納\n斯蒂芬·斯皮爾伯格\t史蒂芬·史匹柏\n新澤西\t紐澤西\n新澤西州\t紐澤西州\n新罕布什爾\t新罕布夏\n新罕布什爾州\t新罕布夏州\n新西蘭\t紐西蘭\n方便麪\t泡麵\n方程式\t方程式\n施托克豪森\t史托克豪森\n施特勞斯\t史特勞斯\n映射\t對映\n時分多址\t分時多重進接\n時分複用\t分時多工\n時鐘頻率\t時脈頻率\n普羅科菲耶夫\t普羅高菲夫\n晶閘管\t閘流體\n晶體管\t電晶體\n智能\t智慧\n最終用戶\t終端使用者\n有損壓縮\t有失真壓縮\n服務器\t伺服器\n朗·霍華德\t朗·霍華\n本·阿弗萊克\t班·艾佛列克\n本地代碼\t原生代碼\n析構函數\t解構函式\n枚舉\t列舉\n柏遼茲\t白遼士\n查找\t查詢\n查看\t檢視\n格什溫\t蓋希文\n格拉斯\t葛拉斯\n格林卡\t葛令卡\n格林納達\t格瑞那達\n格里格\t葛利格\n格魯吉亞\t喬治亞\n格魯吉亞共和國\t喬治亞共和國\n桌面型\t桌上型\n梅爾·吉布森\t梅爾·吉勃遜\n梅西安\t梅湘\n概率\t機率\n榴蓮\t榴槤\n構造函數\t建構函式\n構造器\t建構子\n標識符\t識別符號\n模塊\t模組\n模擬\t模擬\n模擬電子\t類比電子\n模擬電路\t類比電路\n權限\t許可權\n欣德米特\t興德密特\n歐拉\t尤拉\n歐萊雅\t萊雅\n歐萊雅集團\t萊雅集團\n正則表達式\t正規表示式\n正當程序\t正當程序\n正電子\t正子\n正電子發射計算機斷層\t正子斷層造影\n死機\t宕機\n殺毒\t防毒\n比特\t位元\n比特幣\t比特幣\n比特率\t位元率\n毛里塔尼亞\t茅利塔尼亞\n毛里求斯\t模里西斯\n氨基酸\t胺基酸\n氨苄西林\t安比西林\n沃倫·比蒂\t華倫·比提\n沃恩·威廉斯\t佛漢·威廉斯\n沃爾頓\t華爾頓\n沙特阿拉伯\t沙烏地阿拉伯\n沙特阿美\t沙烏地阿美\n沙特阿美公司\t沙烏地阿美公司\n波分複用\t波長分波多工\n波斯尼亞黑塞哥維那\t波士尼亞赫塞哥維納\n津巴布韋\t辛巴威\n洪都拉斯\t宏都拉斯\n海內存知己\t海內存知己\n海菲茨\t海飛茲\n消息\t訊息\n涼菜\t冷盤\n添加\t新增\n源代碼\t原始碼\n源文件\t原始檔\n源碼\t原始碼\n溢出\t溢出\n溢出位\t溢位位\n溢出檢查\t溢位檢查\n溫納圖萬\t那杜\n滾動條\t捲軸\n演示文稿\t簡報\n演算法\t演算法\n漢坦病毒\t漢他病毒\n潘德列茨基\t潘德列茲基\n激光\t雷射\n激活\t啟用\n烏茲別克斯坦\t烏茲別克\n無損壓縮\t無失真壓縮\n物理內存\t實體記憶體\n物理地址\t實體地址\n特拉華\t德拉瓦\n特拉華州\t德拉瓦州\n特立尼達和多巴哥\t千里達及托巴哥\n狀態欄\t狀態列\n獲得性免疫缺陷綜合徵\t後天免疫缺乏症候群\n珀塞爾\t普賽爾\n瑙魯\t諾魯\n瓦努阿圖\t萬那杜\n瓦格納\t華格納\n甘氨酸\t甘胺酸\n用戶\t使用者\n用戶名\t使用者名稱\n甲型肝炎\tA型肝炎\n甲硫氨酸\t甲硫胺酸\n甲肝\tA肝\n界面\t介面\n異亮氨酸\t異白胺酸\n異步\t非同步\n痴呆症\t失智症\n癡呆症\t失智症\n登錄\t登入\n發佈\t釋出\n發送\t傳送\n白細胞\t白血球\n的士\t計程車\n的士人\t的士人\n的士兵\t的士兵\n的士卒\t的士卒\n的士大夫\t的士大夫\n的士女\t的士女\n的士官\t的士官\n的士族\t的士族\n的士氣\t的士氣\n的士紳\t的士紳\n盤片\t碟片\n盤符\t磁碟機代號\n盧旺達\t盧安達\n目標代碼\t目的碼\n相冊\t相簿\n睡眠呼吸暫停綜合徵\t睡眠呼吸中止症\n矢量\t向量\n知識產權\t智慧財產權\n短信\t簡訊\n短視頻\t短影音\n砹\t砈\n硅\t矽\n硬件\t硬體\n硬盤\t硬碟\n碼分多址\t分碼多重進接\n碼率\t位元速率\n磁盤\t磁碟\n磁道\t磁軌\n社區\t社群\n禁用\t停用\n福雷\t佛瑞\n科恩兄弟\t柯恩兄弟\n科摩羅\t葛摩\n科普蘭\t柯普蘭\n科特迪瓦\t象牙海岸\n科雷利\t柯雷利\n移動數據\t行動數據\n移動硬盤\t行動硬碟\n移動網絡\t行動網路\n移動通信\t行動通訊\n移動電話\t行動電話\n程序\t程式\n程序不正義\t程序不正義\n程序員\t程式設計師\n程序正義\t程序正義\n穀氨酰胺\t麩醯胺酸\n穀氨酸\t麩胺酸\n穆索爾斯基\t穆索斯基\n空分多址\t分空間多重進接\n空分複用\t空間多工\n空氣淨化器\t空氣清淨機\n突尼斯\t突尼西亞\n窗口\t視窗\n端口\t埠\n筆記本電腦\t筆記型電腦\n算子\t運算元\n算法\t演算法\n範式\t範式\n簡·坎皮恩\t珍·康萍\n米歇爾·阿扎納維西於斯\t米歇爾·哈札納維西斯\n粘貼\t貼上\n精氨酸\t精胺酸\n約瑟夫·曼凱維奇\t約瑟夫·孟威茲\n紅心大戰\t傷心小棧\n紅細胞\t紅血球\n納米\t奈米\n納米比亞\t納米比亞\n索馬里\t索馬利亞\n組件\t元件\n組氨酸\t組胺酸\n絲氨酸\t絲胺酸\n綁定\t繫結\n綁架丁丁當\t綁架丁丁當\n經前期綜合徵\t經前症候群\n";

/// Part 2 of the text.
pub const TW_PHRASES_2: &'static str = "維瓦爾第\t韋瓦第\n網上鄰居\t網路上的芳鄰\n網卡\t網絡卡\n網吧\t網咖\n網絡\t網路\n網關\t閘道器\n線程\t執行緒\n編程\t程式設計\n編程語言\t程式語言\n緩存\t快取\n緩衝區溢出\t緩衝區溢位\n縮略圖\t縮圖\n縮進\t縮排\n總線\t匯流排\n纈氨酸\t纈胺酸\n缺省\t預設\n羅伯特·懷斯\t勞勃·懷斯\n羅伯特·本頓\t勞勃·班頓\n羅伯特·澤米吉斯\t羅勃·辛密克斯\n羅伯特·雷德福\t勞勃·瑞福\n羅得島\t羅德島\n羅得島州\t羅德島州\n美屬維爾京羣島\t美屬維京群島\n老人痴呆症\t老年失智症\n老人癡呆症\t老年失智症\n老年性痴呆症\t老年失智症\n老年性癡呆症\t老年失智症\n老年痴呆症\t老年失智症\n老年癡呆症\t老年失智症\n老撾\t寮國\n老撾人民民主共和國\t寮人民民主共和國\n聖基茨和尼維斯\t聖克里斯多福及尼維斯\n聖文森特和格林納丁斯\t聖文森及格瑞那丁\n聖盧西亞\t聖露西亞\n聖馬力諾\t聖馬利諾\n聯繫\t聯絡\n聯繫歷史\t通話記錄\n聲卡\t音效卡\n聲明\t宣告\n肖恩·貝克\t西恩·貝克\n肖斯塔科維奇\t蕭士塔高維契\n肖邦\t蕭邦\n肯尼亞\t肯亞\n胰腺\t胰臟\n胱氨酸\t胱胺酸\n脫機\t離線\n脯氨酸\t脯胺酸\n腎病綜合徵\t腎病症候群\n腕管綜合徵\t腕隧道症候群\n腦梗\t腦梗塞\n腦梗死\t腦梗塞\n腳本\t指令碼\n腸易激綜合徵\t大腸激躁症\n自動轉屏\t自動旋轉螢幕\n自行車\t腳踏車\n臺式機\t桌上型電腦\n臺積公司\t台積公司\n臺積電\t台積電\n航天飛機\t太空梭\n色氨酸\t色胺酸\n艾奧瓦\t愛荷華\n艾奧瓦州\t愛荷華州\n艾滋病\t愛滋病\n艾滋病人\t愛滋病患\n艾滋病毒\t愛滋病毒\n艾瑪·托馬斯\t艾瑪·湯瑪斯\n芯片\t晶片\n花屏\t破圖\n苯丙氨酸\t苯丙胺酸\n英偉達\t輝達\n莫扎特\t莫札特\n莫桑比克\t莫三比克\n菜單\t選單\n萊索托\t賴索托\n萬維網\t全球資訊網\n萬象\t永珍\n蒂佩特\t提佩特\n薩拉薩蒂\t薩拉沙泰\n薩蒂\t薩提\n藍屏\t藍色畫面\n蘇氨酸\t蘇胺酸\n蘇里南\t蘇利南\n處理程序\t處理程序\n虛函數\t虛擬函式\n虛擬機\t虛擬機器\n虛擬機器\t虛擬機器\n血紅蛋白\t血紅素\n表達式\t表示式\n複印\t影印\n複選按鈕\t核取按鈕\n複選框\t核取方塊\n西弗吉尼亞\t西維吉尼亞\n西弗吉尼亞州\t西維吉尼亞州\n西德尼·波拉克\t薛尼·波拉克\n西貝柳斯\t西貝流士\n視圖\t檢視\n視頻\t影片\n視頻會議\t視訊會議\n視頻通話\t視訊通話\n解釋器\t直譯器\n觸摸\t觸控\n觸摸屏\t觸控式螢幕\n計算機安全\t電腦保安\n計算機斷層\t電腦斷層\n計算機科學\t電腦科學\n訪問\t訪問\n設備\t裝置\n設置\t設定\n訴訟程序\t訴訟程序\n註冊機\t序號產生器\n註冊表\t登錄檔\n註銷\t登出\n詞組\t片語\n詹姆斯·卡梅隆\t詹姆斯·卡麥隆\n調度\t排程\n調用\t呼叫\n調色板\t調色盤\n調色盤\t調色盤\n調製\t調變\n調製解調器\t數據機\n調試\t除錯\n調試器\t偵錯程式\n諾蘭\t諾蘭\n變量\t變數\n貝利尼\t貝里尼\n貝寧\t貝南\n賴希\t萊許\n賴氨酸\t離胺酸\n贊比亞\t尚比亞\n超聲波\t超音波\n蹦極\t高空彈跳\n軟件\t軟體\n軟驅\t軟碟機\n軟體動物\t軟體動物\n輔音\t子音\n轉義字符\t跳脫字元\n通信\t通訊\n通訊卡\t通話卡\n通道\t通道\n通配符\t萬用字元\n連接\t連線\n連接器\t聯結器\n進制\t進位制\n進程\t程序\n運算符\t運算子\n運行\t執行\n過程式編程\t程序式程式設計\n遞歸\t遞迴\n遠程\t遠端\n適配器\t介面卡\n邁克·尼科爾斯\t麥克·尼可斯\n邁克爾·道格拉斯\t麥克·道格拉斯\n邏輯門\t邏輯閘\n酪氨酸\t酪胺酸\n酰\t醯\n里姆斯基·科薩科夫\t林姆斯基·高沙可夫\n重命名\t重新命名\n重裝\t重灌\n重載\t過載\n金屬氧化物半導體\t金氧半導體\n鈁\t鍅\n鈈\t鈽\n錄像\t錄影\n錇\t鉳\n鍀\t鎝\n鎄\t鑀\n鎇\t鋂\n鎿\t錼\n鏈接\t連結\n鏈表\t連結串列\n鏡像\t映象\n鐦\t鉲\n鑥\t鎦\n門德爾松\t孟德爾頌\n門戶網站\t入口網站\n門電路\t閘電路\n閃存\t快閃記憶體\n開市客\t好市多\n開市客公司\t好市多公司\n關係數據庫\t關聯式資料庫\n阻滯劑\t阻斷劑\n阿司匹林\t阿斯匹靈\n阿塞拜疆\t亞塞拜然\n阿拉伯聯合酋長國\t阿拉伯聯合大公國\n阿斯利康\t阿斯特捷利康\n阿斯利康公司\t阿斯特捷利康公司\n阿爾茨海默氏症\t阿茲海默氏症\n阿爾茨海默病\t阿茲海默症\n阿爾茨海默症\t阿茲海默症\n阿莫西林\t阿莫西林\n阿黛爾·羅曼斯基\t愛黛兒·羅曼斯基\n隊列\t佇列\n雅納切克\t楊納傑克\n集成\t整合\n集成電路\t積體電路\n集羣\t叢集\n雲存儲\t雲端儲存\n雲計算\t雲端計算\n雷諾綜合徵\t雷諾氏症候群\n電腦壁紙\t電腦桌布\n霍洛維茨\t霍洛維茲\n面向對象\t物件導向\n面向過程\t程序導向\n韋伯恩\t韋本\n音頻\t音訊\n頁眉\t頁首\n頁腳\t頁尾\n項目\t專案\n預處理器\t前處理器\n預設\t預設\n頭文件\t標頭檔案\n頻分多址\t分頻多重進接\n頻分複用\t分頻多工\n類型\t型別\n類模板\t類别範本\n顯像管\t映象管\n顯卡\t顯示卡\n顯存\t視訊記憶體\n飛行模式\t飛航模式\n首席信息官\t資訊長\n首席執行官\t執行長\n首席技術官\t技術長\n首席運營官\t營運長\n香農\t夏農\n馬丁·斯科塞斯\t馬丁·史柯西斯\n馬凡綜合徵\t馬凡氏症候群\n馬方綜合徵\t馬凡氏症候群\n馬爾代夫\t馬爾地夫\n馬薩諸塞\t麻薩諸塞\n馬薩諸塞州\t麻薩諸塞州\n馬里共和國\t馬利共和國\n高性能計算\t高效能運算\n高清\t高畫質\n高端\t高階\n高級\t高級\n高級設置\t進階設定\n高級選項\t進階選項\n高速緩存\t快取記憶體\n鮑羅丁\t包羅定\n黃體酮\t黃體素\n黑客\t駭客\n默認\t預設\n默認值\t預設值\n點擊\t點選\n鼠標\t滑鼠\n";

/// The number of parts of the text.
pub const PARTS: usize = 3;

/// Part `i` of the `TWPhrases` text; a later entry for the same source wins.
pub open spec fn part(i: int) -> Seq<char> {
    if i == 0 {
        TW_PHRASES_0@
    } else if i == 1 {
        TW_PHRASES_1@
    } else if i == 2 {
        TW_PHRASES_2@
    } else {
        Seq::empty()
    }
}

/// Part `i` of the text.
pub fn part_exec(i: usize) -> (r: &'static str)
    requires
        i < PARTS,
    ensures
        r@ == part(i as int),
{
    match i {
        0 => TW_PHRASES_0,
        1 => TW_PHRASES_1,
        2 => TW_PHRASES_2,
        _ => TW_PHRASES_0,
    }
}

} // verus!
