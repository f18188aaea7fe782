//! Bundled DeToFu table: triples of a rare character, its fallback, and the letter
//! (`B` to `I`) of the CJK extension block the rare character belongs to.

use vstd::prelude::*;

verus! {

/// Part 0 of the text.
pub const TOFU_0: &'static str = "𠀾𠁞B𠁞𠀾B𠆲儣B𠆿𠌥B𠇹俓B𠉂㒓B𠉗𠏢B𠋆儭B𠌥𠆿B𠏢𠉗B𠗣㓆B𠚳𠠎B𠛅剾B𠛆𠞆B𠞆𠛆B𠠎𠚳B𠡠勑B𠮶嗰B𠯟哯B𠯠噅B𠰱㘉B𠰷嚧B𠱞囃B𠲥𡅏B𠴛𡃕B𠴢𡄔B𠵸𡄣B𠵾㗲B𡃕𠴛B𡄔𠴢B𡄣𠵸B𡅏𠲥B𡋀𡓾B𡋗𡑭B𡋤壗B𡍣𡔖B𡑭𡋗B𡒄壈B𡓾𡋀B𡔖𡍣B𡝠㜷B𡞋㜗B𡞱㜢B𡞵㛟B𡠟孎B𡠹㛿B𡢃㛠B𡥧孻B𡭜𡮉B𡭬𡮣B𡮉𡭜B𡮣𡭬B𡳃𡳳B𡳒𦘧B𡳳𡳃B𡶴嵼B𡸃𡽗B𡺃嶈B𡺄嶘B𡽗𡸃B𡾱㟜B𢋈㢝B𢗓㦛B𢘙𢤱B𢘝𢣚B𢘞𢣭B𢙏愻B𢙐憹B𢙑𢠼B𢙒憢B𢙓懀B𢛯㦎B𢠁懎B𢠼𢙑B𢢐𤢻B𢣚𢘝B𢣭𢘞B𢤱𢘙B𢧐戰B𢫊𢷮B𢫞𢶫B𢫬摋B𢬍擫B𢬦𢹿B𢭏擣B𢶫𢫞B𢷮𢫊B𢹿𢬦B𢽾斅B𣃁斸B𣆐曥B𣈣𣋋B𣈶暅B𣋋𣈣B𣍨𦢈B𣍯腪B𣍰脥B𣎑臗B𣏢槫B𣐕桱B𣐤欍B𣑶𣠲B𣒌楇B𣓿橯B𣔌樤B𣗊樠B𣗋欓B𣗙㰙B𣘐㯤B𣘓𣞻B𣘴檭B𣘷𣝕B𣙎㭣B𣚚欘B𣝕𣘷B𣞎𣠩B𣞻𣘓B𣠩𣞎B𣠲𣑶B𣨼殢B𣭤𣯴B𣭲氄B𣯣𣯩B𣯩𣯣B𣯴𣭤B𣯶毶B𣱝氭B𣲗湋B𣲘潕B𣳆㵗B𣶩澅B𣶫𣿉B𣷷𤅶B𣸣濆B𣺼灙B𣺽𤁣B𣽷瀃B𣾷㳢B𣿉𣶫B𤁣𣺽B𤅶𣷷B𤆡熓B𤆢㷍B𤇃爄B𤇄熌B𤇭爖B𤇹熚B𤈶熉B𤈷㷿B𤊀𤒎B𤊰𤓩B𤋏熡B𤎺㸇B𤎻𤑳B𤑳𤎻B𤒎𤊀B𤓎𤎺B𤓩𤊰B𤙯𤛮B𤛮𤙯B𤝢𤢟B𤞃獩B𤞤玁B𤠋㺏B𤢟𤝢B𤢻𢢐B𤦀瓕B𤩽瓛B𤪺㻘B𤫩㻏B𤳄𤳸B𤳸𤳄B𤶊癐B𤶧𤸫B𤸫𤶧B𤻊㿗B𤽯㿧B𤾀皟B𤿲麬B𥁢䀉B𥅘𥌃B𥅴䀹B𥅿𥊝B𥆧瞤B𥇢䁪B𥊝𥅿B𥌃𥅘B𥎝䂎B𥐟礒B𥐯𥖅B𥐰𥕥B𥐻碙B𥕥𥐰B𥖅𥐯B𥞦𥞵B𥞵𥞦B𥢢䅪B𥧂𥨐B𥨐𥧂B𥩟竚B𥩺𥪂B𥪂𥩺B𥫣籅B𥬀䉙B𥬞籋B𥬠篘B𥭉𥵊B𥮋𥸠B𥮜䉲B𥮾篸B𥱔𥵃B𥵃𥱔B𥵊𥭉B𥸠𥮋B𥹥𥼽B𥺅䊭B𥺇𥽖B𥼽𥹥B𥽖𥺇B𥿊𦈈B𦂅𦈒B𦃄𦈗B𦈈𥿊B𦈉緷B𦈋綇B𦈌綀B𦈎繟B𦈏緍B𦈐縺B𦈑緸B𦈒𦂅B𦈓䋿B𦈔縎B𦈕緰B𦈖䌈B𦈗𦃄B𦈘䌋B𦈙䌰B𦈚縬B𦈛繓B𦈜䌖B𦈝繏B𦈞䌟B𦈟䌝B𦈠䌥B𦈡繻B𦍠䍽B𦘧𡳒B𦛨朥B𦝼膢B𦟗𦣎B𦢈𣍨B𦣎𦟗B𦨩𦪽B𦪙䑽B𦪽𦨩B𦰏蓧B𦰴䕳B𦶟爇B𦶻𦾟B𦻕蘟B𦾟𦶻B𧉐𧕟B𧉞䗿B𧌥𧎈B𧎈𧌥B𧏖蠙B𧏗蠀B𧑏蠾B𧒭𧔥B𧔥𧒭B𧕟𧉐B𧜗䘞B𧜭䙱B𧜵䙊B𧝝襰B𧝞䘛B𧝧𧟀B𧟀𧝧B𧩙䜥B𧮪詀B𧳕𧳟B𧳟𧳕B𧵳䞌B𧶔𧹓B𧶧䞎B𧹑䞈B𧹒買B𧹓𧶔B𧹕䝻B𧹖賟B𧹗贃B𧿈𨇁B𨀁躘B𨀱𨄣B𨁴𨅍B𨂺𨈊B𨄄𨈌B𨄣𨀱B𨅍𨁴B𨅛䠱B𨅫𨇞B𨅬躝B𨇁𧿈B𨇞𨅫B𨈊𨂺B𨈌𨄄B𨉗軉B𨊰䢀B𨊸䢁B𨊻𨐆B𨋢䢂B𨎮𨐉B𨏠𨐇B𨏥𨐊B𨐅軗B𨐆𨊻B𨐇𨏠B𨐈輄B𨐉𨎮B𨐊𨏥B𨑹䢨B𨟳𨣞B𨠨𨣧B𨡙𨢿B𨡺𨣈B𨢿𨡙B𨣈𨡺B𨣞𨟳B𨣧𨠨B𨤰𨤻B𨤻𨤰B𨥛𨱀B𨦫䦀B𨧜䦁B𨧱𨱊B𨫒𨱐B𨮂𨱕B𨯅䥿B𨰾鎷B𨰿釳B𨱀𨥛B𨱁鈠B𨱂鈋B𨱃鈲B𨱄鈯B𨱅鉁B𨱆龯B𨱇銶B𨱈鋉B𨱉鍄B𨱊𨧱B𨱋錂B𨱌鏆B𨱍鎯B𨱎鍮B𨱏鎝B𨱐𨫒B𨱑鐄B𨱒鏉B𨱓鐎B𨱔鐏B𨱕𨮂B𨱖䥩B𨳑𨸁B𨳕𨸀B𨴗𨸅B𨵩𨸆B𨵸𨸇B𨶀𨸉B𨶏𨸊B𨶮𨸌B𨶲𨸋B𨷲𨸎B𨷿䦳B𨸀𨳕B𨸁𨳑B𨸂閍B𨸃閐B𨸄䦘B𨸅𨴗B𨸆𨵩B𨸇𨵸B𨸉𨶀B𨸊𨶏B𨸋𨶲B𨸌𨶮B𨸎𨷲B𨸘𨽏B𨸟䧢B𨽏𨸘B𩎢𩏾B𩏪𩏽B𩏼䪏B𩏽𩏪B𩏾𩎢B𩏿䪘B𩐀䪗B𩓋顂B𩓣𩖕B𩖕𩓣B𩖖顃B𩖗䫴B𩗀𩙦B𩘀𩙩B𩘝𩙭B𩘹𩙨B𩘺𩙬B𩙈𩙰B𩙥颰B𩙦𩗀B𩙧䬞B𩙨𩘹B𩙩𩘀B𩙪颷B𩙫颾B𩙬𩘺B𩙭𩘝B𩙮䬘B𩙯䬝B𩙰𩙈B𩚛𩟿B𩚥𩠀B𩚵𩠁B𩛆𩠂B𩛩𩠃B𩜇𩠉B𩜦𩠆B𩜵𩠊B𩝔𩠋B𩞄𩠎B𩞦𩠏B𩞯䭪B𩟐𩠅B𩟿𩚛B𩠀𩚥B𩠁𩚵B𩠂𩛆B𩠃𩛩B𩠅𩟐B𩠆𩜦B𩠇䭀B𩠈䭃B𩠉𩜇B𩠊𩜵B𩠋𩝔B𩠌餸B𩠎𩞄B𩠏𩞦B𩠠𩠴B𩠴𩠠B𩡖𩡣B𩡣𩡖B𩡺𩧦B𩢡𩧬B𩢴𩧵B𩢸𩧳B𩢾𩧮B𩣏𩧶B𩣑䯃B𩣫𩧸B𩣵𩧻B𩣺𩧼B𩤊𩧩B𩤙𩨆B𩤲𩨉B𩤸𩨅B𩥄𩨋B𩥇𩨍B𩥉𩧱B𩥑𩨌B𩧆𩨐B𩧦𩡺B𩧨駎B𩧩𩤊B𩧪䮾B𩧫駚B𩧬𩢡B𩧭䭿B𩧮𩢾B𩧯驋B𩧰䮝B𩧱𩥉B𩧲駧B𩧳𩢸B𩧴駩B𩧵𩢴B𩧶𩣏B𩧸𩣫B𩧺駶B𩧻𩣵B𩧼𩣺B𩧿䮠B𩨀騔B𩨁䮞B𩨂驄B𩨃騝B𩨄騪B𩨅𩤸B𩨆𩤙B𩨇䮫B𩨈騟B𩨉𩤲B𩨊騚B𩨋𩥄B𩨌𩥑B𩨍𩥇B𩨎龭B𩨏䮳B𩨐𩧆B𩩈䯤B𩬣𩭙B𩬤𩰀B𩭙𩬣B𩭹鬖B𩯒𩯳B𩯳𩯒B𩰀𩬤B𩰰𩰹B𩰹𩰰B𩲒𩳤B𩳤𩲒B𩴌𩴵B𩴵𩴌B𩵩𩽺B𩵹𩽻B𩶘䲞B𩶰𩽿B𩶱𩽽B𩷰𩾄B𩸃𩾅B𩸦𩾆B𩽇𩾎B𩽹魥B𩽺𩵩B𩽻𩵹B𩽼鯶B𩽽𩶱B𩽾鮟B𩽿𩶰B𩾁鯄B𩾂䲖B𩾃鮸B𩾄𩷰B𩾅𩸃B𩾆𩸦B𩾇鯱B𩾈䱙B𩾊䱬B𩾋䱰B𩾌鱇B𩾎𩽇B𩿪𪉄B𪀦𪉅B𪀾𪉋B𪁈𪉉B𪁖𪉌B𪂆𪉎B𪃍𪉐B𪃏𪉏B𪄆𪉔B𪄕𪉒B𪇳𪉕B𪉂䲰B𪉃鳼B𪉄𩿪B𪉅𪀦B𪉆鴲B𪉈鴜B𪉉𪁈B𪉊鷨B𪉋𪀾B𪉌𪁖B𪉍鵚B𪉎𪂆B𪉏𪃏B𪉐𪃍B𪉑鷔B𪉒𪄕B𪉔𪄆B𪉕𪇳B𪎈䴬B𪎉麲B𪎊麨B𪎋䴴B𪎌麳B𪑅䵳B𪔭𪔵B𪔵𪔭B𪘀𪚏B𪘯𪚐B𪚏𪘀B𪚐𪘯B𪜎𠿕C𪞝凙C𪟎㔋C𪟖𠛾C𪟝勣C𪠀𧷎C𪠟㓄C𪠡𠬙C𪠳唓C𪠵㖮C𪠸嚛C𪠺𠽃C𪠽噹C𪡀嘺C𪡃嘪C𪡋噞C𪡏嗹C𪡛㗿C𪡞嘳C𪡺𡃄C𪢌㘓C𪢐𡃤C𪢒𡂡C𪢕嚽C𪢖𡅯C𪢠囒C𪢮圞C𪢸墲C𪣆埬C𪣒堚C𪣻塿C𪤄𡓁C𪤚壣C𪥠𧹈C𪥫孇C𪥰嬣C𪥿嬻C𪧀孾C𪧘寠C𪨊㞞C𪨗屩C𪨧崙C𪨩𡸗C𪨶輋C𪨷巗C𪨹𡹬C𪩇㟺C𪩎巊C𪩘巘C𪩛𡿖C𪩷幝C𪩸幩C𪪏廬C𪪑㢗C𪪞廧C𪪴𢍰C𪪼彃C𪫌徿C𪫡𢤩C𪫷㦞C𪫺憸C𪬚𢣐C𪬯𢤿C𪭝𢯷C𪭢摐C𪭧擟C𪭯𢶒C𪭵掚C𪭾撊C𪮃㨻C𪮋㩋C𪮖撧C𪮳𢺳C𪮶攋C𪯋㪎C𪰶曊C𪱥膹C𪱷梖C𪲎櫅C𪲔欐C𪲛檵C𪲮櫠C𪳍欇C𪳗𣜬C𪴙欑C𪵑毊C𪵣霼C𪵱濿C𪶄溡C𪶒𤄷C𪶮𣽏C𪷍㵾C𪷓𣶭C𪷽灒C𪸕熂C𪸩煇C𪹀𤑹C𪹠𤓌C𪹳爥C𪹹𤒻C𪺣𤘀C𪺪𤜆C𪺭犞C𪺷獊C𪺸𤠮C𪺻㺜C𪺽猌C𪻐瑽C𪻨瓄C𪻲瑻C𪻺璝C𪼋㻶C𪼴𤬅C𪽈畼C𪽝𤳷C𪽪痮C𪽭𤷃C𪽮㿖C𪽴𤺔C𪽷瘱C𪾔盨C𪾢睍C𪾣眝C𪾦矑C𪾸矉C𪿊𥏝C𪿞𥖲C𪿫礮C𪿵𥗇C𫀌𥜰C𫀓𥜐C𫀨䅐C𫀬䅳C𫀮𥢷C𫁂䆉C𫁟竱C𫁡鴗C𫁱𥶽C𫁲䉑C𫁳𥯤C𫁷䉶C𫁺𥴼C𫂃簢C𫂆簂C𫂈䉬C𫂖𥴨C𫂿𥻦C𫃗𩏷C𫄙糺C𫄚䊺C𫄛紟C𫄜䋃C𫄝𥾯C𫄞䋔C𫄟絁C𫄠絙C𫄡絧C𫄢絥C𫄣繷C𫄤繨C𫄥纚C𫄦𦀖C𫄧綖C𫄨絺C𫄩䋦C𫄪𦅇C𫄫綟C𫄬緤C𫄭緮C𫄮䋼C𫄯𦃩C𫄰縍C𫄱繬C𫄲縸C𫄳縰C𫄴繂C𫄵𦅈C𫄶繈C𫄷繶C𫄸纁C𫄹纗C𫅅䍤C𫅗羵C𫅥𦒀C𫅭䎙C𫅼𦔖C𫆏聻C𫆝𦟼C𫆫𦡝C𫇘𦧺C𫇛艣C𫇪𦱌C𫇭蒍C𫇴蒭C𫇽蕽C𫈉蕳C𫈎葝C𫈟蔯C𫈵蕝C𫉁薆C𫉄藷C𫊪䗅C𫊮蠦C𫊸蟜C𫊹𧒯C𫊻蟳C𫋇蟂C𫋌蟘C𫋲䙔C𫋷襗C𫋹襓C𫋻襘C𫌀襀C𫌇襵C𫌋𧞫C𫌨覼C𫌪覛C𫌫𧡴C𫌬𧢄C𫌭覹C𫌯䚩C𫍐𧭹C𫍙訑C𫍚訞C𫍛訜C𫍜詓C𫍝諫C𫍞𧦝C𫍟𧦧C𫍠䛄C𫍡詑C𫍢譊C";

/// Part 1 of the text.
pub const TOFU_1: &'static str = "𫍣詷C𫍤譑C𫍥誂C𫍦譨C𫍧誺C𫍨誫C𫍩諣C𫍪誋C𫍫䛳C𫍬誷C𫍭𧩕C𫍮誳C𫍯諴C𫍰諰C𫍱諯C𫍲謏C𫍳諥C𫍴謱C𫍵謸C𫍶𧩼C𫍷謉C𫍸謆C𫍹謯C𫍺𧫝C𫍻譆C𫍼𧬤C𫍽譞C𫍾𧭈C𫍿譾C𫎆豵C𫎌貗C𫎦贚C𫎧䝭C𫎨𧸘C𫎩賝C𫎪䞋C𫎫贉C𫎬贑C𫎭䞓C𫎱䟐C𫎳䟆C𫎸𧽯C𫎺䟃C𫏃䠆C𫏆蹳C𫏋蹻C𫏌𨂐C𫏐蹔C𫏑𨇽C𫏕𨆪C𫏞𨇰C𫏨𨇤C𫐄軏C𫐅軕C𫐆轣C𫐇軜C𫐈軷C𫐉軨C𫐊軬C𫐋𨎌C𫐌軿C𫐍𨌈C𫐎輢C𫐏輖C𫐐輗C𫐑輨C𫐒輷C𫐓輮C𫐔𨍰C𫐕轊C𫐖轇C𫐗轐C𫐘轗C𫐙轠C𫐷遱C𫑘鄟C𫑡鄳C𫑷醶C𫓥釟C𫓦釨C𫓧鈇C𫓨鈛C𫓩鏦C𫓪鈆C𫓫𨥟C𫓬鉔C𫓭鉠C𫓮𨪕C𫓯銈C𫓰銊C𫓱鐈C𫓲銁C𫓳𨰋C𫓴鉾C𫓵鋠C𫓶鋗C𫓸錽C𫓹錤C𫓺鐪C𫓻錜C𫓼𨨛C𫓽錝C𫓾錥C𫓿𨨢C𫔀鍊C𫔁鐼C𫔂鍉C𫔃𨰲C𫔄鍒C𫔅鎍C𫔆䥯C𫔇鎞C𫔈鎙C𫔉𨰃C𫔊鏥C𫔋䥗C𫔌鏾C𫔍鐇C𫔎鐍C𫔏𨬖C𫔐𨭸C𫔑𨭖C𫔒𨮳C𫔓𨯟C𫔔鑴C𫔕𨰥C𫔖𨲳C𫔭開C𫔮閒C𫔯閗C𫔰閞C𫔲𨴹C𫔴閵C𫔵䦯C𫔶闑C𫔽𨼳C𫕚𩀨C𫕥霣C𫕨𩅙C𫖃靧C𫖅䪊C𫖇鞾C𫖑𩎖C𫖒韠C𫖓𩏂C𫖔韛C𫖕韝C𫖖𩏠C𫖪𩑔C𫖫䪴C𫖬䪾C𫖭𩒎C𫖮顗C𫖯頫C𫖰䫂C𫖱䫀C𫖲䫟C𫖳頵C𫖴𩔳C𫖵𩓥C𫖶顅C𫖷𩔑C𫖸願C𫖹顣C𫖺䫶C𫗇䫻C𫗈𩗓C𫗉𩗴C𫗊䬓C𫗋飋C𫗚𩟗C𫗞飦C𫗟䬧C𫗠餦C𫗡𩚩C𫗢飵C𫗣飶C𫗤𩛌C𫗥餫C𫗦餔C𫗧餗C𫗨𩛡C𫗩饠C𫗪餧C𫗫餬C𫗬餪C𫗭餵C𫗮餭C𫗯餱C𫗰䭔C𫗱䭑C𫗳𩝽C𫗴饘C𫗵饟C𫘛馯C𫘜馼C𫘝駃C𫘞駞C𫘟駊C𫘠駤C𫘡駫C𫘣駻C𫘤騃C𫘥騉C𫘦騊C𫘧騄C𫘨騠C𫘩騜C𫘪騵C𫘫騴C𫘬騱C𫘭騻C𫘮䮰C𫘯驓C𫘰驙C𫘱驨C𫘽鬠C𫙂𩯁C𫚈鱮C𫚉魟C𫚊鰑C𫚋鱄C𫚌魦C𫚍魵C𫚎𩶁C𫚏䱁C𫚐䱀C𫚑鮅C𫚒鮄C𫚓鮤C𫚔鮰C𫚕鰤C𫚖鮆C𫚗鮯C𫚘𩻮C𫚙鯆C𫚚鮿C𫚛鮵C𫚜䲅C𫚝𩸄C𫚞鯬C𫚟𩸡C𫚠䱧C𫚡鯞C𫚢鰋C𫚣鯾C𫚤鰦C𫚥鰕C𫚦鰫C𫚧鰽C𫚨𩻗C𫚩𩻬C𫚪鱊C𫚫鱢C𫚬𩼶C𫚭鱲C𫛚鳽C𫛛鳷C𫛜鴀C𫛝鴅C𫛞鴃C𫛟鸗C𫛠𩿤C𫛡鴔C𫛢鸋C𫛣鴥C𫛤鴐C𫛥鵊C𫛦鴮C𫛧𪀖C𫛨鵧C𫛩鴳C𫛪鴽C𫛫鶰C𫛬䳜C𫛭鵟C𫛮䳤C𫛯鶭C𫛰䳢C𫛱鵫C𫛲鵰C𫛳鵩C𫛴鷤C𫛵鶌C𫛶鶒C𫛷鶦C𫛸鶗C𫛹𪃧C𫛺䳧C𫛻𪃒C𫛼䳫C𫛽鷅C𫛾𪆷C𫜀鷐C𫜁鷩C𫜂𪅂C𫜃鷣C𫜄鷷C𫜅䴋C𫜊𪉸C𫜑麷C𫜒䴱C𫜓𪌭C𫜔䴽C𫜕𪍠C𫜙䵴C𫜟𪓰C𫜨䶕C𫜩齧C𫜪齩C𫜬齰C𫜭齭C𫜮齴C𫜯𪙏C𫜰齾C𫜲龓C𫜳䶲C𫝈㑮D𫝋𠐊D𫝦㛝D𫝧㜐D𫝨媈D𫝩嬦D𫝪𡟫D𫝫婡D𫝬嬇D𫝭孆D𫝮孄D𫝵嶹D𫞅𦠅D𫞗潣D𫞚澬D𫞛㶆D𫞝灍D𫞠爧D𫞡爃D𫞢𤛱D𫞣㹽D𫞥珼D𫞦璾D𫞧𤩂D𫞨璼D𫞩璊D𫞷𥢶D𫟃絍D𫟄綋D𫟅綡D𫟆緟D𫟇𦆲D𫟑䖅D𫟕䕤D𫟞訨D𫟟詊D𫟠譂D𫟡誴D𫟢䜖D𫟤䡐D𫟥䡩D𫟦䡵D𫟫𨞺D𫟬𨟊D𫟲釚D𫟳釲D𫟴鈖D𫟵鈗D𫟶銏D𫟷鉝D𫟸鉽D𫟹鉷D𫟺䤤D𫟻銂D𫟼鐽D𫟽𨧰D𫟾𨩰D𫟿鎈D𫠀䥄D𫠁鑉D𫠂閝D𫠅韚D𫠆頍D𫠇𩖰D𫠈䫾D𫠊䮄D𫠋騼D𫠌𩦠D𫠏𩵦D𫠐魽D𫠑䱸D𫠒鱆D𫠖𩿅D𫠜齯D𫢸僤E𫧃𣍐E𫧮𪋿E𫪄𠼤E𫫇噁E𫬐㘔E𫭟塸E𫭢埨E𫭼𡑍E𫮃墠E𫰛娙E𫵷㠣E𫶇嵽E𫷷廞E𫸩彄E𬀩暐E𬀪晛E𬂩梜E𬃊櫍E𬇕澫E𬇙浿E𬇹漍E𬉼熰E𬊈燖E𬊤燀E𬍛瓅E𬍡璗E𬍤璕E𬒈礐E𬒗𥗽E𬕂篢E𬘓紃E𬘘紞E𬘡絪E𬘩綎E𬘫綄E𬘬綪E𬘭綝E𬘯綧E𬙂縯E𬙊纆E𬙋纕E𬜬蔄E𬜯䓣E𬞟蘋E𬟁虉E𬟽蝀E𬣙訏E𬣞詝E𬣡諓E𬣳詪E𬤇諲E𬤊諟E𬤝譓E𬨂軝E𬨎輶E𬩽鄩E𬪩醲E𬬩釴E𬬭錀E𬬮鋹E𬬱釿E𬬸鉥E𬬹鉮E𬬻鑪E𬬿鉊E𬭁鉧E𬭊𨧀E𬭎鋐E𬭚錞E𬭛𨨏E𬭤鍭E𬭩鎓E𬭬鏏E𬭭鏚E𬭯䥕E𬭳𨭎E𬭶𨭆E𬭸鏻E𬭼鐩E𬮱闉E𬮿隑E𬯀隮E𬯎隤E𬱖頔E𬱟頠E𬳵駓E𬳶駉E𬳽駪E𬳿駼E𬴂騑E𬴃騞E𬴊驎E𬶋鮈E𬶍鮀E𬶏鮠E𬶐鮡E𬶟鯻E𬶠鰊E𬶨鱀E𬶭鰶E𬶮鱚E𬷕鵏E𬸘鶠E𬸚鸑E𬸣鶱E𬸦鷟E𬸪鷭E𬸯鷿E𬹼齘E𬺈齮E𬺓齼E𰬸繐G𰰨菕G𰶎譅G𰾄鋂G𰾭鑀G𱊜𪈼G";

/// The number of parts of the text.
pub const PARTS: usize = 2;

/// Part `i` of the triples; a later triple for the same character wins.
pub open spec fn part(i: int) -> Seq<char> {
    if i == 0 {
        TOFU_0@
    } else if i == 1 {
        TOFU_1@
    } else {
        Seq::empty()
    }
}

/// Part `i` of the text.
pub fn part_exec(i: usize) -> (r: &'static str)
    requires
        i < PARTS,
    ensures
        r@ == part(i as int),
{
    match i {
        0 => TOFU_0,
        1 => TOFU_1,
        _ => TOFU_0,
    }
}

} // verus!
