//! The embedded curriculum data: for each grade and term, the characters
//! that the term introduces, in the order in which they are taught.
use vstd::prelude::*;

verus! {

/// The number of grade-and-term rows: six grades of two terms each.
pub const TERM_COUNT: usize = 12;

/// Characters introduced in grade 1, term 1.
pub const GRADE_1_TERM_1: &'static str = "一二三上口目耳手日田禾火虫云山八十课文了子人大月儿头里可东西天四是女开水去来不小少牛果鸟早书刀尺本木林土力心中五立正在后我好长比巴把下个雨们问有半从你才明同学自己门衣白的又和竹牙马用几只石出见对妈全回工厂";

/// Characters introduced in grade 1, term 2.
pub const GRADE_1_TERM_2: &'static str = "春冬风雪花飞入姓什么双国王方青清气晴情请生字左右红时动万吃叫主江住没以多会走北京广过各种样伙伴这太阳校金秋因为他地河说也听哥单居招呼快乐玩很当音讲行许思床前光低故乡色外看爸晚笑再午节叶米真分豆那着到高兴千成间迷造运池欢网古凉细夕李语香打拍跑足声身体之相近习远玉首采无树爱尖角亮机台放鱼朵美直呀边呢吗吧加文次找平办让包钟丁元共已经坐要连百还舌点块非常往瓜进空病医别干奇七星吓怕跟家羊象都捉条爬姐您草房义";

/// Characters introduced in grade 2, term 1.
pub const GRADE_2_TERM_1: &'static str = "两哪宽顶眼睛肚皮孩跳变极片傍海洋作坏给带法如公它娃她毛更知识处园桥群队旗铜号领巾杨壮桐枫松柏棉杉化桂歌写丛深六熊猫九朋友季吹肥农事忙归戴辛苦称柱底杆秤做岁站船然画幅评奖纸报另及拿并封信今支圆珠笔灯电影哄先闭脸沉发窗沙依尽黄层照炉烟挂川南部些巨位向每升闪狗湾名胜迹央丽展现产份坡枝起客老收城市井观沿答渴喝话际脚面阵朗枯却第将难纷棵谢想盯言邻治怪楼年夜披轻利扁担志伍师军战士忘泼度龙炮穿始令刘民反村被关道兵危敢惊阴似野苍茫于论岸屋切久散步唱赶旺旁浑候谁汽食物爷就爪神活猪折张祝扎抓吵但哭车得秧苗汗急场伤路";

/// Characters introduced in grade 2, term 2.
pub const GRADE_2_TERM_2: &'static str = "诗童趁碧妆绿丝剪冲寻姑娘仔吐柳荡桃杏鲜邮递员原叔局堆认礼邓植格引注满休息锋昨冒留弯背洒温暖能桌味买具甘甜菜劳匹妹波纹像景恋舍求州华岛峡族谊齐奋贴街舟艾敬转团热闹贝壳甲骨钱币与财购烧茄烤鸭肉鸡蛋炒饭彩梦森拉结苹般精灵伞姨弟便教游戏母周围句补充药合死记屁股尿净屎幸使劲亡牢钻劝丢告筋疲图课摆座室交哈页抢嘻愿意麦该伯刻突掉湖莲穷荷绝含岭吴雷乌黑压垂户新迎扑指针帮助导永碰特积杯失洗澡容易浴桶扇慢遇兔安根痛最店决定商夫终完换期蛙卖搬倒籽泉破应整抽纺织编怎布消祖啊浓望蓝摘掏赛忆世界功复式简弄由觉值类艰弓炎害此";

/// Characters introduced in grade 3, term 1.
pub const GRADE_3_TERM_1: &'static str = "晨绒球汉艳服装扮静停孔雀粗落荒笛舞狂罚假互所够猜扬臂寒径斜霜赠盖菊残君橙送挑铺泥晶院墙印排列规则乱棕迟盒颜料票争仙闻勾紧洞油曲丰柴旧裙怜饿蜡烛伸忽板富颗奶旅咱偷救命拼扫胃管乎咬流泪准备等暴睡壁砍蜘蛛漂撞饱晒搭亲父啦响羽翠嘴悄吞哦捕蒲英盛耍喊欠钓而察拢掌趣喜断楚至孤帆饮初镜未磨遥银盘优淡浅错岩挺刺鼓数厚宝贵业滨灰飘渔遍躺载靠亚夏除踩洁脑袋严实挡视线坛显材软刮库妙演奏琴感受激击器滴敲鸣诉读虾麻勇蚂蚁短栽梨寸柔摇册朝雾蒙鼻总抖露湿吸猎翅膀重司庭登跌众弃持郊养粉谷粒男或者冻冷惜肯诚术斗焰刚烈离血仍取匆险";

/// Characters introduced in grade 3, term 2.
pub const GRADE_3_TERM_2: &'static str = "融燕鸳鸯惠崇芦芽梅溪泛减凑拂集聚形掠偶尔沾倦闲纤痕瓣蓬胀裂姿势仿佛随蹈止守株待宋耕触颈释其骄傲谦虚懦弱提尘讶捧代价鹿塘映欣赏匀致配传哎狮追叹符欲魂借酒何牧兄独异佳伟录保存约验捞阿欧洲社赵省县匠设计史创举且智慧历芬芳内醒寿苏强示昆修建组蜜蜂辨阻跨括检查确误途陌宇宙淌秘密栋梯铃乘绪篇越状狐狸腰零巧克肠继续抬烦墨染竿腾碎拨浪葫爽蘑菇表胆鬼理夺骂仇差付倍虽泡件皂廊剩碗悠若透娇扯仰串婴希呈幻诱润芒冰剑普通模型宁官汪参攻推迅速退轮煤铁必胡灿骑秒腿凶猛接庙威武镇性卷货夹夸务衬衫负责艺漏喂胖驴贼狼莫厉抱架胶粘偏";

/// Characters introduced in grade 4, term 1.
pub const GRADE_4_TERM_1: &'static str = "潮据堤阔盼滚顿逐渐堵犹崩震霎余淘牵鹅卵坑洼填庄稼俗跃葡萄稻熟豌按舒适暗恐僵硬枪耐探愉曾沟蚊即科横竖绳系蝇证研究达驾驶唤纪技改程超亿核奥益联质哲任善暮吟题侧峰庐缘降费须逊输虎操占嫩顺均叠隙茎柄萎瞧固宅临慎选择址良穴厅卧专卫较睁翻斧劈缓浊丈撑竭累液奔茂滋帝曰溺返衔悲惨兽佩坚违抗环锁既狠著愤获嗅呆奈巢齿躯掩护幼搏庞量愣级链颤攀猴念辫呵摸甚跪捶绕顽脖脱概惹昏握摔凭掐班殷段俩练套裤逃亏挖撤堂砸锅否旋况兵败椅尤恨帅预溃品丑豪塞秦征词催醉杰亦雄项肃默晰振胸怀赞效凡顾训斥戎尝诸竞唯豹派娶媳妇淹逼浮旱徒扔饶骗灌溉";

/// Characters introduced in grade 4, term 2.
pub const GRADE_4_TERM_2: &'static str = "杂稀篱蜻蜓蝶宿徐疏茅檐翁笼赖剥构饰蹲凤序例率觅耸踏倘绘谐寄眠慰藉卜锐滩帐烁蝙蝠霸鹰怒吼脂拭餐划晌辣渗挣番埋刷测详笨钝鸽毫凌末描隧态吨颅膨肢翼辟纳拥箱臭蔬碳钢隐健康胞疾防灶需繁漫灭藤萝膝涛躲瓶挤叉挥桦涂茸绣潇穗朦胧寂霞抹忧虑贪职屏蹭稿腔解闷蛇遭殃盆勃讨厌坝忠毒绩孵警戒歪咕汤掘伏啼吠促颇剧苟譬侍馆附脾敏捷昂供添扩范努刹烂替镶紫仅浙罗杜鹃窄郁肩臀移额陆乳笋端源囊萤恭勤博贫焉逢卒晋炕铅呜哩栓胳膊劫绸扒敌尸趁慌芙蓉洛壶雁砚乾坤伦腹剖窟窿混嘶维秩岗宰措遣践介绍妖矩乖撵烫丫拽福舔葵瘦棒罢硕允砌牌禁惩踪啸私颊拆";

/// Characters introduced in grade 5, term 1.
pub const GRADE_5_TERM_1: &'static str = "宜鹤嫌朱嵌框匣哨恩韵亩播浇吩咐亭榨慕矮谈懂兰箩婆糕饼浸缠茶捡汛访鞋挽隔懒惰稳衡协召臣议缺宫献诺典抄罪怯拒荆冠俯喷枚箭筒束赤圈置侵略筑堡党丘妨蔽陷拐酬珍叮嘱塌焦誓谎延悔扶郎爹嫂辆歹罕纱妻趟托溜婚辈挨祭乃熏杭亥恃哀拘泻潜试胎皇履疆毁估拱辉煌殿陵览境宏唐闯统销奉摄氏殖粮炭区杀菌疗鼠秀玲珑歇窝滑拾狭勉梳辞抑碌吊酷暑噪脊罩竟哇忍械酸权蚕考疼席糖屑启迪钉陪毕煮枕孙泊愁寺畔黎晕漆匆幕愈旷怡逸免桨榕纠耀桩涨塔梢暇眉抛耻诲谓诵岂舅津斩限凯葛述贾衰刊琐朴某";

/// Characters introduced in grade 5, term 2.
pub const GRADE_5_TERM_2: &'static str = "昼耘桑晓蝴蚂蚱嗡樱拔瞎铲锄割尾承拴瓢逛妒忌曹督委鲁遮寨擂呐插冈饥碟斤俺榜杖申兼勿拖悉坠膛截仞岳摩遗涕巫彭拟谋瑞损锻炼眷赴搞殊尊签革庆诊沃龄匪绷审剂施吭崭衷慈祥荣跤搂仗鞭欺挠扳腕剃腮疤监侄喉咙浆傅袱桶障芝圣犯馅轰堪诈傻捏怔矛盾誉吾赢拳擦策荐艘航肆帽桅撕逗唬钩扭咧舱鸥瞄尼斯艇纵艄翘垫帘姆祷雇簇哗码笼仪眺骏驰辽绵凳吆铛罐恢踢牲畜梁诣禽拇搔痒秽轧拧螺纽扣貌仓渺享庸憎";

/// Characters introduced in grade 6, term 1.
pub const GRADE_6_TERM_1: &'static str = "毯玻璃裳虹蹄腐稍微缀窥幽雅案拙薄糊蕾恰襟恍怨德鹊蝉律崖渡索寇副榴弹抡贯棋悬沸涧雹屹悦迈屈政府宾盏栏汇爆宣阅制坦距隆射凛疙瘩棍裁筹橡雕跺颓沮丧溜趴屉谜尚氧倾揭斑燥漠磁素盗培咆哮嗓哑揪瞪呻废汹涌澎湃熄掀困唉淋嘿糟嘛皱勺棚苔藓坪蔗瀑增缝谚袖篷缩疯瓦柜喧甩嚷蒜酱唇蹦涯莺莹裹篮蔼资矿慷慨贡滥基睹哉巍弦锦曝矣谱莱茵盲纯键缕陶郑拜租厨毡羞撒缚猬伶俐窜搁综澄萍漾削瞬凝骤掷陡";

/// Characters introduced in grade 6, term 2.
pub const GRADE_6_TERM_2: &'static str = "蒜醋饺摊拌眨宵燃贩彼贺轿骆驼恰腊粥咽匙盏搅稠肿熬褐缸脏筷侯皎章泣盈脉栖鸦惧凄寞宴霉籍聊乏栅控贷剔毙袭覆藏挪徘徊蒸裸媚砖蚁叨绊绞耽揉绽搓惶吻偎络锤凿焚稚避峻啪瞪僻瞅靴魔刑哼绑啃袍执彻迁泰迫批标牺炊葬援俱弗辩域惯圃盐溅蕊魏搜蚯蚓版阶脆拦玻璃恶怖";

/// The source text of row `i`, for `i` in `0..TERM_COUNT`.
pub open spec fn source_row(i: int) -> Seq<char> {
    if i == 0 {
        GRADE_1_TERM_1@
    } else if i == 1 {
        GRADE_1_TERM_2@
    } else if i == 2 {
        GRADE_2_TERM_1@
    } else if i == 3 {
        GRADE_2_TERM_2@
    } else if i == 4 {
        GRADE_3_TERM_1@
    } else if i == 5 {
        GRADE_3_TERM_2@
    } else if i == 6 {
        GRADE_4_TERM_1@
    } else if i == 7 {
        GRADE_4_TERM_2@
    } else if i == 8 {
        GRADE_5_TERM_1@
    } else if i == 9 {
        GRADE_5_TERM_2@
    } else if i == 10 {
        GRADE_6_TERM_1@
    } else {
        GRADE_6_TERM_2@
    }
}

/// The source text of row `index`.
pub fn term_text(index: usize) -> (r: &'static str)
    requires
        index < TERM_COUNT,
    ensures
        r@ == source_row(index as int),
{
    match index {
        0 => GRADE_1_TERM_1,
        1 => GRADE_1_TERM_2,
        2 => GRADE_2_TERM_1,
        3 => GRADE_2_TERM_2,
        4 => GRADE_3_TERM_1,
        5 => GRADE_3_TERM_2,
        6 => GRADE_4_TERM_1,
        7 => GRADE_4_TERM_2,
        8 => GRADE_5_TERM_1,
        9 => GRADE_5_TERM_2,
        10 => GRADE_6_TERM_1,
        _ => GRADE_6_TERM_2,
    }
}

/// Every row of the source text holds at least one character.
pub proof fn lemma_source_row_nonempty(i: int)
    requires
        0 <= i < TERM_COUNT,
    ensures
        source_row(i).len() > 0,
{
    // The prover learns what a string constant holds only from its literal,
    // so each row's text is written out once more here.
    if i == 0 {
        reveal_strlit("一二三上口目耳手日田禾火虫云山八十课文了子人大月儿头里可东西天四是女开水去来不小少牛果鸟早书刀尺本木林土力心中五立正在后我好长比巴把下个雨们问有半从你才明同学自己门衣白的又和竹牙马用几只石出见对妈全回工厂");
    } else if i == 1 {
        reveal_strlit("春冬风雪花飞入姓什么双国王方青清气晴情请生字左右红时动万吃叫主江住没以多会走北京广过各种样伙伴这太阳校金秋因为他地河说也听哥单居招呼快乐玩很当音讲行许思床前光低故乡色外看爸晚笑再午节叶米真分豆那着到高兴千成间迷造运池欢网古凉细夕李语香打拍跑足声身体之相近习远玉首采无树爱尖角亮机台放鱼朵美直呀边呢吗吧加文次找平办让包钟丁元共已经坐要连百还舌点块非常往瓜进空病医别干奇七星吓怕跟家羊象都捉条爬姐您草房义");
    } else if i == 2 {
        reveal_strlit("两哪宽顶眼睛肚皮孩跳变极片傍海洋作坏给带法如公它娃她毛更知识处园桥群队旗铜号领巾杨壮桐枫松柏棉杉化桂歌写丛深六熊猫九朋友季吹肥农事忙归戴辛苦称柱底杆秤做岁站船然画幅评奖纸报另及拿并封信今支圆珠笔灯电影哄先闭脸沉发窗沙依尽黄层照炉烟挂川南部些巨位向每升闪狗湾名胜迹央丽展现产份坡枝起客老收城市井观沿答渴喝话际脚面阵朗枯却第将难纷棵谢想盯言邻治怪楼年夜披轻利扁担志伍师军战士忘泼度龙炮穿始令刘民反村被关道兵危敢惊阴似野苍茫于论岸屋切久散步唱赶旺旁浑候谁汽食物爷就爪神活猪折张祝扎抓吵但哭车得秧苗汗急场伤路");
    } else if i == 3 {
        reveal_strlit("诗童趁碧妆绿丝剪冲寻姑娘仔吐柳荡桃杏鲜邮递员原叔局堆认礼邓植格引注满休息锋昨冒留弯背洒温暖能桌味买具甘甜菜劳匹妹波纹像景恋舍求州华岛峡族谊齐奋贴街舟艾敬转团热闹贝壳甲骨钱币与财购烧茄烤鸭肉鸡蛋炒饭彩梦森拉结苹般精灵伞姨弟便教游戏母周围句补充药合死记屁股尿净屎幸使劲亡牢钻劝丢告筋疲图课摆座室交哈页抢嘻愿意麦该伯刻突掉湖莲穷荷绝含岭吴雷乌黑压垂户新迎扑指针帮助导永碰特积杯失洗澡容易浴桶扇慢遇兔安根痛最店决定商夫终完换期蛙卖搬倒籽泉破应整抽纺织编怎布消祖啊浓望蓝摘掏赛忆世界功复式简弄由觉值类艰弓炎害此");
    } else if i == 4 {
        reveal_strlit("晨绒球汉艳服装扮静停孔雀粗落荒笛舞狂罚假互所够猜扬臂寒径斜霜赠盖菊残君橙送挑铺泥晶院墙印排列规则乱棕迟盒颜料票争仙闻勾紧洞油曲丰柴旧裙怜饿蜡烛伸忽板富颗奶旅咱偷救命拼扫胃管乎咬流泪准备等暴睡壁砍蜘蛛漂撞饱晒搭亲父啦响羽翠嘴悄吞哦捕蒲英盛耍喊欠钓而察拢掌趣喜断楚至孤帆饮初镜未磨遥银盘优淡浅错岩挺刺鼓数厚宝贵业滨灰飘渔遍躺载靠亚夏除踩洁脑袋严实挡视线坛显材软刮库妙演奏琴感受激击器滴敲鸣诉读虾麻勇蚂蚁短栽梨寸柔摇册朝雾蒙鼻总抖露湿吸猎翅膀重司庭登跌众弃持郊养粉谷粒男或者冻冷惜肯诚术斗焰刚烈离血仍取匆险");
    } else if i == 5 {
        reveal_strlit("融燕鸳鸯惠崇芦芽梅溪泛减凑拂集聚形掠偶尔沾倦闲纤痕瓣蓬胀裂姿势仿佛随蹈止守株待宋耕触颈释其骄傲谦虚懦弱提尘讶捧代价鹿塘映欣赏匀致配传哎狮追叹符欲魂借酒何牧兄独异佳伟录保存约验捞阿欧洲社赵省县匠设计史创举且智慧历芬芳内醒寿苏强示昆修建组蜜蜂辨阻跨括检查确误途陌宇宙淌秘密栋梯铃乘绪篇越状狐狸腰零巧克肠继续抬烦墨染竿腾碎拨浪葫爽蘑菇表胆鬼理夺骂仇差付倍虽泡件皂廊剩碗悠若透娇扯仰串婴希呈幻诱润芒冰剑普通模型宁官汪参攻推迅速退轮煤铁必胡灿骑秒腿凶猛接庙威武镇性卷货夹夸务衬衫负责艺漏喂胖驴贼狼莫厉抱架胶粘偏");
    } else if i == 6 {
        reveal_strlit("潮据堤阔盼滚顿逐渐堵犹崩震霎余淘牵鹅卵坑洼填庄稼俗跃葡萄稻熟豌按舒适暗恐僵硬枪耐探愉曾沟蚊即科横竖绳系蝇证研究达驾驶唤纪技改程超亿核奥益联质哲任善暮吟题侧峰庐缘降费须逊输虎操占嫩顺均叠隙茎柄萎瞧固宅临慎选择址良穴厅卧专卫较睁翻斧劈缓浊丈撑竭累液奔茂滋帝曰溺返衔悲惨兽佩坚违抗环锁既狠著愤获嗅呆奈巢齿躯掩护幼搏庞量愣级链颤攀猴念辫呵摸甚跪捶绕顽脖脱概惹昏握摔凭掐班殷段俩练套裤逃亏挖撤堂砸锅否旋况兵败椅尤恨帅预溃品丑豪塞秦征词催醉杰亦雄项肃默晰振胸怀赞效凡顾训斥戎尝诸竞唯豹派娶媳妇淹逼浮旱徒扔饶骗灌溉");
    } else if i == 7 {
        reveal_strlit("杂稀篱蜻蜓蝶宿徐疏茅檐翁笼赖剥构饰蹲凤序例率觅耸踏倘绘谐寄眠慰藉卜锐滩帐烁蝙蝠霸鹰怒吼脂拭餐划晌辣渗挣番埋刷测详笨钝鸽毫凌末描隧态吨颅膨肢翼辟纳拥箱臭蔬碳钢隐健康胞疾防灶需繁漫灭藤萝膝涛躲瓶挤叉挥桦涂茸绣潇穗朦胧寂霞抹忧虑贪职屏蹭稿腔解闷蛇遭殃盆勃讨厌坝忠毒绩孵警戒歪咕汤掘伏啼吠促颇剧苟譬侍馆附脾敏捷昂供添扩范努刹烂替镶紫仅浙罗杜鹃窄郁肩臀移额陆乳笋端源囊萤恭勤博贫焉逢卒晋炕铅呜哩栓胳膊劫绸扒敌尸趁慌芙蓉洛壶雁砚乾坤伦腹剖窟窿混嘶维秩岗宰措遣践介绍妖矩乖撵烫丫拽福舔葵瘦棒罢硕允砌牌禁惩踪啸私颊拆");
    } else if i == 8 {
        reveal_strlit("宜鹤嫌朱嵌框匣哨恩韵亩播浇吩咐亭榨慕矮谈懂兰箩婆糕饼浸缠茶捡汛访鞋挽隔懒惰稳衡协召臣议缺宫献诺典抄罪怯拒荆冠俯喷枚箭筒束赤圈置侵略筑堡党丘妨蔽陷拐酬珍叮嘱塌焦誓谎延悔扶郎爹嫂辆歹罕纱妻趟托溜婚辈挨祭乃熏杭亥恃哀拘泻潜试胎皇履疆毁估拱辉煌殿陵览境宏唐闯统销奉摄氏殖粮炭区杀菌疗鼠秀玲珑歇窝滑拾狭勉梳辞抑碌吊酷暑噪脊罩竟哇忍械酸权蚕考疼席糖屑启迪钉陪毕煮枕孙泊愁寺畔黎晕漆匆幕愈旷怡逸免桨榕纠耀桩涨塔梢暇眉抛耻诲谓诵岂舅津斩限凯葛述贾衰刊琐朴某");
    } else if i == 9 {
        reveal_strlit("昼耘桑晓蝴蚂蚱嗡樱拔瞎铲锄割尾承拴瓢逛妒忌曹督委鲁遮寨擂呐插冈饥碟斤俺榜杖申兼勿拖悉坠膛截仞岳摩遗涕巫彭拟谋瑞损锻炼眷赴搞殊尊签革庆诊沃龄匪绷审剂施吭崭衷慈祥荣跤搂仗鞭欺挠扳腕剃腮疤监侄喉咙浆傅袱桶障芝圣犯馅轰堪诈傻捏怔矛盾誉吾赢拳擦策荐艘航肆帽桅撕逗唬钩扭咧舱鸥瞄尼斯艇纵艄翘垫帘姆祷雇簇哗码笼仪眺骏驰辽绵凳吆铛罐恢踢牲畜梁诣禽拇搔痒秽轧拧螺纽扣貌仓渺享庸憎");
    } else if i == 10 {
        reveal_strlit("毯玻璃裳虹蹄腐稍微缀窥幽雅案拙薄糊蕾恰襟恍怨德鹊蝉律崖渡索寇副榴弹抡贯棋悬沸涧雹屹悦迈屈政府宾盏栏汇爆宣阅制坦距隆射凛疙瘩棍裁筹橡雕跺颓沮丧溜趴屉谜尚氧倾揭斑燥漠磁素盗培咆哮嗓哑揪瞪呻废汹涌澎湃熄掀困唉淋嘿糟嘛皱勺棚苔藓坪蔗瀑增缝谚袖篷缩疯瓦柜喧甩嚷蒜酱唇蹦涯莺莹裹篮蔼资矿慷慨贡滥基睹哉巍弦锦曝矣谱莱茵盲纯键缕陶郑拜租厨毡羞撒缚猬伶俐窜搁综澄萍漾削瞬凝骤掷陡");
    } else {
        reveal_strlit("蒜醋饺摊拌眨宵燃贩彼贺轿骆驼恰腊粥咽匙盏搅稠肿熬褐缸脏筷侯皎章泣盈脉栖鸦惧凄寞宴霉籍聊乏栅控贷剔毙袭覆藏挪徘徊蒸裸媚砖蚁叨绊绞耽揉绽搓惶吻偎络锤凿焚稚避峻啪瞪僻瞅靴魔刑哼绑啃袍执彻迁泰迫批标牺炊葬援俱弗辩域惯圃盐溅蕊魏搜蚯蚓版阶脆拦玻璃恶怖");
    }
}

} // verus!
