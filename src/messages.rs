//! The reminder texts shown during a rest: tables of headline and message
//! templates, a random pick among them, and the filling in of the rest's
//! length.
use vstd::prelude::*;
use vstd::string::*;
use crate::cycle::RestType;
use crate::text::{decimal, decimal_string};

verus! {

/// Sizes of the template tables.
pub const EYE_REST_TEMPLATE_COUNT: usize = 28;
pub const WATER_TEMPLATE_COUNT: usize = 25;
pub const WALK_TEMPLATE_COUNT: usize = 32;

/// Relies on rand's `thread_rng` and `Rng::gen_range`: an index drawn below
/// `len`, which must not be zero (`gen_range` panics on an empty range).
#[verifier::external_body]
fn random_index(len: usize) -> (r: usize)
    requires
        len > 0,
    ensures
        r < len,
{
    rand::Rng::gen_range(&mut rand::thread_rng(), 0..len)
}

/// `template` with every `{}` replaced by `value`, read left to right.
pub open spec fn fill_placeholders(template: Seq<char>, value: Seq<char>) -> Seq<char>
    decreases template.len(),
{
    if template.len() == 0 {
        Seq::empty()
    } else if template.len() >= 2 && template[0] == '{' && template[1] == '}' {
        value + fill_placeholders(template.subrange(2, template.len() as int), value)
    } else {
        seq![template[0]] + fill_placeholders(template.subrange(1, template.len() as int), value)
    }
}

/// Whether `r` is entry `i` of `table`: its headline, and its template with
/// every `{}` replaced by `seconds`.
pub open spec fn entry_filled(
    table: Seq<(&'static str, &'static str)>,
    i: int,
    r: (&'static str, String),
    seconds: nat,
) -> bool {
    &&& 0 <= i < table.len()
    &&& r.0 == table[i].0
    &&& r.1@ == fill_placeholders(table[i].1@, decimal(seconds))
}

/// Whether `r` is some entry of `table` filled with `seconds`.
pub open spec fn is_entry_of(table: Seq<(&'static str, &'static str)>, r: (&'static str, String), seconds: nat) -> bool {
    exists|i: int| entry_filled(table, i, r, seconds)
}

/// The note that introduces a water reminder beneath the eye-rest message.
pub open spec fn water_note() -> Seq<char> {
    "\n\n💧 顺便提醒："@
}

/// The note that introduces a walking reminder beneath the eye-rest message.
pub open spec fn walk_note() -> Seq<char> {
    "\n\n🚶 顺便提醒："@
}

/// The message of a rest: the eye-rest message, with the water or walking
/// reminder appended beneath it when the rest calls for one.
pub open spec fn combined_message(rest_type: RestType, eye: Seq<char>, extra: Seq<char>) -> Seq<char> {
    match rest_type {
        RestType::EyeRest => eye,
        RestType::Water => eye + water_note() + extra,
        RestType::Walk => eye + walk_note() + extra,
    }
}

/// The eye-rest reminders: a headline and a message template whose `{}` stands
/// for the rest's length in seconds.
pub const EYE_REST_TABLE: [(&'static str, &'static str); EYE_REST_TEMPLATE_COUNT] = [
    // The 20-20-20 rule.
    ("👀 护眼时间", "20-20-20 法则：每 20 分钟看 20 英尺外 {} 秒"),
    ("🌳 远眺时刻", "把目光投向窗外最远的地方，让睫状肌放松 {} 秒"),
    ("🏔️ 望远休息", "想象你在山顶眺望远方，眼睛自然放松 {} 秒"),
    // Facts about the eyes.
    ("💡 护眼小知识", "人平均每分钟眨眼 15-20 次，专注屏幕时可能降到 3-4 次！休息 {} 秒"),
    ("🔬 眼科冷知识", "你的眼睛有 200 万个工作部件，是身体最复杂的器官之一。爱护它 {} 秒"),
    ("📚 护眼科普", "蓝光会抑制褪黑素分泌，影响睡眠。现在休息 {} 秒，让眼睛喘口气"),
    ("🧬 眼睛构造", "角膜是人体唯一没有血管的组织，全靠泪液供氧。眨眨眼休息 {} 秒"),
    ("🌙 夜间护眼", "晚上用眼更要注意休息，黑暗中瞳孔扩大更容易疲劳。休息 {} 秒"),
    ("📖 近视预防", "每天户外活动 2 小时可有效预防近视。先休息 {} 秒吧"),
    ("🔍 视力保护", "眼睛干涩？可能是泪膜蒸发太快。多眨眼，休息 {} 秒"),
    // Humour.
    ("🦉 猫头鹰说", "即使我能 270° 转头，也需要休息。你的脖子只能转 180°，更该歇歇了！{} 秒"),
    ("🐱 喵星人提醒", "猫咪每天睡 16 小时都精神抖擞，你才休息 {} 秒有啥不行的？"),
    ("🐕 汪星人建议", "狗子撒娇要出门遛弯，你的眼睛也想出去看看。休息 {} 秒"),
    ("🦅 老鹰视角", "老鹰能看清 3 公里外的兔子，全靠好好保护眼睛。休息 {} 秒"),
    ("🐸 青蛙观点", "井底之蛙：虽然我只看得到井口，但我从不盯着屏幕。休息 {} 秒"),
    ("🎮 游戏暂停", "就算大神也要暂停存档，你的眼睛也需要 checkpoint！{} 秒"),
    ("☕ 程序员定律", "while(眼睛疲劳) {{ break; }} // 休息 {} 秒"),
    ("🚀 太空护眼", "宇航员在太空也要做眼保健操，地球人更该休息 {} 秒"),
    ("🎬 导演喊卡", "导演说：\"卡！\" 眼睛杀青休息 {} 秒"),
    ("🎭 眼睛罢工", "您的眼睛申请了 {} 秒带薪休假，已批准"),
    // Health warnings, lightly put.
    ("⚠️ 温馨提示", "长时间盯屏幕可能导致头痛、肩颈酸痛。起来活动 {} 秒吧"),
    ("🏥 眼科医生说", "干眼症患者越来越年轻化了，休息 {} 秒预防一下"),
    ("💊 不吃药的处方", "治疗眼疲劳最好的药：休息 {} 秒 + 远眺绿色植物"),
    ("🩺 健康小贴士", "眼疲劳会引起头痛，头痛会影响心情，心情差会摸鱼。休息 {} 秒吧"),
    // Encouragement.
    ("💪 效率提升", "适当休息反而能提高工作效率。科学划水 {} 秒"),
    ("🧠 大脑充电", "让眼睛和大脑同步休息 {} 秒，待会儿更清醒"),
    ("⚡ 能量恢复", "短暂休息能恢复注意力，这 {} 秒是值得的投资"),
    ("🎯 专注重置", "暂停是为了更好地出发。休息 {} 秒，重新聚焦"),
];

/// The water reminders: a headline and a message template whose `{}` stands
/// for the rest's length in seconds.
pub const WATER_TABLE: [(&'static str, &'static str); WATER_TEMPLATE_COUNT] = [
    // Plain reminders.
    ("💧 喝水时间", "起来喝杯水吧！保持身体水分充足（{} 秒）"),
    ("🚰 补水提醒", "该喝水啦！人体 70% 是水，别让自己\"干涸\"（{} 秒）"),
    ("🥤 饮水时刻", "水是生命之源，现在就喝一杯吧（{} 秒）"),
    // Why water matters.
    ("📊 健康数据", "人每天需要 2000ml 水，你今天喝够了吗？（{} 秒）"),
    ("🧪 身体需求", "缺水 2% 就会影响注意力和记忆力。快喝水！（{} 秒）"),
    ("🔬 科学喝水", "少量多次喝水比一次猛灌更健康（{} 秒）"),
    ("💡 喝水冷知识", "大脑 75% 是水，缺水会变\"笨\"哦（{} 秒）"),
    ("🌡️ 温度建议", "温水 (35-40°C) 最容易被身体吸收（{} 秒）"),
    ("⏰ 喝水时机", "起床、饭前、运动后是喝水的黄金时间（{} 秒）"),
    // What too little water does.
    ("⚠️ 缺水警告", "缺水会导致头痛、疲劳、皮肤干燥。快补水！（{} 秒）"),
    ("🏥 健康提示", "长期缺水可能导致肾结石，喝水是最便宜的养生（{} 秒）"),
    ("😵 疲劳信号", "感觉累？可能不是困，是渴！喝杯水试试（{} 秒）"),
    ("🤯 大脑求救", "头昏脑涨？你的大脑在喊渴！（{} 秒）"),
    // Humour.
    ("🐫 骆驼都笑了", "骆驼：我能 7 天不喝水，你可不行！（{} 秒）"),
    ("🐟 鱼的建议", "我一辈子泡在水里，你至少喝两口吧（{} 秒）"),
    ("🌊 海绵宝宝说", "虽然我住海里，但淡水更健康哦（{} 秒）"),
    ("☕ 咖啡警告", "咖啡不是水的替代品！喝完咖啡更要补水（{} 秒）"),
    ("🍺 酒精提示", "昨晚喝酒了？今天更要多喝水排毒（{} 秒）"),
    ("🧊 冰水冷知识", "冰水会让胃收缩，温水更舒服哦（{} 秒）"),
    ("🎮 游戏补给", "真正的大神都知道：喝水是最强 buff（{} 秒）"),
    ("💻 程序员必备", "Coffee++ 不如 Water++，少喝咖啡多喝水（{} 秒）"),
    ("🦴 骨骼精奇", "关节润滑需要水，别让自己\"生锈\"（{} 秒）"),
    // Encouragement.
    ("✨ 美容秘方", "多喝水是最便宜的护肤品（{} 秒）"),
    ("🏃 代谢加速", "喝水能促进新陈代谢，助力减脂（{} 秒）"),
    ("🎯 效率提升", "充足饮水能让你保持清醒专注（{} 秒）"),
];

/// The walking reminders: a headline and a message template whose `{}` stands
/// for the rest's length in seconds.
pub const WALK_TABLE: [(&'static str, &'static str); WALK_TEMPLATE_COUNT] = [
    // Plain reminders.
    ("🚶 走动时间", "站起来活动一下身体！（{} 秒）"),
    ("🏃 运动时刻", "久坐是健康杀手，起来动动吧（{} 秒）"),
    ("🧘 伸展提醒", "伸个懒腰，活动筋骨（{} 秒）"),
    // What long sitting does.
    ("📊 久坐数据", "久坐超过 1 小时，预期寿命减少 22 分钟！（{} 秒）"),
    ("🔬 科学发现", "久坐会导致血液循环变慢，快起来走走（{} 秒）"),
    ("🏥 医学警告", "久坐是\"新型吸烟\"，同样危害健康（{} 秒）"),
    ("💡 健康知识", "每坐 30 分钟起来活动 2 分钟，可以抵消久坐伤害（{} 秒）"),
    ("🦴 骨骼健康", "久坐会让骨密度降低，多走动才能保持骨骼健康（{} 秒）"),
    ("🫀 心脏提醒", "久坐让心血管疾病风险增加 147%！起来活动（{} 秒）"),
    ("🧠 大脑供血", "站起来能增加大脑供血，思路更清晰（{} 秒）"),
    // Body parts that need moving.
    ("🦵 腿部呼救", "你的腿想念走路的感觉了！（{} 秒）"),
    ("🦴 脊椎请求", "你的脊椎承受了很大压力，让它休息一下（{} 秒）"),
    ("💪 肌肉松弛", "久坐让肌肉萎缩，起来激活它们（{} 秒）"),
    ("🤸 关节润滑", "关节需要运动来分泌润滑液，别让它们\"生锈\"（{} 秒）"),
    ("👣 脚趾活动", "动动脚趾，促进下肢血液循环（{} 秒）"),
    // Humour.
    ("🐢 乌龟都着急", "连乌龟都比你动得多，起来走走！（{} 秒）"),
    ("🦥 树懒震惊", "树懒：没想到有人比我还懒！（{} 秒）"),
    ("🪑 椅子抗议", "你的椅子申请轮换休息了（{} 秒）"),
    ("🍑 屁股抗议", "久坐让屁股变扁，不信你摸摸（{} 秒）"),
    ("🐕 遛狗时间", "就算没有狗，也可以假装遛自己（{} 秒）"),
    ("🚀 宇航员训练", "NASA 要求宇航员每天运动 2 小时，你先动 {} 秒"),
    ("🏋️ 健身房欠费", "办了健身卡不去，不如先站起来（{} 秒）"),
    ("🎮 角色需要走位", "现实也要走位！别只会在游戏里跑（{} 秒）"),
    ("📱 步数挑战", "微信运动 100 步也是步数，起来贡献一下（{} 秒）"),
    // Suggested moves.
    ("🤸 推荐动作", "试试原地高抬腿，激活下肢肌肉（{} 秒）"),
    ("🧘 办公室瑜伽", "站起来做几个深蹲，唤醒臀部肌肉（{} 秒）"),
    ("💃 扭一扭", "扭扭腰，转转头，活动全身关节（{} 秒）"),
    ("🏃 小跑一下", "绕办公室走一圈，或原地踏步（{} 秒）"),
    ("🙆 伸展运动", "双手举过头顶，做个全身伸展（{} 秒）"),
    // Encouragement.
    ("⚡ 能量激活", "活动一下，血液循环加速，精力充沛（{} 秒）"),
    ("🎯 效率秘诀", "适当活动能让下午不犯困（{} 秒）"),
    ("✨ 健康投资", "每天多走 2000 步，一年下来了不起（{} 秒）"),
];

/// Replaces every `{}` of `template`, read left to right, with `value`.
pub fn fill_template(template: &str, value: &str) -> (r: String)
    ensures
        r@ == fill_placeholders(template@, value@),
{
    let ghost t = template@;
    let n = template.unicode_len();
    let mut out = String::new();
    let mut start: usize = 0;
    let mut i: usize = 0;
    assert(t.subrange(0, 0) =~= Seq::<char>::empty());
    assert(t.subrange(0, n as int) =~= t);
    assert(out@ =~= Seq::<char>::empty());
    while i < n
        invariant
            n == t.len(),
            t == template@,
            start <= i <= n,
            out@ + t.subrange(start as int, i as int) + fill_placeholders(t.subrange(i as int, n as int), value@)
                == fill_placeholders(t, value@),
        decreases n - i,
    {
        let ghost rest = t.subrange(i as int, n as int);
        if i + 1 < n && template.get_char(i) == '{' && template.get_char(i + 1) == '}' {
            assert(rest.subrange(2, rest.len() as int) =~= t.subrange(i + 2, n as int));
            let span = template.substring_char(start, i);
            out.append(span);
            out.append(value);
            i = i + 2;
            start = i;
            assert(t.subrange(start as int, i as int) =~= Seq::empty());
            assert(out@ + t.subrange(start as int, i as int) + fill_placeholders(t.subrange(i as int, n as int), value@)
                =~= fill_placeholders(t, value@));
        } else {
            assert(rest.subrange(1, rest.len() as int) =~= t.subrange(i + 1, n as int));
            assert(t.subrange(start as int, i as int) + seq![t[i as int]] =~= t.subrange(start as int, i + 1));
            i = i + 1;
            assert(out@ + t.subrange(start as int, i as int) + fill_placeholders(t.subrange(i as int, n as int), value@)
                =~= fill_placeholders(t, value@));
        }
    }
    let span = template.substring_char(start, n);
    out.append(span);
    assert(t.subrange(n as int, n as int) =~= Seq::empty());
    assert(out@ =~= fill_placeholders(t, value@));
    out
}

/// The headline and the message of entry `index` of `templates`, for a rest
/// of `rest_seconds` seconds.
pub fn message_at(templates: &[(&'static str, &'static str)], index: usize, rest_seconds: u64) -> (r: (
    &'static str,
    String,
))
    requires
        index < templates@.len(),
    ensures
        r.0 == templates@[index as int].0,
        r.1@ == fill_placeholders(templates@[index as int].1@, decimal(rest_seconds as nat)),
{
    let (headline, template) = templates[index];
    let seconds = decimal_string(rest_seconds);
    (headline, fill_template(template, seconds.as_str()))
}

/// A random eye-rest headline and message for a rest of `rest_seconds`
/// seconds: some entry of the table, with the seconds filled in.
pub fn get_eye_rest_message(rest_seconds: u64) -> (r: (&'static str, String))
    ensures
        is_entry_of(EYE_REST_TABLE@, r, rest_seconds as nat),
{
    let index = random_index(EYE_REST_TEMPLATE_COUNT);
    let r = message_at(EYE_REST_TABLE.as_slice(), index, rest_seconds);
    assert(entry_filled(EYE_REST_TABLE@, index as int, r, rest_seconds as nat));
    r
}

/// A random water headline and message for a rest of `rest_seconds`
/// seconds: some entry of the table, with the seconds filled in.
pub fn get_water_message(rest_seconds: u64) -> (r: (&'static str, String))
    ensures
        is_entry_of(WATER_TABLE@, r, rest_seconds as nat),
{
    let index = random_index(WATER_TEMPLATE_COUNT);
    let r = message_at(WATER_TABLE.as_slice(), index, rest_seconds);
    assert(entry_filled(WATER_TABLE@, index as int, r, rest_seconds as nat));
    r
}

/// A random walking headline and message for a rest of `rest_seconds`
/// seconds: some entry of the table, with the seconds filled in.
pub fn get_walk_message(rest_seconds: u64) -> (r: (&'static str, String))
    ensures
        is_entry_of(WALK_TABLE@, r, rest_seconds as nat),
{
    let index = random_index(WALK_TEMPLATE_COUNT);
    let r = message_at(WALK_TABLE.as_slice(), index, rest_seconds);
    assert(entry_filled(WALK_TABLE@, index as int, r, rest_seconds as nat));
    r
}

/// Appends the water or walking reminder `extra` beneath the eye-rest
/// message `eye`, as the rest type calls for.
pub fn compose_message(rest_type: RestType, eye: String, extra: &str) -> (r: String)
    ensures
        r@ == combined_message(rest_type, eye@, extra@),
{
    let mut message = eye;
    match rest_type {
        RestType::EyeRest => {},
        RestType::Water => {
            message.append("\n\n💧 顺便提醒：");
            message.append(extra);
        },
        RestType::Walk => {
            message.append("\n\n🚶 顺便提醒：");
            message.append(extra);
        },
    }
    message
}

/// The table of the reminder appended for a rest of the given type; empty
/// for a plain eye rest.
pub open spec fn addendum_table(rest_type: RestType) -> Seq<(&'static str, &'static str)> {
    match rest_type {
        RestType::EyeRest => Seq::empty(),
        RestType::Water => WATER_TABLE@,
        RestType::Walk => WALK_TABLE@,
    }
}

/// Whether `r` is a rest reminder of the given type and length: the
/// headline of some eye-rest entry, and that entry's message filled with the
/// seconds, with some entry of the water or walking table appended beneath it
/// when the rest calls for one.
pub open spec fn is_rest_reminder(rest_type: RestType, r: (&'static str, String), seconds: nat) -> bool {
    exists|i: int, j: int|
        {
            &&& 0 <= i < EYE_REST_TABLE@.len()
            &&& r.0 == EYE_REST_TABLE@[i].0
            &&& rest_type != RestType::EyeRest ==> 0 <= j < addendum_table(rest_type).len()
            &&& r.1@ == combined_message(
                rest_type,
                fill_placeholders(EYE_REST_TABLE@[i].1@, decimal(seconds)),
                fill_placeholders(addendum_table(rest_type)[j].1@, decimal(seconds)),
            )
        }
}

/// The headline and message shown during a rest of the given type and
/// length: always a random eye-rest message, with a random water or walking
/// reminder appended beneath it when the rest calls for one.
pub fn rest_reminder(rest_type: RestType, rest_seconds: u64) -> (r: (&'static str, String))
    ensures
        is_rest_reminder(rest_type, r, rest_seconds as nat),
{
    let secs = Ghost(rest_seconds as nat);
    let eye_entry = get_eye_rest_message(rest_seconds);
    let ghost i = choose|i: int| entry_filled(EYE_REST_TABLE@, i, eye_entry, secs@);
    let (headline, eye) = eye_entry;
    match rest_type {
        RestType::EyeRest => {
            let r = (headline, eye);
            assert(combined_message(rest_type, eye@, Seq::empty()) == eye@);
            assert(r.1@ == combined_message(
                rest_type,
                fill_placeholders(EYE_REST_TABLE@[i].1@, decimal(secs@)),
                fill_placeholders(addendum_table(rest_type)[0].1@, decimal(secs@)),
            ));
            r
        },
        RestType::Water => {
            let extra = get_water_message(rest_seconds);
            let ghost j = choose|j: int| entry_filled(WATER_TABLE@, j, extra, secs@);
            let r = (headline, compose_message(rest_type, eye, extra.1.as_str()));
            assert(r.1@ == combined_message(
                rest_type,
                fill_placeholders(EYE_REST_TABLE@[i].1@, decimal(secs@)),
                fill_placeholders(addendum_table(rest_type)[j].1@, decimal(secs@)),
            ));
            r
        },
        RestType::Walk => {
            let extra = get_walk_message(rest_seconds);
            let ghost j = choose|j: int| entry_filled(WALK_TABLE@, j, extra, secs@);
            let r = (headline, compose_message(rest_type, eye, extra.1.as_str()));
            assert(r.1@ == combined_message(
                rest_type,
                fill_placeholders(EYE_REST_TABLE@[i].1@, decimal(secs@)),
                fill_placeholders(addendum_table(rest_type)[j].1@, decimal(secs@)),
            ));
            r
        },
    }
}

} // verus!
