//! The texts the bot answers with.
use vstd::prelude::*;
use crate::pattern::regex_literal;

verus! {

pub const BOT_ABOUT: &'static str =
    "*Hang it bot*\n\nHang your boss up\\!\n[Github](https://github.com/senseab/hangitbot) @hangitbot";

pub const BOT_TEXT_NO_TARGET: &'static str = "请在回复某一条信息时使用该指令";
pub const BOT_TEXT_IS_CHANNEL: &'static str = "这不是个人，吊不起来";
pub const BOT_TEXT_TOP_TITLE: &'static str = "**吊人排行榜**";
pub const BOT_TEXT_TOP_GROUP: &'static str = "群内";
pub const BOT_TEXT_TOP_GLOBAL: &'static str = "全球";
pub const BOT_TEXT_TOP_NONE: &'static str = "无人上榜";
pub const BOT_TEXT_TOP_TEMPLATE: &'static str = "{name} 被吊了 {count} 次";
pub const BOT_TEXT_INLINE_HANG: &'static str = "吊起来";

pub const BOT_TEXT_HANGED_1: &'static str = "{name} 被吊路灯了，绳子是昨天他卖出去的……";
pub const BOT_TEXT_HANGED_2: &'static str = "因为 {name} 太过逆天，我们把 TA 吊在了路灯上……";
pub const BOT_TEXT_HANGED_3: &'static str = "{name} 吊在了路灯上，TA 兴风作浪的时代结束了……";
pub const BOT_TEXT_HANGED_4: &'static str = "吊在路灯上的 {name} 正在接受大家的鄙视……";
pub const BOT_TEXT_HANGED_5: &'static str = "对 {name} 来说，绳命来得快去得也快，只有路灯是永恒的……";
pub const BOT_TEXT_HANGED_6: &'static str = "被套上麻袋的 {name} 在经历了一顿胖揍之后，最后还是成了路灯的挂件……";

pub const BOT_TEXT_HANGED_SELF_1: &'static str = "{name} 承受不了自己所做的一切，选择了自行了断……";
pub const BOT_TEXT_HANGED_SELF_2: &'static str = "对于 {name} 来说，把自己吊在路灯上可能是最好的选择了……";
pub const BOT_TEXT_HANGED_SELF_3: &'static str = "{name} 最终还是选择了逃避……";

pub const BOT_TEXT_HANG_BOT: &'static str = "机器人是无法被吊死的……";
pub const BOT_TEXT_HANG_CHANNEL: &'static str = "这是个频道……";
pub const BOT_TEXT_HANG_ANONYMOUS: &'static str = "这是个幽灵……";

/// How many texts there are for hanging someone else.
pub const HANGED_COUNT: usize = 6;

/// How many texts there are for hanging oneself.
pub const HANGED_SELF_COUNT: usize = 3;

/// How many hanging texts there are in all: first those for hanging someone
/// else, then those for hanging oneself.
pub const TEMPLATE_COUNT: usize = 9;

/// The placeholder that a hanging text holds for the name.
pub open spec fn name_placeholder() -> Seq<char> {
    seq!['{', 'n', 'a', 'm', 'e', '}']
}

/// The `k`-th hanging text.
pub open spec fn hang_template_text(k: int) -> Seq<char> {
    if k == 0 {
        BOT_TEXT_HANGED_1@
    } else if k == 1 {
        BOT_TEXT_HANGED_2@
    } else if k == 2 {
        BOT_TEXT_HANGED_3@
    } else if k == 3 {
        BOT_TEXT_HANGED_4@
    } else if k == 4 {
        BOT_TEXT_HANGED_5@
    } else if k == 5 {
        BOT_TEXT_HANGED_6@
    } else if k == 6 {
        BOT_TEXT_HANGED_SELF_1@
    } else if k == 7 {
        BOT_TEXT_HANGED_SELF_2@
    } else {
        BOT_TEXT_HANGED_SELF_3@
    }
}

/// What the `k`-th hanging text says before the name.
pub open spec fn hang_prefix(k: int) -> Seq<char> {
    if k == 1 {
        "因为 "@
    } else if k == 3 {
        "吊在路灯上的 "@
    } else if k == 4 {
        "对 "@
    } else if k == 5 {
        "被套上麻袋的 "@
    } else if k == 7 {
        "对于 "@
    } else {
        Seq::empty()
    }
}

/// What the `k`-th hanging text says after the name.
pub open spec fn hang_suffix(k: int) -> Seq<char> {
    if k == 0 {
        " 被吊路灯了，绳子是昨天他卖出去的……"@
    } else if k == 1 {
        " 太过逆天，我们把 TA 吊在了路灯上……"@
    } else if k == 2 {
        " 吊在了路灯上，TA 兴风作浪的时代结束了……"@
    } else if k == 3 {
        " 正在接受大家的鄙视……"@
    } else if k == 4 {
        " 来说，绳命来得快去得也快，只有路灯是永恒的……"@
    } else if k == 5 {
        " 在经历了一顿胖揍之后，最后还是成了路灯的挂件……"@
    } else if k == 6 {
        " 承受不了自己所做的一切，选择了自行了断……"@
    } else if k == 7 {
        " 来说，把自己吊在路灯上可能是最好的选择了……"@
    } else {
        " 最终还是选择了逃避……"@
    }
}

/// The `k`-th hanging text: those for hanging someone else come first, then
/// those for hanging oneself.
pub fn hang_template(k: usize) -> (t: &'static str)
    requires
        k < TEMPLATE_COUNT,
    ensures
        t@ == hang_template_text(k as int),
{
    if k == 0 {
        BOT_TEXT_HANGED_1
    } else if k == 1 {
        BOT_TEXT_HANGED_2
    } else if k == 2 {
        BOT_TEXT_HANGED_3
    } else if k == 3 {
        BOT_TEXT_HANGED_4
    } else if k == 4 {
        BOT_TEXT_HANGED_5
    } else if k == 5 {
        BOT_TEXT_HANGED_6
    } else if k == 6 {
        BOT_TEXT_HANGED_SELF_1
    } else if k == 7 {
        BOT_TEXT_HANGED_SELF_2
    } else {
        BOT_TEXT_HANGED_SELF_3
    }
}

/// Each hanging text is a prefix, the name placeholder and a suffix, where
/// neither prefix nor suffix holds a character that a regular expression or
/// a template would read as markup.
pub proof fn lemma_hang_template_shape(k: int)
    requires
        0 <= k < TEMPLATE_COUNT,
    ensures
        hang_template_text(k) == hang_prefix(k) + name_placeholder() + hang_suffix(k),
        regex_literal(hang_prefix(k)),
        regex_literal(hang_suffix(k)),
        hang_prefix(k).len() <= 8,
        4 <= hang_suffix(k).len() <= 26,
{
    if k == 0 {
        reveal_strlit("{name} 被吊路灯了，绳子是昨天他卖出去的……");
        reveal_strlit(" 被吊路灯了，绳子是昨天他卖出去的……");
    } else if k == 1 {
        reveal_strlit("因为 {name} 太过逆天，我们把 TA 吊在了路灯上……");
        reveal_strlit("因为 ");
        reveal_strlit(" 太过逆天，我们把 TA 吊在了路灯上……");
    } else if k == 2 {
        reveal_strlit("{name} 吊在了路灯上，TA 兴风作浪的时代结束了……");
        reveal_strlit(" 吊在了路灯上，TA 兴风作浪的时代结束了……");
    } else if k == 3 {
        reveal_strlit("吊在路灯上的 {name} 正在接受大家的鄙视……");
        reveal_strlit("吊在路灯上的 ");
        reveal_strlit(" 正在接受大家的鄙视……");
    } else if k == 4 {
        reveal_strlit("对 {name} 来说，绳命来得快去得也快，只有路灯是永恒的……");
        reveal_strlit("对 ");
        reveal_strlit(" 来说，绳命来得快去得也快，只有路灯是永恒的……");
    } else if k == 5 {
        reveal_strlit("被套上麻袋的 {name} 在经历了一顿胖揍之后，最后还是成了路灯的挂件……");
        reveal_strlit("被套上麻袋的 ");
        reveal_strlit(" 在经历了一顿胖揍之后，最后还是成了路灯的挂件……");
    } else if k == 6 {
        reveal_strlit("{name} 承受不了自己所做的一切，选择了自行了断……");
        reveal_strlit(" 承受不了自己所做的一切，选择了自行了断……");
    } else if k == 7 {
        reveal_strlit("对于 {name} 来说，把自己吊在路灯上可能是最好的选择了……");
        reveal_strlit("对于 ");
        reveal_strlit(" 来说，把自己吊在路灯上可能是最好的选择了……");
    } else {
        reveal_strlit("{name} 最终还是选择了逃避……");
        reveal_strlit(" 最终还是选择了逃避……");
    }
    assert(hang_template_text(k) =~= hang_prefix(k) + name_placeholder() + hang_suffix(k));
}

/// The third-last character of the `k`-th suffix.
pub open spec fn suffix_mark(k: int) -> char {
    if k == 0 {
        '的'
    } else if k == 1 {
        '上'
    } else if k == 2 {
        '了'
    } else if k == 3 {
        '视'
    } else if k == 4 {
        '的'
    } else if k == 5 {
        '件'
    } else if k == 6 {
        '断'
    } else if k == 7 {
        '了'
    } else {
        '避'
    }
}

/// The fourth-last character of the `k`-th suffix.
pub open spec fn suffix_mark2(k: int) -> char {
    if k == 0 {
        '去'
    } else if k == 1 {
        '灯'
    } else if k == 2 {
        '束'
    } else if k == 3 {
        '鄙'
    } else if k == 4 {
        '恒'
    } else if k == 5 {
        '挂'
    } else if k == 6 {
        '了'
    } else if k == 7 {
        '择'
    } else {
        '逃'
    }
}

/// The last characters of each suffix tell the suffixes apart.
pub proof fn lemma_suffix_marks(k: int)
    requires
        0 <= k < TEMPLATE_COUNT,
    ensures
        hang_suffix(k).len() >= 4,
        hang_suffix(k)[hang_suffix(k).len() - 3] == suffix_mark(k),
        hang_suffix(k)[hang_suffix(k).len() - 4] == suffix_mark2(k),
{
    if k == 0 {
        reveal_strlit(" 被吊路灯了，绳子是昨天他卖出去的……");
    } else if k == 1 {
        reveal_strlit(" 太过逆天，我们把 TA 吊在了路灯上……");
    } else if k == 2 {
        reveal_strlit(" 吊在了路灯上，TA 兴风作浪的时代结束了……");
    } else if k == 3 {
        reveal_strlit(" 正在接受大家的鄙视……");
    } else if k == 4 {
        reveal_strlit(" 来说，绳命来得快去得也快，只有路灯是永恒的……");
    } else if k == 5 {
        reveal_strlit(" 在经历了一顿胖揍之后，最后还是成了路灯的挂件……");
    } else if k == 6 {
        reveal_strlit(" 承受不了自己所做的一切，选择了自行了断……");
    } else if k == 7 {
        reveal_strlit(" 来说，把自己吊在路灯上可能是最好的选择了……");
    } else {
        reveal_strlit(" 最终还是选择了逃避……");
    }
}

} // verus!
