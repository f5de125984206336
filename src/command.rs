use vstd::prelude::*;
use vstd::string::*;
use crate::config::BotConfig;
use crate::dispatch::{plan_text_delivery, plans_text, DispatchPlan};
use crate::record::{announcement, render_announcement, CampaignRecord};
use crate::source::FetchError;

verus! {

/// The commands that the bot answers.
#[derive(PartialEq, Eq, Structural, Debug, Clone, Copy)]
pub enum Command {
    Ping,
    Help,
    Airdrops,
    MsgTest,
}

/// The liveness reply.
pub const PONG_TEXT: &'static str = "pong（在线）";

/// The list of commands sent in reply to `/help`.
pub const HELP_TEXT: &'static str = "版本(v1.0.0)可用命令:\n\n/ping — 判断机器人是否在线\n/help — 显示帮助\n/airdrops — 获取最近空投列表\n/msgtest — 频道消息测试";

/// The reply to a latest-record query when the snapshot is empty.
pub const NO_RECORDS_TEXT: &'static str = "当前没有可用空投。";

/// What a failed latest-record query reply starts with, before the failure detail.
pub const FETCH_FAILED_PREFIX: &'static str = "获取空投信息失败: ";

/// The text that the restricted channel test delivers.
pub const CHANNEL_TEST_TEXT: &'static str = "这是一个频道消息测试";

/// The reply to the restricted channel test from any other chat.
pub const PRIVATE_TEST_TEXT: &'static str = "这是私人聊天测试";

/// The part of `s` before the first `c`, or all of `s`.
pub open spec fn before_first(s: Seq<char>, c: char) -> Seq<char> {
    match s.index_of_first(c) {
        Some(i) => s.subrange(0, i),
        None => s,
    }
}

/// The part of `s` after the first `c`, if there is a `c`.
pub open spec fn after_first(s: Seq<char>, c: char) -> Option<Seq<char>> {
    match s.index_of_first(c) {
        Some(i) => Some(s.subrange(i + 1, s.len() as int)),
        None => None,
    }
}

/// A character's code with ASCII upper case taken to lower case.
pub open spec fn folded_code(c: char) -> u32 {
    if 'A' <= c && c <= 'Z' {
        (c as u32 + 32) as u32
    } else {
        c as u32
    }
}

/// Equality of two texts up to ASCII case.
pub open spec fn same_ignoring_ascii_case(a: Seq<char>, b: Seq<char>) -> bool {
    a.len() == b.len() && forall|i: int| 0 <= i < a.len() ==> folded_code(a[i]) == folded_code(b[i])
}

/// The command of a command word, slash included.
pub open spec fn command_named(name: Seq<char>) -> Option<Command> {
    if name == "/ping"@ {
        Some(Command::Ping)
    } else if name == "/help"@ {
        Some(Command::Help)
    } else if name == "/airdrops"@ {
        Some(Command::Airdrops)
    } else if name == "/msgtest"@ {
        Some(Command::MsgTest)
    } else {
        None
    }
}

/// The command that a message text gives for the bot named `bot`.
///
/// The command word runs up to the first space. It may end in `@` and a bot name, which
/// must then be `bot` up to ASCII case. Anything after the word is ignored.
pub open spec fn parsed_command(text: Seq<char>, bot: Seq<char>) -> Option<Command> {
    let word = before_first(text, ' ');
    let addressed = match after_first(word, '@') {
        None => true,
        Some(rest) => same_ignoring_ascii_case(before_first(rest, '@'), bot),
    };
    if addressed {
        command_named(before_first(word, '@'))
    } else {
        None
    }
}

/// What the handler does in answer to one command.
pub enum CommandAction {
    /// Send `text` to `chat`.
    Reply { chat: i64, text: String },
    /// Fetch the snapshot, then send `chat` the reply that `latest_reply` gives.
    FetchLatest { chat: i64 },
    /// Deliver a text to every enabled channel.
    Broadcast { plan: DispatchPlan },
}

/// Whether `action` answers `cmd` sent from `chat`.
pub open spec fn answers(cmd: Command, chat: i64, config: BotConfig, action: CommandAction) -> bool {
    match cmd {
        Command::Ping => action == (CommandAction::Reply { chat, text: action->Reply_text })
            && action->Reply_text@ == PONG_TEXT@,
        Command::Help => action == (CommandAction::Reply { chat, text: action->Reply_text })
            && action->Reply_text@ == HELP_TEXT@,
        Command::Airdrops => action == CommandAction::FetchLatest { chat },
        Command::MsgTest => if chat == config.dev_chat {
            action is Broadcast && plans_text(config.channels, CHANNEL_TEST_TEXT@, action->plan)
        } else {
            action == (CommandAction::Reply { chat, text: action->Reply_text })
                && action->Reply_text@ == PRIVATE_TEST_TEXT@
        },
    }
}

/// The reply to a latest-record query, from the result of the fetch.
pub open spec fn latest_reply_text(fetched: Result<Seq<CampaignRecord>, Seq<char>>) -> Seq<char> {
    match fetched {
        Ok(rs) => if rs.len() == 0 {
            NO_RECORDS_TEXT@
        } else {
            announcement(rs[0])
        },
        Err(detail) => FETCH_FAILED_PREFIX@ + detail,
    }
}

/// The position of the first `c` in `s`, if any.
fn find_char(s: &str, c: char) -> (r: Option<usize>)
    ensures
        match r {
            Some(i) => s@.index_of_first(c) == Some(i as int),
            None => s@.index_of_first(c) is None,
        },
{
    let n = s.unicode_len();
    let mut i: usize = 0;
    proof {
        s@.index_of_first_ensures(c);
    }
    while i < n
        invariant
            n == s@.len(),
            i <= n,
            forall|j: int| 0 <= j < i ==> s@[j] != c,
        decreases n - i,
    {
        if s.get_char(i) == c {
            proof {
                s@.index_of_first_ensures(c);
                assert(s@.contains(c));
            }
            return Some(i);
        }
        i = i + 1;
    }
    None
}

/// `s` split at its first `c`: what comes before it, and what comes after it if there
/// is one.
fn split_first<'a>(s: &'a str, c: char) -> (r: (&'a str, Option<&'a str>))
    ensures
        r.0@ == before_first(s@, c),
        match r.1 {
            Some(t) => after_first(s@, c) == Some(t@),
            None => after_first(s@, c) is None,
        },
{
    proof {
        s@.index_of_first_ensures(c);
    }
    match find_char(s, c) {
        Some(i) => {
            let n = s.unicode_len();
            (s.substring_char(0, i), Some(s.substring_char(i + 1, n)))
        },
        None => (s, None),
    }
}

fn same_text(a: &str, b: &str) -> (r: bool)
    ensures
        r == (a@ == b@),
{
    let n = a.unicode_len();
    if n != b.unicode_len() {
        return false;
    }
    let mut i: usize = 0;
    while i < n
        invariant
            n == a@.len(),
            n == b@.len(),
            i <= n,
            forall|j: int| 0 <= j < i ==> a@[j] == b@[j],
        decreases n - i,
    {
        if a.get_char(i) != b.get_char(i) {
            return false;
        }
        i = i + 1;
    }
    assert(a@ =~= b@);
    true
}

fn fold_code(c: char) -> (r: u32)
    ensures
        r == folded_code(c),
{
    if 'A' <= c && c <= 'Z' {
        c as u32 + 32
    } else {
        c as u32
    }
}

fn same_ignoring_case(a: &str, b: &str) -> (r: bool)
    ensures
        r == same_ignoring_ascii_case(a@, b@),
{
    let n = a.unicode_len();
    if n != b.unicode_len() {
        return false;
    }
    let mut i: usize = 0;
    while i < n
        invariant
            n == a@.len(),
            n == b@.len(),
            i <= n,
            forall|j: int| 0 <= j < i ==> folded_code(a@[j]) == folded_code(b@[j]),
        decreases n - i,
    {
        if fold_code(a.get_char(i)) != fold_code(b.get_char(i)) {
            return false;
        }
        i = i + 1;
    }
    true
}

fn command_of_word(name: &str) -> (r: Option<Command>)
    ensures
        r == command_named(name@),
{
    if same_text(name, "/ping") {
        Some(Command::Ping)
    } else if same_text(name, "/help") {
        Some(Command::Help)
    } else if same_text(name, "/airdrops") {
        Some(Command::Airdrops)
    } else if same_text(name, "/msgtest") {
        Some(Command::MsgTest)
    } else {
        None
    }
}

/// Parses a message text into a command for the bot named `bot_name`.
pub fn parse_command(text: &str, bot_name: &str) -> (r: Option<Command>)
    ensures
        r == parsed_command(text@, bot_name@),
{
    let (word, _) = split_first(text, ' ');
    let (name, rest) = split_first(word, '@');
    let addressed = match rest {
        None => true,
        Some(t) => {
            let (user, _) = split_first(t, '@');
            same_ignoring_case(user, bot_name)
        },
    };
    if addressed {
        command_of_word(name)
    } else {
        None
    }
}

/// Decides the answer to `cmd` sent from `chat`.
pub fn answer(cmd: Command, chat: i64, config: &BotConfig) -> (r: CommandAction)
    ensures
        answers(cmd, chat, *config, r),
{
    match cmd {
        Command::Ping => CommandAction::Reply { chat, text: String::from_str(PONG_TEXT) },
        Command::Help => CommandAction::Reply { chat, text: String::from_str(HELP_TEXT) },
        Command::Airdrops => CommandAction::FetchLatest { chat },
        Command::MsgTest => {
            if chat == config.dev_chat {
                CommandAction::Broadcast {
                    plan: plan_text_delivery(&config.channels, CHANNEL_TEST_TEXT),
                }
            } else {
                CommandAction::Reply { chat, text: String::from_str(PRIVATE_TEST_TEXT) }
            }
        },
    }
}

/// The reply to a latest-record query: the full announcement of the first record, or
/// the no-records message, or the failure with its detail.
pub fn latest_reply(fetched: &Result<Vec<CampaignRecord>, FetchError>) -> (r: String)
    ensures
        r@ == latest_reply_text(
            match fetched {
                Ok(v) => Ok(v@),
                Err(e) => Err(e.detail@),
            },
        ),
{
    match fetched {
        Ok(records) => {
            if records.len() == 0 {
                String::from_str(NO_RECORDS_TEXT)
            } else {
                render_announcement(&records[0])
            }
        },
        Err(e) => {
            let mut s = String::from_str(FETCH_FAILED_PREFIX);
            s.append(e.detail.as_str());
            s
        },
    }
}

/// The restricted channel test sends nothing to any channel when it comes from another
/// chat than the allowed one; from the allowed chat it delivers to the primary chat and
/// to the webhook exactly when one is configured.
pub proof fn restricted_command_guarded(chat: i64, config: BotConfig, action: CommandAction)
    requires
        answers(Command::MsgTest, chat, config, action),
    ensures
        chat != config.dev_chat ==> action is Reply && action->Reply_chat == chat,
        chat == config.dev_chat ==> {
            &&& action is Broadcast
            &&& action->plan.primary_chat == config.channels.primary_chat
            &&& (action->plan.webhook is Some <==> config.channels.webhook_url is Some)
        },
{
}

} // verus!
