//! The decisions of the bot's commands, apart from talking to Discord:
//! who may use a voice command, where the bot joins, how looping changes,
//! and the texts the commands answer with.
use vstd::prelude::*;
use vstd::string::*;
use crate::error::BotError;
use crate::messages::factory::LoopState;
use crate::messages::message::Message;
use crate::text::{chars_of, decimal, decimal_string, owned};
use crate::utils::{get_total_pages, total_pages};

verus! {

/// Why a voice command may not be used, if it may not.
pub open spec fn voice_access_error(bot: Option<Option<u64>>, user: Option<Option<u64>>) -> Option<Seq<char>> {
    match bot {
        None => Some("Bot is not in a voice channel"@),
        Some(b) => match user {
            None => Some("You have to be in a voice channel"@),
            Some(u) => if u != b { Some("You are not in the same voice channel as bot"@) } else { None },
        },
    }
}

/// Checks that a voice command may be used: the bot must be in a call
/// (`bot` is the call's channel), the author in a voice channel (`user` is
/// the author's channel), and both in the same channel. A refusal is the
/// error message to send.
pub fn check_voice_access(bot: Option<Option<u64>>, user: Option<Option<u64>>) -> (r: Result<(), Message>)
    requires
        bot is Some && user is Some ==> bot->0 is Some && user->0 is Some,
    ensures
        match voice_access_error(bot, user) {
            None => r is Ok,
            Some(text) => r matches Err(Message::Error(s)) && s@ == text,
        },
        forall|b: u64, u: u64| bot == Some(Some(b)) && user == Some(Some(u)) ==> (r is Ok <==> b == u),
{
    proof {
        lemma_same_channel_only();
    }
    match bot {
        None => Err(Message::Error(owned("Bot is not in a voice channel"))),
        Some(b) => match user {
            None => Err(Message::Error(owned("You have to be in a voice channel"))),
            Some(u) => {
                let same = match (u, b) {
                    (Some(x), Some(y)) => x == y,
                    _ => false,
                };
                if !same {
                    Err(Message::Error(owned("You are not in the same voice channel as bot")))
                } else {
                    Ok(())
                }
            },
        },
    }
}

/// When the bot and the author are both in voice channels, a voice command
/// is allowed exactly when the two channels are the same; otherwise the
/// answer is "You are not in the same voice channel as bot". Without the bot
/// in a call, or the author in a channel, it is refused.
pub proof fn lemma_same_channel_only()
    ensures
        forall|b: u64, u: u64| (#[trigger] voice_access_error(Some(Some(b)), Some(Some(u)))) is None <==> b == u,
        forall|b: u64, u: u64| b != u ==> #[trigger] voice_access_error(Some(Some(b)), Some(Some(u)))
            == Some("You are not in the same voice channel as bot"@),
        forall|u: Option<Option<u64>>| #[trigger] voice_access_error(None, u) is Some,
        forall|b: Option<Option<u64>>| #[trigger] voice_access_error(b, None) is Some,
{
}

/// Where the bot goes for a voice command.
#[derive(Clone, Copy, Debug, PartialEq, Eq)]
pub enum JoinDecision {
    /// The bot is in a call already and stays in it.
    UseExisting,
    /// The bot joins this channel.
    Join(u64),
}

/// Decides where the bot goes: the author (whose channel is `user`) must be
/// in a voice channel; a bot already in a call stays there, otherwise it
/// joins the author's channel.
pub fn join_decision(user: Option<Option<u64>>, bot_in_call: bool) -> (r: Result<JoinDecision, BotError>)
    requires
        user is Some && !bot_in_call ==> user->0 is Some,
    ensures
        user is None ==> r matches Err(BotError::NotInVoice),
        user is Some && bot_in_call ==> r matches Ok(JoinDecision::UseExisting),
        user is Some && !bot_in_call ==> r == Ok::<JoinDecision, BotError>(JoinDecision::Join(user->0->0)),
{
    match user {
        None => Err(BotError::NotInVoice),
        Some(channel) => if bot_in_call {
            Ok(JoinDecision::UseExisting)
        } else {
            match channel {
                Some(c) => Ok(JoinDecision::Join(c)),
                None => Err(BotError::NotInVoice),
            }
        },
    }
}

/// What the loop command does to the current track.
#[derive(Clone, Copy, Debug, PartialEq, Eq)]
pub enum LoopAction {
    /// Play it this many more times.
    LoopFor(usize),
    /// Stop looping it.
    DisableLoop,
    /// Loop it without end.
    EnableLoop,
}

/// What the loop command does, by the count given and the current looping.
pub open spec fn loop_action(repeat: Option<usize>, current: LoopState) -> LoopAction {
    match repeat {
        Some(n) => LoopAction::LoopFor(n),
        None => match current {
            LoopState::Infinite => LoopAction::DisableLoop,
            _ => LoopAction::EnableLoop,
        },
    }
}

/// The loop command with a count loops the track that many times; without
/// one it switches endless looping off when the track loops endlessly, and
/// on in every other state, whatever number of loops is left.
pub proof fn lemma_loop_toggle()
    ensures
        forall|n: usize, c: LoopState| #[trigger] loop_action(Some(n), c) == LoopAction::LoopFor(n),
        loop_action(None, LoopState::Infinite) == LoopAction::DisableLoop,
        forall|n: usize| #[trigger] loop_action(None, LoopState::Finite(n)) == LoopAction::EnableLoop,
        loop_message_text(LoopAction::DisableLoop) == "Disabled infinite loop"@,
        loop_message_text(LoopAction::EnableLoop) == "Enabled infinite loop"@,
{
}

/// The answer of the loop command.
pub open spec fn loop_message_text(action: LoopAction) -> Seq<char> {
    match action {
        LoopAction::LoopFor(n) => "Track looping set to "@ + decimal(n as nat),
        LoopAction::DisableLoop => "Disabled infinite loop"@,
        LoopAction::EnableLoop => "Enabled infinite loop"@,
    }
}

/// Decides the loop command: a given count sets it; without one, endless
/// looping is switched off when on and on when off. The message tells what
/// was done.
pub fn plan_loops(repeat: Option<usize>, current: &LoopState) -> (r: (LoopAction, Message))
    ensures
        r.0 == loop_action(repeat, *current),
        r.1 matches Message::Success(s) && s@ == loop_message_text(r.0),
        repeat is None && *current == LoopState::Infinite ==> r.0 == LoopAction::DisableLoop,
        repeat is None && *current != LoopState::Infinite ==> r.0 == LoopAction::EnableLoop,
{
    proof {
        lemma_loop_toggle();
    }
    match repeat {
        Some(n) => {
            let mut s = owned("Track looping set to ");
            let count = decimal_string(n as u64);
            s.append(count.as_str());
            (LoopAction::LoopFor(n), Message::Success(s))
        },
        None => match current {
            LoopState::Infinite => (LoopAction::DisableLoop, Message::Success(owned("Disabled infinite loop"))),
            _ => (LoopAction::EnableLoop, Message::Success(owned("Enabled infinite loop"))),
        },
    }
}

/// The answer when nothing is playing.
pub fn nothing_playing_message() -> (m: Message)
    ensures
        m matches Message::Other(s) && s@ == "I'm not playing anything right now"@,
{
    Message::Other(owned("I'm not playing anything right now"))
}

/// The answer after a track was moved.
pub fn move_message(name: &str, from: usize, to: usize) -> (m: Message)
    ensures
        m matches Message::Success(s) && s@ == "Track *"@ + name@ + "* has been successfully moved\n"@
            + decimal(from as nat) + ". -> "@ + decimal(to as nat) + "."@,
{
    let mut s = owned("Track *");
    s.append(name);
    s.append("* has been successfully moved\n");
    let a = decimal_string(from as u64);
    s.append(a.as_str());
    s.append(". -> ");
    let b = decimal_string(to as u64);
    s.append(b.as_str());
    s.append(".");
    Message::Success(s)
}

/// The answer after tracks were removed: for a given range the numbers of
/// the first and last removed position, otherwise the removed track's name.
pub fn removal_message(index: usize, range: Option<usize>, name: &str) -> (m: Message)
    requires
        range matches Some(n) ==> n >= 1 && index + n <= usize::MAX,
    ensures
        match range {
            Some(n) => m matches Message::Success(s) && s@ == "Removed multiple tracks "@ + decimal(index as nat)
                + " - "@ + decimal((index + n - 1) as nat) + " from queue"@,
            None => m matches Message::Success(s) && s@ == "Removed track *"@ + name@ + "* on index "@
                + decimal(index as nat) + " from queue"@,
        },
{
    match range {
        Some(n) => {
            let mut s = owned("Removed multiple tracks ");
            let a = decimal_string(index as u64);
            s.append(a.as_str());
            s.append(" - ");
            let b = decimal_string((index + n - 1) as u64);
            s.append(b.as_str());
            s.append(" from queue");
            Message::Success(s)
        },
        None => {
            let mut s = owned("Removed track *");
            s.append(name);
            s.append("* on index ");
            let a = decimal_string(index as u64);
            s.append(a.as_str());
            s.append(" from queue");
            Message::Success(s)
        },
    }
}

/// One entry of the page menu: the label shown and the value sent back.
#[derive(Clone, Debug)]
pub struct MenuOption {
    pub label: String,
    pub value: String,
}

/// The menu entries for `pages` pages: "Page 1" with value "0", and so on.
pub fn create_menu_options(pages: usize) -> (r: Vec<MenuOption>)
    ensures
        r@.len() == pages,
        forall|i: int| 0 <= i < pages ==> {
            &&& (#[trigger] r@[i]).label@ == "Page "@ + decimal((i + 1) as nat)
            &&& r@[i].value@ == decimal(i as nat)
        },
{
    let mut options: Vec<MenuOption> = Vec::new();
    let mut i: usize = 0;
    while i < pages
        invariant
            i <= pages,
            options@.len() == i,
            forall|j: int| 0 <= j < i ==> {
                &&& (#[trigger] options@[j]).label@ == "Page "@ + decimal((j + 1) as nat)
                &&& options@[j].value@ == decimal(j as nat)
            },
        decreases pages - i,
    {
        let mut label = owned("Page ");
        let n = decimal_string((i + 1) as u64);
        label.append(n.as_str());
        let value = decimal_string(i as u64);
        options.push(MenuOption { label, value });
        i = i + 1;
    }
    options
}

/// Entries shown on one page of the queue list.
pub const PAGE_ITEMS_COUNT: usize = 10;

/// The number of pages of the queue list, when a page menu is needed: a
/// queue of `queue_len` tracks (the first playing) has its waiting tracks
/// shown ten to a page, and only more than one page needs a menu.
pub fn queue_menu_pages(queue_len: usize) -> (r: Option<usize>)
    requires
        queue_len >= 1,
    ensures
        ({
            let pages = total_pages((queue_len - 1) as nat, PAGE_ITEMS_COUNT as nat);
            &&& pages <= 1 ==> r is None
            &&& pages > 1 ==> r == Some(pages as usize)
        }),
{
    let pages = get_total_pages(queue_len - 1, PAGE_ITEMS_COUNT);
    if pages <= 1 { None } else { Some(pages) }
}

/// A decimal digit.
pub open spec fn is_digit(c: char) -> bool {
    '0' <= c && c <= '9'
}

/// The number that a string of decimal digits writes.
pub open spec fn digits_value(s: Seq<char>) -> int
    decreases s.len(),
{
    if s.len() == 0 {
        0
    } else {
        10 * digits_value(s.drop_last()) + (s.last() as int - '0' as int)
    }
}

/// The digits of a number written with an optional leading `+`.
pub open spec fn unsigned_digits(s: Seq<char>) -> Seq<char> {
    if s.len() > 0 && s[0] == '+' { s.drop_first() } else { s }
}

/// The page number a menu value reads as: one or more decimal digits,
/// optionally after a `+`, whose value fits a `usize`; `None` otherwise.
pub open spec fn page_number_spec(s: Seq<char>) -> Option<int> {
    let d = unsigned_digits(s);
    if d.len() > 0 && (forall|i: int| 0 <= i < d.len() ==> #[trigger] is_digit(d[i])) && digits_value(d) <= usize::MAX {
        Some(digits_value(d))
    } else {
        None
    }
}

/// Digits write a number no smaller than zero.
proof fn lemma_digits_nonneg(s: Seq<char>)
    requires
        forall|i: int| 0 <= i < s.len() ==> #[trigger] is_digit(s[i]),
    ensures
        digits_value(s) >= 0,
    decreases s.len(),
{
    if s.len() > 0 {
        assert forall|i: int| 0 <= i < s.drop_last().len() implies #[trigger] is_digit(s.drop_last()[i]) by {
            assert(is_digit(s[i]));
        }
        lemma_digits_nonneg(s.drop_last());
        assert(is_digit(s[s.len() - 1]));
    }
}

/// Reads a menu value as a page number, as `str::parse::<usize>` reads it:
/// decimal digits, optionally after a `+`, that fit a `usize`.
pub fn page_number(s: &str) -> (r: Option<usize>)
    ensures
        match page_number_spec(s@) {
            Some(n) => r == Some(n as usize),
            None => r is None,
        },
{
    let chars = chars_of(s);
    let mut start: usize = 0;
    if chars.len() > 0 && chars[0] == '+' {
        start = 1;
    }
    let ghost d = unsigned_digits(s@);
    if start >= chars.len() {
        assert(d.len() == 0);
        return None;
    }
    assert(d =~= chars@.subrange(start as int, chars@.len() as int));
    let mut value: usize = 0;
    let mut too_big = false;
    let mut i: usize = start;
    while i < chars.len()
        invariant
            start <= i <= chars@.len(),
            chars@ == s@,
            d == unsigned_digits(s@),
            d == chars@.subrange(start as int, chars@.len() as int),
            forall|j: int| start <= j < i ==> #[trigger] is_digit(chars@[j]),
            too_big ==> digits_value(chars@.subrange(start as int, i as int)) > usize::MAX,
            !too_big ==> value == digits_value(chars@.subrange(start as int, i as int)),
        decreases chars@.len() - i,
    {
        let c = chars[i];
        if !('0' <= c && c <= '9') {
            assert(!is_digit(d[i - start]));
            return None;
        }
        let ghost prefix = chars@.subrange(start as int, i + 1);
        assert(prefix.drop_last() =~= chars@.subrange(start as int, i as int));
        proof {
            assert forall|j: int| 0 <= j < prefix.drop_last().len() implies #[trigger] is_digit(prefix.drop_last()[j]) by {
                assert(is_digit(chars@[start + j]));
            }
            lemma_digits_nonneg(prefix.drop_last());
        }
        let digit = (c as u32 - '0' as u32) as usize;
        if !too_big {
            match value.checked_mul(10) {
                Some(v) => match v.checked_add(digit) {
                    Some(w) => {
                        value = w;
                    },
                    None => {
                        too_big = true;
                    },
                },
                None => {
                    too_big = true;
                },
            }
        }
        i = i + 1;
    }
    assert(chars@.subrange(start as int, i as int) =~= d);
    assert forall|j: int| 0 <= j < d.len() implies #[trigger] is_digit(d[j]) by {
        assert(is_digit(chars@[start + j]));
    }
    if too_big {
        None
    } else {
        Some(value)
    }
}

/// The page of the queue list shown after a press on its message: a choice
/// in the page menu (`press_id` is the menu's id, `values` what was chosen)
/// shows the page its first value names; any other press keeps `current`.
pub fn select_queue_page(current: usize, menu_id: &str, press_id: &str, values: Option<Vec<String>>) -> (r: usize)
    requires
        press_id@ == menu_id@ ==> match values {
            Some(v) => v@.len() > 0 && page_number_spec(v@[0]@) is Some,
            None => true,
        },
    ensures
        r == if press_id@ == menu_id@ && values is Some {
            page_number_spec(values->0@[0]@)->0 as usize
        } else {
            current
        },
{
    let pressed = owned(press_id);
    let menu = owned(menu_id);
    if pressed == menu {
        match values {
            Some(v) => match page_number(v[0].as_str()) {
                Some(n) => n,
                None => current,
            },
            None => current,
        }
    } else {
        current
    }
}

/// The command that help is asked for: under a command other than `help`,
/// help for that command (followed by the words given, if any).
pub fn help_command(invoked: &str, command: Option<String>) -> (r: Option<String>)
    ensures
        invoked@ == "help"@ ==> r == command,
        invoked@ != "help"@ ==> match command {
            Some(c) => r matches Some(s) && s@ == invoked@ + " "@ + c@,
            None => r matches Some(s) && s@ == invoked@,
        },
{
    let name = owned(invoked);
    let help = owned("help");
    if name == help {
        return command;
    }
    match command {
        Some(c) => {
            let mut s = name;
            s.append(" ");
            s.append(c.as_str());
            Some(s)
        },
        None => Some(name),
    }
}

/// The note under the help text, for the command prefix in use.
pub fn help_footer(prefix: &str) -> (r: String)
    ensures
        r@ == "Type `"@ + prefix@ + "help command` for more info on a command.\n    You can edit your `"@
            + prefix@ + "help` message to the bot and the bot will edit its response."@,
{
    let mut s = owned("Type `");
    s.append(prefix);
    s.append("help command` for more info on a command.\n    You can edit your `");
    s.append(prefix);
    s.append("help` message to the bot and the bot will edit its response.");
    s
}

/// The answer that names the biggest yapper.
pub fn yapper_message(name: &str) -> (m: Message)
    ensures
        m matches Message::Other(s) && s@ == name@ + " is the biggest yapper of em all"@,
{
    let mut s = owned(name);
    s.append(" is the biggest yapper of em all");
    Message::Other(s)
}

} // verus!
