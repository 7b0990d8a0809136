//! The Redis commands through which the bot keeps a chat's history.
use vstd::prelude::*;
use crate::keys::{
    get_chat_msgs_p_name, get_chat_last_hist_msg_p_name, get_chat_last_msg_p_name,
    get_chat_last_hist_p_name, msgs_key, hist_key, last_msg_key, last_hist_key,
};
use crate::text::{append_decimal, decimal};
use crate::types::KeyboardButtons;
use crate::error::BotError;

verus! {

/// A Redis command: its name and its arguments.
#[derive(Debug)]
pub struct RedisCommand {
    pub name: String,
    pub args: Vec<String>,
}

/// A command as the model sees it.
pub type CommandView = (Seq<char>, Seq<Seq<char>>);

impl View for RedisCommand {
    type V = CommandView;

    open spec fn view(&self) -> CommandView {
        (self.name@, self.args.deep_view())
    }
}

fn lit(s: &str) -> (r: String)
    ensures
        r@ == s@,
{
    String::from_str(s)
}

/// The decimal text of an integer.
pub fn int_to_string(i: i64) -> (s: String)
    ensures
        s@ == decimal(i as int),
{
    let mut s = String::new();
    append_decimal(&mut s, i);
    assert(s@ == Seq::<char>::empty() + decimal(i as int));
    s
}

/// `XADD msgs::<chat> * text <text>`: appends a message to the chat's stream.
pub fn add_message_command(chat_id: i64, text: String) -> (c: RedisCommand)
    ensures
        c@ == ("XADD"@, seq![msgs_key(chat_id as int), "*"@, "text"@, text@]),
{
    let args = vec![get_chat_msgs_p_name(chat_id), lit("*"), lit("text"), text];
    let c = RedisCommand { name: lit("XADD"), args };
    assert(c.args.deep_view() =~= seq![msgs_key(chat_id as int), "*"@, "text"@, text@]);
    c
}

/// `SET hist::<chat> <entry id>`: the stream entry the history message shows.
pub fn set_hist_cursor_command(chat_id: i64, entry_id: String) -> (c: RedisCommand)
    ensures
        c@ == ("SET"@, seq![hist_key(chat_id as int), entry_id@]),
{
    let args = vec![get_chat_last_hist_msg_p_name(chat_id), entry_id];
    let c = RedisCommand { name: lit("SET"), args };
    assert(c.args.deep_view() =~= seq![hist_key(chat_id as int), entry_id@]);
    c
}

/// `GET hist::<chat>`.
pub fn get_hist_cursor_command(chat_id: i64) -> (c: RedisCommand)
    ensures
        c@ == ("GET"@, seq![hist_key(chat_id as int)]),
{
    let args = vec![get_chat_last_hist_msg_p_name(chat_id)];
    let c = RedisCommand { name: lit("GET"), args };
    assert(c.args.deep_view() =~= seq![hist_key(chat_id as int)]);
    c
}

/// `SET last_msg::<chat> <message id>`: the last Telegram message saved.
pub fn set_last_msg_command(chat_id: i64, message_id: i64) -> (c: RedisCommand)
    ensures
        c@ == ("SET"@, seq![last_msg_key(chat_id as int), decimal(message_id as int)]),
{
    let args = vec![get_chat_last_msg_p_name(chat_id), int_to_string(message_id)];
    let c = RedisCommand { name: lit("SET"), args };
    assert(c.args.deep_view() =~= seq![last_msg_key(chat_id as int), decimal(message_id as int)]);
    c
}

/// `GET last_hist_msg::<chat>`: the history message posted in the chat.
pub fn get_hist_msg_id_command(chat_id: i64) -> (c: RedisCommand)
    ensures
        c@ == ("GET"@, seq![last_hist_key(chat_id as int)]),
{
    let args = vec![get_chat_last_hist_p_name(chat_id)];
    let c = RedisCommand { name: lit("GET"), args };
    assert(c.args.deep_view() =~= seq![last_hist_key(chat_id as int)]);
    c
}

/// `SET last_hist_msg::<chat> <message id>`.
pub fn set_hist_msg_id_command(chat_id: i64, hist_msg_id: i64) -> (c: RedisCommand)
    ensures
        c@ == ("SET"@, seq![last_hist_key(chat_id as int), decimal(hist_msg_id as int)]),
{
    let args = vec![get_chat_last_hist_p_name(chat_id), int_to_string(hist_msg_id)];
    let c = RedisCommand { name: lit("SET"), args };
    assert(c.args.deep_view() =~= seq![last_hist_key(chat_id as int), decimal(hist_msg_id as int)]);
    c
}

/// The newest entry at or before `cursor` (the newest entry when there is
/// no cursor): `XREVRANGE msgs::<chat> <cursor or +> - COUNT 1`.
pub fn last_entry_command(cursor: Option<String>, chat_id: i64) -> (c: RedisCommand)
    ensures
        c@ == ("XREVRANGE"@, seq![
            msgs_key(chat_id as int),
            match cursor { Some(d) => d@, None => "+"@ },
            "-"@,
            "COUNT"@,
            "1"@,
        ]),
{
    let start = match cursor {
        Some(d) => d,
        None => lit("+"),
    };
    let args = vec![get_chat_msgs_p_name(chat_id), start, lit("-"), lit("COUNT"), lit("1")];
    let c = RedisCommand { name: lit("XREVRANGE"), args };
    assert(c.args.deep_view() =~= seq![
        msgs_key(chat_id as int),
        match cursor { Some(d) => d@, None => "+"@ },
        "-"@,
        "COUNT"@,
        "1"@,
    ]);
    c
}

/// What a history button reads: the entry just before (`Prev`) or just
/// after (`Next`) the shown one.
pub open spec fn neighbour_command(cmd: KeyboardButtons, msg_id: Seq<char>, chat_id: int) -> Result<
    CommandView,
    BotError,
> {
    match cmd {
        KeyboardButtons::Prev => Ok(("XREVRANGE"@, seq![msgs_key(chat_id), "("@ + msg_id, "-"@, "count"@, "1"@])),
        KeyboardButtons::Next => Ok(("XRANGE"@, seq![msgs_key(chat_id), "("@ + msg_id, "+"@, "count"@, "1"@])),
        KeyboardButtons::Unknown => Err(BotError::UnknownQueryDataPrefix),
    }
}

/// The command that reads the entry a history button leads to.
pub fn neighbour_entry_command(cmd: KeyboardButtons, msg_id: &str, chat_id: i64) -> (r: Result<
    RedisCommand,
    BotError,
>)
    ensures
        match neighbour_command(cmd, msg_id@, chat_id as int) {
            Ok(v) => r matches Ok(c) && c@ == v,
            Err(e) => r matches Err(e2) && e2 == e,
        },
{
    let (name, end) = match cmd {
        KeyboardButtons::Prev => (lit("XREVRANGE"), lit("-")),
        KeyboardButtons::Next => (lit("XRANGE"), lit("+")),
        KeyboardButtons::Unknown => return Err(BotError::UnknownQueryDataPrefix),
    };
    let exclusive = lit("(").concat(msg_id);
    let args = vec![get_chat_msgs_p_name(chat_id), exclusive, end, lit("count"), lit("1")];
    let c = RedisCommand { name, args };
    assert(c.args.deep_view() =~= neighbour_command(cmd, msg_id@, chat_id as int)->Ok_0.1);
    Ok(c)
}

} // verus!
