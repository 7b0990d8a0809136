//! What the bot does with one update, as a state machine: each step takes the
//! reply to the previous request and gives the next request to make.
use vstd::prelude::*;
use crate::dto::{BodyView, GetUpdResp, HistMsgWithInlKeyboard, Message};
use crate::error::BotError;
use crate::history::{
    edited_history_message, hist_msg_data, history_message, nav_buttons, next_data, no_messages_text,
    prev_data,
};
use crate::keys::{hist_key, last_hist_key, last_msg_key, lemma_chat_keys_unique, msgs_key};
use crate::parser::{
    entry_of, lemma_button_press_keeps_its_chat, lemma_text_messages_are_kept, parse_msg_req,
    stream_entries, update_kind, Entry, RespValue,
};
use crate::prev_next::{button_of, find_sep, lemma_callback_round_trip, parse_cmd_msg_id, split_callback};
use crate::store::{
    add_message_command, get_hist_cursor_command, get_hist_msg_id_command, last_entry_command,
    neighbour_command, neighbour_entry_command, set_hist_cursor_command, set_hist_msg_id_command,
    set_last_msg_command, RedisCommand,
};
use crate::text::decimal;
use crate::types::{MsgObj, MsgType};

verus! {

/// The HTTP status of a successful Bot API call.
pub const STATUS_OK: u16 = 200;

/// Where the handling of one update stands.
pub enum HandlerState {
    /// A text message is being appended to the chat's stream.
    SavingEntry { chat_id: i64, message_id: i64 },
    /// The history cursor is being moved to the new entry.
    SavingCursor { chat_id: i64, message_id: i64 },
    /// The id of the saved Telegram message is being stored.
    SavingLastMsg,
    /// `/history`: the history cursor is being read.
    ReadingCursor { chat_id: i64 },
    /// `/history`: the entry at the cursor is being read.
    ReadingLastEntry { chat_id: i64 },
    /// `/history`: the cursor is being set to the entry that will be shown.
    MovingCursor { chat_id: i64, entry: MsgObj },
    /// `/history`: the history message is being posted.
    SendingHistory { chat_id: i64 },
    /// `/history`: the reply of the post is being read.
    ReadingSentId { chat_id: i64 },
    /// `/history`: the id of the previous history message is being read.
    ReadingOldHistId { chat_id: i64, new_id: i64 },
    /// `/history`: the id of the new history message is being stored.
    StoringHistId { chat_id: i64, old_id: Option<i64> },
    /// `/history`: the previous history message is being deleted.
    DeletingOldHist,
    /// Button: the neighbouring entry is being read.
    ReadingNeighbour { chat_id: i64 },
    /// Button: the id of the chat's history message is being read.
    ReadingHistId { chat_id: i64, target: MsgObj },
    /// Button: the history message is being edited.
    EditingHistory,
    /// Nothing is left to do.
    Finished,
}

/// A request that the caller performs for the handler.
pub enum Action {
    /// Run a Redis command and report `Event::Done`.
    Store(RedisCommand),
    /// Run `XADD` and report the id of the new entry.
    AddEntry(RedisCommand),
    /// Run a Redis command and report its reply as an optional string.
    ReadText(RedisCommand),
    /// Run a Redis command and report its reply as an optional integer.
    ReadInt(RedisCommand),
    /// Run a stream range query and report its raw reply.
    ReadRange(RedisCommand),
    /// Post the history message (`sendMessage`) and report the HTTP status.
    SendMessage(HistMsgWithInlKeyboard),
    /// Read the `message_id` of the message that the last post created.
    ReadSentMessage,
    /// Edit the history message (`editMessageText`) and report the HTTP status.
    EditMessage(HistMsgWithInlKeyboard),
    /// Delete a message (`deleteMessage`) and report `Event::Done`.
    DeleteMessage { chat_id: i64, message_id: i64 },
    /// Handling is over, with this outcome.
    Finish(Result<(), BotError>),
}

/// The reply to an action.
pub enum Event {
    Done,
    EntryId(String),
    Text(Option<String>),
    Int(Option<i64>),
    Range(Option<RespValue>),
    Status(u16),
    SentId(i64),
}

/// Kinds of replies.
#[derive(PartialEq, Eq, Structural)]
pub enum ReplyKind {
    Done,
    EntryId,
    Text,
    Int,
    Range,
    Status,
    SentId,
}

pub open spec fn event_kind(e: Event) -> ReplyKind {
    match e {
        Event::Done => ReplyKind::Done,
        Event::EntryId(_) => ReplyKind::EntryId,
        Event::Text(_) => ReplyKind::Text,
        Event::Int(_) => ReplyKind::Int,
        Event::Range(_) => ReplyKind::Range,
        Event::Status(_) => ReplyKind::Status,
        Event::SentId(_) => ReplyKind::SentId,
    }
}

/// The kind of reply that an action produces (none for `Finish`).
pub open spec fn action_reply(a: Action) -> Option<ReplyKind> {
    match a {
        Action::Store(_) => Some(ReplyKind::Done),
        Action::AddEntry(_) => Some(ReplyKind::EntryId),
        Action::ReadText(_) => Some(ReplyKind::Text),
        Action::ReadInt(_) => Some(ReplyKind::Int),
        Action::ReadRange(_) => Some(ReplyKind::Range),
        Action::SendMessage(_) => Some(ReplyKind::Status),
        Action::ReadSentMessage => Some(ReplyKind::SentId),
        Action::EditMessage(_) => Some(ReplyKind::Status),
        Action::DeleteMessage { .. } => Some(ReplyKind::Done),
        Action::Finish(_) => None,
    }
}

/// The kind of reply that a state waits for (none once finished).
pub open spec fn awaited(s: HandlerState) -> Option<ReplyKind> {
    match s {
        HandlerState::SavingEntry { .. } => Some(ReplyKind::EntryId),
        HandlerState::SavingCursor { .. } => Some(ReplyKind::Done),
        HandlerState::SavingLastMsg => Some(ReplyKind::Done),
        HandlerState::ReadingCursor { .. } => Some(ReplyKind::Text),
        HandlerState::ReadingLastEntry { .. } => Some(ReplyKind::Range),
        HandlerState::MovingCursor { .. } => Some(ReplyKind::Done),
        HandlerState::SendingHistory { .. } => Some(ReplyKind::Status),
        HandlerState::ReadingSentId { .. } => Some(ReplyKind::SentId),
        HandlerState::ReadingOldHistId { .. } => Some(ReplyKind::Int),
        HandlerState::StoringHistId { .. } => Some(ReplyKind::Done),
        HandlerState::DeletingOldHist => Some(ReplyKind::Done),
        HandlerState::ReadingNeighbour { .. } => Some(ReplyKind::Range),
        HandlerState::ReadingHistId { .. } => Some(ReplyKind::Text),
        HandlerState::EditingHistory => Some(ReplyKind::Status),
        HandlerState::Finished => None,
    }
}

/// An upper bound on the number of replies a state still needs.
pub open spec fn remaining_steps(s: HandlerState) -> nat {
    match s {
        HandlerState::SavingEntry { .. } => 3,
        HandlerState::SavingCursor { .. } => 2,
        HandlerState::SavingLastMsg => 1,
        HandlerState::ReadingCursor { .. } => 8,
        HandlerState::ReadingLastEntry { .. } => 7,
        HandlerState::MovingCursor { .. } => 6,
        HandlerState::SendingHistory { .. } => 5,
        HandlerState::ReadingSentId { .. } => 4,
        HandlerState::ReadingOldHistId { .. } => 3,
        HandlerState::StoringHistId { .. } => 2,
        HandlerState::DeletingOldHist => 1,
        HandlerState::ReadingNeighbour { .. } => 3,
        HandlerState::ReadingHistId { .. } => 2,
        HandlerState::EditingHistory => 1,
        HandlerState::Finished => 0,
    }
}

/// The history message that shows `entry`, or the notice when there is none.
pub open spec fn history_body(entry: Option<Entry>, chat_id: int) -> BodyView {
    match entry {
        Some(e) => BodyView { text: e.1, chat_id, message_id: None, buttons: nav_buttons(e.0) },
        None => BodyView {
            text: no_messages_text(),
            chat_id,
            message_id: None,
            buttons: Seq::empty(),
        },
    }
}

pub open spec fn finishes(t: HandlerState, a: Action, outcome: Result<(), BotError>) -> bool {
    t is Finished && a == Action::Finish(outcome)
}

pub open spec fn stores(a: Action, name: Seq<char>, args: Seq<Seq<char>>) -> bool {
    match a {
        Action::Store(c) => c@ == (name, args),
        _ => false,
    }
}

pub open spec fn adds_entry(a: Action, args: Seq<Seq<char>>) -> bool {
    match a {
        Action::AddEntry(c) => c@ == ("XADD"@, args),
        _ => false,
    }
}

pub open spec fn reads_text(a: Action, args: Seq<Seq<char>>) -> bool {
    match a {
        Action::ReadText(c) => c@ == ("GET"@, args),
        _ => false,
    }
}

pub open spec fn reads_int(a: Action, args: Seq<Seq<char>>) -> bool {
    match a {
        Action::ReadInt(c) => c@ == ("GET"@, args),
        _ => false,
    }
}

pub open spec fn reads_range(a: Action, v: (Seq<char>, Seq<Seq<char>>)) -> bool {
    match a {
        Action::ReadRange(c) => c@ == v,
        _ => false,
    }
}

pub open spec fn sends(a: Action, body: BodyView) -> bool {
    match a {
        Action::SendMessage(b) => b@ == body,
        _ => false,
    }
}

pub open spec fn edits(a: Action, body: BodyView) -> bool {
    match a {
        Action::EditMessage(b) => b@ == body,
        _ => false,
    }
}

/// What handling an update starts with.
pub open spec fn start_step(mt: MsgType, t: HandlerState, a: Action) -> bool {
    match mt {
        MsgType::Msg(m) => t == (HandlerState::SavingEntry { chat_id: m.chat.id, message_id: m.message_id })
            && adds_entry(a, seq![msgs_key(m.chat.id as int), "*"@, "text"@, m.text->0@]),
        MsgType::History(m) => t == (HandlerState::ReadingCursor { chat_id: m.chat.id })
            && reads_text(a, seq![hist_key(m.chat.id as int)]),
        MsgType::PrevNext((data, chat_id)) => match split_callback(data@) {
            None => finishes(t, a, Err(BotError::InlineDataId)),
            Some((cmd, id)) => match neighbour_command(button_of(cmd), id, chat_id as int) {
                Err(e) => finishes(t, a, Err(e)),
                Ok(v) => t == (HandlerState::ReadingNeighbour { chat_id }) && reads_range(a, v),
            },
        },
        MsgType::Unknown => finishes(t, a, Ok(())),
    }
}

/// One step of handling: the state `s` gets reply `e` and moves to `t`,
/// asking for `a`.
pub open spec fn handler_step(s: HandlerState, e: Event, t: HandlerState, a: Action) -> bool {
    match (s, e) {
        (HandlerState::SavingEntry { chat_id, message_id }, Event::EntryId(id)) =>
            t == (HandlerState::SavingCursor { chat_id, message_id })
            && stores(a, "SET"@, seq![hist_key(chat_id as int), id@]),
        (HandlerState::SavingCursor { chat_id, message_id }, Event::Done) =>
            t == HandlerState::SavingLastMsg
            && stores(a, "SET"@, seq![last_msg_key(chat_id as int), decimal(message_id as int)]),
        (HandlerState::SavingLastMsg, Event::Done) => finishes(t, a, Ok(())),
        (HandlerState::ReadingCursor { chat_id }, Event::Text(cursor)) =>
            t == (HandlerState::ReadingLastEntry { chat_id }) && reads_range(a, ("XREVRANGE"@, seq![
                msgs_key(chat_id as int),
                match cursor { Some(d) => d@, None => "+"@ },
                "-"@,
                "COUNT"@,
                "1"@,
            ])),
        (HandlerState::ReadingLastEntry { chat_id }, Event::Range(reply)) => match reply {
            None => t == (HandlerState::SendingHistory { chat_id })
                && sends(a, history_body(None, chat_id as int)),
            Some(v) => match stream_entries(v) {
                Err(err) => finishes(t, a, Err(err)),
                Ok(es) => if es.len() == 0 {
                    t == (HandlerState::SendingHistory { chat_id })
                        && sends(a, history_body(None, chat_id as int))
                } else {
                    &&& t matches HandlerState::MovingCursor { .. }
                    &&& t->MovingCursor_chat_id == chat_id
                    &&& entry_of(t->MovingCursor_entry) == es[0]
                    &&& stores(a, "SET"@, seq![hist_key(chat_id as int), es[0].0])
                },
            },
        },
        (HandlerState::MovingCursor { chat_id, entry }, Event::Done) =>
            t == (HandlerState::SendingHistory { chat_id })
            && sends(a, history_body(Some(entry_of(entry)), chat_id as int)),
        (HandlerState::SendingHistory { chat_id }, Event::Status(status)) => if status == STATUS_OK {
            t == (HandlerState::ReadingSentId { chat_id }) && a is ReadSentMessage
        } else {
            finishes(t, a, Err(BotError::HistMsgShow))
        },
        (HandlerState::ReadingSentId { chat_id }, Event::SentId(new_id)) =>
            t == (HandlerState::ReadingOldHistId { chat_id, new_id })
            && reads_int(a, seq![last_hist_key(chat_id as int)]),
        (HandlerState::ReadingOldHistId { chat_id, new_id }, Event::Int(old_id)) =>
            t == (HandlerState::StoringHistId { chat_id, old_id })
            && stores(a, "SET"@, seq![last_hist_key(chat_id as int), decimal(new_id as int)]),
        (HandlerState::StoringHistId { chat_id, old_id }, Event::Done) => match old_id {
            Some(old) => t == HandlerState::DeletingOldHist
                && a == (Action::DeleteMessage { chat_id, message_id: old }),
            None => finishes(t, a, Ok(())),
        },
        (HandlerState::DeletingOldHist, Event::Done) => finishes(t, a, Ok(())),
        (HandlerState::ReadingNeighbour { chat_id }, Event::Range(reply)) => match reply {
            None => finishes(t, a, Ok(())),
            Some(v) => match stream_entries(v) {
                Err(err) => finishes(t, a, Err(err)),
                Ok(es) => if es.len() == 0 {
                    finishes(t, a, Ok(()))
                } else {
                    &&& t matches HandlerState::ReadingHistId { .. }
                    &&& t->ReadingHistId_chat_id == chat_id
                    &&& entry_of(t->ReadingHistId_target) == es[0]
                    &&& reads_text(a, seq![last_hist_key(chat_id as int)])
                },
            },
        },
        (HandlerState::ReadingHistId { chat_id, target }, Event::Text(hist_id)) => match hist_id {
            None => finishes(t, a, Err(BotError::NoHistMsg)),
            Some(h) => t == HandlerState::EditingHistory && edits(a, BodyView {
                text: target.text@,
                chat_id: chat_id as int,
                message_id: Some(h@),
                buttons: nav_buttons(target.id@),
            }),
        },
        (HandlerState::EditingHistory, Event::Status(status)) => if status != STATUS_OK {
            finishes(t, a, Err(BotError::UpdateMessage))
        } else {
            finishes(t, a, Ok(()))
        },
        _ => false,
    }
}

/// Whether the handler can take reply `e` in state `s`.
pub fn accepts(s: &HandlerState, e: &Event) -> (r: bool)
    ensures
        r == (awaited(*s) == Some(event_kind(*e))),
{
    let kind = match e {
        Event::Done => ReplyKind::Done,
        Event::EntryId(_) => ReplyKind::EntryId,
        Event::Text(_) => ReplyKind::Text,
        Event::Int(_) => ReplyKind::Int,
        Event::Range(_) => ReplyKind::Range,
        Event::Status(_) => ReplyKind::Status,
        Event::SentId(_) => ReplyKind::SentId,
    };
    let want = match s {
        HandlerState::SavingEntry { .. } => ReplyKind::EntryId,
        HandlerState::SavingCursor { .. } => ReplyKind::Done,
        HandlerState::SavingLastMsg => ReplyKind::Done,
        HandlerState::ReadingCursor { .. } => ReplyKind::Text,
        HandlerState::ReadingLastEntry { .. } => ReplyKind::Range,
        HandlerState::MovingCursor { .. } => ReplyKind::Done,
        HandlerState::SendingHistory { .. } => ReplyKind::Status,
        HandlerState::ReadingSentId { .. } => ReplyKind::SentId,
        HandlerState::ReadingOldHistId { .. } => ReplyKind::Int,
        HandlerState::StoringHistId { .. } => ReplyKind::Done,
        HandlerState::DeletingOldHist => ReplyKind::Done,
        HandlerState::ReadingNeighbour { .. } => ReplyKind::Range,
        HandlerState::ReadingHistId { .. } => ReplyKind::Text,
        HandlerState::EditingHistory => ReplyKind::Status,
        HandlerState::Finished => return false,
    };
    kind == want
}

fn finish(outcome: Result<(), BotError>) -> (r: (HandlerState, Action))
    ensures
        finishes(r.0, r.1, outcome),
{
    (HandlerState::Finished, Action::Finish(outcome))
}

/// Starts handling an update. A text message is appended to the chat's
/// stream, `/history` reads the history cursor, a button reads the entry it
/// leads to, and anything else is done at once.
pub fn start(mt: MsgType) -> (r: (HandlerState, Action))
    requires
        mt matches MsgType::Msg(m) ==> m.text is Some,
    ensures
        start_step(mt, r.0, r.1),
        action_reply(r.1) == awaited(r.0),
        remaining_steps(r.0) <= 8,
{
    match mt {
        MsgType::Msg(m) => {
            let chat_id = m.chat.id;
            let text = m.text.unwrap();
            let c = add_message_command(chat_id, text);
            (HandlerState::SavingEntry { chat_id, message_id: m.message_id }, Action::AddEntry(c))
        },
        MsgType::History(m) => {
            let chat_id = m.chat.id;
            (HandlerState::ReadingCursor { chat_id }, Action::ReadText(get_hist_cursor_command(chat_id)))
        },
        MsgType::PrevNext((data, chat_id)) => {
            match parse_cmd_msg_id(data.as_str()) {
                Err(e) => finish(Err(e)),
                Ok((cmd, msg_id)) => match neighbour_entry_command(cmd, msg_id, chat_id) {
                    Err(e) => finish(Err(e)),
                    Ok(c) => (HandlerState::ReadingNeighbour { chat_id }, Action::ReadRange(c)),
                },
            }
        },
        MsgType::Unknown => finish(Ok(())),
    }
}

/// Advances the handling of an update by one reply.
pub fn step(s: HandlerState, e: Event) -> (r: (HandlerState, Action))
    requires
        awaited(s) == Some(event_kind(e)),
    ensures
        handler_step(s, e, r.0, r.1),
        action_reply(r.1) == awaited(r.0),
        remaining_steps(r.0) < remaining_steps(s),
{
    match s {
        HandlerState::SavingEntry { chat_id, message_id } => match e {
            Event::EntryId(id) => (
                HandlerState::SavingCursor { chat_id, message_id },
                Action::Store(set_hist_cursor_command(chat_id, id)),
            ),
            _ => finish(Ok(())),
        },
        HandlerState::SavingCursor { chat_id, message_id } => (
            HandlerState::SavingLastMsg,
            Action::Store(set_last_msg_command(chat_id, message_id)),
        ),
        HandlerState::SavingLastMsg => finish(Ok(())),
        HandlerState::ReadingCursor { chat_id } => match e {
            Event::Text(cursor) => (
                HandlerState::ReadingLastEntry { chat_id },
                Action::ReadRange(last_entry_command(cursor, chat_id)),
            ),
            _ => finish(Ok(())),
        },
        HandlerState::ReadingLastEntry { chat_id } => match e {
            Event::Range(None) => (
                HandlerState::SendingHistory { chat_id },
                Action::SendMessage(history_message(hist_msg_data(None, chat_id))),
            ),
            Event::Range(Some(v)) => match parse_msg_req(v) {
                Err(err) => finish(Err(err)),
                Ok(mut parsed) => {
                    if parsed.len() == 0 {
                        (
                            HandlerState::SendingHistory { chat_id },
                            Action::SendMessage(history_message(hist_msg_data(None, chat_id))),
                        )
                    } else {
                        let first = parsed.swap_remove(0);
                        let c = set_hist_cursor_command(chat_id, first.id.clone());
                        (HandlerState::MovingCursor { chat_id, entry: first }, Action::Store(c))
                    }
                },
            },
            _ => finish(Ok(())),
        },
        HandlerState::MovingCursor { chat_id, entry } => (
            HandlerState::SendingHistory { chat_id },
            Action::SendMessage(history_message(hist_msg_data(Some(entry), chat_id))),
        ),
        HandlerState::SendingHistory { chat_id } => match e {
            Event::Status(status) => if status == STATUS_OK {
                (HandlerState::ReadingSentId { chat_id }, Action::ReadSentMessage)
            } else {
                finish(Err(BotError::HistMsgShow))
            },
            _ => finish(Ok(())),
        },
        HandlerState::ReadingSentId { chat_id } => match e {
            Event::SentId(new_id) => (
                HandlerState::ReadingOldHistId { chat_id, new_id },
                Action::ReadInt(get_hist_msg_id_command(chat_id)),
            ),
            _ => finish(Ok(())),
        },
        HandlerState::ReadingOldHistId { chat_id, new_id } => match e {
            Event::Int(old_id) => (
                HandlerState::StoringHistId { chat_id, old_id },
                Action::Store(set_hist_msg_id_command(chat_id, new_id)),
            ),
            _ => finish(Ok(())),
        },
        HandlerState::StoringHistId { chat_id, old_id } => match old_id {
            Some(old) => (HandlerState::DeletingOldHist, Action::DeleteMessage { chat_id, message_id: old }),
            None => finish(Ok(())),
        },
        HandlerState::DeletingOldHist => finish(Ok(())),
        HandlerState::ReadingNeighbour { chat_id } => match e {
            Event::Range(None) => finish(Ok(())),
            Event::Range(Some(v)) => match parse_msg_req(v) {
                Err(err) => finish(Err(err)),
                Ok(mut parsed) => {
                    if parsed.len() == 0 {
                        finish(Ok(()))
                    } else {
                        let first = parsed.swap_remove(0);
                        (
                            HandlerState::ReadingHistId { chat_id, target: first },
                            Action::ReadText(get_hist_msg_id_command(chat_id)),
                        )
                    }
                },
            },
            _ => finish(Ok(())),
        },
        HandlerState::ReadingHistId { chat_id, target } => match e {
            Event::Text(None) => finish(Err(BotError::NoHistMsg)),
            Event::Text(Some(h)) => (
                HandlerState::EditingHistory,
                Action::EditMessage(edited_history_message(target, h, chat_id)),
            ),
            _ => finish(Ok(())),
        },
        HandlerState::EditingHistory => match e {
            Event::Status(status) => if status != STATUS_OK {
                finish(Err(BotError::UpdateMessage))
            } else {
                finish(Ok(()))
            },
            _ => finish(Ok(())),
        },
        HandlerState::Finished => finish(Ok(())),
    }
}

} // verus!

verus! {

/// A press of a history button leads to the neighbouring entry of the one
/// the history message shows: the button made for entry `id` (see
/// `nav_buttons`) reads the entry just before it (`Prev`) or just after it
/// (`Next`) in the chat's stream, whenever `id` holds no `::` (stream ids
/// are digits and `-`).
pub proof fn lemma_buttons_lead_to_neighbours(
    id: Seq<char>,
    data: String,
    chat_id: i64,
    t: HandlerState,
    a: Action,
)
    requires
        find_sep(id, 0) is None,
        data@ == prev_data(id) || data@ == next_data(id),
        start_step(MsgType::PrevNext((data, chat_id)), t, a),
    ensures
        t == (HandlerState::ReadingNeighbour { chat_id }),
        data@ == prev_data(id) ==> reads_range(
            a,
            ("XREVRANGE"@, seq![msgs_key(chat_id as int), "("@ + id, "-"@, "count"@, "1"@]),
        ),
        data@ == next_data(id) ==> reads_range(
            a,
            ("XRANGE"@, seq![msgs_key(chat_id as int), "("@ + id, "+"@, "count"@, "1"@]),
        ),
{
    lemma_callback_round_trip(id);
}

} // verus!

verus! {

/// Storing a text message starts by appending exactly its text to the stream
/// of the chat it was sent in, and of no other chat, and the state keeps that
/// chat and the message's id.
pub proof fn lemma_message_goes_to_its_chat(m: Message, t: HandlerState, a: Action)
    requires
        m.text is Some,
        start_step(MsgType::Msg(m), t, a),
    ensures
        t == (HandlerState::SavingEntry { chat_id: m.chat.id, message_id: m.message_id }),
        match a {
            Action::AddEntry(c) => {
                &&& c.name@ == "XADD"@
                &&& c.args.deep_view() == seq![msgs_key(m.chat.id as int), "*"@, "text"@, m.text->0@]
                &&& forall|other: i64| other != m.chat.id ==> c.args.deep_view()[0] != msgs_key(other as int)
            },
            _ => false,
        },
{
    let c = a->AddEntry_0;
    assert forall|other: i64| other != m.chat.id implies c.args.deep_view()[0] != msgs_key(other as int) by {
        lemma_chat_keys_unique(m.chat.id, other);
    }
}

/// `/history` starts by reading the history cursor of the chat that asked,
/// and of no other chat, and the state keeps that chat.
pub proof fn lemma_history_reads_its_chat(m: Message, t: HandlerState, a: Action)
    requires
        start_step(MsgType::History(m), t, a),
    ensures
        t == (HandlerState::ReadingCursor { chat_id: m.chat.id }),
        match a {
            Action::ReadText(c) => {
                &&& c.name@ == "GET"@
                &&& c.args.deep_view() == seq![hist_key(m.chat.id as int)]
                &&& forall|other: i64| other != m.chat.id ==> c.args.deep_view()[0] != hist_key(other as int)
            },
            _ => false,
        },
{
    let c = a->ReadText_0;
    assert forall|other: i64| other != m.chat.id implies c.args.deep_view()[0] != hist_key(other as int) by {
        lemma_chat_keys_unique(m.chat.id, other);
    }
}

/// From update to first request: a text message other than `/history`, sent
/// in any chat, is appended to that chat's stream; `/history` reads that
/// chat's cursor.
pub proof fn lemma_update_reaches_its_chat(resp: GetUpdResp, t: HandlerState, a: Action)
    requires
        resp.callback_query is None,
        resp.message matches Some(m) && m.text is Some,
        start_step(update_kind(resp), t, a),
    ensures
        ({
            let m = resp.message->0;
            if m.text->0@ == "/history"@ {
                t == (HandlerState::ReadingCursor { chat_id: m.chat.id }) && match a {
                    Action::ReadText(c) => c.name@ == "GET"@ && c.args.deep_view() == seq![
                        hist_key(m.chat.id as int),
                    ],
                    _ => false,
                }
            } else {
                t == (HandlerState::SavingEntry { chat_id: m.chat.id, message_id: m.message_id })
                    && match a {
                    Action::AddEntry(c) => c.name@ == "XADD"@ && c.args.deep_view() == seq![
                        msgs_key(m.chat.id as int),
                        "*"@,
                        "text"@,
                        m.text->0@,
                    ],
                    _ => false,
                }
            }
        }),
{
    lemma_text_messages_are_kept(resp);
    let m = resp.message->0;
    if m.text->0@ == "/history"@ {
        lemma_history_reads_its_chat(m, t, a);
    } else {
        lemma_message_goes_to_its_chat(m, t, a);
    }
}

/// A press of a history button, in any chat, pages through the stream of the
/// chat whose message carries the button: `Prev` reads the entry before the
/// shown one, `Next` the entry after it.
pub proof fn lemma_button_pages_its_chat(resp: GetUpdResp, id: Seq<char>, t: HandlerState, a: Action)
    requires
        resp.callback_query is Some,
        find_sep(id, 0) is None,
        resp.callback_query->0.data@ == prev_data(id) || resp.callback_query->0.data@ == next_data(id),
        start_step(update_kind(resp), t, a),
    ensures
        ({
            let chat_id = resp.callback_query->0.message.chat.id;
            let data = resp.callback_query->0.data@;
            &&& t == (HandlerState::ReadingNeighbour { chat_id })
            &&& match a {
                Action::ReadRange(c) => {
                    &&& data == prev_data(id) ==> c.name@ == "XREVRANGE"@ && c.args.deep_view()
                        == seq![msgs_key(chat_id as int), "("@ + id, "-"@, "count"@, "1"@]
                    &&& data == next_data(id) ==> c.name@ == "XRANGE"@ && c.args.deep_view()
                        == seq![msgs_key(chat_id as int), "("@ + id, "+"@, "count"@, "1"@]
                },
                _ => false,
            }
        }),
{
    lemma_button_press_keeps_its_chat(resp);
    let cb = resp.callback_query->0;
    lemma_buttons_lead_to_neighbours(id, cb.data, cb.message.chat.id, t, a);
}

} // verus!
