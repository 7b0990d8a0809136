//! The bot's own values: what a poll gives, what a message asks for.
use vstd::prelude::*;
use crate::dto::{GetUpdResp, Message};

verus! {

/// What one long poll delivered.
pub enum UpdateData {
    Timeout,
    Data(Box<Vec<GetUpdResp>>),
}

/// The history button that was pressed.
#[derive(Debug, Clone, Copy, PartialEq, Eq, Structural)]
pub enum KeyboardButtons {
    Unknown,
    Prev,
    Next,
}

/// Whether the poll loop goes on.
pub enum PollingCommand {
    Continue(UpdateData),
    Stop,
}

/// What an update asks the bot to do.
pub enum MsgType {
    /// A text message to store.
    Msg(Message),
    /// The `/history` command.
    History(Message),
    /// A history button: the callback data and the chat id.
    PrevNext((String, i64)),
    Unknown,
}

/// One entry of a chat's message stream.
#[derive(Debug, Clone)]
pub struct MsgObj {
    pub id: String,
    pub text: String,
}

/// What the history message shows.
pub struct HistMsgData {
    pub payload: String,
    pub msg_id: Option<String>,
    pub chat_id: i64,
}

} // verus!
