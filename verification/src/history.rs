//! The history message: what it shows and how it is sent.
use vstd::prelude::*;
use crate::dto::{BodyView, HistMsgWithInlKeyboard, InlineKeyboard, InlineKeyboardButton};
use crate::types::{HistMsgData, MsgObj};

verus! {

/// Text of the history message of a chat without messages.
pub open spec fn no_messages_text() -> Seq<char> {
    "No messages yet"@
}

/// Callback data of the button that leads from entry `id` one step back.
pub open spec fn prev_data(id: Seq<char>) -> Seq<char> {
    "p::"@ + id
}

/// Callback data of the button that leads from entry `id` one step forward.
pub open spec fn next_data(id: Seq<char>) -> Seq<char> {
    "n::"@ + id
}

/// The two buttons under a history message that shows entry `id`.
pub open spec fn nav_buttons(id: Seq<char>) -> Seq<(Seq<char>, Seq<char>)> {
    seq![("Prev"@, prev_data(id)), ("Next"@, next_data(id))]
}

/// The URL of Bot API method `method`.
pub fn method_url(api_url: &str, token: &str, method: &str) -> (r: String)
    ensures
        r@ == api_url@ + "/bot"@ + token@ + "/"@ + method@,
{
    let mut r = String::from_str(api_url);
    r.append("/bot");
    r.append(token);
    r.append("/");
    r.append(method);
    r
}

/// What the history message shows: the stream entry found, or a notice
/// that the chat has no messages.
pub fn hist_msg_data(last_msg: Option<MsgObj>, chat_id: i64) -> (d: HistMsgData)
    ensures
        d.chat_id == chat_id,
        match last_msg {
            Some(m) => d.payload == m.text && d.msg_id == Some(m.id),
            None => d.payload@ == no_messages_text() && d.msg_id is None,
        },
{
    match last_msg {
        Some(m) => HistMsgData { payload: m.text, msg_id: Some(m.id), chat_id },
        None => HistMsgData { payload: String::from_str("No messages yet"), msg_id: None, chat_id },
    }
}

fn nav_button_row(id: &String) -> (r: Vec<InlineKeyboardButton>)
    ensures
        r@.map_values(|b: InlineKeyboardButton| crate::dto::button_view(b)) == nav_buttons(id@),
{
    let prev = InlineKeyboardButton {
        text: String::from_str("Prev"),
        callback_data: String::from_str("p::").concat(id.as_str()),
    };
    let next = InlineKeyboardButton {
        text: String::from_str("Next"),
        callback_data: String::from_str("n::").concat(id.as_str()),
    };
    let r = vec![prev, next];
    assert(r@.map_values(|b: InlineKeyboardButton| crate::dto::button_view(b)) =~= nav_buttons(id@));
    r
}

/// The body of the `sendMessage` call that posts a new history message:
/// the entry's text with buttons to its neighbours, or the notice without
/// buttons when there is no entry.
pub fn history_message(msg: HistMsgData) -> (r: HistMsgWithInlKeyboard)
    ensures
        r@ == (BodyView {
            text: match msg.msg_id {
                Some(_) => msg.payload@,
                None => no_messages_text(),
            },
            chat_id: msg.chat_id as int,
            message_id: None,
            buttons: match msg.msg_id {
                Some(id) => nav_buttons(id@),
                None => Seq::empty(),
            },
        }),
{
    let mut text = String::from_str("No messages yet");
    let mut kb_btns: Vec<InlineKeyboardButton> = Vec::new();
    if let Some(m_id) = &msg.msg_id {
        text = msg.payload;
        kb_btns = nav_button_row(m_id);
    }
    let r = HistMsgWithInlKeyboard {
        text,
        chat_id: msg.chat_id,
        message_id: None,
        reply_markup: InlineKeyboard { inline_keyboard: [kb_btns] },
    };
    assert(r@.buttons =~= match msg.msg_id {
        Some(id) => nav_buttons(id@),
        None => Seq::empty(),
    });
    r
}

/// The body of the `editMessageText` call that makes history message
/// `hist_msg_id` show entry `m`.
pub fn edited_history_message(m: MsgObj, hist_msg_id: String, chat_id: i64) -> (r: HistMsgWithInlKeyboard)
    ensures
        r@ == (BodyView {
            text: m.text@,
            chat_id: chat_id as int,
            message_id: Some(hist_msg_id@),
            buttons: nav_buttons(m.id@),
        }),
{
    let row = nav_button_row(&m.id);
    HistMsgWithInlKeyboard {
        text: m.text,
        chat_id,
        message_id: Some(hist_msg_id),
        reply_markup: InlineKeyboard { inline_keyboard: [row] },
    }
}

} // verus!
