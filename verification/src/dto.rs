//! The Telegram Bot API objects that the bot reads and writes.
use vstd::prelude::*;

verus! {

/// Reply of `getMe`.
#[derive(Debug, Clone)]
pub struct GetMeResp {
    pub is_bot: bool,
    pub id: i64,
    pub first_name: String,
}

/// Envelope of a Bot API reply with one result.
#[derive(Debug, Clone)]
pub struct TgRespWrapper<T> {
    pub ok: bool,
    pub result: T,
}

/// Envelope of a Bot API reply with a list of results.
#[derive(Debug, Clone)]
pub struct TgUpdRespWrapper<T> {
    pub ok: bool,
    pub result: Vec<T>,
}

/// Reply of `sendMessage`.
#[derive(Debug, Clone)]
pub struct TgSendMsgRespWrapper {
    pub ok: bool,
    pub result: Message,
}

#[derive(Debug, Clone)]
pub struct Chat {
    pub id: i64,
}

#[derive(Debug, Clone)]
pub struct Message {
    pub message_id: i64,
    pub text: Option<String>,
    pub chat: Chat,
    pub reply_markup: Option<InlineKbMarkup>,
}

/// Inline keyboard attached to a received message.
#[derive(Debug, Clone)]
pub struct InlineKbMarkup {
    inline_keyboard: Vec<Vec<InlineKeyboardButton>>,
}

impl InlineKbMarkup {
    pub fn new(inline_keyboard: Vec<Vec<InlineKeyboardButton>>) -> (r: Self)
        ensures
            r.rows() == inline_keyboard,
    {
        InlineKbMarkup { inline_keyboard }
    }

    pub closed spec fn rows(self) -> Vec<Vec<InlineKeyboardButton>> {
        self.inline_keyboard
    }

    pub fn into_rows(self) -> (r: Vec<Vec<InlineKeyboardButton>>)
        ensures
            r == self.rows(),
    {
        self.inline_keyboard
    }
}

/// One update of `getUpdates`.
#[derive(Debug, Clone)]
pub struct GetUpdResp {
    pub update_id: i64,
    pub message: Option<Message>,
    pub callback_query: Option<CbQuery>,
}

/// A press of an inline button.
#[derive(Debug, Clone)]
pub struct CbQuery {
    pub message: Message,
    pub data: String,
}

/// Body of `sendMessage` and `editMessageText` for the history message.
#[derive(Debug, Clone)]
pub struct HistMsgWithInlKeyboard {
    pub text: String,
    pub chat_id: i64,
    pub message_id: Option<String>,
    pub reply_markup: InlineKeyboard,
}

/// The history message as the model sees it: text, chat, the message it
/// replaces (when edited) and its buttons as (label, callback data) pairs.
pub struct BodyView {
    pub text: Seq<char>,
    pub chat_id: int,
    pub message_id: Option<Seq<char>>,
    pub buttons: Seq<(Seq<char>, Seq<char>)>,
}

pub open spec fn button_view(b: InlineKeyboardButton) -> (Seq<char>, Seq<char>) {
    (b.text@, b.callback_data@)
}

impl View for HistMsgWithInlKeyboard {
    type V = BodyView;

    open spec fn view(&self) -> BodyView {
        BodyView {
            text: self.text@,
            chat_id: self.chat_id as int,
            message_id: match self.message_id {
                Some(m) => Some(m@),
                None => None,
            },
            buttons: self.reply_markup.inline_keyboard@[0]@.map_values(
                |b: InlineKeyboardButton| button_view(b),
            ),
        }
    }
}

#[derive(Debug, Clone)]
pub struct InlineKeyboard {
    pub inline_keyboard: [Vec<InlineKeyboardButton>; 1],
}

#[derive(Debug, Clone)]
pub struct InlineKeyboardButton {
    pub text: String,
    pub callback_data: String,
}

} // verus!
