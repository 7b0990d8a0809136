//! Errors that the bot's own logic reports.
use vstd::prelude::*;
use crate::text::{append_unsigned, decimal};

verus! {

/// A failure decided by the bot's logic (transport failures are the caller's).
#[derive(Debug, Clone, Copy, PartialEq, Eq, Structural)]
pub enum BotError {
    /// Callback data without a `::` separator before the message id.
    InlineDataId,
    /// Callback data whose command is neither `p` nor `n`.
    UnknownQueryDataPrefix,
    /// A stream reply that does not have the shape of `XRANGE` output.
    Parse,
    /// A stream id or text that is not valid UTF-8: the bytes before
    /// `valid_up_to` are valid, and `error_len` is the length of the invalid
    /// sequence there (none when the input ends inside a character).
    InvalidUtf8 { valid_up_to: usize, error_len: Option<usize> },
    /// Telegram refused to show the history message.
    HistMsgShow,
    /// Telegram refused to update the history message.
    UpdateMessage,
    /// A history button was pressed in a chat without a history message.
    NoHistMsg,
}

impl BotError {
    /// The message the bot reports for this error.
    pub fn message(&self) -> (s: String)
        ensures
            s@ == error_message(*self),
    {
        let text = match self {
            BotError::InlineDataId => "Inline data id parse error",
            BotError::UnknownQueryDataPrefix => "Unknown query data prefix",
            BotError::Parse => "Parse err",
            BotError::InvalidUtf8 { valid_up_to, error_len } => {
                let mut s = match error_len {
                    Some(n) => {
                        let mut s = String::from_str("invalid utf-8 sequence of ");
                        append_unsigned(&mut s, *n as u64);
                        s.append(" bytes from index ");
                        s
                    },
                    None => String::from_str("incomplete utf-8 byte sequence from index "),
                };
                append_unsigned(&mut s, *valid_up_to as u64);
                return s;
            },
            BotError::HistMsgShow => "Hist msg show error",
            BotError::UpdateMessage => "Update message error",
            BotError::NoHistMsg => "Trying to press button without hist msg",
        };
        String::from_str(text)
    }
}

/// The message text of each error.
pub open spec fn error_message(e: BotError) -> Seq<char> {
    match e {
        BotError::InlineDataId => "Inline data id parse error"@,
        BotError::UnknownQueryDataPrefix => "Unknown query data prefix"@,
        BotError::Parse => "Parse err"@,
        BotError::InvalidUtf8 { valid_up_to, error_len } => match error_len {
            Some(n) => "invalid utf-8 sequence of "@ + decimal(n as int) + " bytes from index "@
                + decimal(valid_up_to as int),
            None => "incomplete utf-8 byte sequence from index "@ + decimal(valid_up_to as int),
        },
        BotError::HistMsgShow => "Hist msg show error"@,
        BotError::UpdateMessage => "Update message error"@,
        BotError::NoHistMsg => "Trying to press button without hist msg"@,
    }
}

} // verus!
