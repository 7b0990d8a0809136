use tg_hist_bot::dto::{CbQuery, Chat, GetUpdResp, Message};
use tg_hist_bot::error::BotError;
use tg_hist_bot::parser::{parse_msg_req, parse_resp, RespValue};
use tg_hist_bot::prev_next::parse_cmd_msg_id;
use tg_hist_bot::types::{KeyboardButtons, MsgType};

fn message(chat: i64, id: i64, text: Option<&str>) -> Message {
    Message {
        message_id: id,
        text: text.map(|t| t.to_string()),
        chat: Chat { id: chat },
        reply_markup: None,
    }
}

fn update(message_: Option<Message>, cb: Option<CbQuery>) -> GetUpdResp {
    GetUpdResp { update_id: 1, message: message_, callback_query: cb }
}

fn data(s: &str) -> RespValue {
    RespValue::Data(s.as_bytes().to_vec())
}

fn entry(id: &str, text: &str) -> RespValue {
    RespValue::Bulk(vec![data(id), RespValue::Bulk(vec![data("text"), data(text)])])
}

#[test]
fn button_press_is_prev_next() {
    let cb = CbQuery { message: message(-5, 9, Some("shown")), data: "p::1-0".to_string() };
    match parse_resp(update(Some(message(1, 1, Some("x"))), Some(cb))) {
        MsgType::PrevNext((d, chat)) => {
            assert_eq!(d, "p::1-0");
            assert_eq!(chat, -5);
        }
        _ => panic!("expected a button press"),
    }
}

#[test]
fn history_command_is_history() {
    match parse_resp(update(Some(message(3, 7, Some("/history"))), None)) {
        MsgType::History(m) => {
            assert_eq!(m.chat.id, 3);
            assert_eq!(m.message_id, 7);
        }
        _ => panic!("expected /history"),
    }
}

#[test]
fn other_text_is_a_message() {
    match parse_resp(update(Some(message(3, 8, Some("/history please"))), None)) {
        MsgType::Msg(m) => assert_eq!(m.text.as_deref(), Some("/history please")),
        _ => panic!("expected a message"),
    }
}

#[test]
fn message_without_text_and_empty_update_are_unknown() {
    assert!(matches!(parse_resp(update(Some(message(3, 8, None)), None)), MsgType::Unknown));
    assert!(matches!(parse_resp(update(None, None)), MsgType::Unknown));
}

#[test]
fn callback_data_splits_at_the_separator() {
    let (b, id) = parse_cmd_msg_id("p::1700000000000-0").unwrap();
    assert_eq!(b, KeyboardButtons::Prev);
    assert_eq!(id, "1700000000000-0");
    let (b, id) = parse_cmd_msg_id("n::12-3").unwrap();
    assert_eq!(b, KeyboardButtons::Next);
    assert_eq!(id, "12-3");
}

#[test]
fn callback_data_second_piece_stops_at_next_separator() {
    let (b, id) = parse_cmd_msg_id("n::a::b").unwrap();
    assert_eq!(b, KeyboardButtons::Next);
    assert_eq!(id, "a");
    let (b, id) = parse_cmd_msg_id("p:::x").unwrap();
    assert_eq!(b, KeyboardButtons::Prev);
    assert_eq!(id, ":x");
}

#[test]
fn callback_data_with_other_command_is_unknown() {
    let (b, id) = parse_cmd_msg_id("q::5").unwrap();
    assert_eq!(b, KeyboardButtons::Unknown);
    assert_eq!(id, "5");
    let (b, id) = parse_cmd_msg_id("::").unwrap();
    assert_eq!(b, KeyboardButtons::Unknown);
    assert_eq!(id, "");
    let (b, _) = parse_cmd_msg_id("pp::1").unwrap();
    assert_eq!(b, KeyboardButtons::Unknown);
}

#[test]
fn callback_data_without_separator_is_an_error() {
    assert_eq!(parse_cmd_msg_id("p:1").unwrap_err(), BotError::InlineDataId);
    assert_eq!(parse_cmd_msg_id("").unwrap_err(), BotError::InlineDataId);
}

#[test]
fn callback_data_with_non_ascii_text() {
    let (b, id) = parse_cmd_msg_id("n::é::x").unwrap();
    assert_eq!(b, KeyboardButtons::Next);
    assert_eq!(id, "é");
}

#[test]
fn range_reply_reads_entries_in_order() {
    let v = RespValue::Bulk(vec![entry("1-0", "hello"), entry("2-0", "héllo wörld")]);
    let ms = parse_msg_req(v).unwrap();
    assert_eq!(ms.len(), 2);
    assert_eq!(ms[0].id, "1-0");
    assert_eq!(ms[0].text, "hello");
    assert_eq!(ms[1].id, "2-0");
    assert_eq!(ms[1].text, "héllo wörld");
}

#[test]
fn nil_reply_has_no_entries() {
    assert!(parse_msg_req(RespValue::Nil).unwrap().is_empty());
    assert!(parse_msg_req(RespValue::Bulk(vec![])).unwrap().is_empty());
}

#[test]
fn reply_that_is_not_a_sequence_is_a_parse_error() {
    assert_eq!(parse_msg_req(RespValue::Int(3)).unwrap_err(), BotError::Parse);
    assert_eq!(parse_msg_req(RespValue::Okay).unwrap_err(), BotError::Parse);
    assert_eq!(parse_msg_req(data("x")).unwrap_err(), BotError::Parse);
}

#[test]
fn element_that_is_not_a_map_is_a_parse_error() {
    let v = RespValue::Bulk(vec![entry("1-0", "a"), RespValue::Nil]);
    assert_eq!(parse_msg_req(v).unwrap_err(), BotError::Parse);
}

#[test]
fn fields_that_are_not_a_map_are_a_parse_error() {
    let v = RespValue::Bulk(vec![RespValue::Bulk(vec![data("1-0"), RespValue::Int(1)])]);
    assert_eq!(parse_msg_req(v).unwrap_err(), BotError::Parse);
}

#[test]
fn non_data_ids_and_values_are_skipped() {
    let v = RespValue::Bulk(vec![
        RespValue::Bulk(vec![RespValue::Int(5), RespValue::Int(6)]),
        RespValue::Bulk(vec![
            data("3-0"),
            RespValue::Bulk(vec![data("a"), RespValue::Int(1), data("b"), data("kept"), data("odd")]),
        ]),
    ]);
    let ms = parse_msg_req(v).unwrap();
    assert_eq!(ms.len(), 1);
    assert_eq!(ms[0].id, "3-0");
    assert_eq!(ms[0].text, "kept");
}

#[test]
fn invalid_utf8_is_an_error() {
    let bad = RespValue::Data(vec![0xff, 0xfe]);
    let v = RespValue::Bulk(vec![RespValue::Bulk(vec![data("1-0"), RespValue::Bulk(vec![data("text"), bad])])]);
    assert_eq!(parse_msg_req(v).unwrap_err(), BotError::InvalidUtf8 { valid_up_to: 0, error_len: Some(1) });
    let bad_id = RespValue::Data(vec![b'7', 0xc3]);
    let v = RespValue::Bulk(vec![RespValue::Bulk(vec![bad_id, RespValue::Bulk(vec![data("text"), data("ok")])])]);
    let e = parse_msg_req(v).unwrap_err();
    assert_eq!(e, BotError::InvalidUtf8 { valid_up_to: 1, error_len: None });
    assert_eq!(e.message(), "incomplete utf-8 byte sequence from index 1");
}

#[test]
fn first_error_in_reply_order_wins() {
    let bad = RespValue::Data(vec![0xff]);
    let v = RespValue::Bulk(vec![
        RespValue::Bulk(vec![data("1-0"), RespValue::Bulk(vec![data("text"), bad])]),
        RespValue::Int(0),
    ]);
    assert_eq!(parse_msg_req(v).unwrap_err(), BotError::InvalidUtf8 { valid_up_to: 0, error_len: Some(1) });
}
