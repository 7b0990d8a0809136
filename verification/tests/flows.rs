use tg_hist_bot::dto::{Chat, GetUpdResp, HistMsgWithInlKeyboard, Message};
use tg_hist_bot::error::BotError;
use tg_hist_bot::handler::{accepts, start, step, Action, Event, HandlerState};
use tg_hist_bot::history::{edited_history_message, hist_msg_data, history_message, method_url};
use tg_hist_bot::parser::RespValue;
use tg_hist_bot::polling::{carries_updates, finish_batch, polling_command, polling_step, PollStep, TaskOutcome};
use tg_hist_bot::prev_next::parse_cmd_msg_id;
use tg_hist_bot::store::{last_entry_command, neighbour_entry_command, RedisCommand};
use tg_hist_bot::types::{KeyboardButtons, MsgObj, MsgType, PollingCommand, UpdateData};

fn message(chat: i64, id: i64, text: Option<&str>) -> Message {
    Message {
        message_id: id,
        text: text.map(|t| t.to_string()),
        chat: Chat { id: chat },
        reply_markup: None,
    }
}

fn data(s: &str) -> RespValue {
    RespValue::Data(s.as_bytes().to_vec())
}

fn entry(id: &str, text: &str) -> RespValue {
    RespValue::Bulk(vec![data(id), RespValue::Bulk(vec![data("text"), data(text)])])
}

fn cmd_is(c: &RedisCommand, name: &str, args: &[&str]) {
    assert_eq!(c.name, name);
    let got: Vec<&str> = c.args.iter().map(|s| s.as_str()).collect();
    assert_eq!(got, args);
}

fn buttons(b: &HistMsgWithInlKeyboard) -> Vec<(String, String)> {
    b.reply_markup.inline_keyboard[0]
        .iter()
        .map(|k| (k.text.clone(), k.callback_data.clone()))
        .collect()
}

fn run(state: HandlerState, event: Event) -> (HandlerState, Action) {
    assert!(accepts(&state, &event));
    step(state, event)
}

#[test]
fn method_urls() {
    assert_eq!(method_url("https://api.telegram.org", "T0K", "getUpdates"), "https://api.telegram.org/botT0K/getUpdates");
    assert_eq!(method_url("http://h", "x", "sendMessage"), "http://h/botx/sendMessage");
}

#[test]
fn range_commands() {
    cmd_is(&last_entry_command(None, 5), "XREVRANGE", &["msgs::5", "+", "-", "COUNT", "1"]);
    cmd_is(&last_entry_command(Some("9-1".to_string()), 5), "XREVRANGE", &["msgs::5", "9-1", "-", "COUNT", "1"]);
    cmd_is(&neighbour_entry_command(KeyboardButtons::Prev, "9-1", 5).unwrap(), "XREVRANGE", &["msgs::5", "(9-1", "-", "count", "1"]);
    cmd_is(&neighbour_entry_command(KeyboardButtons::Next, "9-1", 5).unwrap(), "XRANGE", &["msgs::5", "(9-1", "+", "count", "1"]);
    assert_eq!(neighbour_entry_command(KeyboardButtons::Unknown, "9-1", 5).unwrap_err(), BotError::UnknownQueryDataPrefix);
}

#[test]
fn history_bodies() {
    let none = history_message(hist_msg_data(None, 4));
    assert_eq!(none.text, "No messages yet");
    assert_eq!(none.chat_id, 4);
    assert!(none.message_id.is_none());
    assert!(buttons(&none).is_empty());

    let d = hist_msg_data(Some(MsgObj { id: "7-0".to_string(), text: "hi".to_string() }), 4);
    assert_eq!(d.payload, "hi");
    assert_eq!(d.msg_id.as_deref(), Some("7-0"));
    let shown = history_message(d);
    assert_eq!(shown.text, "hi");
    assert_eq!(
        buttons(&shown),
        vec![("Prev".to_string(), "p::7-0".to_string()), ("Next".to_string(), "n::7-0".to_string())]
    );

    let edited = edited_history_message(MsgObj { id: "8-0".to_string(), text: "yo".to_string() }, "77".to_string(), 4);
    assert_eq!(edited.text, "yo");
    assert_eq!(edited.message_id.as_deref(), Some("77"));
    assert_eq!(buttons(&edited)[1].1, "n::8-0");
}

#[test]
fn buttons_read_back_as_their_entry() {
    let shown = history_message(hist_msg_data(Some(MsgObj { id: "1700000000000-3".to_string(), text: "t".to_string() }), 1));
    let bs = buttons(&shown);
    let (b, id) = parse_cmd_msg_id(&bs[0].1).unwrap();
    assert_eq!((b, id), (KeyboardButtons::Prev, "1700000000000-3"));
    let (b, id) = parse_cmd_msg_id(&bs[1].1).unwrap();
    assert_eq!((b, id), (KeyboardButtons::Next, "1700000000000-3"));
}

#[test]
fn saving_a_message() {
    let (s, a) = start(MsgType::Msg(message(10, 55, Some("hello"))));
    match a {
        Action::AddEntry(c) => cmd_is(&c, "XADD", &["msgs::10", "*", "text", "hello"]),
        _ => panic!(),
    }
    let (s, a) = run(s, Event::EntryId("1-0".to_string()));
    match a {
        Action::Store(c) => cmd_is(&c, "SET", &["hist::10", "1-0"]),
        _ => panic!(),
    }
    let (s, a) = run(s, Event::Done);
    match a {
        Action::Store(c) => cmd_is(&c, "SET", &["last_msg::10", "55"]),
        _ => panic!(),
    }
    let (s, a) = run(s, Event::Done);
    assert!(matches!(s, HandlerState::Finished));
    assert!(matches!(a, Action::Finish(Ok(()))));
    assert!(!accepts(&s, &Event::Done));
}

#[test]
fn history_with_an_entry_and_an_old_history_message() {
    let (s, a) = start(MsgType::History(message(10, 56, Some("/history"))));
    match a {
        Action::ReadText(c) => cmd_is(&c, "GET", &["hist::10"]),
        _ => panic!(),
    }
    let (s, a) = run(s, Event::Text(Some("4-0".to_string())));
    match a {
        Action::ReadRange(c) => cmd_is(&c, "XREVRANGE", &["msgs::10", "4-0", "-", "COUNT", "1"]),
        _ => panic!(),
    }
    let (s, a) = run(s, Event::Range(Some(RespValue::Bulk(vec![entry("4-0", "four")]))));
    match a {
        Action::Store(c) => cmd_is(&c, "SET", &["hist::10", "4-0"]),
        _ => panic!(),
    }
    let (s, a) = run(s, Event::Done);
    match &a {
        Action::SendMessage(b) => {
            assert_eq!(b.text, "four");
            assert_eq!(b.chat_id, 10);
            assert_eq!(buttons(b)[0].1, "p::4-0");
        }
        _ => panic!(),
    }
    let (s, a) = run(s, Event::Status(200));
    assert!(matches!(a, Action::ReadSentMessage));
    let (s, a) = run(s, Event::SentId(900));
    match a {
        Action::ReadInt(c) => cmd_is(&c, "GET", &["last_hist_msg::10"]),
        _ => panic!(),
    }
    let (s, a) = run(s, Event::Int(Some(800)));
    match a {
        Action::Store(c) => cmd_is(&c, "SET", &["last_hist_msg::10", "900"]),
        _ => panic!(),
    }
    let (s, a) = run(s, Event::Done);
    assert!(matches!(a, Action::DeleteMessage { chat_id: 10, message_id: 800 }));
    let (s, a) = run(s, Event::Done);
    assert!(matches!(s, HandlerState::Finished));
    assert!(matches!(a, Action::Finish(Ok(()))));
}

#[test]
fn history_of_an_empty_chat() {
    let (s, _) = start(MsgType::History(message(11, 1, Some("/history"))));
    let (s, a) = run(s, Event::Text(None));
    match a {
        Action::ReadRange(c) => cmd_is(&c, "XREVRANGE", &["msgs::11", "+", "-", "COUNT", "1"]),
        _ => panic!(),
    }
    let (s, a) = run(s, Event::Range(Some(RespValue::Bulk(vec![]))));
    match &a {
        Action::SendMessage(b) => {
            assert_eq!(b.text, "No messages yet");
            assert!(buttons(b).is_empty());
        }
        _ => panic!(),
    }
    let (s, a) = run(s, Event::Status(200));
    assert!(matches!(a, Action::ReadSentMessage));
    let (s, _) = run(s, Event::SentId(5));
    let (s, _) = run(s, Event::Int(None));
    let (s, a) = run(s, Event::Done);
    assert!(matches!(s, HandlerState::Finished));
    assert!(matches!(a, Action::Finish(Ok(()))));
}

#[test]
fn history_without_any_reply_sends_the_notice() {
    let (s, _) = start(MsgType::History(message(11, 1, Some("/history"))));
    let (s, _) = run(s, Event::Text(None));
    let (_, a) = run(s, Event::Range(None));
    match &a {
        Action::SendMessage(b) => assert_eq!(b.text, "No messages yet"),
        _ => panic!(),
    }
}

#[test]
fn history_refused_by_telegram() {
    let (s, _) = start(MsgType::History(message(11, 1, Some("/history"))));
    let (s, _) = run(s, Event::Text(None));
    let (s, _) = run(s, Event::Range(None));
    let (s, a) = run(s, Event::Status(400));
    assert!(matches!(s, HandlerState::Finished));
    assert!(matches!(a, Action::Finish(Err(BotError::HistMsgShow))));
}

#[test]
fn history_with_a_broken_reply() {
    let (s, _) = start(MsgType::History(message(11, 1, Some("/history"))));
    let (s, _) = run(s, Event::Text(None));
    let (_, a) = run(s, Event::Range(Some(RespValue::Int(1))));
    assert!(matches!(a, Action::Finish(Err(BotError::Parse))));
}

#[test]
fn prev_button_edits_the_history_message() {
    let (s, a) = start(MsgType::PrevNext(("p::5-0".to_string(), 12)));
    match a {
        Action::ReadRange(c) => cmd_is(&c, "XREVRANGE", &["msgs::12", "(5-0", "-", "count", "1"]),
        _ => panic!(),
    }
    let (s, a) = run(s, Event::Range(Some(RespValue::Bulk(vec![entry("3-0", "three")]))));
    match a {
        Action::ReadText(c) => cmd_is(&c, "GET", &["last_hist_msg::12"]),
        _ => panic!(),
    }
    let (s, a) = run(s, Event::Text(Some("901".to_string())));
    match &a {
        Action::EditMessage(b) => {
            assert_eq!(b.text, "three");
            assert_eq!(b.chat_id, 12);
            assert_eq!(b.message_id.as_deref(), Some("901"));
            assert_eq!(buttons(b), vec![("Prev".to_string(), "p::3-0".to_string()), ("Next".to_string(), "n::3-0".to_string())]);
        }
        _ => panic!(),
    }
    let (s, a) = run(s, Event::Status(200));
    assert!(matches!(s, HandlerState::Finished));
    assert!(matches!(a, Action::Finish(Ok(()))));
}

#[test]
fn next_button_at_the_end_does_nothing() {
    let (s, a) = start(MsgType::PrevNext(("n::5-0".to_string(), 12)));
    match a {
        Action::ReadRange(c) => cmd_is(&c, "XRANGE", &["msgs::12", "(5-0", "+", "count", "1"]),
        _ => panic!(),
    }
    let (_, a) = run(s, Event::Range(Some(RespValue::Bulk(vec![]))));
    assert!(matches!(a, Action::Finish(Ok(()))));
}

#[test]
fn button_without_history_message_is_an_error() {
    let (s, _) = start(MsgType::PrevNext(("n::5-0".to_string(), 12)));
    let (s, _) = run(s, Event::Range(Some(RespValue::Bulk(vec![entry("6-0", "six")]))));
    let (_, a) = run(s, Event::Text(None));
    assert!(matches!(a, Action::Finish(Err(BotError::NoHistMsg))));
}

#[test]
fn failed_edit_is_an_error() {
    let (s, _) = start(MsgType::PrevNext(("n::5-0".to_string(), 12)));
    let (s, _) = run(s, Event::Range(Some(RespValue::Bulk(vec![entry("6-0", "six")]))));
    let (s, _) = run(s, Event::Text(Some("1".to_string())));
    let (_, a) = run(s, Event::Status(400));
    assert!(matches!(a, Action::Finish(Err(BotError::UpdateMessage))));
}

#[test]
fn bad_button_data() {
    let (s, a) = start(MsgType::PrevNext(("x::5-0".to_string(), 12)));
    assert!(matches!(s, HandlerState::Finished));
    assert!(matches!(a, Action::Finish(Err(BotError::UnknownQueryDataPrefix))));
    let (_, a) = start(MsgType::PrevNext(("nothing".to_string(), 12)));
    assert!(matches!(a, Action::Finish(Err(BotError::InlineDataId))));
}

#[test]
fn unknown_update_finishes_at_once() {
    let (s, a) = start(MsgType::Unknown);
    assert!(matches!(s, HandlerState::Finished));
    assert!(matches!(a, Action::Finish(Ok(()))));
}

#[test]
fn replies_of_the_wrong_kind_are_not_accepted() {
    let (s, _) = start(MsgType::History(message(11, 1, Some("/history"))));
    assert!(!accepts(&s, &Event::Done));
    assert!(!accepts(&s, &Event::Status(200)));
    assert!(accepts(&s, &Event::Text(None)));
}

fn upd(id: i64, text: &str) -> GetUpdResp {
    GetUpdResp { update_id: id, message: Some(message(1, id, Some(text))), callback_query: None }
}

#[test]
fn polling_commands_by_status() {
    assert!(carries_updates(200));
    assert!(!carries_updates(502));
    assert!(matches!(polling_command(502, None), PollingCommand::Continue(UpdateData::Timeout)));
    assert!(matches!(polling_command(401, None), PollingCommand::Stop));
    match polling_command(200, Some(vec![upd(3, "a")])) {
        PollingCommand::Continue(UpdateData::Data(d)) => assert_eq!(d[0].update_id, 3),
        _ => panic!(),
    }
}

#[test]
fn polling_moves_past_the_last_update() {
    let cmd = PollingCommand::Continue(UpdateData::Data(Box::new(vec![upd(7, "a"), upd(9, "/history")])));
    match polling_step(5, cmd) {
        PollStep::Next { offset, tasks } => {
            assert_eq!(offset, 10);
            assert_eq!(tasks.len(), 2);
            assert!(matches!(tasks[0], MsgType::Msg(_)));
            assert!(matches!(tasks[1], MsgType::History(_)));
        }
        PollStep::Stop => panic!(),
    }
}

#[test]
fn polling_keeps_offset_on_timeout_and_empty_batch() {
    match polling_step(5, PollingCommand::Continue(UpdateData::Timeout)) {
        PollStep::Next { offset, tasks } => {
            assert_eq!(offset, 5);
            assert!(tasks.is_empty());
        }
        PollStep::Stop => panic!(),
    }
    match polling_step(5, PollingCommand::Continue(UpdateData::Data(Box::new(vec![])))) {
        PollStep::Next { offset, tasks } => {
            assert_eq!(offset, 5);
            assert!(tasks.is_empty());
        }
        PollStep::Stop => panic!(),
    }
    assert!(matches!(polling_step(5, PollingCommand::Stop), PollStep::Stop));
}

#[test]
fn failed_tasks_are_only_reported() {
    let outcomes = vec![
        TaskOutcome::Finished,
        TaskOutcome::Failed("Hist msg show error".to_string()),
        TaskOutcome::Aborted("task 3 panicked".to_string()),
        TaskOutcome::Finished,
    ];
    let end = finish_batch(10, &outcomes);
    assert_eq!(end.next_offset, 10);
    assert_eq!(end.report, vec!["Hist msg show error".to_string(), "task 3 panicked".to_string()]);
    let end = finish_batch(4, &vec![TaskOutcome::Finished]);
    assert_eq!(end.next_offset, 4);
    assert!(end.report.is_empty());
}
