//! Reading updates and Redis stream replies.
use vstd::prelude::*;
use vstd::utf8::{valid_utf8, decode_utf8};
use crate::dto::GetUpdResp;
use crate::error::BotError;
use crate::types::{MsgObj, MsgType};

verus! {

/// A Redis reply, as the server sends it.
#[derive(Debug)]
pub enum RespValue {
    Nil,
    Int(i64),
    Data(Vec<u8>),
    Bulk(Vec<RespValue>),
    Status(String),
    Okay,
}

/// What `update` asks of the bot: a button press is routed by its callback
/// data, a text message is either the `/history` command or a message to keep,
/// anything else is ignored.
pub open spec fn update_kind(resp: GetUpdResp) -> MsgType {
    match resp.callback_query {
        Some(cb) => MsgType::PrevNext((cb.data, cb.message.chat.id)),
        None => match resp.message {
            Some(msg) => match msg.text {
                Some(text) => if text@ == "/history"@ {
                    MsgType::History(msg)
                } else {
                    MsgType::Msg(msg)
                },
                None => MsgType::Unknown,
            },
            None => MsgType::Unknown,
        },
    }
}

/// Classifies an update.
pub fn parse_resp(resp: GetUpdResp) -> (r: MsgType)
    ensures
        r == update_kind(resp),
{
    if resp.callback_query.is_some() {
        let cb_query = resp.callback_query.unwrap();
        return MsgType::PrevNext((cb_query.data, cb_query.message.chat.id));
    }
    if resp.message.is_some() {
        let msg = resp.message.unwrap();
        let is_history = match &msg.text {
            Some(text) => {
                let command = String::from_str("/history");
                Some(text.eq(&command))
            },
            None => None,
        };
        match is_history {
            Some(true) => return MsgType::History(msg),
            Some(false) => return MsgType::Msg(msg),
            None => {},
        }
    }
    MsgType::Unknown
}

/// A stream entry as the model sees it: its id and its text.
pub type Entry = (Seq<char>, Seq<char>);

pub open spec fn entry_of(m: MsgObj) -> Entry {
    (m.id@, m.text@)
}

pub open spec fn entries_of(ms: Seq<MsgObj>) -> Seq<Entry> {
    ms.map_values(|m: MsgObj| entry_of(m))
}

/// The items of a reply read as a sequence (`Value::as_sequence`).
pub open spec fn sequence_items(v: RespValue) -> Option<Seq<RespValue>> {
    match v {
        RespValue::Bulk(items) => Some(items@),
        RespValue::Nil => Some(Seq::empty()),
        _ => None,
    }
}

/// The items of a reply read as a map (`Value::as_map_iter`).
pub open spec fn map_items(v: RespValue) -> Option<Seq<RespValue>> {
    match v {
        RespValue::Bulk(items) => Some(items@),
        _ => None,
    }
}

/// Consecutive items taken two by two; an odd last item is left out.
pub open spec fn pairs(items: Seq<RespValue>) -> Seq<(RespValue, RespValue)> {
    Seq::new(items.len() / 2, |k: int| (items[2 * k], items[2 * k + 1]))
}

/// Applies `f` to each element in order and concatenates the results,
/// stopping at the first error.
pub open spec fn collect<A>(
    xs: Seq<A>,
    f: spec_fn(A) -> Result<Seq<Entry>, BotError>,
) -> Result<Seq<Entry>, BotError>
    decreases xs.len(),
{
    if xs.len() == 0 {
        Ok(Seq::empty())
    } else {
        match collect(xs.drop_last(), f) {
            Err(e) => Err(e),
            Ok(acc) => match f(xs.last()) {
                Err(e) => Err(e),
                Ok(more) => Ok(acc + more),
            },
        }
    }
}

/// `i` is the length of the longest prefix of `bytes` that is valid UTF-8.
pub open spec fn is_longest_valid_prefix(bytes: Seq<u8>, i: int) -> bool {
    &&& 0 <= i <= bytes.len()
    &&& valid_utf8(bytes.take(i))
    &&& forall|j: int| i < j <= bytes.len() ==> !valid_utf8(#[trigger] bytes.take(j))
}

/// Where decoding `bytes` as UTF-8 stops (`Utf8Error::valid_up_to`).
pub open spec fn utf8_valid_up_to(bytes: Seq<u8>) -> int {
    choose|i: int| is_longest_valid_prefix(bytes, i)
}

/// The length of the invalid sequence at which decoding `bytes` stops, or
/// none when the bytes end inside a character (`Utf8Error::error_len`);
/// `utf8_to_string` states what std documents of it.
pub uninterp spec fn utf8_error_len(bytes: Seq<u8>) -> Option<usize>;

/// The error reported for bytes that are not valid UTF-8.
pub open spec fn utf8_error(bytes: Seq<u8>) -> BotError {
    BotError::InvalidUtf8 {
        valid_up_to: utf8_valid_up_to(bytes) as usize,
        error_len: utf8_error_len(bytes),
    }
}

proof fn lemma_longest_valid_prefix_unique(bytes: Seq<u8>, i: int)
    requires
        is_longest_valid_prefix(bytes, i),
    ensures
        utf8_valid_up_to(bytes) == i,
{
    let k = utf8_valid_up_to(bytes);
    assert(is_longest_valid_prefix(bytes, k));
    if k < i {
        assert(!valid_utf8(bytes.take(i)));
    } else if i < k {
        assert(!valid_utf8(bytes.take(k)));
    }
}

/// One field of a stream entry: a data value under any name is the entry's text.
pub open spec fn field_entries(raw_id: Seq<u8>, field: (RespValue, RespValue)) -> Result<
    Seq<Entry>,
    BotError,
> {
    match field.1 {
        RespValue::Data(raw_text) => if !valid_utf8(raw_id) {
            Err(utf8_error(raw_id))
        } else if !valid_utf8(raw_text@) {
            Err(utf8_error(raw_text@))
        } else {
            Ok(seq![(decode_utf8(raw_id), decode_utf8(raw_text@))])
        },
        _ => Ok(Seq::empty()),
    }
}

/// One `(id, fields)` pair of a stream entry.
pub open spec fn id_entries(part: (RespValue, RespValue)) -> Result<Seq<Entry>, BotError> {
    match part.0 {
        RespValue::Data(raw_id) => match map_items(part.1) {
            None => Err(BotError::Parse),
            Some(fields) => collect(pairs(fields), |f: (RespValue, RespValue)| field_entries(raw_id@, f)),
        },
        _ => Ok(Seq::empty()),
    }
}

/// One element of the reply.
pub open spec fn element_entries(element: RespValue) -> Result<Seq<Entry>, BotError> {
    match map_items(element) {
        None => Err(BotError::Parse),
        Some(parts) => collect(pairs(parts), |p: (RespValue, RespValue)| id_entries(p)),
    }
}

/// The entries of an `XRANGE`/`XREVRANGE` reply, in reply order.
pub open spec fn stream_entries(v: RespValue) -> Result<Seq<Entry>, BotError> {
    match sequence_items(v) {
        None => Err(BotError::Parse),
        Some(elements) => collect(elements, |e: RespValue| element_entries(e)),
    }
}

proof fn lemma_collect_step<A>(xs: Seq<A>, f: spec_fn(A) -> Result<Seq<Entry>, BotError>, i: int)
    requires
        0 <= i < xs.len(),
    ensures
        collect(xs.take(i + 1), f) == (match collect(xs.take(i), f) {
            Err(e) => Err(e),
            Ok(acc) => match f(xs[i]) {
                Err(e) => Err(e),
                Ok(more) => Ok(acc + more),
            },
        }),
{
    assert(xs.take(i + 1).drop_last() == xs.take(i));
    assert(xs.take(i + 1).last() == xs[i]);
}

proof fn lemma_collect_stops<A>(xs: Seq<A>, f: spec_fn(A) -> Result<Seq<Entry>, BotError>, i: int)
    requires
        0 <= i <= xs.len(),
        collect(xs.take(i), f) is Err,
    ensures
        collect(xs, f) == collect(xs.take(i), f),
    decreases xs.len() - i,
{
    if i == xs.len() {
        assert(xs.take(i) == xs);
    } else {
        assert(xs.drop_last().take(i) == xs.take(i));
        lemma_collect_stops(xs.drop_last(), f, i);
    }
}

/// Calls std's `str::from_utf8` and copies the result into a `String`;
/// trusted to succeed exactly on valid UTF-8 (vstd's `valid_utf8`) and then
/// to hold the characters those bytes encode (vstd's `decode_utf8`). On
/// failure it gives the error's `valid_up_to()`, which std documents as the
/// largest index up to which the input is valid UTF-8, and its
/// `error_len()`. Of the latter only what std documents for `Some(n)` is
/// stated: `n` is the length of the invalid byte sequence that starts at
/// `valid_up_to`, so it is at least one and lies within the input. That
/// `None` means the input ends inside a character is left unsaid.
#[verifier::external_body]
fn utf8_to_string(bytes: &[u8]) -> (r: Result<String, (usize, Option<usize>)>)
    ensures
        r is Ok <==> valid_utf8(bytes@),
        r matches Ok(s) ==> s@ == decode_utf8(bytes@),
        r matches Err((up_to, len)) ==> is_longest_valid_prefix(bytes@, up_to as int) && len
            == utf8_error_len(bytes@),
        r matches Err((up_to, Some(n))) ==> 1 <= n && up_to + n <= bytes@.len(),
{
    match std::str::from_utf8(bytes) {
        Ok(s) => Ok(s.to_owned()),
        Err(e) => Err((e.valid_up_to(), e.error_len())),
    }
}

fn push_field(raw_id: &Vec<u8>, field: (&RespValue, &RespValue), out: &mut Vec<MsgObj>) -> (r: Result<(), BotError>)
    ensures
        match field_entries(raw_id@, (*field.0, *field.1)) {
            Ok(more) => r is Ok && entries_of(final(out)@) == entries_of(old(out)@) + more,
            Err(e) => r == Err::<(), BotError>(e),
        },
{
    match field.1 {
        RespValue::Data(raw_text) => {
            let id = match utf8_to_string(raw_id.as_slice()) {
                Ok(s) => s,
                Err((valid_up_to, error_len)) => {
                    proof {
                        lemma_longest_valid_prefix_unique(raw_id@, valid_up_to as int);
                    }
                    return Err(BotError::InvalidUtf8 { valid_up_to, error_len });
                },
            };
            let text = match utf8_to_string(raw_text.as_slice()) {
                Ok(s) => s,
                Err((valid_up_to, error_len)) => {
                    proof {
                        lemma_longest_valid_prefix_unique(raw_text@, valid_up_to as int);
                    }
                    return Err(BotError::InvalidUtf8 { valid_up_to, error_len });
                },
            };
            let ghost before = out@;
            out.push(MsgObj { id, text });
            assert(entries_of(out@) == entries_of(before) + seq![(decode_utf8(raw_id@), decode_utf8(raw_text@))]);
            Ok(())
        },
        _ => {
            assert(entries_of(out@) == entries_of(old(out)@) + Seq::<Entry>::empty());
            Ok(())
        },
    }
}

fn push_id_part(part: (&RespValue, &RespValue), out: &mut Vec<MsgObj>) -> (r: Result<(), BotError>)
    ensures
        match id_entries((*part.0, *part.1)) {
            Ok(more) => r is Ok && entries_of(final(out)@) == entries_of(old(out)@) + more,
            Err(e) => r == Err::<(), BotError>(e),
        },
{
    match part.0 {
        RespValue::Data(raw_id) => {
            let fields = match part.1 {
                RespValue::Bulk(items) => items,
                _ => return Err(BotError::Parse),
            };
            let ghost f = |q: (RespValue, RespValue)| field_entries(raw_id@, q);
            let ghost ps = pairs(fields@);
            let ghost start = entries_of(out@);
            assert(id_entries((*part.0, *part.1)) == collect(ps, f));
            let mut k: usize = 0;
            while k < fields.len() / 2
                invariant
                    k <= fields.len() / 2,
                    ps == pairs(fields@),
                    f == (|q: (RespValue, RespValue)| field_entries(raw_id@, q)),
                    id_entries((*part.0, *part.1)) == collect(ps, f),
                    collect(ps.take(k as int), f) matches Ok(acc) && entries_of(out@) == start + acc,
                decreases fields.len() / 2 - k,
            {
                let r = push_field(raw_id, (&fields[2 * k], &fields[2 * k + 1]), out);
                proof {
                    lemma_collect_step(ps, f, k as int);
                    assert(ps[k as int] == (fields@[2 * k], fields@[2 * k + 1]));
                }
                if r.is_err() {
                    proof {
                        assert(f(ps[k as int]) is Err);
                        assert(collect(ps.take(k + 1), f) is Err);
                        lemma_collect_stops(ps, f, k + 1);
                    }
                    return r;
                }
                proof {
                    let acc = collect(ps.take(k as int), f)->Ok_0;
                    let more = f(ps[k as int])->Ok_0;
                    assert(entries_of(out@) == start + (acc + more));
                }
                k = k + 1;
            }
            proof {
                assert(ps.take(k as int) == ps);
            }
            assert(entries_of(out@) == entries_of(old(out)@) + collect(ps, f)->Ok_0);
            Ok(())
        },
        _ => {
            assert(entries_of(out@) == entries_of(old(out)@) + Seq::<Entry>::empty());
            Ok(())
        },
    }
}

fn push_element(element: &RespValue, out: &mut Vec<MsgObj>) -> (r: Result<(), BotError>)
    ensures
        match element_entries(*element) {
            Ok(more) => r is Ok && entries_of(final(out)@) == entries_of(old(out)@) + more,
            Err(e) => r == Err::<(), BotError>(e),
        },
{
    let parts = match element {
        RespValue::Bulk(items) => items,
        _ => return Err(BotError::Parse),
    };
    let ghost f = |p: (RespValue, RespValue)| id_entries(p);
    let ghost ps = pairs(parts@);
    let ghost start = entries_of(out@);
    assert(element_entries(*element) == collect(ps, f));
    let mut k: usize = 0;
    while k < parts.len() / 2
        invariant
            k <= parts.len() / 2,
            ps == pairs(parts@),
            f == (|p: (RespValue, RespValue)| id_entries(p)),
            element_entries(*element) == collect(ps, f),
            collect(ps.take(k as int), f) matches Ok(acc) && entries_of(out@) == start + acc,
        decreases parts.len() / 2 - k,
    {
        let r = push_id_part((&parts[2 * k], &parts[2 * k + 1]), out);
        proof {
            lemma_collect_step(ps, f, k as int);
            assert(ps[k as int] == (parts@[2 * k], parts@[2 * k + 1]));
        }
        if r.is_err() {
            proof {
                lemma_collect_stops(ps, f, k + 1);
            }
            return r;
        }
        proof {
            let acc = collect(ps.take(k as int), f)->Ok_0;
            let more = f(ps[k as int])->Ok_0;
            assert(entries_of(out@) == start + (acc + more));
        }
        k = k + 1;
    }
    proof {
        assert(ps.take(k as int) == ps);
    }
    assert(entries_of(out@) == entries_of(old(out)@) + collect(ps, f)->Ok_0);
    Ok(())
}

/// Reads the entries of an `XRANGE`/`XREVRANGE` reply: each element is a
/// map from stream ids to field maps, and each data value in a field map is
/// the text of an entry with that id.
pub fn parse_msg_req(v: RespValue) -> (r: Result<Vec<MsgObj>, BotError>)
    ensures
        match stream_entries(v) {
            Ok(es) => r matches Ok(ms) && entries_of(ms@) == es,
            Err(e) => r == Err::<Vec<MsgObj>, BotError>(e),
        },
{
    let mut result: Vec<MsgObj> = Vec::new();
    let elements: Vec<RespValue> = match v {
        RespValue::Bulk(items) => items,
        RespValue::Nil => Vec::new(),
        _ => return Err(BotError::Parse),
    };
    let ghost f = |e: RespValue| element_entries(e);
    assert(sequence_items(v) == Some(elements@));
    assert(stream_entries(v) == collect(elements@, f));
    let mut i: usize = 0;
    while i < elements.len()
        invariant
            i <= elements.len(),
            f == (|e: RespValue| element_entries(e)),
            stream_entries(v) == collect(elements@, f),
            collect(elements@.take(i as int), f) matches Ok(acc) && entries_of(result@) == acc,
        decreases elements.len() - i,
    {
        let r = push_element(&elements[i], &mut result);
        proof {
            lemma_collect_step(elements@, f, i as int);
        }
        if r.is_err() {
            proof {
                lemma_collect_stops(elements@, f, i + 1);
            }
            return Err(r.unwrap_err());
        }
        i = i + 1;
    }
    proof {
        assert(elements@.take(i as int) == elements@);
    }
    Ok(result)
}

} // verus!

verus! {

/// Every update is classified into something the handler can start on: a
/// message to store always has a text.
pub proof fn lemma_update_kind_has_text(resp: GetUpdResp)
    ensures
        update_kind(resp) matches MsgType::Msg(m) ==> m.text is Some,
{
}

} // verus!

verus! {

/// `e` is one element of a range reply: the entry id and a field map that
/// holds one field whose value is `text`.
pub open spec fn is_entry_reply(e: RespValue, id: Seq<u8>, text: Seq<u8>) -> bool {
    match e {
        RespValue::Bulk(parts) => {
            &&& parts@.len() == 2
            &&& parts@[0] matches RespValue::Data(raw_id) && raw_id@ == id
            &&& match parts@[1] {
                RespValue::Bulk(fields) => {
                    &&& fields@.len() == 2
                    &&& fields@[1] matches RespValue::Data(raw_text) && raw_text@ == text
                },
                _ => false,
            }
        },
        _ => false,
    }
}

/// `v` is the reply to `XRANGE`/`XREVRANGE` over stream entries `es`, each
/// an id and a text (as bytes), in reply order.
pub open spec fn is_range_reply(v: RespValue, es: Seq<(Seq<u8>, Seq<u8>)>) -> bool {
    match sequence_items(v) {
        Some(items) => items.len() == es.len() && forall|i: int|
            0 <= i < es.len() ==> #[trigger] is_entry_reply(items[i], es[i].0, es[i].1),
        None => false,
    }
}

pub open spec fn utf8_entry(e: Entry) -> (Seq<u8>, Seq<u8>) {
    (vstd::utf8::encode_utf8(e.0), vstd::utf8::encode_utf8(e.1))
}

proof fn lemma_collect_single<A>(x: A, f: spec_fn(A) -> Result<Seq<Entry>, BotError>)
    ensures
        collect(seq![x], f) == f(x),
{
    assert(seq![x].drop_last() =~= Seq::<A>::empty());
    assert(collect(seq![x].drop_last(), f) == Ok::<Seq<Entry>, BotError>(Seq::empty()));
    assert(seq![x].last() == x);
    if let Ok(more) = f(x) {
        assert(Seq::<Entry>::empty() + more =~= more);
    }
}

proof fn lemma_entry_reads_back(e: RespValue, entry: Entry)
    requires
        is_entry_reply(e, vstd::utf8::encode_utf8(entry.0), vstd::utf8::encode_utf8(entry.1)),
    ensures
        element_entries(e) == Ok::<Seq<Entry>, BotError>(seq![entry]),
{
    broadcast use vstd::utf8::encode_utf8_valid_utf8, vstd::utf8::encode_utf8_decode_utf8;

    let parts = map_items(e)->0;
    let raw_id = parts[0]->Data_0;
    let fields = map_items(parts[1])->0;
    assert(pairs(fields) =~= seq![(fields[0], fields[1])]);
    let ff = |q: (RespValue, RespValue)| field_entries(raw_id@, q);
    lemma_collect_single((fields[0], fields[1]), ff);
    assert(id_entries((parts[0], parts[1])) == Ok::<Seq<Entry>, BotError>(seq![entry]));
    assert(pairs(parts) =~= seq![(parts[0], parts[1])]);
    let fp = |p: (RespValue, RespValue)| id_entries(p);
    lemma_collect_single((parts[0], parts[1]), fp);
}

proof fn lemma_range_prefix_reads_back(v: RespValue, es: Seq<Entry>, n: int)
    requires
        is_range_reply(v, es.map_values(|e: Entry| utf8_entry(e))),
        0 <= n <= es.len(),
    ensures
        collect(sequence_items(v)->0.take(n), |e: RespValue| element_entries(e)) == Ok::<
            Seq<Entry>,
            BotError,
        >(es.take(n)),
    decreases n,
{
    let items = sequence_items(v)->0;
    let f = |e: RespValue| element_entries(e);
    let bytes = es.map_values(|e: Entry| utf8_entry(e));
    if n == 0 {
        assert(items.take(0) =~= Seq::<RespValue>::empty());
        assert(es.take(0) =~= Seq::<Entry>::empty());
    } else {
        lemma_range_prefix_reads_back(v, es, n - 1);
        assert(is_entry_reply(items[n - 1], bytes[n - 1].0, bytes[n - 1].1));
        lemma_entry_reads_back(items[n - 1], es[n - 1]);
        lemma_collect_step(items, f, n - 1);
        assert(es.take(n) =~= es.take(n - 1) + seq![es[n - 1]]);
    }
}

/// A range reply reads back as the entries it holds: when Redis answers a
/// range query with entries whose ids and texts are UTF-8 text (as `XADD`
/// stored them), `parse_msg_req` gives exactly those ids and texts, in
/// order.
pub proof fn lemma_range_reply_reads_back(v: RespValue, es: Seq<Entry>)
    requires
        is_range_reply(v, es.map_values(|e: Entry| utf8_entry(e))),
    ensures
        stream_entries(v) == Ok::<Seq<Entry>, BotError>(es),
{
    let items = sequence_items(v)->0;
    lemma_range_prefix_reads_back(v, es, es.len() as int);
    assert(items.take(es.len() as int) =~= items);
    assert(es.take(es.len() as int) =~= es);
}

} // verus!

verus! {

/// A button press is handed on with its own callback data and the id of the
/// chat whose message carries the button, for every chat id.
pub proof fn lemma_button_press_keeps_its_chat(resp: GetUpdResp)
    requires
        resp.callback_query is Some,
    ensures
        match update_kind(resp) {
            MsgType::PrevNext((data, chat_id)) => data == resp.callback_query->0.data && chat_id
                == resp.callback_query->0.message.chat.id,
            _ => false,
        },
{
}

/// Every text message that is not a button press is acted on: `/history`
/// asks for the history, and any other text, whatever it holds, is a message
/// to store, handed on unchanged.
pub proof fn lemma_text_messages_are_kept(resp: GetUpdResp)
    requires
        resp.callback_query is None,
        resp.message matches Some(m) && m.text is Some,
    ensures
        resp.message->0.text->0@ != "/history"@ ==> update_kind(resp) == MsgType::Msg(
            resp.message->0,
        ),
        resp.message->0.text->0@ == "/history"@ ==> update_kind(resp) == MsgType::History(
            resp.message->0,
        ),
        !(update_kind(resp) is Unknown),
{
}

} // verus!
