//! Names of the Redis keys under which a chat's data is stored.
use vstd::prelude::*;
use crate::text::{decimal, nat_digits, digit_char, append_decimal};

verus! {

/// Key prefix of a chat's message stream.
pub open spec fn msgs_prefix() -> Seq<char> { seq!['m', 's', 'g', 's', ':', ':'] }

/// Key prefix of the stream position shown last in a chat's history message.
pub open spec fn hist_prefix() -> Seq<char> { seq!['h', 'i', 's', 't', ':', ':'] }

/// Key prefix of the id of a chat's last saved Telegram message.
pub open spec fn last_msg_prefix() -> Seq<char> {
    seq!['l', 'a', 's', 't', '_', 'm', 's', 'g', ':', ':']
}

/// Key prefix of the id of the history message the bot last posted in a chat.
pub open spec fn last_hist_prefix() -> Seq<char> {
    seq!['l', 'a', 's', 't', '_', 'h', 'i', 's', 't', '_', 'm', 's', 'g', ':', ':']
}

pub open spec fn msgs_key(id: int) -> Seq<char> { msgs_prefix() + decimal(id) }

pub open spec fn hist_key(id: int) -> Seq<char> { hist_prefix() + decimal(id) }

pub open spec fn last_msg_key(id: int) -> Seq<char> { last_msg_prefix() + decimal(id) }

pub open spec fn last_hist_key(id: int) -> Seq<char> { last_hist_prefix() + decimal(id) }

/// Key of the Redis stream that holds the messages of chat `id`.
pub fn get_chat_msgs_p_name(id: i64) -> (s: String)
    ensures
        s@ == msgs_key(id as int),
{
    let mut s = String::from_str("msgs::");
    proof {
        reveal_strlit("msgs::");
    }
    append_decimal(&mut s, id);
    s
}

/// Key that holds the stream id of the entry shown in chat `id`'s history message.
pub fn get_chat_last_hist_msg_p_name(id: i64) -> (s: String)
    ensures
        s@ == hist_key(id as int),
{
    let mut s = String::from_str("hist::");
    proof {
        reveal_strlit("hist::");
    }
    append_decimal(&mut s, id);
    s
}

/// Key that holds the Telegram id of the last message saved from chat `id`.
pub fn get_chat_last_msg_p_name(id: i64) -> (s: String)
    ensures
        s@ == last_msg_key(id as int),
{
    let mut s = String::from_str("last_msg::");
    proof {
        reveal_strlit("last_msg::");
    }
    append_decimal(&mut s, id);
    s
}

/// Key that holds the Telegram id of the history message posted in chat `id`.
pub fn get_chat_last_hist_p_name(id: i64) -> (s: String)
    ensures
        s@ == last_hist_key(id as int),
{
    let mut s = String::from_str("last_hist_msg::");
    proof {
        reveal_strlit("last_hist_msg::");
    }
    append_decimal(&mut s, id);
    s
}

proof fn lemma_nat_digits_shape(n: nat)
    ensures
        n < 10 ==> nat_digits(n).len() == 1,
        n >= 10 ==> nat_digits(n).len() >= 2,
        nat_digits(n).len() >= 1,
        forall|k: int| 0 <= k < nat_digits(n).len() ==> '0' <= #[trigger] nat_digits(n)[k] <= '9',
    decreases n,
{
    if n >= 10 {
        lemma_nat_digits_shape(n / 10);
    }
}

proof fn lemma_nat_digits_injective(a: nat, b: nat)
    requires
        nat_digits(a) == nat_digits(b),
    ensures
        a == b,
    decreases a,
{
    lemma_nat_digits_shape(a);
    lemma_nat_digits_shape(b);
    if a >= 10 && b >= 10 {
        assert(nat_digits(a).drop_last() == nat_digits(a / 10));
        assert(nat_digits(b).drop_last() == nat_digits(b / 10));
        lemma_nat_digits_injective(a / 10, b / 10);
        assert(nat_digits(a).last() == digit_char((a % 10) as int));
        assert(nat_digits(b).last() == digit_char((b % 10) as int));
        assert(digit_char((a % 10) as int) as int == 48 + a % 10);
        assert(digit_char((b % 10) as int) as int == 48 + b % 10);
        assert(a == 10 * (a / 10) + a % 10);
        assert(b == 10 * (b / 10) + b % 10);
    } else if a < 10 && b < 10 {
        assert(nat_digits(a)[0] == digit_char(a as int));
        assert(nat_digits(b)[0] == digit_char(b as int));
        assert(digit_char(a as int) as int == 48 + a);
        assert(digit_char(b as int) as int == 48 + b);
    }
}

/// The characters of a decimal representation are digits, with a leading `-`
/// exactly for negative numbers.
pub proof fn lemma_decimal_chars(i: int)
    ensures
        decimal(i).len() >= 1,
        (decimal(i)[0] == '-') <==> i < 0,
        forall|k: int| 0 <= k < decimal(i).len() ==> ('0' <= #[trigger] decimal(i)[k] <= '9'
            || decimal(i)[k] == '-'),
{
    if i < 0 {
        lemma_nat_digits_shape((-i) as nat);
        assert forall|k: int| 0 <= k < decimal(i).len() implies ('0' <= #[trigger] decimal(i)[k]
            <= '9' || decimal(i)[k] == '-') by {
            if k > 0 {
                assert(decimal(i)[k] == nat_digits((-i) as nat)[k - 1]);
            }
        }
    } else {
        lemma_nat_digits_shape(i as nat);
    }
}

/// Distinct integers have distinct decimal representations.
pub proof fn lemma_decimal_injective(a: int, b: int)
    ensures
        decimal(a) == decimal(b) <==> a == b,
{
    if decimal(a) == decimal(b) {
        lemma_decimal_chars(a);
        lemma_decimal_chars(b);
        if a < 0 {
            assert(b < 0);
            assert(decimal(a).drop_first() == nat_digits((-a) as nat));
            assert(decimal(b).drop_first() == nat_digits((-b) as nat));
            lemma_nat_digits_injective((-a) as nat, (-b) as nat);
        } else {
            assert(b >= 0);
            lemma_nat_digits_injective(a as nat, b as nat);
        }
    }
}

proof fn lemma_prefixed_injective(p: Seq<char>, a: int, b: int)
    ensures
        p + decimal(a) == p + decimal(b) <==> a == b,
{
    if p + decimal(a) == p + decimal(b) {
        assert(decimal(a) == (p + decimal(a)).skip(p.len() as int));
        assert(decimal(b) == (p + decimal(b)).skip(p.len() as int));
        lemma_decimal_injective(a, b);
    }
}

proof fn lemma_prefixes_differ_at(p: Seq<char>, q: Seq<char>, k: int, a: int, b: int)
    requires
        0 <= k < p.len(),
        k < q.len(),
        p[k] != q[k],
    ensures
        p + decimal(a) != q + decimal(b),
{
    assert((p + decimal(a))[k] == p[k]);
    assert((q + decimal(b))[k] == q[k]);
}

/// Every storage key names one kind of record of one chat: the key of a kind
/// of record for chat `a` equals the key of a kind of record for chat `b` only
/// when both the kinds and the chats are the same.
pub proof fn lemma_chat_keys_unique(a: i64, b: i64)
    ensures
        msgs_key(a as int) == msgs_key(b as int) <==> a == b,
        hist_key(a as int) == hist_key(b as int) <==> a == b,
        last_msg_key(a as int) == last_msg_key(b as int) <==> a == b,
        last_hist_key(a as int) == last_hist_key(b as int) <==> a == b,
        msgs_key(a as int) != hist_key(b as int),
        msgs_key(a as int) != last_msg_key(b as int),
        msgs_key(a as int) != last_hist_key(b as int),
        hist_key(a as int) != last_msg_key(b as int),
        hist_key(a as int) != last_hist_key(b as int),
        last_msg_key(a as int) != last_hist_key(b as int),
{
    lemma_prefixed_injective(msgs_prefix(), a as int, b as int);
    lemma_prefixed_injective(hist_prefix(), a as int, b as int);
    lemma_prefixed_injective(last_msg_prefix(), a as int, b as int);
    lemma_prefixed_injective(last_hist_prefix(), a as int, b as int);
    lemma_prefixes_differ_at(msgs_prefix(), hist_prefix(), 0, a as int, b as int);
    lemma_prefixes_differ_at(msgs_prefix(), last_msg_prefix(), 0, a as int, b as int);
    lemma_prefixes_differ_at(msgs_prefix(), last_hist_prefix(), 0, a as int, b as int);
    lemma_prefixes_differ_at(hist_prefix(), last_msg_prefix(), 0, a as int, b as int);
    lemma_prefixes_differ_at(hist_prefix(), last_hist_prefix(), 0, a as int, b as int);
    lemma_prefixes_differ_at(last_msg_prefix(), last_hist_prefix(), 5, a as int, b as int);
}

} // verus!
