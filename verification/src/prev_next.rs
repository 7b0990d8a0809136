//! Reading the callback data of the history buttons.
use vstd::prelude::*;
use crate::error::BotError;
use crate::history::{prev_data, next_data};
use crate::types::KeyboardButtons;

verus! {

/// Whether `s` holds the separator `::` at position `i`.
pub open spec fn sep_at(s: Seq<char>, i: int) -> bool {
    0 <= i && i + 1 < s.len() && s[i] == ':' && s[i + 1] == ':'
}

/// The first position at or after `from` where `s` holds `::`.
pub open spec fn find_sep(s: Seq<char>, from: nat) -> Option<nat>
    decreases s.len() - from,
{
    if from + 1 >= s.len() {
        None
    } else if sep_at(s, from as int) {
        Some(from)
    } else {
        find_sep(s, from + 1)
    }
}

/// The first two pieces of `s` split at `::` (as `str::split` cuts them):
/// `None` when `s` holds no separator, so that there is no second piece.
pub open spec fn split_callback(s: Seq<char>) -> Option<(Seq<char>, Seq<char>)> {
    match find_sep(s, 0) {
        None => None,
        Some(i) => Some(
            (
                s.take(i as int),
                s.subrange(
                    i + 2int,
                    match find_sep(s, i + 2) {
                        Some(j) => j as int,
                        None => s.len() as int,
                    },
                ),
            ),
        ),
    }
}

/// The button that a command piece names.
pub open spec fn button_of(cmd: Seq<char>) -> KeyboardButtons {
    if cmd == seq!['p'] {
        KeyboardButtons::Prev
    } else if cmd == seq!['n'] {
        KeyboardButtons::Next
    } else {
        KeyboardButtons::Unknown
    }
}

fn find_separator(s: &str, n: usize, from: usize) -> (r: Option<usize>)
    requires
        n == s@.len(),
        from <= n,
    ensures
        match r {
            Some(j) => find_sep(s@, from as nat) == Some(j as nat) && from <= j && j + 1 < n,
            None => find_sep(s@, from as nat) is None,
        },
{
    proof {
        lemma_find_sep_found(s@, from as nat);
    }
    if n == 0 {
        return None;
    }
    let mut i = from;
    while i < n - 1
        invariant
            from <= i <= n,
            n > 0,
            n == s@.len(),
            find_sep(s@, from as nat) == find_sep(s@, i as nat),
        decreases n - i,
    {
        if s.get_char(i) == ':' && s.get_char(i + 1) == ':' {
            return Some(i);
        }
        i = i + 1;
    }
    None
}

/// Splits the callback data of a history button into the button and the
/// id of the stream entry that the history message showed.
pub fn parse_cmd_msg_id<'a>(payload: &'a str) -> (r: Result<(KeyboardButtons, &'a str), BotError>)
    ensures
        match split_callback(payload@) {
            None => r == Err::<(KeyboardButtons, &'a str), BotError>(BotError::InlineDataId),
            Some((cmd, id)) => r matches Ok((b, m)) && b == button_of(cmd) && m@ == id,
        },
{
    let n = payload.unicode_len();
    let first = match find_separator(payload, n, 0) {
        Some(i) => i,
        None => return Err(BotError::InlineDataId),
    };
    let end = match find_separator(payload, n, first + 2) {
        Some(j) => j,
        None => n,
    };
    let cur_msg_id = payload.substring_char(first + 2, end);
    let c = if first == 1 && payload.get_char(0) == 'p' {
        KeyboardButtons::Prev
    } else if first == 1 && payload.get_char(0) == 'n' {
        KeyboardButtons::Next
    } else {
        KeyboardButtons::Unknown
    };
    proof {
        let cmd = payload@.take(first as int);
        if first == 1 {
            assert(cmd =~= seq![payload@[0]]);
            assert(seq![payload@[0]][0] == payload@[0]);
            assert(seq!['p'][0] == 'p');
            assert(seq!['n'][0] == 'n');
        } else {
            assert(cmd.len() != 1);
        }
    }
    Ok((c, cur_msg_id))
}

proof fn lemma_find_sep_found(s: Seq<char>, from: nat)
    ensures
        find_sep(s, from) matches Some(j) ==> from <= j && sep_at(s, j as int),
    decreases s.len() - from,
{
    if from + 1 < s.len() && !sep_at(s, from as int) {
        lemma_find_sep_found(s, from + 1);
    }
}

proof fn lemma_find_sep_shift(p: Seq<char>, m: Seq<char>, j: nat)
    requires
        p.len() >= 1,
        p[p.len() - 1] == ':',
        find_sep(m, 0) is None,
        j <= m.len(),
    ensures
        find_sep(p + m, p.len() + j) is None,
    decreases m.len() - j,
{
    let s = p + m;
    if p.len() + j + 1 < s.len() {
        assert(s[(p.len() + j) as int] == m[j as int]);
        assert(s[(p.len() + j + 1) as int] == m[(j + 1) as int]);
        lemma_find_sep_none_at(m, 0, j);
        lemma_find_sep_shift(p, m, j + 1);
    }
}

proof fn lemma_find_sep_none_at(m: Seq<char>, from: nat, j: nat)
    requires
        find_sep(m, from) is None,
        from <= j,
    ensures
        !sep_at(m, j as int),
        find_sep(m, j) is None,
    decreases j - from,
{
    if from < j {
        if from + 1 < m.len() {
            lemma_find_sep_none_at(m, from + 1, j);
        }
    }
}

/// Reading back the callback data of a history button gives the button and
/// the entry id it was made from, for every entry id without `::` in it
/// (stream ids are digits and `-`).
pub proof fn lemma_callback_round_trip(id: Seq<char>)
    requires
        find_sep(id, 0) is None,
    ensures
        split_callback(prev_data(id)) == Some((seq!['p'], id)),
        split_callback(next_data(id)) == Some((seq!['n'], id)),
        button_of(seq!['p']) == KeyboardButtons::Prev,
        button_of(seq!['n']) == KeyboardButtons::Next,
{
    reveal_strlit("p::");
    reveal_strlit("n::");
    let p = "p::"@;
    let n = "n::"@;
    assert(p =~= seq!['p', ':', ':']);
    assert(n =~= seq!['n', ':', ':']);
    let sp = p + id;
    let sn = n + id;
    assert(!sep_at(sp, 0));
    assert(sep_at(sp, 1));
    assert(!sep_at(sn, 0));
    assert(sep_at(sn, 1));
    assert(find_sep(sp, 1) == Some(1nat));
    assert(find_sep(sn, 1) == Some(1nat));
    assert(find_sep(sp, 0) == Some(1nat));
    assert(find_sep(sn, 0) == Some(1nat));
    lemma_find_sep_shift(p, id, 0);
    lemma_find_sep_shift(n, id, 0);
    assert(sp.take(1) =~= seq!['p']);
    assert(sn.take(1) =~= seq!['n']);
    assert(sp.subrange(3, sp.len() as int) =~= id);
    assert(sn.subrange(3, sn.len() as int) =~= id);
    assert(seq!['p'] != seq!['n']) by {
        assert(seq!['p'][0] != seq!['n'][0]);
    }
}

} // verus!
