//! Properties that relate the cursor writers to the position reply.
use vstd::prelude::*;
use crate::csi::{count_seq, cup_seq, nz_spec};
use crate::decimal::{dec, digits_value, is_digit, lemma_dec_is_digits, lemma_dec_value};
use crate::report::{lemma_reply_round_trip, position_reply, reply_position};

verus! {

/// How many rows a sequence moves the cursor: `n A` moves up (negative),
/// `n B` moves down, and anything else does not move it vertically.
pub open spec fn row_shift(s: Seq<u8>) -> int {
    if s.len() >= 4 && s.subrange(0, 2) == seq![0x1bu8, 0x5bu8] && (forall|i: int|
        2 <= i < s.len() - 1 ==> is_digit(#[trigger] s[i])) {
        let n = digits_value(s.subrange(2, s.len() - 1)) as int;
        if s.last() == 0x41 {
            -n
        } else if s.last() == 0x42 {
            n
        } else {
            0
        }
    } else {
        0
    }
}

proof fn lemma_count_shift(k: usize, fin: u8)
    ensures
        count_seq(k as nat, fin).len() >= 4,
        count_seq(k as nat, fin).subrange(0, 2) == seq![0x1bu8, 0x5bu8],
        count_seq(k as nat, fin).last() == fin,
        forall|i: int|
            2 <= i < count_seq(k as nat, fin).len() - 1 ==> is_digit(
                #[trigger] count_seq(k as nat, fin)[i],
            ),
        digits_value(count_seq(k as nat, fin).subrange(2, count_seq(k as nat, fin).len() - 1))
            == nz_spec(k as nat),
{
    let s = count_seq(k as nat, fin);
    let d = dec(nz_spec(k as nat));
    lemma_dec_is_digits(nz_spec(k as nat));
    lemma_dec_value(nz_spec(k as nat));
    assert(s.subrange(2, s.len() - 1) =~= d);
    assert(s.subrange(0, 2) =~= seq![0x1bu8, 0x5bu8]);
    assert forall|i: int| 2 <= i < s.len() - 1 implies is_digit(#[trigger] s[i]) by {
        assert(s[i] == d[i - 2]);
    }
}

/// Cursor up by `k` then cursor down by `k` puts the cursor back on the
/// row it started from: the two moves are `k` (or one, for zero) rows up
/// and as many down.
pub proof fn lemma_up_then_down(k: usize)
    ensures
        row_shift(count_seq(k as nat, 0x41)) == -nz_spec(k as nat),
        row_shift(count_seq(k as nat, 0x42)) == nz_spec(k as nat),
        row_shift(count_seq(k as nat, 0x41)) + row_shift(count_seq(k as nat, 0x42)) == 0,
{
    lemma_count_shift(k, 0x41);
    lemma_count_shift(k, 0x42);
}

/// After `cup(row, col)` the terminal's reply carries the parameters that
/// the cursor-position sequence carried, and reads back as exactly that
/// position: `(row, col)` for coordinates of at least one, `(1, 1)` for
/// `(0, 0)`.
pub proof fn lemma_cup_then_report(row: usize, col: usize)
    ensures
        cup_seq(row as nat, col as nat).drop_last() == position_reply(
            nz_spec(row as nat),
            nz_spec(col as nat),
        ).drop_last(),
        reply_position(position_reply(nz_spec(row as nat), nz_spec(col as nat))) == Some(
            (nz_spec(row as nat) as usize, nz_spec(col as nat) as usize),
        ),
        row >= 1 && col >= 1 ==> reply_position(
            position_reply(nz_spec(row as nat), nz_spec(col as nat)),
        ) == Some((row, col)),
        reply_position(position_reply(nz_spec(0), nz_spec(0))) == Some((1usize, 1usize)),
{
    let r = nz_spec(row as nat);
    let c = nz_spec(col as nat);
    assert(cup_seq(row as nat, col as nat).drop_last() =~= position_reply(r, c).drop_last());
    lemma_reply_round_trip(r as usize, c as usize);
    lemma_reply_round_trip(1, 1);
}

} // verus!
