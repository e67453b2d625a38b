//! Reading the terminal's reply to a cursor-position query.
//!
//! The reply has the shape `ESC [ row ; col R`. [`ReplyParser`] consumes it
//! one byte at a time: digits accumulate into a number, `;` commits it as the
//! row, `R` commits it as the column and ends the reply, and every other byte
//! is skipped. [`PositionReport`] holds the decisions of the whole exchange:
//! suppress local echo, send the query, read bytes until the reply is
//! complete or the input fails, and restore echo on every path before
//! finishing.
use vstd::prelude::*;
use crate::csi::csi_seq;
use crate::decimal::{dec, digits_value, is_digit, lemma_dec_is_digits, lemma_dec_value};

verus! {

/// The accumulator after the digit byte `b`; it stops at `usize::MAX`.
pub open spec fn push_digit(acc: usize, b: u8) -> usize {
    let v = acc * 10 + (b - 48);
    if v > usize::MAX {
        usize::MAX
    } else {
        v as usize
    }
}

/// The state of a reply being read.
#[derive(Clone, Copy, Debug, PartialEq, Eq)]
pub struct ReplyParser {
    /// The row, once a `;` has committed it.
    pub row: usize,
    /// The number being read.
    pub acc: usize,
    /// The column, once `R` has committed it.
    pub col: usize,
    /// Whether `R` has been seen.
    pub done: bool,
}

impl ReplyParser {
    pub open spec fn initial() -> ReplyParser {
        ReplyParser { row: 0, acc: 0, col: 0, done: false }
    }

    /// The state after byte `b`.
    pub open spec fn step(self, b: u8) -> ReplyParser {
        if self.done {
            self
        } else if is_digit(b) {
            ReplyParser { acc: push_digit(self.acc, b), ..self }
        } else if b == 0x3b {
            ReplyParser { row: self.acc, acc: 0, ..self }
        } else if b == 0x52 {
            ReplyParser { col: self.acc, done: true, ..self }
        } else {
            self
        }
    }

    /// The position read, once the reply is complete.
    pub open spec fn reported(self) -> Option<(usize, usize)> {
        if self.done {
            Some((self.row, self.col))
        } else {
            None
        }
    }

    pub fn new() -> (r: ReplyParser)
        ensures
            r == ReplyParser::initial(),
    {
        ReplyParser { row: 0, acc: 0, col: 0, done: false }
    }

    /// Consumes byte `b`; returns the position once the reply is complete.
    pub fn feed(&mut self, b: u8) -> (r: Option<(usize, usize)>)
        ensures
            *final(self) == old(self).step(b),
            r == final(self).reported(),
    {
        if !self.done {
            if 48 <= b && b <= 57 {
                let d = (b - 48) as usize;
                self.acc = match self.acc.checked_mul(10) {
                    Some(m) => m.saturating_add(d),
                    None => usize::MAX,
                };
            } else if b == 0x3b {
                self.row = self.acc;
                self.acc = 0;
            } else if b == 0x52 {
                self.col = self.acc;
                self.done = true;
            }
        }
        self.position()
    }

    pub fn position(&self) -> (r: Option<(usize, usize)>)
        ensures
            r == self.reported(),
    {
        if self.done {
            Some((self.row, self.col))
        } else {
            None
        }
    }
}

/// The state after reading all of `bytes`, starting from `p`.
pub open spec fn run(p: ReplyParser, bytes: Seq<u8>) -> ReplyParser
    decreases bytes.len(),
{
    if bytes.len() == 0 {
        p
    } else {
        run(p, bytes.drop_last()).step(bytes.last())
    }
}

/// The position that `bytes` report, if they hold a complete reply.
pub open spec fn reply_position(bytes: Seq<u8>) -> Option<(usize, usize)> {
    run(ReplyParser::initial(), bytes).reported()
}

/// Reads a reply from `bytes`: the position it reports, or `None` when no
/// `R` ends it.
pub fn parse_reply(bytes: &[u8]) -> (r: Option<(usize, usize)>)
    ensures
        r == reply_position(bytes@),
{
    let mut p = ReplyParser::new();
    let mut i: usize = 0;
    while i < bytes.len()
        invariant
            i <= bytes@.len(),
            p == run(ReplyParser::initial(), bytes@.subrange(0, i as int)),
        decreases bytes@.len() - i,
    {
        let ghost before = bytes@.subrange(0, i as int);
        p.feed(bytes[i]);
        i = i + 1;
        assert(bytes@.subrange(0, i as int).drop_last() =~= before);
    }
    assert(bytes@.subrange(0, i as int) =~= bytes@);
    p.position()
}

/// Where a position report stands.
#[derive(Clone, Copy, Debug, PartialEq, Eq)]
pub enum ReportPhase {
    /// Nothing done yet.
    Idle,
    /// Waiting for local echo to be turned off.
    DisablingEcho,
    /// Echo is off; waiting for the query to be sent.
    Querying,
    /// Echo is off; reading the reply.
    Reading,
    /// Echo is off; waiting for it to be restored.
    RestoringEcho,
    /// Echo is as it was before; the outcome is final.
    Finished,
}

/// What the caller observed after carrying out the last step.
#[derive(Clone, Copy, Debug, PartialEq, Eq)]
pub enum ReportEvent {
    /// Start the exchange.
    Begin,
    /// Local echo is off; the previous terminal mode is kept by the caller.
    EchoDisabled,
    /// The terminal mode could not be read or changed.
    EchoUnavailable,
    /// The query was written and flushed.
    QuerySent,
    /// Writing or flushing the query failed.
    QueryFailed,
    /// One byte of input.
    Byte(u8),
    /// The input ended, failed, or the wait for it timed out.
    InputEnded,
    /// The previous terminal mode is back in force.
    EchoRestored,
}

/// What the caller is to do next.
#[derive(Clone, Copy, Debug, PartialEq, Eq)]
pub enum ReportStep {
    /// Save the terminal mode and turn local echo off.
    DisableEcho,
    /// Write the query (see `csi::dsr_request`) and flush it.
    SendQuery,
    /// Read one byte of input.
    ReadByte,
    /// Put back the terminal mode that was saved.
    RestoreEcho,
    /// The exchange is over: the position, or `None` when there was no
    /// complete reply.
    Finish(Option<(usize, usize)>),
}

/// The decisions of one cursor-position report.
#[derive(Clone, Copy, Debug, PartialEq, Eq)]
pub struct PositionReport {
    pub phase: ReportPhase,
    pub parser: ReplyParser,
    /// The position to hand back once echo is restored.
    pub outcome: Option<(usize, usize)>,
}

impl PositionReport {
    pub open spec fn initial() -> PositionReport {
        PositionReport {
            phase: ReportPhase::Idle,
            parser: ReplyParser::initial(),
            outcome: None,
        }
    }

    /// Whether local echo is off at this point of the exchange.
    pub open spec fn echo_suppressed(self) -> bool {
        match self.phase {
            ReportPhase::Querying | ReportPhase::Reading | ReportPhase::RestoringEcho => true,
            _ => false,
        }
    }

    /// Gives up: restore echo if it is off, else finish with no position.
    pub open spec fn abandon(self) -> (PositionReport, ReportStep) {
        if self.echo_suppressed() {
            (
                PositionReport { phase: ReportPhase::RestoringEcho, outcome: None, ..self },
                ReportStep::RestoreEcho,
            )
        } else {
            (
                PositionReport { phase: ReportPhase::Finished, outcome: None, ..self },
                ReportStep::Finish(None),
            )
        }
    }

    /// The next state and step after event `ev`.
    pub open spec fn transition(self, ev: ReportEvent) -> (PositionReport, ReportStep) {
        match (self.phase, ev) {
            (ReportPhase::Idle, ReportEvent::Begin) => (
                PositionReport { phase: ReportPhase::DisablingEcho, ..self },
                ReportStep::DisableEcho,
            ),
            (ReportPhase::DisablingEcho, ReportEvent::EchoDisabled) => (
                PositionReport { phase: ReportPhase::Querying, ..self },
                ReportStep::SendQuery,
            ),
            (ReportPhase::Querying, ReportEvent::QuerySent) => (
                PositionReport { phase: ReportPhase::Reading, ..self },
                ReportStep::ReadByte,
            ),
            (ReportPhase::Reading, ReportEvent::Byte(b)) => {
                let p = self.parser.step(b);
                if p.done {
                    (
                        PositionReport {
                            phase: ReportPhase::RestoringEcho,
                            parser: p,
                            outcome: p.reported(),
                        },
                        ReportStep::RestoreEcho,
                    )
                } else {
                    (PositionReport { parser: p, ..self }, ReportStep::ReadByte)
                }
            },
            (ReportPhase::RestoringEcho, ReportEvent::EchoRestored) => (
                PositionReport { phase: ReportPhase::Finished, ..self },
                ReportStep::Finish(self.outcome),
            ),
            (ReportPhase::RestoringEcho, _) => (self, ReportStep::RestoreEcho),
            (ReportPhase::Finished, _) => (self, ReportStep::Finish(self.outcome)),
            _ => self.abandon(),
        }
    }

    pub fn new() -> (r: PositionReport)
        ensures
            r == PositionReport::initial(),
    {
        PositionReport { phase: ReportPhase::Idle, parser: ReplyParser::new(), outcome: None }
    }

    fn abandon_exec(&mut self) -> (r: ReportStep)
        ensures
            (*final(self), r) == old(self).abandon(),
    {
        self.outcome = None;
        match self.phase {
            ReportPhase::Querying | ReportPhase::Reading | ReportPhase::RestoringEcho => {
                self.phase = ReportPhase::RestoringEcho;
                ReportStep::RestoreEcho
            },
            _ => {
                self.phase = ReportPhase::Finished;
                ReportStep::Finish(None)
            },
        }
    }

    /// Takes in what the caller observed and says what to do next.
    pub fn next(&mut self, ev: ReportEvent) -> (r: ReportStep)
        ensures
            (*final(self), r) == old(self).transition(ev),
    {
        match (self.phase, ev) {
            (ReportPhase::Idle, ReportEvent::Begin) => {
                self.phase = ReportPhase::DisablingEcho;
                ReportStep::DisableEcho
            },
            (ReportPhase::DisablingEcho, ReportEvent::EchoDisabled) => {
                self.phase = ReportPhase::Querying;
                ReportStep::SendQuery
            },
            (ReportPhase::Querying, ReportEvent::QuerySent) => {
                self.phase = ReportPhase::Reading;
                ReportStep::ReadByte
            },
            (ReportPhase::Reading, ReportEvent::Byte(b)) => {
                match self.parser.feed(b) {
                    Some(pos) => {
                        self.phase = ReportPhase::RestoringEcho;
                        self.outcome = Some(pos);
                        ReportStep::RestoreEcho
                    },
                    None => ReportStep::ReadByte,
                }
            },
            (ReportPhase::RestoringEcho, ReportEvent::EchoRestored) => {
                self.phase = ReportPhase::Finished;
                ReportStep::Finish(self.outcome)
            },
            (ReportPhase::RestoringEcho, _) => ReportStep::RestoreEcho,
            (ReportPhase::Finished, _) => ReportStep::Finish(self.outcome),
            _ => self.abandon_exec(),
        }
    }
}

/// The reply of a terminal whose cursor stands at `row`, `col`.
pub open spec fn position_reply(row: nat, col: nat) -> Seq<u8> {
    csi_seq(dec(row) + seq![0x3bu8] + dec(col).push(0x52u8))
}

proof fn lemma_run_push(p: ReplyParser, a: Seq<u8>, b: u8)
    ensures
        run(p, a.push(b)) == run(p, a).step(b),
{
    assert(a.push(b).drop_last() =~= a);
}

/// Reading `a` then `c` is reading `a + c`.
pub proof fn lemma_run_concat(p: ReplyParser, a: Seq<u8>, c: Seq<u8>)
    ensures
        run(p, a + c) == run(run(p, a), c),
    decreases c.len(),
{
    if c.len() == 0 {
        assert(a + c =~= a);
    } else {
        lemma_run_concat(p, a, c.drop_last());
        assert((a + c).drop_last() =~= a + c.drop_last());
    }
}

/// Dropping the last digit does not make a number larger.
proof fn lemma_digits_value_prefix(s: Seq<u8>)
    requires
        s.len() > 0,
    ensures
        digits_value(s.drop_last()) <= digits_value(s),
{
}

/// Reading a string of digits from a fresh number leaves its value there.
proof fn lemma_run_digits(p: ReplyParser, s: Seq<u8>)
    requires
        !p.done,
        p.acc == 0,
        forall|i: int| 0 <= i < s.len() ==> is_digit(#[trigger] s[i]),
        digits_value(s) <= usize::MAX,
    ensures
        run(p, s) == (ReplyParser { acc: digits_value(s) as usize, ..p }),
    decreases s.len(),
{
    if s.len() > 0 {
        lemma_digits_value_prefix(s);
        assert forall|i: int| 0 <= i < s.drop_last().len() implies is_digit(
            #[trigger] s.drop_last()[i],
        ) by {
            assert(s.drop_last()[i] == s[i]);
        }
        lemma_run_digits(p, s.drop_last());
        assert(is_digit(s[s.len() - 1]));
    }
}

/// The reply for a position made of `usize` coordinates reads back as that
/// position.
pub proof fn lemma_reply_round_trip(row: usize, col: usize)
    ensures
        reply_position(position_reply(row as nat, col as nat)) == Some((row, col)),
{
    let init = ReplyParser::initial();
    let intro = seq![0x1bu8, 0x5bu8];
    let r = dec(row as nat);
    let c = dec(col as nat);
    lemma_dec_is_digits(row as nat);
    lemma_dec_is_digits(col as nat);
    lemma_dec_value(row as nat);
    lemma_dec_value(col as nat);
    assert(position_reply(row as nat, col as nat) =~= (((intro + r).push(0x3bu8)) + c).push(
        0x52u8,
    ));
    lemma_run_push(init, seq![0x1bu8], 0x5bu8);
    assert(seq![0x1bu8] =~= Seq::<u8>::empty().push(0x1bu8));
    lemma_run_push(init, Seq::<u8>::empty(), 0x1bu8);
    assert(seq![0x1bu8].push(0x5bu8) =~= intro);
    assert(run(init, intro) == init);
    lemma_run_concat(init, intro, r);
    lemma_run_digits(init, r);
    let after_row = ReplyParser { acc: row, ..init };
    lemma_run_push(init, intro + r, 0x3bu8);
    let at_col = ReplyParser { row: row, acc: 0, ..init };
    assert(run(init, (intro + r).push(0x3bu8)) == at_col);
    lemma_run_concat(init, (intro + r).push(0x3bu8), c);
    lemma_run_digits(at_col, c);
    lemma_run_push(init, (intro + r).push(0x3bu8) + c, 0x52u8);
}

/// A byte that is neither a digit, `;` nor `R` is skipped wherever it
/// stands: the reply reads the same without it.
pub proof fn lemma_stray_byte_skipped(a: Seq<u8>, b: u8, c: Seq<u8>)
    requires
        !is_digit(b),
        b != 0x3b,
        b != 0x52,
    ensures
        forall|p: ReplyParser| #[trigger] run(p, a.push(b) + c) == run(p, a + c),
        reply_position(a.push(b) + c) == reply_position(a + c),
{
    assert forall|p: ReplyParser| #[trigger] run(p, a.push(b) + c) == run(p, a + c) by {
        lemma_run_concat(p, a.push(b), c);
        lemma_run_push(p, a, b);
        lemma_run_concat(p, a, c);
    }
    assert(run(ReplyParser::initial(), a.push(b) + c) == run(ReplyParser::initial(), a + c));
}

/// Local echo is restored on every path: a report finishes only with echo
/// back as it was; once off, echo stays off until the caller confirms that
/// it restored the terminal mode; and a failed query, an ended input or any
/// event out of turn while echo is off leads to restoring it.
pub proof fn lemma_echo_always_restored(s: PositionReport, ev: ReportEvent)
    ensures
        s.transition(ev).1 is Finish ==> !s.transition(ev).0.echo_suppressed(),
        s.echo_suppressed() && !s.transition(ev).0.echo_suppressed() ==> s.phase
            == ReportPhase::RestoringEcho && ev == ReportEvent::EchoRestored,
        s.echo_suppressed() && (ev == ReportEvent::QueryFailed || ev == ReportEvent::InputEnded)
            ==> s.transition(ev).1 == ReportStep::RestoreEcho,
{
}

} // verus!
