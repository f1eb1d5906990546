//! What every run of the handler does to the hardware.
//!
//! The hardware loop drives the machine of [`crate::machine`]: it performs
//! the prescribed action, feeds the observation back, and repeats.  A run
//! is therefore captured by the sequence of observations (events) it fed
//! in, and this module defines the state, the performed actions, the
//! characters written to the transmitter and the writes to the
//! reset-control register as functions of that sequence — then proves the
//! handler's ordering guarantees over every valid run: the serial line
//! carries exactly the fixed report, the reset-control register sees a
//! clear followed by a single set (an honest rising edge, with the
//! power-on bit left alone), and no reset write happens before the
//! transmitter was seen idle after the last character.

use vstd::prelude::*;
use crate::causes::cause_known;
use crate::machine::{Handler, Phase, Action, Event};
use crate::message::{report_text, header_text, notice_text, lemma_report_len, lemma_unknown_cause_suppressed};

verus! {

/// The state after a run that fed in these events.
pub open spec fn run(cause: u32, evs: Seq<Event>) -> Handler
    decreases evs.len(),
{
    if evs.len() == 0 {
        Handler::init_spec(cause)
    } else {
        run(cause, evs.drop_last()).step_spec(evs.last())
    }
}

/// A run is valid when every event answers the action its state
/// prescribed.  The hardware loop satisfies this by construction: it only
/// ever feeds back what it just observed while performing that action.
pub open spec fn valid_events(cause: u32, evs: Seq<Event>) -> bool
    decreases evs.len(),
{
    evs.len() == 0 || (valid_events(cause, evs.drop_last())
        && run(cause, evs.drop_last()).event_fits(evs.last()))
}

/// The actions the loop performed during the run, one per event.
pub open spec fn trace_actions(cause: u32, evs: Seq<Event>) -> Seq<Action>
    decreases evs.len(),
{
    if evs.len() == 0 {
        Seq::empty()
    } else {
        trace_actions(cause, evs.drop_last()).push(run(cause, evs.drop_last()).action_spec())
    }
}

/// The characters written to the transmit FIFO during the run, in order.
pub open spec fn written(cause: u32, evs: Seq<Event>) -> Seq<char>
    decreases evs.len(),
{
    if evs.len() == 0 {
        Seq::empty()
    } else {
        let w = written(cause, evs.drop_last());
        match run(cause, evs.drop_last()).action_spec() {
            Action::WriteChar(c) => w.push(c),
            _ => w,
        }
    }
}

/// One write to the reset-control register.
#[derive(Clone, Copy, Debug, PartialEq, Eq, Structural)]
pub enum ResetWrite {
    /// Clear the CPU-reset, system-reset and power-on-reset bits.
    ClearBits,
    /// Set the CPU-reset and system-reset bits; leave the power-on bit alone.
    SetBits,
}

/// The writes to the reset-control register during the run, in order.
pub open spec fn reset_writes(cause: u32, evs: Seq<Event>) -> Seq<ResetWrite>
    decreases evs.len(),
{
    if evs.len() == 0 {
        Seq::empty()
    } else {
        let rw = reset_writes(cause, evs.drop_last());
        match run(cause, evs.drop_last()).action_spec() {
            Action::ClearResetBits => rw.push(ResetWrite::ClearBits),
            Action::SetResetBits => rw.push(ResetWrite::SetBits),
            _ => rw,
        }
    }
}

/// Whether an action writes a character to the transmitter.
pub open spec fn is_char_write(a: Action) -> bool {
    a matches Action::WriteChar(_)
}

/// Whether an action writes the reset-control register.
pub open spec fn is_reset_write(a: Action) -> bool {
    a == Action::ClearResetBits || a == Action::SetResetBits
}

/// Exactly one action is performed per event fed in.
pub proof fn lemma_trace_actions_len(cause: u32, evs: Seq<Event>)
    ensures
        trace_actions(cause, evs).len() == evs.len(),
    decreases evs.len(),
{
    if evs.len() > 0 {
        lemma_trace_actions_len(cause, evs.drop_last());
    }
}

/// Position `j` of the run saw the transmitter idle, after every character
/// write of the whole run and before every reset-control write of it.
pub open spec fn drain_witness(cause: u32, evs: Seq<Event>, j: int) -> bool {
    let acts = trace_actions(cause, evs);
    &&& 0 <= j < acts.len()
    &&& acts[j] == Action::PollTxBusy
    &&& evs[j] == Event::TxBusy(false)
    &&& forall|k: int| 0 <= k < acts.len() ==> (is_char_write(#[trigger] acts[k]) ==> k < j)
        && (is_reset_write(acts[k]) ==> k > j)
}

/// No action of the run has written the reset-control register yet.
pub open spec fn no_reset_yet(cause: u32, evs: Seq<Event>) -> bool {
    forall|k: int| 0 <= k < trace_actions(cause, evs).len()
        ==> !is_reset_write(#[trigger] trace_actions(cause, evs)[k])
}

/// Everything a valid run guarantees, phase by phase: the characters
/// written so far are the matching prefix of the report, the
/// reset-control register is untouched until the transmitter has been
/// seen idle, and then it sees exactly one clear and one set.
pub open spec fn trace_inv(cause: u32, evs: Seq<Event>) -> bool {
    let s = run(cause, evs);
    let text = report_text(cause as int);
    let w = written(cause, evs);
    let rw = reset_writes(cause, evs);
    &&& s.cause == cause
    &&& s.wf()
    &&& match s.phase {
        Phase::PollFifo { pos } => w == text.take(pos as int) && rw == Seq::<ResetWrite>::empty()
            && no_reset_yet(cause, evs),
        Phase::SendChar { pos } => w == text.take(pos as int) && rw == Seq::<ResetWrite>::empty()
            && no_reset_yet(cause, evs),
        Phase::DrainTx => w == text && rw == Seq::<ResetWrite>::empty() && no_reset_yet(cause, evs),
        Phase::ClearReset => w == text && rw == Seq::<ResetWrite>::empty()
            && no_reset_yet(cause, evs) && (exists|j: int| drain_witness(cause, evs, j)),
        Phase::AssertReset => w == text && rw == seq![ResetWrite::ClearBits]
            && (exists|j: int| drain_witness(cause, evs, j)),
        Phase::Delay => w == text && rw == seq![ResetWrite::ClearBits, ResetWrite::SetBits]
            && (exists|j: int| drain_witness(cause, evs, j)),
        Phase::Halted => w == text && rw == seq![ResetWrite::ClearBits, ResetWrite::SetBits]
            && (exists|j: int| drain_witness(cause, evs, j)),
    }
}

/// One more event never disturbs an established drain witness, as long as
/// the action it answered was not a character write.
proof fn lemma_witness_extend(cause: u32, evs: Seq<Event>, j: int)
    requires
        evs.len() > 0,
        drain_witness(cause, evs.drop_last(), j),
        !is_char_write(run(cause, evs.drop_last()).action_spec()),
    ensures
        drain_witness(cause, evs, j),
{
    let evs0 = evs.drop_last();
    lemma_trace_actions_len(cause, evs0);
    lemma_trace_actions_len(cause, evs);
    let acts0 = trace_actions(cause, evs0);
    let acts = trace_actions(cause, evs);
    let a = run(cause, evs0).action_spec();
    assert(acts == acts0.push(a));
    assert(evs[j] == evs0[j]);
    assert forall|k: int| 0 <= k < acts.len() implies (is_char_write(#[trigger] acts[k]) ==> k < j)
        && (is_reset_write(acts[k]) ==> k > j) by {
        if k < acts0.len() {
            assert(acts[k] == acts0[k]);
        } else {
            assert(acts[k] == a);
        }
    }
}

/// One more event never writes the reset-control register early, as long
/// as the action it answered was not itself a reset write.
proof fn lemma_no_reset_extend(cause: u32, evs: Seq<Event>)
    requires
        evs.len() > 0,
        no_reset_yet(cause, evs.drop_last()),
        !is_reset_write(run(cause, evs.drop_last()).action_spec()),
    ensures
        no_reset_yet(cause, evs),
{
    let evs0 = evs.drop_last();
    lemma_trace_actions_len(cause, evs0);
    lemma_trace_actions_len(cause, evs);
    let acts0 = trace_actions(cause, evs0);
    let acts = trace_actions(cause, evs);
    let a = run(cause, evs0).action_spec();
    assert(acts == acts0.push(a));
    assert forall|k: int| 0 <= k < acts.len() implies !is_reset_write(#[trigger] acts[k]) by {
        if k < acts0.len() {
            assert(acts[k] == acts0[k]);
        } else {
            assert(acts[k] == a);
        }
    }
}

/// The invariant holds of every valid run.
pub proof fn lemma_trace_invariant(cause: u32, evs: Seq<Event>)
    requires
        valid_events(cause, evs),
    ensures
        trace_inv(cause, evs),
    decreases evs.len(),
{
    lemma_report_len(cause as int);
    let text = report_text(cause as int);
    if evs.len() == 0 {
        assert(written(cause, evs) =~= text.take(0));
        lemma_trace_actions_len(cause, evs);
    } else {
        let evs0 = evs.drop_last();
        let e = evs.last();
        lemma_trace_invariant(cause, evs0);
        lemma_trace_actions_len(cause, evs0);
        lemma_trace_actions_len(cause, evs);
        let s0 = run(cause, evs0);
        let a = s0.action_spec();
        let acts0 = trace_actions(cause, evs0);
        let acts = trace_actions(cause, evs);
        assert(acts == acts0.push(a));
        match s0.phase {
            Phase::PollFifo { .. } => {
                lemma_no_reset_extend(cause, evs);
            },
            Phase::SendChar { pos } => {
                lemma_no_reset_extend(cause, evs);
                assert(text.take(pos as int).push(text[pos as int]) =~= text.take(pos as int + 1));
                if pos + 1 == text.len() {
                    assert(text.take(pos as int + 1) =~= text);
                }
            },
            Phase::DrainTx => {
                lemma_no_reset_extend(cause, evs);
                match e {
                    Event::TxBusy(b) => {
                        if !b {
                            let j: int = evs.len() - 1;
                            assert(acts[j] == a);
                            assert(evs[j] == e);
                            assert forall|k: int| 0 <= k < acts.len() implies
                                (is_char_write(#[trigger] acts[k]) ==> k < j)
                                && (is_reset_write(acts[k]) ==> k > j) by {
                                if k < acts0.len() {
                                    assert(acts[k] == acts0[k]);
                                    assert(!is_reset_write(acts0[k]));
                                } else {
                                    assert(acts[k] == a);
                                }
                            }
                            assert(drain_witness(cause, evs, j));
                        }
                    },
                    _ => {
                        assert(false);
                    },
                }
            },
            Phase::ClearReset => {
                let j0 = choose|j: int| drain_witness(cause, evs0, j);
                lemma_witness_extend(cause, evs, j0);
                assert(Seq::<ResetWrite>::empty().push(ResetWrite::ClearBits)
                    =~= seq![ResetWrite::ClearBits]);
            },
            Phase::AssertReset => {
                let j0 = choose|j: int| drain_witness(cause, evs0, j);
                lemma_witness_extend(cause, evs, j0);
                assert(seq![ResetWrite::ClearBits].push(ResetWrite::SetBits)
                    =~= seq![ResetWrite::ClearBits, ResetWrite::SetBits]);
            },
            Phase::Delay => {
                let j0 = choose|j: int| drain_witness(cause, evs0, j);
                lemma_witness_extend(cause, evs, j0);
            },
            Phase::Halted => {
                assert(false);
            },
        }
    }
}

/// The machine has queued the whole report and moved on to draining and
/// resetting.
pub open spec fn emission_done(s: Handler) -> bool {
    !(s.phase matches Phase::PollFifo { .. }) && !(s.phase matches Phase::SendChar { .. })
}

/// The serial line only ever carries the fixed report, in order: the
/// header first, then the description of a known cause, then the reset
/// notice.  At every point of a valid run the characters written so far
/// are a prefix of that report, and once the machine has finished emitting
/// they are exactly the whole report.
pub proof fn lemma_message_ordering(cause: u32, evs: Seq<Event>)
    requires
        valid_events(cause, evs),
    ensures
        written(cause, evs).is_prefix_of(report_text(cause as int)),
        emission_done(run(cause, evs)) ==> written(cause, evs) == report_text(cause as int),
{
    lemma_trace_invariant(cause, evs);
    lemma_report_len(cause as int);
    let text = report_text(cause as int);
    match run(cause, evs).phase {
        Phase::PollFifo { pos } => {
            assert(text.take(pos as int) =~= text.take(text.take(pos as int).len() as int));
        },
        Phase::SendChar { pos } => {
            assert(text.take(pos as int) =~= text.take(text.take(pos as int).len() as int));
        },
        _ => {
            assert(text =~= text.take(text.len() as int));
        },
    }
}

/// The report depends on the cause alone: two valid runs for the same
/// cause write byte-identical output once each has finished emitting,
/// whatever the FIFO and busy-flag timing did in either run.
pub proof fn lemma_output_deterministic(cause: u32, evs1: Seq<Event>, evs2: Seq<Event>)
    requires
        valid_events(cause, evs1),
        valid_events(cause, evs2),
        emission_done(run(cause, evs1)),
        emission_done(run(cause, evs2)),
    ensures
        written(cause, evs1) == written(cause, evs2),
{
    lemma_message_ordering(cause, evs1);
    lemma_message_ordering(cause, evs2);
}

/// An unknown cause emits no description at all: once a valid run for a
/// cause outside the table has finished emitting, the serial line carries
/// the header immediately followed by the reset notice and nothing else.
pub proof fn lemma_unknown_cause_stream(cause: u32, evs: Seq<Event>)
    requires
        valid_events(cause, evs),
        !cause_known(cause as int),
        emission_done(run(cause, evs)),
    ensures
        written(cause, evs) == header_text() + notice_text(),
{
    lemma_message_ordering(cause, evs);
    lemma_unknown_cause_suppressed(cause as int);
}

/// The reset-control register sees at most one clear followed by at most
/// one set, in that order, in every valid run.
pub proof fn lemma_reset_write_sequence(cause: u32, evs: Seq<Event>)
    requires
        valid_events(cause, evs),
    ensures
        reset_writes(cause, evs) == Seq::<ResetWrite>::empty()
            || reset_writes(cause, evs) == seq![ResetWrite::ClearBits]
            || reset_writes(cause, evs) == seq![ResetWrite::ClearBits, ResetWrite::SetBits],
{
    lemma_trace_invariant(cause, evs);
}

/// A model of the reset-control register: the three bits the handler
/// touches.
#[derive(Clone, Copy, Debug, PartialEq, Eq, Structural)]
pub struct ResetReg {
    pub cpu: bool,
    pub sys: bool,
    pub pwron: bool,
}

/// What one write does to the register.
pub open spec fn apply_reset_write(r: ResetReg, w: ResetWrite) -> ResetReg {
    match w {
        ResetWrite::ClearBits => ResetReg { cpu: false, sys: false, pwron: false },
        ResetWrite::SetBits => ResetReg { cpu: true, sys: true, pwron: r.pwron },
    }
}

/// The register after a sequence of writes.
pub open spec fn apply_reset_writes(r: ResetReg, ws: Seq<ResetWrite>) -> ResetReg
    decreases ws.len(),
{
    if ws.len() == 0 {
        r
    } else {
        apply_reset_write(apply_reset_writes(r, ws.drop_last()), ws.last())
    }
}

proof fn lemma_apply_one(r: ResetReg, w: ResetWrite)
    ensures
        apply_reset_writes(r, seq![w]) == apply_reset_write(r, w),
{
    assert(seq![w].drop_last() =~= Seq::<ResetWrite>::empty());
    assert(apply_reset_writes(r, Seq::<ResetWrite>::empty()) == r);
    assert(seq![w].last() == w);
}

proof fn lemma_apply_two(r: ResetReg, w1: ResetWrite, w2: ResetWrite)
    ensures
        apply_reset_writes(r, seq![w1, w2]) == apply_reset_write(apply_reset_write(r, w1), w2),
{
    assert(seq![w1, w2].drop_last() =~= seq![w1]);
    lemma_apply_one(r, w1);
}

/// The reset bits are edge-triggered, so the handler must make the set an
/// honest rising edge: whatever the register held before the fault, the
/// write that sets the CPU-reset and system-reset bits finds both clear
/// and leaves both set — and after any handler write the power-on-reset
/// bit is clear, so a warm reset is never misreported as a power cycle.
pub proof fn lemma_edge_trigger(cause: u32, evs: Seq<Event>, r0: ResetReg)
    requires
        valid_events(cause, evs),
    ensures
        forall|i: int| 0 < i <= reset_writes(cause, evs).len()
            ==> !(#[trigger] apply_reset_writes(r0, reset_writes(cause, evs).take(i))).pwron,
        forall|i: int| 0 <= i < reset_writes(cause, evs).len()
            && reset_writes(cause, evs)[i] == ResetWrite::SetBits
            ==> !apply_reset_writes(r0, reset_writes(cause, evs).take(i)).cpu
                && !apply_reset_writes(r0, reset_writes(cause, evs).take(i)).sys
                && apply_reset_writes(r0, (#[trigger] reset_writes(cause, evs).take(i + 1))).cpu
                && apply_reset_writes(r0, reset_writes(cause, evs).take(i + 1)).sys,
{
    lemma_reset_write_sequence(cause, evs);
    let rw = reset_writes(cause, evs);
    if rw == seq![ResetWrite::ClearBits] {
        assert(rw.take(1) =~= rw);
        lemma_apply_one(r0, ResetWrite::ClearBits);
        assert forall|i: int| 0 <= i < rw.len() && rw[i] == ResetWrite::SetBits implies false by {
            assert(rw[i] == ResetWrite::ClearBits);
        }
    } else if rw == seq![ResetWrite::ClearBits, ResetWrite::SetBits] {
        assert(rw.take(1) =~= seq![ResetWrite::ClearBits]);
        assert(rw.take(2) =~= rw);
        lemma_apply_one(r0, ResetWrite::ClearBits);
        lemma_apply_two(r0, ResetWrite::ClearBits, ResetWrite::SetBits);
        assert forall|i: int| 0 <= i < rw.len() && rw[i] == ResetWrite::SetBits implies i == 1 by {
            if i == 0 {
                assert(rw[0] == ResetWrite::ClearBits);
            }
        }
    }
}

/// No write reaches the reset-control register before the transmitter has
/// been observed idle, itself after the last character of the report was
/// queued: every reset write of a valid run is preceded by a busy-poll
/// that returned idle and that follows every character write of the run.
pub proof fn lemma_drain_before_reset(cause: u32, evs: Seq<Event>)
    requires
        valid_events(cause, evs),
    ensures
        forall|i: int| 0 <= i < trace_actions(cause, evs).len()
            && is_reset_write(#[trigger] trace_actions(cause, evs)[i])
            ==> exists|j: int| j < i && drain_witness(cause, evs, j),
{
    lemma_trace_invariant(cause, evs);
    lemma_trace_actions_len(cause, evs);
    let acts = trace_actions(cause, evs);
    assert forall|i: int| 0 <= i < acts.len() && is_reset_write(acts[i]) implies
        exists|j: int| j < i && drain_witness(cause, evs, j) by {
        match run(cause, evs).phase {
            Phase::PollFifo { .. } => {
                assert(!is_reset_write(acts[i]));
            },
            Phase::SendChar { .. } => {
                assert(!is_reset_write(acts[i]));
            },
            Phase::DrainTx => {
                assert(!is_reset_write(acts[i]));
            },
            Phase::ClearReset => {
                assert(!is_reset_write(acts[i]));
            },
            _ => {
                let j = choose|j: int| drain_witness(cause, evs, j);
                assert(j < i && drain_witness(cause, evs, j));
            },
        }
    }
}

} // verus!
