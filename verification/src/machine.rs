//! The handler's decision machine.
//!
//! The handler itself runs in a trap context and can do nothing but read
//! and write a handful of memory-mapped registers.  This module captures
//! everything it decides as a small state machine: each state prescribes
//! exactly one register action, and each observation the hardware hands
//! back drives one transition.  The surrounding loop performs the action,
//! feeds the result in as an [`Event`], and repeats.
//!
//! The phases follow the handler's single pass: emit the report one
//! character at a time (polling the transmit FIFO before every character),
//! drain the transmitter, clear the edge-triggered reset bits, assert the
//! CPU and system reset bits, then spin until the reset takes hold.

use vstd::prelude::*;
use crate::message::{report_text, report_len, report_char, lemma_report_len};

verus! {

/// Where the handler stands in its single pass.
#[derive(Clone, Copy, Debug, PartialEq, Eq, Structural)]
pub enum Phase {
    /// Waiting for a free transmit-FIFO slot before sending character `pos`.
    PollFifo { pos: usize },
    /// A slot is free; send character `pos` of the report.
    SendChar { pos: usize },
    /// Every character is queued; waiting for the transmitter to go idle.
    DrainTx,
    /// Clear the edge-triggered reset-control bits so the next set makes an edge.
    ClearReset,
    /// Assert the CPU-reset and system-reset bits (never the power-on bit).
    AssertReset,
    /// Spin until the asserted reset takes effect.
    Delay,
    /// Nothing left to do; only reachable if the reset never strikes.
    Halted,
}

/// One register action the hardware loop must perform next.
#[derive(Clone, Copy, Debug, PartialEq, Eq, Structural)]
pub enum Action {
    /// Read the transmit-FIFO free-slot count.
    PollTxFifo,
    /// Write this character to the transmit-FIFO data register.
    WriteChar(char),
    /// Read the transmitter's bus-busy status bit.
    PollTxBusy,
    /// Clear the CPU-reset, system-reset and power-on-reset control bits.
    ClearResetBits,
    /// Set the CPU-reset and system-reset control bits.
    SetResetBits,
    /// Spin-wait the fixed post-reset delay.
    DelaySpin,
    /// Do nothing.
    Halt,
}

/// What the hardware loop observed while performing the last action.
#[derive(Clone, Copy, Debug, PartialEq, Eq, Structural)]
pub enum Event {
    /// The transmit-FIFO free-slot count that a poll returned.
    TxFifoFree(u8),
    /// The bus-busy bit that a status read returned.
    TxBusy(bool),
    /// The commanded write, register update or delay was performed.
    Done,
}

/// The handler's state: the cause code it reports, and its phase.
#[derive(Clone, Copy, Debug, PartialEq, Eq, Structural)]
pub struct Handler {
    pub cause: u32,
    pub phase: Phase,
}

impl Handler {
    /// A character position under way never runs past the report.
    pub open spec fn wf(self) -> bool {
        match self.phase {
            Phase::PollFifo { pos } => pos < report_text(self.cause as int).len(),
            Phase::SendChar { pos } => pos < report_text(self.cause as int).len(),
            _ => true,
        }
    }

    /// The state the handler starts in for a cause code.
    pub open spec fn init_spec(cause: u32) -> Handler {
        Handler { cause, phase: Phase::PollFifo { pos: 0 } }
    }

    /// The action each state prescribes.
    pub open spec fn action_spec(self) -> Action {
        match self.phase {
            Phase::PollFifo { .. } => Action::PollTxFifo,
            Phase::SendChar { pos } => Action::WriteChar(report_text(self.cause as int)[pos as int]),
            Phase::DrainTx => Action::PollTxBusy,
            Phase::ClearReset => Action::ClearResetBits,
            Phase::AssertReset => Action::SetResetBits,
            Phase::Delay => Action::DelaySpin,
            Phase::Halted => Action::Halt,
        }
    }

    /// Which observation each state is waiting for.
    pub open spec fn event_fits(self, e: Event) -> bool {
        match (self.phase, e) {
            (Phase::PollFifo { .. }, Event::TxFifoFree(_)) => true,
            (Phase::SendChar { .. }, Event::Done) => true,
            (Phase::DrainTx, Event::TxBusy(_)) => true,
            (Phase::ClearReset, Event::Done) => true,
            (Phase::AssertReset, Event::Done) => true,
            (Phase::Delay, Event::Done) => true,
            _ => false,
        }
    }

    /// The transition an observation drives.  An observation that does not
    /// answer the state's own action leaves the state unchanged.
    pub open spec fn step_spec(self, e: Event) -> Handler {
        match (self.phase, e) {
            (Phase::PollFifo { pos }, Event::TxFifoFree(n)) => if n >= 1 {
                Handler { cause: self.cause, phase: Phase::SendChar { pos } }
            } else {
                self
            },
            (Phase::SendChar { pos }, Event::Done) => if pos + 1 < report_text(self.cause as int).len() {
                Handler { cause: self.cause, phase: Phase::PollFifo { pos: (pos + 1) as usize } }
            } else {
                Handler { cause: self.cause, phase: Phase::DrainTx }
            },
            (Phase::DrainTx, Event::TxBusy(b)) => if b {
                self
            } else {
                Handler { cause: self.cause, phase: Phase::ClearReset }
            },
            (Phase::ClearReset, Event::Done) => Handler { cause: self.cause, phase: Phase::AssertReset },
            (Phase::AssertReset, Event::Done) => Handler { cause: self.cause, phase: Phase::Delay },
            (Phase::Delay, Event::Done) => Handler { cause: self.cause, phase: Phase::Halted },
            _ => self,
        }
    }

    /// The handler entered on a fault with this cause code.
    pub fn new(cause: u32) -> (s: Handler)
        ensures
            s == Handler::init_spec(cause),
            s.wf(),
    {
        proof {
            lemma_report_len(cause as int);
        }
        Handler { cause, phase: Phase::PollFifo { pos: 0 } }
    }

    /// The register action to perform next.
    pub fn next_action(&self) -> (a: Action)
        requires
            self.wf(),
        ensures
            a == self.action_spec(),
    {
        match self.phase {
            Phase::PollFifo { .. } => Action::PollTxFifo,
            Phase::SendChar { pos } => Action::WriteChar(report_char(self.cause, pos)),
            Phase::DrainTx => Action::PollTxBusy,
            Phase::ClearReset => Action::ClearResetBits,
            Phase::AssertReset => Action::SetResetBits,
            Phase::Delay => Action::DelaySpin,
            Phase::Halted => Action::Halt,
        }
    }

    /// Feed back what the hardware loop observed.
    pub fn step(&mut self, e: Event)
        requires
            old(self).wf(),
        ensures
            *final(self) == old(self).step_spec(e),
            final(self).wf(),
    {
        proof {
            lemma_report_len(self.cause as int);
        }
        match (self.phase, e) {
            (Phase::PollFifo { pos }, Event::TxFifoFree(n)) => {
                if n >= 1 {
                    self.phase = Phase::SendChar { pos };
                }
            },
            (Phase::SendChar { pos }, Event::Done) => {
                let len: usize = report_len(self.cause);
                if pos + 1 < len {
                    self.phase = Phase::PollFifo { pos: pos + 1 };
                } else {
                    self.phase = Phase::DrainTx;
                }
            },
            (Phase::DrainTx, Event::TxBusy(b)) => {
                if !b {
                    self.phase = Phase::ClearReset;
                }
            },
            (Phase::ClearReset, Event::Done) => {
                self.phase = Phase::AssertReset;
            },
            (Phase::AssertReset, Event::Done) => {
                self.phase = Phase::Delay;
            },
            (Phase::Delay, Event::Done) => {
                self.phase = Phase::Halted;
            },
            _ => {},
        }
    }
}

} // verus!
