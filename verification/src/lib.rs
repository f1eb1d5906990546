//! Fault reporting and reset sequencing for a small RISC-V microcontroller.
//!
//! On an unrecoverable CPU exception the hardware jumps to a trap handler
//! that must report the exception cause over a polled serial line and then
//! force a clean system reset.  This crate holds the decision logic of that
//! handler: the fixed cause-description table, the exact text of the report,
//! and a step-by-step machine that tells the surrounding hardware loop which
//! register action to perform next.  The hardware loop itself (memory-mapped
//! register reads and writes) lives outside the library and feeds every
//! observation back in as an event.

pub mod causes;
pub mod message;
pub mod machine;
pub mod trace;
