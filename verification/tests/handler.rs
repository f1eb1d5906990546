use fault_reporter::machine::{Action, Event, Handler};

const HEADER: &str = "Exception:\r\n\t";
const NOTICE: &str = "\r\n Resetting system now... \r\n";

/// One write to the simulated reset-control register: the register's
/// (cpu, sys, pwron) bits right after the write.
type RegBits = (bool, bool, bool);

struct SimOutcome {
    serial: String,
    reg_before_each_write: Vec<RegBits>,
    reg_after_each_write: Vec<RegBits>,
    drained_before_any_reset_write: bool,
    fifo_polls: u32,
    busy_polls: u32,
}

/// Drive the handler machine against simulated hardware.  `fifo_stalls`
/// makes every other FIFO poll report a full FIFO; `busy_reads` is how
/// often the transmitter reports busy before going idle.  The simulated
/// reset-control register starts with all three bits set, the worst case
/// for an edge-triggered trigger.
fn simulate(cause: u32, fifo_stalls: bool, busy_reads: u32) -> SimOutcome {
    let mut h: Handler = Handler::new(cause);
    let mut out = SimOutcome {
        serial: String::new(),
        reg_before_each_write: Vec::new(),
        reg_after_each_write: Vec::new(),
        drained_before_any_reset_write: true,
        fifo_polls: 0,
        busy_polls: 0,
    };
    let mut reg: RegBits = (true, true, true);
    let mut drained: bool = false;
    let mut fifo_free: u8 = if fifo_stalls { 0 } else { 1 };
    let mut busy_left: u32 = busy_reads;
    let mut steps: u32 = 0;
    loop {
        steps += 1;
        assert!(steps < 100_000, "handler loop did not terminate");
        match h.next_action() {
            Action::PollTxFifo => {
                out.fifo_polls += 1;
                let n: u8 = fifo_free;
                if fifo_stalls {
                    fifo_free = if fifo_free == 0 { 1 } else { 0 };
                }
                h.step(Event::TxFifoFree(n));
            }
            Action::WriteChar(c) => {
                out.serial.push(c);
                h.step(Event::Done);
            }
            Action::PollTxBusy => {
                out.busy_polls += 1;
                let busy: bool = busy_left > 0;
                if busy {
                    busy_left -= 1;
                } else {
                    drained = true;
                }
                h.step(Event::TxBusy(busy));
            }
            Action::ClearResetBits => {
                if !drained {
                    out.drained_before_any_reset_write = false;
                }
                out.reg_before_each_write.push(reg);
                reg = (false, false, false);
                out.reg_after_each_write.push(reg);
                h.step(Event::Done);
            }
            Action::SetResetBits => {
                if !drained {
                    out.drained_before_any_reset_write = false;
                }
                out.reg_before_each_write.push(reg);
                reg = (true, true, reg.2);
                out.reg_after_each_write.push(reg);
                h.step(Event::Done);
            }
            Action::DelaySpin => {
                h.step(Event::Done);
            }
            Action::Halt => {
                break;
            }
        }
    }
    out
}

#[test]
fn end_to_end_load_access_fault() {
    let sim: SimOutcome = simulate(5, true, 3);
    let expected: String = format!("{}{}{}", HEADER, "Load access fault", NOTICE);
    assert_eq!(sim.serial, expected);
    // Exactly two reset writes: a clear of all three bits, then a set of
    // the cpu and sys bits with the power-on bit left clear.
    assert_eq!(sim.reg_after_each_write, vec![(false, false, false), (true, true, false)]);
    // The set saw a genuine rising edge on both bits.
    assert_eq!(sim.reg_before_each_write[1], (false, false, false));
    assert!(sim.drained_before_any_reset_write);
}

#[test]
fn end_to_end_unknown_cause_emits_no_description() {
    let sim: SimOutcome = simulate(9, false, 0);
    let expected: String = format!("{}{}", HEADER, NOTICE);
    assert_eq!(sim.serial, expected);
    assert_eq!(sim.reg_after_each_write, vec![(false, false, false), (true, true, false)]);
    assert!(sim.drained_before_any_reset_write);
}

#[test]
fn every_known_cause_reports_its_table_entry() {
    let table: [&str; 8] = [
        "Instruction address misaligned",
        "Instruction access fault",
        "Illegal instruction",
        "Breakpoint",
        "Load address misaligned",
        "Load access fault",
        "Store/AMO address misaligned",
        "Store/AMO access fault",
    ];
    let mut v: u32 = 0;
    while v < 8 {
        let sim: SimOutcome = simulate(v, false, 0);
        let expected: String = format!("{}{}{}", HEADER, table[v as usize], NOTICE);
        assert_eq!(sim.serial, expected);
        v += 1;
    }
}

#[test]
fn power_on_reset_bit_never_set() {
    for cause in [0u32, 5, 8, u32::MAX] {
        let sim: SimOutcome = simulate(cause, true, 5);
        for bits in &sim.reg_after_each_write {
            assert!(!bits.2, "power-on-reset bit was set");
        }
    }
}

#[test]
fn stalled_fifo_only_adds_polls_not_output() {
    let smooth: SimOutcome = simulate(3, false, 0);
    let stalled: SimOutcome = simulate(3, true, 4);
    assert_eq!(smooth.serial, stalled.serial);
    assert_eq!(smooth.reg_after_each_write, stalled.reg_after_each_write);
    assert!(stalled.fifo_polls > smooth.fifo_polls);
    assert!(stalled.busy_polls > smooth.busy_polls);
}

#[test]
fn machine_polls_until_fifo_has_room() {
    let mut h: Handler = Handler::new(0);
    assert!(matches!(h.next_action(), Action::PollTxFifo));
    h.step(Event::TxFifoFree(0));
    assert!(matches!(h.next_action(), Action::PollTxFifo));
    h.step(Event::TxFifoFree(0));
    assert!(matches!(h.next_action(), Action::PollTxFifo));
    h.step(Event::TxFifoFree(2));
    match h.next_action() {
        Action::WriteChar(c) => assert_eq!(c, 'E'),
        other => panic!("expected a character write, got {:?}", other),
    }
}

#[test]
fn mismatched_observation_changes_nothing() {
    let mut h: Handler = Handler::new(1);
    let before: Handler = h;
    h.step(Event::TxBusy(true));
    assert_eq!(h, before);
    h.step(Event::Done);
    assert_eq!(h, before);
}
