use fault_reporter::causes::{cause_description, KNOWN_CAUSES};
use fault_reporter::message::{header_str, notice_str, report_char, report_len, report_message};

const HEADER: &str = "Exception:\r\n\t";
const NOTICE: &str = "\r\n Resetting system now... \r\n";

const TABLE: [&str; 8] = [
    "Instruction address misaligned",
    "Instruction access fault",
    "Illegal instruction",
    "Breakpoint",
    "Load address misaligned",
    "Load access fault",
    "Store/AMO address misaligned",
    "Store/AMO access fault",
];

#[test]
fn known_causes_match_table() {
    assert_eq!(KNOWN_CAUSES, 8);
    let mut v: u32 = 0;
    while v < 8 {
        let d = cause_description(v);
        assert_eq!(d, Some(TABLE[v as usize]));
        v += 1;
    }
    assert_eq!(cause_description(2), Some("Illegal instruction"));
}

#[test]
fn unknown_causes_have_no_description() {
    assert_eq!(cause_description(8), None);
    assert_eq!(cause_description(9), None);
    assert_eq!(cause_description(31), None);
    assert_eq!(cause_description(u32::MAX), None);
}

#[test]
fn fragments_are_exact() {
    assert_eq!(header_str(), HEADER);
    assert_eq!(notice_str(), NOTICE);
}

#[test]
fn report_for_unknown_cause_is_header_and_notice() {
    let expected: String = format!("{}{}", HEADER, NOTICE);
    assert_eq!(report_message(8), expected);
    assert_eq!(report_message(12), expected);
    assert_eq!(report_message(u32::MAX), expected);
}

#[test]
fn report_is_always_header_description_notice() {
    let mut v: u32 = 0;
    while v < 10 {
        let msg: String = report_message(v);
        assert!(msg.starts_with(HEADER));
        assert!(msg.ends_with(NOTICE));
        let middle: &str = &msg[HEADER.len()..msg.len() - NOTICE.len()];
        if v < 8 {
            assert_eq!(middle, TABLE[v as usize]);
        } else {
            assert_eq!(middle, "");
        }
        v += 1;
    }
}

#[test]
fn report_len_and_chars_agree_with_message() {
    for v in [0u32, 3, 5, 7, 8, 200] {
        let msg: String = report_message(v);
        let n: usize = report_len(v);
        assert_eq!(n, msg.chars().count());
        let mut i: usize = 0;
        for c in msg.chars() {
            assert_eq!(report_char(v, i), c);
            i += 1;
        }
    }
}

#[test]
fn table_constant_across_invocations() {
    let mut v: u32 = 0;
    while v < 9 {
        assert_eq!(report_message(v), report_message(v));
        assert_eq!(cause_description(v), cause_description(v));
        v += 1;
    }
}

#[test]
fn end_to_end_message_for_load_access_fault() {
    let expected: &str = "Exception:\r\n\tLoad access fault\r\n Resetting system now... \r\n";
    assert_eq!(report_message(5), expected);
}
