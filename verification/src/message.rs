//! The exact text of the fault report.
//!
//! The report is three fragments in a fixed order: a header, the cause
//! description (absent for an unknown cause), and a reset notice.  Every
//! fragment is plain ASCII and the whole report is well under a hundred
//! characters, so positions and lengths all fit comfortably in `usize`.

use vstd::prelude::*;
use crate::causes::{cause_known, cause_text, cause_description, lemma_cause_text_len};

verus! {

/// The text that opens every report.
pub open spec fn header_text() -> Seq<char> {
    "Exception:\r\n\t"@
}

/// The text that closes every report.
pub open spec fn notice_text() -> Seq<char> {
    "\r\n Resetting system now... \r\n"@
}

/// The whole report for a cause code: header, then the description (empty
/// for an unknown code), then the reset notice, in that order and nothing
/// else.
pub open spec fn report_text(v: int) -> Seq<char> {
    header_text() + cause_text(v) + notice_text()
}

/// The fragment lengths, and the bounds every caller needs: the report is
/// never empty and never longer than 72 characters.
pub proof fn lemma_report_len(v: int)
    ensures
        header_text().len() == 13,
        notice_text().len() == 29,
        report_text(v).len() == 42 + cause_text(v).len(),
        42 <= report_text(v).len() <= 72,
{
    reveal_strlit("Exception:\r\n\t");
    reveal_strlit("\r\n Resetting system now... \r\n");
    lemma_cause_text_len(v);
}

/// An unknown cause shortens the report to header and notice alone; no
/// other text takes the description's place.
pub proof fn lemma_unknown_cause_suppressed(v: int)
    requires
        !cause_known(v),
    ensures
        report_text(v) =~= header_text() + notice_text(),
{
    lemma_cause_text_len(v);
}

/// The header fragment as a string slice.
pub fn header_str() -> (r: &'static str)
    ensures
        r@ == header_text(),
{
    "Exception:\r\n\t"
}

/// The reset-notice fragment as a string slice.
pub fn notice_str() -> (r: &'static str)
    ensures
        r@ == notice_text(),
{
    "\r\n Resetting system now... \r\n"
}

/// The length of the report for a cause code.
pub fn report_len(v: u32) -> (n: usize)
    ensures
        n == report_text(v as int).len(),
{
    proof {
        lemma_report_len(v as int);
    }
    let h: &'static str = header_str();
    let nt: &'static str = notice_str();
    let base: usize = h.unicode_len() + nt.unicode_len();
    match cause_description(v) {
        Some(d) => {
            proof {
                lemma_cause_text_len(v as int);
            }
            base + d.unicode_len()
        },
        None => base,
    }
}

/// The character at a position of the report for a cause code.
pub fn report_char(v: u32, i: usize) -> (c: char)
    requires
        i < report_text(v as int).len(),
    ensures
        c == report_text(v as int)[i as int],
{
    proof {
        lemma_report_len(v as int);
    }
    let h: &'static str = header_str();
    let nt: &'static str = notice_str();
    let hl: usize = h.unicode_len();
    match cause_description(v) {
        Some(d) => {
            proof {
                lemma_cause_text_len(v as int);
            }
            let dl: usize = d.unicode_len();
            if i < hl {
                h.get_char(i)
            } else if i < hl + dl {
                d.get_char(i - hl)
            } else {
                nt.get_char(i - hl - dl)
            }
        },
        None => {
            if i < hl {
                h.get_char(i)
            } else {
                nt.get_char(i - hl)
            }
        },
    }
}

/// The whole report for a cause code as one string.
pub fn report_message(v: u32) -> (r: String)
    ensures
        r@ == report_text(v as int),
{
    let mut s = String::from_str(header_str());
    match cause_description(v) {
        Some(d) => {
            s.append(d);
        },
        None => {
            proof {
                assert(header_text() + cause_text(v as int) =~= header_text());
            }
        },
    }
    s.append(notice_str());
    proof {
        assert(s@ =~= report_text(v as int));
    }
    s
}

} // verus!
