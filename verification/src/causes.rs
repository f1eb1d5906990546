//! The fixed table of exception-cause descriptions.
//!
//! The cause code is a small unsigned integer read from the CPU's
//! exception-cause status register.  Codes 0 through 7 are meaningful on
//! this hardware; anything larger is an unknown cause and gets no
//! description at all.

use vstd::prelude::*;

verus! {

/// How many cause codes carry a description.
pub const KNOWN_CAUSES: u32 = 8;

/// A cause code is known exactly when it can index the description table.
pub open spec fn cause_known(v: int) -> bool {
    0 <= v < KNOWN_CAUSES
}

/// The description attached to a cause code; the empty sequence for an
/// unknown code, which is exactly what the report emits for one.
pub open spec fn cause_text(v: int) -> Seq<char> {
    if v == 0 {
        "Instruction address misaligned"@
    } else if v == 1 {
        "Instruction access fault"@
    } else if v == 2 {
        "Illegal instruction"@
    } else if v == 3 {
        "Breakpoint"@
    } else if v == 4 {
        "Load address misaligned"@
    } else if v == 5 {
        "Load access fault"@
    } else if v == 6 {
        "Store/AMO address misaligned"@
    } else if v == 7 {
        "Store/AMO access fault"@
    } else {
        Seq::empty()
    }
}

/// Every known description is short; an unknown cause has no text.
pub proof fn lemma_cause_text_len(v: int)
    ensures
        cause_text(v).len() <= 30,
        !cause_known(v) ==> cause_text(v).len() == 0,
{
    reveal_strlit("Instruction address misaligned");
    reveal_strlit("Instruction access fault");
    reveal_strlit("Illegal instruction");
    reveal_strlit("Breakpoint");
    reveal_strlit("Load address misaligned");
    reveal_strlit("Load access fault");
    reveal_strlit("Store/AMO address misaligned");
    reveal_strlit("Store/AMO access fault");
}

/// The description for a cause code: `Some` exactly on the known codes,
/// and then precisely the table entry for that code.
pub fn cause_description(v: u32) -> (r: Option<&'static str>)
    ensures
        match r {
            Some(s) => cause_known(v as int) && s@ == cause_text(v as int),
            None => !cause_known(v as int),
        },
{
    match v {
        0u32 => Some("Instruction address misaligned"),
        1u32 => Some("Instruction access fault"),
        2u32 => Some("Illegal instruction"),
        3u32 => Some("Breakpoint"),
        4u32 => Some("Load address misaligned"),
        5u32 => Some("Load access fault"),
        6u32 => Some("Store/AMO address misaligned"),
        7u32 => Some("Store/AMO access fault"),
        _ => None,
    }
}

} // verus!
