//! The transient message shown when the operating system refuses to start a
//! program.
use vstd::prelude::*;
use vstd::string::StringExecFns;

verus! {

/// How long a failure notice stays on screen, in seconds.
pub const NOTICE_SECS: u64 = 2;

/// The text that opens every failure notice; the operating system's own
/// diagnostic follows it.
pub open spec fn failure_prefix() -> Seq<char> {
    "Failed to launch process.\nReason: "@
}

/// The whole text of the notice for a launch that failed with `reason`.
pub open spec fn failure_text(reason: Seq<char>) -> Seq<char> {
    failure_prefix() + reason
}

/// A message for the user, shown for a limited time.
#[derive(Debug, PartialEq, Eq)]
pub struct Notice {
    pub message: String,
    pub duration_secs: u64,
}

/// The notice for a launch that failed, carrying the operating system's
/// diagnostic `reason` unchanged after a fixed opening line.
pub fn failure_notice(reason: &str) -> (n: Notice)
    ensures
        n.message@ == failure_text(reason@),
        n.duration_secs == NOTICE_SECS,
{
    let mut message = String::from_str("Failed to launch process.\nReason: ");
    message.append(reason);
    Notice { message, duration_secs: NOTICE_SECS }
}

} // verus!
