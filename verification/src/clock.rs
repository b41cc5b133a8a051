//! The clock of the machine: the only place where the time is read.

use vstd::prelude::*;

verus! {

/// The pattern of the time in an envelope: year, month, day, hour, minute
/// and second of the local time.
pub const DATE_FORMAT: &'static str = "%Y-%m-%d %H:%M:%S";

/// The pattern of the time in the name of a temporary CSV file.
pub const FILE_STAMP_FORMAT: &'static str = "%Y%m%d_%H%M%S";

/// Calls `chrono::Local::now` and `chrono::DateTime::format` with `pattern`,
/// and takes the text of the result. Nothing is claimed of the text: it
/// depends on the clock and the time zone of the machine. Only the two
/// patterns above are let in: both are well formed, and on an ill-formed
/// pattern the call panics. It also panics where the system clock stands
/// before 1970.
#[verifier::external_body]
pub(crate) fn local_time_text(pattern: &str) -> (text: String)
    requires
        pattern@ == DATE_FORMAT@ || pattern@ == FILE_STAMP_FORMAT@,
{
    chrono::Local::now().format(pattern).to_string()
}

/// Calls `chrono::Local::now` and `chrono::DateTime::timestamp_micros`: the
/// microseconds since 1970 of this moment. Nothing is claimed of the number:
/// it depends on the clock. The call panics only where the system clock
/// stands before 1970.
#[verifier::external_body]
pub(crate) fn capture_time_micros() -> (micros: i64) {
    chrono::Local::now().timestamp_micros()
}

} // verus!
