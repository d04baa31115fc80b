//! The host's wall clock, as the modules are told it.

use vstd::prelude::*;
use chrono::{Datelike, Local, Timelike};

verus! {

/// One reading of the wall clock, field by field.
#[derive(Debug, Clone, Copy, PartialEq, Eq, Structural)]
pub struct ClockReading {
    pub second: u32,
    pub minute: u32,
    pub hour: u32,
    pub day: u32,
    pub month: u32,
    pub year: i32,
}

/// `chrono::Local::now`, read through `second`, `minute`, `hour`, `day`,
/// `month` and `year`. Nothing is claimed of the reading: it is whatever the
/// host's clock and time zone say.
#[verifier::external_body]
pub(crate) fn local_now() -> (now: ClockReading) {
    let dt = Local::now();
    ClockReading {
        second: dt.second(),
        minute: dt.minute(),
        hour: dt.hour(),
        day: dt.day(),
        month: dt.month(),
        year: dt.year(),
    }
}

} // verus!
