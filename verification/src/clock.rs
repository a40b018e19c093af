//! The header clock: reads the local wall-clock time and renders it as an
//! `HH:MM:SS` line.

use vstd::prelude::*;
use vstd::string::StringExecFns;
use chrono::Timelike;
use crate::text::spec_two_digit;
use crate::text::two_digit_string;

verus! {

/// A local time of day, as plain hour, minute and second fields.
#[derive(Clone, Copy, PartialEq, Eq, Structural, Debug)]
pub struct TimeOfDay {
    pub hour: u32,
    pub minute: u32,
    pub second: u32,
}

impl TimeOfDay {
    /// Invariant: the fields form a valid time of day.
    pub open spec fn wf(self) -> bool {
        &&& self.hour < 24
        &&& self.minute < 60
        &&& self.second < 60
    }
}

/// The clock text for a time of day: two-digit hour, minute and second,
/// separated by colons.
pub open spec fn spec_hms(t: TimeOfDay) -> Seq<char> {
    spec_two_digit(t.hour as int) + seq![':'] + spec_two_digit(t.minute as int) + seq![':']
        + spec_two_digit(t.second as int)
}

/// Relies on chrono's `Local::now` together with the `Timelike` accessors
/// `hour`, `minute` and `second`, documented to return the hour from 0 to 23
/// and the minute and second from 0 to 59. The reading depends on the wall
/// clock, so nothing beyond those bounds is stated.
#[verifier::external_body]
fn local_hms() -> (t: (u32, u32, u32))
    ensures
        t.0 < 24,
        t.1 < 60,
        t.2 < 60,
{
    let now = chrono::Local::now();
    (now.hour(), now.minute(), now.second())
}

/// The header clock widget: a stateless renderer for the current time.
#[derive(Debug)]
pub struct Clock {}

impl Clock {
    /// Reads the current local time of day from the wall clock.
    pub fn now(&self) -> (t: TimeOfDay)
        ensures
            t.wf(),
    {
        let (h, m, s) = local_hms();
        TimeOfDay { hour: h, minute: m, second: s }
    }

    /// Renders the clock line for time `t`: exactly the eight characters
    /// `HH:MM:SS`.
    pub fn render(&self, t: TimeOfDay) -> (s: String)
        requires
            t.wf(),
        ensures
            s@ == spec_hms(t),
            s@.len() == 8,
    {
        proof {
            reveal_strlit(":");
        }
        let mut out = two_digit_string(t.hour as u64);
        out.append(":");
        let minutes = two_digit_string(t.minute as u64);
        out.append(minutes.as_str());
        out.append(":");
        let seconds = two_digit_string(t.second as u64);
        out.append(seconds.as_str());
        proof {
            assert(out@ =~= spec_hms(t));
        }
        out
    }
}

} // verus!
