//! The reading of a clock that the renderer works from.

use vstd::prelude::*;

verus! {

/// The common set of methods for time.
///
/// A value stands for an hour and a minute. The two spec functions say which; the two
/// executable methods return exactly those. Nothing here bounds them: whether a
/// reading is a time of day is what [`is_time_of_day`] says.
pub trait TimeLike {
    /// The hour that this value stands for.
    spec fn spec_hour(&self) -> u8;

    /// The minute that this value stands for.
    spec fn spec_minute(&self) -> u8;

    /// Returns the hour number from 0 to 23
    fn hour(&self) -> (h: u8)
        ensures
            h == self.spec_hour(),
    ;

    /// Returns the minute number from 0 to 59
    fn minute(&self) -> (m: u8)
        ensures
            m == self.spec_minute(),
    ;
}

/// An hour and a minute that name a time of day: 00:00 to 23:59.
pub open spec fn is_time_of_day(hour: u8, minute: u8) -> bool {
    hour <= 23 && minute <= 59
}

/// A pair is read as `(hour, minute)`.
impl TimeLike for (u8, u8) {
    open spec fn spec_hour(&self) -> u8 {
        self.0
    }

    open spec fn spec_minute(&self) -> u8 {
        self.1
    }

    fn hour(&self) -> (h: u8) {
        self.0
    }

    fn minute(&self) -> (m: u8) {
        self.1
    }
}

} // verus!
