//! Rounding a time of day to a half-hour slot.

use vstd::prelude::*;
use crate::time_like::{is_time_of_day, TimeLike};

verus! {

/// Strategies for rounding time to emoji clock precision (30-minute granularity)
#[derive(Debug, Copy, Clone)]
#[non_exhaustive]
pub enum Rounding {
    /// Round to the nearest emoji clock
    /// - 01:45 - 02:14 : 02:00 🕑
    /// - 02:15 - 02:44 : 02:30 🕝
    Round,
    /// Round down to the nearest emoji clock
    /// - 02:00 - 02:29 : 02:00 🕑
    /// - 02:30 - 02:59 : 02:30 🕝
    Floor,
    /// Round up to the nearest emoji clock
    /// - 01:31 - 02:00 : 02:00 🕑
    /// - 02:01 - 02:30 : 02:30 🕝
    Ceil,
}

/// The hour after `hour` on a 24-hour dial: 23 is followed by 0.
pub open spec fn next_hour(hour: u8) -> u8 {
    ((hour + 1) % 24) as u8
}

impl Rounding {
    /// The half-hour slot `(hour, half)` that `hour:minute` falls into under this
    /// strategy; `half` says that the slot is the half hour, not the full one.
    pub open spec fn slot(self, hour: u8, minute: u8) -> (u8, bool) {
        match self {
            Rounding::Floor => if minute <= 29 {
                (hour, false)
            } else {
                (hour, true)
            },
            Rounding::Ceil => if minute == 0 {
                (hour, false)
            } else if minute <= 30 {
                (hour, true)
            } else {
                (next_hour(hour), false)
            },
            Rounding::Round => if minute <= 14 {
                (hour, false)
            } else if minute <= 44 {
                (hour, true)
            } else {
                (next_hour(hour), false)
            },
        }
    }

    /// How many minutes this strategy adds before it cuts a time down to the half
    /// hour at or below it.
    pub open spec fn bias(self) -> int {
        match self {
            Rounding::Floor => 0,
            Rounding::Round => 15,
            Rounding::Ceil => 29,
        }
    }

    /// Rounds time to 30-min precision
    pub fn round<Time>(&self, time: &Time) -> (slot: (u8, bool)) where Time: TimeLike
        requires
            is_time_of_day(time.spec_hour(), time.spec_minute()),
        ensures
            slot == self.slot(time.spec_hour(), time.spec_minute()),
            slot.0 <= 23,
    {
        let hour: u8 = time.hour();
        let minute: u8 = time.minute();
        match *self {
            Rounding::Floor => {
                if minute <= 29 {
                    (hour, false)
                } else {
                    (hour, true)
                }
            },
            Rounding::Ceil => {
                if minute == 0 {
                    (hour, false)
                } else if minute <= 30 {
                    (hour, true)
                } else {
                    ((hour + 1) % 24, false)
                }
            },
            Rounding::Round => {
                if minute <= 14 {
                    (hour, false)
                } else if minute <= 44 {
                    (hour, true)
                } else {
                    ((hour + 1) % 24, false)
                }
            },
        }
    }
}

/// A rounded time of day is a slot of the same day's dial: its hour is at most 23.
pub proof fn lemma_slot_hour_in_range(rounding: Rounding, hour: u8, minute: u8)
    requires
        is_time_of_day(hour, minute),
    ensures
        rounding.slot(hour, minute).0 <= 23,
{
}

/// Rounding down keeps the hour, and the half hour begins at minute 30: minutes 0 and
/// 29 give the full hour, minutes 30 and 59 the half hour.
pub proof fn lemma_floor_boundaries(hour: u8)
    requires
        hour <= 23,
    ensures
        Rounding::Floor.slot(hour, 0) == (hour, false),
        Rounding::Floor.slot(hour, 29) == (hour, false),
        Rounding::Floor.slot(hour, 30) == (hour, true),
        Rounding::Floor.slot(hour, 59) == (hour, true),
{
}

/// Rounding up leaves only the full hour itself in place: minute 0 gives the full
/// hour, minutes 1 and 30 the half hour, and minute 31 the next full hour, which
/// after 23 is 0.
pub proof fn lemma_ceil_boundaries(hour: u8)
    requires
        hour <= 23,
    ensures
        Rounding::Ceil.slot(hour, 0) == (hour, false),
        Rounding::Ceil.slot(hour, 1) == (hour, true),
        Rounding::Ceil.slot(hour, 30) == (hour, true),
        Rounding::Ceil.slot(hour, 31) == (next_hour(hour), false),
        next_hour(hour) == (hour + 1) % 24,
        hour == 23 ==> next_hour(hour) == 0,
{
}

/// Rounding to the nearest slot turns at the quarters: minute 14 gives the full hour,
/// minutes 15 and 44 the half hour, and minute 45 the next full hour, which after 23
/// is 0.
pub proof fn lemma_round_boundaries(hour: u8)
    requires
        hour <= 23,
    ensures
        Rounding::Round.slot(hour, 14) == (hour, false),
        Rounding::Round.slot(hour, 15) == (hour, true),
        Rounding::Round.slot(hour, 44) == (hour, true),
        Rounding::Round.slot(hour, 45) == (next_hour(hour), false),
        next_hour(hour) == (hour + 1) % 24,
        hour == 23 ==> next_hour(hour) == 0,
{
}

/// The slots of a day are its 48 half hours, counted from midnight. A strategy adds
/// its bias to the minutes since midnight, takes the half hour at or below the sum,
/// and a sum past the end of the day starts again at midnight. So rounding down takes
/// the slot at or before the time, rounding up the first slot at or after it, and
/// rounding to the nearest the closer of the two, the later one when both are a
/// quarter of an hour away.
pub proof fn lemma_slot_counts_half_hours(rounding: Rounding, hour: u8, minute: u8)
    requires
        is_time_of_day(hour, minute),
    ensures
        ({
            let index = ((60 * hour + minute + rounding.bias()) / 30) % 48;
            rounding.slot(hour, minute) == ((index / 2) as u8, index % 2 == 1)
        }),
{
}

} // verus!
