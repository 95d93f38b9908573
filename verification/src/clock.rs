//! The renderer: a time, a rounding strategy and the optional indicators.

use vstd::prelude::*;
use crate::face::{clock_emoji, clock_face, clock_faces, lemma_face_is_clock_face};
use crate::meridiem::Meridiem;
use crate::rounding::Rounding;
use crate::time_like::{is_time_of_day, TimeLike};

verus! {

/// Renders a clock in emoji
///
/// A clock holds a time, a rounding strategy ([`Rounding::Round`] unless set) and,
/// where they were asked for, the indicators of the half of the day. The `with_`
/// methods return a new clock and leave everything else as it was.
#[derive(Debug, Copy)]
pub struct Clock<Time> where Time: TimeLike {
    time: Time,
    rounding: Rounding,
    meridiem: Option<Meridiem>,
}

/// `String::push` of the standard library. Its documentation says that it appends
/// the given character to the end of the string.
pub assume_specification[ String::push ](text: &mut String, ch: char)
    ensures
        final(text)@ == old(text)@.push(ch),
;

impl<Time> Clock<Time> where Time: TimeLike {
    /// The time that the clock shows.
    pub closed spec fn time(&self) -> Time {
        self.time
    }

    /// The strategy by which the clock rounds its time.
    pub closed spec fn rounding(&self) -> Rounding {
        self.rounding
    }

    /// The indicators that the clock appends, if any.
    pub closed spec fn meridiem(&self) -> Option<Meridiem> {
        self.meridiem
    }

    /// The clock's time is a time of day, so the clock can be rendered.
    pub open spec fn shows_time_of_day(&self) -> bool {
        is_time_of_day(self.time().spec_hour(), self.time().spec_minute())
    }

    /// The half-hour slot that the clock's time is rounded to.
    pub open spec fn slot(&self) -> (u8, bool) {
        self.rounding().slot(self.time().spec_hour(), self.time().spec_minute())
    }

    /// The text of the clock: the face of its slot, followed without a separator by
    /// the indicator for the slot's hour where the clock has indicators.
    pub open spec fn rendering(&self) -> Seq<char> {
        let (hour, half_hour) = self.slot();
        match self.meridiem() {
            Some(meridiem) => seq![clock_face(hour, half_hour), meridiem.indicator(hour)],
            None => seq![clock_face(hour, half_hour)],
        }
    }

    /// Creates a new clock with round strategy and no meridiem indicators
    #[must_use]
    pub fn new(time: Time) -> (clock: Self)
        ensures
            clock.time() == time,
            clock.rounding() == Rounding::Round,
            clock.meridiem() == None::<Meridiem>,
    {
        Self { time, rounding: Rounding::Round, meridiem: None }
    }

    /// Sets rounding strategy ([Round](crate::Rounding::Round) by default)
    #[must_use]
    pub fn with_rounding(self, rounding: Rounding) -> (clock: Self)
        ensures
            clock.time() == self.time(),
            clock.rounding() == rounding,
            clock.meridiem() == self.meridiem(),
    {
        Self { time: self.time, rounding, meridiem: self.meridiem }
    }

    /// Enables meridiem (AM/PM) indicators (disabled by default)
    #[must_use]
    pub fn with_meridiem(self, meridiem: Meridiem) -> (clock: Self)
        ensures
            clock.time() == self.time(),
            clock.rounding() == self.rounding(),
            clock.meridiem() == Some(meridiem),
    {
        Self { time: self.time, rounding: self.rounding, meridiem: Some(meridiem) }
    }

    /// Renders the clock as text: one clock face, then the indicator if there is one.
    #[must_use]
    pub fn to_string(&self) -> (text: String)
        requires
            self.shows_time_of_day(),
        ensures
            text@ == self.rendering(),
    {
        let (hour, half_hour) = self.rounding.round(&self.time);
        let mut text = String::new();
        text.push(clock_emoji(hour, half_hour));
        if let Some(meridiem) = self.meridiem {
            text.push(if hour <= 11 { meridiem.am } else { meridiem.pm });
        }
        text
    }
}

/// A rendering is one clock face, followed by one indicator exactly where the clock
/// has indicators: the AM one for a slot before noon, the PM one from noon on.
pub proof fn lemma_rendering_shape<Time>(clock: Clock<Time>) where Time: TimeLike
    ensures
        clock_faces().contains(clock.rendering()[0]),
        clock.meridiem() is None ==> clock.rendering().len() == 1,
        clock.meridiem() matches Some(meridiem) ==> {
            &&& clock.rendering().len() == 2
            &&& clock.slot().0 <= 11 ==> clock.rendering()[1] == meridiem.am
            &&& clock.slot().0 >= 12 ==> clock.rendering()[1] == meridiem.pm
        },
{
    let (hour, half_hour) = clock.slot();
    lemma_face_is_clock_face(hour, half_hour);
}

impl<Time> Clone for Clock<Time> where Time: TimeLike + Clone {
    /// A clock with a clone of the time, and the same strategy and indicators.
    fn clone(&self) -> (clock: Self)
        ensures
            cloned(self.time(), clock.time()),
            clock.rounding() == self.rounding(),
            clock.meridiem() == self.meridiem(),
    {
        Self { time: self.time.clone(), rounding: self.rounding, meridiem: self.meridiem }
    }
}

impl<Time> core::ops::Deref for Clock<Time> where Time: TimeLike {
    type Target = Time;

    /// The clock's time.
    fn deref(&self) -> (time: &Time)
        ensures
            *time == self.time(),
    {
        &self.time
    }
}

impl<Time> core::ops::DerefMut for Clock<Time> where Time: TimeLike {
    /// The clock's time, to be changed in place. Strategy and indicators stay.
    fn deref_mut(&mut self) -> (time: &mut Time)
        ensures
            *time == old(self).time(),
            final(self).time() == *final(time),
            final(self).rounding() == old(self).rounding(),
            final(self).meridiem() == old(self).meridiem(),
    {
        &mut self.time
    }
}

} // verus!
