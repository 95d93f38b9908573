//! The indicators that mark the half of the day.

use vstd::prelude::*;

verus! {

/// Meridiem (AM/PM) indicators
#[derive(Debug, Copy, Clone)]
pub struct Meridiem {
    /// AM indicator
    pub am: char,
    /// PM indicator
    pub pm: char,
}

impl Meridiem {
    /// The indicator for `hour`: the AM one before noon, the PM one from noon on.
    pub open spec fn indicator(self, hour: u8) -> char {
        if hour <= 11 {
            self.am
        } else {
            self.pm
        }
    }
}

impl Default for Meridiem {
    /// Default meridiem (AM/PM) indicators (🌞/🌝)
    fn default() -> (meridiem: Self)
        ensures
            meridiem.am == '🌞',
            meridiem.pm == '🌝',
    {
        Self { am: '🌞', pm: '🌝' }
    }
}

impl From<(char, char)> for Meridiem {
    /// Takes a pair as `(am, pm)`.
    fn from(pair: (char, char)) -> (meridiem: Self) {
        Self { am: pair.0, pm: pair.1 }
    }
}

impl vstd::std_specs::convert::FromSpecImpl<(char, char)> for Meridiem {
    open spec fn obeys_from_spec() -> bool {
        true
    }

    open spec fn from_spec(pair: (char, char)) -> Self {
        Meridiem { am: pair.0, pm: pair.1 }
    }
}

} // verus!
