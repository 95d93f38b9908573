//! Renders a time of day as a clock-face emoji, to half-hour precision.

pub mod clock;
pub mod face;
pub mod meridiem;
pub mod rounding;
pub mod time_like;

pub use clock::Clock;
pub use face::clock_emoji;
pub use meridiem::Meridiem;
pub use rounding::Rounding;
pub use time_like::TimeLike;
