//! The clock-face glyphs and the rule that picks one.

use vstd::prelude::*;

verus! {

/// Code point of the first clock face, 🕐. The twelve full hours follow from one
/// o'clock to twelve o'clock, then the twelve half hours from half past one to half
/// past twelve.
pub const FIRST_FACE: u32 = 128336;

/// The clock faces, in the order of their code points.
pub open spec fn clock_faces() -> Seq<char> {
    seq![
        '🕐', '🕑', '🕒', '🕓', '🕔', '🕕', '🕖', '🕗', '🕘', '🕙', '🕚', '🕛',
        '🕜', '🕝', '🕞', '🕟', '🕠', '🕡', '🕢', '🕣', '🕤', '🕥', '🕦', '🕧',
    ]
}

/// Where the face for `hour` stands among the clock faces: the hour hand's place on
/// the dial, one o'clock first and twelve o'clock last, and twelve further on for a
/// half hour.
pub open spec fn face_index(hour: u8, half_hour: bool) -> int {
    (hour + 11) % 12 + if half_hour { 12int } else { 0int }
}

/// The clock face that shows `hour`, or half past `hour`.
pub open spec fn clock_face(hour: u8, half_hour: bool) -> char {
    (FIRST_FACE + face_index(hour, half_hour)) as char
}

/// `char::from_u32` of the standard library. Its documentation says that it returns
/// `None` where the number is no Unicode scalar value (a surrogate, or above
/// 0x10FFFF), and otherwise the character with that code point.
pub assume_specification[ char::from_u32 ](i: u32) -> (c: Option<char>)
    ensures
        c == if i <= 0xD7FF || (0xE000 <= i && i <= 0x10FFFF) {
            Some(i as char)
        } else {
            None::<char>
        },
;

/// Returns the emoji clock with the correct hour hand and minute hand, accurate to 30-minute precision
///
/// Every hour is taken by its place on a twelve-hour dial, so 0 and 12 both show
/// twelve o'clock.
#[must_use]
pub fn clock_emoji(hour: u8, half_hour: bool) -> (face: char)
    ensures
        face == clock_face(hour, half_hour),
{
    let place: u32 = (hour as u32 + 11) % 12;
    let code: u32 = FIRST_FACE + place + if half_hour { 12 } else { 0 };
    char::from_u32(code).unwrap()
}

/// Every face that is picked is one of the 24 clock faces: the one at its index.
pub proof fn lemma_face_is_clock_face(hour: u8, half_hour: bool)
    ensures
        0 <= face_index(hour, half_hour) < 24,
        clock_faces().len() == 24,
        clock_face(hour, half_hour) == clock_faces()[face_index(hour, half_hour)],
        clock_faces().contains(clock_face(hour, half_hour)),
{
}

/// The face depends on the hour only by its place on the twelve-hour dial: two hours
/// that are equal modulo 12 show the same face.
pub proof fn lemma_face_by_dial_place(hour1: u8, hour2: u8, half_hour: bool)
    requires
        hour1 % 12 == hour2 % 12,
    ensures
        clock_face(hour1, half_hour) == clock_face(hour2, half_hour),
{
}

/// An hour of the morning and the same hour of the afternoon show the same face.
pub proof fn lemma_face_half_day_period(hour: u8, half_hour: bool)
    requires
        hour <= 11,
    ensures
        clock_face(hour, half_hour) == clock_face((hour + 12) as u8, half_hour),
{
}

/// Over the twelve hours of a half day and the two halves of an hour, no two slots
/// show the same face.
pub proof fn lemma_faces_distinct(hour1: u8, half1: bool, hour2: u8, half2: bool)
    requires
        hour1 <= 11,
        hour2 <= 11,
        hour1 != hour2 || half1 != half2,
    ensures
        clock_face(hour1, half1) != clock_face(hour2, half2),
{
}

} // verus!
