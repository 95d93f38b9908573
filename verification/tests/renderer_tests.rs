use emoji_clock_2::{Clock, Meridiem, Rounding, TimeLike};

#[test]
fn a_pair_reads_as_hour_and_minute() {
    let reading = (7u8, 42u8);
    assert_eq!(reading.hour(), 7);
    assert_eq!(reading.minute(), 42);
}

#[test]
fn default_meridiem_is_sun_and_moon() {
    let meridiem = Meridiem::default();
    assert_eq!(meridiem.am, '🌞');
    assert_eq!(meridiem.pm, '🌝');
}

#[test]
fn meridiem_from_a_pair_takes_am_first() {
    let meridiem = Meridiem::from(('x', 'y'));
    assert_eq!(meridiem.am, 'x');
    assert_eq!(meridiem.pm, 'y');
    let converted: Meridiem = ('☀', '☾').into();
    assert_eq!((converted.am, converted.pm), ('☀', '☾'));
}

#[test]
fn a_new_clock_rounds_to_the_nearest_and_has_no_meridiem() {
    assert_eq!(Clock::new((2, 14)).to_string(), "🕑");
    assert_eq!(Clock::new((2, 15)).to_string(), "🕝");
    assert_eq!(Clock::new((2, 45)).to_string(), "🕒");
}

#[test]
fn rounding_strategy_decides_the_face() {
    let time = (12, 29);
    assert_eq!(Clock::new(time).with_rounding(Rounding::Floor).to_string(), "🕛");
    assert_eq!(Clock::new(time).with_rounding(Rounding::Round).to_string(), "🕧");
    assert_eq!(Clock::new(time).with_rounding(Rounding::Ceil).to_string(), "🕧");
    assert_eq!(Clock::new((12, 31)).with_rounding(Rounding::Ceil).to_string(), "🕐");
}

#[test]
fn meridiem_goes_by_the_rounded_hour() {
    let meridiem = Meridiem { am: '🌞', pm: '🌙' };
    assert_eq!(Clock::new((9, 15)).with_meridiem(Meridiem::default()).to_string(), "🕤🌞");
    assert_eq!(Clock::new((21, 44)).with_meridiem(meridiem).to_string(), "🕤🌙");
    assert_eq!(Clock::new((11, 44)).with_meridiem(meridiem).to_string(), "🕦🌞");
    assert_eq!(Clock::new((11, 45)).with_meridiem(meridiem).to_string(), "🕛🌙");
    assert_eq!(Clock::new((23, 45)).with_meridiem(meridiem).to_string(), "🕛🌞");
    assert_eq!(
        Clock::new((11, 59)).with_rounding(Rounding::Floor).with_meridiem(meridiem).to_string(),
        "🕦🌞"
    );
}

#[test]
fn updates_keep_what_they_do_not_set() {
    let meridiem = Meridiem { am: 'a', pm: 'p' };
    let one = Clock::new((13, 40)).with_rounding(Rounding::Floor).with_meridiem(meridiem);
    let other = Clock::new((13, 40)).with_meridiem(meridiem).with_rounding(Rounding::Floor);
    assert_eq!(one.to_string(), "🕜p");
    assert_eq!(other.to_string(), "🕜p");
    let again = one.with_rounding(Rounding::Ceil);
    assert_eq!(again.to_string(), "🕑p");
    assert_eq!(one.to_string(), "🕜p");
    let replaced = again.with_meridiem(Meridiem::default());
    assert_eq!(replaced.to_string(), "🕑🌝");
}

#[test]
fn rendering_has_one_or_two_characters() {
    for hour in 0..=23u8 {
        for minute in 0..=59u8 {
            let bare = Clock::new((hour, minute));
            assert_eq!(bare.to_string().chars().count(), 1);
            let marked = bare.with_meridiem(Meridiem::default());
            assert_eq!(marked.to_string().chars().count(), 2);
            assert!(marked.to_string().starts_with(&bare.to_string()));
        }
    }
}

#[test]
fn rendering_twice_gives_the_same_text() {
    let clock = Clock::new((18, 5)).with_meridiem(Meridiem::default());
    assert_eq!(clock.to_string(), clock.to_string());
    assert_eq!(clock.to_string(), "🕕🌝");
}

#[test]
fn a_clock_derefs_to_its_time() {
    let mut clock = Clock::new((9u8, 25u8)).with_meridiem(Meridiem::default());
    assert_eq!(*clock, (9, 25));
    assert_eq!(clock.hour(), 9);
    assert_eq!(clock.minute(), 25);
    clock.0 = 21;
    *clock = (clock.0, 50);
    assert_eq!(*clock, (21, 50));
    assert_eq!(clock.to_string(), "🕙🌝");
}

#[test]
fn a_clock_can_be_cloned_and_copied() {
    let clock = Clock::new((4u8, 30u8)).with_rounding(Rounding::Ceil);
    let copy = clock;
    let clone = clock.clone();
    assert_eq!(clock.to_string(), "🕟");
    assert_eq!(copy.to_string(), "🕟");
    assert_eq!(clone.to_string(), "🕟");
    assert_eq!(format!("{:?}", Rounding::Ceil), "Ceil");
}
