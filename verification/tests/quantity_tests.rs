use heliocentric::quantity::{
    Quantity, FULL_TURN, ONE, RATE_LIMIT, UNITS_PER_ONE, UNITS_PER_TURN,
};
use heliocentric::time::{DayCount, NANOS_PER_DAY};

#[test]
fn the_scales_fit_together() {
    assert_eq!(ONE, UNITS_PER_ONE * NANOS_PER_DAY);
    assert_eq!(FULL_TURN, 360 * ONE);
    assert_eq!(UNITS_PER_TURN, 360 * UNITS_PER_ONE);
    assert_eq!(RATE_LIMIT as i128, 10 * UNITS_PER_ONE);
}

#[test]
fn new_takes_a_part_below_a_unit() {
    let q = Quantity::new(7, 5).unwrap();
    assert_eq!(q.units(), 7);
    assert_eq!(q.part(), 5);
    assert_eq!(q.split(), (7, 5));
    assert!(Quantity::new(0, 86_399_999_999_999).is_some());
    assert_eq!(Quantity::new(0, 86_400_000_000_000), None);
    assert_eq!(Quantity::new(-4, u64::MAX), None);
}

#[test]
fn from_units_has_no_part() {
    assert_eq!(Quantity::from_units(-12).split(), (-12, 0));
    assert_eq!(Quantity::from_units(i128::MAX).split(), (i128::MAX, 0));
    assert_eq!(Some(Quantity::from_units(3)), Quantity::new(3, 0));
}

#[test]
fn linear_at_the_epoch_is_the_base() {
    let q = Quantity::linear(48_331_300_000_000, 32_458_700, DayCount { nanos: 0 });
    assert_eq!(q.split(), (48_331_300_000_000, 0));
}

#[test]
fn linear_after_whole_days() {
    // 48.3313 + 3.24587E-5 * 1000 = 48.3637587
    let q = Quantity::linear(48_331_300_000_000, 32_458_700, DayCount::from_days(1000));
    assert_eq!(q.split(), (48_363_758_700_000, 0));
    // 19.18171 - 1.55E-8 * 1000 = 19.1816945
    let q = Quantity::linear(19_181_710_000_000, -15_500, DayCount::from_days(1000));
    assert_eq!(q.split(), (19_181_694_500_000, 0));
}

#[test]
fn linear_keeps_what_a_nanosecond_adds() {
    let q = Quantity::linear(168_656_200_000_000, 4_092_334_436_800, DayCount { nanos: 1 });
    assert_eq!(q.split(), (168_656_200_000_000, 4_092_334_436_800));
    let q = Quantity::linear(48_331_300_000_000, 32_458_700, DayCount { nanos: -1 });
    assert_eq!(q.split(), (48_331_299_999_999, 86_399_967_541_300));
}

#[test]
fn linear_with_the_fastest_rates() {
    let q = Quantity::linear(0, RATE_LIMIT, DayCount { nanos: NANOS_PER_DAY / 2 });
    assert_eq!(q.split(), (5_000_000_000_000, 0));
    let q = Quantity::linear(0, -RATE_LIMIT, DayCount { nanos: 1 });
    assert_eq!(q.split(), (-1, 76_400_000_000_000));
    let q = Quantity::linear(i64::MAX, RATE_LIMIT, DayCount { nanos: i128::MAX });
    let (units, part) = q.split();
    assert!(units > 0);
    assert!((part as i128) < NANOS_PER_DAY);
    let q = Quantity::linear(i64::MIN, RATE_LIMIT, DayCount { nanos: i128::MIN });
    assert!(q.units() < 0);
}

#[test]
fn linear_at_the_ends_of_the_range() {
    let q = Quantity::linear(48_331_300_000_000, 32_458_700, DayCount { nanos: i128::MAX });
    assert_eq!(q.split(), (63_918_537_402_642_739_076_216_932_929_661, 57_022_560_974_900));
    let q = Quantity::linear(48_331_300_000_000, 32_458_700, DayCount { nanos: i128::MIN });
    assert_eq!(q.split(), (-63_918_537_402_642_738_979_554_332_929_662, 29_377_406_566_400));
}

#[test]
fn wrap_turn_leaves_an_angle_in_range_alone() {
    let q = Quantity::new(359_999_999_999_999, 86_399_999_999_999).unwrap();
    assert_eq!(q.wrap_turn(), q);
    let zero = Quantity::from_units(0);
    assert_eq!(zero.wrap_turn(), zero);
}

#[test]
fn wrap_turn_takes_whole_turns_off() {
    assert_eq!(Quantity::from_units(360_000_000_000_000).wrap_turn(), Quantity::from_units(0));
    assert_eq!(
        Quantity::from_units(725_500_000_000_000).wrap_turn(),
        Quantity::from_units(5_500_000_000_000)
    );
    let q = Quantity::new(360_000_000_000_000, 17).unwrap();
    assert_eq!(q.wrap_turn().split(), (0, 17));
}

#[test]
fn wrap_turn_brings_negative_angles_up() {
    assert_eq!(
        Quantity::from_units(-1).wrap_turn(),
        Quantity::from_units(359_999_999_999_999)
    );
    assert_eq!(
        Quantity::from_units(-629_553_258_500_000).wrap_turn(),
        Quantity::from_units(90_446_741_500_000)
    );
    assert_eq!(
        Quantity::from_units(-720_000_000_000_000).wrap_turn(),
        Quantity::from_units(0)
    );
    let q = Quantity::new(-1, 1).unwrap();
    assert_eq!(q.wrap_turn().split(), (359_999_999_999_999, 1));
}

#[test]
fn wrap_turn_at_the_ends_of_the_range() {
    let (units, part) = Quantity::new(i128::MAX, 3).unwrap().wrap_turn().split();
    assert_eq!(units, i128::MAX % 360_000_000_000_000);
    assert_eq!(part, 3);
    let (units, _) = Quantity::from_units(i128::MIN).wrap_turn().split();
    assert_eq!(units, i128::MIN.rem_euclid(360_000_000_000_000));
}
