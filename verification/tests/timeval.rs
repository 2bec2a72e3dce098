use snapcast_receiver::timeval::TimeVal;

#[test]
fn new_keeps_both_fields() {
    let t = TimeVal::new(-3, 12);
    assert_eq!(t.sec, -3);
    assert_eq!(t.usec, 12);
}

#[test]
fn from_micros_splits_seconds_and_microseconds() {
    assert_eq!(TimeVal::from_micros(0), Some(TimeVal { sec: 0, usec: 0 }));
    assert_eq!(TimeVal::from_micros(999_999), Some(TimeVal { sec: 0, usec: 999_999 }));
    assert_eq!(TimeVal::from_micros(1_000_000), Some(TimeVal { sec: 1, usec: 0 }));
    assert_eq!(
        TimeVal::from_micros(12_345_678_901),
        Some(TimeVal { sec: 12_345, usec: 678_901 })
    );
}

#[test]
fn from_micros_refuses_seconds_beyond_the_field() {
    let most = i32::MAX as u64 * 1_000_000 + 999_999;
    assert_eq!(
        TimeVal::from_micros(most),
        Some(TimeVal { sec: i32::MAX, usec: 999_999 })
    );
    assert_eq!(TimeVal::from_micros(most + 1), None);
    assert_eq!(TimeVal::from_micros(u64::MAX), None);
}

#[test]
fn sub_without_borrow() {
    let a = TimeVal::new(2, 100_000);
    let b = TimeVal::new(1, 50_000);
    assert_eq!(a.checked_sub(b), Some(TimeVal { sec: 1, usec: 50_000 }));
}

#[test]
fn sub_borrows_one_second() {
    let a = TimeVal::new(2, 100_000);
    let b = TimeVal::new(1, 900_000);
    assert_eq!(a.checked_sub(b), Some(TimeVal { sec: 0, usec: 200_000 }));
}

#[test]
fn sub_below_zero_comes_out_carried() {
    let a = TimeVal::new(0, 0);
    let b = TimeVal::new(0, 300_000);
    assert_eq!(a.checked_sub(b), Some(TimeVal { sec: -1, usec: 700_000 }));
}

#[test]
fn sub_borrows_as_often_as_needed() {
    let a = TimeVal::new(10, 0);
    let b = TimeVal::new(0, 2_500_000);
    assert_eq!(a.checked_sub(b), Some(TimeVal { sec: 7, usec: 500_000 }));
    let c = TimeVal::new(0, -1);
    assert_eq!(
        TimeVal::new(0, 0).checked_sub(c),
        Some(TimeVal { sec: 0, usec: 1 })
    );
    assert_eq!(
        c.checked_sub(TimeVal::new(0, 0)),
        Some(TimeVal { sec: -1, usec: 999_999 })
    );
}

#[test]
fn sub_refuses_what_cannot_be_stored() {
    assert_eq!(TimeVal::new(i32::MIN, 0).checked_sub(TimeVal::new(1, 0)), None);
    assert_eq!(TimeVal::new(i32::MAX, 0).checked_sub(TimeVal::new(-1, 0)), None);
    assert_eq!(TimeVal::new(i32::MIN, 0).checked_sub(TimeVal::new(0, 1)), None);
    assert_eq!(TimeVal::new(0, i32::MAX).checked_sub(TimeVal::new(0, -1)), None);
    assert_eq!(
        TimeVal::new(i32::MIN, 0).checked_sub(TimeVal::new(0, 0)),
        Some(TimeVal { sec: i32::MIN, usec: 0 })
    );
}

#[test]
fn add_without_carry() {
    let a = TimeVal::new(1, 100_000);
    let b = TimeVal::new(2, 200_000);
    assert_eq!(a.checked_add(b), Some(TimeVal { sec: 3, usec: 300_000 }));
}

#[test]
fn add_carries_into_seconds() {
    let a = TimeVal::new(1, 900_000);
    let b = TimeVal::new(0, 200_000);
    assert_eq!(a.checked_add(b), Some(TimeVal { sec: 2, usec: 100_000 }));
    let c = TimeVal::new(0, 1_500_000);
    assert_eq!(c.checked_add(c), Some(TimeVal { sec: 3, usec: 0 }));
}

#[test]
fn add_leaves_a_negative_microsecond_sum_alone() {
    let a = TimeVal::new(0, -300_000);
    let b = TimeVal::new(0, -900_000);
    assert_eq!(a.checked_add(b), Some(TimeVal { sec: 0, usec: -1_200_000 }));
}

#[test]
fn add_refuses_what_cannot_be_stored() {
    assert_eq!(TimeVal::new(i32::MAX, 0).checked_add(TimeVal::new(1, 0)), None);
    assert_eq!(
        TimeVal::new(i32::MAX, 999_999).checked_add(TimeVal::new(0, 1)),
        None
    );
    assert_eq!(TimeVal::new(i32::MIN, 0).checked_add(TimeVal::new(-1, 0)), None);
    assert_eq!(
        TimeVal::new(0, i32::MIN).checked_add(TimeVal::new(0, -1)),
        None
    );
}

#[test]
fn normalize_borrow_undoes_the_borrow_below_zero() {
    let t = TimeVal::new(-1, 700_000).normalize_borrow();
    assert_eq!(t, TimeVal { sec: 0, usec: -300_000 });
    let least = TimeVal::new(-1, 1).normalize_borrow();
    assert_eq!(least, TimeVal { sec: 0, usec: -999_999 });
}

#[test]
fn normalize_borrow_leaves_every_other_value() {
    for t in [
        TimeVal::new(0, 0),
        TimeVal::new(0, 5_000),
        TimeVal::new(0, -5_000),
        TimeVal::new(-1, 0),
        TimeVal::new(-1, -1),
        TimeVal::new(-2, 700_000),
        TimeVal::new(1, 700_000),
        TimeVal::new(i32::MIN, i32::MAX),
    ] {
        assert_eq!(t.normalize_borrow(), t);
    }
}

#[test]
fn normalized_usec_has_the_sign_of_a_short_duration() {
    let elapsed = TimeVal::new(100, 500_000);
    for (audible, micros) in [
        (TimeVal::new(100, 500_000), 0),
        (TimeVal::new(100, 500_001), 1),
        (TimeVal::new(100, 499_999), -1),
        (TimeVal::new(101, 499_999), 999_999),
        (TimeVal::new(99, 500_001), -999_999),
        (TimeVal::new(101, 0), 500_000),
        (TimeVal::new(100, 0), -500_000),
    ] {
        let left = audible.checked_sub(elapsed).unwrap().normalize_borrow();
        assert_eq!(left.sec, 0);
        assert_eq!(left.usec, micros);
    }
}

#[test]
fn abs_is_the_carried_magnitude() {
    assert_eq!(TimeVal::new(0, -300_000).abs(), Some(TimeVal { sec: 0, usec: 300_000 }));
    assert_eq!(TimeVal::new(-1, 700_000).abs(), Some(TimeVal { sec: 0, usec: 300_000 }));
    assert_eq!(TimeVal::new(-2, -250_000).abs(), Some(TimeVal { sec: 2, usec: 250_000 }));
    assert_eq!(TimeVal::new(3, 1_250_000).abs(), Some(TimeVal { sec: 4, usec: 250_000 }));
    assert_eq!(TimeVal::new(0, 0).abs(), Some(TimeVal { sec: 0, usec: 0 }));
}

#[test]
fn abs_refuses_a_magnitude_beyond_the_field() {
    assert_eq!(TimeVal::new(i32::MIN, 0).abs(), None);
    assert_eq!(
        TimeVal::new(i32::MIN, 1).abs(),
        Some(TimeVal { sec: i32::MAX, usec: 999_999 })
    );
    assert_eq!(TimeVal::new(i32::MAX, 1_000_000).abs(), None);
}

#[test]
fn millis_rounds_towards_zero() {
    assert_eq!(TimeVal::new(0, 0).millis(), Some(0));
    assert_eq!(TimeVal::new(0, 999).millis(), Some(0));
    assert_eq!(TimeVal::new(0, 1_000).millis(), Some(1));
    assert_eq!(TimeVal::new(2, 345_678).millis(), Some(2_345));
    assert_eq!(TimeVal::new(-1, 1_500_000).millis(), Some(500));
}

#[test]
fn millis_fails_below_zero_and_beyond_sixteen_bits() {
    assert_eq!(TimeVal::new(0, -1).millis(), None);
    assert_eq!(TimeVal::new(-1, 999_999).millis(), None);
    assert_eq!(TimeVal::new(65, 535_999).millis(), Some(65_535));
    assert_eq!(TimeVal::new(65, 536_000).millis(), None);
    assert_eq!(TimeVal::new(i32::MAX, 0).millis(), None);
}
