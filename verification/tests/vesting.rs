use paystream::{vested, withdrawable_now, ErrorCode, Identity, Stream};

fn id(b: u8) -> Identity {
    Identity { bytes: [b; 32] }
}

#[test]
fn vested_is_linear_inside_the_window() {
    assert_eq!(vested(1000, 0, 100, 30), 300);
    assert_eq!(vested(1000, 0, 100, 50), 500);
    assert_eq!(vested(1000, 0, 100, 99), 990);
}

#[test]
fn vested_at_start_is_zero() {
    assert_eq!(vested(1000, 10, 110, 10), 0);
    assert_eq!(vested(u64::MAX, -5, 5, -5), 0);
}

#[test]
fn vested_before_start_is_zero() {
    assert_eq!(vested(1000, 10, 110, 9), 0);
    assert_eq!(vested(1000, 10, 110, i64::MIN), 0);
}

#[test]
fn vested_at_end_is_the_whole_amount() {
    assert_eq!(vested(1000, 10, 110, 110), 1000);
    assert_eq!(vested(7, 0, 3, 3), 7);
}

#[test]
fn vested_after_end_is_the_whole_amount() {
    assert_eq!(vested(1000, 10, 110, 111), 1000);
    assert_eq!(vested(1000, 10, 110, i64::MAX), 1000);
}

#[test]
fn vested_at_midpoint_of_an_even_window_is_half() {
    assert_eq!(vested(1000, 0, 100, 50), 500);
    assert_eq!(vested(1001, 0, 100, 50), 500);
    assert_eq!(vested(1, 20, 30, 25), 0);
    assert_eq!(vested(u64::MAX, 0, 2, 1), u64::MAX / 2);
}

#[test]
fn vested_at_midpoint_of_an_odd_window() {
    // an odd amount up to the duration still halves
    assert_eq!(vested(5, 0, 7, 3), 2);
    assert_eq!(vested(7, 0, 7, 3), 3);
    // every other amount falls short of its half
    assert_eq!(vested(1000, 0, 3, 1), 333);
    assert_eq!(vested(9, 0, 7, 3), 3);
    assert_eq!(vested(4, 0, 7, 3), 1);
    // a window of one second has its midpoint at its start
    assert_eq!(vested(1000, 0, 1, 0), 0);
}

#[test]
fn vested_rounds_down() {
    assert_eq!(vested(10, 0, 3, 1), 3);
    assert_eq!(vested(10, 0, 3, 2), 6);
    assert_eq!(vested(1, 0, 1000, 999), 0);
}

#[test]
fn vested_does_not_overflow_at_the_extremes() {
    // elapsed = 2^63, total = 2^64 - 1, amount = 2^64 - 1
    assert_eq!(vested(u64::MAX, i64::MIN, i64::MAX, 0), 1u64 << 63);
    assert_eq!(vested(u64::MAX, i64::MIN, i64::MAX, i64::MAX - 1), u64::MAX - 1);
    assert_eq!(vested(u64::MAX, i64::MIN, i64::MAX, i64::MIN + 1), 1);
}

#[test]
fn vested_never_shrinks_and_never_exceeds_the_amount() {
    let mut last = 0;
    for now in -5..120 {
        let v = vested(977, 3, 104, now);
        assert!(v >= last);
        assert!(v <= 977);
        last = v;
    }
    assert_eq!(last, 977);
}

#[test]
fn withdrawable_now_is_vested_less_withdrawn() {
    let fresh = Stream::new(id(1), id(2), 0, 100, 1000).unwrap();
    assert_eq!(withdrawable_now(&fresh, 0), Ok(0));
    assert_eq!(withdrawable_now(&fresh, 30), Ok(300));
    assert_eq!(withdrawable_now(&fresh, 100), Ok(1000));
    let partly = Stream::restore(id(1), id(2), 0, 100, 1000, 300, true).unwrap();
    assert_eq!(withdrawable_now(&partly, 30), Ok(0));
    assert_eq!(withdrawable_now(&partly, 75), Ok(450));
    assert_eq!(withdrawable_now(&partly, 1000), Ok(700));
}

#[test]
fn withdrawable_now_refuses_a_negative_result() {
    let partly = Stream::restore(id(1), id(2), 0, 100, 1000, 300, true).unwrap();
    assert_eq!(withdrawable_now(&partly, 29), Err(ErrorCode::ArithmeticUnderflow));
    assert_eq!(withdrawable_now(&partly, -1), Err(ErrorCode::ArithmeticUnderflow));
}
