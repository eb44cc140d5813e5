use paystream::{ErrorCode, Identity, Stream};

fn id(b: u8) -> Identity {
    Identity { bytes: [b; 32] }
}

#[test]
fn identities_are_compared_byte_by_byte() {
    let a = id(7);
    let mut b = id(7);
    assert!(a == b);
    b.bytes[31] = 8;
    assert!(a != b);
    let mut c = id(7);
    c.bytes[0] = 0;
    assert!(a != c);
}

#[test]
fn new_stream_starts_active_with_nothing_withdrawn() {
    let s = Stream::new(id(1), id(2), 40, 100, 1000).unwrap();
    assert_eq!(s.sender(), id(1));
    assert_eq!(s.receiver(), id(2));
    assert_eq!(s.start_time(), 40);
    assert_eq!(s.end_time(), 140);
    assert_eq!(s.amount(), 1000);
    assert_eq!(s.withdrawn_amount(), 0);
    assert!(s.is_active());
}

#[test]
fn new_stream_refuses_a_duration_that_is_not_positive() {
    assert_eq!(Stream::new(id(1), id(2), 0, 0, 1000), Err(ErrorCode::InvalidDuration));
    assert_eq!(Stream::new(id(1), id(2), 0, -1, 1000), Err(ErrorCode::InvalidDuration));
    assert_eq!(Stream::new(id(1), id(2), 0, i64::MIN, 1000), Err(ErrorCode::InvalidDuration));
}

#[test]
fn new_stream_refuses_no_funds() {
    assert_eq!(Stream::new(id(1), id(2), 0, 100, 0), Err(ErrorCode::InvalidAmount));
}

#[test]
fn new_stream_checks_the_duration_before_the_amount() {
    assert_eq!(Stream::new(id(1), id(2), 0, 0, 0), Err(ErrorCode::InvalidDuration));
}

#[test]
fn new_stream_refuses_a_window_that_ends_past_the_last_second() {
    assert_eq!(Stream::new(id(1), id(2), i64::MAX, 1, 1000), Err(ErrorCode::ArithmeticOverflow));
    assert_eq!(Stream::new(id(1), id(2), 1, i64::MAX, 1000), Err(ErrorCode::ArithmeticOverflow));
    let last = Stream::new(id(1), id(2), i64::MAX - 1, 1, 1000).unwrap();
    assert_eq!(last.end_time(), i64::MAX);
}

#[test]
fn restore_gives_back_the_stored_fields() {
    let s = Stream::restore(id(1), id(2), -10, 10, 500, 120, false).unwrap();
    assert_eq!(s.sender(), id(1));
    assert_eq!(s.receiver(), id(2));
    assert_eq!(s.start_time(), -10);
    assert_eq!(s.end_time(), 10);
    assert_eq!(s.amount(), 500);
    assert_eq!(s.withdrawn_amount(), 120);
    assert!(!s.is_active());
}

#[test]
fn restore_refuses_fields_that_no_stream_can_have() {
    assert_eq!(
        Stream::restore(id(1), id(2), 10, 10, 500, 0, true),
        Err(ErrorCode::InvalidDuration)
    );
    assert_eq!(
        Stream::restore(id(1), id(2), 10, 9, 500, 0, true),
        Err(ErrorCode::InvalidDuration)
    );
    assert_eq!(Stream::restore(id(1), id(2), 0, 10, 0, 0, true), Err(ErrorCode::InvalidAmount));
    assert_eq!(
        Stream::restore(id(1), id(2), 0, 10, 500, 501, true),
        Err(ErrorCode::ArithmeticOverflow)
    );
    assert!(Stream::restore(id(1), id(2), 0, 10, 500, 500, true).is_ok());
}

#[test]
fn credited_adds_to_the_withdrawn_amount() {
    let s = Stream::new(id(1), id(2), 0, 100, 1000).unwrap();
    let t = s.credited(400, false).unwrap();
    assert_eq!(t.withdrawn_amount(), 400);
    assert!(t.is_active());
    let u = t.credited(600, true).unwrap();
    assert_eq!(u.withdrawn_amount(), 1000);
    assert!(!u.is_active());
    // nothing else changes
    assert_eq!(u.sender(), s.sender());
    assert_eq!(u.receiver(), s.receiver());
    assert_eq!(u.start_time(), s.start_time());
    assert_eq!(u.end_time(), s.end_time());
    assert_eq!(u.amount(), s.amount());
    // and the record it was made from is as before
    assert_eq!(s.withdrawn_amount(), 0);
}

#[test]
fn credited_refuses_more_than_the_amount() {
    let s = Stream::new(id(1), id(2), 0, 100, 1000).unwrap();
    assert_eq!(s.credited(1001, false), Err(ErrorCode::ArithmeticOverflow));
    let t = s.credited(400, false).unwrap();
    assert_eq!(t.credited(601, false), Err(ErrorCode::ArithmeticOverflow));
    assert_eq!(t.credited(u64::MAX, true), Err(ErrorCode::ArithmeticOverflow));
}

#[test]
fn credited_refuses_a_closed_stream() {
    let s = Stream::new(id(1), id(2), 0, 100, 1000).unwrap();
    let closed = s.credited(0, true).unwrap();
    assert_eq!(closed.credited(0, false), Err(ErrorCode::StreamInactive));
    assert_eq!(closed.credited(1, true), Err(ErrorCode::StreamInactive));
    // a closed stream is refused before the amount is looked at
    assert_eq!(closed.credited(u64::MAX, false), Err(ErrorCode::StreamInactive));
}
