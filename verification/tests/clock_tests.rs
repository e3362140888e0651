use retro_chat::clock::Clock;

#[test]
fn clock_accepts_times_of_day_only() {
    assert!(Clock::new(0, 0, 0).is_some());
    assert!(Clock::new(23, 59, 59).is_some());
    assert!(Clock::new(24, 0, 0).is_none());
    assert!(Clock::new(23, 60, 0).is_none());
    assert!(Clock::new(23, 59, 60).is_none());
}

#[test]
fn timestamp_is_zero_padded() {
    assert_eq!(Clock::new(9, 5, 7).unwrap().timestamp(), "09:05:07");
    assert_eq!(Clock::new(0, 0, 0).unwrap().timestamp(), "00:00:00");
    assert_eq!(Clock::new(23, 59, 59).unwrap().timestamp(), "23:59:59");
    assert_eq!(Clock::new(12, 30, 45).unwrap().timestamp(), "12:30:45");
}
