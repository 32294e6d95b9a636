use iced_navigation::animation::{Curve, Frame, COMPLETE, DEFAULT_DURATION};

#[test]
fn new_frame_is_at_zero() {
    let frame = Frame::new();
    assert!(!frame.is_complete());
    assert_eq!(frame.get_value(), 0);
}

#[test]
fn advance_halfway_gives_half() {
    let mut frame = Frame::new();
    frame.advance((DEFAULT_DURATION / 2) as u128);
    assert_eq!(frame.get_value(), COMPLETE / 2);
    assert!(!frame.is_complete());
}

#[test]
fn reverse_curve_counts_down() {
    let mut frame = Frame::new().duration(200_000).map(Curve::Reverse);
    assert_eq!(frame.get_value(), COMPLETE);
    frame.advance(50_000);
    assert_eq!(frame.get_value(), 75_000);
    frame.advance(200_000);
    assert!(frame.is_complete());
    assert_eq!(frame.get_value(), 0);
}

#[test]
fn completes_exactly_when_the_duration_has_passed() {
    let mut frame = Frame::new().duration(1_000);
    for elapsed in [0u128, 1, 500, 999] {
        frame.advance(elapsed);
        assert!(!frame.is_complete());
    }
    frame.advance(1_000);
    assert!(frame.is_complete());
    assert_eq!(frame.get_value(), COMPLETE);
    for elapsed in [1_000u128, 1_001, u128::MAX] {
        frame.advance(elapsed);
        assert!(frame.is_complete());
        assert_eq!(frame.get_value(), COMPLETE);
    }
}

#[test]
fn progress_rounds_down() {
    let mut frame = Frame::new().duration(3);
    frame.advance(1);
    assert_eq!(frame.get_value(), 33_333);
    frame.advance(2);
    assert_eq!(frame.get_value(), 66_666);
    let mut long = Frame::new().duration(u64::MAX);
    long.advance((u64::MAX - 1) as u128);
    assert_eq!(long.get_value(), 99_999);
    assert!(!long.is_complete());
}

#[test]
fn frame_without_duration_is_complete_at_once() {
    let mut frame = Frame::new().duration(0);
    assert!(!frame.is_complete());
    frame.advance(0);
    assert!(frame.is_complete());
    let mut clocked = Frame::new().duration(0);
    clocked.update();
    assert!(clocked.is_complete());
}

#[test]
fn update_reads_the_clock() {
    let mut frame = Frame::new().duration(u64::MAX);
    frame.update();
    assert!(!frame.is_complete());
    assert!(frame.get_value() < COMPLETE);
    let mut short = Frame::new().duration(1);
    let started = std::time::Instant::now();
    while started.elapsed().as_micros() < 2 {}
    short.update();
    assert!(short.is_complete());
}

#[test]
fn progress_never_runs_backwards() {
    let mut frame = Frame::new().duration(777);
    let mut last = 0;
    for elapsed in 0..900u128 {
        frame.advance(elapsed);
        let value = frame.get_value();
        assert!(value >= last);
        assert!(value <= COMPLETE);
        last = value;
    }
    assert_eq!(last, COMPLETE);
}
