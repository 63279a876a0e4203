use sonar_display::ranging::{distance, EchoAction, EchoPhase, EchoTimer, MAX_SAMPLES};

/// Feeds samples from `level` until the timer reports; returns the distance
/// and the number of samples taken.
fn run_timer(mut level: impl FnMut(u32) -> Option<bool>) -> (u16, u32) {
    let mut timer = EchoTimer::new();
    let mut n: u32 = 0;
    loop {
        let action = timer.step(level(n));
        n += 1;
        if let EchoAction::Report(cm) = action {
            return (cm, n);
        }
        assert!(n <= MAX_SAMPLES);
    }
}

#[test]
fn distance_divides_by_58() {
    assert_eq!(distance(0), 0);
    assert_eq!(distance(57), 0);
    assert_eq!(distance(58), 1);
    assert_eq!(distance(580), 10);
    assert_eq!(distance(30000), 517);
    for d in 0..=u16::MAX {
        assert_eq!(distance(d), d / 58);
    }
}

#[test]
fn distance_is_monotonic() {
    let mut last = distance(0);
    for d in 1..=u16::MAX {
        let now = distance(d);
        assert!(now >= last);
        last = now;
    }
}

#[test]
fn echo_of_580_us_reads_10_cm() {
    // low for 5 samples, high for 580, then low
    let (cm, _) = run_timer(|n| Some(!(n < 5 || n >= 5 + 1 + 580)));
    assert_eq!(cm, 10);
}

#[test]
fn silent_sensor_gives_zero_in_bounded_time() {
    let (cm, n) = run_timer(|_| Some(false));
    assert_eq!(cm, 0);
    assert_eq!(n, 1000 + 1 + 1);
}

#[test]
fn stuck_high_echo_is_capped() {
    let (cm, n) = run_timer(|_| Some(true));
    assert_eq!(cm, 30000 / 58);
    assert_eq!(n, 1 + 30000 + 1);
}

#[test]
fn late_stuck_high_echo_takes_at_most_the_bound() {
    let (cm, n) = run_timer(|n| Some(n >= 1000));
    assert_eq!(cm, 30000 / 58);
    assert_eq!(n, MAX_SAMPLES);
}

#[test]
fn failed_reads_end_both_waits() {
    let (cm, n) = run_timer(|_| None);
    assert_eq!(cm, 0);
    assert_eq!(n, 2);
}

#[test]
fn finished_timer_keeps_reporting() {
    let mut timer = EchoTimer::new();
    assert_eq!(timer.step(Some(true)), EchoAction::SampleNow);
    assert_eq!(timer.step(Some(true)), EchoAction::WaitMicro);
    assert_eq!(timer.step(Some(false)), EchoAction::Report(0));
    assert_eq!(timer.phase, EchoPhase::Finished);
    assert_eq!(timer.step(Some(true)), EchoAction::Report(0));
    assert_eq!(timer.pulse, 1);
}
