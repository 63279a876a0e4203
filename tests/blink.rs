use sonar_display::blink::calculate_blink_delay;

#[test]
fn blink_delay_boundaries() {
    assert_eq!(calculate_blink_delay(2), 50);
    assert_eq!(calculate_blink_delay(3), 100);
    assert_eq!(calculate_blink_delay(8), 200);
    assert_eq!(calculate_blink_delay(9), 400);
    assert_eq!(calculate_blink_delay(16), 400);
    assert_eq!(calculate_blink_delay(17), 700);
    assert_eq!(calculate_blink_delay(33), 1000);
}

#[test]
fn blink_delay_extremes() {
    assert_eq!(calculate_blink_delay(0), 50);
    assert_eq!(calculate_blink_delay(4), 100);
    assert_eq!(calculate_blink_delay(5), 200);
    assert_eq!(calculate_blink_delay(32), 700);
    assert_eq!(calculate_blink_delay(u16::MAX), 1000);
}

#[test]
fn blink_delay_never_shrinks_with_distance() {
    let mut last = calculate_blink_delay(0);
    for d in 1..=200u16 {
        let now = calculate_blink_delay(d);
        assert!(now >= last);
        last = now;
    }
}
