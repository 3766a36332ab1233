use readwrite_flow::clock::system_time_to_millis;
use std::time::{Duration, SystemTime, UNIX_EPOCH};

fn wall_clock() -> i64 {
    SystemTime::now().duration_since(UNIX_EPOCH).unwrap().as_millis() as i64
}

fn elapsed(time: SystemTime) -> Option<u128> {
    time.duration_since(UNIX_EPOCH).ok().map(|d| d.as_millis())
}

#[test]
fn system_time_to_millis_counts_from_the_epoch() {
    assert_eq!(system_time_to_millis(elapsed(UNIX_EPOCH)), 0);
    assert_eq!(system_time_to_millis(elapsed(UNIX_EPOCH + Duration::from_millis(1_234))), 1_234);
    assert_eq!(
        system_time_to_millis(elapsed(UNIX_EPOCH + Duration::from_millis(1_000_000_000_555))),
        1_000_000_000_555
    );
}

#[test]
fn system_time_to_millis_of_a_time_below_a_millisecond_step() {
    assert_eq!(system_time_to_millis(elapsed(UNIX_EPOCH + Duration::new(2, 999_999_999))), 2_999);
}

#[test]
fn system_time_before_the_epoch_becomes_the_current_time() {
    let before = wall_clock();
    let got = system_time_to_millis(elapsed(UNIX_EPOCH - Duration::from_secs(10)));
    let after = wall_clock();
    assert!(before <= got && got <= after);
}

#[test]
fn system_time_to_millis_keeps_small_counts() {
    assert_eq!(system_time_to_millis(Some(0)), 0);
    assert_eq!(system_time_to_millis(Some(5)), 5);
    assert_eq!(system_time_to_millis(Some(i64::MAX as u128)), i64::MAX);
}

#[test]
fn system_time_to_millis_of_a_count_that_does_not_fit_is_the_current_time() {
    for count in [1u128 << 63, (1u128 << 64) + 42, u128::MAX] {
        let before = wall_clock();
        let got = system_time_to_millis(Some(count));
        let after = wall_clock();
        assert!(before <= got && got <= after);
    }
}

#[test]
fn system_time_to_millis_without_a_count_is_the_current_time() {
    let before = wall_clock();
    let got = system_time_to_millis(None);
    let after = wall_clock();
    assert!(before <= got && got <= after);
}
