use wlan_engine::utils::{check_signal_strength, check_win32, Win32Error};

#[test]
fn quantization_boundaries() {
    assert_eq!(check_signal_strength(0), 0);
    assert_eq!(check_signal_strength(19), 0);
    assert_eq!(check_signal_strength(20), 1);
    assert_eq!(check_signal_strength(39), 1);
    assert_eq!(check_signal_strength(40), 2);
    assert_eq!(check_signal_strength(59), 2);
    assert_eq!(check_signal_strength(60), 3);
    assert_eq!(check_signal_strength(79), 3);
    assert_eq!(check_signal_strength(80), 4);
    assert_eq!(check_signal_strength(100), 4);
}

#[test]
fn quantization_above_range_shows_no_bars() {
    assert_eq!(check_signal_strength(101), 0);
    assert_eq!(check_signal_strength(u32::MAX), 0);
}

#[test]
fn quantization_is_monotonic_over_the_valid_range() {
    let mut previous = 0;
    for quality in 0..=100u32 {
        let bars = check_signal_strength(quality);
        assert!(bars <= 4);
        assert!(bars >= previous);
        previous = bars;
    }
}

#[test]
fn status_codes_are_checked() {
    assert_eq!(check_win32(0), Ok(()));
    assert_eq!(check_win32(5), Err(Win32Error(5)));
    assert_eq!(check_win32(5023), Err(Win32Error(5023)));
}
