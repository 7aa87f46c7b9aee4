//! Clock, timeline and status-text behavior.

use sparticles::clock::Clock;
use sparticles::lifecycle::{LifeCycle, PPM};
use sparticles::text::{decimal_string, two_digit_string};

#[test]
fn clock_starts_at_origin() {
    let c = Clock::new();
    assert_eq!(c.frame(), 0);
    assert_eq!(c.delta(), 0);
    assert_eq!(c.get_bindgroup_nr(), 0);
    assert_eq!(c.get_alt_bindgroup_nr(), 1);
}

#[test]
fn clock_advances_only_while_playing() {
    let mut c = Clock::new();
    c.update(10_000_000, false);
    assert_eq!(c.frame(), 0);
    assert_eq!(c.delta(), 10_000_000);
    c.update(30_000_000, true);
    assert_eq!(c.frame(), 1);
    assert_eq!(c.delta(), 20_000_000);
}

#[test]
fn parity_alternates_with_frames() {
    let mut c = Clock::new();
    let mut last_write;
    c.update(1_000_000, true);
    assert_eq!(c.frame(), 1);
    assert_eq!(c.get_bindgroup_nr(), 1);
    assert_eq!(c.get_alt_bindgroup_nr(), 0);
    // The buffer written at frame N is the buffer read at frame N + 1:
    // bind group i reads buffer i and writes buffer (i + 1) % 2.
    last_write = (c.get_bindgroup_nr() + 1) % 2;
    c.update(2_000_000, true);
    assert_eq!(c.get_bindgroup_nr(), last_write);
    last_write = (c.get_bindgroup_nr() + 1) % 2;
    c.update(3_000_000, true);
    assert_eq!(c.get_bindgroup_nr(), last_write);
}

#[test]
fn render_samples_the_buffer_just_written() {
    let mut c = Clock::new();
    for now in [5_000_000u64, 10_000_000, 15_000_000, 20_000_000] {
        c.update(now, true);
        let written = (c.get_bindgroup_nr() + 1) % 2;
        assert_eq!(c.get_alt_bindgroup_nr(), written);
    }
}

#[test]
fn cpu_time_measures_since_update() {
    let mut c = Clock::new();
    c.update(1_000_000_000, true);
    c.measure_cpu_time(1_000_123_450);
    assert_eq!(c.cpu_time_ns, 123_450);
    assert_eq!(c.cpu_time_text(), "CPU time micro sec: 123.45");
}

#[test]
fn fps_text_rounds_to_nearest() {
    let mut c = Clock::new();
    c.update(16_666_667, true);
    assert_eq!(c.fps_text(), "FPS: 60");
    let mut d = Clock::new();
    d.update(0, true);
    assert_eq!(d.fps_text(), "FPS: 0");
}

#[test]
fn frame_time_text_rounds_to_nearest_ms() {
    let mut c = Clock::new();
    c.update(16_499_999, true);
    assert_eq!(c.frame_time_text(), "Frame time ms: 16");
    let mut d = Clock::new();
    d.update(16_500_000, true);
    assert_eq!(d.frame_time_text(), "Frame time ms: 17");
}

#[test]
fn total_elapsed_text_shows_hundredths() {
    let mut c = Clock::new();
    c.update(12_340_000_000, true);
    assert_eq!(c.total_elapsed_text(), "Time running: 12.34");
}

#[test]
fn decimal_rendering_is_exact() {
    assert_eq!(decimal_string(0), "0");
    assert_eq!(decimal_string(7), "7");
    assert_eq!(decimal_string(10), "10");
    assert_eq!(decimal_string(18_446_744_073_709_551_615), "18446744073709551615");
    assert_eq!(two_digit_string(0), "00");
    assert_eq!(two_digit_string(5), "05");
    assert_eq!(two_digit_string(99), "99");
}

#[test]
fn lifecycle_wraps_by_lifetime() {
    let lc = LifeCycle { from_ms: 0, until_ms: 6_000, lifetime_ms: 12_000 };
    assert_eq!(lc.current_ms(0), 0);
    assert_eq!(lc.current_ms(11_999), 11_999);
    assert_eq!(lc.current_ms(12_000), 0);
    assert_eq!(lc.current_ms(25_500), 1_500);
}

#[test]
fn zero_lifetime_never_wraps() {
    let lc = LifeCycle { from_ms: 1_000, until_ms: 3_000, lifetime_ms: 0 };
    // Evaluation against a zero lifetime performs no division at all: the
    // raw elapsed reading comes back unchanged, for any input.
    assert_eq!(lc.current_ms(0), 0);
    assert_eq!(lc.current_ms(2_000), 2_000);
    assert_eq!(lc.current_ms(u64::MAX), u64::MAX);
}

#[test]
fn active_window_is_half_open() {
    let lc = LifeCycle { from_ms: 1_000, until_ms: 3_000, lifetime_ms: 4_000 };
    assert!(!lc.is_active(999));
    assert!(lc.is_active(1_000));
    assert!(lc.is_active(2_999));
    assert!(!lc.is_active(3_000));
}

#[test]
fn empty_window_is_never_active() {
    let lc = LifeCycle { from_ms: 2_000, until_ms: 2_000, lifetime_ms: 4_000 };
    for c in [0u64, 1_999, 2_000, 2_001, 3_999] {
        assert!(!lc.is_active(c));
    }
}

#[test]
fn inverted_window_is_never_active() {
    let lc = LifeCycle { from_ms: 3_000, until_ms: 1_000, lifetime_ms: 4_000 };
    for c in [0u64, 1_000, 2_000, 3_000, 3_999] {
        assert!(!lc.is_active(c));
    }
}

#[test]
fn progress_is_exact_and_monotonic() {
    let lc = LifeCycle { from_ms: 1_000, until_ms: 3_000, lifetime_ms: 4_000 };
    assert_eq!(lc.progress_ppm(1_000), 0);
    assert_eq!(lc.progress_ppm(1_500), 250_000);
    assert_eq!(lc.progress_ppm(2_000), 500_000);
    assert_eq!(lc.progress_ppm(2_999), 999_500);
    let mut prev = 0u64;
    for c in 1_000..3_000u64 {
        let p = lc.progress_ppm(c);
        assert!(p >= prev);
        assert!(p < PPM);
        prev = p;
    }
}
