use screen_capture_core::fps_counter::FPS_UPDATE_INTERVAL_US;
use screen_capture_core::{FPSCounter, FpsStats};

fn report_after(c: &mut FPSCounter, ticks: u32, now_us: u64) -> Option<FpsStats> {
    for _ in 0..ticks {
        c.increment();
    }
    c.update(now_us)
}

#[test]
fn sixty_ticks_in_one_second() {
    let mut c = FPSCounter::new(0);
    let r = report_after(&mut c, 60, 1_000_000).unwrap();
    assert_eq!(r.current_mfps, 60_000);
    assert_eq!(r.average_mfps, 60_000);
    assert_eq!(r.frame_time_us, Some(16_666));
    assert_eq!(c.frame_count, 0);
    let fps = r.current_mfps as f64 / 1000.0;
    let frame_ms = r.frame_time_us.unwrap() as f64 / 1000.0;
    assert!((fps - 60.0).abs() < 1e-9);
    assert!((frame_ms - 16.67).abs() < 0.01);
}

#[test]
fn sixth_report_evicts_the_first() {
    let mut c = FPSCounter::new(0);
    let mut now = 0u64;
    for k in 1..=5u32 {
        now += 1_000_000;
        report_after(&mut c, 10 * k, now).unwrap();
    }
    assert_eq!(c.average_fps(), 30_000);
    now += 1_000_000;
    let r = report_after(&mut c, 60, now).unwrap();
    // 20, 30, 40, 50, 60 remain: the first report's 10 is gone.
    assert_eq!(r.average_mfps, 40_000);
    assert_eq!(c.average_fps(), 40_000);
}

#[test]
fn report_without_elapsed_time_is_skipped() {
    let mut c = FPSCounter::new(500);
    c.increment();
    assert_eq!(c.update(500), None);
    assert_eq!(c.frame_count, 1);
    let first = c.update(1_500).unwrap();
    assert_eq!(first.current_mfps, 1_000_000);
    assert_eq!(c.update(1_500), None);
}

#[test]
fn no_ticks_gives_zero_rate_and_no_frame_time() {
    let mut c = FPSCounter::new(0);
    let r = c.update(2_000_000).unwrap();
    assert_eq!(r, FpsStats { current_mfps: 0, average_mfps: 0, frame_time_us: None });
}

#[test]
fn should_update_after_one_interval() {
    let c = FPSCounter::new(1_000);
    assert!(!c.should_update(1_000));
    assert!(!c.should_update(1_000 + FPS_UPDATE_INTERVAL_US - 1));
    assert!(c.should_update(1_000 + FPS_UPDATE_INTERVAL_US));
    assert!(!c.should_update(0));
}

#[test]
fn average_rounds_down() {
    let mut c = FPSCounter::new(0);
    report_after(&mut c, 1, 3_000_000).unwrap();
    assert_eq!(c.average_fps(), 333);
    let r = report_after(&mut c, 2, 6_000_000).unwrap();
    assert_eq!(r.current_mfps, 666);
    assert_eq!(r.average_mfps, 499);
    assert_eq!(r.frame_time_us, Some(1_500_000));
}
