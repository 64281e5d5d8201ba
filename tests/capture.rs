use screen_capture_core::capture::{copy_prefix, WAIT_TIMEOUT_CODE};
use screen_capture_core::{CaptureError, DesktopCapture};

const E_FAIL: i32 = 0x80004005u32 as i32;

fn bytes(n: usize) -> Vec<u8> {
    (0..n).map(|i| (i % 251) as u8).collect()
}

#[test]
fn new_rejects_non_positive_dimensions() {
    assert_eq!(DesktopCapture::new(0, 1080).err(), Some(CaptureError::SurfaceAllocation));
    assert_eq!(DesktopCapture::new(1920, -1).err(), Some(CaptureError::SurfaceAllocation));
}

#[test]
fn new_keeps_dimensions_and_holds_no_frame() {
    let c = DesktopCapture::new(1920, 1080).unwrap();
    assert_eq!(c.get_dimensions(), (1920, 1080));
    assert!(!c.is_frame_held());
}

#[test]
fn acquire_outcomes_follow_the_status_code() {
    let mut c = DesktopCapture::new(4, 2).unwrap();
    assert_eq!(c.record_acquire(WAIT_TIMEOUT_CODE), Err(CaptureError::AcquisitionTimeout));
    assert!(!c.is_frame_held());
    assert_eq!(c.record_acquire(E_FAIL), Err(CaptureError::AcquisitionFatal));
    assert!(!c.is_frame_held());
    assert_eq!(c.record_acquire(0), Ok(()));
    assert!(c.is_frame_held());
}

#[test]
fn buffer_length_uses_row_pitch_not_width() {
    let c = DesktopCapture::new(3, 2).unwrap();
    assert_eq!(c.buffer_len(16), 32);
    assert_eq!(c.buffer_len(12), 24);
}

#[test]
fn successful_cycle_copies_pitch_times_height_and_releases() {
    let mut c = DesktopCapture::new(3, 2).unwrap();
    let src = bytes(40);
    c.record_acquire(0).unwrap();
    let buf = c.finish_cycle(Some((&src, 16))).unwrap();
    assert_eq!(buf.len(), 32);
    assert_eq!(&buf[..], &src[..32]);
    assert!(!c.is_frame_held());
}

#[test]
fn failed_mapping_still_releases_the_frame() {
    let mut c = DesktopCapture::new(3, 2).unwrap();
    c.record_acquire(0).unwrap();
    assert_eq!(c.finish_cycle(None), Err(CaptureError::MapFailed));
    assert!(!c.is_frame_held());
    c.record_acquire(0).unwrap();
    let short = bytes(31);
    assert_eq!(c.finish_cycle(Some((&short, 16))), Err(CaptureError::MapFailed));
    assert!(!c.is_frame_held());
}

#[test]
fn repeated_timeouts_leave_the_next_frame_intact() {
    let mut c = DesktopCapture::new(2, 3).unwrap();
    for _ in 0..5 {
        assert_eq!(c.record_acquire(WAIT_TIMEOUT_CODE), Err(CaptureError::AcquisitionTimeout));
    }
    assert_eq!(c.get_dimensions(), (2, 3));
    assert!(!c.is_frame_held());
    c.record_acquire(1).unwrap();
    let src = bytes(30);
    let buf = c.finish_cycle(Some((&src, 8))).unwrap();
    assert_eq!(buf, src[..24].to_vec());
}

#[test]
fn copy_prefix_takes_exactly_the_prefix() {
    let src = bytes(10);
    assert_eq!(copy_prefix(&src, 0), Vec::<u8>::new());
    assert_eq!(copy_prefix(&src, 4), vec![0, 1, 2, 3]);
    assert_eq!(copy_prefix(&src, 10), src);
}
