use screen_capture_core::input::key_is_down;
use screen_capture_core::InputHandler;

#[test]
fn every_frame_is_processed() {
    let mut h = InputHandler::new();
    for _ in 0..10 {
        assert!(!h.should_skip_frame());
    }
}

#[test]
fn key_state_high_bit_means_down() {
    assert!(key_is_down(i16::MIN));
    assert!(key_is_down(0x8001u16 as i16));
    assert!(key_is_down(-1));
    assert!(!key_is_down(0));
    assert!(!key_is_down(1));
    assert!(!key_is_down(0x7FFF));
}
