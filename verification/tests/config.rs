use wasm_audio::{PitchError, WasmPitchDetector};

#[test]
fn new_keeps_rate_and_window() {
    let detector = WasmPitchDetector::new(44100, 1024).unwrap();
    assert_eq!(detector.sample_rate(), 44100);
    assert_eq!(detector.window_size(), 1024);
}

#[test]
fn new_derives_padding_as_half_the_window() {
    let detector = WasmPitchDetector::new(44100, 1024).unwrap();
    assert_eq!(detector.padding(), 512);
    assert_eq!(detector.buffer_len(), 1536);
}

#[test]
fn new_rounds_padding_down_for_odd_window() {
    let detector = WasmPitchDetector::new(48000, 1025).unwrap();
    assert_eq!(detector.padding(), 512);
    assert_eq!(detector.buffer_len(), 1537);
}

#[test]
fn new_accepts_smallest_window() {
    let detector = WasmPitchDetector::new(1, 1).unwrap();
    assert_eq!(detector.sample_rate(), 1);
    assert_eq!(detector.window_size(), 1);
    assert_eq!(detector.padding(), 0);
    assert_eq!(detector.buffer_len(), 1);
}

#[test]
fn new_rejects_zero_sample_rate() {
    assert_eq!(
        WasmPitchDetector::new(0, 1024).unwrap_err(),
        PitchError::InvalidConfig
    );
}

#[test]
fn new_rejects_zero_window_size() {
    assert_eq!(
        WasmPitchDetector::new(44100, 0).unwrap_err(),
        PitchError::InvalidConfig
    );
}

#[test]
fn new_rejects_zero_rate_and_window() {
    assert_eq!(
        WasmPitchDetector::new(0, 0).unwrap_err(),
        PitchError::InvalidConfig
    );
}

#[test]
fn detector_is_a_plain_value() {
    let detector = WasmPitchDetector::new(8000, 256).unwrap();
    let copy = detector;
    assert_eq!(copy.sample_rate(), detector.sample_rate());
    assert_eq!(copy.window_size(), detector.window_size());
    assert_eq!(copy.padding(), detector.padding());
}

#[test]
fn new_accepts_the_largest_window_that_can_be_padded() {
    let half = usize::MAX / 3;
    let detector = WasmPitchDetector::new(44100, 2 * half).unwrap();
    assert_eq!(detector.window_size(), 2 * half);
    assert_eq!(detector.padding(), half);
    assert_eq!(detector.buffer_len(), 3 * half);
}
