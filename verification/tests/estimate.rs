use wasm_audio::PitchEstimate;

#[test]
fn frequency_of_an_estimate_is_returned() {
    let estimate = Some(PitchEstimate {
        frequency: 441.25f32,
        clarity: 0.9f32,
    });
    assert_eq!(PitchEstimate::frequency_or(estimate, 0.0), 441.25);
}

#[test]
fn no_estimate_gives_the_reserved_value() {
    assert_eq!(PitchEstimate::<f32>::frequency_or(None, 0.0), 0.0);
    assert_eq!(PitchEstimate::<f32>::frequency_or(None, -1.0), -1.0);
}

#[test]
fn frequency_is_not_taken_from_the_clarity() {
    let estimate = Some(PitchEstimate {
        frequency: 100u32,
        clarity: 3u32,
    });
    assert_eq!(PitchEstimate::frequency_or(estimate, 0), 100);
}

#[test]
fn zero_frequency_is_returned_as_it_is() {
    let estimate = Some(PitchEstimate {
        frequency: 0.0f64,
        clarity: 0.7f64,
    });
    assert_eq!(PitchEstimate::frequency_or(estimate, -1.0), 0.0);
}
