use androidsink::buffer::{Pulled, ResourceError};
use androidsink::delivery::{assess, deliver, Delivery, FlowOutcome};
use androidsink::loudness::{measure, Loudness, FULL_SCALE};
use byte_slice_cast::AsByteSlice;

#[test]
fn end_of_stream_is_passed_on() {
    let delivery = deliver(Pulled::StreamEnded);
    assert_eq!(delivery, Delivery::Ended);
    assert_eq!(delivery.flow(), FlowOutcome::EndOfStream);
}

#[test]
fn missing_buffer_is_an_error() {
    let delivery = deliver(Pulled::NoBuffer);
    assert_eq!(delivery, Delivery::Failed(ResourceError::BufferMissing));
    assert_eq!(delivery.flow(), FlowOutcome::Refused);
}

#[test]
fn failed_mapping_is_an_error() {
    let delivery = deliver(Pulled::Unmapped);
    assert_eq!(delivery, Delivery::Failed(ResourceError::MapFailed));
    assert_eq!(delivery.flow(), FlowOutcome::Refused);
}

#[test]
fn mapped_samples_are_measured() {
    let stored: Vec<i16> = vec![3, -4, 12, 0];
    let delivery = deliver(Pulled::Mapped(stored.as_byte_slice()));
    assert_eq!(delivery, Delivery::Measured(Loudness { sum_squares: 169, count: 4 }));
    assert_eq!(delivery.flow(), FlowOutcome::Accepted);
}

#[test]
fn mapped_bytes_of_odd_length_are_refused() {
    let stored: Vec<i16> = vec![3, -4, 12, 0];
    let bytes: &[u8] = stored.as_byte_slice();
    let delivery = deliver(Pulled::Mapped(&bytes[..7]));
    assert_eq!(delivery, Delivery::Failed(ResourceError::ReinterpretFailed));
    assert_eq!(delivery.flow(), FlowOutcome::Refused);
}

#[test]
fn misaligned_bytes_are_refused() {
    let stored: Vec<i16> = vec![3, -4, 12, 0];
    let bytes: &[u8] = stored.as_byte_slice();
    let delivery = deliver(Pulled::Mapped(&bytes[1..7]));
    assert_eq!(delivery, Delivery::Failed(ResourceError::ReinterpretFailed));
}

#[test]
fn empty_buffer_is_measured_as_empty() {
    let delivery = deliver(Pulled::Mapped(&[]));
    assert_eq!(delivery, Delivery::Measured(Loudness { sum_squares: 0, count: 0 }));
    assert_eq!(delivery.flow(), FlowOutcome::Accepted);
}

#[test]
fn assess_measures_a_view_and_passes_an_error_on() {
    let window: [i16; 3] = [100, -200, 300];
    assert_eq!(assess(Ok(&window)), Delivery::Measured(measure(&window)));
    assert_eq!(
        assess(Ok(&window)),
        Delivery::Measured(Loudness { sum_squares: 140000, count: 3 })
    );
    for error in
        [ResourceError::BufferMissing, ResourceError::MapFailed, ResourceError::ReinterpretFailed]
    {
        assert_eq!(assess(Err(error)), Delivery::Failed(error));
    }
}

#[test]
fn deliveries_do_not_depend_on_each_other() {
    let loud: Vec<i16> = vec![i16::MAX; 8];
    let quiet: Vec<i16> = vec![1; 8];
    let first = deliver(Pulled::Mapped(loud.as_byte_slice()));
    let _ = deliver(Pulled::NoBuffer);
    let second = deliver(Pulled::Mapped(quiet.as_byte_slice()));
    let again = deliver(Pulled::Mapped(loud.as_byte_slice()));
    assert_eq!(second, Delivery::Measured(Loudness { sum_squares: 8, count: 8 }));
    assert_eq!(first, again);
}

#[test]
fn one_second_of_a_one_kilohertz_sine_has_the_rms_of_a_sine() {
    let rate = 44100usize;
    let amplitude = 16384.0f64;
    let stored: Vec<i16> = (0..rate)
        .map(|n| {
            let phase = 2.0 * std::f64::consts::PI * 1000.0 * n as f64 / rate as f64;
            (amplitude * phase.sin()).round() as i16
        })
        .collect();
    let delivery = deliver(Pulled::Mapped(stored.as_byte_slice()));
    assert_eq!(delivery.flow(), FlowOutcome::Accepted);
    let loudness = match delivery {
        Delivery::Measured(loudness) => loudness,
        other => panic!("not measured: {:?}", other),
    };
    assert_eq!(loudness.count, rate);
    let rms = (loudness.sum_squares as f64 / loudness.count as f64).sqrt() / f64::from(FULL_SCALE);
    let expected = std::f64::consts::FRAC_1_SQRT_2 * amplitude / f64::from(FULL_SCALE);
    assert!((rms - expected).abs() < 1e-4, "rms {} expected {}", rms, expected);
}
