use androidsink::buffer::{samples_of, view_from_cast, ResourceError};
use byte_slice_cast::{AsByteSlice, AsSliceOf};

#[test]
fn samples_of_views_the_bytes_in_machine_order() {
    let stored: Vec<i16> = vec![1, -1, 256, -256, i16::MAX, i16::MIN, 0x1234];
    let bytes: &[u8] = stored.as_byte_slice();
    assert_eq!(bytes.len(), 14);
    let view = samples_of(bytes).unwrap();
    assert_eq!(view, &stored[..]);
    for (i, sample) in view.iter().enumerate() {
        assert_eq!(*sample, i16::from_ne_bytes([bytes[2 * i], bytes[2 * i + 1]]));
    }
}

#[test]
fn samples_of_reads_low_byte_first_on_a_little_endian_machine() {
    let little_endian = 1u16.to_ne_bytes()[0] == 1;
    let stored: Vec<i16> = vec![0; 4];
    let mut bytes: Vec<u8> = stored.as_byte_slice().to_vec();
    bytes.copy_from_slice(&[0x34, 0x12, 0xff, 0xff, 0x00, 0x80, 0xff, 0x7f]);
    let mut aligned: Vec<i16> = vec![0; 4];
    for (i, pair) in bytes.chunks(2).enumerate() {
        aligned[i] = i16::from_ne_bytes([pair[0], pair[1]]);
    }
    let view = samples_of(aligned.as_byte_slice()).unwrap();
    let low_first: Vec<i16> = vec![0x1234, -1, i16::MIN, i16::MAX];
    let high_first: Vec<i16> = vec![0x3412, -1, 0x0080, -129];
    if little_endian {
        assert_eq!(view, &low_first[..]);
    } else {
        assert_eq!(view, &high_first[..]);
    }
}

#[test]
fn samples_of_does_not_hand_the_bytes_back() {
    let stored: Vec<i16> = vec![0x0102, 0x0304];
    let bytes: &[u8] = stored.as_byte_slice();
    let view = samples_of(bytes).unwrap();
    assert_eq!(view.len() * 2, bytes.len());
    assert_eq!(view[0], 0x0102);
    assert_eq!(view[1], 0x0304);
}

#[test]
fn samples_of_shares_the_memory() {
    let stored: Vec<i16> = vec![7, 8, 9];
    let bytes: &[u8] = stored.as_byte_slice();
    let view = samples_of(bytes).unwrap();
    assert_eq!(view.as_ptr() as usize, bytes.as_ptr() as usize);
}

#[test]
fn samples_of_accepts_an_empty_buffer() {
    let empty: [u8; 0] = [];
    let expected: &[i16] = &[];
    assert_eq!(samples_of(&empty), Ok(expected));
    let stored: Vec<i16> = vec![5];
    let bytes: &[u8] = stored.as_byte_slice();
    assert_eq!(samples_of(&bytes[1..1]), Ok(expected));
}

#[test]
fn samples_of_refuses_an_odd_length() {
    let stored: Vec<i16> = vec![1, 2, 3];
    let bytes: &[u8] = stored.as_byte_slice();
    assert_eq!(samples_of(&bytes[..5]), Err(ResourceError::ReinterpretFailed));
    assert_eq!(samples_of(&bytes[..1]), Err(ResourceError::ReinterpretFailed));
    assert_eq!(samples_of(&bytes[1..4]), Err(ResourceError::ReinterpretFailed));
}

#[test]
fn samples_of_refuses_misaligned_memory() {
    let stored: Vec<i16> = vec![1, 2, 3];
    let bytes: &[u8] = stored.as_byte_slice();
    assert_eq!(samples_of(&bytes[1..5]), Err(ResourceError::ReinterpretFailed));
}

#[test]
fn view_from_cast_keeps_a_view_and_names_the_error() {
    let stored: Vec<i16> = vec![10, 20];
    let bytes: &[u8] = stored.as_byte_slice();
    let good = bytes.as_slice_of::<i16>();
    assert!(good.is_ok());
    assert_eq!(view_from_cast(good), Ok(&stored[..]));
    let odd = bytes[..3].as_slice_of::<i16>();
    assert!(matches!(odd, Err(byte_slice_cast::Error::LengthMismatch { .. })));
    assert_eq!(view_from_cast(odd), Err(ResourceError::ReinterpretFailed));
    let shifted = bytes[1..3].as_slice_of::<i16>();
    assert!(matches!(shifted, Err(byte_slice_cast::Error::AlignmentMismatch { .. })));
    assert_eq!(view_from_cast(shifted), Err(ResourceError::ReinterpretFailed));
}

#[test]
fn resource_errors_have_their_messages() {
    assert_eq!(ResourceError::BufferMissing.message(), "Failed to get buffer from appsink");
    assert_eq!(ResourceError::MapFailed.message(), "Failed to map buffer readable");
    assert_eq!(
        ResourceError::ReinterpretFailed.message(),
        "Failed to interprete buffer as S16 PCM"
    );
}
