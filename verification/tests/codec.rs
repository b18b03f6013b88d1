use healer::codec::{decode_frame, encode_frame, FrameError, MAX_FRAME_WORDS};

#[test]
fn round_trip_single_word() {
    let words: Vec<u64> = vec![42];
    let bytes = encode_frame(&words);
    assert_eq!(decode_frame(&bytes), Ok(words));
}

#[test]
fn round_trip_1024_words() {
    let words: Vec<u64> = (0..1024u64).map(|i| i * 3 + 7).collect();
    let bytes = encode_frame(&words);
    assert_eq!(decode_frame(&bytes), Ok(words));
}

#[test]
fn round_trip_large_bound() {
    let words: Vec<u64> = (0..MAX_FRAME_WORDS as u64).collect();
    let bytes = encode_frame(&words);
    assert_eq!(decode_frame(&bytes), Ok(words));
}

#[test]
fn frame_layout_is_count_then_le_words() {
    let words: Vec<u64> = vec![10, 20];
    let bytes = encode_frame(&words);
    let expected: Vec<u8> = vec![
        2, 0, 0, 0, // count, little endian
        10, 0, 0, 0, 0, 0, 0, 0, // first word
        20, 0, 0, 0, 0, 0, 0, 0, // second word
    ];
    assert_eq!(bytes, expected);
}

#[test]
fn short_buffer_is_rejected() {
    assert_eq!(decode_frame(&vec![]), Err(FrameError::TooShort));
    assert_eq!(decode_frame(&vec![1, 2, 3]), Err(FrameError::TooShort));
}

#[test]
fn zero_count_is_rejected() {
    assert_eq!(decode_frame(&vec![0, 0, 0, 0]), Err(FrameError::BadCount));
}

#[test]
fn absurd_count_is_rejected_before_allocation() {
    // count = MAX_FRAME_WORDS + 1, with no body at all: the count bound
    // fires before the length is even compared.
    let mut bytes = (MAX_FRAME_WORDS + 1).to_le_bytes().to_vec();
    assert_eq!(decode_frame(&bytes), Err(FrameError::BadCount));
    // an enormous count likewise
    bytes = vec![0xff, 0xff, 0xff, 0xff];
    assert_eq!(decode_frame(&bytes), Err(FrameError::BadCount));
}

#[test]
fn length_mismatch_is_rejected() {
    // count says one word, body holds seven bytes
    let bytes: Vec<u8> = vec![1, 0, 0, 0, 9, 9, 9, 9, 9, 9, 9];
    assert_eq!(decode_frame(&bytes), Err(FrameError::LengthMismatch));
    // count says one word, body holds two words
    let bytes: Vec<u8> = vec![1, 0, 0, 0, 1, 0, 0, 0, 0, 0, 0, 0, 2, 0, 0, 0, 0, 0, 0, 0];
    assert_eq!(decode_frame(&bytes), Err(FrameError::LengthMismatch));
}
