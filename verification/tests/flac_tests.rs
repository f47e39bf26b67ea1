use recorder_core::flac::{encode_flac, FlacError};

// Encoding integer samples and decoding the resulting stream with an
// independent FLAC decoder yields the same samples: the format is
// lossless.
#[test]
fn flac_roundtrip_is_lossless() {
    let samples: Vec<i32> = (0..2000).map(|i| ((i * 37) % 1000) - 500).collect();
    let bytes = encode_flac(&samples, 16, 44100).expect("in-range samples must encode");

    let mut reader = claxon::FlacReader::new(std::io::Cursor::new(bytes)).unwrap();
    let info = reader.streaminfo();
    assert_eq!(info.sample_rate, 44100);
    assert_eq!(info.bits_per_sample, 16);
    assert_eq!(info.channels, 1);
    let decoded: Vec<i32> = reader.samples().map(|s| s.unwrap()).collect();
    assert_eq!(decoded, samples);
}

#[test]
fn flac_roundtrip_short_buffer() {
    let samples = vec![-12345i32; 64];
    let bytes = encode_flac(&samples, 16, 48000).expect("a short buffer must encode");
    let mut reader = claxon::FlacReader::new(std::io::Cursor::new(bytes)).unwrap();
    let decoded: Vec<i32> = reader.samples().map(|s| s.unwrap()).collect();
    assert_eq!(decoded, samples);
}

// A sample outside the declared depth is an encode fault, reported as
// the error — not a crash or a stall.
#[test]
fn flac_rejects_out_of_range_samples() {
    let samples = vec![40_000i32; 64];
    assert_eq!(encode_flac(&samples, 16, 44100), Err(FlacError::EncodeFailed));
    assert_eq!(encode_flac(&vec![40_000i32], 16, 44100), Err(FlacError::EncodeFailed));
}

// The encoder takes at most 24 bits per sample, and the library relies
// on it only at its own three container widths: anything else is an
// encode fault, reported rather than half-written — including widths
// wide enough to wrap the encoder's eight-bit depth field.
#[test]
fn flac_rejects_unsupported_bit_depth() {
    let samples = vec![100i32; 64];
    assert_eq!(encode_flac(&samples, 32, 44100), Err(FlacError::EncodeFailed));
    assert_eq!(encode_flac(&samples, 12, 44100), Err(FlacError::EncodeFailed));
    assert_eq!(encode_flac(&samples, 264, 44100), Err(FlacError::EncodeFailed));
    assert_eq!(encode_flac(&samples, 0, 44100), Err(FlacError::EncodeFailed));
}

#[test]
fn flac_roundtrip_24_bit() {
    let samples: Vec<i32> = (0..4096).map(|i| (i * 1931) % 8_000_000 - 4_000_000).collect();
    let bytes = encode_flac(&samples, 24, 96000).expect("24-bit samples must encode");
    let mut reader = claxon::FlacReader::new(std::io::Cursor::new(bytes)).unwrap();
    assert_eq!(reader.streaminfo().bits_per_sample, 24);
    let decoded: Vec<i32> = reader.samples().map(|s| s.unwrap()).collect();
    assert_eq!(decoded, samples);
}
