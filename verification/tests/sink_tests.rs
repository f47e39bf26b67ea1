use recorder_core::sample::{sample_to_i16, sample_to_i32};
use recorder_core::settings::{AppSettings, AudioFormat};
use recorder_core::sink::{PcmSink, SampleSink, WaveSink};

fn settings(format: AudioFormat, bit_depth: u16) -> AppSettings {
    AppSettings {
        audio_format: format,
        sample_rate: 44100,
        bit_depth,
        compressor_enabled: false,
        compressor_threshold_db: -20_000_000,
        compressor_ratio: 4_000_000,
    }
}

#[test]
fn sample_conversion_16_bit() {
    assert_eq!(sample_to_i16(0), 0);
    assert_eq!(sample_to_i16(1_000_000), 32767);
    assert_eq!(sample_to_i16(-1_000_000), -32767);
    assert_eq!(sample_to_i16(500_000), 16383);
    assert_eq!(sample_to_i16(250_000), 8191);
    assert_eq!(sample_to_i16(123_456), 4045);
    assert_eq!(sample_to_i16(-123_456), -4045);
}

#[test]
fn sample_conversion_16_bit_saturates() {
    assert_eq!(sample_to_i16(1_500_000), 32767);
    assert_eq!(sample_to_i16(i64::MAX), 32767);
    assert_eq!(sample_to_i16(-1_500_000), -32768);
    assert_eq!(sample_to_i16(i64::MIN), -32768);
}

#[test]
fn sample_conversion_32_bit() {
    assert_eq!(sample_to_i32(0), 0);
    assert_eq!(sample_to_i32(1_000_000), 2_147_483_647);
    assert_eq!(sample_to_i32(-1_000_000), -2_147_483_647);
    assert_eq!(sample_to_i32(500_000), 1_073_741_823);
    assert_eq!(sample_to_i32(2_000_000), 2_147_483_647);
    assert_eq!(sample_to_i32(-2_000_000), -2_147_483_648);
}

// Writing known frames through the WAV sink and reading the file back
// yields exactly one integer sample per written sample, each the
// saturated 16-bit conversion of its input.
#[test]
fn wave_sink_roundtrip_through_reader() {
    let mut sink = WaveSink::open(&settings(AudioFormat::Wave, 16), 1);
    sink.write(&vec![0i64, 250_000, -250_000, 1_000_000, -1_000_000]);
    sink.write(&vec![123_456, 1_500_000, -1_500_000]);
    let bytes = sink.finalize();

    let mut reader = hound::WavReader::new(std::io::Cursor::new(bytes)).unwrap();
    let spec = reader.spec();
    assert_eq!(spec.channels, 1);
    assert_eq!(spec.sample_rate, 44100);
    assert_eq!(spec.bits_per_sample, 16);
    assert_eq!(spec.sample_format, hound::SampleFormat::Int);
    let samples: Vec<i16> = reader.samples::<i16>().map(|r| r.unwrap()).collect();
    assert_eq!(samples, vec![0, 8191, -8191, 32767, -32767, 4045, 32767, -32768]);
}

// At wider container widths the stored value is still the 16-bit
// conversion, sign-extended.
#[test]
fn wave_sink_roundtrip_24_bit_container() {
    let mut sink = WaveSink::open(&settings(AudioFormat::Wave, 24), 1);
    sink.write(&vec![0i64, 250_000, -250_000, 1_000_000, -1_000_000]);
    let bytes = sink.finalize();

    let mut reader = hound::WavReader::new(std::io::Cursor::new(bytes)).unwrap();
    assert_eq!(reader.spec().bits_per_sample, 24);
    let samples: Vec<i32> = reader.samples::<i32>().map(|r| r.unwrap()).collect();
    assert_eq!(samples, vec![0, 8191, -8191, 32767, -32767]);
}

#[test]
fn wave_sink_empty_file_has_header_only() {
    let sink = WaveSink::open(&settings(AudioFormat::Wave, 16), 2);
    let bytes = sink.finalize();
    assert_eq!(bytes.len(), 44);
    assert_eq!(&bytes[0..4], b"RIFF");
    assert_eq!(&bytes[8..12], b"WAVE");
    assert_eq!(&bytes[12..16], b"fmt ");
    assert_eq!(&bytes[36..40], b"data");
    // Final data length is zero.
    assert_eq!(&bytes[40..44], &[0, 0, 0, 0]);
    // Two channels, little-endian, at offset 22.
    assert_eq!(&bytes[22..24], &[2, 0]);
}

#[test]
fn wave_sink_header_reflects_final_length() {
    let mut sink = WaveSink::open(&settings(AudioFormat::Wave, 16), 1);
    sink.write(&vec![1000i64; 10]);
    let bytes = sink.finalize();
    assert_eq!(bytes.len(), 44 + 20);
    // data chunk length, little-endian.
    assert_eq!(&bytes[40..44], &[20, 0, 0, 0]);
    // RIFF chunk length = 36 + 20.
    assert_eq!(&bytes[4..8], &[56, 0, 0, 0]);
}

#[test]
fn pcm_sink_is_headerless_little_endian() {
    let mut sink = PcmSink::open();
    sink.write(&vec![0i64, 1_000_000, -1_000_000]);
    let bytes = sink.finalize();
    // 0, 32767 = 0x7FFF, -32767 = 0x8001, little-endian.
    assert_eq!(bytes, vec![0x00, 0x00, 0xFF, 0x7F, 0x01, 0x80]);
}

#[test]
fn sample_sink_opens_configured_format() {
    let wave = SampleSink::open(&settings(AudioFormat::Wave, 16), 1);
    assert!(matches!(wave, SampleSink::Wave(_)));
    let pcm = SampleSink::open(&settings(AudioFormat::Pcm, 16), 1);
    assert!(matches!(pcm, SampleSink::Pcm(_)));
    let flac = SampleSink::open(&settings(AudioFormat::Flac, 16), 1);
    assert!(matches!(flac, SampleSink::Flac(_)));
}

// A FLAC session that saw no samples leaves no artifact at all.
#[test]
fn flac_sink_empty_session_has_no_artifact() {
    let sink = SampleSink::open(&settings(AudioFormat::Flac, 16), 1);
    match sink.finalize() {
        Ok(None) => {},
        _ => panic!("an empty FLAC session must finalize to no artifact"),
    }
}

// A quiet FLAC session is encodable at 16 bits (every 32-bit-scaled
// sample still fits the declared depth) and must finalize to a real,
// decodable artifact holding exactly the converted samples.
#[test]
fn flac_sink_quiet_session_roundtrips() {
    let mut sink = SampleSink::open(&settings(AudioFormat::Flac, 16), 1);
    let frame: Vec<i64> = (0..64).map(|i| (i % 29) - 14).collect();
    sink.write(&frame);
    let bytes = match sink.finalize() {
        Ok(Some(b)) => b,
        _ => panic!("an encodable FLAC session must finalize to its byte stream"),
    };
    let mut reader = claxon::FlacReader::new(std::io::Cursor::new(bytes)).unwrap();
    let decoded: Vec<i32> = reader.samples().map(|s| s.unwrap()).collect();
    let expected: Vec<i32> = frame.iter().map(|&s| sample_to_i32(s)).collect();
    assert_eq!(decoded, expected);
}

// A sample rate beyond any audio hardware still fits the WAV header's
// 32-bit byte-rate field and is carried through unchanged.
#[test]
fn wave_sink_carries_high_sample_rate() {
    let mut s = settings(AudioFormat::Wave, 16);
    s.sample_rate = 2_000_000;
    let mut sink = WaveSink::open(&s, 1);
    sink.write(&vec![0i64; 4]);
    let bytes = sink.finalize();
    let reader = hound::WavReader::new(std::io::Cursor::new(bytes)).unwrap();
    assert_eq!(reader.spec().sample_rate, 2_000_000);
}

// An encode fault at finalize is reported to the caller; no bytes come
// back, so no partial artifact can be persisted.
#[test]
fn flac_sink_reports_encode_fault() {
    let mut sink = SampleSink::open(&settings(AudioFormat::Flac, 32), 1);
    sink.write(&vec![1000i64; 64]);
    assert!(sink.finalize().is_err());
}

#[test]
fn pcm_sink_via_sample_sink_finalizes_to_bytes() {
    let mut sink = SampleSink::open(&settings(AudioFormat::Pcm, 16), 1);
    sink.write(&vec![500_000i64; 7]);
    match sink.finalize() {
        Ok(Some(bytes)) => assert_eq!(bytes.len(), 14),
        _ => panic!("a PCM session always finalizes to its byte stream"),
    }
}
