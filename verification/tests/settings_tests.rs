use recorder_core::settings::{AppSettings, AudioFormat, Language};

#[test]
fn default_settings_are_wave_cd_quality() {
    let s = AppSettings::default();
    assert_eq!(s.audio_format, AudioFormat::Wave);
    assert_eq!(s.sample_rate, 44100);
    assert_eq!(s.bit_depth, 16);
    assert!(!s.compressor_enabled);
    assert_eq!(s.compressor_threshold_db, -20_000_000);
    assert_eq!(s.compressor_ratio, 4_000_000);
}

#[test]
fn validity_checks_bit_depth() {
    let mut s = AppSettings::default();
    assert!(s.is_valid());
    s.bit_depth = 24;
    assert!(s.is_valid());
    s.bit_depth = 32;
    assert!(s.is_valid());
    s.bit_depth = 12;
    assert!(!s.is_valid());
    s.bit_depth = 8;
    assert!(!s.is_valid());
    // The sample rate is not the configuration's concern: any value of
    // its field is accepted here.
    s.bit_depth = 16;
    s.sample_rate = 2_000_000;
    assert!(s.is_valid());
}

#[test]
fn language_codes_roundtrip() {
    assert_eq!(Language::Japanese.code(), "ja");
    assert_eq!(Language::English.code(), "en");
    assert_eq!(Language::from_code("en"), Language::English);
    assert_eq!(Language::from_code("ja"), Language::Japanese);
}

// Anything but "en" falls back to Japanese.
#[test]
fn unknown_language_code_falls_back() {
    assert_eq!(Language::from_code(""), Language::Japanese);
    assert_eq!(Language::from_code("fr"), Language::Japanese);
    assert_eq!(Language::from_code("english"), Language::Japanese);
}
