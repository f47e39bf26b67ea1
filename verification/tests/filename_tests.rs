use recorder_core::clock::{now_timestamp, Timestamp};
use recorder_core::filename::{recording_filename, sanitize_name};
use recorder_core::settings::AudioFormat;

#[test]
fn filename_is_sortable_timestamp_name_extension() {
    let ts = Timestamp::new(2024, 1, 2, 3, 4, 5);
    let name = recording_filename(&ts, "My Mic", AudioFormat::Wave);
    assert_eq!(name.as_str(), "2024-01-02-03-04-05-My_Mic.wav");
}

#[test]
fn filename_extension_matches_format() {
    let ts = Timestamp::new(1999, 12, 31, 23, 59, 58);
    assert_eq!(
        recording_filename(&ts, "mic", AudioFormat::Pcm).as_str(),
        "1999-12-31-23-59-58-mic.pcm"
    );
    assert_eq!(
        recording_filename(&ts, "mic", AudioFormat::Flac).as_str(),
        "1999-12-31-23-59-58-mic.flac"
    );
}

#[test]
fn sanitize_replaces_every_space() {
    assert_eq!(sanitize_name("a b  c").as_str(), "a_b__c");
    assert_eq!(sanitize_name("nospace").as_str(), "nospace");
    assert_eq!(sanitize_name("").as_str(), "");
}

#[test]
fn timestamp_new_clamps_out_of_range_fields() {
    let ts = Timestamp::new(-5, 0, 40, 99, 99, 99);
    assert_eq!((ts.year, ts.month, ts.day), (0, 1, 31));
    assert_eq!((ts.hour, ts.minute, ts.second), (23, 59, 59));
    let far = Timestamp::new(123456, 13, 0, 5, 6, 7);
    assert_eq!((far.year, far.month, far.day), (9999, 12, 1));
}

#[test]
fn now_timestamp_fields_are_in_range() {
    let ts = now_timestamp();
    assert!(ts.year <= 9999);
    assert!((1..=12).contains(&ts.month));
    assert!((1..=31).contains(&ts.day));
    assert!(ts.hour <= 23);
    assert!(ts.minute <= 59);
    assert!(ts.second <= 59);
    // The clock is past the library's own era.
    assert!(ts.year >= 2020);
}
