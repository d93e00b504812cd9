use ferria::error::FerriaError;
use ferria::loader::{metadata_from_tags, AudioTrackMetaData};

#[test]
fn test_metadata_from_tags_keeps_found_tags() {
    let meta = metadata_from_tags(Some("Song".to_string()), Some("Band".to_string()));
    assert_eq!(meta.title, "Song");
    assert_eq!(meta.artist, "Band");
    assert_eq!(meta.duration, None);
}

#[test]
fn test_metadata_from_tags_falls_back_to_placeholders() {
    let meta = metadata_from_tags(None, None);
    assert_eq!(meta.title, "Unknown Title");
    assert_eq!(meta.artist, "Unknown Artist");
    assert_eq!(meta.duration, None);

    let meta = metadata_from_tags(Some("Song".to_string()), None);
    assert_eq!(meta.title, "Song");
    assert_eq!(meta.artist, "Unknown Artist");

    let meta = metadata_from_tags(None, Some("Band".to_string()));
    assert_eq!(meta.title, "Unknown Title");
    assert_eq!(meta.artist, "Band");
}

#[test]
fn test_duplicate_copies_every_field() {
    let meta = AudioTrackMetaData {
        title: "Song".to_string(),
        artist: "Band".to_string(),
        duration: Some(1234),
    };
    let copy = meta.duplicate();
    assert_eq!(copy.title, meta.title);
    assert_eq!(copy.artist, meta.artist);
    assert_eq!(copy.duration, meta.duration);
}

#[test]
fn test_error_messages() {
    assert_eq!(
        FerriaError::InvalidConfiguration { fft_size: 3 }.message(),
        "FFT size must be a power of two and non-zero"
    );
    assert_eq!(
        FerriaError::InputSizeMismatch { given: 1, expected: 2 }.message(),
        "input sample slice length does not match FFT size"
    );
    assert_eq!(
        FerriaError::DeviceError.message(),
        "no audio output device or stream available"
    );
    assert_eq!(FerriaError::TransformFailure.message(), "FFT processing failed");
}
