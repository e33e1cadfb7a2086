use addness::meeting::{guess_meeting_audio_content_type, minute_source_type_as_str, MinuteSourceType};

#[test]
fn guess_meeting_audio_content_type_maps_known_extensions() {
    assert_eq!(guess_meeting_audio_content_type("a.mp3").unwrap(), "audio/mpeg");
    assert_eq!(guess_meeting_audio_content_type("a.WAV").unwrap(), "audio/wav");
    assert_eq!(guess_meeting_audio_content_type("a.webm").unwrap(), "audio/webm");
}

#[test]
fn guess_meeting_audio_content_type_rejects_unsupported_extension() {
    let err = guess_meeting_audio_content_type("a.pdf").unwrap_err();
    assert!(err.to_string().contains("Unsupported file extension"));
}

#[test]
fn minute_source_type_maps_to_backend_values() {
    assert_eq!(minute_source_type_as_str(MinuteSourceType::Recording), "recording");
    assert_eq!(minute_source_type_as_str(MinuteSourceType::Zoom), "zoom");
}
