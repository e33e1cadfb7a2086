use addness::media::guess_inline_media_content_type;

#[test]
fn guess_inline_media_content_type_maps_known_extensions() {
    assert_eq!(guess_inline_media_content_type("a.png").unwrap(), "image/png");
    assert_eq!(guess_inline_media_content_type("a.JPG").unwrap(), "image/jpeg");
    assert_eq!(guess_inline_media_content_type("a.mp4").unwrap(), "video/mp4");
}

#[test]
fn guess_inline_media_content_type_rejects_unsupported_extension() {
    let err = guess_inline_media_content_type("a.pdf").unwrap_err();
    assert!(err.to_string().contains("Unsupported file extension"));
}
