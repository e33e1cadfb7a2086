use addness::member::content_type_for_avatar_path;

#[test]
fn content_type_for_avatar_path_maps_known_image_extensions() {
    assert_eq!(content_type_for_avatar_path("avatar.png"), "image/png");
    assert_eq!(content_type_for_avatar_path("AVATAR.PNG"), "image/png");
    assert_eq!(content_type_for_avatar_path("a/b/avatar.jpg"), "image/jpeg");
    assert_eq!(content_type_for_avatar_path("avatar.jpeg"), "image/jpeg");
    assert_eq!(content_type_for_avatar_path("avatar.gif"), "image/gif");
    assert_eq!(content_type_for_avatar_path("avatar.webp"), "image/webp");
    assert_eq!(content_type_for_avatar_path("avatar.svg"), "image/svg+xml");
}

#[test]
fn content_type_for_avatar_path_falls_back_for_unknown_or_missing_extension() {
    assert_eq!(content_type_for_avatar_path("avatar.bin"), "application/octet-stream");
    assert_eq!(content_type_for_avatar_path("avatar"), "application/octet-stream");
}
