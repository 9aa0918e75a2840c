use immich_sync::config::{
    count_supported_media, endpoint_url, is_supported_media, normalize_base_url, AppConfig,
};
use immich_sync::text::{char_is_white, decimal_string, substring, trim};

#[test]
fn trim_removes_unicode_white_space_at_both_ends() {
    assert_eq!(trim("  abc \t\n"), "abc");
    assert_eq!(trim("\u{3000}key\u{a0}"), "key");
    assert_eq!(trim("a b"), "a b");
    assert_eq!(trim("   "), "");
    assert_eq!(trim(""), "");
    for s in ["  x y  ", "\u{2028}z\u{85}", "\t\r\n", "plain"] {
        assert_eq!(trim(s), s.trim());
    }
}

#[test]
fn white_space_matches_std() {
    for u in 0u32..0x3100 {
        if let Some(c) = char::from_u32(u) {
            assert_eq!(char_is_white(c), c.is_whitespace(), "{:?}", c);
        }
    }
}

#[test]
fn decimal_string_formats_like_display() {
    for n in [0u64, 7, 10, 99, 100, 12345, u64::MAX] {
        assert_eq!(decimal_string(n), n.to_string());
    }
}

#[test]
fn substring_takes_characters() {
    assert_eq!(substring("héllo", 1, 4), "éll");
    assert_eq!(substring("abc", 2, 2), "");
}

#[test]
fn base_url_is_trimmed_without_trailing_slashes() {
    assert_eq!(normalize_base_url(" http://nas:2283/ "), "http://nas:2283");
    assert_eq!(normalize_base_url("https://photos.example.com///"), "https://photos.example.com");
    assert_eq!(normalize_base_url("http://h"), "http://h");
    assert_eq!(normalize_base_url("  "), "");
}

#[test]
fn endpoint_joins_route_to_base() {
    assert_eq!(
        endpoint_url("http://nas:2283/", "/api/server/ping"),
        "http://nas:2283/api/server/ping"
    );
}

#[test]
fn supported_media_by_extension() {
    assert!(is_supported_media("/home/u/Pictures/IMG_0001.JPG"));
    assert!(is_supported_media("C:\\Users\\u\\Pictures\\clip.mp4"));
    assert!(is_supported_media("photo.heic"));
    assert!(is_supported_media("archive.tar.jpeg"));
    assert!(!is_supported_media("notes.txt"));
    assert!(!is_supported_media("/pics/.jpg"));
    assert!(!is_supported_media("/pics/noextension"));
    assert!(!is_supported_media("/pics.jpg/readme"));
    assert!(!is_supported_media("photo.jpg."));
    assert!(!is_supported_media(""));
}

#[test]
fn counting_supported_media() {
    let paths: Vec<String> = vec![
        "a.jpg".to_string(),
        "b.txt".to_string(),
        "c.MOV".to_string(),
        "d".to_string(),
    ];
    assert_eq!(count_supported_media(&paths), 2);
    assert_eq!(count_supported_media(&Vec::new()), 0);
}

#[test]
fn default_config_is_empty_and_switched_off() {
    let c = AppConfig::default();
    assert_eq!(c.server_url, "");
    assert!(c.watch_paths.is_empty());
    assert!(!c.sync_enabled);
    assert!(!c.minimize_to_tray);
}
