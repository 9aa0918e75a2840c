use immich_sync::credentials::{
    api_key_from_file, api_key_from_keyring, has_api_key, key_from_file_text, key_from_input,
    saved_key_or_error, KeyLookup, KeyringRead,
};
use immich_sync::immich::{
    assets_url, check_server_online, is_success, ping_url, server_returned, storage_url,
    verify_connection, version_from_fields, version_url, HttpStatus, PingReply, VersionFields, VersionReply,
};

fn status(code: u16, text: &str) -> HttpStatus {
    HttpStatus { code, text: text.to_string() }
}

#[test]
fn key_file_text_is_trimmed() {
    assert_eq!(key_from_file_text("  secret-key \r\n"), Some("secret-key".to_string()));
    assert_eq!(key_from_file_text(" \n\t"), None);
    assert_eq!(key_from_file_text(""), None);
}

#[test]
fn key_file_wins_over_keyring() {
    match api_key_from_file(Ok(Some("from-file".to_string()))) {
        KeyLookup::Decided(Ok(Some(k))) => assert_eq!(k, "from-file"),
        _ => panic!("file key must decide"),
    }
    assert!(matches!(api_key_from_file(Ok(None)), KeyLookup::AskKeyring));
    match api_key_from_file(Err("permission denied".to_string())) {
        KeyLookup::Decided(Err(e)) => assert_eq!(e, "permission denied"),
        _ => panic!("a read error must be reported"),
    }
}

#[test]
fn keyring_failures_mean_no_key() {
    assert_eq!(api_key_from_keyring(KeyringRead::Password("pw".to_string())), Some("pw".to_string()));
    assert_eq!(api_key_from_keyring(KeyringRead::NoEntry), None);
    assert_eq!(api_key_from_keyring(KeyringRead::Failed), None);
    assert_eq!(api_key_from_keyring(KeyringRead::Unavailable), None);
}

#[test]
fn has_key_only_for_found_key() {
    assert!(has_api_key(&Ok(Some("k".to_string()))));
    assert!(!has_api_key(&Ok(None)));
    assert!(!has_api_key(&Err("x".to_string())));
}

#[test]
fn typed_key_is_trimmed_or_ignored_when_blank() {
    assert_eq!(key_from_input(&Some("  abc  ".to_string())), Some("abc".to_string()));
    assert_eq!(key_from_input(&Some("   ".to_string())), None);
    assert_eq!(key_from_input(&None), None);
}

#[test]
fn connection_test_without_key_fails() {
    assert_eq!(saved_key_or_error(Ok(Some("k".to_string()))), Ok("k".to_string()));
    let msg = "No API key configured. Paste a key or save settings first.".to_string();
    assert_eq!(saved_key_or_error(Ok(None)), Err(msg.clone()));
    assert_eq!(saved_key_or_error(Err("io".to_string())), Err(msg));
}

#[test]
fn success_is_the_2xx_range() {
    assert!(is_success(200));
    assert!(is_success(204));
    assert!(is_success(299));
    assert!(!is_success(199));
    assert!(!is_success(300));
    assert!(!is_success(404));
}

#[test]
fn request_urls() {
    assert_eq!(ping_url("http://nas:2283/"), "http://nas:2283/api/server/ping");
    assert_eq!(storage_url(" http://nas:2283"), "http://nas:2283/api/server/storage");
    assert_eq!(version_url("http://nas:2283//"), "http://nas:2283/api/server/version");
    assert_eq!(assets_url("https://x.org/"), "https://x.org/api/assets");
}

#[test]
fn server_online_verdicts() {
    assert_eq!(check_server_online(PingReply::Answered(status(200, "200 OK"))), Ok(()));
    assert_eq!(
        check_server_online(PingReply::Answered(status(502, "502 Bad Gateway"))),
        Err("Immich server returned HTTP 502 Bad Gateway (not ready)".to_string())
    );
    assert_eq!(
        check_server_online(PingReply::Unreachable("connection refused".to_string())),
        Err("Immich server unreachable: connection refused".to_string())
    );
    assert_eq!(
        check_server_online(PingReply::ClientFailed("tls backend".to_string())),
        Err("tls backend".to_string())
    );
}

#[test]
fn server_returned_message_with_and_without_body() {
    assert_eq!(
        server_returned(&status(401, "401 Unauthorized"), &Ok("{\"message\":\"Invalid\"}".to_string())),
        "Server returned 401 Unauthorized: {\"message\":\"Invalid\"}"
    );
    assert_eq!(
        server_returned(&status(500, "500 Internal Server Error"), &Err("eof".to_string())),
        "Server returned 500 Internal Server Error: "
    );
}

#[test]
fn version_text_from_fields() {
    let f = VersionFields { version: Some("v1.118.2".to_string()), major: Some(1), minor: Some(2), patch: Some(3) };
    assert_eq!(version_from_fields(f), "v1.118.2");
    let f = VersionFields { version: None, major: Some(1), minor: Some(118), patch: Some(2) };
    assert_eq!(version_from_fields(f), "1.118.2");
    let f = VersionFields { version: None, major: Some(1), minor: None, patch: Some(2) };
    assert_eq!(version_from_fields(f), "unknown");
}

#[test]
fn connection_test_results() {
    let ok = verify_connection(VersionReply::Fields(VersionFields {
        version: None,
        major: Some(2),
        minor: Some(0),
        patch: Some(10),
    }));
    assert_eq!(ok, Ok("2.0.10".to_string()));
    assert_eq!(
        verify_connection(VersionReply::SendFailed("timed out".to_string())),
        Err("timed out".to_string())
    );
    assert_eq!(
        verify_connection(VersionReply::Refused {
            status: status(403, "403 Forbidden"),
            body: Ok("no".to_string())
        }),
        Err("Server returned 403 Forbidden: no".to_string())
    );
    assert_eq!(
        verify_connection(VersionReply::BadBody("expected value".to_string())),
        Err("expected value".to_string())
    );
}
