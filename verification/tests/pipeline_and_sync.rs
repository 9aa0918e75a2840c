use immich_sync::digest::Sha1Hasher;
use immich_sync::sync::{config_gate, wants_file, ConfigGate};
use immich_sync::config::AppConfig;
use immich_sync::immich::{HttpStatus, PingReply};
use immich_sync::pipeline::{FileSync, ProcessErr, SyncAction, SyncEvent, UploadOutcome};
use immich_sync::settings::{config_from_input, settings_dto, SaveSettingsInput};
use immich_sync::storage::SpaceFigures;
use immich_sync::sync::{
    follow_up, key_for_processing, library_counts, scan_start, should_autostart, start_preflight,
    status_dto, LibraryCounts, LibraryStatsCache, ScanStart, SyncMetrics,
};
use immich_sync::upload::UploadResponse;

fn begin_with(m: &mut SyncMetrics) -> (FileSync, SyncAction) {
    FileSync::start("/p/a.jpg".to_string(), "http://nas:2283/".to_string(), "KEY".to_string(), m)
}

fn ok_status() -> HttpStatus {
    HttpStatus { code: 200, text: "200 OK".to_string() }
}

#[test]
fn changed_file_is_uploaded_and_recorded() {
    let mut m = SyncMetrics::new();
    let (mut fs, a) = begin_with(&mut m);
    assert!(matches!(a, SyncAction::HashFile { ref path } if path == "/p/a.jpg"));
    let a = fs.step(SyncEvent::Hashed(Ok("abc123".to_string())), &mut m);
    assert!(matches!(a, SyncAction::ReadStoredSha1 { ref path } if path == "/p/a.jpg"));
    let a = fs.step(SyncEvent::StoredSha1(Some("old".to_string())), &mut m);
    assert!(matches!(a, SyncAction::Ping { ref url } if url == "http://nas:2283/api/server/ping"));
    let a = fs.step(SyncEvent::Pinged(PingReply::Answered(ok_status())), &mut m);
    assert!(matches!(a, SyncAction::ReadFileSize { .. }));
    let a = fs.step(SyncEvent::FileSize(Ok(1000)), &mut m);
    match a {
        SyncAction::FetchStorage { base_url, api_key } => {
            assert_eq!(base_url, "http://nas:2283/");
            assert_eq!(api_key, "KEY");
        }
        _ => panic!("storage expected"),
    }
    let a = fs.step(SyncEvent::Storage(Ok(None)), &mut m);
    match a {
        SyncAction::Upload { url, api_key, path, checksum } => {
            assert_eq!(url, "http://nas:2283/api/assets");
            assert_eq!(api_key, "KEY");
            assert_eq!(path, "/p/a.jpg");
            assert_eq!(checksum, "abc123");
        }
        _ => panic!("upload expected"),
    }
    let a = fs.step(SyncEvent::Uploaded(Ok(UploadResponse { id: "asset-1".to_string(), duplicate: false })), &mut m);
    match a {
        SyncAction::Record { path, sha1, remote_id, is_duplicate } => {
            assert_eq!(path, "/p/a.jpg");
            assert_eq!(sha1, "abc123");
            assert_eq!(remote_id, "asset-1");
            assert!(!is_duplicate);
        }
        _ => panic!("record expected"),
    }
    assert!(!fs.is_finished());
    let a = fs.step(SyncEvent::Recorded(Ok(())), &mut m);
    assert!(matches!(a, SyncAction::Done(Ok(UploadOutcome::Uploaded))));
    assert!(fs.is_finished());
    assert!(!fs.accepts(&SyncEvent::Recorded(Ok(()))));
}

#[test]
fn unchanged_file_is_skipped() {
    let mut m = SyncMetrics::new();
    let (mut fs, _) = begin_with(&mut m);
    fs.step(SyncEvent::Hashed(Ok("same".to_string())), &mut m);
    let a = fs.step(SyncEvent::StoredSha1(Some("same".to_string())), &mut m);
    assert!(matches!(a, SyncAction::Done(Ok(UploadOutcome::Skipped))));
    assert!(fs.is_finished());
}

#[test]
fn never_synced_file_goes_on_to_probe() {
    let mut m = SyncMetrics::new();
    let (mut fs, _) = begin_with(&mut m);
    fs.step(SyncEvent::Hashed(Ok("h".to_string())), &mut m);
    assert!(matches!(fs.step(SyncEvent::StoredSha1(None), &mut m), SyncAction::Ping { .. }));
}

#[test]
fn offline_server_stops_processing() {
    let mut m = SyncMetrics::new();
    let (mut fs, _) = begin_with(&mut m);
    fs.step(SyncEvent::Hashed(Ok("h".to_string())), &mut m);
    fs.step(SyncEvent::StoredSha1(None), &mut m);
    match fs.step(SyncEvent::Pinged(PingReply::Unreachable("connection refused".to_string())), &mut m) {
        SyncAction::Done(Err(ProcessErr::ServerOffline(m))) => {
            assert_eq!(m, "Immich server unreachable: connection refused")
        }
        _ => panic!("offline expected"),
    }
}

#[test]
fn failures_end_processing_with_their_message() {
    let mut m = SyncMetrics::new();
    let (mut fs, _) = begin_with(&mut m);
    assert!(matches!(fs.step(SyncEvent::Hashed(Err("locked".to_string())), &mut m), SyncAction::Done(Err(ProcessErr::Other(ref m))) if m == "locked"));

    let mut m = SyncMetrics::new();
    let (mut fs, _) = begin_with(&mut m);
    fs.step(SyncEvent::Hashed(Ok("h".to_string())), &mut m);
    fs.step(SyncEvent::StoredSha1(None), &mut m);
    fs.step(SyncEvent::Pinged(PingReply::Answered(ok_status())), &mut m);
    fs.step(SyncEvent::FileSize(Ok(100)), &mut m);
    let full = SpaceFigures { usage_whole_percent: 99, usage_shown: "99.5".to_string(), disk_available_raw: 1 << 30 };
    match fs.step(SyncEvent::Storage(Ok(Some(full))), &mut m) {
        SyncAction::Done(Err(ProcessErr::Other(m))) => assert!(m.starts_with("Immich server disk is nearly full (99.5% used)")),
        _ => panic!("refusal expected"),
    }

    let mut m = SyncMetrics::new();
    let (mut fs, _) = begin_with(&mut m);
    fs.step(SyncEvent::Hashed(Ok("h".to_string())), &mut m);
    fs.step(SyncEvent::StoredSha1(None), &mut m);
    match fs.step(SyncEvent::Pinged(PingReply::Answered(HttpStatus { code: 503, text: "503 Service Unavailable".to_string() })), &mut m) {
        SyncAction::Done(Err(ProcessErr::ServerOffline(m))) => assert_eq!(m, "Immich server returned HTTP 503 Service Unavailable (not ready)"),
        _ => panic!("offline expected"),
    }

    let mut m = SyncMetrics::new();
    let (mut fs, _) = begin_with(&mut m);
    fs.step(SyncEvent::Hashed(Ok("h".to_string())), &mut m);
    fs.step(SyncEvent::StoredSha1(None), &mut m);
    fs.step(SyncEvent::Pinged(PingReply::Answered(ok_status())), &mut m);
    assert!(matches!(fs.step(SyncEvent::FileSize(Err("gone".to_string())), &mut m), SyncAction::Done(Err(ProcessErr::Other(ref m))) if m == "gone"));

    let mut m = SyncMetrics::new();
    let (mut fs, _) = begin_with(&mut m);
    fs.step(SyncEvent::Hashed(Ok("h".to_string())), &mut m);
    fs.step(SyncEvent::StoredSha1(None), &mut m);
    fs.step(SyncEvent::Pinged(PingReply::Answered(ok_status())), &mut m);
    fs.step(SyncEvent::FileSize(Ok(1)), &mut m);
    fs.step(SyncEvent::Storage(Err("x".to_string())), &mut m);
    assert!(matches!(fs.step(SyncEvent::Uploaded(Err("Upload failed (500 x): y".to_string())), &mut m), SyncAction::Done(Err(ProcessErr::Other(_)))));

    let mut m = SyncMetrics::new();
    let (mut fs, _) = begin_with(&mut m);
    fs.step(SyncEvent::Hashed(Ok("h".to_string())), &mut m);
    fs.step(SyncEvent::StoredSha1(None), &mut m);
    fs.step(SyncEvent::Pinged(PingReply::Answered(ok_status())), &mut m);
    fs.step(SyncEvent::FileSize(Ok(1)), &mut m);
    fs.step(SyncEvent::Storage(Ok(None)), &mut m);
    fs.step(SyncEvent::Uploaded(Ok(UploadResponse { id: "i".to_string(), duplicate: true })), &mut m);
    assert!(matches!(fs.step(SyncEvent::Recorded(Err("db locked".to_string())), &mut m), SyncAction::Done(Err(ProcessErr::Other(ref m))) if m == "db locked"));
}

#[test]
fn accepts_only_the_awaited_event() {
    let mut m = SyncMetrics::new();
    let (fs, _) = begin_with(&mut m);
    assert!(fs.accepts(&SyncEvent::Hashed(Ok("h".to_string()))));
    assert!(!fs.accepts(&SyncEvent::StoredSha1(None)));
    assert!(!fs.accepts(&SyncEvent::Recorded(Ok(()))));
}

#[test]
fn follow_ups() {
    let f = follow_up(Ok(UploadOutcome::Uploaded));
    assert!(f.record_success && !f.stop_sync && f.error.is_none());
    let f = follow_up(Ok(UploadOutcome::Skipped));
    assert!(!f.record_success && !f.stop_sync && f.error.is_none());
    let f = follow_up(Err(ProcessErr::ServerOffline("Immich server unreachable: x".to_string())));
    assert!(f.stop_sync && !f.record_success);
    assert_eq!(f.error.unwrap(), "Immich server is offline or unreachable. Sync stopped. Immich server unreachable: x");
    let f = follow_up(Err(ProcessErr::Other("bad".to_string())));
    assert!(!f.stop_sync && !f.record_success);
    assert_eq!(f.error.unwrap(), "bad");
}

#[test]
fn metrics_and_status() {
    let mut m = SyncMetrics::new();
    let files: Vec<String> = vec!["a.jpg".to_string(), "b.mov".to_string(), "c.png".to_string(), "d.txt".to_string()];
    let counts = library_counts(&files, &vec![true, false, false, true]);
    let s = status_dto(false, &m, &counts);
    assert!(!s.running && s.last_error.is_none() && s.last_upload_ms.is_none() && s.current_file.is_none());
    assert_eq!((s.local_files_total, s.local_files_uploaded), (3, 1));
    m.set_current_file(Some("/p/a.jpg".to_string()));
    m.record_err("oops".to_string());
    let s = status_dto(true, &m, &LibraryCounts::empty());
    assert_eq!(s.last_error, Some("oops".to_string()));
    assert_eq!(s.current_file, Some("/p/a.jpg".to_string()));
    m.apply(&follow_up(Ok(UploadOutcome::Uploaded)), 1_700_000_000_000);
    let s = status_dto(true, &m, &LibraryCounts::empty());
    assert_eq!(s.last_upload_ms, Some(1_700_000_000_000));
    assert!(s.last_error.is_none());
    m.apply(&follow_up(Err(ProcessErr::Other("e2".to_string()))), 5);
    assert_eq!(m.last_error, Some("e2".to_string()));
    assert_eq!(m.last_upload_ms, 1_700_000_000_000);
    m.clear_current_file();
    m.clear_last_error();
    assert!(m.current_file.is_none() && m.last_error.is_none());
    m.record_ok(0);
    assert!(status_dto(true, &m, &LibraryCounts::empty()).last_upload_ms.is_none());
}

#[test]
fn library_counts_are_reused_for_five_seconds() {
    let mut c = LibraryStatsCache::new();
    assert!(c.lookup(10).is_none());
    let files: Vec<String> = vec!["a.jpg".to_string(), "b.jpg".to_string()];
    c.store(10, library_counts(&files, &vec![true, false]));
    let got = c.lookup(10 + 4_999_999_999).unwrap();
    assert_eq!((got.total(), got.uploaded()), (2, 1));
    assert!(c.lookup(10 + 5_000_000_000).is_none());
    assert!(c.lookup(0).is_some());
    c.invalidate();
    assert!(c.lookup(11).is_none());
}

fn cfg(enabled: bool, paths: &[&str], url: &str) -> AppConfig {
    AppConfig {
        server_url: url.to_string(),
        watch_paths: paths.iter().map(|p| p.to_string()).collect(),
        sync_enabled: enabled,
        minimize_to_tray: false,
    }
}

#[test]
fn start_preflight_checks_in_order() {
    let key = Ok(Some("k".to_string()));
    assert_eq!(start_preflight(&cfg(true, &["/p"], "http://h"), &key), Ok(()));
    assert_eq!(
        start_preflight(&cfg(false, &[], ""), &Err("ignored".to_string())),
        Err("Sync is disabled in settings".to_string())
    );
    assert_eq!(start_preflight(&cfg(true, &[], ""), &Err("keyring".to_string())), Err("keyring".to_string()));
    assert_eq!(
        start_preflight(&cfg(true, &[], ""), &Ok(None)),
        Err("No API key saved for sync. Paste the key and click Save settings, or click Start sync while the key is still in the API key field.".to_string())
    );
    assert_eq!(start_preflight(&cfg(true, &[], ""), &key), Err("Add at least one folder to watch".to_string()));
    assert_eq!(start_preflight(&cfg(true, &["/p"], "  "), &key), Err("Server URL is required".to_string()));
}

#[test]
fn autostart_needs_switch_key_and_folder() {
    assert!(should_autostart(&cfg(true, &["/p"], ""), true));
    assert!(!should_autostart(&cfg(false, &["/p"], ""), true));
    assert!(!should_autostart(&cfg(true, &[], ""), true));
    assert!(!should_autostart(&cfg(true, &["/p"], ""), false));
}

#[test]
fn keys_for_processing_and_scanning() {
    assert!(matches!(key_for_processing(Ok(Some("k".to_string()))), Ok(ref k) if k == "k"));
    assert!(matches!(key_for_processing(Ok(None)), Err(ProcessErr::Other(ref m)) if m == "API key missing"));
    assert!(matches!(key_for_processing(Err("io".to_string())), Err(ProcessErr::Other(ref m)) if m == "io"));
    assert!(matches!(scan_start(Ok(Some("k".to_string()))), ScanStart::Run(ref k) if k == "k"));
    assert!(matches!(scan_start(Ok(None)), ScanStart::Quit(None)));
    assert!(matches!(scan_start(Err("io".to_string())), ScanStart::Quit(Some(ref m)) if m == "io"));
}

#[test]
fn settings_round_trip() {
    let c = config_from_input(SaveSettingsInput {
        server_url: "http://h".to_string(),
        watch_paths: vec!["/p".to_string()],
        sync_enabled: true,
        minimize_to_tray: true,
    });
    assert_eq!(c.server_url, "http://h");
    assert!(c.sync_enabled && c.minimize_to_tray);
    let d = settings_dto(c, true);
    assert_eq!(d.watch_paths, vec!["/p".to_string()]);
    assert!(d.has_api_key && d.sync_enabled && d.minimize_to_tray);
}

#[test]
fn changed_paths_are_gated() {
    assert!(wants_file(true, "/p/a.jpg"));
    assert!(!wants_file(false, "/p/a.jpg"));
    assert!(!wants_file(true, "/p/a.txt"));
    assert!(matches!(config_gate(Err("bad json".to_string())), ConfigGate::Report(ref m) if m == "bad json"));
    assert!(matches!(config_gate(Ok(cfg(false, &["/p"], "http://h"))), ConfigGate::Skip));
    assert!(matches!(config_gate(Ok(cfg(true, &["/p"], "http://h"))), ConfigGate::Process(ref c) if c.sync_enabled));
}

#[test]
fn file_hash_is_forty_lower_hex_digits() {
    let mut h = Sha1Hasher::new();
    h.update(&[7u8; 100_000]);
    let hex = h.finish_hex();
    assert_eq!(hex.len(), 40);
    assert!(hex.chars().all(|c| c.is_ascii_hexdigit() && !c.is_ascii_uppercase()));
}

#[test]
fn synced_count_is_among_counted_files() {
    let files: Vec<String> = vec!["a.jpg".to_string(), "notes.txt".to_string(), "b.heic".to_string()];
    let c = library_counts(&files, &vec![true, true, true]);
    assert_eq!((c.total(), c.uploaded()), (2, 2));
    let c = library_counts(&files, &vec![false, true, false]);
    assert_eq!((c.total(), c.uploaded()), (2, 0));
    let c = library_counts(&Vec::new(), &Vec::new());
    assert_eq!((c.total(), c.uploaded()), (0, 0));
}

#[test]
fn current_file_is_named_while_processing() {
    let mut m = SyncMetrics::new();
    m.record_err("earlier".to_string());
    let (mut fs, _) = begin_with(&mut m);
    assert_eq!(m.current_file, Some("/p/a.jpg".to_string()));
    fs.step(SyncEvent::Hashed(Ok("h".to_string())), &mut m);
    assert_eq!(m.current_file, Some("/p/a.jpg".to_string()));
    fs.step(SyncEvent::StoredSha1(Some("h".to_string())), &mut m);
    assert!(m.current_file.is_none());
    assert_eq!(m.last_error, Some("earlier".to_string()));
    let (mut fs, _) = begin_with(&mut m);
    fs.step(SyncEvent::Hashed(Err("gone".to_string())), &mut m);
    assert!(m.current_file.is_none());
}
