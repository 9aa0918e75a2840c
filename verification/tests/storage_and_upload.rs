use sha1::Digest;
use immich_sync::digest::Sha1Hasher;
use immich_sync::immich::HttpStatus;
use immich_sync::immich::{version_after_send, VersionProgress, VersionReply};
use immich_sync::storage::{
    precheck_upload_space, storage_after_body, storage_after_send, storage_denied, storage_info,
    ServerStorage, SpaceFigures, StorageCache, StorageProgress, StorageReply, StorageStep,
};
use immich_sync::upload::{
    error_chain, upload_after_body, upload_file_name, upload_io_err, upload_result, UploadReply,
    UploadResponse,
};

fn storage(avail: &str, raw: u64, pct: f64) -> ServerStorage<f64> {
    ServerStorage { disk_available: avail.to_string(), disk_available_raw: raw, disk_usage_percentage: pct }
}

fn figures(whole: u64, shown: &str, raw: u64) -> SpaceFigures {
    SpaceFigures { usage_whole_percent: whole, usage_shown: shown.to_string(), disk_available_raw: raw }
}

#[test]
fn storage_cache_reuses_fresh_answer_for_same_server() {
    let mut c: StorageCache<f64> = StorageCache::new();
    let (base, url) = match c.begin("http://nas:2283/", 1_000) {
        StorageStep::Fetch { base, url } => (base, url),
        StorageStep::Cached(_) => panic!("empty cache"),
    };
    assert_eq!(base, "http://nas:2283");
    assert_eq!(url, "http://nas:2283/api/server/storage");
    let got = c.settle(base, 1_000, StorageReply::Parsed(storage("1 TiB", 1 << 40, 12.5)));
    let got = got.unwrap().unwrap();
    assert_eq!(got.disk_available_raw, 1 << 40);
    match c.begin("http://nas:2283", 1_000 + 44_999_999_999) {
        StorageStep::Cached(Some(s)) => {
            assert_eq!(s.disk_available, "1 TiB");
            assert_eq!(s.disk_usage_percentage, 12.5);
        }
        _ => panic!("fresh answer must be reused"),
    }
    assert!(matches!(c.begin("http://nas:2283", 1_000 + 45_000_000_000), StorageStep::Fetch { .. }));
    assert!(matches!(c.begin("http://other:2283", 2_000), StorageStep::Fetch { .. }));
    // a clock reading before the answer counts as no time passed
    assert!(matches!(c.begin("http://nas:2283", 0), StorageStep::Cached(Some(_))));
}

#[test]
fn storage_denial_is_cached_and_failures_are_not() {
    let mut c: StorageCache<f64> = StorageCache::new();
    assert_eq!(c.settle("http://h".to_string(), 5, StorageReply::Denied).unwrap().is_none(), true);
    assert!(matches!(c.begin("http://h", 6), StorageStep::Cached(None)));
    let mut c2: StorageCache<f64> = StorageCache::new();
    let r = c2.settle(
        "http://h".to_string(),
        5,
        StorageReply::Refused {
            status: HttpStatus { code: 500, text: "500 Internal Server Error".to_string() },
            body: Ok("oops".to_string()),
        },
    );
    assert_eq!(r.err().unwrap(), "Server returned 500 Internal Server Error: oops");
    assert!(matches!(c2.begin("http://h", 6), StorageStep::Fetch { .. }));
    let r = c2.settle(
        "http://h".to_string(),
        5,
        StorageReply::BadJson { err: "missing field".to_string(), text: "{}".to_string() },
    );
    assert_eq!(r.err().unwrap(), "Bad storage JSON: missing field — {}");
    let r = c2.settle("http://h".to_string(), 5, StorageReply::SendFailed("dns".to_string()));
    assert_eq!(r.err().unwrap(), "dns");
    let r = c2.settle("http://h".to_string(), 5, StorageReply::BodyFailed("reset".to_string()));
    assert_eq!(r.err().unwrap(), "reset");
    assert!(c2.entry.is_none());
}

#[test]
fn storage_denied_codes() {
    assert!(storage_denied(401));
    assert!(storage_denied(403));
    assert!(!storage_denied(404));
    assert!(!storage_denied(200));
}

#[test]
fn precheck_refuses_nearly_full_disk() {
    assert_eq!(
        precheck_upload_space(Ok(Some(figures(99, "99.2", 1 << 40))), 10),
        Err("Immich server disk is nearly full (99.2% used). Free space on the server before uploading.".to_string())
    );
    assert_eq!(precheck_upload_space(Ok(Some(figures(98, "98.9", 1 << 40))), 10), Ok(()));
}

#[test]
fn precheck_refuses_low_space() {
    assert_eq!(
        precheck_upload_space(Ok(Some(figures(50, "50.0", 100))), 60),
        Err("Immich server is low on free space (100 bytes free; this upload needs on the order of 120 bytes on the server).".to_string())
    );
    assert_eq!(precheck_upload_space(Ok(Some(figures(50, "50.0", 120))), 60), Ok(()));
    // unknown free space (0) is not a refusal
    assert_eq!(precheck_upload_space(Ok(Some(figures(50, "50.0", 0))), 60), Ok(()));
    // the need saturates
    assert_eq!(
        precheck_upload_space(Ok(Some(figures(1, "1.0", u64::MAX - 1))), u64::MAX),
        Err(format!("Immich server is low on free space ({} bytes free; this upload needs on the order of {} bytes on the server).", u64::MAX - 1, u64::MAX))
    );
}

#[test]
fn precheck_is_best_effort() {
    assert_eq!(precheck_upload_space(Err("offline".to_string()), u64::MAX), Ok(()));
    assert_eq!(precheck_upload_space(Ok(None), u64::MAX), Ok(()));
}

#[test]
fn precheck_smaller_upload_passes_when_larger_does() {
    let f = || Ok(Some(figures(40, "40.0", 1000)));
    for large in [0u64, 1, 499, 500] {
        assert_eq!(precheck_upload_space(f(), large), Ok(()));
        for small in 0..=large {
            assert_eq!(precheck_upload_space(f(), small), Ok(()));
        }
    }
    assert!(precheck_upload_space(f(), 501).is_err());
}

#[test]
fn storage_info_for_each_result() {
    let none = storage_info::<f64>(None);
    assert!(none.server_disk_available_raw.is_none() && !none.server_storage_forbidden && none.server_error.is_none());
    let denied = storage_info::<f64>(Some(Ok(None)));
    assert!(denied.server_storage_forbidden && denied.server_error.is_none());
    let ok = storage_info(Some(Ok(Some(storage("512 GiB", 42, 33.3)))));
    assert_eq!(ok.server_disk_available_raw, Some(42));
    assert_eq!(ok.server_disk_usage_percentage, Some(33.3));
    assert_eq!(ok.server_disk_available_human, Some("512 GiB".to_string()));
    let blank = storage_info(Some(Ok(Some(storage("", 42, 1.0)))));
    assert_eq!(blank.server_disk_available_human, None);
    let err = storage_info::<f64>(Some(Err("boom".to_string())));
    assert_eq!(err.server_error, Some("boom".to_string()));
    assert!(!err.server_storage_forbidden);
}

#[test]
fn error_chain_keeps_six_causes() {
    let msgs: Vec<String> = (0..9).map(|i| format!("e{i}")).collect();
    assert_eq!(error_chain(&msgs), "e0 → e1 → e2 → e3 → e4 → e5 → e6");
    assert_eq!(error_chain(&vec!["only".to_string()]), "only");
    assert_eq!(error_chain(&Vec::new()), "");
}

#[test]
fn upload_transfer_error_message() {
    let chain = vec!["error sending request".to_string(), "connection reset".to_string()];
    assert_eq!(
        upload_io_err("/p/a.jpg", "Upload request failed", &chain),
        "Upload request failed (/p/a.jpg): error sending request → connection reset. If this repeats on large files, check Immich / reverse-proxy timeouts (e.g. nginx proxy_read_timeout, client_max_body_size) and your network."
    );
}

#[test]
fn upload_file_name_fallback() {
    assert_eq!(upload_file_name(Some("a.jpg".to_string())), "a.jpg");
    assert_eq!(upload_file_name(None), "upload.bin");
}

#[test]
fn upload_results() {
    let ok = upload_result(
        "/p/a.jpg",
        UploadReply::Answered {
            body: "{\"id\":\"x\"}".to_string(),
            parsed: Ok(UploadResponse { id: "x".to_string(), duplicate: true }),
        },
    )
    .unwrap();
    assert_eq!(ok.id, "x");
    assert!(ok.duplicate);
    let bad = upload_result(
        "/p/a.jpg",
        UploadReply::Answered { body: "<html>".to_string(), parsed: Err("expected value".to_string()) },
    );
    assert_eq!(bad.err().unwrap(), "Bad response JSON: expected value — <html>");
    let rejected = upload_result(
        "/p/a.jpg",
        UploadReply::Rejected {
            status: HttpStatus { code: 413, text: "413 Payload Too Large".to_string() },
            body: "too big".to_string(),
        },
    );
    assert_eq!(rejected.err().unwrap(), "Upload failed (413 Payload Too Large): too big");
    let read = upload_result("/p/a.jpg", UploadReply::ReadFailed(vec!["timeout".to_string()]));
    assert!(read.err().unwrap().starts_with("Reading upload response failed (/p/a.jpg): timeout. If this repeats"));
    let send = upload_result("/p/a.jpg", UploadReply::SendFailed(vec!["refused".to_string()]));
    assert!(send.err().unwrap().starts_with("Upload request failed (/p/a.jpg): refused. "));
}

#[test]
fn sha1_of_known_inputs() {
    let mut h = Sha1Hasher::new();
    h.update(b"ab");
    h.update(b"c");
    assert_eq!(h.finish_hex(), "a9993e364706816aba3e25717850c26c9cd0d89d");
    let h = Sha1Hasher::new();
    assert_eq!(h.finish_hex(), "da39a3ee5e6b4b0d3255bfef95601890afd80709");
    let mut h = Sha1Hasher::new();
    h.update(&[0x00, 0xff]);
    h.update(&[]);
    assert_eq!(h.finish_hex(), expected_00ff());
}


fn expected_00ff() -> String {
    let d = sha1::Sha1::digest([0x00u8, 0xff]);
    d.iter().map(|b| format!("{:02x}", b)).collect()
}

#[test]
fn storage_status_is_sorted() {
    let st = |c: u16| HttpStatus { code: c, text: format!("{c} X") };
    assert!(matches!(storage_after_send::<f64>(Err("dns".to_string())), StorageProgress::Done(StorageReply::SendFailed(ref e)) if e == "dns"));
    assert!(matches!(storage_after_send::<f64>(Ok(st(401))), StorageProgress::Done(StorageReply::Denied)));
    assert!(matches!(storage_after_send::<f64>(Ok(st(403))), StorageProgress::Done(StorageReply::Denied)));
    assert!(matches!(storage_after_send::<f64>(Ok(st(200))), StorageProgress::ReadBody(ref s) if s.code == 200));
    assert!(matches!(storage_after_send::<f64>(Ok(st(500))), StorageProgress::ReadBody(ref s) if s.code == 500));
    match storage_after_body(st(500), Ok(("oops".to_string(), Err::<ServerStorage<f64>, String>("x".to_string())))) {
        StorageReply::Refused { status, body } => {
            assert_eq!(status.code, 500);
            assert_eq!(body, Ok("oops".to_string()));
        }
        _ => panic!("refusal expected"),
    }
    assert!(matches!(storage_after_body::<f64>(st(404), Err("eof".to_string())), StorageReply::Refused { body: Err(ref e), .. } if e == "eof"));
    assert!(matches!(storage_after_body::<f64>(st(200), Err("eof".to_string())), StorageReply::BodyFailed(ref e) if e == "eof"));
    assert!(matches!(storage_after_body(st(200), Ok(("{}".to_string(), Ok(storage("1 GiB", 5, 1.5))))), StorageReply::Parsed(ref s) if s.disk_available_raw == 5));
    assert!(matches!(storage_after_body::<f64>(st(204), Ok(("<".to_string(), Err("bad".to_string())))), StorageReply::BadJson { ref err, ref text } if err == "bad" && text == "<"));
}

#[test]
fn version_status_is_sorted() {
    let st = |c: u16| HttpStatus { code: c, text: format!("{c} X") };
    assert!(matches!(version_after_send(Err("timeout".to_string())), VersionProgress::Done(VersionReply::SendFailed(ref e)) if e == "timeout"));
    assert!(matches!(version_after_send(Ok(st(200))), VersionProgress::ReadJson));
    assert!(matches!(version_after_send(Ok(st(401))), VersionProgress::ReadErrorBody(ref s) if s.code == 401));
}

#[test]
fn upload_status_is_sorted() {
    let st = |c: u16| HttpStatus { code: c, text: format!("{c} X") };
    let ok = UploadResponse { id: "a".to_string(), duplicate: false };
    assert!(matches!(upload_after_body(st(201), Ok(("{}".to_string(), Ok(ok)))), UploadReply::Answered { parsed: Ok(ref u), .. } if u.id == "a"));
    assert!(matches!(upload_after_body(st(500), Ok(("bad".to_string(), Err("x".to_string())))), UploadReply::Rejected { ref body, .. } if body == "bad"));
    assert!(matches!(upload_after_body(st(200), Err(vec!["reset".to_string()])), UploadReply::ReadFailed(ref c) if c[0] == "reset"));
}
