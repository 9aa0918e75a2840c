use vstd::prelude::*;
use crate::config::{count_supported, is_supported_media, supported_media, AppConfig};
use crate::pipeline::{ProcessErr, UploadOutcome};
use crate::text::trimmed;

verus! {

/// What the sync loop keeps for the status page.
pub struct SyncMetrics {
    pub last_error: Option<String>,
    /// Wall-clock milliseconds of the last upload; 0 when none happened.
    pub last_upload_ms: u64,
    /// The file being hashed or uploaded, if any.
    pub current_file: Option<String>,
}

impl SyncMetrics {
    pub fn new() -> (m: Self)
        ensures
            m.last_error is None,
            m.last_upload_ms == 0,
            m.current_file is None,
    {
        SyncMetrics { last_error: None, last_upload_ms: 0, current_file: None }
    }

    pub fn set_current_file(&mut self, path: Option<String>)
        ensures
            final(self).current_file == path,
            final(self).last_error == old(self).last_error,
            final(self).last_upload_ms == old(self).last_upload_ms,
    {
        self.current_file = path;
    }

    pub fn clear_current_file(&mut self)
        ensures
            final(self).current_file is None,
            final(self).last_error == old(self).last_error,
            final(self).last_upload_ms == old(self).last_upload_ms,
    {
        self.current_file = None;
    }

    /// An upload succeeded at `now_ms`: the time is kept and the last error cleared.
    pub fn record_ok(&mut self, now_ms: u64)
        ensures
            final(self).last_upload_ms == now_ms,
            final(self).last_error is None,
            final(self).current_file == old(self).current_file,
    {
        self.last_upload_ms = now_ms;
        self.last_error = None;
    }

    /// Keeps `msg` as the last error.
    pub fn record_err(&mut self, msg: String)
        ensures
            final(self).last_error == Some(msg),
            final(self).last_upload_ms == old(self).last_upload_ms,
            final(self).current_file == old(self).current_file,
    {
        self.last_error = Some(msg);
    }

    /// Forgets the last error (after a valid key was saved, for instance).
    pub fn clear_last_error(&mut self)
        ensures
            final(self).last_error is None,
            final(self).last_upload_ms == old(self).last_upload_ms,
            final(self).current_file == old(self).current_file,
    {
        self.last_error = None;
    }
}

/// Counts of local files for the status page: the supported photos and videos
/// under the watch folders, and how many of those are recorded as synced.
#[derive(Clone, Copy)]
pub struct LibraryCounts {
    total: u64,
    uploaded: u64,
}

impl LibraryCounts {
    #[verifier::type_invariant]
    spec fn counts_inv(self) -> bool {
        self.uploaded <= self.total
    }

    pub closed spec fn spec_total(&self) -> u64 {
        self.total
    }

    pub closed spec fn spec_uploaded(&self) -> u64 {
        self.uploaded
    }

    /// Supported media files found under the watch folders.
    #[verifier::when_used_as_spec(spec_total)]
    pub fn total(&self) -> (r: u64)
        ensures
            r == self.spec_total(),
    {
        self.total
    }

    /// Of those, how many are recorded as synced (never more than `total`).
    #[verifier::when_used_as_spec(spec_uploaded)]
    pub fn uploaded(&self) -> (r: u64)
        ensures
            r == self.spec_uploaded(),
            r <= self.spec_total(),
    {
        proof {
            use_type_invariant(self);
        }
        self.uploaded
    }

    /// No files.
    pub fn empty() -> (c: Self)
        ensures
            c.spec_total() == 0,
            c.spec_uploaded() == 0,
    {
        LibraryCounts { total: 0, uploaded: 0 }
    }
}

/// Of the files `paths`, the supported ones that are recorded as synced
/// (`recorded[i]` tells whether `paths[i]` is).
pub open spec fn count_synced(paths: Seq<Seq<char>>, recorded: Seq<bool>) -> nat
    decreases paths.len(),
{
    if paths.len() == 0 || recorded.len() != paths.len() {
        0
    } else {
        count_synced(paths.drop_last(), recorded.drop_last()) + if supported_media(paths.last())
            && recorded.last() {
            1nat
        } else {
            0nat
        }
    }
}

/// One file counts as synced exactly when it is supported media and recorded.
pub proof fn lemma_count_synced_one(p: Seq<char>, r: bool)
    ensures
        count_synced(seq![p], seq![r]) == (if supported_media(p) && r { 1nat } else { 0nat }),
{
    assert(seq![p].drop_last() =~= Seq::<Seq<char>>::empty());
    assert(seq![r].drop_last() =~= Seq::<bool>::empty());
    assert(count_synced(Seq::<Seq<char>>::empty(), Seq::<bool>::empty()) == 0);
    assert(seq![p].last() == p);
    assert(seq![r].last() == r);
}

/// The synced count of two lists of files is the sum of their counts: each
/// supported, recorded file adds one, whatever comes before or after it.
pub proof fn lemma_count_synced_additive(a: Seq<Seq<char>>, ra: Seq<bool>, b: Seq<Seq<char>>, rb: Seq<bool>)
    requires
        ra.len() == a.len(),
        rb.len() == b.len(),
    ensures
        count_synced(a + b, ra + rb) == count_synced(a, ra) + count_synced(b, rb),
    decreases b.len(),
{
    if b.len() == 0 {
        assert(a + b =~= a);
        assert(ra + rb =~= ra);
    } else {
        lemma_count_synced_additive(a, ra, b.drop_last(), rb.drop_last());
        assert((a + b).drop_last() =~= a + b.drop_last());
        assert((ra + rb).drop_last() =~= ra + rb.drop_last());
        assert((a + b).last() == b.last());
        assert((ra + rb).last() == rb.last());
    }
}

/// The synced files counted are among the supported files counted.
pub proof fn lemma_synced_among_supported(paths: Seq<Seq<char>>, recorded: Seq<bool>)
    requires
        recorded.len() == paths.len(),
    ensures
        count_synced(paths, recorded) <= count_supported(paths),
        count_supported(paths) <= paths.len(),
    decreases paths.len(),
{
    if paths.len() > 0 {
        lemma_synced_among_supported(paths.drop_last(), recorded.drop_last());
    }
}

/// The counts for the files found under the watch folders: `files` are their
/// paths and `recorded[i]` tells whether `files[i]` is recorded as synced.
pub fn library_counts(files: &Vec<String>, recorded: &Vec<bool>) -> (c: LibraryCounts)
    requires
        recorded.len() == files.len(),
    ensures
        c.spec_total() == count_supported(files@.map_values(|p: String| p@)),
        c.spec_uploaded() == count_synced(files@.map_values(|p: String| p@), recorded@),
{
    let ghost all = files@.map_values(|p: String| p@);
    let mut total: u64 = 0;
    let mut uploaded: u64 = 0;
    let mut i: usize = 0;
    while i < files.len()
        invariant
            i <= files.len(),
            recorded.len() == files.len(),
            all == files@.map_values(|p: String| p@),
            total == count_supported(all.subrange(0, i as int)),
            uploaded == count_synced(all.subrange(0, i as int), recorded@.subrange(0, i as int)),
            uploaded <= total <= i,
        decreases files.len() - i,
    {
        let s = is_supported_media(files[i].as_str());
        assert(all.subrange(0, i + 1).drop_last() =~= all.subrange(0, i as int));
        assert(recorded@.subrange(0, i + 1).drop_last() =~= recorded@.subrange(0, i as int));
        if s {
            total = total + 1;
            if recorded[i] {
                uploaded = uploaded + 1;
            }
        }
        i = i + 1;
    }
    assert(all.subrange(0, files.len() as int) =~= all);
    assert(recorded@.subrange(0, files.len() as int) =~= recorded@);
    LibraryCounts { total, uploaded }
}

/// Sync status for the user interface.
pub struct SyncStatusDto {
    pub running: bool,
    pub last_error: Option<String>,
    pub last_upload_ms: Option<u64>,
    /// Supported media files found under watch folders.
    pub local_files_total: u64,
    /// Of those, how many still exist on disk and are recorded as synced in the local DB.
    pub local_files_uploaded: u64,
    pub current_file: Option<String>,
}

/// The status from the metrics and the library counts; an upload time of 0
/// means no upload happened.
pub fn status_dto(running: bool, m: &SyncMetrics, counts: &LibraryCounts) -> (r: SyncStatusDto)
    ensures
        r.running == running,
        r.last_error == m.last_error,
        r.last_upload_ms == (if m.last_upload_ms == 0 { None } else { Some(m.last_upload_ms) }),
        r.local_files_total == counts.spec_total(),
        r.local_files_uploaded == counts.spec_uploaded(),
        r.local_files_uploaded <= r.local_files_total,
        r.current_file == m.current_file,
{
    SyncStatusDto {
        running,
        last_error: m.last_error.clone(),
        last_upload_ms: if m.last_upload_ms == 0 {
            None
        } else {
            Some(m.last_upload_ms)
        },
        local_files_total: counts.total(),
        local_files_uploaded: counts.uploaded(),
        current_file: m.current_file.clone(),
    }
}

/// How long library counts are reused: 5 s, in nanoseconds.
pub open spec fn library_stats_ttl() -> u64 {
    5_000_000_000
}

/// Library counts, kept for a short while.
pub struct LibraryStatsCache {
    /// When the counts were taken, and the counts.
    pub entry: Option<(u64, LibraryCounts)>,
}

/// The counts a cache entry gives at `now`, if still fresh.
pub open spec fn stats_answer(entry: Option<(u64, LibraryCounts)>, now: u64) -> Option<LibraryCounts> {
    match entry {
        Some((at, counts)) => if crate::storage::elapsed(at, now) < library_stats_ttl() {
            Some(counts)
        } else {
            None
        },
        None => None,
    }
}

impl LibraryStatsCache {
    pub fn new() -> (c: Self)
        ensures
            c.entry is None,
    {
        LibraryStatsCache { entry: None }
    }

    /// The kept counts, if taken less than the reuse time before `now`.
    pub fn lookup(&self, now: u64) -> (r: Option<LibraryCounts>)
        ensures
            r == stats_answer(self.entry, now),
    {
        match self.entry {
            Some((at, counts)) => {
                let el: u64 = if now >= at {
                    now - at
                } else {
                    0
                };
                if el < 5_000_000_000u64 {
                    Some(counts)
                } else {
                    None
                }
            },
            None => None,
        }
    }

    /// Keeps counts taken at `at`.
    pub fn store(&mut self, at: u64, counts: LibraryCounts)
        ensures
            final(self).entry == Some((at, counts)),
    {
        self.entry = Some((at, counts));
    }

    /// Drops the kept counts (settings changed, or a file was uploaded).
    pub fn invalidate(&mut self)
        ensures
            final(self).entry is None,
    {
        self.entry = None;
    }
}

/// Counts kept at `at` are given back unchanged until the reuse time has passed.
pub proof fn lemma_kept_counts_are_reused(at: u64, counts: LibraryCounts, now: u64)
    requires
        at <= now,
        now - at < library_stats_ttl(),
    ensures
        stats_answer(Some((at, counts)), now) == Some(counts),
{
}

/// After invalidation nothing is reused, at any time.
pub proof fn lemma_invalidated_counts_are_recomputed(now: u64)
    ensures
        stats_answer(None, now) is None,
{
}

pub open spec fn sync_disabled_message() -> Seq<char> {
    "Sync is disabled in settings"@
}

pub open spec fn no_sync_key_message() -> Seq<char> {
    "No API key saved for sync. Paste the key and click Save settings, or click Start sync while the key is still in the API key field."@
}

pub open spec fn no_folder_message() -> Seq<char> {
    "Add at least one folder to watch"@
}

pub open spec fn no_server_message() -> Seq<char> {
    "Server URL is required"@
}

/// Why syncing cannot start with these settings and this key lookup, checked
/// in order: sync switched off; the key lookup failed; no key; no folder; no
/// server URL. `Ok` when none applies. The key lookup is not consulted when
/// sync is switched off.
pub open spec fn preflight_verdict(cfg: AppConfig, key: Result<Option<String>, String>) -> Result<(), Seq<char>> {
    if !cfg.sync_enabled {
        Err(sync_disabled_message())
    } else if key is Err {
        Err(key->Err_0@)
    } else if key->Ok_0 is None {
        Err(no_sync_key_message())
    } else if cfg.watch_paths.len() == 0 {
        Err(no_folder_message())
    } else if trimmed(cfg.server_url@).len() == 0 {
        Err(no_server_message())
    } else {
        Ok(())
    }
}

/// The start checks in terms of the settings and the key lookup: with sync
/// switched off the answer is always "Sync is disabled in settings", whatever
/// the folders, key and server; then a failed lookup gives its error, a missing
/// key, no folder and a blank server URL each their message, in that order;
/// otherwise the checks pass.
pub proof fn lemma_preflight_order(cfg: AppConfig, key: Result<Option<String>, String>)
    ensures
        !cfg.sync_enabled ==> preflight_verdict(cfg, key) == Err::<(), Seq<char>>(
            "Sync is disabled in settings"@,
        ),
        cfg.sync_enabled ==> (key matches Err(e) ==> preflight_verdict(cfg, key) == Err::<
            (),
            Seq<char>,
        >(e@)),
        cfg.sync_enabled && key == Ok::<Option<String>, String>(None) ==> preflight_verdict(cfg, key)
            == Err::<(), Seq<char>>(
            "No API key saved for sync. Paste the key and click Save settings, or click Start sync while the key is still in the API key field."@,
        ),
        cfg.sync_enabled && (key matches Ok(Some(_))) && cfg.watch_paths.len() == 0
            ==> preflight_verdict(cfg, key) == Err::<(), Seq<char>>(
            "Add at least one folder to watch"@,
        ),
        cfg.sync_enabled && (key matches Ok(Some(_))) && cfg.watch_paths.len() > 0 ==> (
        preflight_verdict(cfg, key) == if trimmed(cfg.server_url@).len() == 0 {
            Err::<(), Seq<char>>("Server URL is required"@)
        } else {
            Ok(())
        }),
{
}

/// Library counts are reused for less than 5 s after they were taken (a clock
/// reading before that time counts as no time passed), never after.
pub proof fn lemma_stats_window(at: u64, counts: LibraryCounts, now: u64)
    ensures
        stats_answer(Some((at, counts)), now) is Some <==> (now <= at || now - at < 5_000_000_000),
        stats_answer(Some((at, counts)), now) is Some ==> stats_answer(Some((at, counts)), now)
            == Some(counts),
{
}

/// Checks the settings before syncing starts (the server probe comes after).
pub fn start_preflight(cfg: &AppConfig, key: &Result<Option<String>, String>) -> (r: Result<(), String>)
    ensures
        crate::immich::unit_result_view(r) == preflight_verdict(*cfg, *key),
{
    if !cfg.sync_enabled {
        return Err(String::from_str("Sync is disabled in settings"));
    }
    match key {
        Err(e) => {
            return Err(e.clone());
        },
        Ok(None) => {
            return Err(
                String::from_str(
                    "No API key saved for sync. Paste the key and click Save settings, or click Start sync while the key is still in the API key field.",
                ),
            );
        },
        Ok(Some(_)) => {},
    }
    if cfg.watch_paths.len() == 0 {
        return Err(String::from_str("Add at least one folder to watch"));
    }
    let url = crate::text::trim(cfg.server_url.as_str());
    if url.as_str().unicode_len() == 0 {
        return Err(String::from_str("Server URL is required"));
    }
    Ok(())
}

/// Syncing starts by itself at launch when it is switched on, a key is saved
/// and a folder is watched.
pub fn should_autostart(cfg: &AppConfig, has_key: bool) -> (r: bool)
    ensures
        r == (cfg.sync_enabled && has_key && cfg.watch_paths.len() > 0),
{
    cfg.sync_enabled && has_key && cfg.watch_paths.len() > 0
}

pub open spec fn missing_key_message() -> Seq<char> {
    "API key missing"@
}

/// The key for processing a changed file: a failed lookup or a missing key is
/// an ordinary (non-stopping) failure.
pub fn key_for_processing(lookup: Result<Option<String>, String>) -> (r: Result<String, ProcessErr>)
    ensures
        match lookup {
            Ok(Some(k)) => r matches Ok(k2) && k2@ == k@,
            Ok(None) => r matches Err(ProcessErr::Other(m)) && m@ == missing_key_message(),
            Err(e) => r matches Err(ProcessErr::Other(m)) && m@ == e@,
        },
{
    match lookup {
        Ok(Some(k)) => Ok(k),
        Ok(None) => Err(ProcessErr::Other(String::from_str("API key missing"))),
        Err(e) => Err(ProcessErr::Other(e)),
    }
}

/// The texts of processing failures: a missing key, and an offline server
/// (the probe's reason follows).
pub proof fn lemma_sync_messages(reason: Seq<char>)
    ensures
        missing_key_message() == "API key missing"@,
        offline_message(reason) == "Immich server is offline or unreachable. Sync stopped. "@
            + reason,
{
}

/// What the sync loop does after a file was processed.
pub struct FollowUp {
    /// An error to show.
    pub error: Option<String>,
    /// A file was uploaded: note the time, clear the error, recount the library.
    pub record_success: bool,
    /// The server is offline: stop syncing.
    pub stop_sync: bool,
}

pub open spec fn offline_message(reason: Seq<char>) -> Seq<char> {
    "Immich server is offline or unreachable. Sync stopped. "@ + reason
}

/// The follow-up of a processed file. Only an unreachable server stops
/// syncing; other failures are shown and syncing goes on.
pub fn follow_up(r: Result<UploadOutcome, ProcessErr>) -> (f: FollowUp)
    ensures
        f.stop_sync == (r matches Err(ProcessErr::ServerOffline(_))),
        f.record_success == (r == Ok::<UploadOutcome, ProcessErr>(UploadOutcome::Uploaded)),
        match r {
            Ok(_) => f.error is None,
            Err(ProcessErr::ServerOffline(m)) => f.error matches Some(e) && e@ == offline_message(
                m@,
            ),
            Err(ProcessErr::Other(m)) => f.error matches Some(e) && e@ == m@,
        },
{
    match r {
        Ok(UploadOutcome::Uploaded) => FollowUp { error: None, record_success: true, stop_sync: false },
        Ok(UploadOutcome::Skipped) => FollowUp { error: None, record_success: false, stop_sync: false },
        Err(ProcessErr::ServerOffline(m)) => {
            let mut e = String::from_str("Immich server is offline or unreachable. Sync stopped. ");
            e.append(m.as_str());
            FollowUp { error: Some(e), record_success: false, stop_sync: true }
        },
        Err(ProcessErr::Other(m)) => FollowUp { error: Some(m), record_success: false, stop_sync: false },
    }
}

impl SyncMetrics {
    /// Applies a follow-up at wall-clock time `now_ms`.
    pub fn apply(&mut self, f: &FollowUp, now_ms: u64)
        ensures
            f.record_success ==> final(self).last_upload_ms == now_ms,
            !f.record_success ==> final(self).last_upload_ms == old(self).last_upload_ms,
            final(self).last_error == (match f.error {
                Some(e) => Some(e),
                None => if f.record_success {
                    None
                } else {
                    old(self).last_error
                },
            }),
            final(self).current_file == old(self).current_file,
    {
        if f.record_success {
            self.record_ok(now_ms);
        }
        match &f.error {
            Some(e) => self.record_err(e.clone()),
            None => {},
        }
    }
}

/// A changed or scanned path is processed only when it is a regular file and a
/// supported photo or video.
pub fn wants_file(is_file: bool, path: &str) -> (r: bool)
    ensures
        r == (is_file && supported_media(path@)),
{
    is_file && is_supported_media(path)
}

/// What to do with a changed file once the settings were read for it.
pub enum ConfigGate {
    /// The settings could not be read: show this error and go on.
    Report(String),
    /// Sync is switched off: leave the file.
    Skip,
    /// Process the file with these settings.
    Process(AppConfig),
}

/// Reading the settings failed: report; sync switched off: skip; else process.
pub fn config_gate(cfg: Result<AppConfig, String>) -> (g: ConfigGate)
    ensures
        match cfg {
            Err(e) => g matches ConfigGate::Report(m) && m@ == e@,
            Ok(c) => if c.sync_enabled {
                g matches ConfigGate::Process(c2) && c2 == c
            } else {
                g is Skip
            },
        },
{
    match cfg {
        Err(e) => ConfigGate::Report(e),
        Ok(c) => if c.sync_enabled {
            ConfigGate::Process(c)
        } else {
            ConfigGate::Skip
        },
    }
}

/// How a full scan of the watch folders begins, given the key lookup.
pub enum ScanStart {
    /// Scan with this key.
    Run(String),
    /// Do not scan; show this error, if any.
    Quit(Option<String>),
}

/// A failed key lookup ends the scan with its error; a missing key ends it quietly.
pub fn scan_start(lookup: Result<Option<String>, String>) -> (r: ScanStart)
    ensures
        match lookup {
            Ok(Some(k)) => r matches ScanStart::Run(k2) && k2@ == k@,
            Ok(None) => r matches ScanStart::Quit(None),
            Err(e) => r matches ScanStart::Quit(Some(m)) && m@ == e@,
        },
{
    match lookup {
        Ok(Some(k)) => ScanStart::Run(k),
        Ok(None) => ScanStart::Quit(None),
        Err(e) => ScanStart::Quit(Some(e)),
    }
}

} // verus!
