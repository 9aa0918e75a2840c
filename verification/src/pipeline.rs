use vstd::prelude::*;
use crate::config::normalized_base;
use crate::immich::{
    assets_route, assets_url, check_server_online, online_verdict, ping_route, ping_url, PingReply,
};
use crate::storage::{precheck_upload_space, space_verdict, SpaceFigures};
use crate::upload::UploadResponse;
use crate::sync::SyncMetrics;

verus! {

/// How processing a file ended when nothing went wrong.
#[derive(Clone, Copy, Debug, PartialEq, Eq, Structural)]
pub enum UploadOutcome {
    /// The file's content was already synced.
    Skipped,
    /// The file was uploaded and recorded as synced.
    Uploaded,
}

/// Why processing a file failed.
pub enum ProcessErr {
    /// The server could not be reached: syncing stops.
    ServerOffline(String),
    /// Any other failure; syncing goes on with the next file.
    Other(String),
}

pub enum ProcessErrView {
    ServerOffline(Seq<char>),
    Other(Seq<char>),
}

impl View for ProcessErr {
    type V = ProcessErrView;

    open spec fn view(&self) -> ProcessErrView {
        match self {
            ProcessErr::ServerOffline(m) => ProcessErrView::ServerOffline(m@),
            ProcessErr::Other(m) => ProcessErrView::Other(m@),
        }
    }
}

pub open spec fn outcome_view(r: Result<UploadOutcome, ProcessErr>) -> Result<UploadOutcome, ProcessErrView> {
    match r {
        Ok(o) => Ok(o),
        Err(e) => Err(e@),
    }
}

/// Where the processing of one file stands; `Seq<char>` is the file's SHA-1 in hex.
pub enum StageView {
    Hashing,
    Comparing(Seq<char>),
    Pinging(Seq<char>),
    Sizing(Seq<char>),
    CheckingSpace(Seq<char>, u64),
    Uploading(Seq<char>),
    Recording(Seq<char>),
    Finished,
}

/// The processing of one file: which file, which server and key, and the stage.
pub struct FileSyncView {
    pub path: Seq<char>,
    pub base: Seq<char>,
    pub key: Seq<char>,
    pub stage: StageView,
}

/// The outside work that the processing asks for next, or its end.
pub enum ActionView {
    HashFile(Seq<char>),
    ReadStoredSha1(Seq<char>),
    Ping(Seq<char>),
    ReadFileSize(Seq<char>),
    FetchStorage(Seq<char>, Seq<char>),
    Upload(Seq<char>, Seq<char>, Seq<char>, Seq<char>),
    Record(Seq<char>, Seq<char>, Seq<char>, bool),
    Done(Result<UploadOutcome, ProcessErrView>),
}

enum Stage {
    Hashing,
    Comparing(String),
    Pinging(String),
    Sizing(String),
    CheckingSpace(String, u64),
    Uploading(String),
    Recording(String),
    Finished,
}

/// Processing of one file, step by step: the caller performs each action and
/// hands back what came of it.
pub struct FileSync {
    path: String,
    base_url: String,
    api_key: String,
    stage: Stage,
}

impl View for FileSync {
    type V = FileSyncView;

    closed spec fn view(&self) -> FileSyncView {
        FileSyncView {
            path: self.path@,
            base: self.base_url@,
            key: self.api_key@,
            stage: match self.stage {
                Stage::Hashing => StageView::Hashing,
                Stage::Comparing(h) => StageView::Comparing(h@),
                Stage::Pinging(h) => StageView::Pinging(h@),
                Stage::Sizing(h) => StageView::Sizing(h@),
                Stage::CheckingSpace(h, n) => StageView::CheckingSpace(h@, n),
                Stage::Uploading(h) => StageView::Uploading(h@),
                Stage::Recording(h) => StageView::Recording(h@),
                Stage::Finished => StageView::Finished,
            },
        }
    }
}

/// Outside work, or the end of the processing.
pub enum SyncAction {
    /// Compute the SHA-1 (hex) of the file's content.
    HashFile { path: String },
    /// Read the SHA-1 recorded for the path when it was last synced.
    ReadStoredSha1 { path: String },
    /// Send the reachability probe.
    Ping { url: String },
    /// Read the file's size in bytes.
    ReadFileSize { path: String },
    /// Get the server's storage figures.
    FetchStorage { base_url: String, api_key: String },
    /// Upload the file with its checksum.
    Upload { url: String, api_key: String, path: String, checksum: String },
    /// Record the path as synced with this content and asset.
    Record { path: String, sha1: String, remote_id: String, is_duplicate: bool },
    /// Processing is over.
    Done(Result<UploadOutcome, ProcessErr>),
}

impl View for SyncAction {
    type V = ActionView;

    open spec fn view(&self) -> ActionView {
        match self {
            SyncAction::HashFile { path } => ActionView::HashFile(path@),
            SyncAction::ReadStoredSha1 { path } => ActionView::ReadStoredSha1(path@),
            SyncAction::Ping { url } => ActionView::Ping(url@),
            SyncAction::ReadFileSize { path } => ActionView::ReadFileSize(path@),
            SyncAction::FetchStorage { base_url, api_key } => ActionView::FetchStorage(
                base_url@,
                api_key@,
            ),
            SyncAction::Upload { url, api_key, path, checksum } => ActionView::Upload(
                url@,
                api_key@,
                path@,
                checksum@,
            ),
            SyncAction::Record { path, sha1, remote_id, is_duplicate } => ActionView::Record(
                path@,
                sha1@,
                remote_id@,
                *is_duplicate,
            ),
            SyncAction::Done(r) => ActionView::Done(outcome_view(*r)),
        }
    }
}

/// What came of an action.
pub enum SyncEvent {
    /// SHA-1 hex of the file, or why it could not be computed.
    Hashed(Result<String, String>),
    /// The recorded SHA-1, if any (a failed read counts as none).
    StoredSha1(Option<String>),
    /// What came of the probe.
    Pinged(PingReply),
    /// The file size, or why it could not be read.
    FileSize(Result<u64, String>),
    /// The storage figures, or why there are none.
    Storage(Result<Option<SpaceFigures>, String>),
    /// The server's answer to the upload, or the upload's error.
    Uploaded(Result<UploadResponse, String>),
    /// Whether recording the sync worked.
    Recorded(Result<(), String>),
}

/// Which event each stage waits for.
pub open spec fn accepts(stage: StageView, e: SyncEvent) -> bool {
    match stage {
        StageView::Hashing => e is Hashed,
        StageView::Comparing(_) => e is StoredSha1,
        StageView::Pinging(_) => e is Pinged,
        StageView::Sizing(_) => e is FileSize,
        StageView::CheckingSpace(_, _) => e is Storage,
        StageView::Uploading(_) => e is Uploaded,
        StageView::Recording(_) => e is Recorded,
        StageView::Finished => false,
    }
}

/// Processing starts by hashing the file.
pub open spec fn start_view(path: Seq<char>, base: Seq<char>, key: Seq<char>) -> (FileSyncView, ActionView) {
    (FileSyncView { path, base, key, stage: StageView::Hashing }, ActionView::HashFile(path))
}

pub open spec fn with_stage(s: FileSyncView, stage: StageView) -> FileSyncView {
    FileSyncView { stage, ..s }
}

pub open spec fn finish(s: FileSyncView, r: Result<UploadOutcome, ProcessErrView>) -> (FileSyncView, ActionView) {
    (with_stage(s, StageView::Finished), ActionView::Done(r))
}

/// One step: the stage and the event give the next stage and action.
///
/// The file is skipped when the recorded SHA-1 equals the current one; else the
/// server must answer the probe (or syncing stops), the file size must be
/// known, the space check must pass, the upload must succeed, and the sync is
/// recorded with the SHA-1 that was sent as the upload's checksum.
pub open spec fn next(s: FileSyncView, e: SyncEvent) -> (FileSyncView, ActionView) {
    match s.stage {
        StageView::Hashing => match e {
            SyncEvent::Hashed(Ok(h)) => (
                with_stage(s, StageView::Comparing(h@)),
                ActionView::ReadStoredSha1(s.path),
            ),
            SyncEvent::Hashed(Err(m)) => finish(s, Err(ProcessErrView::Other(m@))),
            _ => (s, ActionView::Done(Ok(UploadOutcome::Skipped))),
        },
        StageView::Comparing(h) => match e {
            SyncEvent::StoredSha1(o) => if o matches Some(x) && x@ == h {
                finish(s, Ok(UploadOutcome::Skipped))
            } else {
                (
                    with_stage(s, StageView::Pinging(h)),
                    ActionView::Ping(normalized_base(s.base) + ping_route()),
                )
            },
            _ => (s, ActionView::Done(Ok(UploadOutcome::Skipped))),
        },
        StageView::Pinging(h) => match e {
            SyncEvent::Pinged(r) => match online_verdict(r) {
                Err(m) => finish(s, Err(ProcessErrView::ServerOffline(m))),
                Ok(()) => (with_stage(s, StageView::Sizing(h)), ActionView::ReadFileSize(s.path)),
            },
            _ => (s, ActionView::Done(Ok(UploadOutcome::Skipped))),
        },
        StageView::Sizing(h) => match e {
            SyncEvent::FileSize(Ok(n)) => (
                with_stage(s, StageView::CheckingSpace(h, n)),
                ActionView::FetchStorage(s.base, s.key),
            ),
            SyncEvent::FileSize(Err(m)) => finish(s, Err(ProcessErrView::Other(m@))),
            _ => (s, ActionView::Done(Ok(UploadOutcome::Skipped))),
        },
        StageView::CheckingSpace(h, n) => match e {
            SyncEvent::Storage(st) => match space_verdict(st, n) {
                Err(m) => finish(s, Err(ProcessErrView::Other(m))),
                Ok(()) => (
                    with_stage(s, StageView::Uploading(h)),
                    ActionView::Upload(normalized_base(s.base) + assets_route(), s.key, s.path, h),
                ),
            },
            _ => (s, ActionView::Done(Ok(UploadOutcome::Skipped))),
        },
        StageView::Uploading(h) => match e {
            SyncEvent::Uploaded(Ok(u)) => (
                with_stage(s, StageView::Recording(h)),
                ActionView::Record(s.path, h, u.id@, u.duplicate),
            ),
            SyncEvent::Uploaded(Err(m)) => finish(s, Err(ProcessErrView::Other(m@))),
            _ => (s, ActionView::Done(Ok(UploadOutcome::Skipped))),
        },
        StageView::Recording(_) => match e {
            SyncEvent::Recorded(Ok(())) => finish(s, Ok(UploadOutcome::Uploaded)),
            SyncEvent::Recorded(Err(m)) => finish(s, Err(ProcessErrView::Other(m@))),
            _ => (s, ActionView::Done(Ok(UploadOutcome::Skipped))),
        },
        StageView::Finished => (s, ActionView::Done(Ok(UploadOutcome::Skipped))),
    }
}


/// After the upload is answered, the sync is recorded for this file with the
/// hash that was uploaded and with the asset id and duplicate flag exactly as
/// the server answered them; a failed upload ends processing with its error.
pub proof fn lemma_record_carries_upload_answer(s: FileSyncView, h: Seq<char>, u: UploadResponse, m: String)
    requires
        s.stage == StageView::Uploading(h),
    ensures
        next(s, SyncEvent::Uploaded(Ok(u))).1 == ActionView::Record(s.path, h, u.id@, u.duplicate),
        next(s, SyncEvent::Uploaded(Ok(u))).0.stage == StageView::Recording(h),
        next(s, SyncEvent::Uploaded(Err(m))).1 == ActionView::Done(
            Err(ProcessErrView::Other(m@)),
        ),
{
}

/// Each step's outcome in terms of the event: a hashed file is looked up by its
/// path; a file whose recorded hash differs (or is missing) is followed by the
/// probe of `base` + `/api/server/ping`; a recorded sync ends as uploaded; any
/// failure reported by an event ends processing with that failure's text.
pub proof fn lemma_step_outcomes(s: FileSyncView, h: Seq<char>, x: String, m: String, n: u64)
    ensures
        s.stage == StageView::Hashing ==> next(s, SyncEvent::Hashed(Ok(x))) == (
        FileSyncView { stage: StageView::Comparing(x@), ..s }, ActionView::ReadStoredSha1(s.path)),
        s.stage == StageView::Hashing ==> next(s, SyncEvent::Hashed(Err(m))).1
            == ActionView::Done(Err(ProcessErrView::Other(m@))),
        s.stage == StageView::Comparing(h) ==> (next(s, SyncEvent::StoredSha1(Some(x))).1
            == ActionView::Done(Ok(UploadOutcome::Skipped)) <==> x@ == h),
        s.stage == StageView::Comparing(h) && x@ != h ==> next(s, SyncEvent::StoredSha1(Some(x)))
            == (FileSyncView { stage: StageView::Pinging(h), ..s }, ActionView::Ping(
            normalized_base(s.base) + "/api/server/ping"@,
        )),
        s.stage == StageView::Comparing(h) ==> next(s, SyncEvent::StoredSha1(None)).1
            == ActionView::Ping(normalized_base(s.base) + "/api/server/ping"@),
        s.stage == StageView::Sizing(h) ==> next(s, SyncEvent::FileSize(Ok(n))) == (FileSyncView {
            stage: StageView::CheckingSpace(h, n),
            ..s
        }, ActionView::FetchStorage(s.base, s.key)),
        s.stage == StageView::Sizing(h) ==> next(s, SyncEvent::FileSize(Err(m))).1
            == ActionView::Done(Err(ProcessErrView::Other(m@))),
        s.stage == StageView::Recording(h) ==> next(s, SyncEvent::Recorded(Ok(()))).1
            == ActionView::Done(Ok(UploadOutcome::Uploaded)),
        s.stage == StageView::Recording(h) ==> next(s, SyncEvent::Recorded(Err(m))).1
            == ActionView::Done(Err(ProcessErrView::Other(m@))),
{
    reveal_strlit("/api/server/ping");
}

/// An answered probe lets processing go on to reading the file size exactly
/// when the status is 2xx; any other probe result stops syncing with the
/// probe's message.
pub proof fn lemma_probe_decides(s: FileSyncView, h: Seq<char>, r: PingReply)
    requires
        s.stage == StageView::Pinging(h),
    ensures
        (r matches PingReply::Answered(st) && 200 <= st.code <= 299) ==> next(s, SyncEvent::Pinged(r))
            == (FileSyncView { stage: StageView::Sizing(h), ..s }, ActionView::ReadFileSize(s.path)),
        !(r matches PingReply::Answered(st) && 200 <= st.code <= 299) ==> next(
            s,
            SyncEvent::Pinged(r),
        ).1 == ActionView::Done(Err(ProcessErrView::ServerOffline(online_verdict(r)->Err_0))),
{
}

/// The space check decides whether the upload is sent: with a passing check the
/// file is uploaded to `base` + `/api/assets` with the saved key and its hash;
/// a refusal ends processing with the refusal's text.
pub proof fn lemma_space_check_decides(s: FileSyncView, h: Seq<char>, n: u64, st: Result<Option<SpaceFigures>, String>)
    requires
        s.stage == StageView::CheckingSpace(h, n),
    ensures
        space_verdict(st, n) is Ok ==> next(s, SyncEvent::Storage(st)) == (FileSyncView {
            stage: StageView::Uploading(h),
            ..s
        }, ActionView::Upload(normalized_base(s.base) + "/api/assets"@, s.key, s.path, h)),
        space_verdict(st, n) is Err ==> next(s, SyncEvent::Storage(st)).1 == ActionView::Done(
            Err(ProcessErrView::Other(space_verdict(st, n)->Err_0)),
        ),
{
}

/// The state and last action after starting and then taking `evs` in order.
pub open spec fn run(path: Seq<char>, base: Seq<char>, key: Seq<char>, evs: Seq<SyncEvent>) -> (FileSyncView, ActionView)
    decreases evs.len(),
{
    if evs.len() == 0 {
        start_view(path, base, key)
    } else {
        next(run(path, base, key, evs.drop_last()).0, evs.last())
    }
}

/// Each event of `evs` is one that the processing waits for at that point.
pub open spec fn valid_run(path: Seq<char>, base: Seq<char>, key: Seq<char>, evs: Seq<SyncEvent>) -> bool
    decreases evs.len(),
{
    evs.len() == 0 || (valid_run(path, base, key, evs.drop_last()) && accepts(
        run(path, base, key, evs.drop_last()).0.stage,
        evs.last(),
    ))
}

/// The file was hashed to `h`.
pub open spec fn hashed_to(e: SyncEvent, h: Seq<char>) -> bool {
    e matches SyncEvent::Hashed(Ok(x)) && x@ == h
}

/// The recorded SHA-1 equals `h`.
pub open spec fn stored_matches(e: SyncEvent, h: Seq<char>) -> bool {
    e matches SyncEvent::StoredSha1(Some(x)) && x@ == h
}

/// The server answered the probe with success.
pub open spec fn ping_ok(e: SyncEvent) -> bool {
    e matches SyncEvent::Pinged(r) && online_verdict(r) is Ok
}

/// The file size an event carries (0 for other events).
pub open spec fn size_of(e: SyncEvent) -> u64 {
    match e {
        SyncEvent::FileSize(Ok(n)) => n,
        _ => 0,
    }
}

/// The space check passed for an upload of `n` bytes.
pub open spec fn space_ok(e: SyncEvent, n: u64) -> bool {
    e matches SyncEvent::Storage(st) && space_verdict(st, n) is Ok
}

/// The first `i` events are those of a file with content hash `h` that goes on
/// towards an upload: hashed, recorded hash different (or none), server
/// reachable, size known, space check passed, upload answered.
pub open spec fn happy_prefix(evs: Seq<SyncEvent>, h: Seq<char>, i: int) -> bool {
    &&& i >= 1 ==> hashed_to(evs[0], h)
    &&& i >= 2 ==> (evs[1] is StoredSha1 && !stored_matches(evs[1], h))
    &&& i >= 3 ==> ping_ok(evs[2])
    &&& i >= 4 ==> (evs[3] matches SyncEvent::FileSize(Ok(_)))
    &&& i >= 5 ==> space_ok(evs[4], size_of(evs[3]))
    &&& i >= 6 ==> (evs[5] matches SyncEvent::Uploaded(Ok(_)))
}

proof fn lemma_happy_prefix_extends(evs: Seq<SyncEvent>, h: Seq<char>, i: int)
    requires
        evs.len() > 0,
        0 <= i < evs.len(),
        happy_prefix(evs.drop_last(), h, i),
    ensures
        happy_prefix(evs, h, i),
{
    let prev = evs.drop_last();
    assert(forall|j: int| 0 <= j < prev.len() ==> prev[j] == evs[j]);
}

/// What the events of a valid run were, given the stage it reached.
proof fn lemma_stage_history(path: Seq<char>, base: Seq<char>, key: Seq<char>, evs: Seq<SyncEvent>)
    requires
        valid_run(path, base, key, evs),
    ensures
        run(path, base, key, evs).0.path == path,
        run(path, base, key, evs).0.base == base,
        run(path, base, key, evs).0.key == key,
        (run(path, base, key, evs).0.stage is Finished) == (run(path, base, key, evs).1 is Done),
        match run(path, base, key, evs).0.stage {
            StageView::Hashing => evs.len() == 0,
            StageView::Comparing(h) => evs.len() == 1 && happy_prefix(evs, h, 1),
            StageView::Pinging(h) => evs.len() == 2 && happy_prefix(evs, h, 2),
            StageView::Sizing(h) => evs.len() == 3 && happy_prefix(evs, h, 3),
            StageView::CheckingSpace(h, n) => evs.len() == 4 && happy_prefix(evs, h, 4) && n
                == size_of(evs[3]),
            StageView::Uploading(h) => evs.len() == 5 && happy_prefix(evs, h, 5),
            StageView::Recording(h) => evs.len() == 6 && happy_prefix(evs, h, 6),
            StageView::Finished => 1 <= evs.len() <= 7,
        },
    decreases evs.len(),
{
    if evs.len() > 0 {
        let prev = evs.drop_last();
        lemma_stage_history(path, base, key, prev);
        let s = run(path, base, key, prev).0;
        let e = evs.last();
        assert(evs.last() == evs[evs.len() - 1]);
        match s.stage {
            StageView::Hashing => {},
            StageView::Comparing(h) => {
                lemma_happy_prefix_extends(evs, h, 1);
            },
            StageView::Pinging(h) => {
                lemma_happy_prefix_extends(evs, h, 2);
            },
            StageView::Sizing(h) => {
                lemma_happy_prefix_extends(evs, h, 3);
            },
            StageView::CheckingSpace(h, n) => {
                lemma_happy_prefix_extends(evs, h, 4);
                assert(prev[3] == evs[3]);
            },
            StageView::Uploading(h) => {
                lemma_happy_prefix_extends(evs, h, 5);
            },
            StageView::Recording(h) => {
                lemma_happy_prefix_extends(evs, h, 6);
            },
            StageView::Finished => {},
        }
    }
}

/// Processing a file takes at most seven events, and it has ended exactly
/// when its last action is `Done`; after that no event is taken.
pub proof fn lemma_processing_ends(path: Seq<char>, base: Seq<char>, key: Seq<char>, evs: Seq<SyncEvent>)
    requires
        valid_run(path, base, key, evs),
    ensures
        evs.len() <= 7,
        (run(path, base, key, evs).1 is Done) == (run(path, base, key, evs).0.stage is Finished),
        run(path, base, key, evs).1 is Done ==> forall|e: SyncEvent| !accepts(
            #[trigger] run(path, base, key, evs).0.stage,
            e,
        ),
{
    lemma_stage_history(path, base, key, evs);
}

/// A file is uploaded only after it was hashed, its recorded hash was found to
/// differ, the server answered the probe, its size was read and the space
/// check passed; the upload goes to the server's asset endpoint with the saved
/// key, for this file, with its hash as checksum.
pub proof fn lemma_upload_only_after_checks(path: Seq<char>, base: Seq<char>, key: Seq<char>, evs: Seq<SyncEvent>)
    requires
        valid_run(path, base, key, evs),
        run(path, base, key, evs).1 is Upload,
    ensures
        run(path, base, key, evs).1 matches ActionView::Upload(url, k, p, h) && url
            == normalized_base(base) + assets_route() && k == key && p == path && evs.len() == 5
            && happy_prefix(evs, h, 5),
{
    lemma_stage_history(path, base, key, evs);
    let prev = evs.drop_last();
    lemma_stage_history(path, base, key, prev);
    lemma_happy_prefix_extends(evs, run(path, base, key, prev).0.stage->CheckingSpace_0, 4);
    assert(prev[3] == evs[3]);
}

/// A file counts as uploaded only when the upload was answered and the sync
/// was recorded, and the record holds the hash that was sent as the upload's
/// checksum, for the same file.
pub proof fn lemma_uploaded_only_when_recorded(path: Seq<char>, base: Seq<char>, key: Seq<char>, evs: Seq<SyncEvent>)
    requires
        valid_run(path, base, key, evs),
        run(path, base, key, evs).1 == ActionView::Done(Ok(UploadOutcome::Uploaded)),
    ensures
        evs.len() == 7,
        evs[6] matches SyncEvent::Recorded(Ok(())),
        exists|h: Seq<char>|
            happy_prefix(evs, h, 6) && run(path, base, key, evs.take(5)).1 == ActionView::Upload(
                normalized_base(base) + assets_route(),
                key,
                path,
                h,
            ) && ((#[trigger] run(path, base, key, evs.take(6)).1) matches ActionView::Record(
                rp,
                rh,
                _,
                _,
            ) && rp == path && rh == h),
{
    lemma_stage_history(path, base, key, evs);
    let p6 = evs.drop_last();
    lemma_stage_history(path, base, key, p6);
    let h = run(path, base, key, p6).0.stage->Recording_0;
    assert(p6 =~= evs.take(6));
    let p5 = p6.drop_last();
    assert(p5 =~= evs.take(5));
    assert(valid_run(path, base, key, p6));
    assert(valid_run(path, base, key, p5));
    lemma_stage_history(path, base, key, p5);
    let p4 = p5.drop_last();
    assert(valid_run(path, base, key, p4));
    lemma_stage_history(path, base, key, p4);
    lemma_happy_prefix_extends(evs, h, 6);
    assert(p4[3] == evs[3]);
    assert(evs.last() == evs[6]);
}

/// A file is skipped exactly when its recorded hash equals its current hash:
/// then nothing is sent to the server.
pub proof fn lemma_skipped_only_when_unchanged(path: Seq<char>, base: Seq<char>, key: Seq<char>, evs: Seq<SyncEvent>)
    requires
        valid_run(path, base, key, evs),
    ensures
        run(path, base, key, evs).1 == ActionView::Done(Ok(UploadOutcome::Skipped)) <==> (
        evs.len() == 2 && exists|h: Seq<char>| hashed_to(evs[0], h) && #[trigger] stored_matches(evs[1], h)),
{
    lemma_stage_history(path, base, key, evs);
    if evs.len() > 0 {
        let prev = evs.drop_last();
        lemma_stage_history(path, base, key, prev);
        assert(evs.last() == evs[evs.len() - 1]);
        if evs.len() == 2 {
            assert(prev[0] == evs[0]);
            let h = run(path, base, key, prev).0.stage->Comparing_0;
            if run(path, base, key, evs).1 == ActionView::Done(Ok(UploadOutcome::Skipped)) {
                assert(stored_matches(evs[1], h));
            }
            if exists|h2: Seq<char>| hashed_to(evs[0], h2) && #[trigger] stored_matches(evs[1], h2) {
                let h2 = choose|h2: Seq<char>|
                    hashed_to(evs[0], h2) && #[trigger] stored_matches(evs[1], h2);
                assert(h2 == h);
            }
        }
    }
}

/// Syncing is told to stop (the server is offline) only when the probe,
/// sent after a changed file was hashed, failed; the reason is the probe's.
pub proof fn lemma_offline_only_after_failed_probe(path: Seq<char>, base: Seq<char>, key: Seq<char>, evs: Seq<SyncEvent>, m: Seq<char>)
    requires
        valid_run(path, base, key, evs),
        run(path, base, key, evs).1 == ActionView::Done(Err(ProcessErrView::ServerOffline(m))),
    ensures
        evs.len() == 3,
        evs[2] matches SyncEvent::Pinged(r) && online_verdict(r) == Err::<(), Seq<char>>(m),
{
    lemma_stage_history(path, base, key, evs);
    let prev = evs.drop_last();
    lemma_stage_history(path, base, key, prev);
    assert(evs.last() == evs[evs.len() - 1]);
}

fn same_text(a: &String, b: &String) -> (r: bool)
    ensures
        r == (a@ == b@),
{
    *a == *b
}

impl FileSync {
    /// Starts processing the file at `path` for the server at `base_url` with
    /// `api_key`; the first action hashes the file. The file becomes the
    /// metrics' current file.
    pub fn start(path: String, base_url: String, api_key: String, metrics: &mut SyncMetrics) -> (r: (
        FileSync,
        SyncAction,
    ))
        ensures
            (r.0@, r.1@) == start_view(path@, base_url@, api_key@),
            final(metrics).current_file matches Some(p) && p@ == path@,
            final(metrics).last_error == old(metrics).last_error,
            final(metrics).last_upload_ms == old(metrics).last_upload_ms,
    {
        let p = path.clone();
        metrics.set_current_file(Some(path.clone()));
        (FileSync { path, base_url, api_key, stage: Stage::Hashing }, SyncAction::HashFile { path: p })
    }

    /// Whether the processing waits for this kind of event.
    pub fn accepts(&self, e: &SyncEvent) -> (r: bool)
        ensures
            r == accepts(self@.stage, *e),
    {
        match (&self.stage, e) {
            (Stage::Hashing, SyncEvent::Hashed(_)) => true,
            (Stage::Comparing(_), SyncEvent::StoredSha1(_)) => true,
            (Stage::Pinging(_), SyncEvent::Pinged(_)) => true,
            (Stage::Sizing(_), SyncEvent::FileSize(_)) => true,
            (Stage::CheckingSpace(_, _), SyncEvent::Storage(_)) => true,
            (Stage::Uploading(_), SyncEvent::Uploaded(_)) => true,
            (Stage::Recording(_), SyncEvent::Recorded(_)) => true,
            _ => false,
        }
    }

    /// Whether processing is over.
    pub fn is_finished(&self) -> (r: bool)
        ensures
            r == (self@.stage is Finished),
    {
        match self.stage {
            Stage::Finished => true,
            _ => false,
        }
    }

    fn finish(&mut self, r: Result<UploadOutcome, ProcessErr>) -> (a: SyncAction)
        ensures
            (final(self)@, a@) == finish(old(self)@, outcome_view(r)),
    {
        self.stage = Stage::Finished;
        SyncAction::Done(r)
    }

    /// Takes what came of the last action and returns the next one. When
    /// processing ends, the metrics no longer name a current file; before that
    /// they are left as they are.
    pub fn step(&mut self, e: SyncEvent, metrics: &mut SyncMetrics) -> (a: SyncAction)
        requires
            accepts(old(self)@.stage, e),
        ensures
            (final(self)@, a@) == next(old(self)@, e),
            a@ is Done ==> final(metrics).current_file is None,
            !(a@ is Done) ==> final(metrics).current_file == old(metrics).current_file,
            final(metrics).last_error == old(metrics).last_error,
            final(metrics).last_upload_ms == old(metrics).last_upload_ms,
    {
        let a = self.advance(e);
        if let SyncAction::Done(_) = &a {
            metrics.clear_current_file();
        }
        a
    }

    fn advance(&mut self, e: SyncEvent) -> (a: SyncAction)
        requires
            accepts(old(self)@.stage, e),
        ensures
            (final(self)@, a@) == next(old(self)@, e),
    {
        let mut stage = Stage::Finished;
        std::mem::swap(&mut stage, &mut self.stage);
        match stage {
            Stage::Hashing => match e {
                SyncEvent::Hashed(Ok(h)) => {
                    self.stage = Stage::Comparing(h);
                    SyncAction::ReadStoredSha1 { path: self.path.clone() }
                },
                SyncEvent::Hashed(Err(m)) => self.finish(Err(ProcessErr::Other(m))),
                _ => {
                    assert(false);
                    SyncAction::Done(Ok(UploadOutcome::Skipped))
                },
            },
            Stage::Comparing(h) => match e {
                SyncEvent::StoredSha1(o) => {
                    let same = match &o {
                        Some(x) => same_text(x, &h),
                        None => false,
                    };
                    if same {
                        self.finish(Ok(UploadOutcome::Skipped))
                    } else {
                        self.stage = Stage::Pinging(h);
                        SyncAction::Ping { url: ping_url(self.base_url.as_str()) }
                    }
                },
                _ => {
                    assert(false);
                    SyncAction::Done(Ok(UploadOutcome::Skipped))
                },
            },
            Stage::Pinging(h) => match e {
                SyncEvent::Pinged(r) => match check_server_online(r) {
                    Err(m) => self.finish(Err(ProcessErr::ServerOffline(m))),
                    Ok(()) => {
                        self.stage = Stage::Sizing(h);
                        SyncAction::ReadFileSize { path: self.path.clone() }
                    },
                },
                _ => {
                    assert(false);
                    SyncAction::Done(Ok(UploadOutcome::Skipped))
                },
            },
            Stage::Sizing(h) => match e {
                SyncEvent::FileSize(Ok(n)) => {
                    self.stage = Stage::CheckingSpace(h, n);
                    SyncAction::FetchStorage {
                        base_url: self.base_url.clone(),
                        api_key: self.api_key.clone(),
                    }
                },
                SyncEvent::FileSize(Err(m)) => self.finish(Err(ProcessErr::Other(m))),
                _ => {
                    assert(false);
                    SyncAction::Done(Ok(UploadOutcome::Skipped))
                },
            },
            Stage::CheckingSpace(h, n) => match e {
                SyncEvent::Storage(st) => match precheck_upload_space(st, n) {
                    Err(m) => self.finish(Err(ProcessErr::Other(m))),
                    Ok(()) => {
                        let checksum = h.clone();
                        self.stage = Stage::Uploading(h);
                        SyncAction::Upload {
                            url: assets_url(self.base_url.as_str()),
                            api_key: self.api_key.clone(),
                            path: self.path.clone(),
                            checksum,
                        }
                    },
                },
                _ => {
                    assert(false);
                    SyncAction::Done(Ok(UploadOutcome::Skipped))
                },
            },
            Stage::Uploading(h) => match e {
                SyncEvent::Uploaded(Ok(u)) => {
                    let sha1 = h.clone();
                    self.stage = Stage::Recording(h);
                    SyncAction::Record {
                        path: self.path.clone(),
                        sha1,
                        remote_id: u.id,
                        is_duplicate: u.duplicate,
                    }
                },
                SyncEvent::Uploaded(Err(m)) => self.finish(Err(ProcessErr::Other(m))),
                _ => {
                    assert(false);
                    SyncAction::Done(Ok(UploadOutcome::Skipped))
                },
            },
            Stage::Recording(h) => match e {
                SyncEvent::Recorded(Ok(())) => self.finish(Ok(UploadOutcome::Uploaded)),
                SyncEvent::Recorded(Err(m)) => self.finish(Err(ProcessErr::Other(m))),
                _ => {
                    assert(false);
                    SyncAction::Done(Ok(UploadOutcome::Skipped))
                },
            },
            Stage::Finished => {
                assert(false);
                SyncAction::Done(Ok(UploadOutcome::Skipped))
            },
        }
    }
}

} // verus!
