use vstd::prelude::*;
use crate::config::normalized_base;
use crate::immich::{
    server_returned, server_returned_message, body_or_empty, storage_route, storage_url, HttpStatus,
    is_success, success_code,
};
use crate::text::{decimal, decimal_string};

verus! {

/// Disk statistics of the Immich host. `P` is the type of the usage percentage,
/// which the library only carries.
pub struct ServerStorage<P> {
    pub disk_available: String,
    pub disk_available_raw: u64,
    pub disk_usage_percentage: P,
}

impl<P: Copy> ServerStorage<P> {
    /// A copy equal to `self`.
    pub fn duplicate(&self) -> (r: Self)
        ensures
            r == *self,
    {
        ServerStorage {
            disk_available: self.disk_available.clone(),
            disk_available_raw: self.disk_available_raw,
            disk_usage_percentage: self.disk_usage_percentage,
        }
    }
}

/// How long a storage answer is reused: 45 s, in nanoseconds.
pub open spec fn storage_ttl() -> u64 {
    45_000_000_000
}

/// Time from `at` to `now`; zero when `now` is earlier (a monotonic clock's
/// saturating difference).
pub open spec fn elapsed(at: u64, now: u64) -> u64 {
    if now >= at {
        (now - at) as u64
    } else {
        0
    }
}

/// One remembered answer: for which base URL, when it was asked, and what came
/// back (`None`: the key may not read storage).
pub struct CachedStorage<P> {
    pub base: String,
    pub at: u64,
    pub data: Option<ServerStorage<P>>,
}

/// The answer that a cache entry gives for `base` at `now`, if it gives one.
pub open spec fn cached_answer<P>(entry: Option<CachedStorage<P>>, base: Seq<char>, now: u64) -> Option<Option<ServerStorage<P>>> {
    match entry {
        Some(e) => if e.base@ == base && elapsed(e.at, now) < storage_ttl() {
            Some(e.data)
        } else {
            None
        },
        None => None,
    }
}

/// Cache of the last storage answer, reused for the same server for a short while.
pub struct StorageCache<P> {
    pub entry: Option<CachedStorage<P>>,
}

/// What to do for a storage request.
pub enum StorageStep<P> {
    /// A recent answer for the same server.
    Cached(Option<ServerStorage<P>>),
    /// Ask the server: `base` is the normalized base URL, `url` the request target.
    Fetch { base: String, url: String },
}

/// What came of asking the server for its storage.
pub enum StorageReply<P> {
    /// The request could not be sent or answered.
    SendFailed(String),
    /// 401 or 403: the key may not read server storage.
    Denied,
    /// Another non-2xx status, with the body text if it could be read.
    Refused { status: HttpStatus, body: Result<String, String> },
    /// A 2xx status whose body could not be read.
    BodyFailed(String),
    /// A 2xx status whose body did not parse: the parser's message and the text.
    BadJson { err: String, text: String },
    /// A 2xx status and the parsed statistics.
    Parsed(ServerStorage<P>),
}

/// 401 and 403 mean the key lacks the permission to read storage.
pub fn storage_denied(code: u16) -> (r: bool)
    ensures
        r == (code == 401 || code == 403),
{
    code == 401 || code == 403
}

/// Where a storage request stands once the status is known.
pub enum StorageProgress<P> {
    /// The reply is settled without reading the body.
    Done(StorageReply<P>),
    /// The body must be read (and parsed) for this status.
    ReadBody(HttpStatus),
}

/// Sorts what sending a storage request gave: a transport error fails it, 401
/// and 403 mean the key may not read storage, any other status needs the body.
pub fn storage_after_send<P>(sent: Result<HttpStatus, String>) -> (r: StorageProgress<P>)
    ensures
        match sent {
            Err(e) => r matches StorageProgress::Done(StorageReply::SendFailed(e2)) && e2@ == e@,
            Ok(st) => if st.code == 401 || st.code == 403 {
                r matches StorageProgress::Done(StorageReply::Denied)
            } else {
                r == StorageProgress::<P>::ReadBody(st)
            },
        },
{
    match sent {
        Err(e) => StorageProgress::Done(StorageReply::SendFailed(e)),
        Ok(st) => {
            if storage_denied(st.code) {
                StorageProgress::Done(StorageReply::Denied)
            } else {
                StorageProgress::ReadBody(st)
            }
        },
    }
}

/// The reply of a storage request whose status was not 401/403, given the body
/// (its text and what parsing that text gave, or why it could not be read): a
/// non-2xx status refuses with the body text, a 2xx status needs a readable body
/// that parses.
pub fn storage_after_body<P>(
    status: HttpStatus,
    body: Result<(String, Result<ServerStorage<P>, String>), String>,
) -> (r: StorageReply<P>)
    ensures
        !success_code(status.code) ==> (r matches StorageReply::Refused { status: s2, body: b2 }
            && s2 == status && match body {
            Ok((t, _)) => b2 matches Ok(t2) && t2@ == t@,
            Err(e) => b2 matches Err(e2) && e2@ == e@,
        }),
        success_code(status.code) ==> match body {
            Err(e) => r matches StorageReply::BodyFailed(e2) && e2@ == e@,
            Ok((t, Ok(st))) => r == StorageReply::Parsed(st),
            Ok((t, Err(e))) => r matches StorageReply::BadJson { err, text } && err@ == e@
                && text@ == t@,
        },
{
    if !is_success(status.code) {
        let b = match body {
            Ok((t, _)) => Ok(t),
            Err(e) => Err(e),
        };
        return StorageReply::Refused { status, body: b };
    }
    match body {
        Err(e) => StorageReply::BodyFailed(e),
        Ok((_, Ok(st))) => StorageReply::Parsed(st),
        Ok((t, Err(e))) => StorageReply::BadJson { err: e, text: t },
    }
}

pub open spec fn bad_storage_json_message(err: Seq<char>, text: Seq<char>) -> Seq<char> {
    "Bad storage JSON: "@ + err + " — "@ + text
}

/// What a storage request returns for a reply.
pub open spec fn storage_reply_result<P>(reply: StorageReply<P>) -> Result<Option<ServerStorage<P>>, Seq<char>> {
    match reply {
        StorageReply::SendFailed(e) => Err(e@),
        StorageReply::Denied => Ok(None),
        StorageReply::Refused { status, body } => Err(
            server_returned_message(status.text@, body_or_empty(body)),
        ),
        StorageReply::BodyFailed(e) => Err(e@),
        StorageReply::BadJson { err, text } => Err(bad_storage_json_message(err@, text@)),
        StorageReply::Parsed(s) => Ok(Some(s)),
    }
}

/// Whether a reply is remembered: denials and parsed statistics are, failures are not.
pub open spec fn reply_is_cached<P>(reply: StorageReply<P>) -> bool {
    reply is Denied || reply is Parsed
}

impl<P: Copy> StorageCache<P> {
    pub fn new() -> (c: Self)
        ensures
            c.entry is None,
    {
        StorageCache { entry: None }
    }

    /// First step of a storage request at time `now`: a fresh answer for the same
    /// normalized base URL is reused; otherwise the server is asked.
    pub fn begin(&self, base_url: &str, now: u64) -> (r: StorageStep<P>)
        ensures
            match cached_answer(self.entry, normalized_base(base_url@), now) {
                Some(d) => r matches StorageStep::Cached(d2) && d2 == d,
                None => r matches StorageStep::Fetch { base, url } && base@ == normalized_base(
                    base_url@,
                ) && url@ == normalized_base(base_url@) + storage_route(),
            },
    {
        let base = crate::config::normalize_base_url(base_url);
        match &self.entry {
            Some(e) => {
                let el: u64 = if now >= e.at {
                    now - e.at
                } else {
                    0
                };
                if e.base == base && el < 45_000_000_000u64 {
                    let d = match &e.data {
                        Some(s) => Some(s.duplicate()),
                        None => None,
                    };
                    return StorageStep::Cached(d);
                }
            },
            None => {},
        }
        StorageStep::Fetch { base, url: storage_url(base_url) }
    }

    /// Last step of a storage request asked at `at` for the normalized `base`:
    /// the result for `reply`. Denials and parsed statistics replace the cache
    /// entry; failures leave the cache as it was.
    pub fn settle(&mut self, base: String, at: u64, reply: StorageReply<P>) -> (r: Result<
        Option<ServerStorage<P>>,
        String,
    >)
        ensures
            match storage_reply_result(reply) {
                Ok(d) => r matches Ok(d2) && d2 == d,
                Err(m) => r matches Err(m2) && m2@ == m,
            },
            reply_is_cached(reply) ==> (final(self).entry matches Some(e) && e.base == base && e.at
                == at && Ok::<_, Seq<char>>(e.data) == storage_reply_result(reply)),
            !reply_is_cached(reply) ==> final(self).entry == old(self).entry,
    {
        match reply {
            StorageReply::SendFailed(e) => Err(e),
            StorageReply::Denied => {
                self.entry = Some(CachedStorage { base, at, data: None });
                Ok(None)
            },
            StorageReply::Refused { status, body } => Err(server_returned(&status, &body)),
            StorageReply::BodyFailed(e) => Err(e),
            StorageReply::BadJson { err, text } => {
                let mut m = String::from_str("Bad storage JSON: ");
                m.append(err.as_str());
                m.append(" — ");
                m.append(text.as_str());
                Err(m)
            },
            StorageReply::Parsed(s) => {
                let kept = s.duplicate();
                self.entry = Some(CachedStorage { base, at, data: Some(kept) });
                Ok(Some(s))
            },
        }
    }
}

/// An answer remembered at `at` for `base` is what the cache gives for the same
/// base while less than the reuse time has passed.
pub proof fn lemma_remembered_answer_is_reused<P>(
    base: String,
    at: u64,
    data: Option<ServerStorage<P>>,
    now: u64,
)
    requires
        at <= now,
        now - at < storage_ttl(),
    ensures
        cached_answer(Some(CachedStorage { base, at, data }), base@, now) == Some(data),
{
}

/// A remembered answer is given exactly for the same normalized base URL and
/// while less than 45 s have passed (a clock reading before it counts as no
/// time passed); then it is the remembered data.
pub proof fn lemma_cache_window<P>(entry: CachedStorage<P>, base: Seq<char>, now: u64)
    ensures
        cached_answer(Some(entry), base, now) is Some <==> (entry.base@ == base && (now <= entry.at
            || now - entry.at < 45_000_000_000)),
        cached_answer(Some(entry), base, now) is Some ==> cached_answer(Some(entry), base, now)
            == Some(entry.data),
{
}

/// The texts of storage failures: a refusal names the status and the body
/// (empty when unreadable); an unparsable body names the parser's message and
/// the text.
pub proof fn lemma_storage_messages(status: HttpStatus, body: Result<String, String>, err: Seq<char>, text: Seq<char>)
    ensures
        storage_reply_result(StorageReply::<u8>::Refused { status, body }) == Err::<
            Option<ServerStorage<u8>>,
            Seq<char>,
        >(
            "Server returned "@ + status.text@ + ": "@ + match body {
                Ok(b) => b@,
                Err(_) => Seq::<char>::empty(),
            },
        ),
        bad_storage_json_message(err, text) == "Bad storage JSON: "@ + err + " — "@ + text,
{
}

/// What a storage reply gives: a 401/403 denial is "no figures" and is kept;
/// parsed figures are returned and kept; every failure is an error and is not
/// kept.
pub proof fn lemma_storage_reply_results<P>(reply: StorageReply<P>)
    ensures
        reply is Denied ==> storage_reply_result(reply) == Ok::<Option<ServerStorage<P>>, Seq<char>>(None)
            && reply_is_cached(reply),
        reply matches StorageReply::Parsed(s) ==> storage_reply_result(reply) == Ok::<
            Option<ServerStorage<P>>,
            Seq<char>,
        >(Some(s)) && reply_is_cached(reply),
        !(reply is Denied || reply is Parsed) ==> storage_reply_result(reply) is Err
            && !reply_is_cached(reply),
{
}

/// A remembered answer is never given for another server, nor once the reuse
/// time has passed.
pub proof fn lemma_no_answer_for_other_server_or_stale<P>(
    entry: CachedStorage<P>,
    base: Seq<char>,
    now: u64,
)
    requires
        entry.base@ != base || elapsed(entry.at, now) >= storage_ttl(),
    ensures
        cached_answer(Some(entry), base, now) is None,
{
}

/// Storage figures that the upload check needs: the usage percentage rounded
/// down to a whole number, the same percentage as shown to the user (one
/// decimal), and the free bytes (0 when the server did not say).
pub struct SpaceFigures {
    pub usage_whole_percent: u64,
    pub usage_shown: String,
    pub disk_available_raw: u64,
}

/// Free space asked for an upload: twice its size, saturating at `u64::MAX`.
pub open spec fn needed_space(file_size: u64) -> u64 {
    if file_size * 2 > u64::MAX {
        u64::MAX
    } else {
        (file_size * 2) as u64
    }
}

/// The disk counts as nearly full from 99 % use.
pub open spec fn nearly_full(s: SpaceFigures) -> bool {
    s.usage_whole_percent >= 99
}

/// Free space is known (non-zero) and below what the upload needs.
pub open spec fn short_of_space(s: SpaceFigures, file_size: u64) -> bool {
    s.disk_available_raw > 0 && s.disk_available_raw < needed_space(file_size)
}

pub open spec fn nearly_full_message(shown: Seq<char>) -> Seq<char> {
    "Immich server disk is nearly full ("@ + shown
        + "% used). Free space on the server before uploading."@
}

pub open spec fn low_space_message(free: u64, need: u64) -> Seq<char> {
    "Immich server is low on free space ("@ + decimal(free as nat)
        + " bytes free; this upload needs on the order of "@ + decimal(need as nat)
        + " bytes on the server)."@
}

/// Verdict of the space check for an upload of `file_size` bytes.
pub open spec fn space_verdict(storage: Result<Option<SpaceFigures>, String>, file_size: u64) -> Result<(), Seq<char>> {
    match storage {
        Ok(Some(s)) => if nearly_full(s) {
            Err(nearly_full_message(s.usage_shown@))
        } else if short_of_space(s, file_size) {
            Err(low_space_message(s.disk_available_raw, needed_space(file_size)))
        } else {
            Ok(())
        },
        _ => Ok(()),
    }
}

/// Checks, before an upload of `file_size` bytes, that the Immich host is not
/// clearly too full. Best effort: without figures (the request failed, or the
/// key may not read storage) the upload goes ahead.
pub fn precheck_upload_space(storage: Result<Option<SpaceFigures>, String>, file_size: u64) -> (r:
    Result<(), String>)
    ensures
        crate::immich::unit_result_view(r) == space_verdict(storage, file_size),
{
    match storage {
        Ok(Some(s)) => {
            if s.usage_whole_percent >= 99 {
                let mut m = String::from_str("Immich server disk is nearly full (");
                m.append(s.usage_shown.as_str());
                m.append("% used). Free space on the server before uploading.");
                return Err(m);
            }
            let need: u64 = if file_size > u64::MAX / 2 {
                u64::MAX
            } else {
                file_size * 2
            };
            if s.disk_available_raw > 0 && s.disk_available_raw < need {
                let mut m = String::from_str("Immich server is low on free space (");
                let free = decimal_string(s.disk_available_raw);
                m.append(free.as_str());
                m.append(" bytes free; this upload needs on the order of ");
                let needs = decimal_string(need);
                m.append(needs.as_str());
                m.append(" bytes on the server).");
                return Err(m);
            }
            Ok(())
        },
        _ => Ok(()),
    }
}

/// The space check's thresholds: from 99 % use the disk counts as nearly full;
/// below that, unknown free space (0) never refuses, and known free space
/// refuses exactly when it is below twice the file size (capped at `u64::MAX`).
pub proof fn lemma_space_thresholds(s: SpaceFigures, size: u64)
    ensures
        s.usage_whole_percent >= 99 ==> space_verdict(Ok(Some(s)), size) == Err::<(), Seq<char>>(
            "Immich server disk is nearly full ("@ + s.usage_shown@
                + "% used). Free space on the server before uploading."@,
        ),
        s.usage_whole_percent < 99 && s.disk_available_raw == 0 ==> space_verdict(
            Ok(Some(s)),
            size,
        ) is Ok,
        s.usage_whole_percent < 99 && s.disk_available_raw > 0 ==> (space_verdict(
            Ok(Some(s)),
            size,
        ) is Err <==> s.disk_available_raw < (if 2 * size > u64::MAX {
            u64::MAX as int
        } else {
            2 * size
        })),
        s.usage_whole_percent < 99 && s.disk_available_raw > 0 && 2 * size <= u64::MAX
            && s.disk_available_raw < 2 * size ==> space_verdict(Ok(Some(s)), size) == Err::<
            (),
            Seq<char>,
        >(
            "Immich server is low on free space ("@ + decimal(s.disk_available_raw as nat)
                + " bytes free; this upload needs on the order of "@ + decimal((2 * size) as nat)
                + " bytes on the server)."@,
        ),
{
}

/// Whatever the server's figures, if an upload passes the space check then
/// every smaller upload passes it too.
pub proof fn lemma_space_check_monotone(
    storage: Result<Option<SpaceFigures>, String>,
    small: u64,
    large: u64,
)
    requires
        small <= large,
        space_verdict(storage, large) is Ok,
    ensures
        space_verdict(storage, small) is Ok,
{
}

/// The space check never refuses an upload when it has no figures.
pub proof fn lemma_space_check_best_effort(storage: Result<Option<SpaceFigures>, String>, file_size: u64)
    requires
        !(storage is Ok && storage->Ok_0 is Some),
    ensures
        space_verdict(storage, file_size) is Ok,
{
}

/// Storage details for the settings page. `P` is the usage percentage's type.
pub struct StorageInfoDto<P> {
    pub server_disk_available_raw: Option<u64>,
    pub server_disk_usage_percentage: Option<P>,
    pub server_disk_available_human: Option<String>,
    /// The API key may not read server storage (401/403).
    pub server_storage_forbidden: bool,
    pub server_error: Option<String>,
}

/// Storage details from the result of a storage request; `None` when no API key
/// is saved, so that nothing was asked.
pub fn storage_info<P>(fetched: Option<Result<Option<ServerStorage<P>>, String>>) -> (r:
    StorageInfoDto<P>)
    ensures
        match fetched {
            None => r.server_disk_available_raw is None && r.server_disk_usage_percentage is None
                && r.server_disk_available_human is None && !r.server_storage_forbidden
                && r.server_error is None,
            Some(Ok(None)) => r.server_disk_available_raw is None
                && r.server_disk_usage_percentage is None && r.server_disk_available_human is None
                && r.server_storage_forbidden && r.server_error is None,
            Some(Ok(Some(s))) => r.server_disk_available_raw == Some(s.disk_available_raw)
                && r.server_disk_usage_percentage == Some(s.disk_usage_percentage) && (if s.disk_available@.len() == 0 {
                r.server_disk_available_human is None
            } else {
                r.server_disk_available_human matches Some(h) && h@ == s.disk_available@
            }) && !r.server_storage_forbidden && r.server_error is None,
            Some(Err(e)) => r.server_disk_available_raw is None
                && r.server_disk_usage_percentage is None && r.server_disk_available_human is None
                && !r.server_storage_forbidden && (r.server_error matches Some(m) && m@ == e@),
        },
{
    match fetched {
        None => StorageInfoDto {
            server_disk_available_raw: None,
            server_disk_usage_percentage: None,
            server_disk_available_human: None,
            server_storage_forbidden: false,
            server_error: None,
        },
        Some(Ok(None)) => StorageInfoDto {
            server_disk_available_raw: None,
            server_disk_usage_percentage: None,
            server_disk_available_human: None,
            server_storage_forbidden: true,
            server_error: None,
        },
        Some(Ok(Some(s))) => {
            let human = if s.disk_available.as_str().unicode_len() == 0 {
                None
            } else {
                Some(s.disk_available)
            };
            StorageInfoDto {
                server_disk_available_raw: Some(s.disk_available_raw),
                server_disk_usage_percentage: Some(s.disk_usage_percentage),
                server_disk_available_human: human,
                server_storage_forbidden: false,
                server_error: None,
            }
        },
        Some(Err(e)) => StorageInfoDto {
            server_disk_available_raw: None,
            server_disk_usage_percentage: None,
            server_disk_available_human: None,
            server_storage_forbidden: false,
            server_error: Some(e),
        },
    }
}

} // verus!
