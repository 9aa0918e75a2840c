use vstd::prelude::*;
use crate::config::{endpoint_url, normalized_base};
use crate::text::{decimal, decimal_string};

verus! {

/// An HTTP status as the server answered it: the numeric code and its display
/// text (such as `404 Not Found`).
pub struct HttpStatus {
    pub code: u16,
    pub text: String,
}

/// Codes in the 2xx range mean success.
pub open spec fn success_code(code: u16) -> bool {
    200 <= code <= 299
}

pub fn is_success(code: u16) -> (r: bool)
    ensures
        r == success_code(code),
{
    200 <= code && code <= 299
}

pub open spec fn ping_route() -> Seq<char> {
    "/api/server/ping"@
}

pub open spec fn storage_route() -> Seq<char> {
    "/api/server/storage"@
}

pub open spec fn version_route() -> Seq<char> {
    "/api/server/version"@
}

pub open spec fn assets_route() -> Seq<char> {
    "/api/assets"@
}

/// `GET` target of the unauthenticated reachability probe.
pub fn ping_url(base_url: &str) -> (r: String)
    ensures
        r@ == normalized_base(base_url@) + ping_route(),
{
    endpoint_url(base_url, "/api/server/ping")
}

/// `GET` target of the server disk statistics.
pub fn storage_url(base_url: &str) -> (r: String)
    ensures
        r@ == normalized_base(base_url@) + storage_route(),
{
    endpoint_url(base_url, "/api/server/storage")
}

/// `GET` target of the server version.
pub fn version_url(base_url: &str) -> (r: String)
    ensures
        r@ == normalized_base(base_url@) + version_route(),
{
    endpoint_url(base_url, "/api/server/version")
}

/// `POST` target of asset uploads.
pub fn assets_url(base_url: &str) -> (r: String)
    ensures
        r@ == normalized_base(base_url@) + assets_route(),
{
    endpoint_url(base_url, "/api/assets")
}

pub open spec fn unreachable_message(err: Seq<char>) -> Seq<char> {
    "Immich server unreachable: "@ + err
}

pub open spec fn not_ready_message(status: Seq<char>) -> Seq<char> {
    "Immich server returned HTTP "@ + status + " (not ready)"@
}

/// A unit result with its error taken by view.
pub open spec fn unit_result_view(r: Result<(), String>) -> Result<(), Seq<char>> {
    match r {
        Ok(()) => Ok(()),
        Err(m) => Err(m@),
    }
}

/// What came of the reachability probe.
pub enum PingReply {
    /// No HTTP client could be set up; its error.
    ClientFailed(String),
    /// The request could not be sent or answered; the transport error.
    Unreachable(String),
    /// The server answered with this status.
    Answered(HttpStatus),
}

/// Verdict on the reachability probe: `Ok` exactly when an answer came with a
/// 2xx status.
pub open spec fn online_verdict(reply: PingReply) -> Result<(), Seq<char>> {
    match reply {
        PingReply::ClientFailed(e) => Err(e@),
        PingReply::Unreachable(e) => Err(unreachable_message(e@)),
        PingReply::Answered(s) => if success_code(s.code) {
            Ok(())
        } else {
            Err(not_ready_message(s.text@))
        },
    }
}

/// The probe verdict in terms of the reply: an answered probe is fine exactly
/// for the codes 200 to 299, and every other answer is refused with its status
/// text; a transport failure names the failure.
pub proof fn lemma_online_verdict(r: PingReply)
    ensures
        r matches PingReply::Answered(st) ==> (online_verdict(r) is Ok <==> 200 <= st.code <= 299),
        r matches PingReply::Answered(st) ==> (!(200 <= st.code <= 299) ==> online_verdict(r) == Err::<
            (),
            Seq<char>,
        >("Immich server returned HTTP "@ + st.text@ + " (not ready)"@)),
        r matches PingReply::Unreachable(e) ==> online_verdict(r) == Err::<(), Seq<char>>(
            "Immich server unreachable: "@ + e@,
        ),
        r matches PingReply::ClientFailed(e) ==> online_verdict(r) == Err::<(), Seq<char>>(e@),
{
}

/// Decides whether the Immich server is online from the answer to
/// `GET /api/server/ping` (see `ping_url`).
pub fn check_server_online(reply: PingReply) -> (r: Result<(), String>)
    ensures
        unit_result_view(r) == online_verdict(reply),
{
    match reply {
        PingReply::ClientFailed(e) => Err(e),
        PingReply::Unreachable(e) => {
            let mut m = String::from_str("Immich server unreachable: ");
            m.append(e.as_str());
            Err(m)
        },
        PingReply::Answered(s) => {
            if is_success(s.code) {
                Ok(())
            } else {
                let mut m = String::from_str("Immich server returned HTTP ");
                m.append(s.text.as_str());
                m.append(" (not ready)");
                Err(m)
            }
        },
    }
}

/// The body text when it could be read, else the empty text.
pub open spec fn body_or_empty(body: Result<String, String>) -> Seq<char> {
    match body {
        Ok(b) => b@,
        Err(_) => Seq::empty(),
    }
}

pub open spec fn server_returned_message(status: Seq<char>, body: Seq<char>) -> Seq<char> {
    "Server returned "@ + status + ": "@ + body
}

/// The error for a request that the server refused with a non-2xx status.
pub fn server_returned(status: &HttpStatus, body: &Result<String, String>) -> (r: String)
    ensures
        r@ == server_returned_message(status.text@, body_or_empty(*body)),
{
    let mut m = String::from_str("Server returned ");
    m.append(status.text.as_str());
    m.append(": ");
    match body {
        Ok(b) => {
            m.append(b.as_str());
        },
        Err(_) => {},
    }
    m
}

/// The fields of the server's version answer that name the version.
pub struct VersionFields {
    pub version: Option<String>,
    pub major: Option<u64>,
    pub minor: Option<u64>,
    pub patch: Option<u64>,
}

/// The version that the fields name: the `version` text when present, else
/// `major.minor.patch` when all three are present, else `unknown`.
pub open spec fn version_text(f: VersionFields) -> Seq<char> {
    match f.version {
        Some(v) => v@,
        None => match (f.major, f.minor, f.patch) {
            (Some(a), Some(b), Some(c)) => decimal(a as nat) + "."@ + decimal(b as nat) + "."@
                + decimal(c as nat),
            _ => "unknown"@,
        },
    }
}

/// The reported version in terms of the fields: the `version` text when
/// present; otherwise `major.minor.patch` in decimal whenever all three are
/// present (zeros included); `unknown` exactly when one of them is missing.
pub proof fn lemma_version_text(f: VersionFields)
    ensures
        f.version matches Some(v) ==> version_text(f) == v@,
        f.version is None && f.major is Some && f.minor is Some && f.patch is Some ==> version_text(
            f,
        ) == decimal(f.major->0 as nat) + "."@ + decimal(f.minor->0 as nat) + "."@ + decimal(
            f.patch->0 as nat,
        ),
        f.version is None && !(f.major is Some && f.minor is Some && f.patch is Some)
            ==> version_text(f) == "unknown"@,
{
}

pub fn version_from_fields(f: VersionFields) -> (r: String)
    ensures
        r@ == version_text(f),
{
    match f.version {
        Some(v) => v,
        None => match (f.major, f.minor, f.patch) {
            (Some(a), Some(b), Some(c)) => {
                let mut r = decimal_string(a);
                r.append(".");
                let sb = decimal_string(b);
                r.append(sb.as_str());
                r.append(".");
                let sc = decimal_string(c);
                r.append(sc.as_str());
                r
            },
            _ => String::from_str("unknown"),
        },
    }
}

/// What came of the authenticated version request.
pub enum VersionReply {
    /// The request could not be sent or answered.
    SendFailed(String),
    /// A non-2xx status, with the body text if it could be read.
    Refused { status: HttpStatus, body: Result<String, String> },
    /// A 2xx status whose body was not JSON; the parser's message.
    BadBody(String),
    /// A 2xx status and the JSON body's version fields.
    Fields(VersionFields),
}

/// Where the version request stands once sending it gave a result.
pub enum VersionProgress {
    /// The reply is settled.
    Done(VersionReply),
    /// A non-2xx status: its body text goes into the error.
    ReadErrorBody(HttpStatus),
    /// A 2xx status: the body is parsed as JSON for the version fields.
    ReadJson,
}

/// Sorts what sending the version request gave: a transport error fails it, a
/// 2xx status leads to the JSON body, any other status to an error with the
/// body text.
pub fn version_after_send(sent: Result<HttpStatus, String>) -> (r: VersionProgress)
    ensures
        match sent {
            Err(e) => r matches VersionProgress::Done(VersionReply::SendFailed(e2)) && e2@ == e@,
            Ok(st) => if success_code(st.code) {
                r is ReadJson
            } else {
                r == VersionProgress::ReadErrorBody(st)
            },
        },
{
    match sent {
        Err(e) => VersionProgress::Done(VersionReply::SendFailed(e)),
        Ok(st) => {
            if is_success(st.code) {
                VersionProgress::ReadJson
            } else {
                VersionProgress::ReadErrorBody(st)
            }
        },
    }
}

/// Result of the connection test: the server version, or why it failed.
pub fn verify_connection(reply: VersionReply) -> (r: Result<String, String>)
    ensures
        match reply {
            VersionReply::SendFailed(e) => r matches Err(m) && m@ == e@,
            VersionReply::Refused { status, body } => r matches Err(m) && m@
                == server_returned_message(status.text@, body_or_empty(body)),
            VersionReply::BadBody(e) => r matches Err(m) && m@ == e@,
            VersionReply::Fields(f) => r matches Ok(v) && v@ == version_text(f),
        },
{
    match reply {
        VersionReply::SendFailed(e) => Err(e),
        VersionReply::Refused { status, body } => Err(server_returned(&status, &body)),
        VersionReply::BadBody(e) => Err(e),
        VersionReply::Fields(f) => Ok(version_from_fields(f)),
    }
}

} // verus!
