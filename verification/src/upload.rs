use vstd::prelude::*;
use crate::immich::{is_success, success_code, HttpStatus};

verus! {

/// The server's answer to an accepted upload.
pub struct UploadResponse {
    pub id: String,
    pub duplicate: bool,
}

/// At most this many causes follow an error's own message in an error chain.
pub open spec fn max_causes() -> int {
    6
}

/// `msgs[0]`, then ` → ` and each of `msgs[1..k]`.
pub open spec fn chain_prefix(msgs: Seq<Seq<char>>, k: int) -> Seq<char>
    decreases k,
{
    if k <= 0 || msgs.len() == 0 {
        Seq::empty()
    } else if k == 1 {
        msgs[0]
    } else {
        chain_prefix(msgs, k - 1) + " → "@ + msgs[k - 1]
    }
}

/// An error followed by its causes: the error's message, then up to
/// `max_causes()` causes, each after ` → `.
pub open spec fn chain_text(msgs: Seq<Seq<char>>) -> Seq<char> {
    chain_prefix(msgs, if msgs.len() > max_causes() + 1 { max_causes() + 1 } else { msgs.len() as int })
}

proof fn lemma_chain_prefix_push(ms: Seq<Seq<char>>, x: Seq<char>, k: int)
    requires
        0 <= k <= ms.len(),
    ensures
        chain_prefix(ms.push(x), k) == chain_prefix(ms, k),
    decreases k,
{
    if k > 1 {
        lemma_chain_prefix_push(ms, x, k - 1);
    }
}

/// How the error text grows with one more cause: the first message stands
/// alone, each of the next six causes is appended after ` → `, and causes past
/// the sixth are left out.
pub proof fn lemma_chain_extends(ms: Seq<Seq<char>>, x: Seq<char>)
    ensures
        ms.len() == 0 ==> chain_text(ms.push(x)) == x,
        1 <= ms.len() < 7 ==> chain_text(ms.push(x)) == chain_text(ms) + " → "@ + x,
        ms.len() >= 7 ==> chain_text(ms.push(x)) == chain_text(ms),
{
    if ms.len() == 0 {
        assert(ms.push(x)[0] == x);
    } else if ms.len() < 7 {
        lemma_chain_prefix_push(ms, x, ms.len() as int);
        assert(ms.push(x)[ms.len() as int] == x);
    } else {
        lemma_chain_prefix_push(ms, x, 7);
    }
}

/// Joins an error's message (`msgs[0]`) and the messages of its causes.
pub fn error_chain(msgs: &Vec<String>) -> (r: String)
    ensures
        r@ == chain_text(msgs@.map_values(|m: String| m@)),
{
    let ghost ms = msgs@.map_values(|m: String| m@);
    if msgs.len() == 0 {
        return String::new();
    }
    let limit: usize = if msgs.len() > 7 { 7 } else { msgs.len() };
    let mut r = msgs[0].clone();
    let mut k: usize = 1;
    while k < limit
        invariant
            1 <= k <= limit <= msgs.len(),
            limit <= 7,
            ms == msgs@.map_values(|m: String| m@),
            r@ == chain_prefix(ms, k as int),
        decreases limit - k,
    {
        r.append(" → ");
        r.append(msgs[k].as_str());
        k = k + 1;
    }
    r
}

pub open spec fn upload_io_message(path: Seq<char>, context: Seq<char>, chain: Seq<char>) -> Seq<char> {
    context + " ("@ + path + "): "@ + chain
        + ". If this repeats on large files, check Immich / reverse-proxy timeouts (e.g. nginx proxy_read_timeout, client_max_body_size) and your network."@
}

/// The error for an upload that failed in transfer, with a hint about proxy limits.
pub fn upload_io_err(path: &str, context: &str, chain: &Vec<String>) -> (r: String)
    ensures
        r@ == upload_io_message(path@, context@, chain_text(chain@.map_values(|m: String| m@))),
{
    let text = error_chain(chain);
    let mut r = String::from_str(context);
    r.append(" (");
    r.append(path);
    r.append("): ");
    r.append(text.as_str());
    r.append(
        ". If this repeats on large files, check Immich / reverse-proxy timeouts (e.g. nginx proxy_read_timeout, client_max_body_size) and your network.",
    );
    r
}

/// The file name sent with an upload: the file's own name, or `upload.bin`
/// when it has none that is valid text.
pub fn upload_file_name(name: Option<String>) -> (r: String)
    ensures
        match name {
            Some(n) => r@ == n@,
            None => r@ == "upload.bin"@,
        },
{
    match name {
        Some(n) => n,
        None => String::from_str("upload.bin"),
    }
}

/// What came of an upload request.
pub enum UploadReply {
    /// Sending failed: the error's message and those of its causes.
    SendFailed(Vec<String>),
    /// The answer's body could not be read: messages as above.
    ReadFailed(Vec<String>),
    /// A non-2xx status and the body text.
    Rejected { status: HttpStatus, body: String },
    /// A 2xx status, the body text and what parsing it gave (or the parser's message).
    Answered { body: String, parsed: Result<UploadResponse, String> },
}

/// The reply to an upload that was sent and answered with `status`, given the
/// body (its text and what parsing that text gave, or the messages of the
/// error that stopped reading it): an unreadable body fails the upload, a
/// non-2xx status rejects it with the text, a 2xx status answers with the parse.
pub fn upload_after_body(
    status: HttpStatus,
    body: Result<(String, Result<UploadResponse, String>), Vec<String>>,
) -> (r: UploadReply)
    ensures
        match body {
            Err(c) => r == UploadReply::ReadFailed(c),
            Ok((t, p)) => if success_code(status.code) {
                r == UploadReply::Answered { body: t, parsed: p }
            } else {
                r == UploadReply::Rejected { status, body: t }
            },
        },
{
    match body {
        Err(c) => UploadReply::ReadFailed(c),
        Ok((t, p)) => {
            if is_success(status.code) {
                UploadReply::Answered { body: t, parsed: p }
            } else {
                UploadReply::Rejected { status, body: t }
            }
        },
    }
}

pub open spec fn upload_failed_message(status: Seq<char>, body: Seq<char>) -> Seq<char> {
    "Upload failed ("@ + status + "): "@ + body
}

pub open spec fn bad_response_message(err: Seq<char>, body: Seq<char>) -> Seq<char> {
    "Bad response JSON: "@ + err + " — "@ + body
}

/// The texts of upload failures, in terms of their parts.
pub proof fn lemma_upload_messages(path: Seq<char>, context: Seq<char>, chain: Seq<char>, status: Seq<char>, body: Seq<char>, err: Seq<char>)
    ensures
        upload_io_message(path, context, chain) == context + " ("@ + path + "): "@ + chain
            + ". If this repeats on large files, check Immich / reverse-proxy timeouts (e.g. nginx proxy_read_timeout, client_max_body_size) and your network."@,
        upload_failed_message(status, body) == "Upload failed ("@ + status + "): "@ + body,
        bad_response_message(err, body) == "Bad response JSON: "@ + err + " — "@ + body,
{
}

/// Result of uploading the file at `path`.
pub fn upload_result(path: &str, reply: UploadReply) -> (r: Result<UploadResponse, String>)
    ensures
        match reply {
            UploadReply::SendFailed(c) => r matches Err(m) && m@ == upload_io_message(
                path@,
                "Upload request failed"@,
                chain_text(c@.map_values(|m: String| m@)),
            ),
            UploadReply::ReadFailed(c) => r matches Err(m) && m@ == upload_io_message(
                path@,
                "Reading upload response failed"@,
                chain_text(c@.map_values(|m: String| m@)),
            ),
            UploadReply::Rejected { status, body } => r matches Err(m) && m@
                == upload_failed_message(status.text@, body@),
            UploadReply::Answered { body, parsed } => match parsed {
                Ok(u) => r == Ok::<UploadResponse, String>(u),
                Err(e) => r matches Err(m) && m@ == bad_response_message(e@, body@),
            },
        },
{
    match reply {
        UploadReply::SendFailed(c) => Err(upload_io_err(path, "Upload request failed", &c)),
        UploadReply::ReadFailed(c) => Err(upload_io_err(path, "Reading upload response failed", &c)),
        UploadReply::Rejected { status, body } => {
            let mut m = String::from_str("Upload failed (");
            m.append(status.text.as_str());
            m.append("): ");
            m.append(body.as_str());
            Err(m)
        },
        UploadReply::Answered { body, parsed } => match parsed {
            Ok(u) => Ok(u),
            Err(e) => {
                let mut m = String::from_str("Bad response JSON: ");
                m.append(e.as_str());
                m.append(" — ");
                m.append(body.as_str());
                Err(m)
            },
        },
    }
}

} // verus!
