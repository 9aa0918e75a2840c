use vstd::prelude::*;
use crate::text::{is_white, lemma_trimmed_shape, trim, trimmed};

verus! {

/// The key that the stored key file holds, given the file's text: the trimmed
/// text, or nothing when that is empty.
pub open spec fn key_in_text(raw: Seq<char>) -> Option<Seq<char>> {
    if trimmed(raw).len() == 0 {
        None
    } else {
        Some(trimmed(raw))
    }
}

pub open spec fn opt_view(o: Option<String>) -> Option<Seq<char>> {
    match o {
        Some(s) => Some(s@),
        None => None,
    }
}

/// A key file holds no key exactly when its text is all white space; otherwise
/// the key is the text without surrounding white space.
pub proof fn lemma_key_in_text(raw: Seq<char>)
    ensures
        key_in_text(raw) is None <==> (forall|i: int| 0 <= i < raw.len() ==> is_white(#[trigger] raw[i])),
        key_in_text(raw) matches Some(k) ==> k == trimmed(raw) && k.len() > 0,
{
    lemma_trimmed_shape(raw);
    let (i, j) = choose|i: int, j: int|
        0 <= i <= j <= raw.len() && trimmed(raw) == raw.subrange(i, j) && (forall|k: int|
            0 <= k < i ==> is_white(#[trigger] raw[k])) && (forall|k: int|
            j <= k < raw.len() ==> is_white(#[trigger] raw[k])) && (i < j ==> !is_white(raw[i])
            && !is_white(raw[j - 1]));
    if trimmed(raw).len() == 0 {
        assert forall|k: int| 0 <= k < raw.len() implies is_white(#[trigger] raw[k]) by {
            if k >= i {
                assert(k >= j);
            }
        }
    } else {
        assert(!is_white(raw[i]));
    }
}

/// The message when a connection test has neither a typed nor a saved key.
pub proof fn lemma_no_key_message()
    ensures
        no_key_message() == "No API key configured. Paste a key or save settings first."@,
{
}

/// Reads the API key out of the key file's text.
pub fn key_from_file_text(raw: &str) -> (r: Option<String>)
    ensures
        opt_view(r) == key_in_text(raw@),
{
    let t = trim(raw);
    if t.as_str().unicode_len() == 0 {
        None
    } else {
        Some(t)
    }
}

/// What the platform credential store answered for the API key entry.
pub enum KeyringRead {
    /// The entry could not even be opened.
    Unavailable,
    /// The stored password.
    Password(String),
    /// No password is stored.
    NoEntry,
    /// The store failed to answer.
    Failed,
}

/// Where the lookup of the API key stands after the key file was read.
pub enum KeyLookup {
    /// The answer is known; the credential store is not asked.
    Decided(Result<Option<String>, String>),
    /// The file held no key: the credential store decides.
    AskKeyring,
}

/// The key lookup's answer after the key file was read, when that settles it
/// (`None`: the credential store decides).
pub open spec fn key_after_file(file: Result<Option<String>, String>) -> Option<Result<Option<Seq<char>>, Seq<char>>> {
    match file {
        Ok(Some(k)) => Some(Ok(Some(k@))),
        Ok(None) => None,
        Err(e) => Some(Err(e@)),
    }
}

/// The key the credential store's answer gives: its password, if it gave one.
pub open spec fn key_from_store(read: KeyringRead) -> Option<Seq<char>> {
    match read {
        KeyringRead::Password(p) => Some(p@),
        _ => None,
    }
}

/// The saved API key, given what the key file and the credential store hold.
pub open spec fn saved_key(file: Result<Option<String>, String>, read: KeyringRead) -> Result<Option<Seq<char>>, Seq<char>> {
    match key_after_file(file) {
        Some(r) => r,
        None => Ok(key_from_store(read)),
    }
}

pub open spec fn lookup_view(r: Result<Option<String>, String>) -> Result<Option<Seq<char>>, Seq<char>> {
    match r {
        Ok(o) => Ok(opt_view(o)),
        Err(e) => Err(e@),
    }
}

/// First step of finding the saved API key: the key file is preferred, since
/// it is written on every save. A failure to read it is reported as such.
pub fn api_key_from_file(file: Result<Option<String>, String>) -> (r: KeyLookup)
    ensures
        match key_after_file(file) {
            Some(d) => r matches KeyLookup::Decided(d2) && lookup_view(d2) == d,
            None => r is AskKeyring,
        },
{
    match file {
        Ok(Some(k)) => KeyLookup::Decided(Ok(Some(k))),
        Ok(None) => KeyLookup::AskKeyring,
        Err(e) => KeyLookup::Decided(Err(e)),
    }
}

/// Second step: the credential store's password, if it gave one. Every failure
/// of the store counts as "no key".
pub fn api_key_from_keyring(read: KeyringRead) -> (r: Option<String>)
    ensures
        opt_view(r) == key_from_store(read),
{
    match read {
        KeyringRead::Password(p) => Some(p),
        _ => None,
    }
}

/// A key in the key file is the saved key, whatever the credential store holds.
pub proof fn lemma_key_file_wins(k: String, read: KeyringRead)
    ensures
        saved_key(Ok(Some(k)), read) == Ok::<_, Seq<char>>(Some(k@)),
{
}

/// Without a key file entry the credential store's password is the saved key,
/// and a failing store means no key rather than an error.
pub proof fn lemma_store_failures_mean_no_key(read: KeyringRead)
    ensures
        saved_key(Ok(None), read) == Ok::<_, Seq<char>>(key_from_store(read)),
        !(read is Password) ==> saved_key(Ok(None), read) == Ok::<_, Seq<char>>(None::<Seq<char>>),
{
}

/// Whether a key lookup found a key (a failed lookup counts as none).
pub fn has_api_key(lookup: &Result<Option<String>, String>) -> (r: bool)
    ensures
        r == (lookup matches Ok(Some(_))),
{
    match lookup {
        Ok(Some(_)) => true,
        _ => false,
    }
}

/// The key typed into the form, trimmed, when it is not blank.
pub fn key_from_input(input: &Option<String>) -> (r: Option<String>)
    ensures
        match input {
            Some(k) => opt_view(r) == key_in_text(k@),
            None => r is None,
        },
{
    match input {
        Some(k) => key_from_file_text(k.as_str()),
        None => None,
    }
}

/// The message when a connection test has no key to use.
pub open spec fn no_key_message() -> Seq<char> {
    "No API key configured. Paste a key or save settings first."@
}

/// The saved key for a connection test, or the error that none is configured.
pub fn saved_key_or_error(saved: Result<Option<String>, String>) -> (r: Result<String, String>)
    ensures
        match saved {
            Ok(Some(k)) => r matches Ok(k2) && k2@ == k@,
            _ => r matches Err(e) && e@ == no_key_message(),
        },
{
    match saved {
        Ok(Some(k)) => Ok(k),
        _ => Err(String::from_str("No API key configured. Paste a key or save settings first.")),
    }
}

} // verus!
