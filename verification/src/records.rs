use vstd::prelude::*;

verus! {

/// Table of synced files: one row per local path, with the content's SHA-1,
/// the server's asset id, whether the server had the asset already, and when
/// the row was written.
pub const CREATE_SYNCED_FILES: &'static str = "CREATE TABLE IF NOT EXISTS synced_files (
    path TEXT PRIMARY KEY,
    sha1 TEXT NOT NULL,
    remote_id TEXT,
    is_duplicate INTEGER NOT NULL DEFAULT 0,
    updated_at TEXT NOT NULL
);";

/// The SHA-1 recorded for a path (`?1`).
pub const SELECT_SHA1: &'static str = "SELECT sha1 FROM synced_files WHERE path = ?1";

/// Records a path as synced (`?1` path, `?2` SHA-1, `?3` asset id, `?4`
/// duplicate flag, `?5` time), replacing an earlier record of the path.
pub const UPSERT_SYNCED_FILE: &'static str = "INSERT INTO synced_files (path, sha1, remote_id, is_duplicate, updated_at)
VALUES (?1, ?2, ?3, ?4, ?5)
ON CONFLICT(path) DO UPDATE SET
    sha1 = excluded.sha1,
    remote_id = excluded.remote_id,
    is_duplicate = excluded.is_duplicate,
    updated_at = excluded.updated_at";

/// All recorded paths.
pub const SELECT_PATHS: &'static str = "SELECT path FROM synced_files";

/// Stored integer of the duplicate flag.
pub fn duplicate_flag(is_duplicate: bool) -> (r: i64)
    ensures
        r == (if is_duplicate { 1i64 } else { 0i64 }),
{
    if is_duplicate {
        1
    } else {
        0
    }
}

} // verus!
