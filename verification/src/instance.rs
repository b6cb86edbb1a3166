//! Single-writer coordination: who holds the lighting writer lock, as
//! recorded in the lock file. Taking and probing the lock is the
//! application's part.

use vstd::prelude::*;

use crate::text::{parse_unsigned, parse_unsigned_spec, trim, trimmed};

verus! {

/// The running instance that owns the lock.
#[derive(Debug, Clone, Copy, PartialEq, Eq, Structural)]
pub struct LockOwner {
    pub pid: u32,
}

/// Name of the lock file inside the lock directory.
pub const LOCK_FILENAME: &'static str = "writer.lock";

/// The owner a lock file records: its trimmed content as a decimal PID.
pub open spec fn recorded_owner(content: Seq<char>) -> Option<LockOwner> {
    match parse_unsigned_spec(trim(content), 10, u32::MAX as nat) {
        Some(v) => Some(LockOwner { pid: v as u32 }),
        None => None,
    }
}

/// Read the PID recorded in a lock file.
pub fn parse_lock_owner(content: &str) -> (r: Option<LockOwner>)
    ensures
        r == recorded_owner(content@),
{
    let t = trimmed(content);
    match parse_unsigned(t.as_str(), 10, 0xFFFF_FFFF) {
        Some(v) => Some(LockOwner { pid: v as u32 }),
        None => None,
    }
}

} // verus!
