//! Server-side sessions kept in a key-value store with a time to live that every read of
//! a live session renews (a sliding expiry).
use vstd::prelude::*;

verus! {

/// How long a session lives without being read, in seconds.
pub const SESSION_TTL_SECONDS: u64 = 120;

/// A command to the session store.
#[derive(Debug, Clone)]
pub enum SessionCommand {
    /// Store `value` under `key` for `ttl_seconds` (`SET key value EX ttl`).
    SetEx { key: String, value: String, ttl_seconds: u64 },
    /// Read the value under `key` (`GET key`).
    Get { key: String },
    /// Give `key` `seconds` more to live (`EXPIRE key seconds`).
    Expire { key: String, seconds: i64 },
}

/// How sessions are kept.
#[derive(Debug, Clone, Copy)]
pub struct SessionPolicy {
    pub ttl_seconds: u64,
}

impl SessionPolicy {
    /// Sessions that live two minutes from their last read.
    pub fn new() -> (p: SessionPolicy)
        ensures
            p.ttl_seconds == SESSION_TTL_SECONDS,
    {
        SessionPolicy { ttl_seconds: SESSION_TTL_SECONDS }
    }

    /// Stores a session: `value` under `key`, for the session lifetime.
    pub fn put(&self, key: &str, value: String) -> (c: SessionCommand)
        ensures
            c matches SessionCommand::SetEx { key: k, value: v, ttl_seconds: t } && k@ == key@
                && v == value && t == self.ttl_seconds,
    {
        SessionCommand::SetEx { key: String::from_str(key), value, ttl_seconds: self.ttl_seconds }
    }

    /// Reads a session: first the value under `key`.
    pub fn get(&self, key: &str) -> (c: SessionCommand)
        ensures
            c matches SessionCommand::Get { key: k } && k@ == key@,
    {
        SessionCommand::Get { key: String::from_str(key) }
    }

    /// What follows the read of `key`: a live session (a value) has its lifetime renewed;
    /// for a missing one nothing more is sent. The read's answer is the value either way.
    pub fn after_get(&self, key: &str, value: &Option<String>) -> (c: Option<SessionCommand>)
        ensures
            c is Some <==> value is Some,
            c matches Some(cmd) ==> cmd matches SessionCommand::Expire { key: k, seconds: t }
                && k@ == key@ && t == self.ttl_seconds as i64,
    {
        match value {
            Some(_) => Some(
                SessionCommand::Expire {
                    key: String::from_str(key),
                    seconds: self.ttl_seconds as i64,
                },
            ),
            None => None,
        }
    }
}

} // verus!
