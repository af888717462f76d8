use vstd::prelude::*;

verus! {

/// The longest silence, in seconds, that still continues a session.
pub const MAX_GAP: i64 = 30;

/// Whether a signal opened a new session or continued one.
#[derive(Clone, Copy, Debug, PartialEq, Eq, Structural)]
pub enum SignalKind {
    SessionStart,
    Alive,
}

/// One recorded heartbeat. Identifiers are 128-bit UUID values; `at` is in
/// seconds since the Unix epoch, UTC; `duration` is the session's accumulated
/// liveness in seconds.
#[derive(Clone, Copy, Debug, PartialEq, Eq, Structural)]
pub struct Signal {
    pub signal_id: u128,
    pub user_id: u128,
    pub session_id: u128,
    pub kind: SignalKind,
    pub duration: u64,
    pub at: i64,
}

/// Why a heartbeat was not recorded. No error leaves a signal behind.
#[derive(Clone, Copy, Debug, PartialEq, Eq, Structural)]
pub enum EngineError {
    /// The user id is not a well-formed UUID.
    InvalidUserId,
    /// Reading the last signal or inserting the new one failed.
    StoreUnavailable,
    /// The heartbeat is older than the user's last recorded signal.
    ClockSkew,
    /// Other heartbeats of the same user kept winning the insert.
    WriteConflict,
}

} // verus!
