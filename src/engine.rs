use vstd::prelude::*;

use crate::ids::{fresh_id, is_random_uuid, now_seconds, parse_user_id, uuid_text_value};
use crate::signal::{EngineError, Signal, SignalKind, MAX_GAP};

verus! {

/// The two outcomes of the continuity rule.
#[derive(Clone, Copy, Debug, PartialEq, Eq, Structural)]
pub enum Continuity {
    NewSession,
    ContinueSession,
}

/// A heartbeat at `at` comes before the last recorded one.
pub open spec fn skewed(last: Option<Signal>, at: i64) -> bool {
    match last {
        Some(p) => at < p.at,
        None => false,
    }
}

/// A heartbeat at `at` opens a new session: the user has no signal yet, or
/// has been silent for longer than `MAX_GAP`.
pub open spec fn starts_session(last: Option<Signal>, at: i64) -> bool {
    match last {
        Some(p) => at - p.at > MAX_GAP,
        None => true,
    }
}

/// `d` seconds extended by `gap`, held at `u64::MAX` rather than wrapping.
pub open spec fn extended(d: u64, gap: int) -> u64 {
    if d + gap <= u64::MAX {
        (d + gap) as u64
    } else {
        u64::MAX
    }
}

/// The id that a new session takes when `fresh` was drawn for it: `fresh`
/// itself, unless it repeats the id of the session before, in which case its
/// lowest bit is flipped (a bit that a random UUID draws at random).
pub open spec fn new_session_id(last: Option<Signal>, fresh: u128) -> u128 {
    match last {
        Some(p) => if p.session_id == fresh { fresh ^ 1 } else { fresh },
        None => fresh,
    }
}

/// The signal that a heartbeat of `user_id` at `at` produces after `last`,
/// given the ids drawn for a new session and for the signal itself.
pub open spec fn decision(
    last: Option<Signal>,
    user_id: u128,
    at: i64,
    fresh_session: u128,
    fresh_signal: u128,
) -> Result<Signal, EngineError> {
    if skewed(last, at) {
        Err(EngineError::ClockSkew)
    } else if starts_session(last, at) {
        Ok(Signal {
            signal_id: fresh_signal,
            user_id,
            session_id: new_session_id(last, fresh_session),
            kind: SignalKind::SessionStart,
            duration: 0,
            at,
        })
    } else {
        let p = last->Some_0;
        Ok(Signal {
            signal_id: fresh_signal,
            user_id,
            session_id: p.session_id,
            kind: SignalKind::Alive,
            duration: extended(p.duration, at - p.at),
            at,
        })
    }
}

/// Applies the continuity rule to the last signal and the arrival time.
pub fn classify(last: &Option<Signal>, at: i64) -> (r: Result<Continuity, EngineError>)
    ensures
        skewed(*last, at) ==> r == Err::<Continuity, EngineError>(EngineError::ClockSkew),
        !skewed(*last, at) && starts_session(*last, at) ==> r == Ok::<Continuity, EngineError>(
            Continuity::NewSession,
        ),
        !skewed(*last, at) && !starts_session(*last, at) ==> r == Ok::<Continuity, EngineError>(
            Continuity::ContinueSession,
        ),
{
    match last {
        None => Ok(Continuity::NewSession),
        Some(p) => {
            if at < p.at {
                Err(EngineError::ClockSkew)
            } else if at as i128 - p.at as i128 > MAX_GAP as i128 {
                Ok(Continuity::NewSession)
            } else {
                Ok(Continuity::ContinueSession)
            }
        },
    }
}

/// Builds the signal for a heartbeat of `user_id` at `at`, following `last`.
pub fn decide(
    last: &Option<Signal>,
    user_id: u128,
    at: i64,
    fresh_session: u128,
    fresh_signal: u128,
) -> (r: Result<Signal, EngineError>)
    ensures
        r == decision(*last, user_id, at, fresh_session, fresh_signal),
{
    match classify(last, at) {
        Err(e) => Err(e),
        Ok(Continuity::NewSession) => {
            let session_id = match last {
                Some(p) => if p.session_id == fresh_session { fresh_session ^ 1 } else { fresh_session },
                None => fresh_session,
            };
            Ok(Signal {
                signal_id: fresh_signal,
                user_id,
                session_id,
                kind: SignalKind::SessionStart,
                duration: 0,
                at,
            })
        },
        Ok(Continuity::ContinueSession) => {
            let p = last.unwrap();
            let gap = (at as i128 - p.at as i128) as u64;
            Ok(Signal {
                signal_id: fresh_signal,
                user_id,
                session_id: p.session_id,
                kind: SignalKind::Alive,
                duration: p.duration.saturating_add(gap),
                at,
            })
        },
    }
}

/// `s` is a signal that a heartbeat at `s.at` may record after `last`: it is
/// not older, and it opens a new session (duration zero, an id unlike the
/// previous session's) or continues the previous one (same session id,
/// duration extended by the gap), as the continuity rule says.
pub open spec fn follows(last: Option<Signal>, s: Signal) -> bool {
    &&& !skewed(last, s.at)
    &&& if starts_session(last, s.at) {
        &&& s.kind == SignalKind::SessionStart
        &&& s.duration == 0
        &&& (last matches Some(p) ==> s.session_id != p.session_id)
    } else {
        let p = last->Some_0;
        &&& s.kind == SignalKind::Alive
        &&& s.session_id == p.session_id
        &&& s.duration == extended(p.duration, s.at - p.at)
    }
}

/// Whatever ids were drawn, a signal that `decision` produces follows `last`,
/// and a new session's id is a random UUID whenever the drawn one is.
pub proof fn lemma_decision_follows(
    last: Option<Signal>,
    user_id: u128,
    at: i64,
    fresh_session: u128,
    fresh_signal: u128,
)
    requires
        decision(last, user_id, at, fresh_session, fresh_signal) is Ok,
    ensures
        ({
            let s = decision(last, user_id, at, fresh_session, fresh_signal)->Ok_0;
            &&& follows(last, s)
            &&& s.user_id == user_id
            &&& s.at == at
            &&& s.signal_id == fresh_signal
            &&& (s.kind == SignalKind::SessionStart && is_random_uuid(fresh_session)
                ==> is_random_uuid(s.session_id))
        }),
{
    let f = fresh_session;
    assert(f ^ 1 != f) by (bit_vector);
    assert(f & 0xF000_C000_0000_0000_0000u128 == 0x4000_8000_0000_0000_0000u128 ==> (f ^ 1)
        & 0xF000_C000_0000_0000_0000u128 == 0x4000_8000_0000_0000_0000u128) by (bit_vector);
}

/// The most conditional inserts that one heartbeat attempts.
pub const MAX_ATTEMPTS: u32 = 3;

/// A heartbeat on its way into the store.
#[derive(Clone, Copy, Debug, PartialEq, Eq, Structural)]
pub struct Heartbeat {
    pub user_id: u128,
    /// When the heartbeat is processed, in seconds since the Unix epoch.
    pub at: i64,
    /// Conditional inserts of this heartbeat refused so far.
    pub conflicts: u32,
}

/// A conditional insert for the store: record `signal` only if the user's
/// newest stored signal is still `expected_last` (no signal at all, when
/// `None`). This is what serializes heartbeats of one user.
#[derive(Clone, Copy, Debug, PartialEq, Eq, Structural)]
pub struct Insertion {
    pub signal: Signal,
    pub expected_last: Option<Signal>,
}

/// What became of a conditional insert.
#[derive(Clone, Copy, Debug, PartialEq, Eq, Structural)]
pub enum InsertOutcome {
    Inserted,
    /// A newer signal of the user was found; nothing was written.
    Conflict,
    /// The store failed; nothing was written.
    Failed,
}

/// What the caller does after an insert.
#[derive(Clone, Copy, Debug, PartialEq, Eq)]
pub enum Next {
    /// Read the user's last signal again and decide anew.
    Retry,
    Done(Result<Signal, EngineError>),
}

impl Heartbeat {
    /// Accepts a heartbeat of the user written in `user_text`, arriving at `at`.
    pub fn begin(user_text: &str, at: i64) -> (r: Result<Heartbeat, EngineError>)
        ensures
            r == match uuid_text_value(user_text@) {
                Some(u) => Ok::<Heartbeat, EngineError>(Heartbeat { user_id: u, at, conflicts: 0 }),
                None => Err(EngineError::InvalidUserId),
            },
    {
        match parse_user_id(user_text) {
            Ok(user_id) => Ok(Heartbeat { user_id, at, conflicts: 0 }),
            Err(e) => Err(e),
        }
    }

    /// Accepts a heartbeat of the user written in `user_text`, arriving now.
    pub fn begin_now(user_text: &str) -> (r: Result<Heartbeat, EngineError>)
        ensures
            r is Err <==> uuid_text_value(user_text@) is None,
            r is Err ==> r == Err::<Heartbeat, EngineError>(EngineError::InvalidUserId),
            r is Ok ==> Some(r->Ok_0.user_id) == uuid_text_value(user_text@) && r->Ok_0.conflicts
                == 0,
    {
        let at = now_seconds();
        Heartbeat::begin(user_text, at)
    }

    /// Decides, from the user's last signal, what to insert: a signal that
    /// follows `last`, under fresh random ids, conditional on `last` still
    /// being the newest. A heartbeat older than `last` is refused.
    pub fn decide_with(&self, last: Option<Signal>) -> (r: Result<Insertion, EngineError>)
        ensures
            skewed(last, self.at) ==> r == Err::<Insertion, EngineError>(EngineError::ClockSkew),
            !skewed(last, self.at) ==> r is Ok,
            r matches Ok(ins) ==> {
                &&& ins.expected_last == last
                &&& follows(last, ins.signal)
                &&& ins.signal.user_id == self.user_id
                &&& ins.signal.at == self.at
                &&& is_random_uuid(ins.signal.signal_id)
                &&& (ins.signal.kind == SignalKind::SessionStart ==> is_random_uuid(
                    ins.signal.session_id,
                ))
            },
    {
        let fresh_session = fresh_id();
        let fresh_signal = fresh_id();
        let d = decide(&last, self.user_id, self.at, fresh_session, fresh_signal);
        match d {
            Ok(signal) => {
                proof {
                    lemma_decision_follows(last, self.user_id, self.at, fresh_session, fresh_signal);
                }
                Ok(Insertion { signal, expected_last: last })
            },
            Err(e) => Err(e),
        }
    }

    /// Settles an insert: the inserted signal is the heartbeat's result; a
    /// store failure ends it; a conflict asks for a retry until
    /// `MAX_ATTEMPTS` inserts have been refused.
    pub fn after_insert(&mut self, ins: &Insertion, outcome: InsertOutcome) -> (r: Next)
        ensures
            final(self).user_id == old(self).user_id,
            final(self).at == old(self).at,
            outcome == InsertOutcome::Inserted ==> r == Next::Done(Ok(ins.signal)) && *final(self)
                == *old(self),
            outcome == InsertOutcome::Failed ==> r == Next::Done(Err(EngineError::StoreUnavailable))
                && *final(self) == *old(self),
            outcome == InsertOutcome::Conflict ==> final(self).conflicts == if old(self).conflicts
                < MAX_ATTEMPTS {
                old(self).conflicts + 1
            } else {
                old(self).conflicts as int
            },
            outcome == InsertOutcome::Conflict ==> r == if final(self).conflicts < MAX_ATTEMPTS {
                Next::Retry
            } else {
                Next::Done(Err(EngineError::WriteConflict))
            },
    {
        match outcome {
            InsertOutcome::Inserted => Next::Done(Ok(ins.signal)),
            InsertOutcome::Failed => Next::Done(Err(EngineError::StoreUnavailable)),
            InsertOutcome::Conflict => {
                if self.conflicts < MAX_ATTEMPTS {
                    self.conflicts = self.conflicts + 1;
                }
                if self.conflicts < MAX_ATTEMPTS {
                    Next::Retry
                } else {
                    Next::Done(Err(EngineError::WriteConflict))
                }
            },
        }
    }
}

} // verus!
