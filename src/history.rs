use vstd::prelude::*;

use crate::engine::{decision, follows, Insertion};
use crate::signal::{EngineError, Signal, SignalKind, MAX_GAP};

verus! {

/// Every signal of `h` after the first follows the one before it.
pub open spec fn chained(h: Seq<Signal>) -> bool {
    forall|i: int| 0 < i < h.len() ==> #[trigger] follows(Some(h[i - 1]), h[i])
}

/// The newest signal of a history, if any.
pub open spec fn last_of(h: Seq<Signal>) -> Option<Signal> {
    if h.len() == 0 {
        None
    } else {
        Some(h.last())
    }
}

/// A user's history in a store of histories keyed by user id.
pub open spec fn history(store: Map<u128, Seq<Signal>>, user: u128) -> Seq<Signal> {
    if store.dom().contains(user) {
        store[user]
    } else {
        Seq::empty()
    }
}

/// What a conditional insert does to the store: it appends the signal to its
/// user's history when that history's newest signal is still the expected
/// one, and leaves the store as it was otherwise.
pub open spec fn commit(store: Map<u128, Seq<Signal>>, ins: Insertion) -> Map<u128, Seq<Signal>> {
    let h = history(store, ins.signal.user_id);
    if last_of(h) == ins.expected_last {
        store.insert(ins.signal.user_id, h.push(ins.signal))
    } else {
        store
    }
}

/// A user's first heartbeat opens a session of duration zero under the
/// freshly drawn session id.
pub proof fn lemma_first_contact(user_id: u128, at: i64, fresh_session: u128, fresh_signal: u128)
    ensures
        decision(None, user_id, at, fresh_session, fresh_signal) == Ok::<Signal, EngineError>(
            Signal {
                signal_id: fresh_signal,
                user_id,
                session_id: fresh_session,
                kind: SignalKind::SessionStart,
                duration: 0,
                at,
            },
        ),
{
}

/// A heartbeat at most `MAX_GAP` seconds after the last signal continues its
/// session, and the duration grows by exactly the gap.
pub proof fn lemma_continuity(
    last: Signal,
    user_id: u128,
    at: i64,
    fresh_session: u128,
    fresh_signal: u128,
)
    requires
        last.at <= at,
        at - last.at <= MAX_GAP,
        last.duration + (at - last.at) <= u64::MAX,
    ensures
        ({
            let r = decision(Some(last), user_id, at, fresh_session, fresh_signal);
            &&& r is Ok
            &&& r->Ok_0.kind == SignalKind::Alive
            &&& r->Ok_0.session_id == last.session_id
            &&& r->Ok_0.duration == last.duration + (at - last.at)
        }),
{
}

/// A heartbeat more than `MAX_GAP` seconds after the last signal opens a new
/// session of duration zero, under an id unlike the previous session's.
pub proof fn lemma_expiry(last: Signal, user_id: u128, at: i64, fresh_session: u128, fresh_signal: u128)
    requires
        at - last.at > MAX_GAP,
    ensures
        ({
            let r = decision(Some(last), user_id, at, fresh_session, fresh_signal);
            &&& r is Ok
            &&& r->Ok_0.kind == SignalKind::SessionStart
            &&& r->Ok_0.duration == 0
            &&& r->Ok_0.session_id != last.session_id
        }),
{
    crate::engine::lemma_decision_follows(Some(last), user_id, at, fresh_session, fresh_signal);
}

/// In a chained history, consecutive signals of one session never lose
/// duration.
pub proof fn lemma_duration_monotone(h: Seq<Signal>, i: int)
    requires
        chained(h),
        0 <= i,
        i + 1 < h.len(),
        h[i + 1].session_id == h[i].session_id,
    ensures
        h[i].duration <= h[i + 1].duration,
{
    assert(follows(Some(h[i + 1 - 1]), h[i + 1]));
}

/// In a chained history, a run of signals with no new session in between
/// keeps one session id and never loses duration.
pub proof fn lemma_session_run(h: Seq<Signal>, i: int, j: int)
    requires
        chained(h),
        0 <= i <= j < h.len(),
        forall|k: int| i < k <= j ==> #[trigger] h[k].kind == SignalKind::Alive,
    ensures
        h[j].session_id == h[i].session_id,
        h[i].duration <= h[j].duration,
    decreases j - i,
{
    if i < j {
        lemma_session_run(h, i, j - 1);
        assert(follows(Some(h[j - 1]), h[j]));
        assert(h[j].kind == SignalKind::Alive);
    }
}

/// In a chained history, time never goes backwards.
pub proof fn lemma_at_monotone(h: Seq<Signal>, i: int, j: int)
    requires
        chained(h),
        0 <= i <= j < h.len(),
    ensures
        h[i].at <= h[j].at,
    decreases j - i,
{
    if i < j {
        lemma_at_monotone(h, i, j - 1);
        assert(follows(Some(h[j - 1]), h[j]));
    }
}

/// Conditional inserts of signals that follow the newest signal they were
/// decided on keep every user's history chained, however the inserts of
/// concurrent heartbeats interleave: an insert decided on a stale signal is
/// refused and changes nothing.
pub proof fn lemma_commit_keeps_chain(store: Map<u128, Seq<Signal>>, ins: Insertion)
    requires
        forall|u: u128| chained(#[trigger] history(store, u)),
        follows(ins.expected_last, ins.signal),
    ensures
        forall|u: u128| chained(#[trigger] history(commit(store, ins), u)),
{
    let user = ins.signal.user_id;
    let h = history(store, user);
    assert(chained(h));
    if last_of(h) == ins.expected_last {
        let h2 = h.push(ins.signal);
        assert forall|i: int| 0 < i < h2.len() implies #[trigger] follows(Some(h2[i - 1]), h2[i]) by {
            if i < h.len() {
                assert(h2[i - 1] == h[i - 1] && h2[i] == h[i]);
            } else {
                assert(h2[i - 1] == h.last());
            }
        }
        assert forall|u: u128| chained(#[trigger] history(commit(store, ins), u)) by {
            if u == user {
                assert(history(commit(store, ins), u) == h2);
            } else {
                assert(history(commit(store, ins), u) == history(store, u));
            }
        }
    }
}

/// Heartbeats that each come within `MAX_GAP` of the one before stay in the
/// session of the first: none after it opens a new one.
pub proof fn lemma_burst_one_session(h: Seq<Signal>)
    requires
        chained(h),
        forall|i: int| 0 < i < h.len() ==> #[trigger] h[i].at - h[i - 1].at <= MAX_GAP,
    ensures
        forall|i: int|
            0 < i < h.len() ==> #[trigger] h[i].kind == SignalKind::Alive && h[i].session_id
                == h[0].session_id,
{
    assert forall|i: int| 0 < i < h.len() implies #[trigger] h[i].kind == SignalKind::Alive
        && h[i].session_id == h[0].session_id by {
        assert forall|k: int| 0 < k <= i implies #[trigger] h[k].kind == SignalKind::Alive by {
            assert(follows(Some(h[k - 1]), h[k]));
            assert(h[k].at - h[k - 1].at <= MAX_GAP);
        }
        lemma_session_run(h, 0, i);
    }
}

/// In a chained history, a signal that opens a session comes more than
/// `MAX_GAP` seconds after every earlier signal, so no two session starts
/// overlap in time.
pub proof fn lemma_starts_apart(h: Seq<Signal>, i: int, j: int)
    requires
        chained(h),
        0 <= i < j < h.len(),
        h[j].kind == SignalKind::SessionStart,
    ensures
        h[j].at - h[i].at > MAX_GAP,
{
    lemma_at_monotone(h, i, j - 1);
    assert(follows(Some(h[j - 1]), h[j]));
}

/// A heartbeat of one user changes no other user's history.
pub proof fn lemma_isolation(store: Map<u128, Seq<Signal>>, ins: Insertion, other: u128)
    requires
        other != ins.signal.user_id,
    ensures
        history(commit(store, ins), other) == history(store, other),
{
}

} // verus!
