use heartbeat::engine::{classify, decide, Continuity, Heartbeat, InsertOutcome, Insertion, Next, MAX_ATTEMPTS};
use heartbeat::ids::parse_user_id;
use heartbeat::signal::{EngineError, Signal, SignalKind, MAX_GAP};
use std::collections::HashMap;

const USER: &str = "550e8400-e29b-41d4-a716-446655440000";
const OTHER: &str = "a1a2a3a4-b1b2-c1c2-d1d2-d3d4d5d6d7d8";

fn is_random_uuid(v: u128) -> bool {
    v & 0xF000_C000_0000_0000_0000 == 0x4000_8000_0000_0000_0000
}

fn signal(user_id: u128, session_id: u128, kind: SignalKind, duration: u64, at: i64) -> Signal {
    Signal { signal_id: 1, user_id, session_id, kind, duration, at }
}

/// A store that refuses an insert unless the user's newest signal is still
/// the expected one.
fn insert_if_last(store: &mut HashMap<u128, Vec<Signal>>, ins: &Insertion) -> InsertOutcome {
    let h = store.entry(ins.signal.user_id).or_default();
    if h.last().copied() == ins.expected_last {
        h.push(ins.signal);
        InsertOutcome::Inserted
    } else {
        InsertOutcome::Conflict
    }
}

/// Runs one heartbeat against the store, retrying on conflicts.
fn process(store: &mut HashMap<u128, Vec<Signal>>, user: &str, at: i64) -> Result<Signal, EngineError> {
    let mut hb = Heartbeat::begin(user, at)?;
    loop {
        let last = store.get(&hb.user_id).and_then(|h| h.last().copied());
        let ins = hb.decide_with(last)?;
        let outcome = insert_if_last(store, &ins);
        match hb.after_insert(&ins, outcome) {
            Next::Retry => continue,
            Next::Done(r) => return r,
        }
    }
}

#[test]
fn parses_user_id_value() {
    assert_eq!(parse_user_id(OTHER), Ok(0xa1a2a3a4b1b2c1c2d1d2d3d4d5d6d7d8));
    assert_eq!(parse_user_id("A1A2A3A4B1B2C1C2D1D2D3D4D5D6D7D8"), Ok(0xa1a2a3a4b1b2c1c2d1d2d3d4d5d6d7d8));
    assert_eq!(parse_user_id(""), Err(EngineError::InvalidUserId));
}

#[test]
fn invalid_user_id_is_refused_before_the_store() {
    let mut store: HashMap<u128, Vec<Signal>> = HashMap::new();
    assert_eq!(Heartbeat::begin("not-a-uuid", 12345), Err(EngineError::InvalidUserId));
    assert_eq!(process(&mut store, "not-a-uuid", 12345), Err(EngineError::InvalidUserId));
    assert!(store.is_empty());
    assert_eq!(Heartbeat::begin_now("not-a-uuid"), Err(EngineError::InvalidUserId));
}

#[test]
fn begin_keeps_user_and_time() {
    let hb = Heartbeat::begin(USER, 77).unwrap();
    assert_eq!(hb.user_id, 0x550e8400e29b41d4a716446655440000);
    assert_eq!(hb.at, 77);
    assert_eq!(hb.conflicts, 0);
    let now = Heartbeat::begin_now(USER).unwrap();
    assert_eq!(now.user_id, hb.user_id);
    assert!(now.at > 1_600_000_000);
}

#[test]
fn first_contact_starts_a_session() {
    let hb = Heartbeat::begin(USER, 100).unwrap();
    let ins = hb.decide_with(None).unwrap();
    assert_eq!(ins.expected_last, None);
    assert_eq!(ins.signal.kind, SignalKind::SessionStart);
    assert_eq!(ins.signal.duration, 0);
    assert_eq!(ins.signal.at, 100);
    assert_eq!(ins.signal.user_id, hb.user_id);
    assert!(is_random_uuid(ins.signal.session_id));
    assert!(is_random_uuid(ins.signal.signal_id));
    assert_ne!(ins.signal.session_id, ins.signal.signal_id);
    let again = hb.decide_with(None).unwrap();
    assert_ne!(again.signal.session_id, ins.signal.session_id);
}

#[test]
fn continuity_then_expiry_example() {
    let hb = Heartbeat::begin(USER, 115).unwrap();
    let s1: u128 = 0x1111;
    let last = signal(hb.user_id, s1, SignalKind::Alive, 20, 100);
    let ins = hb.decide_with(Some(last)).unwrap();
    assert_eq!(ins.signal.kind, SignalKind::Alive);
    assert_eq!(ins.signal.session_id, s1);
    assert_eq!(ins.signal.duration, 35);
    assert_eq!(ins.expected_last, Some(last));

    let hb2 = Heartbeat::begin(USER, 200).unwrap();
    let ins2 = hb2.decide_with(Some(ins.signal)).unwrap();
    assert_eq!(ins2.signal.kind, SignalKind::SessionStart);
    assert_ne!(ins2.signal.session_id, s1);
    assert_eq!(ins2.signal.duration, 0);
    assert_eq!(ins2.signal.at, 200);
}

#[test]
fn gap_of_exactly_max_gap_continues() {
    let last = signal(1, 9, SignalKind::SessionStart, 0, 1000);
    assert_eq!(classify(&Some(last), 1000 + MAX_GAP), Ok(Continuity::ContinueSession));
    assert_eq!(classify(&Some(last), 1001 + MAX_GAP), Ok(Continuity::NewSession));
    assert_eq!(classify(&Some(last), 1000), Ok(Continuity::ContinueSession));
    assert_eq!(classify(&None, -5), Ok(Continuity::NewSession));
    let r = decide(&Some(last), 1, 1000 + MAX_GAP, 5, 6).unwrap();
    assert_eq!(r, Signal { signal_id: 6, user_id: 1, session_id: 9, kind: SignalKind::Alive, duration: 30, at: 1030 });
}

#[test]
fn older_heartbeat_is_clock_skew() {
    let last = signal(1, 9, SignalKind::Alive, 40, 1000);
    assert_eq!(classify(&Some(last), 999), Err(EngineError::ClockSkew));
    assert_eq!(decide(&Some(last), 1, 999, 5, 6), Err(EngineError::ClockSkew));
    let hb = Heartbeat::begin(USER, 999).unwrap();
    assert_eq!(hb.decide_with(Some(last)), Err(EngineError::ClockSkew));
}

#[test]
fn new_session_never_reuses_previous_id() {
    let last = signal(1, 0x4000_8000_0000_0000_0000, SignalKind::Alive, 40, 1000);
    let r = decide(&Some(last), 1, 2000, 0x4000_8000_0000_0000_0000, 6).unwrap();
    assert_eq!(r.kind, SignalKind::SessionStart);
    assert_eq!(r.session_id, 0x4000_8000_0000_0000_0001);
    assert!(is_random_uuid(r.session_id));
    let fresh = decide(&Some(last), 1, 2000, 77, 6).unwrap();
    assert_eq!(fresh.session_id, 77);
    let first = decide(&None, 3, 5, 88, 6).unwrap();
    assert_eq!(first, Signal { signal_id: 6, user_id: 3, session_id: 88, kind: SignalKind::SessionStart, duration: 0, at: 5 });
}

#[test]
fn duration_saturates() {
    let last = signal(1, 9, SignalKind::Alive, u64::MAX - 5, 1000);
    let r = decide(&Some(last), 1, 1010, 5, 6).unwrap();
    assert_eq!(r.duration, u64::MAX);
    let extreme = signal(1, 9, SignalKind::Alive, 0, i64::MIN);
    let r2 = decide(&Some(extreme), 1, i64::MAX, 5, 6).unwrap();
    assert_eq!(r2.kind, SignalKind::SessionStart);
}

#[test]
fn insert_outcomes() {
    let mut hb = Heartbeat::begin(USER, 100).unwrap();
    let ins = hb.decide_with(None).unwrap();
    assert_eq!(hb.after_insert(&ins, InsertOutcome::Inserted), Next::Done(Ok(ins.signal)));
    assert_eq!(hb.after_insert(&ins, InsertOutcome::Failed), Next::Done(Err(EngineError::StoreUnavailable)));
    assert_eq!(hb.conflicts, 0);
    for k in 1..MAX_ATTEMPTS {
        assert_eq!(hb.after_insert(&ins, InsertOutcome::Conflict), Next::Retry);
        assert_eq!(hb.conflicts, k);
    }
    assert_eq!(hb.after_insert(&ins, InsertOutcome::Conflict), Next::Done(Err(EngineError::WriteConflict)));
    assert_eq!(hb.conflicts, MAX_ATTEMPTS);
    assert_eq!(hb.at, 100);
}

#[test]
fn durations_grow_within_a_session() {
    let mut store: HashMap<u128, Vec<Signal>> = HashMap::new();
    for at in [0i64, 10, 25, 25, 50, 81, 90, 200, 210] {
        process(&mut store, USER, at).unwrap();
    }
    let h = &store[&0x550e8400e29b41d4a716446655440000];
    let durations: Vec<u64> = h.iter().map(|s| s.duration).collect();
    assert_eq!(durations, vec![0, 10, 25, 25, 50, 0, 9, 0, 10]);
    for w in h.windows(2) {
        if w[0].session_id == w[1].session_id {
            assert!(w[0].duration <= w[1].duration);
        }
    }
    let starts = h.iter().filter(|s| s.kind == SignalKind::SessionStart).count();
    assert_eq!(starts, 3);
}

#[test]
fn racing_heartbeats_form_one_chain() {
    let mut store: HashMap<u128, Vec<Signal>> = HashMap::new();
    let a = Heartbeat::begin(USER, 100).unwrap();
    let mut b = Heartbeat::begin(USER, 100).unwrap();
    // Both read the same (empty) history and decide before either inserts.
    let ins_a = a.decide_with(None).unwrap();
    let ins_b = b.decide_with(None).unwrap();
    assert_eq!(insert_if_last(&mut store, &ins_a), InsertOutcome::Inserted);
    let outcome = insert_if_last(&mut store, &ins_b);
    assert_eq!(outcome, InsertOutcome::Conflict);
    assert_eq!(b.after_insert(&ins_b, outcome), Next::Retry);
    let last = store[&b.user_id].last().copied();
    let retry = b.decide_with(last).unwrap();
    assert_eq!(insert_if_last(&mut store, &retry), InsertOutcome::Inserted);
    let h = &store[&b.user_id];
    assert_eq!(h.len(), 2);
    assert_eq!(h[0].kind, SignalKind::SessionStart);
    assert_eq!(h[1].kind, SignalKind::Alive);
    assert_eq!(h[1].session_id, h[0].session_id);
    assert_eq!(h[1].duration, 0);
}

#[test]
fn users_do_not_interfere() {
    let mut store: HashMap<u128, Vec<Signal>> = HashMap::new();
    let u1 = process(&mut store, USER, 100).unwrap();
    let u2 = process(&mut store, OTHER, 100).unwrap();
    assert_eq!(u1.kind, SignalKind::SessionStart);
    assert_eq!(u2.kind, SignalKind::SessionStart);
    let u1b = process(&mut store, USER, 120).unwrap();
    let u2b = process(&mut store, OTHER, 200).unwrap();
    assert_eq!(u1b.kind, SignalKind::Alive);
    assert_eq!(u1b.session_id, u1.session_id);
    assert_eq!(u1b.duration, 20);
    assert_eq!(u2b.kind, SignalKind::SessionStart);
    assert_eq!(store[&u1.user_id].len(), 2);
    assert_eq!(store[&u2.user_id].len(), 2);
}
