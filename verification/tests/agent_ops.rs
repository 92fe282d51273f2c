use rbt_contracts::agent::{
    activity_recorded_message, already_registered_message, registered_message,
    status_updated_message,
};
use rbt_contracts::agent::{
    check_activity_request, check_batch_request, check_register_request, check_status_request,
    get_agent_info, record_activity, record_activity_batch, record_activity_batch_fits,
    record_activity_fits, register_agent, update_status, AgentError, AgentInfoOutcome,
    AgentState, GetAgentInfoReq, RecordActivityBatchReq, RecordActivityReq, RegisterAgentReq,
    RegisterOutcome, UpdateStatusReq, MAX_BATCH_ROOTS, ONE_RBT_STAKE_BITS, REPUTATION_WINDOW_MS,
};

const DID: &str = "bafybmiowner";

fn reg(did: &str, name: &str, ty: &str, ts: u64) -> RegisterAgentReq {
    RegisterAgentReq {
        agent_did: did.to_string(),
        agent_name: name.to_string(),
        agent_type: ty.to_string(),
        timestamp: ts,
    }
}

fn registered() -> AgentState {
    let mut s = AgentState::default();
    assert_eq!(register_agent(&mut s, reg(DID, "MyAgent", "trading", 1_700_000_000_000)).unwrap(), RegisterOutcome::Registered);
    s
}

fn batch(did: &str, hash: &str, count: u64, end: u64) -> RecordActivityBatchReq {
    RecordActivityBatchReq {
        agent_did: did.to_string(),
        batch_hash: hash.to_string(),
        activity_count: count,
        period_start: end.saturating_sub(1000),
        period_end: end,
        dominant_action: "trade".to_string(),
        full_batch_json: "{\"activities\":[]}".to_string(),
    }
}

fn activity(did: &str, ty: &str, ts: u64, tx_ref: Option<&str>) -> RecordActivityReq {
    RecordActivityReq {
        agent_did: did.to_string(),
        activity_type: ty.to_string(),
        activity_data: "{\"pair\":\"BTC/USDT\"}".to_string(),
        timestamp: ts,
        tx_ref: tx_ref.map(|t| t.to_string()),
    }
}

fn message(r: Result<impl Sized, AgentError>) -> String {
    match r {
        Ok(_) => panic!("expected a refusal"),
        Err(e) => e.message(),
    }
}

#[test]
fn default_state_has_no_agent() {
    let s = AgentState::default();
    assert_eq!(s.agent_did, "");
    assert_eq!(s.status, "");
    assert_eq!(s.activity_count, 0);
    assert_eq!(s.batch_count, 0);
    assert!(s.batch_roots.is_empty());
    assert_eq!(f64::from_bits(s.stake_amount_bits), 0.0);
    assert_eq!(f64::from_bits(s.reputation_score_bits), 0.0);
}

#[test]
fn registration_sets_owner_and_one_rbt_stake() {
    let s = registered();
    assert_eq!(s.agent_did, DID);
    assert_eq!(s.agent_name, "MyAgent");
    assert_eq!(s.agent_type, "trading");
    assert_eq!(s.status, "active");
    assert_eq!(ONE_RBT_STAKE_BITS, 1.0f64.to_bits());
    assert_eq!(f64::from_bits(s.stake_amount_bits), 1.0);
    assert_eq!(s.registered_at, 1_700_000_000_000);
    assert_eq!(s.last_activity_at, 1_700_000_000_000);
    assert_eq!(s.activity_count, 0);
}

#[test]
fn registration_requests_are_validated() {
    let mut s = AgentState::default();
    assert_eq!(message(register_agent(&mut s, reg("", "n", "trading", 1))), "agent_did must not be empty");
    assert_eq!(message(register_agent(&mut s, reg("d", "", "trading", 1))), "agent_name must not be empty");
    assert_eq!(
        message(register_agent(&mut s, reg("d", "n", "gambling", 1))),
        "agent_type must be one of: trading, advisory, monitoring, general"
    );
    assert_eq!(s.agent_did, "");
    for ty in ["trading", "advisory", "monitoring", "general"] {
        assert!(check_register_request(&reg("d", "n", ty, 1)).is_ok());
    }
    assert!(check_register_request(&reg("d", "n", "Trading", 1)).is_err());
}

#[test]
fn registering_again_with_owner_did_changes_nothing() {
    let mut s = registered();
    let r = register_agent(&mut s, reg(DID, "Other", "general", 5)).unwrap();
    assert_eq!(r, RegisterOutcome::AlreadyRegistered);
    assert_eq!(s.agent_did, DID);
    assert_eq!(s.agent_name, "MyAgent");
    assert_eq!(s.agent_type, "trading");
    assert_eq!(s.registered_at, 1_700_000_000_000);
}

#[test]
fn registering_with_another_did_is_refused() {
    let mut s = registered();
    assert_eq!(
        message(register_agent(&mut s, reg("someone-else", "Other", "general", 5))),
        format!("DID mismatch: contract owned by {}, got someone-else", DID)
    );
    assert_eq!(s.agent_did, DID);
    assert_eq!(s.agent_name, "MyAgent");
    assert_eq!(s.agent_type, "trading");
    assert_eq!(s.registered_at, 1_700_000_000_000);
    // malformed requests are still answered with their own refusal first
    assert_eq!(message(register_agent(&mut s, reg("someone-else", "", "general", 5))), "agent_name must not be empty");
}

#[test]
fn batch_requests_are_validated() {
    let s = registered();
    assert_eq!(message(check_batch_request(&batch("", "h", 1, 10))), "agent_did must not be empty");
    assert_eq!(message(check_batch_request(&batch(DID, "", 1, 10))), "batch_hash must not be empty");
    assert_eq!(message(check_batch_request(&batch(DID, "h", 0, 10))), "activity_count must be > 0");
    let mut no_json = batch(DID, "h", 1, 10);
    no_json.full_batch_json = String::new();
    assert_eq!(message(check_batch_request(&no_json)), "full_batch_json must not be empty");
    let mut s2 = s;
    assert_eq!(message(record_activity_batch(&mut s2, &no_json)), "full_batch_json must not be empty");
    assert_eq!(s2.batch_count, 0);
}

#[test]
fn batch_before_registration_is_refused() {
    let mut s = AgentState::default();
    assert_eq!(
        message(record_activity_batch(&mut s, &batch(DID, "h", 3, 10))),
        "Agent not registered. Call register_agent first."
    );
}

#[test]
fn batch_from_another_did_is_refused() {
    let mut s = registered();
    assert_eq!(
        message(record_activity_batch(&mut s, &batch("intruder", "h", 3, 10))),
        format!("DID mismatch: contract owned by {}, got intruder", DID)
    );
    assert_eq!(s.activity_count, 0);
    assert!(s.batch_roots.is_empty());
}

#[test]
fn batch_commits_root_and_counters() {
    let mut s = registered();
    let end = 1_700_003_600_000;
    let req = batch(DID, "sha256hex", 42, end);
    assert!(record_activity_batch_fits(&s, &req));
    let w = record_activity_batch(&mut s, &req).unwrap();
    assert_eq!(w.to_ts, end);
    assert_eq!(w.now_ts, end);
    assert_eq!(w.from_ts, end - REPUTATION_WINDOW_MS);
    assert_eq!(REPUTATION_WINDOW_MS, 7 * 24 * 3600 * 1000);
    assert_eq!(s.activity_count, 42);
    assert_eq!(s.batch_count, 1);
    assert_eq!(s.last_activity_at, end);
    assert_eq!(s.batch_roots.len(), 1);
    let root = &s.batch_roots[0];
    assert_eq!(root.batch_hash, "sha256hex");
    assert_eq!(root.activity_count, 42);
    assert_eq!(root.period_start, end - 1000);
    assert_eq!(root.period_end, end);
    assert_eq!(root.committed_at, end);
    assert_eq!(root.dominant_action, "trade");
}

#[test]
fn reputation_window_starts_at_zero_for_early_times() {
    let mut s = registered();
    let w = record_activity_batch(&mut s, &batch(DID, "h", 1, 5000)).unwrap();
    assert_eq!(w.from_ts, 0);
    assert_eq!(w.to_ts, 5000);
}

#[test]
fn batch_roots_keep_the_latest_five_hundred() {
    let mut s = registered();
    for i in 0..(MAX_BATCH_ROOTS as u64 + 1) {
        record_activity_batch(&mut s, &batch(DID, &format!("h{}", i), 2, 1000 + i)).unwrap();
    }
    assert_eq!(MAX_BATCH_ROOTS, 500);
    assert_eq!(s.batch_roots.len(), 500);
    assert_eq!(s.batch_roots[0].batch_hash, "h1");
    assert_eq!(s.batch_roots[499].batch_hash, "h500");
    assert_eq!(s.batch_count, 501);
    assert_eq!(s.activity_count, 1002);
}

#[test]
fn activity_requests_are_validated() {
    assert_eq!(message(check_activity_request(&activity("", "trade", 1, None))), "agent_did must not be empty");
    assert_eq!(message(check_activity_request(&activity(DID, "", 1, None))), "activity_type must not be empty");
    let mut s = AgentState::default();
    assert_eq!(
        message(record_activity(&mut s, activity(DID, "trade", 1, None))),
        "Agent not registered. Call register_agent first."
    );
}

#[test]
fn activity_is_counted_and_recorded() {
    let mut s = registered();
    let req = activity(DID, "trade", 1_700_000_120_000, Some("txn_abc123"));
    assert!(record_activity_fits(&s, &req));
    let step = record_activity(&mut s, req).unwrap();
    assert_eq!(step.record.activity_type, "trade");
    assert_eq!(step.record.activity_data, "{\"pair\":\"BTC/USDT\"}");
    assert_eq!(step.record.timestamp, 1_700_000_120_000);
    assert_eq!(step.record.tx_ref, "txn_abc123");
    assert!(step.reputation.is_none());
    assert_eq!(s.activity_count, 1);
    assert_eq!(s.last_activity_at, 1_700_000_120_000);
    let step = record_activity(&mut s, activity(DID, "trade", 1_700_000_130_000, None)).unwrap();
    assert_eq!(step.record.tx_ref, "");
}

#[test]
fn reputation_is_recomputed_every_tenth_activity() {
    let mut s = registered();
    for i in 1..=25u64 {
        let step = record_activity(&mut s, activity(DID, "trade", 1_000_000_000 + i, None)).unwrap();
        assert_eq!(step.reputation.is_some(), i % 10 == 0);
        if let Some(w) = step.reputation {
            assert_eq!(w.to_ts, 1_000_000_000 + i);
            assert_eq!(w.now_ts, 1_000_000_000 + i);
            assert_eq!(w.from_ts, 1_000_000_000 + i - REPUTATION_WINDOW_MS);
        }
    }
    assert_eq!(s.activity_count, 25);
}

#[test]
fn agent_info_answers() {
    let empty = AgentState::default();
    let r = get_agent_info(&empty, &GetAgentInfoReq { agent_did: DID.to_string() }).unwrap();
    assert_eq!(r, AgentInfoOutcome::NotRegistered);
    let s = registered();
    assert_eq!(
        get_agent_info(&s, &GetAgentInfoReq { agent_did: String::new() }).unwrap(),
        AgentInfoOutcome::Registered
    );
    assert_eq!(
        get_agent_info(&s, &GetAgentInfoReq { agent_did: DID.to_string() }).unwrap(),
        AgentInfoOutcome::Registered
    );
    assert_eq!(
        message(get_agent_info(&s, &GetAgentInfoReq { agent_did: "other".to_string() })),
        "No agent found for DID other"
    );
}

#[test]
fn status_updates_are_checked() {
    let upd = |did: &str, st: &str| UpdateStatusReq { agent_did: did.to_string(), status: st.to_string() };
    assert_eq!(message(check_status_request(&upd(DID, "paused"))), "status must be 'active' or 'suspended'");
    let mut empty = AgentState::default();
    assert_eq!(message(update_status(&mut empty, &upd(DID, "active"))), "Agent not registered");
    let mut s = registered();
    assert_eq!(
        message(update_status(&mut s, &upd("other", "suspended"))),
        "Only the registered agent can update its status"
    );
    assert_eq!(s.status, "active");
    update_status(&mut s, &upd(DID, "suspended")).unwrap();
    assert_eq!(s.status, "suspended");
    update_status(&mut s, &upd(DID, "active")).unwrap();
    assert_eq!(s.status, "active");
}

#[test]
fn suspended_agent_records_nothing() {
    let mut s = registered();
    update_status(&mut s, &UpdateStatusReq { agent_did: DID.to_string(), status: "suspended".to_string() }).unwrap();
    assert_eq!(
        message(record_activity_batch(&mut s, &batch(DID, "h", 3, 10))),
        "Agent is suspended and cannot record activities"
    );
    assert_eq!(
        message(record_activity(&mut s, activity(DID, "trade", 1, None))),
        "Agent is suspended and cannot record activities"
    );
    assert_eq!(s.activity_count, 0);
    assert_eq!(s.batch_count, 0);
}

#[test]
fn counter_overflow_is_detected() {
    let mut s = registered();
    s.activity_count = u64::MAX;
    assert!(!record_activity_batch_fits(&s, &batch(DID, "h", 1, 10)));
    assert!(!record_activity_fits(&s, &activity(DID, "trade", 1, None)));
    // refused requests never overflow
    assert!(record_activity_batch_fits(&s, &batch("other", "h", 1, 10)));
}

#[test]
fn agent_answers_name_the_agent() {
    let did = DID.to_string();
    assert_eq!(registered_message(&did), format!("Agent {} registered with 1 RBT stake", DID));
    assert_eq!(already_registered_message(&did), format!("Agent {} already registered", DID));
    assert_eq!(
        activity_recorded_message(&"trade".to_string(), &did, 12),
        format!("Activity 'trade' recorded for agent {}. Total: 12", DID)
    );
    assert_eq!(
        status_updated_message(&did, &"suspended".to_string()),
        format!("Agent {} status updated to suspended", DID)
    );
}

#[test]
fn registered_identity_never_changes() {
    let mut s = registered();
    record_activity_batch(&mut s, &batch(DID, "h", 2, 10)).unwrap();
    record_activity(&mut s, activity(DID, "trade", 20, None)).unwrap();
    update_status(&mut s, &UpdateStatusReq { agent_did: DID.to_string(), status: "suspended".to_string() }).unwrap();
    let _ = register_agent(&mut s, reg("x", "y", "general", 99));
    assert_eq!(s.agent_did, DID);
    assert_eq!(s.agent_name, "MyAgent");
    assert_eq!(s.agent_type, "trading");
    assert_eq!(s.registered_at, 1_700_000_000_000);
    assert_eq!(f64::from_bits(s.stake_amount_bits), 1.0);
}

#[test]
fn suspension_lasts_until_reactivated() {
    let upd = |st: &str| UpdateStatusReq { agent_did: DID.to_string(), status: st.to_string() };
    let mut s = registered();
    update_status(&mut s, &upd("suspended")).unwrap();
    // calls that do not reactivate the agent
    let _ = register_agent(&mut s, reg(DID, "Again", "general", 3));
    let _ = register_agent(&mut s, reg("intruder", "X", "general", 3));
    let _ = update_status(&mut s, &UpdateStatusReq { agent_did: "intruder".to_string(), status: "active".to_string() });
    let _ = update_status(&mut s, &upd("paused"));
    update_status(&mut s, &upd("suspended")).unwrap();
    let _ = record_activity(&mut s, activity(DID, "trade", 5, None));
    assert_eq!(s.status, "suspended");
    assert_eq!(
        message(record_activity_batch(&mut s, &batch(DID, "h", 3, 10))),
        "Agent is suspended and cannot record activities"
    );
    assert_eq!(s.batch_count, 0);
    update_status(&mut s, &upd("active")).unwrap();
    assert!(record_activity_batch(&mut s, &batch(DID, "h", 3, 10)).is_ok());
}
