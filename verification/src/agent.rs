use vstd::prelude::*;
use crate::decimal::{decimal, push_decimal};
use crate::text::{string_equals, string_is_empty};

verus! {

/// Most batch roots kept in the agent's state; older ones roll off.
pub const MAX_BATCH_ROOTS: usize = 500;

/// Span, in milliseconds, of the recent-activity window that reputation looks at (seven days).
pub const REPUTATION_WINDOW_MS: u64 = 604_800_000;

/// Single activity records between two reputation updates.
pub const REPUTATION_EVERY: u64 = 10;

/// IEEE-754 double encoding of 1.0: the stake, in RBT, of a registered agent.
pub const ONE_RBT_STAKE_BITS: u64 = 0x3FF0_0000_0000_0000;

/// Summary of a committed activity batch; the full batch is kept off-chain.
pub struct BatchRoot {
    pub batch_hash: String,
    pub activity_count: u64,
    pub period_start: u64,
    pub period_end: u64,
    pub committed_at: u64,
    pub dominant_action: String,
}

/// Mathematical value of a [`BatchRoot`].
pub struct BatchRootView {
    pub batch_hash: Seq<char>,
    pub activity_count: u64,
    pub period_start: u64,
    pub period_end: u64,
    pub committed_at: u64,
    pub dominant_action: Seq<char>,
}

impl View for BatchRoot {
    type V = BatchRootView;

    open spec fn view(&self) -> BatchRootView {
        BatchRootView {
            batch_hash: self.batch_hash@,
            activity_count: self.activity_count,
            period_start: self.period_start,
            period_end: self.period_end,
            committed_at: self.committed_at,
            dominant_action: self.dominant_action@,
        }
    }
}

/// A single activity, as handed to off-chain storage.
pub struct ActivityRecord {
    pub activity_type: String,
    pub activity_data: String,
    pub timestamp: u64,
    pub tx_ref: String,
}

/// The agent's on-chain state. The two floating-point quantities of the contract,
/// the stake in RBT and the reputation score, are carried as their IEEE-754 bit
/// patterns: the library never computes with them.
pub struct AgentState {
    pub agent_did: String,
    pub agent_name: String,
    pub agent_type: String,
    pub status: String,
    pub stake_amount_bits: u64,
    pub registered_at: u64,
    pub activity_count: u64,
    pub last_activity_at: u64,
    pub reputation_score_bits: u64,
    pub batch_count: u64,
    pub batch_roots: Vec<BatchRoot>,
}

/// Mathematical value of an [`AgentState`].
pub struct AgentView {
    pub agent_did: Seq<char>,
    pub agent_name: Seq<char>,
    pub agent_type: Seq<char>,
    pub status: Seq<char>,
    pub stake_amount_bits: u64,
    pub registered_at: u64,
    pub activity_count: u64,
    pub last_activity_at: u64,
    pub reputation_score_bits: u64,
    pub batch_count: u64,
    pub batch_roots: Seq<BatchRootView>,
}

impl View for AgentState {
    type V = AgentView;

    open spec fn view(&self) -> AgentView {
        AgentView {
            agent_did: self.agent_did@,
            agent_name: self.agent_name@,
            agent_type: self.agent_type@,
            status: self.status@,
            stake_amount_bits: self.stake_amount_bits,
            registered_at: self.registered_at,
            activity_count: self.activity_count,
            last_activity_at: self.last_activity_at,
            reputation_score_bits: self.reputation_score_bits,
            batch_count: self.batch_count,
            batch_roots: self.batch_roots@.map_values(|b: BatchRoot| b@),
        }
    }
}

/// State of a contract with no agent registered yet.
pub open spec fn unregistered_agent() -> AgentView {
    AgentView {
        agent_did: Seq::empty(),
        agent_name: Seq::empty(),
        agent_type: Seq::empty(),
        status: Seq::empty(),
        stake_amount_bits: 0,
        registered_at: 0,
        activity_count: 0,
        last_activity_at: 0,
        reputation_score_bits: 0,
        batch_count: 0,
        batch_roots: Seq::empty(),
    }
}

impl Default for AgentState {
    fn default() -> (s: AgentState)
        ensures
            s@ == unregistered_agent(),
    {
        let s = AgentState {
            agent_did: String::new(),
            agent_name: String::new(),
            agent_type: String::new(),
            status: String::new(),
            stake_amount_bits: 0,
            registered_at: 0,
            activity_count: 0,
            last_activity_at: 0,
            reputation_score_bits: 0,
            batch_count: 0,
            batch_roots: Vec::new(),
        };
        proof {
            assert(s@.batch_roots =~= Seq::<BatchRootView>::empty());
        }
        s
    }
}

pub struct RegisterAgentReq {
    pub agent_did: String,
    pub agent_name: String,
    pub agent_type: String,
    pub timestamp: u64,
}

pub struct RecordActivityBatchReq {
    pub agent_did: String,
    pub batch_hash: String,
    pub activity_count: u64,
    pub period_start: u64,
    pub period_end: u64,
    pub dominant_action: String,
    pub full_batch_json: String,
}

pub struct RecordActivityReq {
    pub agent_did: String,
    pub activity_type: String,
    pub activity_data: String,
    pub timestamp: u64,
    pub tx_ref: Option<String>,
}

pub struct GetAgentInfoReq {
    pub agent_did: String,
}

pub struct UpdateStatusReq {
    pub agent_did: String,
    pub status: String,
}

/// Why an agent operation was refused.
#[derive(Debug)]
pub enum AgentError {
    EmptyAgentDid,
    EmptyAgentName,
    InvalidAgentType,
    EmptyBatchHash,
    ZeroActivityCount,
    EmptyBatchJson,
    EmptyActivityType,
    NotRegistered,
    DidMismatch { owner: String, got: String },
    Suspended,
    InvalidStatus,
    NoAgentToUpdate,
    NotOwner,
    UnknownAgentDid { did: String },
}

/// Mathematical value of an [`AgentError`].
pub enum AgentErrorView {
    EmptyAgentDid,
    EmptyAgentName,
    InvalidAgentType,
    EmptyBatchHash,
    ZeroActivityCount,
    EmptyBatchJson,
    EmptyActivityType,
    NotRegistered,
    DidMismatch { owner: Seq<char>, got: Seq<char> },
    Suspended,
    InvalidStatus,
    NoAgentToUpdate,
    NotOwner,
    UnknownAgentDid { did: Seq<char> },
}

impl View for AgentError {
    type V = AgentErrorView;

    open spec fn view(&self) -> AgentErrorView {
        match self {
            AgentError::EmptyAgentDid => AgentErrorView::EmptyAgentDid,
            AgentError::EmptyAgentName => AgentErrorView::EmptyAgentName,
            AgentError::InvalidAgentType => AgentErrorView::InvalidAgentType,
            AgentError::EmptyBatchHash => AgentErrorView::EmptyBatchHash,
            AgentError::ZeroActivityCount => AgentErrorView::ZeroActivityCount,
            AgentError::EmptyBatchJson => AgentErrorView::EmptyBatchJson,
            AgentError::EmptyActivityType => AgentErrorView::EmptyActivityType,
            AgentError::NotRegistered => AgentErrorView::NotRegistered,
            AgentError::DidMismatch { owner, got } => AgentErrorView::DidMismatch {
                owner: owner@,
                got: got@,
            },
            AgentError::Suspended => AgentErrorView::Suspended,
            AgentError::InvalidStatus => AgentErrorView::InvalidStatus,
            AgentError::NoAgentToUpdate => AgentErrorView::NoAgentToUpdate,
            AgentError::NotOwner => AgentErrorView::NotOwner,
            AgentError::UnknownAgentDid { did } => AgentErrorView::UnknownAgentDid { did: did@ },
        }
    }
}

/// The text the contract answers for each refusal.
pub open spec fn agent_error_text(e: AgentErrorView) -> Seq<char> {
    match e {
        AgentErrorView::EmptyAgentDid => "agent_did must not be empty"@,
        AgentErrorView::EmptyAgentName => "agent_name must not be empty"@,
        AgentErrorView::InvalidAgentType =>
            "agent_type must be one of: trading, advisory, monitoring, general"@,
        AgentErrorView::EmptyBatchHash => "batch_hash must not be empty"@,
        AgentErrorView::ZeroActivityCount => "activity_count must be > 0"@,
        AgentErrorView::EmptyBatchJson => "full_batch_json must not be empty"@,
        AgentErrorView::EmptyActivityType => "activity_type must not be empty"@,
        AgentErrorView::NotRegistered => "Agent not registered. Call register_agent first."@,
        AgentErrorView::DidMismatch { owner, got } => "DID mismatch: contract owned by "@ + owner
            + ", got "@ + got,
        AgentErrorView::Suspended => "Agent is suspended and cannot record activities"@,
        AgentErrorView::InvalidStatus => "status must be 'active' or 'suspended'"@,
        AgentErrorView::NoAgentToUpdate => "Agent not registered"@,
        AgentErrorView::NotOwner => "Only the registered agent can update its status"@,
        AgentErrorView::UnknownAgentDid { did } => "No agent found for DID "@ + did,
    }
}

impl AgentError {
    /// The text the contract answers for this refusal.
    pub fn message(&self) -> (s: String)
        ensures
            s@ == agent_error_text(self@),
    {
        match self {
            AgentError::EmptyAgentDid => String::from_str("agent_did must not be empty"),
            AgentError::EmptyAgentName => String::from_str("agent_name must not be empty"),
            AgentError::InvalidAgentType => String::from_str(
                "agent_type must be one of: trading, advisory, monitoring, general",
            ),
            AgentError::EmptyBatchHash => String::from_str("batch_hash must not be empty"),
            AgentError::ZeroActivityCount => String::from_str("activity_count must be > 0"),
            AgentError::EmptyBatchJson => String::from_str("full_batch_json must not be empty"),
            AgentError::EmptyActivityType => String::from_str("activity_type must not be empty"),
            AgentError::NotRegistered => String::from_str(
                "Agent not registered. Call register_agent first.",
            ),
            AgentError::DidMismatch { owner, got } => {
                let mut s = String::from_str("DID mismatch: contract owned by ");
                s.append(owner.as_str());
                s.append(", got ");
                s.append(got.as_str());
                s
            },
            AgentError::Suspended => String::from_str(
                "Agent is suspended and cannot record activities",
            ),
            AgentError::InvalidStatus => String::from_str("status must be 'active' or 'suspended'"),
            AgentError::NoAgentToUpdate => String::from_str("Agent not registered"),
            AgentError::NotOwner => String::from_str(
                "Only the registered agent can update its status",
            ),
            AgentError::UnknownAgentDid { did } => {
                let mut s = String::from_str("No agent found for DID ");
                s.append(did.as_str());
                s
            },
        }
    }
}

/// How a registration request was answered.
#[derive(Debug, Clone, Copy, PartialEq, Eq)]
pub enum RegisterOutcome {
    /// The agent was registered; the new state is to be stored.
    Registered,
    /// An agent was already registered; nothing changed.
    AlreadyRegistered,
}

/// How an information request was answered.
#[derive(Debug, Clone, Copy, PartialEq, Eq)]
pub enum AgentInfoOutcome {
    /// No agent is registered yet.
    NotRegistered,
    /// The registered agent's state is to be returned.
    Registered,
}

/// The recent-activity window over which the reputation score is recomputed,
/// and the time at which it is recomputed.
pub struct ReputationWindow {
    pub from_ts: u64,
    pub to_ts: u64,
    pub now_ts: u64,
}

/// What recording a single activity produced: the record to store off-chain, and
/// the reputation window when this record is one that triggers a recomputation.
pub struct ActivityStep {
    pub record: ActivityRecord,
    pub reputation: Option<ReputationWindow>,
}

/// Agent types a registration may name.
pub open spec fn valid_agent_type(t: Seq<char>) -> bool {
    t == "trading"@ || t == "advisory"@ || t == "monitoring"@ || t == "general"@
}

/// Statuses an update may set.
pub open spec fn valid_status(t: Seq<char>) -> bool {
    t == "active"@ || t == "suspended"@
}

/// Whether an agent is registered.
pub open spec fn is_registered(s: AgentView) -> bool {
    s.agent_did.len() != 0
}

/// The window of seven days that ends at `ts` (starting at zero when `ts` is earlier).
pub open spec fn window_ending_at(ts: u64) -> (u64, u64) {
    (if ts >= REPUTATION_WINDOW_MS { (ts - REPUTATION_WINDOW_MS) as u64 } else { 0 }, ts)
}

fn reputation_window(ts: u64) -> (w: ReputationWindow)
    ensures
        (w.from_ts, w.to_ts) == window_ending_at(ts),
        w.now_ts == ts,
{
    ReputationWindow { from_ts: ts.saturating_sub(REPUTATION_WINDOW_MS), to_ts: ts, now_ts: ts }
}

// ---------------------------------------------------------------- registration

/// The refusal, if any, that a registration request earns before the state is read.
pub open spec fn register_request_error(req: RegisterAgentReq) -> Option<AgentErrorView> {
    if req.agent_did@.len() == 0 {
        Some(AgentErrorView::EmptyAgentDid)
    } else if req.agent_name@.len() == 0 {
        Some(AgentErrorView::EmptyAgentName)
    } else if !valid_agent_type(req.agent_type@) {
        Some(AgentErrorView::InvalidAgentType)
    } else {
        None
    }
}

/// The refusal, if any, that a registration request earns: a malformed request, or,
/// once an agent is registered, a request that names another DID.
pub open spec fn register_error(s: AgentView, req: RegisterAgentReq) -> Option<AgentErrorView> {
    if register_request_error(req) is Some {
        register_request_error(req)
    } else if is_registered(s) && s.agent_did != req.agent_did@ {
        Some(AgentErrorView::DidMismatch { owner: s.agent_did, got: req.agent_did@ })
    } else {
        None
    }
}

/// The state after a registration request: only a well-formed request on a contract
/// with no agent yet changes it.
pub open spec fn register_next(s: AgentView, req: RegisterAgentReq) -> AgentView {
    if register_request_error(req) is Some || is_registered(s) {
        s
    } else {
        AgentView {
            agent_did: req.agent_did@,
            agent_name: req.agent_name@,
            agent_type: req.agent_type@,
            status: "active"@,
            stake_amount_bits: ONE_RBT_STAKE_BITS,
            registered_at: req.timestamp,
            last_activity_at: req.timestamp,
            ..s
        }
    }
}

fn is_valid_agent_type(t: &String) -> (b: bool)
    ensures
        b == valid_agent_type(t@),
{
    string_equals(t, "trading") || string_equals(t, "advisory") || string_equals(t, "monitoring")
        || string_equals(t, "general")
}

/// Checks a registration request on its own, as the contract does before reading state.
pub fn check_register_request(req: &RegisterAgentReq) -> (r: Result<(), AgentError>)
    ensures
        match r {
            Ok(_) => register_request_error(*req) is None,
            Err(e) => register_request_error(*req) == Some(e@),
        },
{
    if string_is_empty(&req.agent_did) {
        return Err(AgentError::EmptyAgentDid);
    }
    if string_is_empty(&req.agent_name) {
        return Err(AgentError::EmptyAgentName);
    }
    if !is_valid_agent_type(&req.agent_type) {
        return Err(AgentError::InvalidAgentType);
    }
    Ok(())
}

/// Registers the agent. Once an agent is registered, registering again with its DID
/// changes nothing, and registering with another DID is refused.
pub fn register_agent(state: &mut AgentState, req: RegisterAgentReq) -> (r: Result<
    RegisterOutcome,
    AgentError,
>)
    ensures
        final(state)@ == register_next(old(state)@, req),
        match r {
            Ok(o) => register_error(old(state)@, req) is None && (o
                == RegisterOutcome::AlreadyRegistered <==> is_registered(old(state)@)),
            Err(e) => register_error(old(state)@, req) == Some(e@),
        },
{
    match check_register_request(&req) {
        Err(e) => return Err(e),
        Ok(()) => {},
    }
    if !string_is_empty(&state.agent_did) {
        if !string_equals(&state.agent_did, req.agent_did.as_str()) {
            return Err(AgentError::DidMismatch { owner: state.agent_did.clone(), got: req.agent_did });
        }
        return Ok(RegisterOutcome::AlreadyRegistered);
    }
    let RegisterAgentReq { agent_did, agent_name, agent_type, timestamp } = req;
    state.agent_did = agent_did;
    state.agent_name = agent_name;
    state.agent_type = agent_type;
    state.status = String::from_str("active");
    state.stake_amount_bits = ONE_RBT_STAKE_BITS;
    state.registered_at = timestamp;
    state.last_activity_at = timestamp;
    Ok(RegisterOutcome::Registered)
}

// ---------------------------------------------------------------- recording

/// The refusal, if any, that a write by `did` earns from the state: no agent
/// registered, another agent's DID, or a suspended agent.
pub open spec fn recording_error(s: AgentView, did: Seq<char>) -> Option<AgentErrorView> {
    if !is_registered(s) {
        Some(AgentErrorView::NotRegistered)
    } else if s.agent_did != did {
        Some(AgentErrorView::DidMismatch { owner: s.agent_did, got: did })
    } else if s.status == "suspended"@ {
        Some(AgentErrorView::Suspended)
    } else {
        None
    }
}

fn check_recording_allowed(state: &AgentState, did: &String) -> (r: Result<(), AgentError>)
    ensures
        match r {
            Ok(_) => recording_error(state@, did@) is None,
            Err(e) => recording_error(state@, did@) == Some(e@),
        },
{
    if string_is_empty(&state.agent_did) {
        return Err(AgentError::NotRegistered);
    }
    if !string_equals(&state.agent_did, did.as_str()) {
        return Err(AgentError::DidMismatch { owner: state.agent_did.clone(), got: did.clone() });
    }
    if string_equals(&state.status, "suspended") {
        return Err(AgentError::Suspended);
    }
    Ok(())
}

/// The refusal, if any, that a batch request earns before the state is read.
pub open spec fn batch_request_error(req: RecordActivityBatchReq) -> Option<AgentErrorView> {
    if req.agent_did@.len() == 0 {
        Some(AgentErrorView::EmptyAgentDid)
    } else if req.batch_hash@.len() == 0 {
        Some(AgentErrorView::EmptyBatchHash)
    } else if req.activity_count == 0 {
        Some(AgentErrorView::ZeroActivityCount)
    } else if req.full_batch_json@.len() == 0 {
        Some(AgentErrorView::EmptyBatchJson)
    } else {
        None
    }
}

/// The refusal, if any, that a batch request earns.
pub open spec fn batch_error(s: AgentView, req: RecordActivityBatchReq) -> Option<AgentErrorView> {
    match batch_request_error(req) {
        Some(e) => Some(e),
        None => recording_error(s, req.agent_did@),
    }
}

/// The root a batch request adds to the state.
pub open spec fn batch_root_of(req: RecordActivityBatchReq) -> BatchRootView {
    BatchRootView {
        batch_hash: req.batch_hash@,
        activity_count: req.activity_count,
        period_start: req.period_start,
        period_end: req.period_end,
        committed_at: req.period_end,
        dominant_action: req.dominant_action@,
    }
}

/// The roots after appending one: the oldest rolls off when the window overflows.
pub open spec fn roots_after_push(roots: Seq<BatchRootView>, root: BatchRootView) -> Seq<BatchRootView> {
    let p = roots.push(root);
    if p.len() > MAX_BATCH_ROOTS {
        p.drop_first()
    } else {
        p
    }
}

/// The state after a batch request.
pub open spec fn batch_next(s: AgentView, req: RecordActivityBatchReq) -> AgentView {
    if batch_error(s, req) is Some {
        s
    } else {
        AgentView {
            batch_roots: roots_after_push(s.batch_roots, batch_root_of(req)),
            activity_count: (s.activity_count + req.activity_count) as u64,
            batch_count: (s.batch_count + 1) as u64,
            last_activity_at: req.period_end,
            ..s
        }
    }
}

/// Accepting this batch involves no counter overflow.
pub open spec fn batch_fits(s: AgentView, req: RecordActivityBatchReq) -> bool {
    batch_error(s, req) is None ==> s.activity_count + req.activity_count <= u64::MAX
        && s.batch_count + 1 <= u64::MAX
}

/// Checks a batch request on its own, as the contract does before reading state.
pub fn check_batch_request(req: &RecordActivityBatchReq) -> (r: Result<(), AgentError>)
    ensures
        match r {
            Ok(_) => batch_request_error(*req) is None,
            Err(e) => batch_request_error(*req) == Some(e@),
        },
{
    if string_is_empty(&req.agent_did) {
        return Err(AgentError::EmptyAgentDid);
    }
    if string_is_empty(&req.batch_hash) {
        return Err(AgentError::EmptyBatchHash);
    }
    if req.activity_count == 0 {
        return Err(AgentError::ZeroActivityCount);
    }
    if string_is_empty(&req.full_batch_json) {
        return Err(AgentError::EmptyBatchJson);
    }
    Ok(())
}

/// Tells whether `record_activity_batch` can be called on this state and request.
pub fn record_activity_batch_fits(state: &AgentState, req: &RecordActivityBatchReq) -> (b: bool)
    ensures
        b == batch_fits(state@, *req),
{
    if check_batch_request(req).is_err() || check_recording_allowed(state, &req.agent_did).is_err() {
        return true;
    }
    state.activity_count.checked_add(req.activity_count).is_some() && state.batch_count
        < u64::MAX
}

/// Commits an activity batch: appends its root (keeping at most `MAX_BATCH_ROOTS`),
/// adds its activities to the count, and returns the window over which the
/// reputation score is then recomputed.
pub fn record_activity_batch(state: &mut AgentState, req: &RecordActivityBatchReq) -> (r: Result<
    ReputationWindow,
    AgentError,
>)
    requires
        batch_fits(old(state)@, *req),
    ensures
        final(state)@ == batch_next(old(state)@, *req),
        match r {
            Ok(w) => batch_error(old(state)@, *req) is None && (w.from_ts, w.to_ts)
                == window_ending_at(req.period_end) && w.now_ts == req.period_end,
            Err(e) => batch_error(old(state)@, *req) == Some(e@),
        },
{
    match check_batch_request(req) {
        Err(e) => return Err(e),
        Ok(()) => {},
    }
    match check_recording_allowed(state, &req.agent_did) {
        Err(e) => return Err(e),
        Ok(()) => {},
    }
    let ghost old_roots = state@.batch_roots;
    let root = BatchRoot {
        batch_hash: req.batch_hash.clone(),
        activity_count: req.activity_count,
        period_start: req.period_start,
        period_end: req.period_end,
        committed_at: req.period_end,
        dominant_action: req.dominant_action.clone(),
    };
    state.batch_roots.push(root);
    proof {
        assert(state@.batch_roots =~= old_roots.push(batch_root_of(*req)));
    }
    if state.batch_roots.len() > MAX_BATCH_ROOTS {
        let ghost pushed = state@.batch_roots;
        let _ = state.batch_roots.remove(0);
        proof {
            assert(state@.batch_roots =~= pushed.drop_first());
        }
    }
    state.activity_count = state.activity_count + req.activity_count;
    state.batch_count = state.batch_count + 1;
    state.last_activity_at = req.period_end;
    Ok(reputation_window(req.period_end))
}

/// The refusal, if any, that a single-activity request earns before the state is read.
pub open spec fn activity_request_error(req: RecordActivityReq) -> Option<AgentErrorView> {
    if req.agent_did@.len() == 0 {
        Some(AgentErrorView::EmptyAgentDid)
    } else if req.activity_type@.len() == 0 {
        Some(AgentErrorView::EmptyActivityType)
    } else {
        None
    }
}

/// The refusal, if any, that a single-activity request earns.
pub open spec fn activity_error(s: AgentView, req: RecordActivityReq) -> Option<AgentErrorView> {
    match activity_request_error(req) {
        Some(e) => Some(e),
        None => recording_error(s, req.agent_did@),
    }
}

/// The state after a single-activity request.
pub open spec fn activity_next(s: AgentView, req: RecordActivityReq) -> AgentView {
    if activity_error(s, req) is Some {
        s
    } else {
        AgentView {
            activity_count: (s.activity_count + 1) as u64,
            last_activity_at: req.timestamp,
            ..s
        }
    }
}

/// Accepting this activity involves no counter overflow.
pub open spec fn activity_fits(s: AgentView, req: RecordActivityReq) -> bool {
    activity_error(s, req) is None ==> s.activity_count + 1 <= u64::MAX
}

/// The transaction reference stored with an activity: the given one, or empty.
pub open spec fn tx_ref_text(tx_ref: Option<String>) -> Seq<char> {
    match tx_ref {
        Some(t) => t@,
        None => Seq::empty(),
    }
}

/// Checks a single-activity request on its own, as the contract does before reading state.
pub fn check_activity_request(req: &RecordActivityReq) -> (r: Result<(), AgentError>)
    ensures
        match r {
            Ok(_) => activity_request_error(*req) is None,
            Err(e) => activity_request_error(*req) == Some(e@),
        },
{
    if string_is_empty(&req.agent_did) {
        return Err(AgentError::EmptyAgentDid);
    }
    if string_is_empty(&req.activity_type) {
        return Err(AgentError::EmptyActivityType);
    }
    Ok(())
}

/// Tells whether `record_activity` can be called on this state and request.
pub fn record_activity_fits(state: &AgentState, req: &RecordActivityReq) -> (b: bool)
    ensures
        b == activity_fits(state@, *req),
{
    if check_activity_request(req).is_err() || check_recording_allowed(state, &req.agent_did).is_err() {
        return true;
    }
    state.activity_count < u64::MAX
}

/// Records a single activity: counts it, and asks for a reputation update on every
/// `REPUTATION_EVERY`-th activity.
pub fn record_activity(state: &mut AgentState, req: RecordActivityReq) -> (r: Result<
    ActivityStep,
    AgentError,
>)
    requires
        activity_fits(old(state)@, req),
    ensures
        final(state)@ == activity_next(old(state)@, req),
        match r {
            Ok(step) => {
                &&& activity_error(old(state)@, req) is None
                &&& step.record.activity_type@ == req.activity_type@
                &&& step.record.activity_data@ == req.activity_data@
                &&& step.record.timestamp == req.timestamp
                &&& step.record.tx_ref@ == tx_ref_text(req.tx_ref)
                &&& (step.reputation is Some <==> final(state).activity_count % REPUTATION_EVERY
                    == 0)
                &&& step.reputation matches Some(w) ==> (w.from_ts, w.to_ts) == window_ending_at(
                    req.timestamp,
                ) && w.now_ts == req.timestamp
            },
            Err(e) => activity_error(old(state)@, req) == Some(e@),
        },
{
    match check_activity_request(&req) {
        Err(e) => return Err(e),
        Ok(()) => {},
    }
    match check_recording_allowed(state, &req.agent_did) {
        Err(e) => return Err(e),
        Ok(()) => {},
    }
    let RecordActivityReq { agent_did: _, activity_type, activity_data, timestamp, tx_ref } = req;
    let tx_ref = match tx_ref {
        Some(t) => t,
        None => String::new(),
    };
    let record = ActivityRecord { activity_type, activity_data, timestamp, tx_ref };
    state.activity_count = state.activity_count + 1;
    state.last_activity_at = timestamp;
    let reputation = if state.activity_count % REPUTATION_EVERY == 0 {
        Some(reputation_window(timestamp))
    } else {
        None
    };
    Ok(ActivityStep { record, reputation })
}

// ---------------------------------------------------------------- queries and status

/// Answers an information request: whether an agent is registered, or a refusal
/// when a DID is named that is not the registered agent's.
pub fn get_agent_info(state: &AgentState, req: &GetAgentInfoReq) -> (r: Result<
    AgentInfoOutcome,
    AgentError,
>)
    ensures
        !is_registered(state@) ==> (r matches Ok(AgentInfoOutcome::NotRegistered)),
        is_registered(state@) && req.agent_did@.len() != 0 && req.agent_did@ != state@.agent_did
            ==> (r matches Err(e) && e@ == (AgentErrorView::UnknownAgentDid { did: req.agent_did@ })),
        is_registered(state@) && (req.agent_did@.len() == 0 || req.agent_did@
            == state@.agent_did) ==> (r matches Ok(AgentInfoOutcome::Registered)),
{
    if string_is_empty(&state.agent_did) {
        return Ok(AgentInfoOutcome::NotRegistered);
    }
    if !string_is_empty(&req.agent_did) && !string_equals(&state.agent_did, req.agent_did.as_str()) {
        return Err(AgentError::UnknownAgentDid { did: req.agent_did.clone() });
    }
    Ok(AgentInfoOutcome::Registered)
}

/// The refusal, if any, that a status request earns before the state is read.
pub open spec fn status_request_error(req: UpdateStatusReq) -> Option<AgentErrorView> {
    if !valid_status(req.status@) {
        Some(AgentErrorView::InvalidStatus)
    } else {
        None
    }
}

/// The refusal, if any, that a status request earns.
pub open spec fn status_error(s: AgentView, req: UpdateStatusReq) -> Option<AgentErrorView> {
    if status_request_error(req) is Some {
        status_request_error(req)
    } else if !is_registered(s) {
        Some(AgentErrorView::NoAgentToUpdate)
    } else if s.agent_did != req.agent_did@ {
        Some(AgentErrorView::NotOwner)
    } else {
        None
    }
}

/// The state after a status request.
pub open spec fn status_next(s: AgentView, req: UpdateStatusReq) -> AgentView {
    if status_error(s, req) is Some {
        s
    } else {
        AgentView { status: req.status@, ..s }
    }
}

/// Checks a status request on its own, as the contract does before reading state.
pub fn check_status_request(req: &UpdateStatusReq) -> (r: Result<(), AgentError>)
    ensures
        match r {
            Ok(_) => status_request_error(*req) is None,
            Err(e) => status_request_error(*req) == Some(e@),
        },
{
    if !string_equals(&req.status, "active") && !string_equals(&req.status, "suspended") {
        return Err(AgentError::InvalidStatus);
    }
    Ok(())
}

/// Sets the agent's status; only the registered agent may do so.
pub fn update_status(state: &mut AgentState, req: &UpdateStatusReq) -> (r: Result<(), AgentError>)
    ensures
        final(state)@ == status_next(old(state)@, *req),
        match r {
            Ok(_) => status_error(old(state)@, *req) is None,
            Err(e) => status_error(old(state)@, *req) == Some(e@),
        },
{
    match check_status_request(req) {
        Err(e) => return Err(e),
        Ok(()) => {},
    }
    if string_is_empty(&state.agent_did) {
        return Err(AgentError::NoAgentToUpdate);
    }
    if !string_equals(&state.agent_did, req.agent_did.as_str()) {
        return Err(AgentError::NotOwner);
    }
    state.status = req.status.clone();
    Ok(())
}

// ---------------------------------------------------------------- answers

/// Answer to a registration when an agent is already registered.
pub fn already_registered_message(agent_did: &String) -> (s: String)
    ensures
        s@ == "Agent "@ + agent_did@ + " already registered"@,
{
    let mut s = String::from_str("Agent ");
    s.append(agent_did.as_str());
    s.append(" already registered");
    s
}

/// Answer to a successful registration.
pub fn registered_message(agent_did: &String) -> (s: String)
    ensures
        s@ == "Agent "@ + agent_did@ + " registered with 1 RBT stake"@,
{
    let mut s = String::from_str("Agent ");
    s.append(agent_did.as_str());
    s.append(" registered with 1 RBT stake");
    s
}

/// Answer to a recorded single activity.
pub fn activity_recorded_message(activity_type: &String, agent_did: &String, total: u64) -> (s: String)
    ensures
        s@ == "Activity '"@ + activity_type@ + "' recorded for agent "@ + agent_did@ + ". Total: "@
            + decimal(total as nat),
{
    let mut s = String::from_str("Activity '");
    s.append(activity_type.as_str());
    s.append("' recorded for agent ");
    s.append(agent_did.as_str());
    s.append(". Total: ");
    push_decimal(&mut s, total);
    s
}

/// Answer to a status change.
pub fn status_updated_message(agent_did: &String, status: &String) -> (s: String)
    ensures
        s@ == "Agent "@ + agent_did@ + " status updated to "@ + status@,
{
    let mut s = String::from_str("Agent ");
    s.append(agent_did.as_str());
    s.append(" status updated to ");
    s.append(status.as_str());
    s
}

// ---------------------------------------------------------------- laws

/// Law: the state never holds more than `MAX_BATCH_ROOTS` batch roots; the newest root
/// is always kept, and the roots kept are the most recent ones, oldest first.
pub proof fn lemma_batch_roots_window(roots: Seq<BatchRootView>, root: BatchRootView)
    requires
        roots.len() <= MAX_BATCH_ROOTS,
    ensures
        roots_after_push(roots, root).len() <= MAX_BATCH_ROOTS,
        roots_after_push(roots, root).len() == if roots.len() < MAX_BATCH_ROOTS {
            roots.len() + 1int
        } else {
            MAX_BATCH_ROOTS as int
        },
        roots_after_push(roots, root).last() == root,
        roots_after_push(roots, root) == roots.push(root).subrange(
            roots.len() + 1 - roots_after_push(roots, root).len(),
            roots.len() + 1int,
        ),
{
    let p = roots.push(root);
    assert(p.subrange(0, p.len() as int) =~= p);
    assert(p.drop_first() =~= p.subrange(1, p.len() as int));
}

/// Law: a batch that is accepted adds its activities to the count, counts one more
/// batch, moves the last-activity time to the batch's end, and keeps the batch-root
/// window within `MAX_BATCH_ROOTS` with the new root last.
pub proof fn lemma_accepted_batch_effect(s: AgentView, req: RecordActivityBatchReq)
    requires
        batch_error(s, req) is None,
        batch_fits(s, req),
        s.batch_roots.len() <= MAX_BATCH_ROOTS,
    ensures
        batch_next(s, req).activity_count == s.activity_count + req.activity_count,
        batch_next(s, req).batch_count == s.batch_count + 1,
        batch_next(s, req).last_activity_at == req.period_end,
        batch_next(s, req).batch_roots.len() <= MAX_BATCH_ROOTS,
        batch_next(s, req).batch_roots.last() == batch_root_of(req),
        batch_next(s, req).agent_did == s.agent_did,
        batch_next(s, req).status == s.status,
{
    lemma_batch_roots_window(s.batch_roots, batch_root_of(req));
}

/// Law: once an agent is registered, no request changes its DID, its name, its type,
/// its stake or its registration time.
pub proof fn lemma_registered_identity_is_fixed(
    s: AgentView,
    reg: RegisterAgentReq,
    batch: RecordActivityBatchReq,
    act: RecordActivityReq,
    st: UpdateStatusReq,
)
    requires
        is_registered(s),
    ensures
        register_next(s, reg) == s,
        batch_next(s, batch).agent_did == s.agent_did,
        activity_next(s, act).agent_did == s.agent_did,
        status_next(s, st).agent_did == s.agent_did,
        batch_next(s, batch).agent_name == s.agent_name && activity_next(s, act).agent_name
            == s.agent_name && status_next(s, st).agent_name == s.agent_name,
        batch_next(s, batch).agent_type == s.agent_type && activity_next(s, act).agent_type
            == s.agent_type && status_next(s, st).agent_type == s.agent_type,
        batch_next(s, batch).stake_amount_bits == s.stake_amount_bits && activity_next(
            s,
            act,
        ).stake_amount_bits == s.stake_amount_bits && status_next(s, st).stake_amount_bits
            == s.stake_amount_bits,
        batch_next(s, batch).registered_at == s.registered_at && activity_next(s, act).registered_at
            == s.registered_at && status_next(s, st).registered_at == s.registered_at,
{
}

/// Law: writes are accepted only from the registered agent; a request that names
/// another DID changes nothing and is answered with the mismatch.
pub proof fn lemma_foreign_did_is_rejected(
    s: AgentView,
    reg: RegisterAgentReq,
    batch: RecordActivityBatchReq,
    act: RecordActivityReq,
)
    requires
        is_registered(s),
    ensures
        register_request_error(reg) is None && reg.agent_did@ != s.agent_did ==> register_next(
            s,
            reg,
        ) == s && register_error(s, reg) == Some(
            AgentErrorView::DidMismatch { owner: s.agent_did, got: reg.agent_did@ },
        ),
        batch_request_error(batch) is None && batch.agent_did@ != s.agent_did ==> batch_next(
            s,
            batch,
        ) == s && batch_error(s, batch) == Some(
            AgentErrorView::DidMismatch { owner: s.agent_did, got: batch.agent_did@ },
        ),
        activity_request_error(act) is None && act.agent_did@ != s.agent_did ==> activity_next(
            s,
            act,
        ) == s && activity_error(s, act) == Some(
            AgentErrorView::DidMismatch { owner: s.agent_did, got: act.agent_did@ },
        ),
{
}

/// Law: a suspended agent records nothing: batches and single activities are
/// refused and leave the state unchanged.
pub proof fn lemma_suspended_agent_records_nothing(
    s: AgentView,
    batch: RecordActivityBatchReq,
    act: RecordActivityReq,
)
    requires
        s.status == "suspended"@,
    ensures
        batch_error(s, batch) is Some,
        batch_next(s, batch) == s,
        activity_error(s, act) is Some,
        activity_next(s, act) == s,
{
}

/// Law: a registered agent's status is always `active` or `suspended`.
pub proof fn lemma_status_stays_valid(s: AgentView, reg: RegisterAgentReq, st: UpdateStatusReq)
    ensures
        register_next(s, reg) != s ==> valid_status(register_next(s, reg).status),
        valid_status(s.status) ==> valid_status(status_next(s, st).status),
{
}

/// Law: registration is idempotent for the owner and closed to everyone else: after a
/// registration, registering again with the owner's DID is accepted and changes nothing,
/// and registering with another DID is refused with the mismatch and changes nothing.
pub proof fn lemma_register_idempotent(s: AgentView, first: RegisterAgentReq, second: RegisterAgentReq)
    requires
        register_error(s, first) is None,
    ensures
        is_registered(register_next(s, first)),
        register_next(register_next(s, first), second) == register_next(s, first),
        register_request_error(second) is None && second.agent_did@ == register_next(
            s,
            first,
        ).agent_did ==> register_error(register_next(s, first), second) is None,
        register_request_error(second) is None && second.agent_did@ != register_next(
            s,
            first,
        ).agent_did ==> register_error(register_next(s, first), second) == Some(
            AgentErrorView::DidMismatch {
                owner: register_next(s, first).agent_did,
                got: second.agent_did@,
            },
        ),
{
}

/// A request to the agent contract that may change its state.
pub enum AgentCall {
    Register(RegisterAgentReq),
    Batch(RecordActivityBatchReq),
    Activity(RecordActivityReq),
    Status(UpdateStatusReq),
}

/// The state after one call.
pub open spec fn agent_step(s: AgentView, c: AgentCall) -> AgentView {
    match c {
        AgentCall::Register(r) => register_next(s, r),
        AgentCall::Batch(r) => batch_next(s, r),
        AgentCall::Activity(r) => activity_next(s, r),
        AgentCall::Status(r) => status_next(s, r),
    }
}

/// The state after a sequence of calls, in order.
pub open spec fn agent_run(s: AgentView, calls: Seq<AgentCall>) -> AgentView
    decreases calls.len(),
{
    if calls.len() == 0 {
        s
    } else {
        agent_step(agent_run(s, calls.drop_last()), calls.last())
    }
}

/// Whether a call, made in state `s`, is an accepted request to set the status to `active`.
pub open spec fn reactivates(s: AgentView, c: AgentCall) -> bool {
    c matches AgentCall::Status(r) && status_error(s, r) is None && r.status@ == "active"@
}

/// Law: suspension lasts until the agent is set `active` again. After any sequence of
/// calls none of which is an accepted reactivation, a suspended registered agent is still
/// suspended, and so a batch or a single activity is refused and changes nothing.
pub proof fn lemma_suspension_persists(
    s: AgentView,
    calls: Seq<AgentCall>,
    batch: RecordActivityBatchReq,
    act: RecordActivityReq,
)
    requires
        is_registered(s),
        s.status == "suspended"@,
        forall|i: int| 0 <= i < calls.len() ==> !reactivates(#[trigger] agent_run(s, calls.take(i)), calls[i]),
    ensures
        is_registered(agent_run(s, calls)),
        agent_run(s, calls).status == "suspended"@,
        batch_error(agent_run(s, calls), batch) is Some,
        batch_next(agent_run(s, calls), batch) == agent_run(s, calls),
        activity_error(agent_run(s, calls), act) is Some,
        activity_next(agent_run(s, calls), act) == agent_run(s, calls),
    decreases calls.len(),
{
    if calls.len() > 0 {
        let d = calls.drop_last();
        assert forall|i: int| 0 <= i < d.len() implies !reactivates(#[trigger] agent_run(s, d.take(i)), d[i]) by {
            assert(d.take(i) =~= calls.take(i));
            assert(d[i] == calls[i]);
            assert(!reactivates(agent_run(s, calls.take(i)), calls[i]));
        }
        lemma_suspension_persists(s, d, batch, act);
        let n = calls.len() - 1;
        assert(calls.take(n) =~= d);
        assert(!reactivates(agent_run(s, calls.take(n)), calls[n]));
        let prev = agent_run(s, d);
        assert(agent_run(s, calls) == agent_step(prev, calls.last()));
        match calls.last() {
            AgentCall::Status(r) => {
                if status_error(prev, r) is None {
                    assert(valid_status(r.status@));
                    assert(r.status@ != "active"@);
                }
            },
            _ => {},
        }
    }
}

/// Law: an accepted batch appends its root to the window of batch roots, dropping the
/// oldest root exactly when the window already held `MAX_BATCH_ROOTS`; the newest root
/// is last and the window never exceeds `MAX_BATCH_ROOTS`.
pub proof fn lemma_batch_roots_after_accepted_batch(s: AgentView, req: RecordActivityBatchReq)
    requires
        batch_error(s, req) is None,
        s.batch_roots.len() <= MAX_BATCH_ROOTS,
    ensures
        batch_next(s, req).batch_roots == if s.batch_roots.len() == MAX_BATCH_ROOTS {
            s.batch_roots.push(batch_root_of(req)).drop_first()
        } else {
            s.batch_roots.push(batch_root_of(req))
        },
        batch_next(s, req).batch_roots.len() <= MAX_BATCH_ROOTS,
        batch_next(s, req).batch_roots.last() == batch_root_of(req),
{
    lemma_batch_roots_window(s.batch_roots, batch_root_of(req));
}

} // verus!
