//! What each operation does, stated directly over its inputs: which requests are
//! accepted, which refusal each other request earns, what an accepted request
//! changes, and the amounts it pays. Each law is written in terms of the request's
//! fields and plain arithmetic, independently of the definitions it constrains.

use vstd::prelude::*;
use crate::agent::{
    activity_error, activity_next, batch_error, batch_fits, batch_next, activity_fits,
    is_registered, unregistered_agent, agent_error_text, tx_ref_text, register_error, register_next, register_request_error, status_error,
    status_next, window_ending_at, AgentErrorView, AgentView, BatchRootView,
    RecordActivityBatchReq, RecordActivityReq, RegisterAgentReq, UpdateStatusReq,
    MAX_BATCH_ROOTS, ONE_RBT_STAKE_BITS, REPUTATION_EVERY, REPUTATION_WINDOW_MS,
};
use crate::decimal::decimal;
use crate::pool::{
    claim_fits, get_default_pool_state_view, pending_yield, pool_after_claim, pool_after_stake,
    pool_after_withdraw, stake_fits, withdraw_fits, withdraw_payout, yield_capacity_of,
    yield_since_start, yield_token_name, staking_error_text, PoolView, StakingError, StakingPool,
    DEFAULT_ANNUAL_YIELD_RATE,
};
use crate::stakers::{law_position_within_sum, StakeInfoView};
use crate::text::{is_empty_state_text, is_unicode_whitespace};
use crate::yield_math::{yield_for, BLOCKS_PER_YEAR, MAX_BLOCKS_STAKED};

verus! {

// ---------------------------------------------------------------- yield

/// Law: the yield of `stake` over `blocks` at `rate` percent a year is
/// `stake * rate * blocks / (100 * 3_153_600)`, rounded down; the horizon sized at
/// stake time is two years of 3_153_600 blocks.
pub proof fn law_yield_formula(stake: int, blocks: int, rate: int)
    ensures
        yield_for(stake, blocks, rate) == (stake * rate * blocks) / 315_360_000,
        BLOCKS_PER_YEAR == 3_153_600,
        MAX_BLOCKS_STAKED == 6_307_200,
{
}

/// Law: a claim at block `b` pays the yield of the stake over the blocks since the
/// last claim, `amount * rate * (b - last_claim) / 315_360_000`; a report at `b` gives
/// that pending yield, and a withdrawal at `b` pays the stake plus its yield over the
/// blocks since the stake was opened. The yield tokens minted with a stake are the
/// stake plus its yield over two years.
pub proof fn law_payout_amounts(info: StakeInfoView, b: u64, rate: u64, amount: u64)
    requires
        info.last_claim_block <= b,
        info.stake_start_block <= b,
    ensures
        pending_yield(info, b, rate) == (info.amount_staked * rate * (b - info.last_claim_block))
            / 315_360_000,
        yield_since_start(info, b, rate) == (info.amount_staked * rate * (b
            - info.stake_start_block)) / 315_360_000,
        withdraw_payout(info, b, rate) == info.amount_staked + (info.amount_staked * rate * (b
            - info.stake_start_block)) / 315_360_000,
        yield_capacity_of(amount, rate) == amount + (amount * rate * 6_307_200) / 315_360_000,
{
}

/// Law: a claim is refused for want of yield exactly when fewer than one token has
/// accrued since the last claim, i.e. when `amount * rate * (b - last_claim) < 315_360_000`.
pub proof fn law_claim_refused_only_without_yield(info: StakeInfoView, b: u64, rate: u64)
    requires
        info.last_claim_block <= b,
    ensures
        pending_yield(info, b, rate) == 0 <==> info.amount_staked * rate * (b
            - info.last_claim_block) < 315_360_000,
{
    let x = info.amount_staked * rate * (b - info.last_claim_block);
    assert(x >= 0) by (nonlinear_arith)
        requires x == info.amount_staked * rate * (b - info.last_claim_block), b >= info.last_claim_block;
    assert(x / 315_360_000 == 0 <==> x < 315_360_000) by (nonlinear_arith)
        requires x >= 0;
}

/// Law: the yield token of a stake is named `RBTY_<did>_<amount>_<block>`, the numbers
/// written in decimal.
pub proof fn law_yield_token_name(did: Seq<char>, amount: u64, block: u64)
    ensures
        yield_token_name(did, amount, block) == "RBTY_"@ + did + "_"@ + decimal(amount as nat)
            + "_"@ + decimal(block as nat),
{
}

/// Law: the arithmetic of an operation is in range whenever its products and sums fit
/// in a `u64`: these are the only inputs the pool operations exclude.
pub proof fn law_pool_operations_in_range(p: PoolView, did: Seq<char>, amount: u64, b: u64)
    ensures
        amount == 0 || p.stakers.contains_key(did) || (amount * p.annual_yield_rate * 6_307_200
            <= u64::MAX && amount + (amount * p.annual_yield_rate * 6_307_200) / 315_360_000
            <= u64::MAX) ==> stake_fits(p, did, amount),
        !p.stakers.contains_key(did) ==> claim_fits(p, did, b) && withdraw_fits(p, did, b),
        p.stakers.contains_key(did) && p.stakers[did].last_claim_block <= b
            && p.stakers[did].amount_staked * p.annual_yield_rate * (b
            - p.stakers[did].last_claim_block) <= u64::MAX ==> claim_fits(p, did, b),
        p.stakers.contains_key(did) && p.stakers[did].stake_start_block <= b
            && p.stakers[did].amount_staked * p.annual_yield_rate * (b
            - p.stakers[did].stake_start_block) <= u64::MAX && p.stakers[did].amount_staked + (
        p.stakers[did].amount_staked * p.annual_yield_rate * (b - p.stakers[did].stake_start_block))
            / 315_360_000 <= u64::MAX ==> withdraw_fits(p, did, b),
{
}

// ---------------------------------------------------------------- pool transitions

/// Law: opening a stake adds its amount to the total, records the position (the stake,
/// its token, and the opening block as both start and last claim), and leaves every
/// other staker, the rate and the last update block as they were.
pub proof fn law_stake_effect(p: PoolView, did: Seq<char>, amount: u64, b: u64, token: Seq<char>)
    requires
        p.total_staked + amount <= u64::MAX,
    ensures
        pool_after_stake(p, did, amount, b, token).total_staked == p.total_staked + amount,
        pool_after_stake(p, did, amount, b, token).annual_yield_rate == p.annual_yield_rate,
        pool_after_stake(p, did, amount, b, token).last_update_block == p.last_update_block,
        pool_after_stake(p, did, amount, b, token).stakers.contains_key(did),
        pool_after_stake(p, did, amount, b, token).stakers[did] == (StakeInfoView {
            amount_staked: amount,
            yield_token_id: token,
            stake_start_block: b,
            last_claim_block: b,
        }),
        forall|k: Seq<char>|
            k != did ==> (pool_after_stake(p, did, amount, b, token).stakers.contains_key(k)
                == p.stakers.contains_key(k) && (p.stakers.contains_key(k) ==> pool_after_stake(
                p,
                did,
                amount,
                b,
                token,
            ).stakers[k] == p.stakers[k])),
{
}

/// Law: a withdrawal removes the position, takes its stake off the total, and leaves
/// every other staker, the rate and the last update block as they were.
pub proof fn law_withdraw_effect(p: PoolView, did: Seq<char>)
    requires
        p.stakers.contains_key(did),
        p.total_staked >= p.stakers[did].amount_staked,
    ensures
        pool_after_withdraw(p, did).total_staked == p.total_staked - p.stakers[did].amount_staked,
        !pool_after_withdraw(p, did).stakers.contains_key(did),
        pool_after_withdraw(p, did).annual_yield_rate == p.annual_yield_rate,
        pool_after_withdraw(p, did).last_update_block == p.last_update_block,
        forall|k: Seq<char>|
            k != did ==> (pool_after_withdraw(p, did).stakers.contains_key(k)
                == p.stakers.contains_key(k) && (p.stakers.contains_key(k) ==> pool_after_withdraw(
                p,
                did,
            ).stakers[k] == p.stakers[k])),
{
}

/// Law: a claim at block `b` moves the claimant's last claim to `b` and changes nothing
/// else: not its stake, token or start, not the total, and no other staker.
pub proof fn law_claim_effect(p: PoolView, did: Seq<char>, b: u64)
    requires
        p.stakers.contains_key(did),
    ensures
        pool_after_claim(p, did, b).stakers.contains_key(did),
        pool_after_claim(p, did, b).stakers[did].last_claim_block == b,
        pool_after_claim(p, did, b).stakers[did].amount_staked == p.stakers[did].amount_staked,
        pool_after_claim(p, did, b).stakers[did].yield_token_id == p.stakers[did].yield_token_id,
        pool_after_claim(p, did, b).stakers[did].stake_start_block
            == p.stakers[did].stake_start_block,
        pool_after_claim(p, did, b).total_staked == p.total_staked,
        pool_after_claim(p, did, b).annual_yield_rate == p.annual_yield_rate,
        pool_after_claim(p, did, b).last_update_block == p.last_update_block,
        forall|k: Seq<char>|
            k != did ==> (pool_after_claim(p, did, b).stakers.contains_key(k)
                == p.stakers.contains_key(k) && (p.stakers.contains_key(k) ==> pool_after_claim(
                p,
                did,
                b,
            ).stakers[k] == p.stakers[k])),
{
}

/// Law: a pool that was never stored pays 10% a year, holds nothing, and is dated at
/// the current block.
pub proof fn law_default_pool(b: u64)
    ensures
        get_default_pool_state_view(b).annual_yield_rate == 10,
        DEFAULT_ANNUAL_YIELD_RATE == 10,
        get_default_pool_state_view(b).total_staked == 0,
        get_default_pool_state_view(b).last_update_block == b,
        get_default_pool_state_view(b).stakers.dom() == Set::<Seq<char>>::empty(),
{
}

// ---------------------------------------------------------------- agent registration

/// Law: a registration is accepted exactly when its DID and name are non-empty, its
/// type is exactly one of `trading`, `advisory`, `monitoring`, `general`, and either
/// no agent is registered or the request names the registered agent's DID.
pub proof fn law_register_acceptance(s: AgentView, req: RegisterAgentReq)
    ensures
        register_error(s, req) is None <==> req.agent_did@.len() > 0 && req.agent_name@.len() > 0
            && (req.agent_type@ == "trading"@ || req.agent_type@ == "advisory"@ || req.agent_type@
            == "monitoring"@ || req.agent_type@ == "general"@) && (s.agent_did.len() == 0
            || s.agent_did == req.agent_did@),
        register_request_error(req) is None ==> (req.agent_type@ == "trading"@ || req.agent_type@
            == "advisory"@ || req.agent_type@ == "monitoring"@ || req.agent_type@ == "general"@),
        req.agent_did@.len() == 0 ==> register_error(s, req) == Some(AgentErrorView::EmptyAgentDid),
        req.agent_did@.len() > 0 && req.agent_name@.len() == 0 ==> register_error(s, req) == Some(
            AgentErrorView::EmptyAgentName,
        ),
        req.agent_did@.len() > 0 && req.agent_name@.len() > 0 && !(req.agent_type@ == "trading"@
            || req.agent_type@ == "advisory"@ || req.agent_type@ == "monitoring"@ || req.agent_type@
            == "general"@) ==> register_error(s, req) == Some(AgentErrorView::InvalidAgentType),
{
}

/// Law: an accepted registration on a contract with no agent records the DID, name and
/// type, sets the status to `active`, the stake to 1.0 RBT, and the registration and
/// last-activity times to the request's timestamp, keeping the counters and roots;
/// every other registration request leaves the state as it was.
pub proof fn law_register_effect(s: AgentView, req: RegisterAgentReq)
    ensures
        register_error(s, req) is None && s.agent_did.len() == 0 ==> register_next(s, req) == (
        AgentView {
            agent_did: req.agent_did@,
            agent_name: req.agent_name@,
            agent_type: req.agent_type@,
            status: "active"@,
            stake_amount_bits: 0x3FF0_0000_0000_0000,
            registered_at: req.timestamp,
            last_activity_at: req.timestamp,
            ..s
        }),
        ONE_RBT_STAKE_BITS == 0x3FF0_0000_0000_0000,
        register_error(s, req) is Some || s.agent_did.len() > 0 ==> register_next(s, req) == s,
{
}

// ---------------------------------------------------------------- recording

/// Law: a batch is accepted exactly when its DID, hash and full JSON are non-empty, it
/// counts at least one activity, and it comes from the registered agent while that
/// agent is not suspended, whatever its period and dominant action.
pub proof fn law_batch_acceptance(s: AgentView, req: RecordActivityBatchReq)
    ensures
        batch_error(s, req) is None <==> req.agent_did@.len() > 0 && req.batch_hash@.len() > 0
            && req.activity_count > 0 && req.full_batch_json@.len() > 0 && s.agent_did.len() > 0
            && s.agent_did == req.agent_did@ && s.status != "suspended"@,
        req.agent_did@.len() == 0 ==> batch_error(s, req) == Some(AgentErrorView::EmptyAgentDid),
        req.agent_did@.len() > 0 && req.batch_hash@.len() == 0 ==> batch_error(s, req) == Some(
            AgentErrorView::EmptyBatchHash,
        ),
        req.agent_did@.len() > 0 && req.batch_hash@.len() > 0 && req.activity_count == 0
            ==> batch_error(s, req) == Some(AgentErrorView::ZeroActivityCount),
        req.agent_did@.len() > 0 && req.batch_hash@.len() > 0 && req.activity_count > 0
            && req.full_batch_json@.len() == 0 ==> batch_error(s, req) == Some(
            AgentErrorView::EmptyBatchJson,
        ),
        req.agent_did@.len() > 0 && req.batch_hash@.len() > 0 && req.activity_count > 0
            && req.full_batch_json@.len() > 0 && s.agent_did.len() == 0 ==> batch_error(s, req)
            == Some(AgentErrorView::NotRegistered),
        req.agent_did@.len() > 0 && req.batch_hash@.len() > 0 && req.activity_count > 0
            && req.full_batch_json@.len() > 0 && s.agent_did.len() > 0 && s.agent_did
            != req.agent_did@ ==> batch_error(s, req) == Some(
            AgentErrorView::DidMismatch { owner: s.agent_did, got: req.agent_did@ },
        ),
        req.agent_did@.len() > 0 && req.batch_hash@.len() > 0 && req.activity_count > 0
            && req.full_batch_json@.len() > 0 && s.agent_did.len() > 0 && s.agent_did
            == req.agent_did@ && s.status == "suspended"@ ==> batch_error(s, req) == Some(
            AgentErrorView::Suspended,
        ),
{
}

/// Law: an accepted batch appends the root `(hash, count, start, end, committed at end,
/// dominant action)` to the roots, dropping the oldest root when more than 500 would be
/// held, adds its activities to the activity count, counts one more batch, and moves
/// the last-activity time to the batch's end; nothing else changes. A refused batch
/// changes nothing.
pub proof fn law_batch_effect(s: AgentView, req: RecordActivityBatchReq)
    ensures
        batch_error(s, req) is None ==> batch_next(s, req) == (AgentView {
            batch_roots: if s.batch_roots.len() + 1 > 500 {
                s.batch_roots.push(
                    BatchRootView {
                        batch_hash: req.batch_hash@,
                        activity_count: req.activity_count,
                        period_start: req.period_start,
                        period_end: req.period_end,
                        committed_at: req.period_end,
                        dominant_action: req.dominant_action@,
                    },
                ).drop_first()
            } else {
                s.batch_roots.push(
                    BatchRootView {
                        batch_hash: req.batch_hash@,
                        activity_count: req.activity_count,
                        period_start: req.period_start,
                        period_end: req.period_end,
                        committed_at: req.period_end,
                        dominant_action: req.dominant_action@,
                    },
                )
            },
            activity_count: (s.activity_count + req.activity_count) as u64,
            batch_count: (s.batch_count + 1) as u64,
            last_activity_at: req.period_end,
            ..s
        }),
        MAX_BATCH_ROOTS == 500,
        batch_error(s, req) is Some ==> batch_next(s, req) == s,
        batch_error(s, req) is None && s.activity_count + req.activity_count <= u64::MAX
            && s.batch_count + 1 <= u64::MAX ==> batch_fits(s, req),
        batch_error(s, req) is Some ==> batch_fits(s, req),
{
}

/// Law: the reputation window ends at the given time and starts seven days
/// (604_800_000 ms) earlier, or at zero when the time is earlier than that.
pub proof fn law_reputation_window(ts: u64)
    ensures
        window_ending_at(ts).1 == ts,
        ts >= 604_800_000 ==> window_ending_at(ts).0 == ts - 604_800_000,
        ts < 604_800_000 ==> window_ending_at(ts).0 == 0,
        REPUTATION_WINDOW_MS == 604_800_000,
        REPUTATION_EVERY == 10,
{
}

/// Law: a single activity is accepted exactly when its DID and type are non-empty and
/// it comes from the registered agent while that agent is not suspended; an accepted
/// activity adds one to the activity count and moves the last-activity time to its
/// timestamp, and nothing else changes; a refused one changes nothing.
pub proof fn law_activity(s: AgentView, req: RecordActivityReq)
    ensures
        activity_error(s, req) is None <==> req.agent_did@.len() > 0 && req.activity_type@.len()
            > 0 && s.agent_did.len() > 0 && s.agent_did == req.agent_did@ && s.status
            != "suspended"@,
        req.agent_did@.len() == 0 ==> activity_error(s, req) == Some(AgentErrorView::EmptyAgentDid),
        req.agent_did@.len() > 0 && req.activity_type@.len() == 0 ==> activity_error(s, req) == Some(
            AgentErrorView::EmptyActivityType,
        ),
        activity_error(s, req) is None ==> activity_next(s, req) == (AgentView {
            activity_count: (s.activity_count + 1) as u64,
            last_activity_at: req.timestamp,
            ..s
        }),
        activity_error(s, req) is Some ==> activity_next(s, req) == s,
        activity_error(s, req) is Some || s.activity_count + 1 <= u64::MAX ==> activity_fits(s, req),
{
}

// ---------------------------------------------------------------- status

/// Law: a status request is accepted exactly when it asks for `active` or `suspended`
/// and comes from the registered agent, whatever the current status; an accepted
/// request sets the status to the one asked for and changes nothing else; a refused
/// one changes nothing.
pub proof fn law_status(s: AgentView, req: UpdateStatusReq)
    ensures
        status_error(s, req) is None <==> (req.status@ == "active"@ || req.status@
            == "suspended"@) && s.agent_did.len() > 0 && s.agent_did == req.agent_did@,
        !(req.status@ == "active"@ || req.status@ == "suspended"@) ==> status_error(s, req) == Some(
            AgentErrorView::InvalidStatus,
        ),
        (req.status@ == "active"@ || req.status@ == "suspended"@) && s.agent_did.len() == 0
            ==> status_error(s, req) == Some(AgentErrorView::NoAgentToUpdate),
        (req.status@ == "active"@ || req.status@ == "suspended"@) && s.agent_did.len() > 0
            && s.agent_did != req.agent_did@ ==> status_error(s, req) == Some(
            AgentErrorView::NotOwner,
        ),
        status_error(s, req) is None ==> status_next(s, req) == (AgentView {
            status: req.status@,
            ..s
        }),
        status_error(s, req) is Some ==> status_next(s, req) == s,
        is_registered(s) == (s.agent_did.len() > 0),
{
}

// ---------------------------------------------------------------- consistency and texts

/// Law: in a consistent pool the total covers every position, so a withdrawal never
/// takes the total below zero.
pub proof fn law_consistent_total_covers_positions(p: StakingPool, did: Seq<char>)
    requires
        p.consistent(),
        p.stakers@.contains_key(did),
    ensures
        p.total_staked >= p.stakers@[did].amount_staked,
{
    law_position_within_sum(p.stakers, did);
}

/// Law: an activity's transaction reference is the one given, or empty when none is.
pub proof fn law_tx_ref(t: Option<String>)
    ensures
        t is None ==> tx_ref_text(t) == Seq::<char>::empty(),
        t matches Some(r) ==> tx_ref_text(t) == r@,
{
}

/// Law: a stored state stands for "no agent yet" exactly when it is blank or the
/// four characters `null`.
pub proof fn law_empty_state_text(json: Seq<char>)
    ensures
        is_empty_state_text(json) <==> (forall|i: int|
            0 <= i < json.len() ==> is_unicode_whitespace(#[trigger] json[i])) || json == seq![
            'n',
            'u',
            'l',
            'l',
        ],
{
    reveal_strlit("null");
    if json == "null"@ {
        assert(json =~= seq!['n', 'u', 'l', 'l']);
    }
    if json == seq!['n', 'u', 'l', 'l'] {
        assert(json =~= "null"@);
    }
}

/// Law: the texts with which the pool answers its refusals.
pub proof fn law_staking_error_texts()
    ensures
        staking_error_text(StakingError::ZeroAmount) == "Stake amount must be positive"@,
        staking_error_text(StakingError::AlreadyStaked)
            == "User already has an active stake. Please withdraw first."@,
        staking_error_text(StakingError::NoActiveStake) == "No active stake found for this user"@,
        staking_error_text(StakingError::StakerNotFound) == "Staker not found"@,
        staking_error_text(StakingError::NoYieldToClaim) == "No yield tokens to claim"@,
{
}

/// Law: the texts with which the agent contract answers its refusals.
pub proof fn law_agent_error_texts(owner: Seq<char>, got: Seq<char>)
    ensures
        agent_error_text(AgentErrorView::EmptyAgentDid) == "agent_did must not be empty"@,
        agent_error_text(AgentErrorView::EmptyAgentName) == "agent_name must not be empty"@,
        agent_error_text(AgentErrorView::InvalidAgentType)
            == "agent_type must be one of: trading, advisory, monitoring, general"@,
        agent_error_text(AgentErrorView::EmptyBatchHash) == "batch_hash must not be empty"@,
        agent_error_text(AgentErrorView::ZeroActivityCount) == "activity_count must be > 0"@,
        agent_error_text(AgentErrorView::EmptyBatchJson) == "full_batch_json must not be empty"@,
        agent_error_text(AgentErrorView::EmptyActivityType) == "activity_type must not be empty"@,
        agent_error_text(AgentErrorView::NotRegistered)
            == "Agent not registered. Call register_agent first."@,
        agent_error_text(AgentErrorView::DidMismatch { owner, got })
            == "DID mismatch: contract owned by "@ + owner + ", got "@ + got,
        agent_error_text(AgentErrorView::Suspended)
            == "Agent is suspended and cannot record activities"@,
        agent_error_text(AgentErrorView::InvalidStatus) == "status must be 'active' or 'suspended'"@,
        agent_error_text(AgentErrorView::NoAgentToUpdate) == "Agent not registered"@,
        agent_error_text(AgentErrorView::NotOwner)
            == "Only the registered agent can update its status"@,
        agent_error_text(AgentErrorView::UnknownAgentDid { did: got }) == "No agent found for DID "@
            + got,
{
}

/// Law: a contract with no agent has empty identity and status, no stake, no
/// reputation, no activity and no batch roots.
pub proof fn law_unregistered_agent()
    ensures
        unregistered_agent().agent_did.len() == 0,
        unregistered_agent().agent_name.len() == 0,
        unregistered_agent().agent_type.len() == 0,
        unregistered_agent().status.len() == 0,
        unregistered_agent().stake_amount_bits == 0,
        unregistered_agent().reputation_score_bits == 0,
        unregistered_agent().registered_at == 0,
        unregistered_agent().activity_count == 0,
        unregistered_agent().last_activity_at == 0,
        unregistered_agent().batch_count == 0,
        unregistered_agent().batch_roots.len() == 0,
{
}

} // verus!
