use vstd::prelude::*;
use crate::decimal::{decimal, push_decimal};
use crate::stakers::{StakeInfo, StakeInfoView, StakerTable};
use crate::yield_math::{
    calculate_max_yield, calculate_yield, lemma_yield_monotone_in_blocks,
    lemma_yield_zero_when_any_input_zero, yield_fits, yield_fits_exec, yield_for, MAX_BLOCKS_STAKED,
};

verus! {

/// Annual yield rate, in percent, of a pool that was never initialized.
pub const DEFAULT_ANNUAL_YIELD_RATE: u64 = 10;

/// The staking pool: totals, the yield rate, and every staker's position.
pub struct StakingPool {
    pub total_staked: u64,
    /// Percent per year (5 means 5%).
    pub annual_yield_rate: u64,
    pub last_update_block: u64,
    pub stakers: StakerTable,
}

/// Mathematical value of a [`StakingPool`].
pub struct PoolView {
    pub total_staked: u64,
    pub annual_yield_rate: u64,
    pub last_update_block: u64,
    pub stakers: Map<Seq<char>, StakeInfoView>,
}

impl View for StakingPool {
    type V = PoolView;

    open spec fn view(&self) -> PoolView {
        PoolView {
            total_staked: self.total_staked,
            annual_yield_rate: self.annual_yield_rate,
            last_update_block: self.last_update_block,
            stakers: self.stakers@,
        }
    }
}

impl StakingPool {
    /// The pool's total equals the sum of its stakers' staked amounts.
    pub open spec fn consistent(&self) -> bool {
        self.total_staked == self.stakers.staked_sum()
    }
}

pub struct StakeRequest {
    pub staker_did: String,
    pub amount: u64,
    pub current_block: u64,
}

pub struct WithdrawRequest {
    pub staker_did: String,
    pub current_block: u64,
}

pub struct ClaimYieldRequest {
    pub staker_did: String,
    pub current_block: u64,
}

pub struct GetStakeInfoRequest {
    pub staker_did: String,
    pub current_block: u64,
}

pub struct InitializePoolRequest {
    pub annual_yield_rate: u64,
    pub current_block: u64,
}

pub struct GetPoolStatsRequest {
    pub current_block: u64,
}

/// Why a pool operation was refused.
#[derive(Debug, Clone, Copy, PartialEq, Eq)]
pub enum StakingError {
    ZeroAmount,
    AlreadyStaked,
    NoActiveStake,
    StakerNotFound,
    NoYieldToClaim,
}

/// The text the contract answers for each refusal.
pub open spec fn staking_error_text(e: StakingError) -> Seq<char> {
    match e {
        StakingError::ZeroAmount => "Stake amount must be positive"@,
        StakingError::AlreadyStaked => "User already has an active stake. Please withdraw first."@,
        StakingError::NoActiveStake => "No active stake found for this user"@,
        StakingError::StakerNotFound => "Staker not found"@,
        StakingError::NoYieldToClaim => "No yield tokens to claim"@,
    }
}

impl StakingError {
    /// The text the contract answers for this refusal.
    pub fn message(&self) -> (s: String)
        ensures
            s@ == staking_error_text(*self),
    {
        match self {
            StakingError::ZeroAmount => String::from_str("Stake amount must be positive"),
            StakingError::AlreadyStaked => String::from_str(
                "User already has an active stake. Please withdraw first.",
            ),
            StakingError::NoActiveStake => String::from_str("No active stake found for this user"),
            StakingError::StakerNotFound => String::from_str("Staker not found"),
            StakingError::NoYieldToClaim => String::from_str("No yield tokens to claim"),
        }
    }
}

/// Fungible-token mint that the host performs when a stake is opened.
pub struct MintOrder {
    pub did: String,
    pub ft_count: i32,
    pub ft_name: String,
    pub ft_num_start_index: i32,
    pub token_count: i32,
}

/// Fungible-token transfer that the host performs when yield or a stake is paid out.
pub struct TransferOrder {
    pub comment: String,
    pub ft_count: i32,
    pub ft_name: String,
    pub creator_did: String,
    pub receiver: String,
    pub sender: String,
}

/// What opening a stake needs: its yield token and the mint to request.
pub struct StakePlan {
    pub yield_token_id: String,
    pub yield_capacity: u64,
    pub mint: MintOrder,
}

/// What closing a stake pays, and the transfer to request.
pub struct WithdrawPlan {
    pub amount_staked: u64,
    pub yield_amount: u64,
    pub total_amount: u64,
    pub yield_token_id: String,
    pub transfer: TransferOrder,
}

/// What a yield claim pays, and the transfer to request.
pub struct ClaimPlan {
    pub yield_earned: u64,
    pub yield_token_id: String,
    pub remaining_stake: u64,
    pub transfer: TransferOrder,
}

/// A staker's position together with what it has earned at a given block.
pub struct StakeReport {
    pub amount_staked: u64,
    pub pending_yield_to_claim: u64,
    pub total_yield_if_withdrawn: u64,
    pub total_value: u64,
    pub stake_start_block: u64,
    pub last_claim_block: u64,
    pub yield_token_id: String,
    pub blocks_staked: u64,
}

/// Pool-wide figures.
pub struct PoolStats {
    pub total_staked: u64,
    pub annual_yield_rate: u64,
    pub total_stakers: usize,
    pub last_update_block: u64,
}

/// Name of the yield token minted for a stake: `RBTY_<did>_<amount>_<block>`.
pub open spec fn yield_token_name(did: Seq<char>, amount: u64, block: u64) -> Seq<char> {
    "RBTY_"@ + did + "_"@ + decimal(amount as nat) + "_"@ + decimal(block as nat)
}

/// Yield tokens minted for a stake: the stake plus its two-year yield.
pub open spec fn yield_capacity_of(amount: u64, rate: u64) -> int {
    amount + yield_for(amount as int, MAX_BLOCKS_STAKED as int, rate as int)
}

/// Yield a position has earned since its last claim.
pub open spec fn pending_yield(info: StakeInfoView, current_block: u64, rate: u64) -> int {
    yield_for(info.amount_staked as int, current_block - info.last_claim_block, rate as int)
}

/// Yield a position has earned since it was opened.
pub open spec fn yield_since_start(info: StakeInfoView, current_block: u64, rate: u64) -> int {
    yield_for(info.amount_staked as int, current_block - info.stake_start_block, rate as int)
}

/// What withdrawing a position pays: the stake plus the yield earned since it was opened.
pub open spec fn withdraw_payout(info: StakeInfoView, current_block: u64, rate: u64) -> int {
    info.amount_staked + yield_since_start(info, current_block, rate)
}

/// The pool after a stake is opened.
pub open spec fn pool_after_stake(
    p: PoolView,
    did: Seq<char>,
    amount: u64,
    block: u64,
    token_id: Seq<char>,
) -> PoolView {
    PoolView {
        total_staked: (p.total_staked + amount) as u64,
        stakers: p.stakers.insert(
            did,
            StakeInfoView {
                amount_staked: amount,
                yield_token_id: token_id,
                stake_start_block: block,
                last_claim_block: block,
            },
        ),
        ..p
    }
}

/// The pool after a stake is closed.
pub open spec fn pool_after_withdraw(p: PoolView, did: Seq<char>) -> PoolView {
    PoolView {
        total_staked: (p.total_staked - p.stakers[did].amount_staked) as u64,
        stakers: p.stakers.remove(did),
        ..p
    }
}

/// The pool after a yield claim.
pub open spec fn pool_after_claim(p: PoolView, did: Seq<char>, block: u64) -> PoolView {
    PoolView {
        stakers: p.stakers.insert(did, StakeInfoView { last_claim_block: block, ..p.stakers[did] }),
        ..p
    }
}

/// Opening this stake involves no arithmetic overflow.
pub open spec fn stake_fits(p: PoolView, did: Seq<char>, amount: u64) -> bool {
    amount == 0 || p.stakers.contains_key(did) || (yield_fits(
        amount,
        MAX_BLOCKS_STAKED,
        p.annual_yield_rate,
    ) && yield_capacity_of(amount, p.annual_yield_rate) <= u64::MAX)
}

/// Closing this stake involves no arithmetic overflow.
pub open spec fn withdraw_fits(p: PoolView, did: Seq<char>, current_block: u64) -> bool {
    p.stakers.contains_key(did) ==> {
        let info = p.stakers[did];
        &&& info.stake_start_block <= current_block
        &&& yield_fits(
            info.amount_staked,
            (current_block - info.stake_start_block) as u64,
            p.annual_yield_rate,
        )
        &&& withdraw_payout(info, current_block, p.annual_yield_rate) <= u64::MAX
    }
}

/// Claiming this yield involves no arithmetic overflow.
pub open spec fn claim_fits(p: PoolView, did: Seq<char>, current_block: u64) -> bool {
    p.stakers.contains_key(did) ==> {
        let info = p.stakers[did];
        &&& info.last_claim_block <= current_block
        &&& yield_fits(
            info.amount_staked,
            (current_block - info.last_claim_block) as u64,
            p.annual_yield_rate,
        )
    }
}

/// Reporting this position involves no arithmetic overflow.
pub open spec fn stake_info_fits(p: PoolView, did: Seq<char>, current_block: u64) -> bool {
    claim_fits(p, did, current_block) && withdraw_fits(p, did, current_block)
}

/// The pool a node starts from when nothing has been stored yet.
pub fn get_default_pool_state(current_block: u64) -> (p: StakingPool)
    ensures
        p.total_staked == 0,
        p.annual_yield_rate == DEFAULT_ANNUAL_YIELD_RATE,
        p.last_update_block == current_block,
        p.stakers@ == Map::<Seq<char>, StakeInfoView>::empty(),
        p.consistent(),
{
    StakingPool {
        total_staked: 0,
        annual_yield_rate: DEFAULT_ANNUAL_YIELD_RATE,
        last_update_block: current_block,
        stakers: StakerTable::new(),
    }
}

/// The pool to operate on: the stored one, if it could be read and decoded,
/// brought up to the current block; otherwise the default pool.
pub fn get_current_pool_state(stored: Option<StakingPool>, current_block: u64) -> (p: StakingPool)
    ensures
        match stored {
            Some(s) => p@ == PoolView { last_update_block: current_block, ..s@ } && p.consistent()
                == s.consistent(),
            None => p@ == get_default_pool_state_view(current_block),
        },
        p.last_update_block == current_block,
{
    match stored {
        Some(mut pool) => {
            pool.last_update_block = current_block;
            pool
        },
        None => get_default_pool_state(current_block),
    }
}

/// Value of the default pool.
pub open spec fn get_default_pool_state_view(current_block: u64) -> PoolView {
    PoolView {
        total_staked: 0,
        annual_yield_rate: DEFAULT_ANNUAL_YIELD_RATE,
        last_update_block: current_block,
        stakers: Map::empty(),
    }
}

/// A new, empty pool with the requested yield rate.
pub fn initialize_pool(req: &InitializePoolRequest) -> (p: StakingPool)
    ensures
        p.total_staked == 0,
        p.annual_yield_rate == req.annual_yield_rate,
        p.last_update_block == req.current_block,
        p.stakers@ == Map::<Seq<char>, StakeInfoView>::empty(),
        p.consistent(),
{
    StakingPool {
        total_staked: 0,
        annual_yield_rate: req.annual_yield_rate,
        last_update_block: req.current_block,
        stakers: StakerTable::new(),
    }
}

/// Tells whether `stake_rbt` can be called on this pool and request.
pub fn stake_rbt_fits(pool: &StakingPool, req: &StakeRequest) -> (b: bool)
    ensures
        b == stake_fits(pool@, req.staker_did@, req.amount),
{
    if req.amount == 0 || pool.stakers.contains_key(req.staker_did.as_str()) {
        return true;
    }
    if !yield_fits_exec(req.amount, MAX_BLOCKS_STAKED, pool.annual_yield_rate) {
        return false;
    }
    let max_yield = calculate_max_yield(req.amount, pool.annual_yield_rate);
    req.amount.checked_add(max_yield).is_some()
}

/// Decides whether a stake may be opened and, if so, names its yield token and
/// the mint of yield tokens (the stake plus its two-year yield) to request.
pub fn stake_rbt(pool: &StakingPool, req: &StakeRequest) -> (r: Result<StakePlan, StakingError>)
    requires
        stake_fits(pool@, req.staker_did@, req.amount),
    ensures
        req.amount == 0 ==> r == Err::<StakePlan, StakingError>(StakingError::ZeroAmount),
        req.amount != 0 && pool.stakers@.contains_key(req.staker_did@) ==> r == Err::<
            StakePlan,
            StakingError,
        >(StakingError::AlreadyStaked),
        req.amount != 0 && !pool.stakers@.contains_key(req.staker_did@) ==> match r {
            Ok(plan) => {
                let cap = yield_capacity_of(req.amount, pool.annual_yield_rate);
                &&& plan.yield_token_id@ == yield_token_name(
                    req.staker_did@,
                    req.amount,
                    req.current_block,
                )
                &&& plan.yield_capacity == cap
                &&& plan.mint.did@ == req.staker_did@
                &&& plan.mint.ft_count == cap as i32
                &&& plan.mint.ft_name@ == plan.yield_token_id@
                &&& plan.mint.ft_num_start_index == 0
                &&& plan.mint.token_count == cap as i32
            },
            Err(_) => false,
        },
{
    if req.amount == 0 {
        return Err(StakingError::ZeroAmount);
    }
    if pool.stakers.contains_key(req.staker_did.as_str()) {
        return Err(StakingError::AlreadyStaked);
    }
    let mut token_id = String::from_str("RBTY_");
    token_id.append(req.staker_did.as_str());
    token_id.append("_");
    push_decimal(&mut token_id, req.amount);
    token_id.append("_");
    push_decimal(&mut token_id, req.current_block);
    proof {
        assert(token_id@ =~= yield_token_name(req.staker_did@, req.amount, req.current_block));
    }
    let yield_capacity = req.amount + calculate_max_yield(req.amount, pool.annual_yield_rate);
    let count = #[verifier::truncate] (yield_capacity as i32);
    let mint = MintOrder {
        did: req.staker_did.clone(),
        ft_count: count,
        ft_name: token_id.clone(),
        ft_num_start_index: 0,
        token_count: count,
    };
    Ok(StakePlan { yield_token_id: token_id, yield_capacity, mint })
}

/// Records a stake once its yield tokens have been minted.
pub fn commit_stake(pool: &mut StakingPool, req: &StakeRequest, plan: &StakePlan)
    requires
        !old(pool).stakers@.contains_key(req.staker_did@),
        old(pool).total_staked + req.amount <= u64::MAX,
    ensures
        final(pool)@ == pool_after_stake(
            old(pool)@,
            req.staker_did@,
            req.amount,
            req.current_block,
            plan.yield_token_id@,
        ),
        old(pool).consistent() ==> final(pool).consistent(),
{
    let info = StakeInfo {
        amount_staked: req.amount,
        yield_token_id: plan.yield_token_id.clone(),
        stake_start_block: req.current_block,
        last_claim_block: req.current_block,
    };
    pool.stakers.insert(req.staker_did.clone(), info);
    pool.total_staked = pool.total_staked + req.amount;
}

fn transfer_to_staker(comment: String, count: u64, token_id: &String, did: &String) -> (t: TransferOrder)
    ensures
        t.comment == comment,
        t.ft_count == count as i32,
        t.ft_name@ == token_id@,
        t.creator_did@ == did@,
        t.receiver@ == did@,
        t.sender@ == "staking_contract"@,
{
    TransferOrder {
        comment,
        ft_count: #[verifier::truncate] (count as i32),
        ft_name: token_id.clone(),
        creator_did: did.clone(),
        receiver: did.clone(),
        sender: String::from_str("staking_contract"),
    }
}

/// Tells whether `withdraw_stake` can be called on this pool and request.
pub fn withdraw_stake_fits(pool: &StakingPool, req: &WithdrawRequest) -> (b: bool)
    ensures
        b == withdraw_fits(pool@, req.staker_did@, req.current_block),
{
    match pool.stakers.get(req.staker_did.as_str()) {
        None => true,
        Some(info) => {
            if info.stake_start_block > req.current_block {
                return false;
            }
            let blocks = req.current_block - info.stake_start_block;
            if !yield_fits_exec(info.amount_staked, blocks, pool.annual_yield_rate) {
                return false;
            }
            let y = calculate_yield(info.amount_staked, blocks, pool.annual_yield_rate);
            info.amount_staked.checked_add(y).is_some()
        },
    }
}

/// Decides what closing a stake pays: the stake plus the yield earned since it was
/// opened, and the transfer of yield tokens to request.
pub fn withdraw_stake(pool: &StakingPool, req: &WithdrawRequest) -> (r: Result<WithdrawPlan, StakingError>)
    requires
        withdraw_fits(pool@, req.staker_did@, req.current_block),
    ensures
        !pool.stakers@.contains_key(req.staker_did@) ==> r == Err::<WithdrawPlan, StakingError>(
            StakingError::NoActiveStake,
        ),
        pool.stakers@.contains_key(req.staker_did@) ==> match r {
            Ok(plan) => {
                let info = pool.stakers@[req.staker_did@];
                &&& plan.amount_staked == info.amount_staked
                &&& plan.yield_amount == yield_since_start(
                    info,
                    req.current_block,
                    pool.annual_yield_rate,
                )
                &&& plan.total_amount == withdraw_payout(
                    info,
                    req.current_block,
                    pool.annual_yield_rate,
                )
                &&& plan.yield_token_id@ == info.yield_token_id
                &&& plan.transfer.comment@ == "Withdrawing "@ + decimal(plan.amount_staked as nat)
                    + " RBT stake + "@ + decimal(plan.yield_amount as nat) + " yield"@
                &&& plan.transfer.ft_count == plan.total_amount as i32
                &&& plan.transfer.ft_name@ == info.yield_token_id
                &&& plan.transfer.creator_did@ == req.staker_did@
                &&& plan.transfer.receiver@ == req.staker_did@
                &&& plan.transfer.sender@ == "staking_contract"@
            },
            Err(_) => false,
        },
{
    match pool.stakers.get(req.staker_did.as_str()) {
        None => Err(StakingError::NoActiveStake),
        Some(info) => {
            let amount_staked = info.amount_staked;
            let blocks_staked = req.current_block - info.stake_start_block;
            let yield_amount = calculate_yield(amount_staked, blocks_staked, pool.annual_yield_rate);
            let total_amount = amount_staked + yield_amount;
            let mut comment = String::from_str("Withdrawing ");
            push_decimal(&mut comment, amount_staked);
            comment.append(" RBT stake + ");
            push_decimal(&mut comment, yield_amount);
            comment.append(" yield");
            let transfer = transfer_to_staker(
                comment,
                total_amount,
                &info.yield_token_id,
                &req.staker_did,
            );
            Ok(WithdrawPlan {
                amount_staked,
                yield_amount,
                total_amount,
                yield_token_id: info.yield_token_id.clone(),
                transfer,
            })
        },
    }
}

/// Removes a stake once its payout has been transferred.
pub fn commit_withdraw(pool: &mut StakingPool, staker_did: &String)
    requires
        old(pool).stakers@.contains_key(staker_did@),
        old(pool).total_staked >= old(pool).stakers@[staker_did@].amount_staked,
    ensures
        final(pool)@ == pool_after_withdraw(old(pool)@, staker_did@),
        old(pool).consistent() ==> final(pool).consistent(),
{
    let amount = match pool.stakers.get(staker_did.as_str()) {
        Some(info) => info.amount_staked,
        None => 0,
    };
    pool.stakers.remove(staker_did.as_str());
    pool.total_staked = pool.total_staked - amount;
}

/// Tells whether `claim_yield` can be called on this pool and request.
pub fn claim_yield_fits(pool: &StakingPool, req: &ClaimYieldRequest) -> (b: bool)
    ensures
        b == claim_fits(pool@, req.staker_did@, req.current_block),
{
    match pool.stakers.get(req.staker_did.as_str()) {
        None => true,
        Some(info) => {
            if info.last_claim_block > req.current_block {
                return false;
            }
            yield_fits_exec(
                info.amount_staked,
                req.current_block - info.last_claim_block,
                pool.annual_yield_rate,
            )
        },
    }
}

/// Decides what a yield claim pays: the yield earned since the last claim, and
/// the transfer of yield tokens to request. Nothing is paid out when that yield is zero.
pub fn claim_yield(pool: &StakingPool, req: &ClaimYieldRequest) -> (r: Result<ClaimPlan, StakingError>)
    requires
        claim_fits(pool@, req.staker_did@, req.current_block),
    ensures
        !pool.stakers@.contains_key(req.staker_did@) ==> r == Err::<ClaimPlan, StakingError>(
            StakingError::StakerNotFound,
        ),
        pool.stakers@.contains_key(req.staker_did@) && pending_yield(
            pool.stakers@[req.staker_did@],
            req.current_block,
            pool.annual_yield_rate,
        ) == 0 ==> r == Err::<ClaimPlan, StakingError>(StakingError::NoYieldToClaim),
        pool.stakers@.contains_key(req.staker_did@) && pending_yield(
            pool.stakers@[req.staker_did@],
            req.current_block,
            pool.annual_yield_rate,
        ) != 0 ==> match r {
            Ok(plan) => {
                let info = pool.stakers@[req.staker_did@];
                &&& plan.yield_earned == pending_yield(
                    info,
                    req.current_block,
                    pool.annual_yield_rate,
                )
                &&& plan.yield_token_id@ == info.yield_token_id
                &&& plan.remaining_stake == info.amount_staked
                &&& plan.transfer.comment@ == "Claiming "@ + decimal(plan.yield_earned as nat)
                    + " yield tokens"@
                &&& plan.transfer.ft_count == plan.yield_earned as i32
                &&& plan.transfer.ft_name@ == info.yield_token_id
                &&& plan.transfer.creator_did@ == req.staker_did@
                &&& plan.transfer.receiver@ == req.staker_did@
                &&& plan.transfer.sender@ == "staking_contract"@
            },
            Err(_) => false,
        },
{
    match pool.stakers.get(req.staker_did.as_str()) {
        None => Err(StakingError::StakerNotFound),
        Some(info) => {
            let blocks = req.current_block - info.last_claim_block;
            let yield_earned = calculate_yield(info.amount_staked, blocks, pool.annual_yield_rate);
            if yield_earned == 0 {
                return Err(StakingError::NoYieldToClaim);
            }
            let mut comment = String::from_str("Claiming ");
            push_decimal(&mut comment, yield_earned);
            comment.append(" yield tokens");
            let transfer = transfer_to_staker(
                comment,
                yield_earned,
                &info.yield_token_id,
                &req.staker_did,
            );
            Ok(ClaimPlan {
                yield_earned,
                yield_token_id: info.yield_token_id.clone(),
                remaining_stake: info.amount_staked,
                transfer,
            })
        },
    }
}

/// Records a yield claim once its yield tokens have been transferred.
pub fn commit_claim(pool: &mut StakingPool, req: &ClaimYieldRequest)
    requires
        old(pool).stakers@.contains_key(req.staker_did@),
    ensures
        final(pool)@ == pool_after_claim(old(pool)@, req.staker_did@, req.current_block),
        old(pool).consistent() ==> final(pool).consistent(),
{
    pool.stakers.set_last_claim_block(req.staker_did.as_str(), req.current_block);
}

/// Tells whether `get_stake_info` can be called on this pool and request.
pub fn get_stake_info_fits(pool: &StakingPool, req: &GetStakeInfoRequest) -> (b: bool)
    ensures
        b == stake_info_fits(pool@, req.staker_did@, req.current_block),
{
    let claim = ClaimYieldRequest {
        staker_did: req.staker_did.clone(),
        current_block: req.current_block,
    };
    let withdraw = WithdrawRequest {
        staker_did: req.staker_did.clone(),
        current_block: req.current_block,
    };
    claim_yield_fits(pool, &claim) && withdraw_stake_fits(pool, &withdraw)
}

/// A staker's position with the yield pending since its last claim and the yield
/// it would be paid if withdrawn now.
pub fn get_stake_info(pool: &StakingPool, req: &GetStakeInfoRequest) -> (r: Result<StakeReport, StakingError>)
    requires
        stake_info_fits(pool@, req.staker_did@, req.current_block),
    ensures
        !pool.stakers@.contains_key(req.staker_did@) ==> r == Err::<StakeReport, StakingError>(
            StakingError::StakerNotFound,
        ),
        pool.stakers@.contains_key(req.staker_did@) ==> match r {
            Ok(rep) => {
                let info = pool.stakers@[req.staker_did@];
                let rate = pool.annual_yield_rate;
                &&& rep.amount_staked == info.amount_staked
                &&& rep.pending_yield_to_claim == pending_yield(info, req.current_block, rate)
                &&& rep.total_yield_if_withdrawn == yield_since_start(
                    info,
                    req.current_block,
                    rate,
                )
                &&& rep.total_value == withdraw_payout(info, req.current_block, rate)
                &&& rep.stake_start_block == info.stake_start_block
                &&& rep.last_claim_block == info.last_claim_block
                &&& rep.yield_token_id@ == info.yield_token_id
                &&& rep.blocks_staked == req.current_block - info.stake_start_block
            },
            Err(_) => false,
        },
{
    match pool.stakers.get(req.staker_did.as_str()) {
        None => Err(StakingError::StakerNotFound),
        Some(info) => {
            let rate = pool.annual_yield_rate;
            let blocks_since_last_claim = req.current_block - info.last_claim_block;
            let pending = calculate_yield(info.amount_staked, blocks_since_last_claim, rate);
            let blocks_staked = req.current_block - info.stake_start_block;
            let total_yield = calculate_yield(info.amount_staked, blocks_staked, rate);
            Ok(StakeReport {
                amount_staked: info.amount_staked,
                pending_yield_to_claim: pending,
                total_yield_if_withdrawn: total_yield,
                total_value: info.amount_staked + total_yield,
                stake_start_block: info.stake_start_block,
                last_claim_block: info.last_claim_block,
                yield_token_id: info.yield_token_id.clone(),
                blocks_staked,
            })
        },
    }
}

/// Pool-wide figures: total staked, yield rate, number of stakers, last update block.
pub fn get_pool_stats(pool: &StakingPool) -> (s: PoolStats)
    ensures
        s.total_staked == pool.total_staked,
        s.annual_yield_rate == pool.annual_yield_rate,
        s.total_stakers == pool.stakers@.len(),
        s.last_update_block == pool.last_update_block,
{
    PoolStats {
        total_staked: pool.total_staked,
        annual_yield_rate: pool.annual_yield_rate,
        total_stakers: pool.stakers.len(),
        last_update_block: pool.last_update_block,
    }
}

// ---------------------------------------------------------------- answers

/// Answer to a pool initialization.
pub fn initialized_message(annual_yield_rate: u64) -> (s: String)
    ensures
        s@ == "Staking pool initialized with "@ + decimal(annual_yield_rate as nat)
            + "% annual yield rate"@,
{
    let mut s = String::from_str("Staking pool initialized with ");
    push_decimal(&mut s, annual_yield_rate);
    s.append("% annual yield rate");
    s
}

/// Answer to an accepted stake.
pub fn staked_message(amount: u64) -> (s: String)
    ensures
        s@ == "Successfully staked "@ + decimal(amount as nat) + " RBT and minted yield tokens"@,
{
    let mut s = String::from_str("Successfully staked ");
    push_decimal(&mut s, amount);
    s.append(" RBT and minted yield tokens");
    s
}

/// Answer to a completed withdrawal.
pub fn withdrawn_message(plan: &WithdrawPlan) -> (s: String)
    ensures
        s@ == "Successfully withdrew "@ + decimal(plan.total_amount as nat) + " total tokens ("@
            + decimal(plan.amount_staked as nat) + "RBT principal + "@ + decimal(
            plan.yield_amount as nat,
        ) + " yield)"@,
{
    let mut s = String::from_str("Successfully withdrew ");
    push_decimal(&mut s, plan.total_amount);
    s.append(" total tokens (");
    push_decimal(&mut s, plan.amount_staked);
    s.append("RBT principal + ");
    push_decimal(&mut s, plan.yield_amount);
    s.append(" yield)");
    s
}

/// Answer to a completed yield claim.
pub fn claimed_message(yield_earned: u64) -> (s: String)
    ensures
        s@ == "Successfully claimed "@ + decimal(yield_earned as nat) + " yield tokens"@,
{
    let mut s = String::from_str("Successfully claimed ");
    push_decimal(&mut s, yield_earned);
    s.append(" yield tokens");
    s
}

/// Law: opening a stake and then withdrawing it leaves the pool as it was.
pub proof fn lemma_stake_then_withdraw_restores_pool(
    p: PoolView,
    did: Seq<char>,
    amount: u64,
    block: u64,
    token_id: Seq<char>,
)
    requires
        !p.stakers.contains_key(did),
        p.total_staked + amount <= u64::MAX,
    ensures
        pool_after_withdraw(pool_after_stake(p, did, amount, block, token_id), did) == p,
{
    let q = pool_after_withdraw(pool_after_stake(p, did, amount, block, token_id), did);
    assert(q.stakers =~= p.stakers);
}

/// Law: a staker holds at most one position; once a stake is opened, a second
/// stake by the same DID is refused until it is withdrawn.
pub proof fn lemma_one_position_per_staker(
    p: PoolView,
    did: Seq<char>,
    amount: u64,
    block: u64,
    token_id: Seq<char>,
)
    ensures
        pool_after_stake(p, did, amount, block, token_id).stakers.contains_key(did),
        !pool_after_withdraw(p, did).stakers.contains_key(did),
{
}

/// Law: withdrawing a stake in the block in which it was opened pays back exactly the stake.
pub proof fn lemma_withdraw_in_stake_block_pays_principal(
    p: PoolView,
    did: Seq<char>,
    amount: u64,
    block: u64,
    token_id: Seq<char>,
)
    ensures
        withdraw_payout(
            pool_after_stake(p, did, amount, block, token_id).stakers[did],
            block,
            p.annual_yield_rate,
        ) == amount,
{
    lemma_yield_zero_when_any_input_zero(amount as int, 0, p.annual_yield_rate as int);
}

/// Law: right after a claim, no yield is pending for the claimant, so a second claim
/// at the same block is refused with `NoYieldToClaim` and pays nothing.
pub proof fn lemma_claim_clears_pending_yield(p: PoolView, did: Seq<char>, block: u64)
    requires
        p.stakers.contains_key(did),
    ensures
        pending_yield(pool_after_claim(p, did, block).stakers[did], block, p.annual_yield_rate)
            == 0,
{
    let info = pool_after_claim(p, did, block).stakers[did];
    lemma_yield_zero_when_any_input_zero(info.amount_staked as int, 0, p.annual_yield_rate as int);
}

/// Law: a claim changes neither the pool's total nor what a later withdrawal pays,
/// which is always measured from the block at which the stake was opened.
pub proof fn lemma_claim_keeps_withdraw_payout(p: PoolView, did: Seq<char>, block: u64, later: u64)
    requires
        p.stakers.contains_key(did),
    ensures
        pool_after_claim(p, did, block).total_staked == p.total_staked,
        withdraw_payout(pool_after_claim(p, did, block).stakers[did], later, p.annual_yield_rate)
            == withdraw_payout(p.stakers[did], later, p.annual_yield_rate),
{
}

/// Law: the yield pending for a position never exceeds what withdrawing it would pay
/// as yield, since the last claim is never earlier than the stake's opening.
pub proof fn lemma_pending_within_total_yield(info: StakeInfoView, current_block: u64, rate: u64)
    requires
        info.stake_start_block <= info.last_claim_block <= current_block,
    ensures
        pending_yield(info, current_block, rate) <= yield_since_start(info, current_block, rate),
{
    lemma_yield_monotone_in_blocks(
        info.amount_staked as int,
        rate as int,
        current_block - info.last_claim_block,
        current_block - info.stake_start_block,
    );
}

/// Law: the yield tokens minted when a stake is opened cover what withdrawing it pays
/// at any block within the two-year staking horizon.
pub proof fn lemma_minted_capacity_covers_withdrawal(info: StakeInfoView, current_block: u64, rate: u64)
    requires
        info.stake_start_block <= current_block,
        current_block - info.stake_start_block <= MAX_BLOCKS_STAKED,
    ensures
        withdraw_payout(info, current_block, rate) <= yield_capacity_of(info.amount_staked, rate),
{
    lemma_yield_monotone_in_blocks(
        info.amount_staked as int,
        rate as int,
        current_block - info.stake_start_block,
        MAX_BLOCKS_STAKED as int,
    );
}

/// The pool after a sequence of yield claims by one staker, at the given blocks in order.
pub open spec fn pool_after_claims(p: PoolView, did: Seq<char>, blocks: Seq<u64>) -> PoolView
    decreases blocks.len(),
{
    if blocks.len() == 0 {
        p
    } else {
        pool_after_claim(pool_after_claims(p, did, blocks.drop_last()), did, blocks.last())
    }
}

/// Law: a withdrawal pays the total value and the yield that a stake report gives at the
/// same block (both are the stake plus the yield since it was opened), however many
/// yield claims the staker has made since the report.
pub proof fn lemma_withdraw_pays_reported_value(p: PoolView, did: Seq<char>, blocks: Seq<u64>, b: u64)
    requires
        p.stakers.contains_key(did),
    ensures
        pool_after_claims(p, did, blocks).stakers.contains_key(did),
        pool_after_claims(p, did, blocks).total_staked == p.total_staked,
        pool_after_claims(p, did, blocks).annual_yield_rate == p.annual_yield_rate,
        withdraw_payout(pool_after_claims(p, did, blocks).stakers[did], b, p.annual_yield_rate)
            == withdraw_payout(p.stakers[did], b, p.annual_yield_rate),
        yield_since_start(pool_after_claims(p, did, blocks).stakers[did], b, p.annual_yield_rate)
            == yield_since_start(p.stakers[did], b, p.annual_yield_rate),
    decreases blocks.len(),
{
    if blocks.len() > 0 {
        lemma_withdraw_pays_reported_value(p, did, blocks.drop_last(), b);
    }
}

} // verus!
