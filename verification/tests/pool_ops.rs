use rbt_contracts::pool::{claimed_message, initialized_message, staked_message, withdrawn_message};
use rbt_contracts::pool::{
    claim_yield, claim_yield_fits, commit_claim, commit_stake, commit_withdraw,
    get_current_pool_state, get_default_pool_state, get_pool_stats, get_stake_info,
    get_stake_info_fits, initialize_pool, stake_rbt, stake_rbt_fits, withdraw_stake,
    withdraw_stake_fits, ClaimYieldRequest, GetStakeInfoRequest, InitializePoolRequest,
    StakeRequest, StakingError, StakingPool, WithdrawRequest, DEFAULT_ANNUAL_YIELD_RATE,
};
use rbt_contracts::stakers::{StakeInfo, StakerTable};
use rbt_contracts::yield_math::BLOCKS_PER_YEAR;

fn stake_req(did: &str, amount: u64, block: u64) -> StakeRequest {
    StakeRequest { staker_did: did.to_string(), amount, current_block: block }
}

fn staked_pool(did: &str, amount: u64, block: u64) -> StakingPool {
    let mut pool = get_default_pool_state(block);
    let req = stake_req(did, amount, block);
    let plan = stake_rbt(&pool, &req).unwrap();
    commit_stake(&mut pool, &req, &plan);
    pool
}

#[test]
fn default_pool_has_ten_percent_and_no_stakers() {
    let pool = get_default_pool_state(42);
    assert_eq!(pool.total_staked, 0);
    assert_eq!(pool.annual_yield_rate, DEFAULT_ANNUAL_YIELD_RATE);
    assert_eq!(pool.annual_yield_rate, 10);
    assert_eq!(pool.last_update_block, 42);
    assert_eq!(pool.stakers.len(), 0);
}

#[test]
fn initialize_pool_uses_requested_rate() {
    let pool = initialize_pool(&InitializePoolRequest { annual_yield_rate: 5, current_block: 100 });
    assert_eq!(pool.annual_yield_rate, 5);
    assert_eq!(pool.last_update_block, 100);
    assert_eq!(pool.total_staked, 0);
    assert_eq!(pool.stakers.len(), 0);
}

#[test]
fn current_pool_is_stored_pool_brought_up_to_date() {
    let stored = staked_pool("did:a", 100, 10);
    let pool = get_current_pool_state(Some(stored), 99);
    assert_eq!(pool.last_update_block, 99);
    assert_eq!(pool.total_staked, 100);
    assert!(pool.stakers.contains_key("did:a"));
    let fresh = get_current_pool_state(None, 7);
    assert_eq!(fresh.last_update_block, 7);
    assert_eq!(fresh.annual_yield_rate, 10);
    assert_eq!(fresh.stakers.len(), 0);
}

#[test]
fn stake_names_token_and_mints_stake_plus_two_year_yield() {
    let pool = get_default_pool_state(12000);
    let req = stake_req("did:rubix:user1", 100, 12000);
    let plan = stake_rbt(&pool, &req).unwrap();
    assert_eq!(plan.yield_token_id, "RBTY_did:rubix:user1_100_12000");
    assert_eq!(plan.yield_capacity, 120);
    assert_eq!(plan.mint.did, "did:rubix:user1");
    assert_eq!(plan.mint.ft_name, plan.yield_token_id);
    assert_eq!(plan.mint.ft_count, 120);
    assert_eq!(plan.mint.token_count, 120);
    assert_eq!(plan.mint.ft_num_start_index, 0);
}

#[test]
fn stake_records_position_and_total() {
    let pool = staked_pool("user1", 100, 12000);
    assert_eq!(pool.total_staked, 100);
    assert_eq!(pool.stakers.len(), 1);
    let info = pool.stakers.get("user1").unwrap();
    assert_eq!(info.amount_staked, 100);
    assert_eq!(info.yield_token_id, "RBTY_user1_100_12000");
    assert_eq!(info.stake_start_block, 12000);
    assert_eq!(info.last_claim_block, 12000);
}

#[test]
fn zero_stake_is_refused() {
    let pool = get_default_pool_state(1);
    let r = stake_rbt(&pool, &stake_req("a", 0, 1));
    assert_eq!(r.err(), Some(StakingError::ZeroAmount));
    assert_eq!(StakingError::ZeroAmount.message(), "Stake amount must be positive");
}

#[test]
fn second_stake_by_same_staker_is_refused() {
    let pool = staked_pool("a", 100, 1);
    let r = stake_rbt(&pool, &stake_req("a", 50, 2));
    assert_eq!(r.err(), Some(StakingError::AlreadyStaked));
    assert_eq!(
        StakingError::AlreadyStaked.message(),
        "User already has an active stake. Please withdraw first."
    );
    assert!(stake_rbt(&pool, &stake_req("b", 50, 2)).is_ok());
}

#[test]
fn mint_count_wraps_like_an_i32_cast() {
    let pool = initialize_pool(&InitializePoolRequest { annual_yield_rate: 0, current_block: 0 });
    let plan = stake_rbt(&pool, &stake_req("big", 3_000_000_000, 0)).unwrap();
    assert_eq!(plan.yield_capacity, 3_000_000_000);
    assert_eq!(plan.mint.ft_count, 3_000_000_000u64 as i32);
}

#[test]
fn stake_overflow_is_detected() {
    let pool = get_default_pool_state(0);
    assert!(stake_rbt_fits(&pool, &stake_req("a", 100, 0)));
    assert!(!stake_rbt_fits(&pool, &stake_req("a", u64::MAX / 1000, 0)));
    assert!(stake_rbt_fits(&pool, &stake_req("a", 0, 0)));
}

#[test]
fn withdraw_without_stake_is_refused() {
    let pool = get_default_pool_state(1);
    let r = withdraw_stake(&pool, &WithdrawRequest { staker_did: "x".to_string(), current_block: 5 });
    assert_eq!(r.err(), Some(StakingError::NoActiveStake));
    assert_eq!(StakingError::NoActiveStake.message(), "No active stake found for this user");
}

#[test]
fn withdraw_in_stake_block_returns_principal() {
    let pool = staked_pool("u", 100, 500);
    let plan = withdraw_stake(&pool, &WithdrawRequest { staker_did: "u".to_string(), current_block: 500 })
        .unwrap();
    assert_eq!(plan.amount_staked, 100);
    assert_eq!(plan.yield_amount, 0);
    assert_eq!(plan.total_amount, 100);
    assert_eq!(plan.transfer.comment, "Withdrawing 100 RBT stake + 0 yield");
}

#[test]
fn withdraw_after_a_year_pays_stake_and_yield() {
    let pool = staked_pool("u", 1000, 12000);
    let req = WithdrawRequest { staker_did: "u".to_string(), current_block: 12000 + BLOCKS_PER_YEAR };
    assert!(withdraw_stake_fits(&pool, &req));
    let plan = withdraw_stake(&pool, &req).unwrap();
    assert_eq!(plan.yield_amount, 100);
    assert_eq!(plan.total_amount, 1100);
    assert_eq!(plan.yield_token_id, "RBTY_u_1000_12000");
    assert_eq!(plan.transfer.comment, "Withdrawing 1000 RBT stake + 100 yield");
    assert_eq!(plan.transfer.ft_count, 1100);
    assert_eq!(plan.transfer.ft_name, "RBTY_u_1000_12000");
    assert_eq!(plan.transfer.creator_did, "u");
    assert_eq!(plan.transfer.receiver, "u");
    assert_eq!(plan.transfer.sender, "staking_contract");
}

#[test]
fn withdraw_before_stake_block_is_out_of_range() {
    let pool = staked_pool("u", 1000, 12000);
    let req = WithdrawRequest { staker_did: "u".to_string(), current_block: 11999 };
    assert!(!withdraw_stake_fits(&pool, &req));
    let other = WithdrawRequest { staker_did: "nobody".to_string(), current_block: 0 };
    assert!(withdraw_stake_fits(&pool, &other));
}

#[test]
fn stake_then_withdraw_restores_pool() {
    let mut pool = staked_pool("a", 300, 1);
    let req = stake_req("b", 200, 5);
    let plan = stake_rbt(&pool, &req).unwrap();
    commit_stake(&mut pool, &req, &plan);
    assert_eq!(pool.total_staked, 500);
    assert_eq!(pool.stakers.len(), 2);
    commit_withdraw(&mut pool, &"b".to_string());
    assert_eq!(pool.total_staked, 300);
    assert_eq!(pool.stakers.len(), 1);
    assert!(!pool.stakers.contains_key("b"));
    assert_eq!(pool.stakers.get("a").unwrap().amount_staked, 300);
    let again = stake_rbt(&pool, &stake_req("b", 10, 6));
    assert!(again.is_ok());
}

#[test]
fn claim_without_stake_is_refused() {
    let pool = get_default_pool_state(1);
    let r = claim_yield(&pool, &ClaimYieldRequest { staker_did: "x".to_string(), current_block: 5 });
    assert_eq!(r.err(), Some(StakingError::StakerNotFound));
    assert_eq!(StakingError::StakerNotFound.message(), "Staker not found");
}

#[test]
fn claim_with_nothing_earned_is_refused() {
    let pool = staked_pool("u", 100, 10);
    let r = claim_yield(&pool, &ClaimYieldRequest { staker_did: "u".to_string(), current_block: 10 });
    assert_eq!(r.err(), Some(StakingError::NoYieldToClaim));
    assert_eq!(StakingError::NoYieldToClaim.message(), "No yield tokens to claim");
    // one block earns less than one token
    let r = claim_yield(&pool, &ClaimYieldRequest { staker_did: "u".to_string(), current_block: 11 });
    assert_eq!(r.err(), Some(StakingError::NoYieldToClaim));
}

#[test]
fn claim_pays_yield_since_last_claim_and_resets_pending() {
    let mut pool = staked_pool("u", 1000, 0);
    let req = ClaimYieldRequest { staker_did: "u".to_string(), current_block: BLOCKS_PER_YEAR };
    assert!(claim_yield_fits(&pool, &req));
    let plan = claim_yield(&pool, &req).unwrap();
    assert_eq!(plan.yield_earned, 100);
    assert_eq!(plan.remaining_stake, 1000);
    assert_eq!(plan.yield_token_id, "RBTY_u_1000_0");
    assert_eq!(plan.transfer.comment, "Claiming 100 yield tokens");
    assert_eq!(plan.transfer.ft_count, 100);
    assert_eq!(plan.transfer.sender, "staking_contract");
    commit_claim(&mut pool, &req);
    assert_eq!(pool.total_staked, 1000);
    assert_eq!(pool.stakers.get("u").unwrap().last_claim_block, BLOCKS_PER_YEAR);
    assert_eq!(pool.stakers.get("u").unwrap().stake_start_block, 0);

    let info_req = GetStakeInfoRequest { staker_did: "u".to_string(), current_block: BLOCKS_PER_YEAR };
    assert!(get_stake_info_fits(&pool, &info_req));
    let rep = get_stake_info(&pool, &info_req).unwrap();
    assert_eq!(rep.pending_yield_to_claim, 0);
    // a claim does not change what withdrawing pays: yield is measured from the stake's start
    assert_eq!(rep.total_yield_if_withdrawn, 100);
    assert_eq!(rep.total_value, 1100);
    assert_eq!(rep.blocks_staked, BLOCKS_PER_YEAR);
    assert_eq!(rep.last_claim_block, BLOCKS_PER_YEAR);

    let second = claim_yield(&pool, &ClaimYieldRequest { staker_did: "u".to_string(), current_block: BLOCKS_PER_YEAR });
    assert_eq!(second.err(), Some(StakingError::NoYieldToClaim));
}

#[test]
fn stake_info_reports_pending_and_total_yield() {
    let pool = staked_pool("u", 2000, 100);
    let rep = get_stake_info(
        &pool,
        &GetStakeInfoRequest { staker_did: "u".to_string(), current_block: 100 + BLOCKS_PER_YEAR / 2 },
    )
    .unwrap();
    assert_eq!(rep.amount_staked, 2000);
    assert_eq!(rep.pending_yield_to_claim, 100);
    assert_eq!(rep.total_yield_if_withdrawn, 100);
    assert_eq!(rep.total_value, 2100);
    assert_eq!(rep.stake_start_block, 100);
    assert_eq!(rep.yield_token_id, "RBTY_u_2000_100");
    let missing = get_stake_info(&pool, &GetStakeInfoRequest { staker_did: "v".to_string(), current_block: 0 });
    assert_eq!(missing.err(), Some(StakingError::StakerNotFound));
}

#[test]
fn pool_stats_count_stakers() {
    let mut pool = staked_pool("a", 10, 1);
    let req = stake_req("b", 20, 2);
    let plan = stake_rbt(&pool, &req).unwrap();
    commit_stake(&mut pool, &req, &plan);
    let stats = get_pool_stats(&pool);
    assert_eq!(stats.total_staked, 30);
    assert_eq!(stats.total_stakers, 2);
    assert_eq!(stats.annual_yield_rate, 10);
    assert_eq!(stats.last_update_block, 1);
}

#[test]
fn staker_table_behaves_like_a_map() {
    let mut t = StakerTable::new();
    let info = |amount: u64| StakeInfo {
        amount_staked: amount,
        yield_token_id: format!("tok{}", amount),
        stake_start_block: 1,
        last_claim_block: 1,
    };
    t.insert("a".to_string(), info(1));
    t.insert("b".to_string(), info(2));
    t.insert("a".to_string(), info(3));
    assert_eq!(t.len(), 2);
    assert_eq!(t.get("a").unwrap().amount_staked, 3);
    assert_eq!(t.get("a").unwrap().copy().yield_token_id, "tok3");
    t.set_last_claim_block("b", 9);
    assert_eq!(t.get("b").unwrap().last_claim_block, 9);
    let mut seen: Vec<String> = (0..t.len()).map(|i| t.entry_at(i).staker_did.clone()).collect();
    seen.sort();
    assert_eq!(seen, vec!["a".to_string(), "b".to_string()]);
    t.remove("a");
    t.remove("zzz");
    assert_eq!(t.len(), 1);
    assert!(t.get("a").is_none());
    assert!(t.contains_key("b"));
}

#[test]
fn pool_answers_name_the_amounts() {
    assert_eq!(initialized_message(5), "Staking pool initialized with 5% annual yield rate");
    assert_eq!(staked_message(100), "Successfully staked 100 RBT and minted yield tokens");
    assert_eq!(claimed_message(7), "Successfully claimed 7 yield tokens");
    let pool = staked_pool("u", 1000, 0);
    let plan = withdraw_stake(&pool, &WithdrawRequest { staker_did: "u".to_string(), current_block: BLOCKS_PER_YEAR })
        .unwrap();
    assert_eq!(withdrawn_message(&plan), "Successfully withdrew 1100 total tokens (1000RBT principal + 100 yield)");
}

#[test]
fn minted_capacity_covers_withdrawal_within_two_years() {
    let pool = staked_pool("u", 5000, 10);
    let req = stake_req("w", 5000, 10);
    let plan = stake_rbt(&pool, &req).unwrap();
    for later in [10u64, 10 + BLOCKS_PER_YEAR, 10 + 2 * BLOCKS_PER_YEAR] {
        let w = withdraw_stake(&pool, &WithdrawRequest { staker_did: "u".to_string(), current_block: later }).unwrap();
        assert!(w.total_amount <= plan.yield_capacity);
    }
    let w = withdraw_stake(&pool, &WithdrawRequest { staker_did: "u".to_string(), current_block: 10 + 2 * BLOCKS_PER_YEAR }).unwrap();
    assert_eq!(w.total_amount, plan.yield_capacity);
}

#[test]
fn withdrawal_pays_reported_value_even_after_claims() {
    let mut pool = staked_pool("u", 1000, 0);
    let b = 2 * BLOCKS_PER_YEAR;
    let rep = get_stake_info(&pool, &GetStakeInfoRequest { staker_did: "u".to_string(), current_block: b }).unwrap();
    for at in [BLOCKS_PER_YEAR / 2, BLOCKS_PER_YEAR, b] {
        let c = ClaimYieldRequest { staker_did: "u".to_string(), current_block: at };
        claim_yield(&pool, &c).unwrap();
        commit_claim(&mut pool, &c);
    }
    let plan = withdraw_stake(&pool, &WithdrawRequest { staker_did: "u".to_string(), current_block: b }).unwrap();
    assert_eq!(plan.total_amount, rep.total_value);
    assert_eq!(plan.yield_amount, rep.total_yield_if_withdrawn);
    assert_eq!(plan.transfer.ft_count as u64, rep.total_value);
    assert_eq!(plan.total_amount, 1200);
}
