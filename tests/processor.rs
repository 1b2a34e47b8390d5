use multihub_swap::address::{
    find_liquidity_token_address, find_vault_token_address,
    check_derived_address, find_authority_bump, find_liquidity_contribution_address,
    find_liquidity_contribution_bump, find_program_authority_address, find_program_state_address,
    Address,
};
use multihub_swap::contribution::{LiquidityContribution, LIQUIDITY_CONTRIBUTION_LEN};
use multihub_swap::error::MultiHubSwapError;
use multihub_swap::instruction::RateParameters;
use multihub_swap::math::integer_sqrt;
use multihub_swap::processor::{
    process_buy_and_distribute, process_claim_rewards, process_close_program, process_contribute,
    process_initialize, process_repair_program_state, process_sol_to_yot_swap, process_swap,
    process_update_parameters, process_withdraw_liquidity, quote_output,
    process_add_liquidity_from_central_wallet, proportional_amount, process_yot_to_sol_swap,
    process_create_liquidity_account, process_sol_to_yot_swap_immediate,
};
use multihub_swap::state::{ProgramState, PROGRAM_STATE_LEGACY_LEN, PROGRAM_STATE_LEN};
use solana_program::pubkey::Pubkey;

const PROGRAM: [u8; 32] = [42u8; 32];

fn program_id() -> Address {
    Address::new_from_array(PROGRAM)
}

fn admin() -> Address {
    Address::new_from_array([1u8; 32])
}

fn user() -> Address {
    Address::new_from_array([7u8; 32])
}

fn state_address() -> Address {
    find_program_state_address(&program_id()).unwrap().0
}

fn authority_address() -> Address {
    find_program_authority_address(&program_id()).unwrap().0
}

fn ledger_address(owner: &Address) -> Address {
    find_liquidity_contribution_address(owner, &program_id()).unwrap().0
}

fn scenario_rates() -> RateParameters {
    RateParameters {
        lp_contribution_rate: 2000,
        yos_cashback_rate: 500,
        admin_fee_rate: 10,
        swap_fee_rate: 30,
        referral_rate: 50,
    }
}

fn initialized_state_bytes() -> Vec<u8> {
    let plan = process_initialize(
        &program_id(),
        &admin(),
        true,
        &state_address(),
        &[],
        &Address::new_from_array([4u8; 32]),
        &Address::new_from_array([2u8; 32]),
        &Address::new_from_array([3u8; 32]),
        None,
        Some(scenario_rates()),
    )
    .unwrap();
    let mut data = vec![0u8; PROGRAM_STATE_LEN];
    plan.state.pack(&mut data).unwrap();
    data
}

#[test]
fn derived_addresses_match_the_runtime() {
    let pid = Pubkey::new_from_array(PROGRAM);
    let (state, state_bump) = Pubkey::find_program_address(&[b"state"], &pid);
    let (authority, authority_bump) = Pubkey::find_program_address(&[b"authority"], &pid);
    let owner = Pubkey::new_from_array([7u8; 32]);
    let (ledger, ledger_bump) = Pubkey::find_program_address(&[b"liq", owner.as_ref()], &pid);
    let s = find_program_state_address(&program_id()).unwrap();
    assert_eq!(s, (Address::new_from_array(state.to_bytes()), state_bump));
    assert_ne!(s.0, program_id());
    let a = find_program_authority_address(&program_id()).unwrap();
    assert_eq!(a, (Address::new_from_array(authority.to_bytes()), authority_bump));
    assert_eq!(find_authority_bump(&program_id()), Ok(authority_bump));
    let l = find_liquidity_contribution_address(&user(), &program_id()).unwrap();
    assert_eq!(l, (Address::new_from_array(ledger.to_bytes()), ledger_bump));
    assert_eq!(find_liquidity_contribution_bump(&program_id(), &user()), Ok(ledger_bump));
    assert_ne!(ledger_address(&user()), ledger_address(&admin()));
}

#[test]
fn derivation_is_deterministic() {
    assert_eq!(find_program_state_address(&program_id()), find_program_state_address(&program_id()));
    assert_eq!(
        find_liquidity_contribution_address(&user(), &program_id()),
        find_liquidity_contribution_address(&user(), &program_id())
    );
}

#[test]
fn supplied_address_must_match_derived() {
    let found = find_program_state_address(&program_id());
    let bump = found.unwrap().1;
    assert_eq!(check_derived_address(found, &state_address()), Ok(bump));
    assert_eq!(
        check_derived_address(found, &user()),
        Err(MultiHubSwapError::InvalidAccountData)
    );
    assert_eq!(check_derived_address(None, &user()), Err(MultiHubSwapError::InvalidAccountData));
}

#[test]
fn initialize_checks_and_defaults() {
    let state = ProgramState::unpack(&initialized_state_bytes()).unwrap();
    assert_eq!(state.admin, admin());
    assert_eq!(state.lp_contribution_rate, 2000);
    assert_eq!(state.admin_fee_rate, 10);
    assert_eq!(state.yos_cashback_rate, 500);
    assert_eq!(state.swap_fee_rate, 30);
    assert_eq!(state.referral_rate, 50);
    assert_eq!(state.liquidity_wallet, Address::new_from_array([4u8; 32]));
    assert_eq!(state.liquidity_threshold, 100_000_000);
    let wallet = Address::new_from_array([4u8; 32]);
    let mint = Address::new_from_array([2u8; 32]);
    let legacy = process_initialize(
        &program_id(), &admin(), true, &state_address(), &[], &wallet, &mint, &mint, None, None,
    )
    .unwrap();
    assert_eq!(legacy.state.lp_contribution_rate, 2000);
    assert_eq!(legacy.state.yos_cashback_rate, 500);
    assert_eq!(legacy.state.swap_fee_rate, 100);
    assert_eq!(
        process_initialize(&program_id(), &admin(), false, &state_address(), &[], &wallet, &mint, &mint, None, None)
            .unwrap_err(),
        MultiHubSwapError::MissingSignature
    );
    assert_eq!(
        process_initialize(&program_id(), &admin(), true, &user(), &[], &wallet, &mint, &mint, None, None)
            .unwrap_err(),
        MultiHubSwapError::InvalidAccountData
    );
    assert_eq!(
        process_initialize(&program_id(), &admin(), true, &state_address(), &[0u8; 176], &wallet, &mint, &mint, None, None)
            .unwrap_err(),
        MultiHubSwapError::AlreadyInitialized
    );
    let mut too_high = scenario_rates();
    too_high.lp_contribution_rate = 5001;
    assert_eq!(
        process_initialize(&program_id(), &admin(), true, &state_address(), &[], &wallet, &mint, &mint, None, Some(too_high))
            .unwrap_err(),
        MultiHubSwapError::InvalidParameter
    );
}

#[test]
fn buy_and_distribute_scenario_records_liquidity_part() {
    let state = initialized_state_bytes();
    let plan = process_buy_and_distribute(
        &program_id(),
        &user(),
        true,
        &state_address(),
        &state,
        &authority_address(),
        &ledger_address(&user()),
        &[],
        1_000_000,
        1_000,
    )
    .unwrap();
    assert_eq!(plan.distribution.user_amount, 750_000);
    assert_eq!(plan.distribution.liquidity_amount, 200_000);
    assert_eq!(plan.distribution.reward_amount, 50_000);
    assert!(plan.created);
    assert_eq!(plan.ledger.contributed_amount, 200_000);
    assert_eq!(plan.ledger.user, user());
    assert_eq!(plan.ledger.start_timestamp, 1_000);
    assert_eq!(plan.ledger_bump, find_liquidity_contribution_bump(&program_id(), &user()).unwrap());
}

#[test]
fn contribute_scenario_records_gross_amount() {
    let plan = process_contribute(&program_id(), &user(), true, &ledger_address(&user()), &[], 1_000_000, 5)
        .unwrap();
    assert!(plan.created);
    assert_eq!(plan.ledger.contributed_amount, 1_000_000);
    let mut data = vec![0u8; LIQUIDITY_CONTRIBUTION_LEN];
    plan.ledger.pack(&mut data).unwrap();
    let again = process_contribute(&program_id(), &user(), true, &ledger_address(&user()), &data, 1, 6)
        .unwrap();
    assert!(!again.created);
    assert_eq!(again.ledger.contributed_amount, 1_000_001);
    assert_eq!(again.ledger.start_timestamp, 5);
    assert_eq!(
        process_contribute(&program_id(), &user(), true, &ledger_address(&admin()), &[], 1, 5).unwrap_err(),
        MultiHubSwapError::InvalidAccountData
    );
    assert_eq!(
        process_contribute(&program_id(), &user(), true, &ledger_address(&user()), &[1, 2, 3], 1, 5).unwrap_err(),
        MultiHubSwapError::BufferTooSmall
    );
}

fn stored_ledger(owner: Address, amount: u64, last: i64) -> Vec<u8> {
    let l = LiquidityContribution {
        user: owner,
        contributed_amount: amount,
        start_timestamp: 0,
        last_claim_time: last,
        total_claimed_yos: 0,
    };
    let mut data = vec![0u8; LIQUIDITY_CONTRIBUTION_LEN];
    l.pack(&mut data).unwrap();
    data
}

#[test]
fn claim_and_withdraw_through_processor() {
    let data = stored_ledger(user(), 200_000, 0);
    let claim = process_claim_rewards(
        &program_id(), &user(), true, &authority_address(), &ledger_address(&user()), &data, 604_800,
    )
    .unwrap();
    assert_eq!(claim.reward, 3_840);
    assert_eq!(claim.ledger.total_claimed_yos, 3_840);
    assert_eq!(
        process_claim_rewards(&program_id(), &user(), true, &authority_address(), &ledger_address(&user()), &data, 604_799)
            .unwrap_err(),
        MultiHubSwapError::TooEarly { elapsed: 604_799, remaining: 1 }
    );
    assert_eq!(
        process_claim_rewards(&program_id(), &user(), false, &authority_address(), &ledger_address(&user()), &data, 604_800)
            .unwrap_err(),
        MultiHubSwapError::MissingSignature
    );
    let w = process_withdraw_liquidity(
        &program_id(), &user(), true, &authority_address(), &ledger_address(&user()), &data,
    )
    .unwrap();
    assert_eq!(w.amount, 200_000);
    assert_eq!(w.ledger.contributed_amount, 0);
}

#[test]
fn record_of_another_owner_is_refused() {
    let data = stored_ledger(admin(), 200_000, 0);
    assert_eq!(
        process_claim_rewards(&program_id(), &user(), true, &authority_address(), &ledger_address(&user()), &data, 604_800)
            .unwrap_err(),
        MultiHubSwapError::Unauthorized
    );
    assert_eq!(
        process_withdraw_liquidity(&program_id(), &user(), true, &authority_address(), &ledger_address(&user()), &data)
            .unwrap_err(),
        MultiHubSwapError::Unauthorized
    );
}

#[test]
fn update_parameters_is_admin_only() {
    let state = initialized_state_bytes();
    let mut rates = scenario_rates();
    rates.lp_contribution_rate = 1000;
    let updated = process_update_parameters(&program_id(), &admin(), true, &state_address(), &state, rates).unwrap();
    assert_eq!(updated.lp_contribution_rate, 1000);
    assert_eq!(updated.admin, admin());
    assert_eq!(
        process_update_parameters(&program_id(), &user(), true, &state_address(), &state, rates).unwrap_err(),
        MultiHubSwapError::Unauthorized
    );
    rates.referral_rate = 1001;
    assert_eq!(
        process_update_parameters(&program_id(), &admin(), true, &state_address(), &state, rates).unwrap_err(),
        MultiHubSwapError::InvalidParameter
    );
}

#[test]
fn repair_upgrades_legacy_state() {
    let state = initialized_state_bytes();
    let legacy = &state[..PROGRAM_STATE_LEGACY_LEN];
    let wallet = Address::new_from_array([9u8; 32]);
    let plan = process_repair_program_state(
        &program_id(), &admin(), true, &state_address(), &program_id(), legacy, &wallet, scenario_rates(), 5,
    )
    .unwrap();
    assert!(plan.needs_resize);
    assert_eq!(plan.state.liquidity_wallet, wallet);
    assert_eq!(plan.state.liquidity_threshold, 5);
    assert_eq!(plan.state.yot_mint, Address::new_from_array([2u8; 32]));
    assert_eq!(
        process_repair_program_state(&program_id(), &admin(), true, &state_address(), &user(), legacy, &wallet, scenario_rates(), 5)
            .unwrap_err(),
        MultiHubSwapError::InvalidAccountData
    );
}

#[test]
fn swaps_quote_split_and_check_slippage() {
    assert_eq!(quote_output(100, 1_100, 5_000), Ok(500));
    assert_eq!(quote_output(100, 100, 5_000), Err(MultiHubSwapError::InsufficientFunds));
    let state = initialized_state_bytes();
    let plan = process_sol_to_yot_swap(
        &program_id(), &user(), true, &state_address(), &state, &authority_address(),
        &ledger_address(&user()), &[], 100, 500, 1_100, 5_000, 9,
    )
    .unwrap();
    assert_eq!(plan.amount_out, 500);
    assert_eq!(plan.distribution.liquidity_amount, 100);
    assert_eq!(plan.distribution.reward_amount, 25);
    assert_eq!(plan.distribution.user_amount, 375);
    assert_eq!(plan.ledger.contributed_amount, 100);
    assert_eq!(
        process_sol_to_yot_swap(&program_id(), &user(), true, &state_address(), &state, &authority_address(),
            &ledger_address(&user()), &[], 100, 501, 1_100, 5_000, 9).unwrap_err(),
        MultiHubSwapError::SlippageExceeded
    );
    let token = process_swap(
        &program_id(), &user(), true, &state_address(), &state, &authority_address(), 1_000_000, 1_000_000, 744_000,
        Some(admin()),
    )
    .unwrap();
    assert_eq!(token.distribution.user_amount, 744_000);
    assert_eq!(
        process_swap(&program_id(), &user(), true, &state_address(), &state, &authority_address(), 999, 1_000, 0, None)
            .unwrap_err(),
        MultiHubSwapError::InsufficientFunds
    );
}

#[test]
fn close_returns_rent_to_admin() {
    let state = initialized_state_bytes();
    let plan = process_close_program(&program_id(), &admin(), true, &state_address(), &state, &authority_address(), 10, 5)
        .unwrap();
    assert_eq!(plan.admin_lamports, 15);
    assert_eq!(plan.state_lamports, 0);
    assert_eq!(
        process_close_program(&program_id(), &user(), true, &state_address(), &state, &authority_address(), 10, 5)
            .unwrap_err(),
        MultiHubSwapError::Unauthorized
    );
    assert_eq!(
        process_close_program(&program_id(), &admin(), true, &state_address(), &state, &authority_address(), u64::MAX, 1)
            .unwrap_err(),
        MultiHubSwapError::ArithmeticOverflow
    );
}

#[test]
fn central_wallet_sweep_keeps_pool_ratio() {
    let state = initialized_state_bytes();
    let wallet = Address::new_from_array([4u8; 32]);
    assert_eq!(proportional_amount(100, 0, 5), Err(MultiHubSwapError::InsufficientFunds));
    let plan = process_add_liquidity_from_central_wallet(
        &program_id(), &admin(), true, &state_address(), &state, &authority_address(), &wallet,
        200_000_001, 300_000_000, 1_000, 3_000,
    )
    .unwrap();
    assert_eq!(plan.sol_amount, 100_000_000);
    assert_eq!(plan.yot_amount, 300_000_000);
    assert_eq!(plan.lp_amount, 173_205_080);
    assert_eq!(
        process_add_liquidity_from_central_wallet(&program_id(), &admin(), true, &state_address(), &state,
            &authority_address(), &wallet, 99_999_999, u64::MAX, 1_000, 3_000).unwrap_err(),
        MultiHubSwapError::InsufficientFunds
    );
    assert_eq!(
        process_add_liquidity_from_central_wallet(&program_id(), &admin(), true, &state_address(), &state,
            &authority_address(), &wallet, 200_000_000, 299_999_999, 1_000, 3_000).unwrap_err(),
        MultiHubSwapError::InsufficientFunds
    );
    assert_eq!(
        process_add_liquidity_from_central_wallet(&program_id(), &admin(), true, &state_address(), &state,
            &authority_address(), &user(), 200_000_000, u64::MAX, 1_000, 3_000).unwrap_err(),
        MultiHubSwapError::InvalidAccountData
    );
}

#[test]
fn integer_sqrt_is_floor_of_root() {
    assert_eq!(integer_sqrt(0), 0);
    assert_eq!(integer_sqrt(1), 1);
    assert_eq!(integer_sqrt(15), 3);
    assert_eq!(integer_sqrt(16), 4);
    assert_eq!(integer_sqrt(u128::MAX), u64::MAX);
    assert_eq!(integer_sqrt((u64::MAX as u128) * (u64::MAX as u128) - 1), u64::MAX - 1);
}

#[test]
fn sale_credits_tenth_of_liquidity_value() {
    let state = initialized_state_bytes();
    let wallet = Address::new_from_array([4u8; 32]);
    let plan = process_yot_to_sol_swap(
        &program_id(), &user(), true, &state_address(), &state, &authority_address(), &wallet,
        &ledger_address(&user()), &[], 100, 400, 5_000, 1_100, 3,
    )
    .unwrap();
    assert_eq!(plan.amount_out, 500);
    assert_eq!(plan.distribution.liquidity_amount, 100);
    assert_eq!(plan.distribution.user_amount, 375);
    assert_eq!(plan.ledger_credit, 2);
    assert_eq!(plan.ledger.contributed_amount, 2);
    assert_eq!(
        process_yot_to_sol_swap(&program_id(), &user(), true, &state_address(), &state, &authority_address(),
            &user(), &ledger_address(&user()), &[], 100, 400, 5_000, 1_100, 3).unwrap_err(),
        MultiHubSwapError::InvalidAccountData
    );
}

#[test]
fn ledger_account_is_created_once() {
    let (record, bump) = process_create_liquidity_account(&program_id(), &user(), true, &ledger_address(&user()), true, 77)
        .unwrap()
        .unwrap();
    assert_eq!(record.user, user());
    assert_eq!(record.contributed_amount, 0);
    assert_eq!(record.start_timestamp, 77);
    assert_eq!(record.last_claim_time, 77);
    assert_eq!(bump, find_liquidity_contribution_bump(&program_id(), &user()).unwrap());
    assert_eq!(
        process_create_liquidity_account(&program_id(), &user(), true, &ledger_address(&user()), false, 77),
        Ok(None)
    );
    assert_eq!(
        process_create_liquidity_account(&program_id(), &user(), true, &ledger_address(&admin()), true, 77),
        Err(MultiHubSwapError::InvalidAccountData)
    );
}

#[test]
fn cashback_rate_allows_up_to_twenty_percent() {
    let state = initialized_state_bytes();
    let mut rates = scenario_rates();
    rates.yos_cashback_rate = 2000;
    let updated = process_update_parameters(&program_id(), &admin(), true, &state_address(), &state, rates).unwrap();
    assert_eq!(updated.yos_cashback_rate, 2000);
    assert_eq!(updated.lp_contribution_rate, 2000);
    assert_eq!(updated.liquidity_threshold, 100_000_000);
    rates.yos_cashback_rate = 1500;
    assert!(process_update_parameters(&program_id(), &admin(), true, &state_address(), &state, rates).is_ok());
    rates.yos_cashback_rate = 2001;
    assert_eq!(
        process_update_parameters(&program_id(), &admin(), true, &state_address(), &state, rates).unwrap_err(),
        MultiHubSwapError::InvalidParameter
    );
    let wallet = Address::new_from_array([4u8; 32]);
    let mint = Address::new_from_array([2u8; 32]);
    assert_eq!(
        process_initialize(&program_id(), &admin(), true, &state_address(), &[], &wallet, &mint, &mint, None, Some(rates))
            .unwrap_err(),
        MultiHubSwapError::InvalidParameter
    );
    rates.yos_cashback_rate = 2000;
    let plan = process_initialize(&program_id(), &admin(), true, &state_address(), &[], &wallet, &mint, &mint, None, Some(rates))
        .unwrap();
    assert_eq!(plan.state.yos_cashback_rate, 2000);
}

#[test]
fn token_account_addresses_match_the_runtime() {
    let pid = Pubkey::new_from_array(PROGRAM);
    let mint = Pubkey::new_from_array([2u8; 32]);
    let (vault, vault_bump) = Pubkey::find_program_address(&[b"vault", mint.as_ref()], &pid);
    let (liq, liq_bump) = Pubkey::find_program_address(&[b"liquidity", mint.as_ref()], &pid);
    let m = Address::new_from_array([2u8; 32]);
    assert_eq!(
        find_vault_token_address(&m, &program_id()),
        Some((Address::new_from_array(vault.to_bytes()), vault_bump))
    );
    assert_eq!(
        find_liquidity_token_address(&m, &program_id()),
        Some((Address::new_from_array(liq.to_bytes()), liq_bump))
    );
    assert_ne!(find_vault_token_address(&m, &program_id()), find_liquidity_token_address(&m, &program_id()));
}

#[test]
fn immediate_swap_requires_recorded_wallet() {
    let state = initialized_state_bytes();
    let wallet = Address::new_from_array([4u8; 32]);
    let plan = process_sol_to_yot_swap_immediate(
        &program_id(), &user(), true, &state_address(), &state, &authority_address(), &wallet,
        &ledger_address(&user()), &[], 100, 500, 1_100, 5_000, 9,
    )
    .unwrap();
    assert_eq!(plan.amount_out, 500);
    assert_eq!(plan.distribution.liquidity_amount, 100);
    assert_eq!(plan.ledger.contributed_amount, 100);
    assert_eq!(
        process_sol_to_yot_swap_immediate(&program_id(), &user(), true, &state_address(), &state,
            &authority_address(), &user(), &ledger_address(&user()), &[], 100, 500, 1_100, 5_000, 9).unwrap_err(),
        MultiHubSwapError::InvalidAccountData
    );
}
