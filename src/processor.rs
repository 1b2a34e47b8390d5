//! The decisions of each operation, over plain values: which checks refuse the
//! request, what the records become and which amounts the host moves. The host
//! side loads the accounts, hands their keys, flags and data in, performs the
//! transfers of the returned plan and writes the records back, all in one
//! transaction.
use vstd::prelude::*;
use crate::address::{
    authority_seeds,
    check_derived_address,
    find_liquidity_contribution_address,
    find_program_authority_address,
    find_program_state_address,
    found_view,
    ledger_seeds,
    program_address_of,
    state_seeds,
    Address,
};
use crate::contribution::{
    after_claim,
    after_withdraw,
    claim,
    claim_result,
    contribute,
    contribute_result,
    decode_ledger,
    fresh_ledger,
    withdraw,
    withdraw_result,
    LedgerView,
    LiquidityContribution,
    LIQUIDITY_CONTRIBUTION_LEN,
};
use crate::distribution::{
    distribute_purchase,
    distribute_swap,
    option_view,
    split_outcome,
    DistributionResult,
};
use crate::error::MultiHubSwapError;
use crate::math::{integer_sqrt, is_integer_sqrt};
use crate::instruction::RateParameters;
use crate::state::{
    decode_state,
    rates_valid,
    validate_rates,
    ProgramState,
    ProgramStateView,
    DEFAULT_LIQUIDITY_THRESHOLD,
    PROGRAM_STATE_LEGACY_LEN,
    PROGRAM_STATE_LEN,
};

verus! {

/// Whether `supplied` is the address found for a role.
pub open spec fn address_matches(found: Option<(Seq<u8>, u8)>, supplied: Seq<u8>) -> bool {
    match found {
        Some(p) => p.0 == supplied,
        None => false,
    }
}

/// The bump seed of a found address.
pub open spec fn bump_found(found: Option<(Seq<u8>, u8)>) -> u8 {
    match found {
        Some(p) => p.1,
        None => 0,
    }
}

/// The rates an Initialize without explicit rates starts with: 20% to
/// liquidity, 5% cashback, 1% swap fee, no admin fee or referral.
pub open spec fn default_rates() -> RateParameters {
    RateParameters {
        lp_contribution_rate: 2_000,
        yos_cashback_rate: 500,
        admin_fee_rate: 0,
        swap_fee_rate: 100,
        referral_rate: 0,
    }
}

pub open spec fn rate_parameters_valid(p: RateParameters) -> bool {
    rates_valid(
        p.lp_contribution_rate,
        p.admin_fee_rate,
        p.yos_cashback_rate,
        p.swap_fee_rate,
        p.referral_rate,
    )
}

/// The ledger held in account data: none where the account is still empty.
pub open spec fn stored_ledger(data: Seq<u8>) -> Option<LedgerView> {
    if data.len() == 0 {
        None
    } else {
        Some(decode_ledger(data))
    }
}

/// What an Initialize creates.
#[derive(Clone, Copy, Debug)]
pub struct InitializePlan {
    pub state: ProgramState,
    pub state_bump: u8,
}

/// Creates the program state. Refused without the admin's signature, for an
/// account other than the derived state address, where the state account
/// holds data already or where a rate is out of bounds. Without explicit rates the
/// default ones apply; without an explicit wallet, the supplied wallet account.
pub fn process_initialize(
    program_id: &Address,
    admin: &Address,
    admin_is_signer: bool,
    state_account: &Address,
    state_data: &[u8],
    wallet_account: &Address,
    yot_mint: &Address,
    yos_mint: &Address,
    liquidity_wallet: Option<Address>,
    initial_rates: Option<RateParameters>,
) -> (r: Result<InitializePlan, MultiHubSwapError>)
    ensures
        ({
            let found = program_address_of(state_seeds(), program_id@);
            let rates = match initial_rates {
                Some(p) => p,
                None => default_rates(),
            };
            let wallet = match liquidity_wallet {
                Some(w) => w@,
                None => wallet_account@,
            };
            if !admin_is_signer {
                r == Err::<InitializePlan, MultiHubSwapError>(MultiHubSwapError::MissingSignature)
            } else if !address_matches(found, state_account@) {
                r == Err::<InitializePlan, MultiHubSwapError>(
                    MultiHubSwapError::InvalidAccountData,
                )
            } else if state_data@.len() > 0 {
                r == Err::<InitializePlan, MultiHubSwapError>(
                    MultiHubSwapError::AlreadyInitialized,
                )
            } else if !rate_parameters_valid(rates) {
                r == Err::<InitializePlan, MultiHubSwapError>(MultiHubSwapError::InvalidParameter)
            } else {
                r is Ok && r->Ok_0.state_bump == bump_found(found) && r->Ok_0.state@
                    == ProgramStateView {
                    admin: admin@,
                    yot_mint: yot_mint@,
                    yos_mint: yos_mint@,
                    lp_contribution_rate: rates.lp_contribution_rate,
                    admin_fee_rate: rates.admin_fee_rate,
                    yos_cashback_rate: rates.yos_cashback_rate,
                    swap_fee_rate: rates.swap_fee_rate,
                    referral_rate: rates.referral_rate,
                    liquidity_wallet: wallet,
                    liquidity_threshold: DEFAULT_LIQUIDITY_THRESHOLD,
                }
            }
        }),
{
    if !admin_is_signer {
        return Err(MultiHubSwapError::MissingSignature);
    }
    let state_bump = check_derived_address(find_program_state_address(program_id), state_account)?;
    if state_data.len() > 0 {
        return Err(MultiHubSwapError::AlreadyInitialized);
    }
    let rates = match initial_rates {
        Some(p) => p,
        None => RateParameters {
            lp_contribution_rate: 2_000,
            yos_cashback_rate: 500,
            admin_fee_rate: 0,
            swap_fee_rate: 100,
            referral_rate: 0,
        },
    };
    validate_rates(
        rates.lp_contribution_rate,
        rates.admin_fee_rate,
        rates.yos_cashback_rate,
        rates.swap_fee_rate,
        rates.referral_rate,
    )?;
    let wallet = match liquidity_wallet {
        Some(w) => w,
        None => *wallet_account,
    };
    let state = ProgramState {
        admin: *admin,
        yot_mint: *yot_mint,
        yos_mint: *yos_mint,
        lp_contribution_rate: rates.lp_contribution_rate,
        admin_fee_rate: rates.admin_fee_rate,
        yos_cashback_rate: rates.yos_cashback_rate,
        swap_fee_rate: rates.swap_fee_rate,
        referral_rate: rates.referral_rate,
        liquidity_wallet: wallet,
        liquidity_threshold: DEFAULT_LIQUIDITY_THRESHOLD,
    };
    Ok(InitializePlan { state, state_bump })
}

/// The ledger held in account data: `None` for an account not created yet,
/// `BufferTooSmall` for one too short to hold a record.
pub fn load_ledger(data: &[u8]) -> (r: Result<Option<LiquidityContribution>, MultiHubSwapError>)
    ensures
        data@.len() == 0 ==> r == Ok::<Option<LiquidityContribution>, MultiHubSwapError>(None),
        0 < data@.len() < LIQUIDITY_CONTRIBUTION_LEN ==> r == Err::<
            Option<LiquidityContribution>,
            MultiHubSwapError,
        >(MultiHubSwapError::BufferTooSmall),
        data@.len() >= LIQUIDITY_CONTRIBUTION_LEN ==> r is Ok && r->Ok_0 is Some
            && r->Ok_0->Some_0@ == decode_ledger(data@),
{
    if data.len() == 0 {
        Ok(None)
    } else {
        let l = LiquidityContribution::unpack(data)?;
        Ok(Some(l))
    }
}

/// What a purchase does: the split of the amount paid in, and the buyer's
/// ledger after its liquidity part is recorded.
#[derive(Clone, Copy, Debug)]
pub struct PurchasePlan {
    pub distribution: DistributionResult,
    pub ledger: LiquidityContribution,
    pub created: bool,
    pub ledger_bump: u8,
    pub authority_bump: u8,
}

/// Buy and distribute: the user pays `amount` in; it is split at the state's
/// current rates; the liquidity part is added to the user's ledger (created on
/// first use), the user part and the cashback go back out.
pub fn process_buy_and_distribute(
    program_id: &Address,
    user: &Address,
    user_is_signer: bool,
    state_account: &Address,
    state_data: &[u8],
    authority_account: &Address,
    ledger_account: &Address,
    ledger_data: &[u8],
    amount: u64,
    now: i64,
) -> (r: Result<PurchasePlan, MultiHubSwapError>)
    ensures
        ({
            let state_found = program_address_of(state_seeds(), program_id@);
            let authority_found = program_address_of(authority_seeds(), program_id@);
            let ledger_found = program_address_of(ledger_seeds(user@), program_id@);
            let st = decode_state(state_data@);
            let split = split_outcome(amount, st.lp_contribution_rate, st.yos_cashback_rate, 0, 0);
            if !user_is_signer {
                r == Err::<PurchasePlan, MultiHubSwapError>(MultiHubSwapError::MissingSignature)
            } else if !address_matches(state_found, state_account@) || !address_matches(
                authority_found,
                authority_account@,
            ) || !address_matches(ledger_found, ledger_account@) {
                r == Err::<PurchasePlan, MultiHubSwapError>(MultiHubSwapError::InvalidAccountData)
            } else if state_data@.len() < PROGRAM_STATE_LEGACY_LEN || (0 < ledger_data@.len()
                < LIQUIDITY_CONTRIBUTION_LEN) {
                r == Err::<PurchasePlan, MultiHubSwapError>(MultiHubSwapError::BufferTooSmall)
            } else if split is None {
                r == Err::<PurchasePlan, MultiHubSwapError>(MultiHubSwapError::ArithmeticOverflow)
            } else {
                match contribute_result(
                    stored_ledger(ledger_data@),
                    user@,
                    split->Some_0.liquidity_amount,
                    now,
                ) {
                    Ok(l) => r is Ok && r->Ok_0.distribution == split->Some_0 && r->Ok_0.ledger@
                        == l && r->Ok_0.created == (ledger_data@.len() == 0)
                        && r->Ok_0.ledger_bump == bump_found(ledger_found)
                        && r->Ok_0.authority_bump == bump_found(authority_found),
                    Err(e) => r == Err::<PurchasePlan, MultiHubSwapError>(e),
                }
            }
        }),
{
    if !user_is_signer {
        return Err(MultiHubSwapError::MissingSignature);
    }
    check_derived_address(find_program_state_address(program_id), state_account)?;
    let authority_bump = check_derived_address(
        find_program_authority_address(program_id),
        authority_account,
    )?;
    let ledger_bump = check_derived_address(
        find_liquidity_contribution_address(user, program_id),
        ledger_account,
    )?;
    let state = ProgramState::unpack(state_data)?;
    let existing = load_ledger(ledger_data)?;
    let distribution = distribute_purchase(amount, &state)?;
    let ledger = contribute(existing, user, distribution.liquidity_amount, now)?;
    Ok(
        PurchasePlan {
            distribution,
            ledger,
            created: ledger_data.len() == 0,
            ledger_bump,
            authority_bump,
        },
    )
}

/// What a direct contribution does to the contributor's ledger.
#[derive(Clone, Copy, Debug)]
pub struct ContributionPlan {
    pub ledger: LiquidityContribution,
    pub created: bool,
    pub ledger_bump: u8,
}

/// Contribute: the whole `amount` is added to the user's ledger (created on
/// first use); the host moves `amount` from the user into the pool.
pub fn process_contribute(
    program_id: &Address,
    user: &Address,
    user_is_signer: bool,
    ledger_account: &Address,
    ledger_data: &[u8],
    amount: u64,
    now: i64,
) -> (r: Result<ContributionPlan, MultiHubSwapError>)
    ensures
        ({
            let ledger_found = program_address_of(ledger_seeds(user@), program_id@);
            if !user_is_signer {
                r == Err::<ContributionPlan, MultiHubSwapError>(
                    MultiHubSwapError::MissingSignature,
                )
            } else if !address_matches(ledger_found, ledger_account@) {
                r == Err::<ContributionPlan, MultiHubSwapError>(
                    MultiHubSwapError::InvalidAccountData,
                )
            } else if 0 < ledger_data@.len() < LIQUIDITY_CONTRIBUTION_LEN {
                r == Err::<ContributionPlan, MultiHubSwapError>(MultiHubSwapError::BufferTooSmall)
            } else {
                match contribute_result(stored_ledger(ledger_data@), user@, amount, now) {
                    Ok(l) => r is Ok && r->Ok_0.ledger@ == l && r->Ok_0.created == (
                    ledger_data@.len() == 0) && r->Ok_0.ledger_bump == bump_found(ledger_found),
                    Err(e) => r == Err::<ContributionPlan, MultiHubSwapError>(e),
                }
            }
        }),
{
    if !user_is_signer {
        return Err(MultiHubSwapError::MissingSignature);
    }
    let ledger_bump = check_derived_address(
        find_liquidity_contribution_address(user, program_id),
        ledger_account,
    )?;
    let existing = load_ledger(ledger_data)?;
    let ledger = contribute(existing, user, amount, now)?;
    Ok(ContributionPlan { ledger, created: ledger_data.len() == 0, ledger_bump })
}

/// What a claim does: the reward to pay out and the ledger to write back once
/// it is paid.
#[derive(Clone, Copy, Debug)]
pub struct ClaimPlan {
    pub reward: u64,
    pub ledger: LiquidityContribution,
    pub authority_bump: u8,
}

/// Claim the weekly reward from the user's ledger.
pub fn process_claim_rewards(
    program_id: &Address,
    user: &Address,
    user_is_signer: bool,
    authority_account: &Address,
    ledger_account: &Address,
    ledger_data: &[u8],
    now: i64,
) -> (r: Result<ClaimPlan, MultiHubSwapError>)
    ensures
        ({
            let authority_found = program_address_of(authority_seeds(), program_id@);
            let ledger_found = program_address_of(ledger_seeds(user@), program_id@);
            let l = decode_ledger(ledger_data@);
            if !user_is_signer {
                r == Err::<ClaimPlan, MultiHubSwapError>(MultiHubSwapError::MissingSignature)
            } else if !address_matches(authority_found, authority_account@) || !address_matches(
                ledger_found,
                ledger_account@,
            ) {
                r == Err::<ClaimPlan, MultiHubSwapError>(MultiHubSwapError::InvalidAccountData)
            } else if ledger_data@.len() < LIQUIDITY_CONTRIBUTION_LEN {
                r == Err::<ClaimPlan, MultiHubSwapError>(MultiHubSwapError::BufferTooSmall)
            } else {
                match claim_result(l, user@, now) {
                    Ok(x) => r is Ok && r->Ok_0.reward == x && r->Ok_0.ledger@ == after_claim(
                        l,
                        now,
                    ) && r->Ok_0.authority_bump == bump_found(authority_found),
                    Err(e) => r == Err::<ClaimPlan, MultiHubSwapError>(e),
                }
            }
        }),
{
    if !user_is_signer {
        return Err(MultiHubSwapError::MissingSignature);
    }
    let authority_bump = check_derived_address(
        find_program_authority_address(program_id),
        authority_account,
    )?;
    check_derived_address(find_liquidity_contribution_address(user, program_id), ledger_account)?;
    let mut ledger = LiquidityContribution::unpack(ledger_data)?;
    let reward = claim(&mut ledger, user, now)?;
    Ok(ClaimPlan { reward, ledger, authority_bump })
}

/// What a withdrawal does: the amount to return and the zeroed ledger.
#[derive(Clone, Copy, Debug)]
pub struct WithdrawPlan {
    pub amount: u64,
    pub ledger: LiquidityContribution,
    pub authority_bump: u8,
}

/// Withdraw the user's whole contribution.
pub fn process_withdraw_liquidity(
    program_id: &Address,
    user: &Address,
    user_is_signer: bool,
    authority_account: &Address,
    ledger_account: &Address,
    ledger_data: &[u8],
) -> (r: Result<WithdrawPlan, MultiHubSwapError>)
    ensures
        ({
            let authority_found = program_address_of(authority_seeds(), program_id@);
            let ledger_found = program_address_of(ledger_seeds(user@), program_id@);
            let l = decode_ledger(ledger_data@);
            if !user_is_signer {
                r == Err::<WithdrawPlan, MultiHubSwapError>(MultiHubSwapError::MissingSignature)
            } else if !address_matches(authority_found, authority_account@) || !address_matches(
                ledger_found,
                ledger_account@,
            ) {
                r == Err::<WithdrawPlan, MultiHubSwapError>(MultiHubSwapError::InvalidAccountData)
            } else if ledger_data@.len() < LIQUIDITY_CONTRIBUTION_LEN {
                r == Err::<WithdrawPlan, MultiHubSwapError>(MultiHubSwapError::BufferTooSmall)
            } else {
                match withdraw_result(l, user@) {
                    Ok(x) => r is Ok && r->Ok_0.amount == x && r->Ok_0.ledger@ == after_withdraw(l)
                        && r->Ok_0.authority_bump == bump_found(authority_found),
                    Err(e) => r == Err::<WithdrawPlan, MultiHubSwapError>(e),
                }
            }
        }),
{
    if !user_is_signer {
        return Err(MultiHubSwapError::MissingSignature);
    }
    let authority_bump = check_derived_address(
        find_program_authority_address(program_id),
        authority_account,
    )?;
    check_derived_address(find_liquidity_contribution_address(user, program_id), ledger_account)?;
    let mut ledger = LiquidityContribution::unpack(ledger_data)?;
    let amount = withdraw(&mut ledger, user)?;
    Ok(WithdrawPlan { amount, ledger, authority_bump })
}

/// The state with its five rates replaced.
pub open spec fn with_rates(v: ProgramStateView, p: RateParameters) -> ProgramStateView {
    ProgramStateView {
        lp_contribution_rate: p.lp_contribution_rate,
        admin_fee_rate: p.admin_fee_rate,
        yos_cashback_rate: p.yos_cashback_rate,
        swap_fee_rate: p.swap_fee_rate,
        referral_rate: p.referral_rate,
        ..v
    }
}

/// Update the rate parameters. Only the recorded admin may, with a signature,
/// and only to rates within their bounds.
pub fn process_update_parameters(
    program_id: &Address,
    admin: &Address,
    admin_is_signer: bool,
    state_account: &Address,
    state_data: &[u8],
    rates: RateParameters,
) -> (r: Result<ProgramState, MultiHubSwapError>)
    ensures
        ({
            let state_found = program_address_of(state_seeds(), program_id@);
            let st = decode_state(state_data@);
            if !admin_is_signer {
                r == Err::<ProgramState, MultiHubSwapError>(MultiHubSwapError::MissingSignature)
            } else if !address_matches(state_found, state_account@) {
                r == Err::<ProgramState, MultiHubSwapError>(MultiHubSwapError::InvalidAccountData)
            } else if state_data@.len() < PROGRAM_STATE_LEGACY_LEN {
                r == Err::<ProgramState, MultiHubSwapError>(MultiHubSwapError::BufferTooSmall)
            } else if st.admin != admin@ {
                r == Err::<ProgramState, MultiHubSwapError>(MultiHubSwapError::Unauthorized)
            } else if !rate_parameters_valid(rates) {
                r == Err::<ProgramState, MultiHubSwapError>(MultiHubSwapError::InvalidParameter)
            } else {
                r is Ok && r->Ok_0@ == with_rates(st, rates)
            }
        }),
{
    if !admin_is_signer {
        return Err(MultiHubSwapError::MissingSignature);
    }
    check_derived_address(find_program_state_address(program_id), state_account)?;
    let state = ProgramState::unpack(state_data)?;
    if !state.admin.equals(admin) {
        return Err(MultiHubSwapError::Unauthorized);
    }
    validate_rates(
        rates.lp_contribution_rate,
        rates.admin_fee_rate,
        rates.yos_cashback_rate,
        rates.swap_fee_rate,
        rates.referral_rate,
    )?;
    Ok(
        ProgramState {
            lp_contribution_rate: rates.lp_contribution_rate,
            admin_fee_rate: rates.admin_fee_rate,
            yos_cashback_rate: rates.yos_cashback_rate,
            swap_fee_rate: rates.swap_fee_rate,
            referral_rate: rates.referral_rate,
            ..state
        },
    )
}

/// What a repair writes, and whether the account must first grow to the
/// current layout.
#[derive(Clone, Copy, Debug)]
pub struct RepairPlan {
    pub state: ProgramState,
    pub needs_resize: bool,
}

/// Rewrite the state in the current layout with new rates, wallet and
/// threshold, keeping the admin and the mints. Only the recorded admin may, with
/// a signature, on an account that this program owns.
pub fn process_repair_program_state(
    program_id: &Address,
    admin: &Address,
    admin_is_signer: bool,
    state_account: &Address,
    state_owner: &Address,
    state_data: &[u8],
    wallet_account: &Address,
    rates: RateParameters,
    liquidity_threshold: u64,
) -> (r: Result<RepairPlan, MultiHubSwapError>)
    ensures
        ({
            let state_found = program_address_of(state_seeds(), program_id@);
            let st = decode_state(state_data@);
            if !admin_is_signer {
                r == Err::<RepairPlan, MultiHubSwapError>(MultiHubSwapError::MissingSignature)
            } else if state_owner@ != program_id@ || !address_matches(
                state_found,
                state_account@,
            ) {
                r == Err::<RepairPlan, MultiHubSwapError>(MultiHubSwapError::InvalidAccountData)
            } else if state_data@.len() < PROGRAM_STATE_LEGACY_LEN {
                r == Err::<RepairPlan, MultiHubSwapError>(MultiHubSwapError::BufferTooSmall)
            } else if st.admin != admin@ {
                r == Err::<RepairPlan, MultiHubSwapError>(MultiHubSwapError::Unauthorized)
            } else if !rate_parameters_valid(rates) {
                r == Err::<RepairPlan, MultiHubSwapError>(MultiHubSwapError::InvalidParameter)
            } else {
                r is Ok && r->Ok_0.state@ == ProgramStateView {
                    liquidity_wallet: wallet_account@,
                    liquidity_threshold,
                    ..with_rates(st, rates)
                } && r->Ok_0.needs_resize == (state_data@.len() < PROGRAM_STATE_LEN)
            }
        }),
{
    if !admin_is_signer {
        return Err(MultiHubSwapError::MissingSignature);
    }
    if !state_owner.equals(program_id) {
        return Err(MultiHubSwapError::InvalidAccountData);
    }
    check_derived_address(find_program_state_address(program_id), state_account)?;
    let state = ProgramState::unpack(state_data)?;
    if !state.admin.equals(admin) {
        return Err(MultiHubSwapError::Unauthorized);
    }
    validate_rates(
        rates.lp_contribution_rate,
        rates.admin_fee_rate,
        rates.yos_cashback_rate,
        rates.swap_fee_rate,
        rates.referral_rate,
    )?;
    let repaired = ProgramState {
        lp_contribution_rate: rates.lp_contribution_rate,
        admin_fee_rate: rates.admin_fee_rate,
        yos_cashback_rate: rates.yos_cashback_rate,
        swap_fee_rate: rates.swap_fee_rate,
        referral_rate: rates.referral_rate,
        liquidity_wallet: *wallet_account,
        liquidity_threshold,
        ..state
    };
    Ok(RepairPlan { state: repaired, needs_resize: state_data.len() < PROGRAM_STATE_LEN })
}

/// The constant-product output for `amount_in` paid into a pool whose input
/// reserve is `reserve_in_after` once the payment is in: `InsufficientFunds`
/// where the reserve before the payment is empty.
pub open spec fn quote_outcome(amount_in: u64, reserve_in_after: u64, reserve_out: u64) -> Result<
    u64,
    MultiHubSwapError,
> {
    if reserve_in_after <= amount_in {
        Err(MultiHubSwapError::InsufficientFunds)
    } else if amount_in * reserve_out / (reserve_in_after - amount_in) > u64::MAX {
        Err(MultiHubSwapError::ArithmeticOverflow)
    } else {
        Ok((amount_in * reserve_out / (reserve_in_after - amount_in)) as u64)
    }
}

/// `amount_in * reserve_out / (reserve_in_after - amount_in)`, in 128 bits.
pub fn quote_output(amount_in: u64, reserve_in_after: u64, reserve_out: u64) -> (r: Result<
    u64,
    MultiHubSwapError,
>)
    ensures
        r == quote_outcome(amount_in, reserve_in_after, reserve_out),
{
    if reserve_in_after <= amount_in {
        return Err(MultiHubSwapError::InsufficientFunds);
    }
    let before = (reserve_in_after - amount_in) as u128;
    let a = amount_in as u128;
    let b = reserve_out as u128;
    assert(a * b <= u64::MAX * u64::MAX) by (nonlinear_arith)
        requires
            a <= u64::MAX,
            b <= u64::MAX,
    ;
    let out = a * b / before;
    if out > u64::MAX as u128 {
        Err(MultiHubSwapError::ArithmeticOverflow)
    } else {
        Ok(out as u64)
    }
}

/// What a SOL to YOT swap does: the output of the pool, its split, and the
/// buyer's ledger after the liquidity part is recorded.
#[derive(Clone, Copy, Debug)]
pub struct SwapPlan {
    pub amount_out: u64,
    pub distribution: DistributionResult,
    pub ledger: LiquidityContribution,
    pub created: bool,
    pub ledger_bump: u8,
    pub authority_bump: u8,
}

/// The mathematical model of a [`SwapPlan`].
pub struct SwapPlanView {
    pub amount_out: u64,
    pub distribution: DistributionResult,
    pub ledger: LedgerView,
    pub created: bool,
    pub ledger_bump: u8,
    pub authority_bump: u8,
}

impl View for SwapPlan {
    type V = SwapPlanView;

    open spec fn view(&self) -> SwapPlanView {
        SwapPlanView {
            amount_out: self.amount_out,
            distribution: self.distribution,
            ledger: self.ledger@,
            created: self.created,
            ledger_bump: self.ledger_bump,
            authority_bump: self.authority_bump,
        }
    }
}

/// What a SOL to YOT swap gives. Where `wallet` names a central liquidity
/// wallet, it must be the one the state records.
pub open spec fn sol_to_yot_outcome(
    program_id: Seq<u8>,
    user: Seq<u8>,
    user_is_signer: bool,
    state_account: Seq<u8>,
    state_data: Seq<u8>,
    authority_account: Seq<u8>,
    wallet: Option<Seq<u8>>,
    ledger_account: Seq<u8>,
    ledger_data: Seq<u8>,
    amount_in: u64,
    min_amount_out: u64,
    sol_pool_balance: u64,
    yot_pool_balance: u64,
    now: i64,
) -> Result<SwapPlanView, MultiHubSwapError> {
    let state_found = program_address_of(state_seeds(), program_id);
    let authority_found = program_address_of(authority_seeds(), program_id);
    let ledger_found = program_address_of(ledger_seeds(user), program_id);
    let st = decode_state(state_data);
    let quote = quote_outcome(amount_in, sol_pool_balance, yot_pool_balance);
    if !user_is_signer {
        Err(MultiHubSwapError::MissingSignature)
    } else if !address_matches(state_found, state_account) || !address_matches(
        authority_found,
        authority_account,
    ) || !address_matches(ledger_found, ledger_account) {
        Err(MultiHubSwapError::InvalidAccountData)
    } else if state_data.len() < PROGRAM_STATE_LEGACY_LEN || (0 < ledger_data.len()
        < LIQUIDITY_CONTRIBUTION_LEN) {
        Err(MultiHubSwapError::BufferTooSmall)
    } else if wallet is Some && st.liquidity_wallet != wallet->Some_0 {
        Err(MultiHubSwapError::InvalidAccountData)
    } else if quote is Err {
        Err(quote->Err_0)
    } else if quote->Ok_0 < min_amount_out {
        Err(MultiHubSwapError::SlippageExceeded)
    } else {
        let split = split_outcome(quote->Ok_0, st.lp_contribution_rate, st.yos_cashback_rate, 0, 0);
        if split is None {
            Err(MultiHubSwapError::ArithmeticOverflow)
        } else {
            match contribute_result(
                stored_ledger(ledger_data),
                user,
                split->Some_0.liquidity_amount,
                now,
            ) {
                Ok(l) => Ok(
                    SwapPlanView {
                        amount_out: quote->Ok_0,
                        distribution: split->Some_0,
                        ledger: l,
                        created: ledger_data.len() == 0,
                        ledger_bump: bump_found(ledger_found),
                        authority_bump: bump_found(authority_found),
                    },
                ),
                Err(e) => Err(e),
            }
        }
    }
}

/// Whether an executable result is the outcome that the model gives.
pub open spec fn swap_plan_is(
    r: Result<SwapPlan, MultiHubSwapError>,
    outcome: Result<SwapPlanView, MultiHubSwapError>,
) -> bool {
    match r {
        Ok(p) => outcome == Ok::<SwapPlanView, MultiHubSwapError>(p@),
        Err(e) => outcome == Err::<SwapPlanView, MultiHubSwapError>(e),
    }
}

pub open spec fn wallet_view(wallet: Option<&Address>) -> Option<Seq<u8>> {
    match wallet {
        Some(w) => Some(w@),
        None => None,
    }
}

fn plan_sol_to_yot_swap(
    program_id: &Address,
    user: &Address,
    user_is_signer: bool,
    state_account: &Address,
    state_data: &[u8],
    authority_account: &Address,
    wallet: Option<&Address>,
    ledger_account: &Address,
    ledger_data: &[u8],
    amount_in: u64,
    min_amount_out: u64,
    sol_pool_balance: u64,
    yot_pool_balance: u64,
    now: i64,
) -> (r: Result<SwapPlan, MultiHubSwapError>)
    ensures
        swap_plan_is(
            r,
            sol_to_yot_outcome(
                program_id@,
                user@,
                user_is_signer,
                state_account@,
                state_data@,
                authority_account@,
                wallet_view(wallet),
                ledger_account@,
                ledger_data@,
                amount_in,
                min_amount_out,
                sol_pool_balance,
                yot_pool_balance,
                now,
            ),
        ),
{
    if !user_is_signer {
        return Err(MultiHubSwapError::MissingSignature);
    }
    check_derived_address(find_program_state_address(program_id), state_account)?;
    let authority_bump = check_derived_address(
        find_program_authority_address(program_id),
        authority_account,
    )?;
    let ledger_bump = check_derived_address(
        find_liquidity_contribution_address(user, program_id),
        ledger_account,
    )?;
    let state = ProgramState::unpack(state_data)?;
    let existing = load_ledger(ledger_data)?;
    match wallet {
        Some(w) => {
            if !state.liquidity_wallet.equals(w) {
                return Err(MultiHubSwapError::InvalidAccountData);
            }
        },
        None => {},
    }
    let amount_out = quote_output(amount_in, sol_pool_balance, yot_pool_balance)?;
    if amount_out < min_amount_out {
        return Err(MultiHubSwapError::SlippageExceeded);
    }
    let distribution = distribute_purchase(amount_out, &state)?;
    let ledger = contribute(existing, user, distribution.liquidity_amount, now)?;
    Ok(
        SwapPlan {
            amount_out,
            distribution,
            ledger,
            created: ledger_data.len() == 0,
            ledger_bump,
            authority_bump,
        },
    )
}

/// SOL to YOT swap: quotes the pool once the user's SOL is in, refuses an
/// output under `min_amount_out`, splits the output at the state's rates and
/// records the liquidity part on the user's ledger; the liquidity part stays
/// in the pool.
pub fn process_sol_to_yot_swap(
    program_id: &Address,
    user: &Address,
    user_is_signer: bool,
    state_account: &Address,
    state_data: &[u8],
    authority_account: &Address,
    ledger_account: &Address,
    ledger_data: &[u8],
    amount_in: u64,
    min_amount_out: u64,
    sol_pool_balance: u64,
    yot_pool_balance: u64,
    now: i64,
) -> (r: Result<SwapPlan, MultiHubSwapError>)
    ensures
        swap_plan_is(
            r,
            sol_to_yot_outcome(
                program_id@,
                user@,
                user_is_signer,
                state_account@,
                state_data@,
                authority_account@,
                None,
                ledger_account@,
                ledger_data@,
                amount_in,
                min_amount_out,
                sol_pool_balance,
                yot_pool_balance,
                now,
            ),
        ),
{
    plan_sol_to_yot_swap(
        program_id,
        user,
        user_is_signer,
        state_account,
        state_data,
        authority_account,
        None,
        ledger_account,
        ledger_data,
        amount_in,
        min_amount_out,
        sol_pool_balance,
        yot_pool_balance,
        now,
    )
}

/// One-step SOL to YOT swap: as [`process_sol_to_yot_swap`], with the
/// liquidity part sent to the central liquidity wallet, which must be the one
/// the state records (`InvalidAccountData` otherwise).
pub fn process_sol_to_yot_swap_immediate(
    program_id: &Address,
    user: &Address,
    user_is_signer: bool,
    state_account: &Address,
    state_data: &[u8],
    authority_account: &Address,
    wallet_account: &Address,
    ledger_account: &Address,
    ledger_data: &[u8],
    amount_in: u64,
    min_amount_out: u64,
    sol_pool_balance: u64,
    yot_pool_balance: u64,
    now: i64,
) -> (r: Result<SwapPlan, MultiHubSwapError>)
    ensures
        swap_plan_is(
            r,
            sol_to_yot_outcome(
                program_id@,
                user@,
                user_is_signer,
                state_account@,
                state_data@,
                authority_account@,
                Some(wallet_account@),
                ledger_account@,
                ledger_data@,
                amount_in,
                min_amount_out,
                sol_pool_balance,
                yot_pool_balance,
                now,
            ),
        ),
{
    plan_sol_to_yot_swap(
        program_id,
        user,
        user_is_signer,
        state_account,
        state_data,
        authority_account,
        Some(wallet_account),
        ledger_account,
        ledger_data,
        amount_in,
        min_amount_out,
        sol_pool_balance,
        yot_pool_balance,
        now,
    )
}

/// What a token swap does: the split of the amount paid in; the user's part is
/// paid out of the destination pool one for one.
#[derive(Clone, Copy, Debug)]
pub struct TokenSwapPlan {
    pub distribution: DistributionResult,
    pub authority_bump: u8,
}

/// Token swap: `amount_in` is split at the state's rates, with the referral
/// share where a referrer other than the user is named; refused where the
/// user's balance is below `amount_in` or the user's part is below
/// `min_amount_out`.
pub fn process_swap(
    program_id: &Address,
    user: &Address,
    user_is_signer: bool,
    state_account: &Address,
    state_data: &[u8],
    authority_account: &Address,
    user_balance: u64,
    amount_in: u64,
    min_amount_out: u64,
    referrer: Option<Address>,
) -> (r: Result<TokenSwapPlan, MultiHubSwapError>)
    ensures
        ({
            let state_found = program_address_of(state_seeds(), program_id@);
            let authority_found = program_address_of(authority_seeds(), program_id@);
            let st = decode_state(state_data@);
            let split = split_outcome(
                amount_in,
                st.lp_contribution_rate,
                st.yos_cashback_rate,
                st.admin_fee_rate,
                match option_view(referrer) {
                    Some(x) => if x != user@ {
                        st.referral_rate
                    } else {
                        0
                    },
                    None => 0,
                },
            );
            if !user_is_signer {
                r == Err::<TokenSwapPlan, MultiHubSwapError>(MultiHubSwapError::MissingSignature)
            } else if !address_matches(state_found, state_account@) || !address_matches(
                authority_found,
                authority_account@,
            ) {
                r == Err::<TokenSwapPlan, MultiHubSwapError>(MultiHubSwapError::InvalidAccountData)
            } else if state_data@.len() < PROGRAM_STATE_LEGACY_LEN {
                r == Err::<TokenSwapPlan, MultiHubSwapError>(MultiHubSwapError::BufferTooSmall)
            } else if user_balance < amount_in {
                r == Err::<TokenSwapPlan, MultiHubSwapError>(MultiHubSwapError::InsufficientFunds)
            } else if split is None {
                r == Err::<TokenSwapPlan, MultiHubSwapError>(MultiHubSwapError::ArithmeticOverflow)
            } else if split->Some_0.user_amount < min_amount_out {
                r == Err::<TokenSwapPlan, MultiHubSwapError>(MultiHubSwapError::SlippageExceeded)
            } else {
                r is Ok && r->Ok_0.distribution == split->Some_0 && r->Ok_0.authority_bump
                    == bump_found(authority_found)
            }
        }),
{
    if !user_is_signer {
        return Err(MultiHubSwapError::MissingSignature);
    }
    check_derived_address(find_program_state_address(program_id), state_account)?;
    let authority_bump = check_derived_address(
        find_program_authority_address(program_id),
        authority_account,
    )?;
    let state = ProgramState::unpack(state_data)?;
    if user_balance < amount_in {
        return Err(MultiHubSwapError::InsufficientFunds);
    }
    let distribution = distribute_swap(amount_in, &state, user, referrer)?;
    if distribution.user_amount < min_amount_out {
        return Err(MultiHubSwapError::SlippageExceeded);
    }
    Ok(TokenSwapPlan { distribution, authority_bump })
}

/// What closing the program does to the two balances.
#[derive(Clone, Copy, Debug)]
pub struct ClosePlan {
    pub admin_lamports: u64,
    pub state_lamports: u64,
}

/// Close the state record and return its rent to the admin. Only the recorded
/// admin may, with a signature.
pub fn process_close_program(
    program_id: &Address,
    admin: &Address,
    admin_is_signer: bool,
    state_account: &Address,
    state_data: &[u8],
    authority_account: &Address,
    admin_lamports: u64,
    state_lamports: u64,
) -> (r: Result<ClosePlan, MultiHubSwapError>)
    ensures
        ({
            let state_found = program_address_of(state_seeds(), program_id@);
            let authority_found = program_address_of(authority_seeds(), program_id@);
            let st = decode_state(state_data@);
            if !address_matches(state_found, state_account@) || !address_matches(
                authority_found,
                authority_account@,
            ) {
                r == Err::<ClosePlan, MultiHubSwapError>(MultiHubSwapError::InvalidAccountData)
            } else if state_data@.len() < PROGRAM_STATE_LEGACY_LEN {
                r == Err::<ClosePlan, MultiHubSwapError>(MultiHubSwapError::BufferTooSmall)
            } else if !admin_is_signer {
                r == Err::<ClosePlan, MultiHubSwapError>(MultiHubSwapError::MissingSignature)
            } else if st.admin != admin@ {
                r == Err::<ClosePlan, MultiHubSwapError>(MultiHubSwapError::Unauthorized)
            } else if admin_lamports + state_lamports > u64::MAX {
                r == Err::<ClosePlan, MultiHubSwapError>(MultiHubSwapError::ArithmeticOverflow)
            } else {
                r == Ok::<ClosePlan, MultiHubSwapError>(
                    ClosePlan {
                        admin_lamports: (admin_lamports + state_lamports) as u64,
                        state_lamports: 0,
                    },
                )
            }
        }),
{
    check_derived_address(find_program_state_address(program_id), state_account)?;
    check_derived_address(find_program_authority_address(program_id), authority_account)?;
    let state = ProgramState::unpack(state_data)?;
    if !admin_is_signer {
        return Err(MultiHubSwapError::MissingSignature);
    }
    if !state.admin.equals(admin) {
        return Err(MultiHubSwapError::Unauthorized);
    }
    match admin_lamports.checked_add(state_lamports) {
        Some(total) => Ok(ClosePlan { admin_lamports: total, state_lamports: 0 }),
        None => Err(MultiHubSwapError::ArithmeticOverflow),
    }
}

/// `amount * reserve_b / reserve_a`: the amount of the second token that keeps
/// the pool's ratio; `InsufficientFunds` for an empty first reserve.
pub open spec fn proportional_outcome(amount: u64, reserve_a: u64, reserve_b: u64) -> Result<
    u64,
    MultiHubSwapError,
> {
    if reserve_a == 0 {
        Err(MultiHubSwapError::InsufficientFunds)
    } else if amount * reserve_b / (reserve_a as int) > u64::MAX {
        Err(MultiHubSwapError::ArithmeticOverflow)
    } else {
        Ok((amount * reserve_b / (reserve_a as int)) as u64)
    }
}

/// `amount * reserve_b / reserve_a`, in 128 bits.
pub fn proportional_amount(amount: u64, reserve_a: u64, reserve_b: u64) -> (r: Result<
    u64,
    MultiHubSwapError,
>)
    ensures
        r == proportional_outcome(amount, reserve_a, reserve_b),
{
    if reserve_a == 0 {
        return Err(MultiHubSwapError::InsufficientFunds);
    }
    let a = amount as u128;
    let b = reserve_b as u128;
    assert(a * b <= u64::MAX * u64::MAX) by (nonlinear_arith)
        requires
            a <= u64::MAX,
            b <= u64::MAX,
    ;
    let out = a * b / (reserve_a as u128);
    if out > u64::MAX as u128 {
        Err(MultiHubSwapError::ArithmeticOverflow)
    } else {
        Ok(out as u64)
    }
}

/// What sweeping the central liquidity wallet into the pool moves.
#[derive(Clone, Copy, Debug)]
pub struct AddLiquidityPlan {
    pub sol_amount: u64,
    pub yot_amount: u64,
    pub lp_amount: u64,
    pub authority_bump: u8,
}

/// Sweep the central liquidity wallet into the SOL-YOT pool: half of its SOL,
/// with the YOT that keeps the pool's ratio, for LP shares numbering the
/// integer square root of the product of the two deposits. Only the admin may, with a
/// signature, from the recorded wallet, once its SOL balance reaches the
/// threshold and its YOT balance covers the YOT part.
pub fn process_add_liquidity_from_central_wallet(
    program_id: &Address,
    admin: &Address,
    admin_is_signer: bool,
    state_account: &Address,
    state_data: &[u8],
    authority_account: &Address,
    wallet_account: &Address,
    wallet_sol_balance: u64,
    wallet_yot_balance: u64,
    sol_pool_balance: u64,
    yot_pool_balance: u64,
) -> (r: Result<AddLiquidityPlan, MultiHubSwapError>)
    ensures
        ({
            let state_found = program_address_of(state_seeds(), program_id@);
            let authority_found = program_address_of(authority_seeds(), program_id@);
            let st = decode_state(state_data@);
            let sol_amount = (wallet_sol_balance / 2) as u64;
            let yot = proportional_outcome(sol_amount, sol_pool_balance, yot_pool_balance);
            if !admin_is_signer {
                r == Err::<AddLiquidityPlan, MultiHubSwapError>(
                    MultiHubSwapError::MissingSignature,
                )
            } else if !address_matches(state_found, state_account@) || !address_matches(
                authority_found,
                authority_account@,
            ) {
                r == Err::<AddLiquidityPlan, MultiHubSwapError>(
                    MultiHubSwapError::InvalidAccountData,
                )
            } else if state_data@.len() < PROGRAM_STATE_LEGACY_LEN {
                r == Err::<AddLiquidityPlan, MultiHubSwapError>(MultiHubSwapError::BufferTooSmall)
            } else if st.admin != admin@ {
                r == Err::<AddLiquidityPlan, MultiHubSwapError>(MultiHubSwapError::Unauthorized)
            } else if st.liquidity_wallet != wallet_account@ {
                r == Err::<AddLiquidityPlan, MultiHubSwapError>(
                    MultiHubSwapError::InvalidAccountData,
                )
            } else if wallet_sol_balance < st.liquidity_threshold {
                r == Err::<AddLiquidityPlan, MultiHubSwapError>(
                    MultiHubSwapError::InsufficientFunds,
                )
            } else if yot is Err {
                r == Err::<AddLiquidityPlan, MultiHubSwapError>(yot->Err_0)
            } else if wallet_yot_balance < yot->Ok_0 {
                r == Err::<AddLiquidityPlan, MultiHubSwapError>(
                    MultiHubSwapError::InsufficientFunds,
                )
            } else {
                r is Ok && r->Ok_0.sol_amount == sol_amount && r->Ok_0.yot_amount == yot->Ok_0
                    && is_integer_sqrt(sol_amount * yot->Ok_0, r->Ok_0.lp_amount as int)
                    && r->Ok_0.authority_bump == bump_found(authority_found)
            }
        }),
{
    if !admin_is_signer {
        return Err(MultiHubSwapError::MissingSignature);
    }
    check_derived_address(find_program_state_address(program_id), state_account)?;
    let authority_bump = check_derived_address(
        find_program_authority_address(program_id),
        authority_account,
    )?;
    let state = ProgramState::unpack(state_data)?;
    if !state.admin.equals(admin) {
        return Err(MultiHubSwapError::Unauthorized);
    }
    if !state.liquidity_wallet.equals(wallet_account) {
        return Err(MultiHubSwapError::InvalidAccountData);
    }
    if wallet_sol_balance < state.liquidity_threshold {
        return Err(MultiHubSwapError::InsufficientFunds);
    }
    let sol_amount = wallet_sol_balance / 2;
    let yot_amount = proportional_amount(sol_amount, sol_pool_balance, yot_pool_balance)?;
    if wallet_yot_balance < yot_amount {
        return Err(MultiHubSwapError::InsufficientFunds);
    }
    let a = sol_amount as u128;
    let b = yot_amount as u128;
    assert(a * b <= u64::MAX * u64::MAX) by (nonlinear_arith)
        requires
            a <= u64::MAX,
            b <= u64::MAX,
    ;
    let lp_amount = integer_sqrt(a * b);
    Ok(AddLiquidityPlan { sol_amount, yot_amount, lp_amount, authority_bump })
}

/// A sale records a tenth of the YOT value of its liquidity part on the
/// seller's ledger.
pub const SELL_CONTRIBUTION_DIVISOR: u64 = 10;

/// What a YOT to SOL swap does: the SOL output of the pool, its split, the YOT
/// value credited to the seller's ledger and the ledger after it.
#[derive(Clone, Copy, Debug)]
pub struct SaleSwapPlan {
    pub amount_out: u64,
    pub distribution: DistributionResult,
    pub ledger_credit: u64,
    pub ledger: LiquidityContribution,
    pub created: bool,
    pub ledger_bump: u8,
    pub authority_bump: u8,
}

/// YOT to SOL swap: quotes the pool once the user's YOT is in, refuses an
/// output under `min_amount_out`, splits the SOL output at the state's rates
/// (the liquidity part to the central wallet, which must be the recorded one)
/// and credits the seller's ledger with a tenth of the YOT value of the
/// liquidity part at the pool's ratio.
pub fn process_yot_to_sol_swap(
    program_id: &Address,
    user: &Address,
    user_is_signer: bool,
    state_account: &Address,
    state_data: &[u8],
    authority_account: &Address,
    wallet_account: &Address,
    ledger_account: &Address,
    ledger_data: &[u8],
    amount_in: u64,
    min_amount_out: u64,
    sol_pool_balance: u64,
    yot_pool_balance: u64,
    now: i64,
) -> (r: Result<SaleSwapPlan, MultiHubSwapError>)
    ensures
        ({
            let state_found = program_address_of(state_seeds(), program_id@);
            let authority_found = program_address_of(authority_seeds(), program_id@);
            let ledger_found = program_address_of(ledger_seeds(user@), program_id@);
            let st = decode_state(state_data@);
            let quote = quote_outcome(amount_in, yot_pool_balance, sol_pool_balance);
            if !user_is_signer {
                r == Err::<SaleSwapPlan, MultiHubSwapError>(MultiHubSwapError::MissingSignature)
            } else if !address_matches(state_found, state_account@) || !address_matches(
                authority_found,
                authority_account@,
            ) || !address_matches(ledger_found, ledger_account@) {
                r == Err::<SaleSwapPlan, MultiHubSwapError>(MultiHubSwapError::InvalidAccountData)
            } else if state_data@.len() < PROGRAM_STATE_LEGACY_LEN || (0 < ledger_data@.len()
                < LIQUIDITY_CONTRIBUTION_LEN) {
                r == Err::<SaleSwapPlan, MultiHubSwapError>(MultiHubSwapError::BufferTooSmall)
            } else if st.liquidity_wallet != wallet_account@ {
                r == Err::<SaleSwapPlan, MultiHubSwapError>(MultiHubSwapError::InvalidAccountData)
            } else if quote is Err {
                r == Err::<SaleSwapPlan, MultiHubSwapError>(quote->Err_0)
            } else if quote->Ok_0 < min_amount_out {
                r == Err::<SaleSwapPlan, MultiHubSwapError>(MultiHubSwapError::SlippageExceeded)
            } else {
                let split = split_outcome(
                    quote->Ok_0,
                    st.lp_contribution_rate,
                    st.yos_cashback_rate,
                    0,
                    0,
                );
                if split is None {
                    r == Err::<SaleSwapPlan, MultiHubSwapError>(
                        MultiHubSwapError::ArithmeticOverflow,
                    )
                } else {
                    let value = proportional_outcome(
                        split->Some_0.liquidity_amount,
                        sol_pool_balance,
                        yot_pool_balance,
                    );
                    if value is Err {
                        r == Err::<SaleSwapPlan, MultiHubSwapError>(value->Err_0)
                    } else {
                        let credit = (value->Ok_0 / SELL_CONTRIBUTION_DIVISOR) as u64;
                        match contribute_result(stored_ledger(ledger_data@), user@, credit, now) {
                            Ok(l) => r is Ok && r->Ok_0.amount_out == quote->Ok_0
                                && r->Ok_0.distribution == split->Some_0 && r->Ok_0.ledger_credit
                                == credit && r->Ok_0.ledger@ == l && r->Ok_0.created == (
                            ledger_data@.len() == 0) && r->Ok_0.ledger_bump == bump_found(
                                ledger_found,
                            ) && r->Ok_0.authority_bump == bump_found(authority_found),
                            Err(e) => r == Err::<SaleSwapPlan, MultiHubSwapError>(e),
                        }
                    }
                }
            }
        }),
{
    if !user_is_signer {
        return Err(MultiHubSwapError::MissingSignature);
    }
    check_derived_address(find_program_state_address(program_id), state_account)?;
    let authority_bump = check_derived_address(
        find_program_authority_address(program_id),
        authority_account,
    )?;
    let ledger_bump = check_derived_address(
        find_liquidity_contribution_address(user, program_id),
        ledger_account,
    )?;
    let state = ProgramState::unpack(state_data)?;
    let existing = load_ledger(ledger_data)?;
    if !state.liquidity_wallet.equals(wallet_account) {
        return Err(MultiHubSwapError::InvalidAccountData);
    }
    let amount_out = quote_output(amount_in, yot_pool_balance, sol_pool_balance)?;
    if amount_out < min_amount_out {
        return Err(MultiHubSwapError::SlippageExceeded);
    }
    let distribution = distribute_purchase(amount_out, &state)?;
    let value = proportional_amount(distribution.liquidity_amount, sol_pool_balance, yot_pool_balance)?;
    let ledger_credit = value / SELL_CONTRIBUTION_DIVISOR;
    let ledger = contribute(existing, user, ledger_credit, now)?;
    Ok(
        SaleSwapPlan {
            amount_out,
            distribution,
            ledger_credit,
            ledger,
            created: ledger_data.len() == 0,
            ledger_bump,
            authority_bump,
        },
    )
}

/// Create the user's ledger ahead of a swap: `None` where the account holds a
/// record already, else the empty ledger opened at `now` and the bump to create
/// its account with.
pub fn process_create_liquidity_account(
    program_id: &Address,
    user: &Address,
    user_is_signer: bool,
    ledger_account: &Address,
    ledger_is_empty: bool,
    now: i64,
) -> (r: Result<Option<(LiquidityContribution, u8)>, MultiHubSwapError>)
    ensures
        ({
            let ledger_found = program_address_of(ledger_seeds(user@), program_id@);
            if !user_is_signer {
                r == Err::<Option<(LiquidityContribution, u8)>, MultiHubSwapError>(
                    MultiHubSwapError::MissingSignature,
                )
            } else if !ledger_is_empty {
                r == Ok::<Option<(LiquidityContribution, u8)>, MultiHubSwapError>(None)
            } else if !address_matches(ledger_found, ledger_account@) {
                r == Err::<Option<(LiquidityContribution, u8)>, MultiHubSwapError>(
                    MultiHubSwapError::InvalidAccountData,
                )
            } else {
                r is Ok && r->Ok_0 is Some && r->Ok_0->Some_0.0@ == fresh_ledger(user@, 0, now)
                    && r->Ok_0->Some_0.1 == bump_found(ledger_found)
            }
        }),
{
    if !user_is_signer {
        return Err(MultiHubSwapError::MissingSignature);
    }
    if !ledger_is_empty {
        return Ok(None);
    }
    let bump = check_derived_address(
        find_liquidity_contribution_address(user, program_id),
        ledger_account,
    )?;
    let ledger = LiquidityContribution {
        user: *user,
        contributed_amount: 0,
        start_timestamp: now,
        last_claim_time: now,
        total_claimed_yos: 0,
    };
    Ok(Some((ledger, bump)))
}

} // verus!
