//! The distribution engine: splitting a gross amount between the user, the
//! liquidity pool, the reward cashback and, where they apply, the admin fee and
//! a referrer.
use vstd::prelude::*;
use crate::address::Address;
use crate::error::MultiHubSwapError;
use crate::state::{ProgramState, MAX_CASHBACK_RATE, MAX_LP_CONTRIBUTION_RATE, MAX_OTHER_RATE};

verus! {

/// How a gross amount is divided. The user receives what the other parts leave.
#[derive(Clone, Copy, Debug, PartialEq, Eq, Structural)]
pub struct DistributionResult {
    pub user_amount: u64,
    pub liquidity_amount: u64,
    pub reward_amount: u64,
    pub admin_fee: u64,
    pub referral_amount: u64,
}

/// The part of `gross` that `rate` basis points stand for, rounded down.
pub open spec fn share(gross: u64, rate: u64) -> int {
    gross * rate / 10_000
}

/// The split of `gross` at the given rates, or `None` where the rated parts
/// together exceed `gross`.
pub open spec fn split_outcome(
    gross: u64,
    lp_rate: u64,
    cashback_rate: u64,
    admin_fee_rate: u64,
    referral_rate: u64,
) -> Option<DistributionResult> {
    let l = share(gross, lp_rate);
    let c = share(gross, cashback_rate);
    let a = share(gross, admin_fee_rate);
    let f = share(gross, referral_rate);
    if l + c + a + f <= gross {
        Some(
            DistributionResult {
                user_amount: (gross - (l + c + a + f)) as u64,
                liquidity_amount: l as u64,
                reward_amount: c as u64,
                admin_fee: a as u64,
                referral_amount: f as u64,
            },
        )
    } else {
        None
    }
}

/// The sum of all parts of a split.
pub open spec fn distribution_total(d: DistributionResult) -> int {
    d.user_amount + d.liquidity_amount + d.reward_amount + d.admin_fee + d.referral_amount
}

/// `gross * rate / 10000`, computed in 128 bits; `ArithmeticOverflow` where the
/// result does not fit in 64.
pub fn calculate_share(gross: u64, rate: u64) -> (r: Result<u64, MultiHubSwapError>)
    ensures
        share(gross, rate) <= u64::MAX ==> r == Ok::<u64, MultiHubSwapError>(
            share(gross, rate) as u64,
        ),
        share(gross, rate) > u64::MAX ==> r == Err::<u64, MultiHubSwapError>(
            MultiHubSwapError::ArithmeticOverflow,
        ),
{
    let g = gross as u128;
    let k = rate as u128;
    assert(g * k <= u64::MAX * u64::MAX) by (nonlinear_arith)
        requires
            g <= u64::MAX,
            k <= u64::MAX,
    ;
    let wide = g * k / 10_000u128;
    if wide > u64::MAX as u128 {
        Err(MultiHubSwapError::ArithmeticOverflow)
    } else {
        Ok(wide as u64)
    }
}

/// Splits `gross` at the given basis-point rates. Each rated part is
/// `gross * rate / 10000`; the user's part is the remainder, so the parts always
/// add up to `gross` exactly. `ArithmeticOverflow` where the rated parts
/// together exceed `gross`.
pub fn split(
    gross: u64,
    lp_rate: u64,
    cashback_rate: u64,
    admin_fee_rate: u64,
    referral_rate: u64,
) -> (r: Result<DistributionResult, MultiHubSwapError>)
    ensures
        match split_outcome(gross, lp_rate, cashback_rate, admin_fee_rate, referral_rate) {
            Some(d) => r == Ok::<DistributionResult, MultiHubSwapError>(d),
            None => r == Err::<DistributionResult, MultiHubSwapError>(
                MultiHubSwapError::ArithmeticOverflow,
            ),
        },
{
    let l = calculate_share(gross, lp_rate)?;
    let c = calculate_share(gross, cashback_rate)?;
    let a = calculate_share(gross, admin_fee_rate)?;
    let f = calculate_share(gross, referral_rate)?;
    let rest = match gross.checked_sub(l) {
        Some(x) => x,
        None => return Err(MultiHubSwapError::ArithmeticOverflow),
    };
    let rest = match rest.checked_sub(c) {
        Some(x) => x,
        None => return Err(MultiHubSwapError::ArithmeticOverflow),
    };
    let rest = match rest.checked_sub(a) {
        Some(x) => x,
        None => return Err(MultiHubSwapError::ArithmeticOverflow),
    };
    let rest = match rest.checked_sub(f) {
        Some(x) => x,
        None => return Err(MultiHubSwapError::ArithmeticOverflow),
    };
    Ok(
        DistributionResult {
            user_amount: rest,
            liquidity_amount: l,
            reward_amount: c,
            admin_fee: a,
            referral_amount: f,
        },
    )
}

/// The split of a purchase (buy and distribute): the liquidity contribution and
/// the cashback at the state's rates, the rest to the user; no admin fee or
/// referral is taken.
pub fn distribute_purchase(gross: u64, state: &ProgramState) -> (r: Result<
    DistributionResult,
    MultiHubSwapError,
>)
    ensures
        match split_outcome(gross, state.lp_contribution_rate, state.yos_cashback_rate, 0, 0) {
            Some(d) => r == Ok::<DistributionResult, MultiHubSwapError>(d),
            None => r == Err::<DistributionResult, MultiHubSwapError>(
                MultiHubSwapError::ArithmeticOverflow,
            ),
        },
{
    split(gross, state.lp_contribution_rate, state.yos_cashback_rate, 0, 0)
}

/// The referral rate that applies to a swap by `user`: the state's rate where
/// a referrer other than the user is named, else zero.
pub open spec fn applied_referral_rate(
    state: ProgramState,
    user: Seq<u8>,
    referrer: Option<Seq<u8>>,
) -> u64 {
    match referrer {
        Some(r) => if r != user {
            state.referral_rate
        } else {
            0
        },
        None => 0,
    }
}

pub open spec fn option_view(a: Option<Address>) -> Option<Seq<u8>> {
    match a {
        Some(x) => Some(x@),
        None => None,
    }
}

/// The split of a swap: the liquidity contribution, the cashback and the admin
/// fee at the state's rates, and the referral share where a referrer other than
/// the user is named.
pub fn distribute_swap(
    gross: u64,
    state: &ProgramState,
    user: &Address,
    referrer: Option<Address>,
) -> (r: Result<DistributionResult, MultiHubSwapError>)
    ensures
        match split_outcome(
            gross,
            state.lp_contribution_rate,
            state.yos_cashback_rate,
            state.admin_fee_rate,
            applied_referral_rate(*state, user@, option_view(referrer)),
        ) {
            Some(d) => r == Ok::<DistributionResult, MultiHubSwapError>(d),
            None => r == Err::<DistributionResult, MultiHubSwapError>(
                MultiHubSwapError::ArithmeticOverflow,
            ),
        },
{
    let referral_rate = match referrer {
        Some(x) => if x.equals(user) {
            0
        } else {
            state.referral_rate
        },
        None => 0,
    };
    split(gross, state.lp_contribution_rate, state.yos_cashback_rate, state.admin_fee_rate, referral_rate)
}

/// Cashback of `amount_in` at `cashback_percent` tenths of a percent, with the
/// product saturating at the largest `u64`.
pub fn calculate_yos_cashback(amount_in: u64, cashback_percent: &u8) -> (r: Result<
    u64,
    MultiHubSwapError,
>)
    ensures
        r == Ok::<u64, MultiHubSwapError>(
            (if amount_in * (*cashback_percent as int) > u64::MAX {
                u64::MAX as int
            } else {
                amount_in * (*cashback_percent as int)
            } / 1000) as u64,
        ),
{
    let product = match amount_in.checked_mul(*cashback_percent as u64) {
        Some(p) => p,
        None => u64::MAX,
    };
    Ok(product / 1000)
}

/// Where every rate is within its bound the split succeeds and its parts add
/// up to the gross amount exactly.
pub proof fn lemma_split_exact(
    gross: u64,
    lp_rate: u64,
    cashback_rate: u64,
    admin_fee_rate: u64,
    referral_rate: u64,
)
    requires
        lp_rate <= MAX_LP_CONTRIBUTION_RATE,
        cashback_rate <= MAX_CASHBACK_RATE,
        admin_fee_rate <= MAX_OTHER_RATE,
        referral_rate <= MAX_OTHER_RATE,
    ensures
        split_outcome(gross, lp_rate, cashback_rate, admin_fee_rate, referral_rate) is Some,
        distribution_total(
            split_outcome(gross, lp_rate, cashback_rate, admin_fee_rate, referral_rate)->Some_0,
        ) == gross,
{
    lemma_shares_fit(gross, lp_rate, cashback_rate, admin_fee_rate, referral_rate);
}

proof fn lemma_shares_fit(gross: u64, l: u64, c: u64, a: u64, f: u64)
    requires
        l + c + a + f <= 10_000,
    ensures
        share(gross, l) + share(gross, c) + share(gross, a) + share(gross, f) <= gross,
        share(gross, l) >= 0,
        share(gross, c) >= 0,
        share(gross, a) >= 0,
        share(gross, f) >= 0,
{
    let g = gross as int;
    assert(g * l / 10_000 + g * c / 10_000 + g * a / 10_000 + g * f / 10_000 <= g) by (
    nonlinear_arith)
        requires
            g >= 0,
            l >= 0,
            c >= 0,
            a >= 0,
            f >= 0,
            l + c + a + f <= 10_000,
    {
        assert(g * l / 10_000 * 10_000 <= g * l);
        assert(g * c / 10_000 * 10_000 <= g * c);
        assert(g * a / 10_000 * 10_000 <= g * a);
        assert(g * f / 10_000 * 10_000 <= g * f);
        assert(g * l + g * c + g * a + g * f == g * (l + c + a + f));
        assert(g * (l + c + a + f) <= g * 10_000);
    }
    assert(g * l / 10_000 >= 0 && g * c / 10_000 >= 0 && g * a / 10_000 >= 0 && g * f / 10_000
        >= 0) by (nonlinear_arith)
        requires
            g >= 0,
            l >= 0,
            c >= 0,
            a >= 0,
            f >= 0,
    ;
}

} // verus!
