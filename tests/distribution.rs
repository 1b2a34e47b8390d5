use multihub_swap::address::Address;
use multihub_swap::distribution::{
    calculate_share, calculate_yos_cashback, distribute_purchase, distribute_swap, split,
    DistributionResult,
};
use multihub_swap::error::MultiHubSwapError;
use multihub_swap::state::ProgramState;

fn state_with_rates() -> ProgramState {
    ProgramState {
        admin: Address::new_from_array([1u8; 32]),
        yot_mint: Address::new_from_array([2u8; 32]),
        yos_mint: Address::new_from_array([3u8; 32]),
        lp_contribution_rate: 2000,
        admin_fee_rate: 10,
        yos_cashback_rate: 500,
        swap_fee_rate: 30,
        referral_rate: 50,
        liquidity_wallet: Address::new_from_array([4u8; 32]),
        liquidity_threshold: 100_000_000,
    }
}

#[test]
fn buy_and_distribute_split_scenario() {
    let d = distribute_purchase(1_000_000, &state_with_rates()).unwrap();
    assert_eq!(d.user_amount, 750_000);
    assert_eq!(d.liquidity_amount, 200_000);
    assert_eq!(d.reward_amount, 50_000);
    assert_eq!(d.admin_fee, 0);
    assert_eq!(d.referral_amount, 0);
}

#[test]
fn split_parts_add_up() {
    for &gross in &[0u64, 1, 7, 9_999, 10_001, 123_456_789, u64::MAX] {
        let d = split(gross, 5000, 2000, 1000, 1000).unwrap();
        let total = d.user_amount as u128
            + d.liquidity_amount as u128
            + d.reward_amount as u128
            + d.admin_fee as u128
            + d.referral_amount as u128;
        assert_eq!(total, gross as u128);
    }
}

#[test]
fn split_rounds_down_and_user_takes_remainder() {
    let d = split(9_999, 2000, 500, 10, 50).unwrap();
    assert_eq!(
        d,
        DistributionResult {
            user_amount: 9_999 - 1_999 - 499 - 9 - 49,
            liquidity_amount: 1_999,
            reward_amount: 499,
            admin_fee: 9,
            referral_amount: 49,
        }
    );
}

#[test]
fn split_of_zero_is_all_zero() {
    let d = split(0, 2000, 500, 10, 50).unwrap();
    assert_eq!(d, DistributionResult { user_amount: 0, liquidity_amount: 0, reward_amount: 0, admin_fee: 0, referral_amount: 0 });
}

#[test]
fn split_over_one_whole_overflows() {
    assert_eq!(split(1_000, 6000, 5000, 0, 0), Err(MultiHubSwapError::ArithmeticOverflow));
    assert_eq!(calculate_share(u64::MAX, 20_000), Err(MultiHubSwapError::ArithmeticOverflow));
    assert_eq!(calculate_share(u64::MAX, 10_000), Ok(u64::MAX));
}

#[test]
fn swap_split_takes_fees_and_referral() {
    let s = state_with_rates();
    let user = Address::new_from_array([8u8; 32]);
    let other = Address::new_from_array([5u8; 32]);
    let d = distribute_swap(1_000_000, &s, &user, Some(other)).unwrap();
    assert_eq!(d.liquidity_amount, 200_000);
    assert_eq!(d.reward_amount, 50_000);
    assert_eq!(d.admin_fee, 1_000);
    assert_eq!(d.referral_amount, 5_000);
    assert_eq!(d.user_amount, 744_000);
    let own = distribute_swap(1_000_000, &s, &user, Some(user)).unwrap();
    assert_eq!(own.referral_amount, 0);
    assert_eq!(own.user_amount, 749_000);
    let none = distribute_swap(1_000_000, &s, &user, None).unwrap();
    assert_eq!(none.referral_amount, 0);
}

#[test]
fn yos_cashback_is_per_mille_and_saturates() {
    assert_eq!(calculate_yos_cashback(1_000_000, &30), Ok(30_000));
    assert_eq!(calculate_yos_cashback(999, &1), Ok(0));
    assert_eq!(calculate_yos_cashback(u64::MAX, &2), Ok(u64::MAX / 1000));
}
