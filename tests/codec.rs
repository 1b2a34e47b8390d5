use multihub_swap::address::Address;
use multihub_swap::contribution::{LiquidityContribution, LIQUIDITY_CONTRIBUTION_LEN};
use multihub_swap::error::MultiHubSwapError;
use multihub_swap::state::{
    ProgramState, DEFAULT_LIQUIDITY_THRESHOLD, PROGRAM_STATE_LEGACY_LEN, PROGRAM_STATE_LEN,
};

fn sample_state() -> ProgramState {
    ProgramState {
        admin: Address::new_from_array([1u8; 32]),
        yot_mint: Address::new_from_array([2u8; 32]),
        yos_mint: Address::new_from_array([3u8; 32]),
        lp_contribution_rate: 2000,
        admin_fee_rate: 10,
        yos_cashback_rate: 500,
        swap_fee_rate: 30,
        referral_rate: 50,
        liquidity_wallet: Address::new_from_array([4u8; 32]),
        liquidity_threshold: 123_456_789,
    }
}

fn sample_ledger() -> LiquidityContribution {
    LiquidityContribution {
        user: Address::new_from_array([9u8; 32]),
        contributed_amount: 200_000,
        start_timestamp: -5,
        last_claim_time: 1_700_000_000,
        total_claimed_yos: u64::MAX,
    }
}

#[test]
fn program_state_round_trip() {
    let s = sample_state();
    let mut buf = vec![0xAAu8; PROGRAM_STATE_LEN + 3];
    s.pack(&mut buf).unwrap();
    assert_eq!(&buf[PROGRAM_STATE_LEN..], &[0xAA, 0xAA, 0xAA]);
    assert_eq!(ProgramState::unpack(&buf).unwrap(), s);
}

#[test]
fn program_state_layout_offsets() {
    let s = sample_state();
    let mut buf = vec![0u8; PROGRAM_STATE_LEN];
    s.pack(&mut buf).unwrap();
    assert_eq!(&buf[0..32], &[1u8; 32]);
    assert_eq!(&buf[96..104], &2000u64.to_le_bytes());
    assert_eq!(&buf[104..112], &10u64.to_le_bytes());
    assert_eq!(&buf[112..120], &500u64.to_le_bytes());
    assert_eq!(&buf[120..128], &30u64.to_le_bytes());
    assert_eq!(&buf[128..136], &50u64.to_le_bytes());
    assert_eq!(&buf[136..168], &[4u8; 32]);
    assert_eq!(&buf[168..176], &123_456_789u64.to_le_bytes());
}

#[test]
fn legacy_program_state_decodes_with_defaults() {
    let s = sample_state();
    let mut buf = vec![0u8; PROGRAM_STATE_LEN];
    s.pack(&mut buf).unwrap();
    let legacy = &buf[..PROGRAM_STATE_LEGACY_LEN];
    let d = ProgramState::unpack(legacy).unwrap();
    assert_eq!(d.admin, s.admin);
    assert_eq!(d.yot_mint, s.yot_mint);
    assert_eq!(d.yos_mint, s.yos_mint);
    assert_eq!(d.lp_contribution_rate, 2000);
    assert_eq!(d.referral_rate, 50);
    assert_eq!(d.liquidity_wallet, Address::new_from_array([0u8; 32]));
    assert_eq!(d.liquidity_threshold, DEFAULT_LIQUIDITY_THRESHOLD);
    assert_eq!(d.liquidity_threshold, 100_000_000);
}

#[test]
fn program_state_short_buffers_fail() {
    assert_eq!(
        ProgramState::unpack(&[0u8; PROGRAM_STATE_LEGACY_LEN - 1]),
        Err(MultiHubSwapError::BufferTooSmall)
    );
    let mut small = vec![7u8; PROGRAM_STATE_LEN - 1];
    assert_eq!(sample_state().pack(&mut small), Err(MultiHubSwapError::BufferTooSmall));
    assert_eq!(small, vec![7u8; PROGRAM_STATE_LEN - 1]);
}

#[test]
fn ledger_round_trip() {
    let l = sample_ledger();
    let mut buf = vec![0u8; LIQUIDITY_CONTRIBUTION_LEN];
    l.pack(&mut buf).unwrap();
    assert_eq!(&buf[32..40], &200_000u64.to_le_bytes());
    assert_eq!(&buf[40..48], &(-5i64).to_le_bytes());
    assert_eq!(LiquidityContribution::unpack(&buf).unwrap(), l);
}

#[test]
fn ledger_short_buffers_fail() {
    assert_eq!(
        LiquidityContribution::unpack(&[0u8; LIQUIDITY_CONTRIBUTION_LEN - 1]),
        Err(MultiHubSwapError::BufferTooSmall)
    );
    let mut small = vec![0u8; 10];
    assert_eq!(sample_ledger().pack(&mut small), Err(MultiHubSwapError::BufferTooSmall));
}
