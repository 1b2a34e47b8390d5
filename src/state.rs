//! The program-wide configuration record and its byte layout.
use vstd::prelude::*;
use crate::address::Address;
use crate::bytes::{
    le_bytes,
    le_value,
    lemma_le_round_trip,
    read_bytes32,
    read_u64_le,
    write_bytes32,
    write_u64_le,
};
use crate::error::MultiHubSwapError;

verus! {

/// Size of the current record: three identities, five rates, the central
/// liquidity wallet and its threshold.
pub const PROGRAM_STATE_LEN: usize = 176;

/// Size of the record written by the first schema, without the wallet and threshold.
pub const PROGRAM_STATE_LEGACY_LEN: usize = 136;

/// Threshold given to records of the first schema (0.1 SOL in lamports).
pub const DEFAULT_LIQUIDITY_THRESHOLD: u64 = 100_000_000;

/// Basis points in one whole.
pub const BASIS_POINTS: u64 = 10_000;

/// Largest liquidity contribution rate, in basis points.
pub const MAX_LP_CONTRIBUTION_RATE: u64 = 5_000;

/// Largest reward cashback rate, in basis points (20%).
pub const MAX_CASHBACK_RATE: u64 = 2_000;

/// Largest admin fee, swap fee and referral rate, in basis points.
pub const MAX_OTHER_RATE: u64 = 1_000;

/// Global configuration: who administers the program, which tokens it moves,
/// and the rates of the distribution split.
#[derive(Clone, Copy, Debug, PartialEq, Eq)]
pub struct ProgramState {
    pub admin: Address,
    pub yot_mint: Address,
    pub yos_mint: Address,
    pub lp_contribution_rate: u64,
    pub admin_fee_rate: u64,
    pub yos_cashback_rate: u64,
    pub swap_fee_rate: u64,
    pub referral_rate: u64,
    pub liquidity_wallet: Address,
    pub liquidity_threshold: u64,
}

/// The mathematical model of a [`ProgramState`].
pub struct ProgramStateView {
    pub admin: Seq<u8>,
    pub yot_mint: Seq<u8>,
    pub yos_mint: Seq<u8>,
    pub lp_contribution_rate: u64,
    pub admin_fee_rate: u64,
    pub yos_cashback_rate: u64,
    pub swap_fee_rate: u64,
    pub referral_rate: u64,
    pub liquidity_wallet: Seq<u8>,
    pub liquidity_threshold: u64,
}

impl View for ProgramState {
    type V = ProgramStateView;

    open spec fn view(&self) -> ProgramStateView {
        ProgramStateView {
            admin: self.admin@,
            yot_mint: self.yot_mint@,
            yos_mint: self.yos_mint@,
            lp_contribution_rate: self.lp_contribution_rate,
            admin_fee_rate: self.admin_fee_rate,
            yos_cashback_rate: self.yos_cashback_rate,
            swap_fee_rate: self.swap_fee_rate,
            referral_rate: self.referral_rate,
            liquidity_wallet: self.liquidity_wallet@,
            liquidity_threshold: self.liquidity_threshold,
        }
    }
}

/// The all-zero identity.
pub open spec fn zero_identity() -> Seq<u8> {
    Seq::new(32, |i: int| 0u8)
}

/// Every identity of the model is 32 bytes long.
pub open spec fn state_view_well_formed(v: ProgramStateView) -> bool {
    &&& v.admin.len() == 32
    &&& v.yot_mint.len() == 32
    &&& v.yos_mint.len() == 32
    &&& v.liquidity_wallet.len() == 32
}

/// The bytes of the current layout.
pub open spec fn encode_state(v: ProgramStateView) -> Seq<u8> {
    v.admin + v.yot_mint + v.yos_mint + le_bytes(v.lp_contribution_rate) + le_bytes(
        v.admin_fee_rate,
    ) + le_bytes(v.yos_cashback_rate) + le_bytes(v.swap_fee_rate) + le_bytes(v.referral_rate)
        + v.liquidity_wallet + le_bytes(v.liquidity_threshold)
}

/// The record held by a buffer of at least the legacy size: a buffer shorter
/// than the current layout is read as the legacy layout, with the zero identity
/// as wallet and the default threshold.
pub open spec fn decode_state(b: Seq<u8>) -> ProgramStateView {
    let current = b.len() >= PROGRAM_STATE_LEN;
    ProgramStateView {
        admin: b.subrange(0, 32),
        yot_mint: b.subrange(32, 64),
        yos_mint: b.subrange(64, 96),
        lp_contribution_rate: le_value(b.subrange(96, 104)),
        admin_fee_rate: le_value(b.subrange(104, 112)),
        yos_cashback_rate: le_value(b.subrange(112, 120)),
        swap_fee_rate: le_value(b.subrange(120, 128)),
        referral_rate: le_value(b.subrange(128, 136)),
        liquidity_wallet: if current {
            b.subrange(136, 168)
        } else {
            zero_identity()
        },
        liquidity_threshold: if current {
            le_value(b.subrange(168, 176))
        } else {
            DEFAULT_LIQUIDITY_THRESHOLD
        },
    }
}

/// Each rate within its bound; the bounds add up to one whole, so the rates do
/// too.
pub open spec fn rates_valid(
    lp_contribution_rate: u64,
    admin_fee_rate: u64,
    yos_cashback_rate: u64,
    swap_fee_rate: u64,
    referral_rate: u64,
) -> bool {
    &&& lp_contribution_rate <= MAX_LP_CONTRIBUTION_RATE
    &&& admin_fee_rate <= MAX_OTHER_RATE
    &&& yos_cashback_rate <= MAX_CASHBACK_RATE
    &&& swap_fee_rate <= MAX_OTHER_RATE
    &&& referral_rate <= MAX_OTHER_RATE
}

/// `InvalidParameter` unless every rate is within its bound.
pub fn validate_rates(
    lp_contribution_rate: u64,
    admin_fee_rate: u64,
    yos_cashback_rate: u64,
    swap_fee_rate: u64,
    referral_rate: u64,
) -> (r: Result<(), MultiHubSwapError>)
    ensures
        r is Ok <==> rates_valid(
            lp_contribution_rate,
            admin_fee_rate,
            yos_cashback_rate,
            swap_fee_rate,
            referral_rate,
        ),
        r is Err ==> r == Err::<(), MultiHubSwapError>(MultiHubSwapError::InvalidParameter),
{
    if lp_contribution_rate > MAX_LP_CONTRIBUTION_RATE || admin_fee_rate > MAX_OTHER_RATE
        || yos_cashback_rate > MAX_CASHBACK_RATE || swap_fee_rate > MAX_OTHER_RATE || referral_rate
        > MAX_OTHER_RATE {
        Err(MultiHubSwapError::InvalidParameter)
    } else {
        Ok(())
    }
}

impl ProgramState {
    pub open spec fn rates_valid(&self) -> bool {
        rates_valid(
            self.lp_contribution_rate,
            self.admin_fee_rate,
            self.yos_cashback_rate,
            self.swap_fee_rate,
            self.referral_rate,
        )
    }

    /// Reads a record from account data. A buffer of the current size or longer
    /// is read in the current layout; one of the legacy size up to the current
    /// one is read in the legacy layout with defaults for the newer fields.
    pub fn unpack(data: &[u8]) -> (r: Result<ProgramState, MultiHubSwapError>)
        ensures
            data@.len() < PROGRAM_STATE_LEGACY_LEN ==> r == Err::<
                ProgramState,
                MultiHubSwapError,
            >(MultiHubSwapError::BufferTooSmall),
            data@.len() >= PROGRAM_STATE_LEGACY_LEN ==> r is Ok && r->Ok_0@ == decode_state(
                data@,
            ),
    {
        let n = data.len();
        if n < PROGRAM_STATE_LEGACY_LEN {
            return Err(MultiHubSwapError::BufferTooSmall);
        }
        let admin = Address::new_from_array(read_bytes32(data, 0));
        let yot_mint = Address::new_from_array(read_bytes32(data, 32));
        let yos_mint = Address::new_from_array(read_bytes32(data, 64));
        let lp_contribution_rate = read_u64_le(data, 96);
        let admin_fee_rate = read_u64_le(data, 104);
        let yos_cashback_rate = read_u64_le(data, 112);
        let swap_fee_rate = read_u64_le(data, 120);
        let referral_rate = read_u64_le(data, 128);
        let (liquidity_wallet, liquidity_threshold) = if n >= PROGRAM_STATE_LEN {
            (Address::new_from_array(read_bytes32(data, 136)), read_u64_le(data, 168))
        } else {
            (Address::zero(), DEFAULT_LIQUIDITY_THRESHOLD)
        };
        let s = ProgramState {
            admin,
            yot_mint,
            yos_mint,
            lp_contribution_rate,
            admin_fee_rate,
            yos_cashback_rate,
            swap_fee_rate,
            referral_rate,
            liquidity_wallet,
            liquidity_threshold,
        };
        Ok(s)
    }

    /// Writes the record in the current layout at the start of `dst`; the bytes
    /// past the record are left alone.
    pub fn pack(&self, dst: &mut [u8]) -> (r: Result<(), MultiHubSwapError>)
        ensures
            old(dst)@.len() < PROGRAM_STATE_LEN ==> r == Err::<(), MultiHubSwapError>(
                MultiHubSwapError::BufferTooSmall,
            ) && final(dst)@ == old(dst)@,
            old(dst)@.len() >= PROGRAM_STATE_LEN ==> r is Ok && final(dst)@ == encode_state(
                self@,
            ) + old(dst)@.subrange(PROGRAM_STATE_LEN as int, old(dst)@.len() as int),
    {
        let n = dst.len();
        if n < PROGRAM_STATE_LEN {
            return Err(MultiHubSwapError::BufferTooSmall);
        }
        let ghost d0 = dst@;
        write_bytes32(dst, 0, &self.admin.bytes);
        write_bytes32(dst, 32, &self.yot_mint.bytes);
        write_bytes32(dst, 64, &self.yos_mint.bytes);
        write_u64_le(dst, 96, self.lp_contribution_rate);
        write_u64_le(dst, 104, self.admin_fee_rate);
        write_u64_le(dst, 112, self.yos_cashback_rate);
        write_u64_le(dst, 120, self.swap_fee_rate);
        write_u64_le(dst, 128, self.referral_rate);
        write_bytes32(dst, 136, &self.liquidity_wallet.bytes);
        write_u64_le(dst, 168, self.liquidity_threshold);
        assert(dst@ =~= encode_state(self@) + d0.subrange(
            PROGRAM_STATE_LEN as int,
            d0.len() as int,
        ));
        Ok(())
    }
}

/// Decoding the bytes of a record, whatever follows them, gives back the record.
pub proof fn lemma_state_round_trip(s: ProgramState, rest: Seq<u8>)
    ensures
        decode_state(encode_state(s@) + rest) == s@,
{
    let v = s@;
    assert(state_view_well_formed(v));
    let b = encode_state(v) + rest;
    lemma_le_round_trip(v.lp_contribution_rate);
    lemma_le_round_trip(v.admin_fee_rate);
    lemma_le_round_trip(v.yos_cashback_rate);
    lemma_le_round_trip(v.swap_fee_rate);
    lemma_le_round_trip(v.referral_rate);
    lemma_le_round_trip(v.liquidity_threshold);
    assert(b.subrange(0, 32) =~= v.admin);
    assert(b.subrange(32, 64) =~= v.yot_mint);
    assert(b.subrange(64, 96) =~= v.yos_mint);
    assert(b.subrange(96, 104) =~= le_bytes(v.lp_contribution_rate));
    assert(b.subrange(104, 112) =~= le_bytes(v.admin_fee_rate));
    assert(b.subrange(112, 120) =~= le_bytes(v.yos_cashback_rate));
    assert(b.subrange(120, 128) =~= le_bytes(v.swap_fee_rate));
    assert(b.subrange(128, 136) =~= le_bytes(v.referral_rate));
    assert(b.subrange(136, 168) =~= v.liquidity_wallet);
    assert(b.subrange(168, 176) =~= le_bytes(v.liquidity_threshold));
}

/// A buffer of the legacy size, up to the current one, reads as a record with
/// the zero identity as wallet and the default threshold, its other fields taken
/// from the legacy layout.
pub proof fn lemma_legacy_decode(b: Seq<u8>)
    requires
        PROGRAM_STATE_LEGACY_LEN <= b.len() < PROGRAM_STATE_LEN,
    ensures
        decode_state(b).liquidity_wallet == zero_identity(),
        decode_state(b).liquidity_threshold == DEFAULT_LIQUIDITY_THRESHOLD,
        decode_state(b).admin == b.subrange(0, 32),
        decode_state(b).referral_rate == le_value(b.subrange(128, 136)),
{
}

} // verus!
