//! The per-user contribution ledger: its byte layout and the reward accrual
//! state machine (contribute, claim, withdraw).
use vstd::prelude::*;
use crate::address::Address;
use crate::bytes::{
    le_bytes,
    le_bytes_i64,
    le_value,
    le_value_i64,
    lemma_le_round_trip,
    lemma_le_round_trip_i64,
    read_bytes32,
    read_i64_le,
    read_u64_le,
    write_bytes32,
    write_i64_le,
    write_u64_le,
};
use crate::error::MultiHubSwapError;

verus! {

/// Size of a ledger record: owner, contribution, start, last claim, total claimed.
pub const LIQUIDITY_CONTRIBUTION_LEN: usize = 64;

/// Minimum number of seconds between two reward claims (seven days).
pub const COOLDOWN_SECONDS: i64 = 604_800;

/// Reward paid per claim, in basis points of the contribution: a linear
/// 1.92% a week, about 100% a year over 52 weeks.
pub const WEEKLY_REWARD_RATE_BPS: u64 = 192;

/// One user's stake in the liquidity pool and its reward history.
#[derive(Clone, Copy, Debug, PartialEq, Eq)]
pub struct LiquidityContribution {
    pub user: Address,
    pub contributed_amount: u64,
    pub start_timestamp: i64,
    pub last_claim_time: i64,
    pub total_claimed_yos: u64,
}

/// The mathematical model of a [`LiquidityContribution`].
pub struct LedgerView {
    pub user: Seq<u8>,
    pub contributed_amount: u64,
    pub start_timestamp: i64,
    pub last_claim_time: i64,
    pub total_claimed_yos: u64,
}

impl View for LiquidityContribution {
    type V = LedgerView;

    open spec fn view(&self) -> LedgerView {
        LedgerView {
            user: self.user@,
            contributed_amount: self.contributed_amount,
            start_timestamp: self.start_timestamp,
            last_claim_time: self.last_claim_time,
            total_claimed_yos: self.total_claimed_yos,
        }
    }
}

/// The bytes of a ledger record.
pub open spec fn encode_ledger(v: LedgerView) -> Seq<u8> {
    v.user + le_bytes(v.contributed_amount) + le_bytes_i64(v.start_timestamp) + le_bytes_i64(
        v.last_claim_time,
    ) + le_bytes(v.total_claimed_yos)
}

/// The ledger record held by a buffer of at least the record's size.
pub open spec fn decode_ledger(b: Seq<u8>) -> LedgerView {
    LedgerView {
        user: b.subrange(0, 32),
        contributed_amount: le_value(b.subrange(32, 40)),
        start_timestamp: le_value_i64(b.subrange(40, 48)),
        last_claim_time: le_value_i64(b.subrange(48, 56)),
        total_claimed_yos: le_value(b.subrange(56, 64)),
    }
}

/// The reward owed on a claim against `contributed`.
pub open spec fn weekly_reward(contributed: u64) -> int {
    contributed * WEEKLY_REWARD_RATE_BPS / 10_000
}

/// The ledger that a first contribution of `amount` by `user` at `now` creates.
pub open spec fn fresh_ledger(user: Seq<u8>, amount: u64, now: i64) -> LedgerView {
    LedgerView {
        user,
        contributed_amount: amount,
        start_timestamp: now,
        last_claim_time: now,
        total_claimed_yos: 0,
    }
}

/// What a contribution of `amount` by `caller` at `now` gives: a new ledger
/// where there was none; else the ledger with `amount` added, refused for
/// another caller or on overflow.
pub open spec fn contribute_result(ledger: Option<LedgerView>, caller: Seq<u8>, amount: u64, now: i64) -> Result<
    LedgerView,
    MultiHubSwapError,
> {
    match ledger {
        None => Ok(fresh_ledger(caller, amount, now)),
        Some(l) => if caller != l.user {
            Err(MultiHubSwapError::Unauthorized)
        } else if l.contributed_amount + amount > u64::MAX {
            Err(MultiHubSwapError::ArithmeticOverflow)
        } else {
            Ok(LedgerView { contributed_amount: (l.contributed_amount + amount) as u64, ..l })
        },
    }
}

/// Seconds since the last claim (negative where `now` is before it).
pub open spec fn elapsed_since_claim(l: LedgerView, now: i64) -> int {
    now - l.last_claim_time
}

/// What a claim by `caller` at `now` returns: the reward, or why it is refused.
pub open spec fn claim_result(l: LedgerView, caller: Seq<u8>, now: i64) -> Result<
    u64,
    MultiHubSwapError,
> {
    if caller != l.user {
        Err(MultiHubSwapError::Unauthorized)
    } else if l.contributed_amount == 0 {
        Err(MultiHubSwapError::NothingToClaim)
    } else if elapsed_since_claim(l, now) < COOLDOWN_SECONDS {
        Err(
            MultiHubSwapError::TooEarly {
                elapsed: elapsed_since_claim(l, now) as i128,
                remaining: (COOLDOWN_SECONDS - elapsed_since_claim(l, now)) as i128,
            },
        )
    } else if l.total_claimed_yos + weekly_reward(l.contributed_amount) > u64::MAX {
        Err(MultiHubSwapError::ArithmeticOverflow)
    } else {
        Ok(weekly_reward(l.contributed_amount) as u64)
    }
}

/// The ledger after a successful claim at `now`.
pub open spec fn after_claim(l: LedgerView, now: i64) -> LedgerView {
    LedgerView {
        last_claim_time: now,
        total_claimed_yos: (l.total_claimed_yos + weekly_reward(l.contributed_amount)) as u64,
        ..l
    }
}

/// What a withdrawal by `caller` returns: the whole contribution, or why it is refused.
pub open spec fn withdraw_result(l: LedgerView, caller: Seq<u8>) -> Result<u64, MultiHubSwapError> {
    if caller != l.user {
        Err(MultiHubSwapError::Unauthorized)
    } else if l.contributed_amount == 0 {
        Err(MultiHubSwapError::NothingToWithdraw)
    } else {
        Ok(l.contributed_amount)
    }
}

/// The ledger after a successful withdrawal: the balance is zero, the history kept.
pub open spec fn after_withdraw(l: LedgerView) -> LedgerView {
    LedgerView { contributed_amount: 0, ..l }
}

impl LiquidityContribution {
    /// Reads a ledger record from account data.
    pub fn unpack(data: &[u8]) -> (r: Result<LiquidityContribution, MultiHubSwapError>)
        ensures
            data@.len() < LIQUIDITY_CONTRIBUTION_LEN ==> r == Err::<
                LiquidityContribution,
                MultiHubSwapError,
            >(MultiHubSwapError::BufferTooSmall),
            data@.len() >= LIQUIDITY_CONTRIBUTION_LEN ==> r is Ok && r->Ok_0@ == decode_ledger(
                data@,
            ),
    {
        if data.len() < LIQUIDITY_CONTRIBUTION_LEN {
            return Err(MultiHubSwapError::BufferTooSmall);
        }
        let l = LiquidityContribution {
            user: Address::new_from_array(read_bytes32(data, 0)),
            contributed_amount: read_u64_le(data, 32),
            start_timestamp: read_i64_le(data, 40),
            last_claim_time: read_i64_le(data, 48),
            total_claimed_yos: read_u64_le(data, 56),
        };
        Ok(l)
    }

    /// Writes the record at the start of `dst`; the bytes past it are left alone.
    pub fn pack(&self, dst: &mut [u8]) -> (r: Result<(), MultiHubSwapError>)
        ensures
            old(dst)@.len() < LIQUIDITY_CONTRIBUTION_LEN ==> r == Err::<(), MultiHubSwapError>(
                MultiHubSwapError::BufferTooSmall,
            ) && final(dst)@ == old(dst)@,
            old(dst)@.len() >= LIQUIDITY_CONTRIBUTION_LEN ==> r is Ok && final(dst)@
                == encode_ledger(self@) + old(dst)@.subrange(
                LIQUIDITY_CONTRIBUTION_LEN as int,
                old(dst)@.len() as int,
            ),
    {
        if dst.len() < LIQUIDITY_CONTRIBUTION_LEN {
            return Err(MultiHubSwapError::BufferTooSmall);
        }
        let ghost d0 = dst@;
        write_bytes32(dst, 0, &self.user.bytes);
        write_u64_le(dst, 32, self.contributed_amount);
        write_i64_le(dst, 40, self.start_timestamp);
        write_i64_le(dst, 48, self.last_claim_time);
        write_u64_le(dst, 56, self.total_claimed_yos);
        assert(dst@ =~= encode_ledger(self@) + d0.subrange(
            LIQUIDITY_CONTRIBUTION_LEN as int,
            d0.len() as int,
        ));
        Ok(())
    }
}

/// The reward owed on a claim against `contributed`: `contributed * 192 / 10000`.
pub fn calculate_weekly_reward(contributed: u64) -> (r: u64)
    ensures
        r == weekly_reward(contributed),
{
    let c = contributed as u128;
    assert(c * 192 <= u64::MAX * 192) by (nonlinear_arith)
        requires
            c <= u64::MAX,
    ;
    let wide = c * (WEEKLY_REWARD_RATE_BPS as u128) / 10_000u128;
    assert(wide <= contributed) by (nonlinear_arith)
        requires
            wide == contributed * 192 / 10_000,
    ;
    wide as u64
}

/// Records a contribution of `amount` by `caller` at `now`: creates the ledger
/// where `ledger` is `None`, else adds `amount` to its balance.
pub fn contribute(
    ledger: Option<LiquidityContribution>,
    caller: &Address,
    amount: u64,
    now: i64,
) -> (r: Result<LiquidityContribution, MultiHubSwapError>)
    ensures
        match r {
            Ok(l) => contribute_result(
                match ledger {
                    Some(x) => Some(x@),
                    None => None,
                },
                caller@,
                amount,
                now,
            ) == Ok::<LedgerView, MultiHubSwapError>(l@),
            Err(e) => contribute_result(
                match ledger {
                    Some(x) => Some(x@),
                    None => None,
                },
                caller@,
                amount,
                now,
            ) == Err::<LedgerView, MultiHubSwapError>(e),
        },
{
    match ledger {
        None => Ok(
            LiquidityContribution {
                user: *caller,
                contributed_amount: amount,
                start_timestamp: now,
                last_claim_time: now,
                total_claimed_yos: 0,
            },
        ),
        Some(l) => {
            if !l.user.equals(caller) {
                return Err(MultiHubSwapError::Unauthorized);
            }
            match l.contributed_amount.checked_add(amount) {
                Some(total) => Ok(LiquidityContribution { contributed_amount: total, ..l }),
                None => Err(MultiHubSwapError::ArithmeticOverflow),
            }
        },
    }
}

/// Claims the weekly reward: on success advances the last claim time to `now`,
/// adds the reward to the total claimed and returns it for the caller to pay
/// out in the same transaction. On failure the ledger is unchanged.
pub fn claim(ledger: &mut LiquidityContribution, caller: &Address, now: i64) -> (r: Result<
    u64,
    MultiHubSwapError,
>)
    ensures
        r == claim_result(old(ledger)@, caller@, now),
        r is Ok ==> final(ledger)@ == after_claim(old(ledger)@, now),
        r is Err ==> *final(ledger) == *old(ledger),
{
    if !ledger.user.equals(caller) {
        return Err(MultiHubSwapError::Unauthorized);
    }
    if ledger.contributed_amount == 0 {
        return Err(MultiHubSwapError::NothingToClaim);
    }
    let elapsed: i128 = (now as i128) - (ledger.last_claim_time as i128);
    if elapsed < COOLDOWN_SECONDS as i128 {
        return Err(
            MultiHubSwapError::TooEarly {
                elapsed,
                remaining: (COOLDOWN_SECONDS as i128) - elapsed,
            },
        );
    }
    let reward = calculate_weekly_reward(ledger.contributed_amount);
    match ledger.total_claimed_yos.checked_add(reward) {
        Some(total) => {
            ledger.last_claim_time = now;
            ledger.total_claimed_yos = total;
            Ok(reward)
        },
        None => Err(MultiHubSwapError::ArithmeticOverflow),
    }
}

/// Withdraws the whole contribution: on success the balance becomes zero and
/// the start time and claim history are kept. On failure the ledger is unchanged.
pub fn withdraw(ledger: &mut LiquidityContribution, caller: &Address) -> (r: Result<
    u64,
    MultiHubSwapError,
>)
    ensures
        r == withdraw_result(old(ledger)@, caller@),
        r is Ok ==> final(ledger)@ == after_withdraw(old(ledger)@),
        r is Err ==> *final(ledger) == *old(ledger),
{
    if !ledger.user.equals(caller) {
        return Err(MultiHubSwapError::Unauthorized);
    }
    if ledger.contributed_amount == 0 {
        return Err(MultiHubSwapError::NothingToWithdraw);
    }
    let amount = ledger.contributed_amount;
    ledger.contributed_amount = 0;
    Ok(amount)
}

/// Decoding the bytes of a ledger record, whatever follows them, gives back
/// the record.
pub proof fn lemma_ledger_round_trip(l: LiquidityContribution, rest: Seq<u8>)
    ensures
        decode_ledger(encode_ledger(l@) + rest) == l@,
{
    let v = l@;
    assert(v.user.len() == 32);
    let b = encode_ledger(v) + rest;
    lemma_le_round_trip(v.contributed_amount);
    lemma_le_round_trip_i64(v.start_timestamp);
    lemma_le_round_trip_i64(v.last_claim_time);
    lemma_le_round_trip(v.total_claimed_yos);
    assert(b.subrange(0, 32) =~= v.user);
    assert(b.subrange(32, 40) =~= le_bytes(v.contributed_amount));
    assert(b.subrange(40, 48) =~= le_bytes_i64(v.start_timestamp));
    assert(b.subrange(48, 56) =~= le_bytes_i64(v.last_claim_time));
    assert(b.subrange(56, 64) =~= le_bytes(v.total_claimed_yos));
}

/// The claim cooldown is inclusive: one second before it ends a claim by the
/// owner of a funded ledger is refused as too early, with one second left; at
/// its end the claim pays the weekly reward (where the total claimed has room
/// for it).
pub proof fn lemma_cooldown_boundary(l: LedgerView)
    requires
        l.contributed_amount > 0,
        l.last_claim_time + COOLDOWN_SECONDS <= i64::MAX,
    ensures
        claim_result(l, l.user, (l.last_claim_time + COOLDOWN_SECONDS - 1) as i64)
            == Err::<u64, MultiHubSwapError>(
            MultiHubSwapError::TooEarly { elapsed: (COOLDOWN_SECONDS - 1) as i128, remaining: 1 },
        ),
        l.total_claimed_yos + weekly_reward(l.contributed_amount) <= u64::MAX ==> claim_result(
            l,
            l.user,
            (l.last_claim_time + COOLDOWN_SECONDS) as i64,
        ) == Ok::<u64, MultiHubSwapError>(weekly_reward(l.contributed_amount) as u64),
{
}

/// A caller other than the ledger's owner is refused as unauthorized by claim,
/// withdraw and contribute, whatever the ledger holds.
pub proof fn lemma_ownership_gate(l: LedgerView, caller: Seq<u8>, amount: u64, now: i64)
    requires
        caller != l.user,
    ensures
        claim_result(l, caller, now) == Err::<u64, MultiHubSwapError>(
            MultiHubSwapError::Unauthorized,
        ),
        withdraw_result(l, caller) == Err::<u64, MultiHubSwapError>(
            MultiHubSwapError::Unauthorized,
        ),
        contribute_result(Some(l), caller, amount, now) == Err::<LedgerView, MultiHubSwapError>(
            MultiHubSwapError::Unauthorized,
        ),
{
}

/// A successful withdrawal returns the whole balance and leaves it at zero,
/// with the owner, start time, last claim time and total claimed unchanged.
pub proof fn lemma_withdraw_keeps_history(l: LedgerView, caller: Seq<u8>)
    requires
        withdraw_result(l, caller) is Ok,
    ensures
        withdraw_result(l, caller) == Ok::<u64, MultiHubSwapError>(l.contributed_amount),
        after_withdraw(l).contributed_amount == 0,
        after_withdraw(l).total_claimed_yos == l.total_claimed_yos,
        after_withdraw(l).start_timestamp == l.start_timestamp,
        after_withdraw(l).last_claim_time == l.last_claim_time,
        after_withdraw(l).user == l.user,
{
}

/// Every successful contribute, claim or withdrawal keeps the ledger's owner
/// and start time, and never lowers the total claimed.
pub proof fn lemma_ledger_history_monotone(l: LedgerView, caller: Seq<u8>, amount: u64, now: i64)
    ensures
        contribute_result(Some(l), caller, amount, now) is Ok ==> {
            let n = contribute_result(Some(l), caller, amount, now)->Ok_0;
            n.user == l.user && n.start_timestamp == l.start_timestamp && n.total_claimed_yos
                == l.total_claimed_yos && n.contributed_amount >= l.contributed_amount
        },
        claim_result(l, caller, now) is Ok ==> {
            let n = after_claim(l, now);
            n.user == l.user && n.start_timestamp == l.start_timestamp && n.total_claimed_yos
                >= l.total_claimed_yos && n.contributed_amount == l.contributed_amount
        },
        withdraw_result(l, caller) is Ok ==> {
            let n = after_withdraw(l);
            n.user == l.user && n.start_timestamp == l.start_timestamp && n.total_claimed_yos
                == l.total_claimed_yos
        },
{
}

} // verus!
