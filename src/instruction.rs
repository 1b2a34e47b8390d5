//! The instruction wire format: an opcode byte followed by a fixed-width,
//! little-endian payload.
use vstd::prelude::*;
use crate::address::Address;
use crate::bytes::{le_value, read_bytes32, read_u64_le};
use crate::error::MultiHubSwapError;

verus! {

/// The five rate parameters, in basis points.
#[derive(Clone, Copy, Debug, PartialEq, Eq, Structural)]
pub struct RateParameters {
    pub lp_contribution_rate: u64,
    pub yos_cashback_rate: u64,
    pub admin_fee_rate: u64,
    pub swap_fee_rate: u64,
    pub referral_rate: u64,
}

/// An operation requested of the program.
#[derive(Clone, Copy, Debug, PartialEq, Eq)]
pub enum MultiHubSwapInstruction {
    /// Creates the state record. The legacy payload carries the two mints only.
    Initialize {
        yot_mint: Address,
        yos_mint: Address,
        liquidity_wallet: Option<Address>,
        initial_rates: Option<RateParameters>,
    },
    Swap { amount_in: u64, min_amount_out: u64 },
    Contribute { amount: u64 },
    ClaimReward,
    BuyAndDistribute { amount: u64 },
    WithdrawContribution,
    UpdateParameters { rates: RateParameters },
    /// Creates the caller's ledger account ahead of a swap.
    CreateLiquidityAccount,
    /// One-step SOL to YOT swap, the liquidity part going to the central wallet.
    SolToYotSwapImmediate { amount_in: u64, min_amount_out: u64 },
    /// One-step YOT to SOL swap, the liquidity part going to the central wallet.
    YotToSolSwapImmediate { amount_in: u64, min_amount_out: u64 },
    /// SOL to YOT swap, the liquidity part kept in the pool.
    SolToYotSwap { amount_in: u64, min_amount_out: u64 },
    /// Sweeps the central liquidity wallet into the pool.
    AddLiquidityFromCentralWallet,
}

/// The mathematical model of a [`MultiHubSwapInstruction`].
pub enum InstructionView {
    Initialize {
        yot_mint: Seq<u8>,
        yos_mint: Seq<u8>,
        liquidity_wallet: Option<Seq<u8>>,
        initial_rates: Option<RateParameters>,
    },
    Swap { amount_in: u64, min_amount_out: u64 },
    Contribute { amount: u64 },
    ClaimReward,
    BuyAndDistribute { amount: u64 },
    WithdrawContribution,
    UpdateParameters { rates: RateParameters },
    CreateLiquidityAccount,
    SolToYotSwapImmediate { amount_in: u64, min_amount_out: u64 },
    YotToSolSwapImmediate { amount_in: u64, min_amount_out: u64 },
    SolToYotSwap { amount_in: u64, min_amount_out: u64 },
    AddLiquidityFromCentralWallet,
}

impl View for MultiHubSwapInstruction {
    type V = InstructionView;

    open spec fn view(&self) -> InstructionView {
        match *self {
            MultiHubSwapInstruction::Initialize { yot_mint, yos_mint, liquidity_wallet, initial_rates } =>
                InstructionView::Initialize {
                yot_mint: yot_mint@,
                yos_mint: yos_mint@,
                liquidity_wallet: match liquidity_wallet {
                    Some(w) => Some(w@),
                    None => None,
                },
                initial_rates,
            },
            MultiHubSwapInstruction::Swap { amount_in, min_amount_out } => InstructionView::Swap {
                amount_in,
                min_amount_out,
            },
            MultiHubSwapInstruction::Contribute { amount } => InstructionView::Contribute {
                amount,
            },
            MultiHubSwapInstruction::ClaimReward => InstructionView::ClaimReward,
            MultiHubSwapInstruction::BuyAndDistribute { amount } =>
                InstructionView::BuyAndDistribute { amount },
            MultiHubSwapInstruction::WithdrawContribution => InstructionView::WithdrawContribution,
            MultiHubSwapInstruction::UpdateParameters { rates } =>
                InstructionView::UpdateParameters { rates },
            MultiHubSwapInstruction::CreateLiquidityAccount =>
                InstructionView::CreateLiquidityAccount,
            MultiHubSwapInstruction::SolToYotSwapImmediate { amount_in, min_amount_out } =>
                InstructionView::SolToYotSwapImmediate { amount_in, min_amount_out },
            MultiHubSwapInstruction::YotToSolSwapImmediate { amount_in, min_amount_out } =>
                InstructionView::YotToSolSwapImmediate { amount_in, min_amount_out },
            MultiHubSwapInstruction::SolToYotSwap { amount_in, min_amount_out } =>
                InstructionView::SolToYotSwap { amount_in, min_amount_out },
            MultiHubSwapInstruction::AddLiquidityFromCentralWallet =>
                InstructionView::AddLiquidityFromCentralWallet,
        }
    }
}

/// The eight-byte little-endian value at `off`.
pub open spec fn u64_at(d: Seq<u8>, off: int) -> u64 {
    le_value(d.subrange(off, off + 8))
}

/// Five rates at `off`, in the order liquidity, cashback, admin fee, swap fee, referral.
pub open spec fn rates_at(d: Seq<u8>, off: int) -> RateParameters {
    RateParameters {
        lp_contribution_rate: u64_at(d, off),
        yos_cashback_rate: u64_at(d, off + 8),
        admin_fee_rate: u64_at(d, off + 16),
        swap_fee_rate: u64_at(d, off + 24),
        referral_rate: u64_at(d, off + 32),
    }
}

/// Payload size of the current Initialize form: three identities and five rates.
pub const INITIALIZE_PAYLOAD_LEN: usize = 136;

/// Payload size of the legacy Initialize form: two identities.
pub const INITIALIZE_LEGACY_PAYLOAD_LEN: usize = 64;

/// The instruction that `d` encodes, or `None` where it is empty, names an
/// unknown opcode (above 11) or carries a short payload. Bytes past the payload are ignored.
pub open spec fn decode_instruction(d: Seq<u8>) -> Option<InstructionView> {
    if d.len() == 0 {
        None
    } else if d[0] == 0 {
        if d.len() >= 1 + INITIALIZE_PAYLOAD_LEN {
            Some(
                InstructionView::Initialize {
                    yot_mint: d.subrange(1, 33),
                    yos_mint: d.subrange(33, 65),
                    liquidity_wallet: Some(d.subrange(65, 97)),
                    initial_rates: Some(rates_at(d, 97)),
                },
            )
        } else if d.len() >= 1 + INITIALIZE_LEGACY_PAYLOAD_LEN {
            Some(
                InstructionView::Initialize {
                    yot_mint: d.subrange(1, 33),
                    yos_mint: d.subrange(33, 65),
                    liquidity_wallet: None,
                    initial_rates: None,
                },
            )
        } else {
            None
        }
    } else if d[0] == 1 {
        if d.len() >= 17 {
            Some(InstructionView::Swap { amount_in: u64_at(d, 1), min_amount_out: u64_at(d, 9) })
        } else {
            None
        }
    } else if d[0] == 2 {
        if d.len() >= 9 {
            Some(InstructionView::Contribute { amount: u64_at(d, 1) })
        } else {
            None
        }
    } else if d[0] == 3 {
        Some(InstructionView::ClaimReward)
    } else if d[0] == 4 {
        if d.len() >= 9 {
            Some(InstructionView::BuyAndDistribute { amount: u64_at(d, 1) })
        } else {
            None
        }
    } else if d[0] == 5 {
        Some(InstructionView::WithdrawContribution)
    } else if d[0] == 6 {
        if d.len() >= 41 {
            Some(InstructionView::UpdateParameters { rates: rates_at(d, 1) })
        } else {
            None
        }
    } else if d[0] == 7 {
        Some(InstructionView::CreateLiquidityAccount)
    } else if d[0] == 8 {
        if d.len() >= 17 {
            Some(
                InstructionView::SolToYotSwapImmediate {
                    amount_in: u64_at(d, 1),
                    min_amount_out: u64_at(d, 9),
                },
            )
        } else {
            None
        }
    } else if d[0] == 9 {
        if d.len() >= 17 {
            Some(
                InstructionView::YotToSolSwapImmediate {
                    amount_in: u64_at(d, 1),
                    min_amount_out: u64_at(d, 9),
                },
            )
        } else {
            None
        }
    } else if d[0] == 10 {
        if d.len() >= 17 {
            Some(
                InstructionView::SolToYotSwap { amount_in: u64_at(d, 1), min_amount_out: u64_at(d, 9) },
            )
        } else {
            None
        }
    } else if d[0] == 11 {
        Some(InstructionView::AddLiquidityFromCentralWallet)
    } else {
        None
    }
}

fn read_rates(data: &[u8], off: usize) -> (r: RateParameters)
    requires
        off + 40 <= data@.len(),
    ensures
        r == rates_at(data@, off as int),
{
    let n = data.len();
    assert(off + 40 <= n);
    RateParameters {
        lp_contribution_rate: read_u64_le(data, off),
        yos_cashback_rate: read_u64_le(data, off + 8),
        admin_fee_rate: read_u64_le(data, off + 16),
        swap_fee_rate: read_u64_le(data, off + 24),
        referral_rate: read_u64_le(data, off + 32),
    }
}

impl MultiHubSwapInstruction {
    /// Decodes instruction data: `InvalidInstruction` where it is empty, names
    /// an unknown opcode or carries a short payload.
    pub fn unpack(data: &[u8]) -> (r: Result<MultiHubSwapInstruction, MultiHubSwapError>)
        ensures
            match decode_instruction(data@) {
                Some(v) => r is Ok && r->Ok_0@ == v,
                None => r == Err::<MultiHubSwapInstruction, MultiHubSwapError>(
                    MultiHubSwapError::InvalidInstruction,
                ),
            },
    {
        let n = data.len();
        if n == 0 {
            return Err(MultiHubSwapError::InvalidInstruction);
        }
        let opcode = data[0];
        if opcode == 0 {
            if n >= 1 + INITIALIZE_PAYLOAD_LEN {
                Ok(
                    MultiHubSwapInstruction::Initialize {
                        yot_mint: Address::new_from_array(read_bytes32(data, 1)),
                        yos_mint: Address::new_from_array(read_bytes32(data, 33)),
                        liquidity_wallet: Some(Address::new_from_array(read_bytes32(data, 65))),
                        initial_rates: Some(read_rates(data, 97)),
                    },
                )
            } else if n >= 1 + INITIALIZE_LEGACY_PAYLOAD_LEN {
                Ok(
                    MultiHubSwapInstruction::Initialize {
                        yot_mint: Address::new_from_array(read_bytes32(data, 1)),
                        yos_mint: Address::new_from_array(read_bytes32(data, 33)),
                        liquidity_wallet: None,
                        initial_rates: None,
                    },
                )
            } else {
                Err(MultiHubSwapError::InvalidInstruction)
            }
        } else if opcode == 1 {
            if n >= 17 {
                Ok(
                    MultiHubSwapInstruction::Swap {
                        amount_in: read_u64_le(data, 1),
                        min_amount_out: read_u64_le(data, 9),
                    },
                )
            } else {
                Err(MultiHubSwapError::InvalidInstruction)
            }
        } else if opcode == 2 {
            if n >= 9 {
                Ok(MultiHubSwapInstruction::Contribute { amount: read_u64_le(data, 1) })
            } else {
                Err(MultiHubSwapError::InvalidInstruction)
            }
        } else if opcode == 3 {
            Ok(MultiHubSwapInstruction::ClaimReward)
        } else if opcode == 4 {
            if n >= 9 {
                Ok(MultiHubSwapInstruction::BuyAndDistribute { amount: read_u64_le(data, 1) })
            } else {
                Err(MultiHubSwapError::InvalidInstruction)
            }
        } else if opcode == 5 {
            Ok(MultiHubSwapInstruction::WithdrawContribution)
        } else if opcode == 6 {
            if n >= 41 {
                Ok(MultiHubSwapInstruction::UpdateParameters { rates: read_rates(data, 1) })
            } else {
                Err(MultiHubSwapError::InvalidInstruction)
            }
        } else if opcode == 7 {
            Ok(MultiHubSwapInstruction::CreateLiquidityAccount)
        } else if opcode == 8 || opcode == 9 || opcode == 10 {
            if n >= 17 {
                let amount_in = read_u64_le(data, 1);
                let min_amount_out = read_u64_le(data, 9);
                if opcode == 8 {
                    Ok(MultiHubSwapInstruction::SolToYotSwapImmediate { amount_in, min_amount_out })
                } else if opcode == 9 {
                    Ok(MultiHubSwapInstruction::YotToSolSwapImmediate { amount_in, min_amount_out })
                } else {
                    Ok(MultiHubSwapInstruction::SolToYotSwap { amount_in, min_amount_out })
                }
            } else {
                Err(MultiHubSwapError::InvalidInstruction)
            }
        } else if opcode == 11 {
            Ok(MultiHubSwapInstruction::AddLiquidityFromCentralWallet)
        } else {
            Err(MultiHubSwapError::InvalidInstruction)
        }
    }
}

} // verus!
