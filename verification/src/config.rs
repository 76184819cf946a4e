//! Reserve configuration values, mirrored field for field from the external
//! program's on-chain schema. A configuration is built fresh for each
//! `InitReserve` / `UpdateReserveConfig` request, serialized into the
//! outgoing instruction, and never persisted here.

use vstd::prelude::*;

use crate::account::Pubkey;

verus! {

/// Program owner fees assessed, separate from gains due to interest accrual.
#[derive(Clone, Copy, PartialEq, Eq, Debug)]
pub struct ReserveFees {
    /// Fee assessed on borrows, expressed as a WAD (10^18 = 100%).
    pub borrow_fee_wad: u64,
    /// Fee assessed on flash loans, expressed as a WAD.
    pub flash_loan_fee_wad: u64,
    /// Portion of the borrow fee sent to a host account, as a percentage.
    pub host_fee_percentage: u8,
}

/// The caller-supplied part of a reserve configuration; the fee receiver
/// address is bound separately from the account bundle.
#[derive(Clone, Copy, PartialEq, Eq, Debug)]
pub struct ReserveConfigData {
    /// Optimal utilization rate, as a percentage.
    pub optimal_utilization_rate: u8,
    /// Target ratio of the value of borrows to deposits, as a percentage;
    /// 0 if use as collateral is disabled.
    pub loan_to_value_ratio: u8,
    /// Bonus a liquidator gets when repaying part of an unhealthy
    /// obligation, as a percentage.
    pub liquidation_bonus: u8,
    /// Loan to value ratio at which an obligation can be liquidated, as a
    /// percentage.
    pub liquidation_threshold: u8,
    /// Min borrow APY.
    pub min_borrow_rate: u8,
    /// Optimal (utilization) borrow APY.
    pub optimal_borrow_rate: u8,
    /// Max borrow APY.
    pub max_borrow_rate: u8,
    /// Program owner fees.
    pub fees: ReserveFees,
    /// Maximum deposit limit of liquidity in native units, `u64::MAX` for
    /// no limit.
    pub deposit_limit: u64,
    /// Maximum amount of borrowed liquidity in native units, `u64::MAX`
    /// for no limit.
    pub borrow_limit: u64,
}

/// The external program's complete reserve configuration record: the
/// caller fields plus the liquidity fee receiver address.
#[derive(Clone, Copy, PartialEq, Eq, Debug)]
pub struct ReserveConfig {
    pub optimal_utilization_rate: u8,
    pub loan_to_value_ratio: u8,
    pub liquidation_bonus: u8,
    pub liquidation_threshold: u8,
    pub min_borrow_rate: u8,
    pub optimal_borrow_rate: u8,
    pub max_borrow_rate: u8,
    pub fees: ReserveFees,
    pub deposit_limit: u64,
    pub borrow_limit: u64,
    /// Token account that receives the reserve's liquidity fees.
    pub fee_receiver: Pubkey,
}

impl ReserveConfigData {
    /// The complete record obtained by attaching a fee receiver, every
    /// other field carried over unchanged.
    pub open spec fn spec_with_fee_receiver(self, fee_receiver: Pubkey) -> ReserveConfig {
        ReserveConfig {
            optimal_utilization_rate: self.optimal_utilization_rate,
            loan_to_value_ratio: self.loan_to_value_ratio,
            liquidation_bonus: self.liquidation_bonus,
            liquidation_threshold: self.liquidation_threshold,
            min_borrow_rate: self.min_borrow_rate,
            optimal_borrow_rate: self.optimal_borrow_rate,
            max_borrow_rate: self.max_borrow_rate,
            fees: self.fees,
            deposit_limit: self.deposit_limit,
            borrow_limit: self.borrow_limit,
            fee_receiver,
        }
    }

    /// Field-for-field translation into the external schema, with the fee
    /// receiver taken from the account bundle.
    pub fn with_fee_receiver(self, fee_receiver: Pubkey) -> (c: ReserveConfig)
        ensures
            c == self.spec_with_fee_receiver(fee_receiver),
    {
        ReserveConfig {
            optimal_utilization_rate: self.optimal_utilization_rate,
            loan_to_value_ratio: self.loan_to_value_ratio,
            liquidation_bonus: self.liquidation_bonus,
            liquidation_threshold: self.liquidation_threshold,
            min_borrow_rate: self.min_borrow_rate,
            optimal_borrow_rate: self.optimal_borrow_rate,
            max_borrow_rate: self.max_borrow_rate,
            fees: self.fees,
            deposit_limit: self.deposit_limit,
            borrow_limit: self.borrow_limit,
            fee_receiver,
        }
    }
}

} // verus!
