//! A cross-program-invocation facade for an on-chain token-lending program.
//!
//! Each supported lending operation takes a typed bundle of account
//! addresses plus its scalar arguments, and yields the fully bound request:
//! the wire-format instruction (discriminant, argument bytes, ordered
//! account metas) together with the physical account list the host
//! invocation primitive expects. The account order, signer/writable flags
//! and argument encoding are the protocol contract this crate states and
//! proves; the dispatch of the finished request belongs to the hosting
//! runtime.

pub mod account;
pub mod bundles;
pub mod config;
pub mod ops;
pub mod schema;
pub mod wire;

pub use account::AccountMeta;
pub use account::Pubkey;
pub use account::Solend;
pub use account::TokenProgram;
pub use bundles::BorrowObligationLiquidityAccounts;
pub use bundles::DepositObligationCollateralAccounts;
pub use bundles::DepositReserveLiquidityAccounts;
pub use bundles::DepositReserveLiquidityAndObligationCollateralAccounts;
pub use bundles::FlashLoanAccounts;
pub use bundles::InitLendingMarketAccounts;
pub use bundles::InitObligationAccounts;
pub use bundles::InitReserveAccounts;
pub use bundles::LiquidateObligationAccounts;
pub use bundles::RedeemReserveCollateralAccounts;
pub use bundles::RefreshObligationAccounts;
pub use bundles::RefreshReserveAccounts;
pub use bundles::RepayObligationLiquidityAccounts;
pub use bundles::SetLendingMarketOwnerAccounts;
pub use bundles::UpdateReserveConfigAccounts;
pub use bundles::WithdrawObligationCollateralAccounts;
pub use config::ReserveConfig;
pub use config::ReserveConfigData;
pub use config::ReserveFees;
pub use ops::borrow_obligation_liquidity;
pub use ops::deposit_obligation_collateral;
pub use ops::deposit_reserve_liquidity;
pub use ops::deposit_reserve_liquidity_and_obligation_collateral;
pub use ops::flash_loan;
pub use ops::init_lending_market;
pub use ops::init_obligation;
pub use ops::init_reserve;
pub use ops::liquidate_obligation;
pub use ops::redeem_reserve_collateral;
pub use ops::refresh_obligation;
pub use ops::refresh_reserve;
pub use ops::repay_obligation_liquidity;
pub use ops::set_lending_market_owner;
pub use ops::update_reserve_config;
pub use ops::withdraw_obligation_collateral;
pub use ops::CpiContext;
pub use ops::CpiRequest;
pub use ops::Instruction;
