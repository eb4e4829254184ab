//! A thin relay onto an external lending program.
//!
//! Each of the three operations (deposit reserve liquidity, borrow obligation
//! liquidity, repay obligation liquidity) validates its amount, assembles the
//! ordered account-reference list the external protocol expects, and encodes a
//! fixed-layout payload: the operation's selector followed by the amount as
//! eight little-endian bytes. The instruction so produced is handed to the
//! hosting runtime's call primitive; whatever that call returns is surfaced
//! unchanged. This crate holds the byte-exact encoding and account-ordering
//! contract; performing the call is the host's affair.

pub mod accounts;
pub mod codec;
pub mod relay;

pub use accounts::AccountRef;
pub use accounts::KaminoBorrowObligationLiquidity;
pub use accounts::KaminoDepositReserveLiquidity;
pub use accounts::KaminoRepayObligationLiquidity;
pub use accounts::ReferrerTokenState;
pub use codec::Selector;
pub use codec::SelectorScheme;
pub use relay::BorrowObligationLiquidity;
pub use relay::CpiInstruction;
pub use relay::DepositReserveLiquidity;
pub use relay::Initialize;
pub use relay::LendingError;
pub use relay::OperationKind;
pub use relay::OperationRequest;
pub use relay::RepayObligationLiquidity;
pub use relay::initialize;
pub use relay::kamino_borrow_obligation_liquidity;
pub use relay::kamino_deposit_reserve_liquidity;
pub use relay::kamino_repay_obligation_liquidity;
