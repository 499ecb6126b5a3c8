//! A time-windowed staking ledger.
//!
//! Deposits of a fungible asset are accepted while the staking window is open,
//! each depositor's staked balance is tracked, principal may be withdrawn while
//! that same window is open, and a reward pool may be funded until the withdraw
//! window opens. The host supplies the caller, the block time and the outcome of
//! every asset transfer; everything this crate decides is stated in contracts.

pub mod cep47;
pub mod data;
pub mod error;
pub mod event;
pub mod key;
pub mod theorems;
pub mod uint;
pub mod window;

pub use cep47::{CallContext, EmittedEvent, State, TransferCall, CEP20STK};
pub use data::{Config, StakedTokens};
pub use error::{Error, TransferError};
pub use event::CEP47Event;
pub use key::{CallStackElement, ContractPackageHash, Key};
pub use uint::U256;
