//! A wallet that a set of owners governs together, with time locks.
//!
//! A [`SmartWallet`] has owners, a threshold (how many of them have to sign a transaction before it
//! can be executed) and a minimum delay (how long after its creation a transaction can be executed
//! at the earliest; if 0, this is ignored). An owner proposes a [`Transaction`], a list of
//! instructions; owners sign it with [`smart_wallet::approve`]; and once enough have signed it,
//! [`smart_wallet::execute_transaction`] allows its execution.

use vstd::prelude::*;

pub mod accounts;
pub mod error;
pub mod events;
pub mod execution;
pub mod laws;
pub mod pubkey;
pub mod seeds;
pub mod smart_wallet;
pub mod state;

pub use accounts::{
    Approve, Auth, CreateSmartWallet, CreateSubaccountInfo, CreateTransaction, ExecuteTransaction,
    OwnerInvokeInstruction,
};
pub use error::ErrorCode;
pub use events::{
    TransactionApproveEvent, TransactionCreateEvent, TransactionExecuteEvent,
    TransactionUnapproveEvent, WalletChangeThresholdEvent, WalletCreateEvent, WalletSetOwnersEvent,
};
pub use state::{
    SmartWallet, SubaccountInfo, SubaccountType, TXAccountMeta, TXInstruction, Transaction,
};

verus! {

/// Number of seconds in a day.
pub const SECONDS_PER_DAY: i64 = 60 * 60 * 24;

/// Maximum timelock delay.
pub const MAX_DELAY_SECONDS: i64 = 365 * SECONDS_PER_DAY;

/// Default number of seconds until a transaction expires.
pub const DEFAULT_GRACE_PERIOD: i64 = 14 * SECONDS_PER_DAY;

/// Constant declaring that there is no ETA of the transaction.
pub const NO_ETA: i64 = -1;

/// Constant declaring that a transaction has not been executed.
pub const NOT_EXECUTED: i64 = -1;

} // verus!
