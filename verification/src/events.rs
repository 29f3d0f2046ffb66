//! What the program reports of each request that it carried out.

use vstd::prelude::*;

use crate::pubkey::Pubkey;
use crate::state::TXInstruction;

verus! {

/// A smart wallet was created.
#[derive(Debug)]
pub struct WalletCreateEvent {
    /// The wallet.
    pub smart_wallet: Pubkey,
    /// Its owners.
    pub owners: Vec<Pubkey>,
    /// Its threshold.
    pub threshold: u64,
    /// Its minimum delay.
    pub minimum_delay: i64,
    /// When this happened.
    pub timestamp: i64,
}

/// The owners of a smart wallet were replaced.
#[derive(Debug)]
pub struct WalletSetOwnersEvent {
    /// The wallet.
    pub smart_wallet: Pubkey,
    /// Its new owners.
    pub owners: Vec<Pubkey>,
    /// When this happened.
    pub timestamp: i64,
}

/// The threshold of a smart wallet was changed.
#[derive(Debug)]
pub struct WalletChangeThresholdEvent {
    /// The wallet.
    pub smart_wallet: Pubkey,
    /// Its new threshold.
    pub threshold: u64,
    /// When this happened.
    pub timestamp: i64,
}

/// A transaction was proposed.
#[derive(Debug)]
pub struct TransactionCreateEvent {
    /// The wallet.
    pub smart_wallet: Pubkey,
    /// The transaction.
    pub transaction: Pubkey,
    /// Who proposed it.
    pub proposer: Pubkey,
    /// Its instructions.
    pub instructions: Vec<TXInstruction>,
    /// Its ETA.
    pub eta: i64,
    /// When this happened.
    pub timestamp: i64,
}

/// An owner approved a transaction.
#[derive(Debug)]
pub struct TransactionApproveEvent {
    /// The wallet.
    pub smart_wallet: Pubkey,
    /// The transaction.
    pub transaction: Pubkey,
    /// The owner.
    pub owner: Pubkey,
    /// When this happened.
    pub timestamp: i64,
}

/// An owner took an approval back.
#[derive(Debug)]
pub struct TransactionUnapproveEvent {
    /// The wallet.
    pub smart_wallet: Pubkey,
    /// The transaction.
    pub transaction: Pubkey,
    /// The owner.
    pub owner: Pubkey,
    /// When this happened.
    pub timestamp: i64,
}

/// A transaction was executed.
#[derive(Debug)]
pub struct TransactionExecuteEvent {
    /// The wallet.
    pub smart_wallet: Pubkey,
    /// The transaction.
    pub transaction: Pubkey,
    /// Who executed it.
    pub executor: Pubkey,
    /// When this happened.
    pub timestamp: i64,
}

} // verus!
