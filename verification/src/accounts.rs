//! The accounts that each request comes with, and the rules on who may make it.

use vstd::prelude::*;

use crate::error::{ErrorCode, WalletError};
use crate::pubkey::Pubkey;
use crate::state::{
    count_signers, owner_slot, SmartWallet, SubaccountInfo, Transaction, TransactionState,
    WalletState,
};
use crate::{NOT_EXECUTED, NO_ETA};

verus! {

/// An account of the program: its address and its contents.
#[derive(Debug)]
pub struct Account<T> {
    /// The account's address.
    pub key: Pubkey,
    /// The account's contents.
    pub data: T,
}

/// An account that has signed the request.
#[derive(Clone, Copy, Debug)]
pub struct Signer {
    /// The account's address.
    pub key: Pubkey,
}

/// Accounts for [`create_smart_wallet`](crate::smart_wallet::create_smart_wallet).
#[derive(Debug)]
pub struct CreateSmartWallet {
    /// Base key of the [`SmartWallet`].
    pub base: Signer,
    /// The [`SmartWallet`] to create.
    pub smart_wallet: Account<SmartWallet>,
}

/// Accounts for [`set_owners`](crate::smart_wallet::set_owners) and
/// [`change_threshold`](crate::smart_wallet::change_threshold).
#[derive(Debug)]
pub struct Auth {
    /// The [`SmartWallet`].
    pub smart_wallet: Account<SmartWallet>,
    /// Whether the wallet has signed the request. It does so only for instructions of its own
    /// transactions.
    pub is_signer: bool,
}

/// Accounts for [`create_transaction`](crate::smart_wallet::create_transaction).
#[derive(Debug)]
pub struct CreateTransaction {
    /// The [`SmartWallet`].
    pub smart_wallet: Account<SmartWallet>,
    /// The [`Transaction`] to create.
    pub transaction: Account<Transaction>,
    /// One of the owners. Checked in the handler via [`SmartWallet::owner_index`].
    pub proposer: Signer,
}

/// Accounts for [`approve`](crate::smart_wallet::approve) and
/// [`unapprove`](crate::smart_wallet::unapprove).
#[derive(Debug)]
pub struct Approve {
    /// The [`SmartWallet`].
    pub smart_wallet: Account<SmartWallet>,
    /// The [`Transaction`].
    pub transaction: Account<Transaction>,
    /// One of the wallet's owners. Checked in the handler.
    pub owner: Signer,
}

/// Accounts for [`execute_transaction`](crate::smart_wallet::execute_transaction) and
/// [`execute_transaction_derived`](crate::smart_wallet::execute_transaction_derived).
#[derive(Debug)]
pub struct ExecuteTransaction {
    /// The [`SmartWallet`].
    pub smart_wallet: Account<SmartWallet>,
    /// The [`Transaction`] to execute.
    pub transaction: Account<Transaction>,
    /// An owner of the [`SmartWallet`].
    pub owner: Signer,
}

/// Accounts for [`owner_invoke_instruction`](crate::smart_wallet::owner_invoke_instruction).
#[derive(Debug)]
pub struct OwnerInvokeInstruction {
    /// The [`SmartWallet`].
    pub smart_wallet: Account<SmartWallet>,
    /// An owner of the [`SmartWallet`].
    pub owner: Signer,
}

/// Accounts for [`create_subaccount_info`](crate::smart_wallet::create_subaccount_info).
#[derive(Debug)]
pub struct CreateSubaccountInfo {
    /// The [`SubaccountInfo`] to create.
    pub subaccount_info: Account<SubaccountInfo>,
}

/// Why a change of the wallet's own settings is refused.
pub open spec fn auth_denial(is_signer: bool) -> Option<WalletError> {
    if is_signer {
        None
    } else {
        Some(WalletError::MissingSignature)
    }
}

/// Why the transaction `tx` cannot be put before the owners of the wallet at `wallet_key`: it
/// belongs to another wallet, or to an earlier set of owners.
pub open spec fn membership_denial(
    wallet_key: Pubkey,
    wallet: WalletState,
    tx: TransactionState,
) -> Option<WalletError> {
    if tx.smart_wallet != wallet_key {
        Some(WalletError::KeyMismatch)
    } else if tx.owner_set_seqno != wallet.owner_set_seqno {
        Some(WalletError::Code(ErrorCode::OwnerSetChanged))
    } else {
        None
    }
}

/// Why a transaction cannot be executed at `now`. It can be from its ETA on; with an ETA other than
/// `NO_ETA`, until the grace period is over. `NO_ETA`, read as a point in time, lies before every
/// time since 1970.
pub open spec fn time_denial(eta: i64, grace_period: i64, now: i64) -> Option<WalletError> {
    if now < eta {
        Some(WalletError::Code(ErrorCode::TransactionNotReady))
    } else if eta == NO_ETA {
        None
    } else if !(i64::MIN <= eta + grace_period <= i64::MAX) {
        Some(WalletError::IntegerOverflow)
    } else if now > eta + grace_period {
        Some(WalletError::Code(ErrorCode::TransactionIsStale))
    } else {
        None
    }
}

/// Why `key` cannot act as an owner.
pub open spec fn owner_denial(owners: Seq<Pubkey>, key: Pubkey) -> Option<WalletError> {
    if owners.contains(key) {
        None
    } else {
        Some(WalletError::Code(ErrorCode::InvalidOwner))
    }
}

/// Why `owner` cannot execute the transaction `tx` of the wallet at `wallet_key` at `now`.
pub open spec fn execution_denial(
    wallet_key: Pubkey,
    wallet: WalletState,
    tx: TransactionState,
    owner: Pubkey,
    now: i64,
) -> Option<WalletError> {
    if membership_denial(wallet_key, wallet, tx) is Some {
        membership_denial(wallet_key, wallet, tx)
    } else if tx.executed_at != NOT_EXECUTED {
        Some(WalletError::Code(ErrorCode::AlreadyExecuted))
    } else if time_denial(tx.eta, wallet.grace_period, now) is Some {
        time_denial(tx.eta, wallet.grace_period, now)
    } else if count_signers(tx.signers) < wallet.threshold {
        Some(WalletError::Code(ErrorCode::NotEnoughSigners))
    } else {
        owner_denial(wallet.owners, owner)
    }
}

/// Whether `verdict` says what `denial` says.
pub open spec fn answers(verdict: Result<(), WalletError>, denial: Option<WalletError>) -> bool {
    match verdict {
        Ok(()) => denial is None,
        Err(error) => denial == Some(error),
    }
}

impl Auth {
    /// Only the wallet itself may change its settings.
    pub fn validate(&self) -> (verdict: Result<(), WalletError>)
        ensures
            answers(verdict, auth_denial(self.is_signer)),
    {
        if !self.is_signer {
            return Err(WalletError::MissingSignature);
        }
        Ok(())
    }
}

/// Checks that the transaction belongs to the wallet and to its present owners.
fn check_membership(
    smart_wallet: &Account<SmartWallet>,
    transaction: &Transaction,
) -> (verdict: Result<(), WalletError>)
    ensures
        answers(
            verdict,
            membership_denial(smart_wallet.key, smart_wallet.data@, transaction@),
        ),
{
    if transaction.smart_wallet != smart_wallet.key {
        return Err(WalletError::KeyMismatch);
    }
    if transaction.owner_set_seqno != smart_wallet.data.owner_set_seqno {
        return Err(WalletError::Code(ErrorCode::OwnerSetChanged));
    }
    Ok(())
}

/// Checks that `now` lies between the ETA and the end of the grace period.
fn check_time(eta: i64, grace_period: i64, now: i64) -> (verdict: Result<(), WalletError>)
    ensures
        answers(verdict, time_denial(eta, grace_period, now)),
{
    if now < eta {
        return Err(WalletError::Code(ErrorCode::TransactionNotReady));
    }
    if eta == NO_ETA {
        return Ok(());
    }
    match eta.checked_add(grace_period) {
        None => Err(WalletError::IntegerOverflow),
        Some(end) => if now > end {
            Err(WalletError::Code(ErrorCode::TransactionIsStale))
        } else {
            Ok(())
        },
    }
}

/// Why `owner` cannot sign the transaction `tx` of the wallet at `wallet_key`, nor take a signature
/// back.
pub open spec fn signature_denial(
    wallet_key: Pubkey,
    wallet: WalletState,
    tx: TransactionState,
    owner: Pubkey,
) -> Option<WalletError> {
    if membership_denial(wallet_key, wallet, tx) is Some {
        membership_denial(wallet_key, wallet, tx)
    } else {
        owner_denial(wallet.owners, owner)
    }
}

impl Approve {
    /// The transaction has to belong to the wallet and to its present owners.
    pub fn validate(&self) -> (verdict: Result<(), WalletError>)
        ensures
            answers(
                verdict,
                membership_denial(
                    self.smart_wallet.key,
                    self.smart_wallet.data@,
                    self.transaction.data@,
                ),
            ),
    {
        check_membership(&self.smart_wallet, &self.transaction.data)
    }

    /// Why the request is refused.
    pub open spec fn denial(self) -> Option<WalletError> {
        signature_denial(
            self.smart_wallet.key,
            self.smart_wallet.data@,
            self.transaction.data@,
            self.owner.key,
        )
    }

    /// Whether the transaction has a place for the owner's signature, unless the request is
    /// refused. It has for every transaction made by
    /// [`create_transaction`](crate::smart_wallet::create_transaction).
    pub open spec fn spec_has_slot(self) -> bool {
        self.denial() is None ==> match owner_slot(
            self.smart_wallet.data@.owners,
            self.owner.key,
        ) {
            Some(slot) => slot < self.transaction.data@.signers.len(),
            None => true,
        }
    }

    /// Whether the transaction has a place for the owner's signature, unless the request is
    /// refused.
    pub fn has_slot(&self) -> (found: bool)
        ensures
            found == self.spec_has_slot(),
    {
        if self.validate().is_err() {
            return true;
        }
        match self.smart_wallet.data.owner_index(self.owner.key) {
            Ok(slot) => slot < self.transaction.data.signers.len(),
            Err(_) => true,
        }
    }
}

impl ExecuteTransaction {
    /// Why the request is refused at `now`.
    pub open spec fn denial(self, now: i64) -> Option<WalletError> {
        execution_denial(
            self.smart_wallet.key,
            self.smart_wallet.data@,
            self.transaction.data@,
            self.owner.key,
            now,
        )
    }

    /// The transaction has to belong to the wallet and to its present owners, must not have been
    /// executed, has to be past its time lock and within its grace period, and has to be signed
    /// by as many owners as the threshold asks for; who executes it has to be an owner.
    pub fn validate(&self, now: i64) -> (verdict: Result<(), WalletError>)
        ensures
            answers(verdict, self.denial(now)),
    {
        check_membership(&self.smart_wallet, &self.transaction.data)?;
        if self.transaction.data.executed_at != NOT_EXECUTED {
            return Err(WalletError::Code(ErrorCode::AlreadyExecuted));
        }
        check_time(self.transaction.data.eta, self.smart_wallet.data.grace_period, now)?;
        let signed: u64 = self.transaction.data.num_signers() as u64;
        if signed < self.smart_wallet.data.threshold {
            return Err(WalletError::Code(ErrorCode::NotEnoughSigners));
        }
        self.smart_wallet.data.owner_index(self.owner.key)?;
        Ok(())
    }
}

impl OwnerInvokeInstruction {
    /// Who invokes has to be an owner.
    pub fn validate(&self) -> (verdict: Result<(), WalletError>)
        ensures
            answers(verdict, owner_denial(self.smart_wallet.data@.owners, self.owner.key)),
    {
        self.smart_wallet.data.owner_index(self.owner.key)?;
        Ok(())
    }
}

} // verus!
