//! The reasons for which the program refuses a request.

use vstd::prelude::*;

verus! {

/// The errors that the program itself defines.
#[derive(Clone, Copy, Debug, PartialEq, Eq, Structural)]
pub enum ErrorCode {
    /// The given owner is not part of this smart wallet.
    InvalidOwner,
    /// Estimated execution block must satisfy delay.
    InvalidETA,
    /// Delay greater than the maximum.
    DelayTooHigh,
    /// Not enough owners signed this transaction.
    NotEnoughSigners,
    /// Transaction is past the grace period.
    TransactionIsStale,
    /// Transaction hasn't surpassed time lock.
    TransactionNotReady,
    /// The given transaction has already been executed.
    AlreadyExecuted,
    /// Threshold must be less than or equal to the number of owners.
    InvalidThreshold,
    /// Owner set has changed since the creation of the transaction.
    OwnerSetChanged,
    /// Subaccount does not belong to smart wallet.
    SubaccountOwnerMismatch,
    /// The destination is not on the whitelist. No rule of the program gives this error.
    DestinationNotWhitelisted,
}

/// The conditions on a request that have no error code of their own.
#[derive(Clone, Copy, Debug, PartialEq, Eq, Structural)]
pub enum Invariant {
    /// The minimum delay of a new wallet is negative.
    DelayMustBePositive,
    /// A new wallet has more owners than the account is made for.
    MaxOwners,
    /// The ETA of a new transaction is negative.
    EtaMustBePositive,
    /// The ETA of a new transaction has passed.
    EtaMustBeInTheFuture,
}

/// Why a request was refused.
#[derive(Clone, Copy, Debug, PartialEq, Eq, Structural)]
pub enum WalletError {
    /// One of the program's own errors.
    Code(ErrorCode),
    /// A condition on the request does not hold.
    InvariantFailed(Invariant),
    /// A counter or a point in time does not fit its type.
    IntegerOverflow,
    /// The transaction belongs to another smart wallet.
    KeyMismatch,
    /// The smart wallet did not sign the request.
    MissingSignature,
}

impl ErrorCode {
    /// The words of [`ErrorCode::message`].
    pub open spec fn spec_message(self) -> Seq<char> {
        match self {
            ErrorCode::InvalidOwner => "The given owner is not part of this smart wallet."@,
            ErrorCode::InvalidETA => "Estimated execution block must satisfy delay."@,
            ErrorCode::DelayTooHigh => "Delay greater than the maximum."@,
            ErrorCode::NotEnoughSigners => "Not enough owners signed this transaction."@,
            ErrorCode::TransactionIsStale => "Transaction is past the grace period."@,
            ErrorCode::TransactionNotReady => "Transaction hasn't surpassed time lock."@,
            ErrorCode::AlreadyExecuted => "The given transaction has already been executed."@,
            ErrorCode::InvalidThreshold =>
                "Threshold must be less than or equal to the number of owners."@,
            ErrorCode::OwnerSetChanged =>
                "Owner set has changed since the creation of the transaction."@,
            ErrorCode::SubaccountOwnerMismatch => "Subaccount does not belong to smart wallet."@,
            ErrorCode::DestinationNotWhitelisted => "destination not whitelisted"@,
        }
    }

    /// The text shown to the user.
    pub fn message(self) -> (text: &'static str)
        ensures
            text@ == self.spec_message(),
    {
        match self {
            ErrorCode::InvalidOwner => "The given owner is not part of this smart wallet.",
            ErrorCode::InvalidETA => "Estimated execution block must satisfy delay.",
            ErrorCode::DelayTooHigh => "Delay greater than the maximum.",
            ErrorCode::NotEnoughSigners => "Not enough owners signed this transaction.",
            ErrorCode::TransactionIsStale => "Transaction is past the grace period.",
            ErrorCode::TransactionNotReady => "Transaction hasn't surpassed time lock.",
            ErrorCode::AlreadyExecuted => "The given transaction has already been executed.",
            ErrorCode::InvalidThreshold =>
                "Threshold must be less than or equal to the number of owners.",
            ErrorCode::OwnerSetChanged =>
                "Owner set has changed since the creation of the transaction.",
            ErrorCode::SubaccountOwnerMismatch => "Subaccount does not belong to smart wallet.",
            ErrorCode::DestinationNotWhitelisted => "destination not whitelisted",
        }
    }
}

impl Invariant {
    /// The words of [`Invariant::message`].
    pub open spec fn spec_message(self) -> Seq<char> {
        match self {
            Invariant::DelayMustBePositive => "delay must be positive"@,
            Invariant::MaxOwners => "max_owners"@,
            Invariant::EtaMustBePositive => "ETA must be positive"@,
            Invariant::EtaMustBeInTheFuture => "ETA must be in the future"@,
        }
    }

    /// The text that is logged when the condition does not hold.
    pub fn message(self) -> (text: &'static str)
        ensures
            text@ == self.spec_message(),
    {
        match self {
            Invariant::DelayMustBePositive => "delay must be positive",
            Invariant::MaxOwners => "max_owners",
            Invariant::EtaMustBePositive => "ETA must be positive",
            Invariant::EtaMustBeInTheFuture => "ETA must be in the future",
        }
    }
}

} // verus!
