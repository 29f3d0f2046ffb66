//! Wallets and their settings.

use smart_wallet::accounts::{Account, Auth, CreateSmartWallet, Signer};
use smart_wallet::error::{ErrorCode, Invariant, WalletError};
use smart_wallet::pubkey::{id, Pubkey};
use smart_wallet::smart_wallet::{change_threshold, create_smart_wallet, set_owners};
use smart_wallet::state::SmartWallet;
use smart_wallet::{DEFAULT_GRACE_PERIOD, MAX_DELAY_SECONDS, NO_ETA, SECONDS_PER_DAY};

fn key(n: u8) -> Pubkey {
    Pubkey { bytes: [n; 32] }
}

fn empty_wallet() -> SmartWallet {
    SmartWallet {
        base: Pubkey::default(),
        bump: 0,
        threshold: 0,
        minimum_delay: 0,
        grace_period: 0,
        owner_set_seqno: 9,
        num_transactions: 9,
        owners: vec![],
    }
}

fn creation() -> CreateSmartWallet {
    CreateSmartWallet {
        base: Signer { key: key(50) },
        smart_wallet: Account { key: key(60), data: empty_wallet() },
    }
}

fn auth(owners: Vec<Pubkey>, threshold: u64) -> Auth {
    let mut data = empty_wallet();
    data.owners = owners;
    data.threshold = threshold;
    data.owner_set_seqno = 4;
    Auth { smart_wallet: Account { key: key(60), data }, is_signer: true }
}

#[test]
fn constants_have_their_values() {
    assert_eq!(SECONDS_PER_DAY, 86_400);
    assert_eq!(MAX_DELAY_SECONDS, 31_536_000);
    assert_eq!(DEFAULT_GRACE_PERIOD, 1_209_600);
    assert_eq!(NO_ETA, -1);
}

#[test]
fn program_id_is_the_declared_one() {
    let declared: anchor_lang::prelude::Pubkey =
        "GokivDYuQXPZCWRkwMhdH2h91KpDQXBEmpgBgs55bnpH".parse().unwrap();
    assert_eq!(id().bytes, declared.to_bytes());
}

#[test]
fn default_key_is_zero() {
    assert_eq!(Pubkey::default().bytes, [0u8; 32]);
    assert!(Pubkey::default() == key(0));
    assert!(Pubkey::default() != key(1));
    let mut almost = key(1);
    almost.bytes[31] = 2;
    assert!(almost != key(1));
}

#[test]
fn new_wallet_has_its_fields() {
    let mut accounts = creation();
    let owners = vec![key(1), key(2), key(3)];
    let event =
        create_smart_wallet(&mut accounts, 254, 3, owners.clone(), 2, 60, 1_000).unwrap();
    let wallet = &accounts.smart_wallet.data;
    assert_eq!(wallet.base, key(50));
    assert_eq!(wallet.bump, 254);
    assert_eq!(wallet.threshold, 2);
    assert_eq!(wallet.minimum_delay, 60);
    assert_eq!(wallet.grace_period, 1_209_600);
    assert_eq!(wallet.owner_set_seqno, 0);
    assert_eq!(wallet.num_transactions, 0);
    assert_eq!(wallet.owners, owners);
    assert_eq!(event.smart_wallet, key(60));
    assert_eq!(event.owners, owners);
    assert_eq!(event.threshold, 2);
    assert_eq!(event.minimum_delay, 60);
    assert_eq!(event.timestamp, 1_000);
}

#[test]
fn negative_delay_is_refused() {
    let mut accounts = creation();
    let refused = create_smart_wallet(&mut accounts, 1, 3, vec![key(1)], 1, -1, 0).unwrap_err();
    assert_eq!(refused, WalletError::InvariantFailed(Invariant::DelayMustBePositive));
    assert_eq!(accounts.smart_wallet.data.num_transactions, 9);
}

#[test]
fn delay_may_reach_the_maximum() {
    let mut accounts = creation();
    let refused =
        create_smart_wallet(&mut accounts, 255, 1, vec![key(1)], 1, MAX_DELAY_SECONDS + 1, 0)
            .unwrap_err();
    assert_eq!(refused, WalletError::Code(ErrorCode::DelayTooHigh));
    assert_eq!(accounts.smart_wallet.data.minimum_delay, 0);
    create_smart_wallet(&mut accounts, 255, 1, vec![key(1)], 1, MAX_DELAY_SECONDS, 0).unwrap();
    assert_eq!(accounts.smart_wallet.data.minimum_delay, 31_536_000);
}

#[test]
fn owners_have_to_fit() {
    let mut accounts = creation();
    let refused =
        create_smart_wallet(&mut accounts, 1, 1, vec![key(1), key(2)], 1, 0, 0).unwrap_err();
    assert_eq!(refused, WalletError::InvariantFailed(Invariant::MaxOwners));
    assert!(create_smart_wallet(&mut accounts, 1, 2, vec![key(1), key(2)], 1, 0, 0).is_ok());
}

#[test]
fn threshold_is_not_checked_at_creation() {
    let mut accounts = creation();
    assert!(create_smart_wallet(&mut accounts, 1, 1, vec![key(1)], 5, 0, 0).is_ok());
    assert_eq!(accounts.smart_wallet.data.threshold, 5);
}

#[test]
fn fewer_owners_lower_the_threshold() {
    let mut accounts = auth(vec![key(1), key(2), key(3)], 3);
    let event = set_owners(&mut accounts, vec![key(8), key(9)], 77).unwrap();
    assert_eq!(accounts.smart_wallet.data.threshold, 2);
    assert_eq!(accounts.smart_wallet.data.owners, vec![key(8), key(9)]);
    assert_eq!(accounts.smart_wallet.data.owner_set_seqno, 5);
    assert_eq!(event.smart_wallet, key(60));
    assert_eq!(event.owners, vec![key(8), key(9)]);
    assert_eq!(event.timestamp, 77);
}

#[test]
fn more_owners_keep_the_threshold() {
    let mut accounts = auth(vec![key(1)], 1);
    set_owners(&mut accounts, vec![key(8), key(9)], 77).unwrap();
    assert_eq!(accounts.smart_wallet.data.threshold, 1);
}

#[test]
fn only_the_wallet_sets_owners() {
    let mut accounts = auth(vec![key(1)], 1);
    accounts.is_signer = false;
    let refused = set_owners(&mut accounts, vec![key(8)], 77).unwrap_err();
    assert_eq!(refused, WalletError::MissingSignature);
    assert_eq!(accounts.smart_wallet.data.owners, vec![key(1)]);
}

#[test]
fn owner_set_counter_does_not_wrap() {
    let mut accounts = auth(vec![key(1), key(2)], 2);
    accounts.smart_wallet.data.owner_set_seqno = u32::MAX;
    let refused = set_owners(&mut accounts, vec![key(8)], 77).unwrap_err();
    assert_eq!(refused, WalletError::IntegerOverflow);
    assert_eq!(accounts.smart_wallet.data.threshold, 2);
    assert_eq!(accounts.smart_wallet.data.owners, vec![key(1), key(2)]);
}

#[test]
fn threshold_can_be_changed_up_to_the_owners() {
    let mut accounts = auth(vec![key(1), key(2)], 1);
    let event = change_threshold(&mut accounts, 2, 78).unwrap();
    assert_eq!(accounts.smart_wallet.data.threshold, 2);
    assert_eq!(event.smart_wallet, key(60));
    assert_eq!(event.threshold, 2);
    assert_eq!(event.timestamp, 78);
    let refused = change_threshold(&mut accounts, 3, 78).unwrap_err();
    assert_eq!(refused, WalletError::Code(ErrorCode::InvalidThreshold));
    assert_eq!(accounts.smart_wallet.data.threshold, 2);
}

#[test]
fn only_the_wallet_changes_the_threshold() {
    let mut accounts = auth(vec![key(1), key(2)], 1);
    accounts.is_signer = false;
    let refused = change_threshold(&mut accounts, 2, 78).unwrap_err();
    assert_eq!(refused, WalletError::MissingSignature);
}

#[test]
fn first_place_of_an_owner_counts() {
    let mut wallet = empty_wallet();
    wallet.owners = vec![key(1), key(2), key(2)];
    assert_eq!(wallet.owner_index(key(2)), Ok(1));
    assert_eq!(wallet.owner_index(key(1)), Ok(0));
    assert_eq!(wallet.owner_index(key(3)), Err(WalletError::Code(ErrorCode::InvalidOwner)));
}

#[test]
fn errors_have_their_messages() {
    let messages = [
        (ErrorCode::InvalidOwner, "The given owner is not part of this smart wallet."),
        (ErrorCode::InvalidETA, "Estimated execution block must satisfy delay."),
        (ErrorCode::DelayTooHigh, "Delay greater than the maximum."),
        (ErrorCode::NotEnoughSigners, "Not enough owners signed this transaction."),
        (ErrorCode::TransactionIsStale, "Transaction is past the grace period."),
        (ErrorCode::TransactionNotReady, "Transaction hasn't surpassed time lock."),
        (ErrorCode::AlreadyExecuted, "The given transaction has already been executed."),
        (
            ErrorCode::InvalidThreshold,
            "Threshold must be less than or equal to the number of owners.",
        ),
        (
            ErrorCode::OwnerSetChanged,
            "Owner set has changed since the creation of the transaction.",
        ),
        (ErrorCode::SubaccountOwnerMismatch, "Subaccount does not belong to smart wallet."),
        (ErrorCode::DestinationNotWhitelisted, "destination not whitelisted"),
    ];
    for (code, message) in messages {
        assert_eq!(code.message(), message);
    }
    assert_eq!(Invariant::DelayMustBePositive.message(), "delay must be positive");
    assert_eq!(Invariant::MaxOwners.message(), "max_owners");
    assert_eq!(Invariant::EtaMustBePositive.message(), "ETA must be positive");
    assert_eq!(Invariant::EtaMustBeInTheFuture.message(), "ETA must be in the future");
}
