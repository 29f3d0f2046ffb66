//! Subaccounts and their derived addresses.

use smart_wallet::accounts::{Account, CreateSubaccountInfo};
use smart_wallet::error::{ErrorCode, WalletError};
use smart_wallet::pubkey::{id, Pubkey};
use smart_wallet::seeds::{signer_address, subaccount_address, subaccount_signer};
use smart_wallet::smart_wallet::{
    create_subaccount_info, record_subaccount, try_create_subaccount_info,
};
use smart_wallet::state::{SubaccountInfo, SubaccountType};

const DERIVED: [u8; 32] = [
    20, 231, 142, 254, 67, 198, 184, 191, 18, 66, 109, 157, 238, 225, 162, 164, 106, 2, 241, 250,
    27, 10, 55, 186, 167, 69, 116, 34, 203, 152, 218, 54,
];

const OWNER_INVOKER: [u8; 32] = [
    89, 235, 234, 165, 176, 92, 235, 147, 84, 98, 10, 105, 119, 122, 251, 118, 43, 130, 0, 104,
    102, 190, 18, 164, 130, 139, 227, 246, 233, 115, 202, 219,
];

fn key(n: u8) -> Pubkey {
    Pubkey { bytes: [n; 32] }
}

fn accounts() -> CreateSubaccountInfo {
    CreateSubaccountInfo {
        subaccount_info: Account {
            key: key(80),
            data: SubaccountInfo {
                smart_wallet: key(0),
                subaccount_type: SubaccountType::Derived,
                index: 0,
            },
        },
    }
}

#[test]
fn addresses_are_derived() {
    assert_eq!(
        subaccount_address(SubaccountType::Derived, &key(7), 258),
        Some((Pubkey { bytes: DERIVED }, 255)),
    );
    assert_eq!(
        subaccount_address(SubaccountType::OwnerInvoker, &key(7), 258),
        Some((Pubkey { bytes: OWNER_INVOKER }, 250)),
    );
}

#[test]
fn signer_seeds_give_the_address() {
    let program = anchor_lang::prelude::Pubkey::new_from_array(id().bytes);
    for subaccount_type in [SubaccountType::Derived, SubaccountType::OwnerInvoker] {
        for index in 0..20u64 {
            let (address, bump) = subaccount_address(subaccount_type, &key(7), index).unwrap();
            let seeds = subaccount_signer(subaccount_type, &key(7), index, bump);
            let slices: Vec<&[u8]> = seeds.iter().map(|seed| seed.as_slice()).collect();
            let signer =
                anchor_lang::prelude::Pubkey::create_program_address(&slices, &program).unwrap();
            assert_eq!(signer.to_bytes(), address.bytes);
            assert_eq!(signer_address(&seeds), Some(address));
        }
    }
}

#[test]
fn signer_address_is_created() {
    let seeds = subaccount_signer(SubaccountType::OwnerInvoker, &key(7), 258, 250);
    assert_eq!(signer_address(&seeds), Some(Pubkey { bytes: OWNER_INVOKER }));
    let on_the_curve = subaccount_signer(SubaccountType::OwnerInvoker, &key(7), 258, 251);
    assert_eq!(signer_address(&on_the_curve), None);
    assert_eq!(signer_address(&vec![vec![0; 33]]), None);
    assert_eq!(signer_address(&vec![vec![0]; 17]), None);
}

#[test]
fn subaccount_is_recorded() {
    let mut created = accounts();
    let subaccount = Pubkey { bytes: OWNER_INVOKER };
    create_subaccount_info(
        &mut created,
        250,
        subaccount,
        key(7),
        258,
        SubaccountType::OwnerInvoker,
    )
    .unwrap();
    let info = &created.subaccount_info.data;
    assert_eq!(info.smart_wallet, key(7));
    assert_eq!(info.subaccount_type, SubaccountType::OwnerInvoker);
    assert_eq!(info.index, 258);
    assert_eq!(created.subaccount_info.key, key(80));
}

#[test]
fn other_address_is_refused() {
    let mut created = accounts();
    let subaccount = Pubkey { bytes: OWNER_INVOKER };
    let refused =
        create_subaccount_info(&mut created, 250, subaccount, key(7), 258, SubaccountType::Derived)
            .unwrap_err();
    assert_eq!(refused, WalletError::Code(ErrorCode::SubaccountOwnerMismatch));
    assert_eq!(created.subaccount_info.data.smart_wallet, key(0));
}

#[test]
fn address_is_tried_first() {
    let mut created = accounts();
    let outcome = try_create_subaccount_info(
        &mut created,
        255,
        Pubkey { bytes: DERIVED },
        key(7),
        258,
        SubaccountType::Derived,
    );
    assert_eq!(outcome, Some(Ok(())));
    assert_eq!(created.subaccount_info.data.index, 258);
}

#[test]
fn recording_compares_the_addresses() {
    let mut created = accounts();
    let kind = SubaccountType::OwnerInvoker;
    let refused = record_subaccount(&mut created, key(1), key(2), key(7), 3, kind).unwrap_err();
    assert_eq!(refused, WalletError::Code(ErrorCode::SubaccountOwnerMismatch));
    assert_eq!(created.subaccount_info.data.index, 0);
    record_subaccount(&mut created, key(2), key(2), key(7), 3, kind).unwrap();
    assert_eq!(created.subaccount_info.data.index, 3);
    assert_eq!(created.subaccount_info.data.subaccount_type, kind);
}

#[test]
fn subaccounts_have_different_addresses() {
    let mut seen: Vec<[u8; 32]> = Vec::new();
    for subaccount_type in [SubaccountType::Derived, SubaccountType::OwnerInvoker] {
        for wallet in 0..4u8 {
            for index in 0..4u64 {
                let (address, _) = subaccount_address(subaccount_type, &key(wallet), index).unwrap();
                assert!(!seen.contains(&address.bytes));
                seen.push(address.bytes);
            }
        }
    }
    assert_eq!(seen.len(), 32);
}
