//! The addresses for which a smart wallet signs, and the seeds that they are derived from.

use vstd::bytes::{spec_u64_to_le_bytes, u64_to_le_bytes};
use vstd::prelude::*;

use crate::pubkey::{id, program_id, Pubkey};
use crate::state::{SmartWallet, SubaccountType, WalletState};

verus! {

/// The bytes of an ASCII text.
pub open spec fn ascii(text: Seq<char>) -> Seq<u8> {
    text.map_values(|c: char| c as u8)
}

/// The contents of each of `seeds`.
pub open spec fn seed_bytes(seeds: Seq<Vec<u8>>) -> Seq<Seq<u8>> {
    Seq::new(seeds.len(), |i: int| seeds[i]@)
}

/// The text that marks the addresses of the subaccounts of a type.
pub open spec fn subaccount_tag(subaccount_type: SubaccountType) -> Seq<u8> {
    match subaccount_type {
        SubaccountType::Derived => ascii("GokiSmartWalletDerived"@),
        SubaccountType::OwnerInvoker => ascii("GokiSmartWalletOwnerInvoker"@),
    }
}

/// The seeds, with the bump seed, of the wallet's own address.
pub open spec fn wallet_signer_seeds(wallet: WalletState) -> Seq<Seq<u8>> {
    seq![ascii("GokiSmartWallet"@), wallet.base@, seq![wallet.bump]]
}

/// The seeds of the address of a subaccount.
pub open spec fn subaccount_seeds(
    subaccount_type: SubaccountType,
    smart_wallet: Pubkey,
    index: u64,
) -> Seq<Seq<u8>> {
    seq![subaccount_tag(subaccount_type), smart_wallet@, spec_u64_to_le_bytes(index)]
}

/// The seeds, with the bump seed, of the address of a subaccount.
pub open spec fn subaccount_signer_seeds(
    subaccount_type: SubaccountType,
    smart_wallet: Pubkey,
    index: u64,
    bump: u8,
) -> Seq<Seq<u8>> {
    subaccount_seeds(subaccount_type, smart_wallet, index).push(seq![bump])
}

/// The bytes of an address as a vector.
fn key_bytes(key: &Pubkey) -> (bytes: Vec<u8>)
    ensures
        bytes@ == key@,
{
    let mut bytes: Vec<u8> = Vec::new();
    bytes.extend_from_slice(key.bytes.as_slice());
    assert(bytes@ =~= key@);
    bytes
}

/// The text that marks the addresses of the subaccounts of a type.
fn tag_of(subaccount_type: SubaccountType) -> (tag: Vec<u8>)
    ensures
        tag@ == subaccount_tag(subaccount_type),
{
    proof {
        reveal_strlit("GokiSmartWalletDerived");
        reveal_strlit("GokiSmartWalletOwnerInvoker");
    }
    let tag: Vec<u8> = match subaccount_type {
        SubaccountType::Derived => vec![
            71u8, 111, 107, 105, 83, 109, 97, 114, 116, 87, 97, 108, 108, 101, 116, 68, 101,
            114, 105, 118, 101, 100,
        ],
        SubaccountType::OwnerInvoker => vec![
            71u8, 111, 107, 105, 83, 109, 97, 114, 116, 87, 97, 108, 108, 101, 116, 79, 119,
            110, 101, 114, 73, 110, 118, 111, 107, 101, 114,
        ],
    };
    assert(tag@ =~= subaccount_tag(subaccount_type));
    tag
}

/// The seeds, with the bump seed, of the wallet's own address.
pub fn wallet_signer(smart_wallet: &SmartWallet) -> (seeds: Vec<Vec<u8>>)
    ensures
        seed_bytes(seeds@) == wallet_signer_seeds(smart_wallet@),
{
    proof {
        reveal_strlit("GokiSmartWallet");
    }
    let tag: Vec<u8> = vec![
        71u8, 111, 107, 105, 83, 109, 97, 114, 116, 87, 97, 108, 108, 101, 116,
    ];
    assert(tag@ =~= ascii("GokiSmartWallet"@));
    let bump: Vec<u8> = vec![smart_wallet.bump];
    assert(bump@ =~= seq![smart_wallet.bump]);
    let seeds: Vec<Vec<u8>> = vec![tag, key_bytes(&smart_wallet.base), bump];
    assert(seed_bytes(seeds@) =~= wallet_signer_seeds(smart_wallet@));
    seeds
}

/// The seeds, with the bump seed, of the address of a subaccount.
pub fn subaccount_signer(
    subaccount_type: SubaccountType,
    smart_wallet: &Pubkey,
    index: u64,
    bump: u8,
) -> (seeds: Vec<Vec<u8>>)
    ensures
        seed_bytes(seeds@) == subaccount_signer_seeds(subaccount_type, *smart_wallet, index, bump),
{
    let last: Vec<u8> = vec![bump];
    assert(last@ =~= seq![bump]);
    let seeds: Vec<Vec<u8>> = vec![
        tag_of(subaccount_type),
        key_bytes(smart_wallet),
        u64_to_le_bytes(index),
        last,
    ];
    assert(seed_bytes(seeds@) =~= subaccount_signer_seeds(
        subaccount_type,
        *smart_wallet,
        index,
        bump,
    ));
    seeds
}

/// The address that `Pubkey::try_find_program_address` of `solana_program` finds for a program and
/// seeds, with its bump seed. `None` where it finds none.
pub uninterp spec fn find_program_address(
    seeds: Seq<Seq<u8>>,
    program: Seq<u8>,
) -> Option<(Seq<u8>, u8)>;

/// The bytes of an address that was found, with its bump seed.
pub open spec fn found_bytes(found: Option<(Pubkey, u8)>) -> Option<(Seq<u8>, u8)> {
    match found {
        Some((key, bump)) => Some((key@, bump)),
        None => None,
    }
}

/// The address that `Pubkey::create_program_address` of `solana_program` creates for a program and
/// seeds. `None` where it gives an error.
pub uninterp spec fn program_address(seeds: Seq<Seq<u8>>, program: Seq<u8>) -> Option<Seq<u8>>;

/// The bytes of an address, where there is one.
pub open spec fn address_bytes(address: Option<Pubkey>) -> Option<Seq<u8>> {
    match address {
        Some(key) => Some(key@),
        None => None,
    }
}

/// The contents of each of `slices`.
pub open spec fn slice_bytes(slices: Seq<&[u8]>) -> Seq<Seq<u8>> {
    Seq::new(slices.len(), |i: int| slices[i]@)
}

/// Calls `Pubkey::create_program_address` of `solana_program`, which hashes the seeds and the program
/// and gives the hash where it is not a point of the curve, an error otherwise or where there are too
/// many seeds or one is too long. It is claimed that the address depends on the seeds and the program
/// alone; which one it is, and which error is given, is left unsaid.
#[verifier::external_body]
fn create_program_address(seeds: &[&[u8]], program: &Pubkey) -> (address: Option<Pubkey>)
    ensures
        address_bytes(address) == program_address(slice_bytes(seeds@), program@),
{
    let program = anchor_lang::prelude::Pubkey::new_from_array(program.bytes);
    match anchor_lang::prelude::Pubkey::create_program_address(seeds, &program) {
        Ok(key) => Some(Pubkey { bytes: key.to_bytes() }),
        Err(_) => None,
    }
}

/// Calls `Pubkey::try_find_program_address` of `solana_program`, which is
/// `Pubkey::find_program_address` without its panic: it tries bump seeds from 255 down to 1 and
/// returns the first address that `Pubkey::create_program_address` creates for the seeds and the bump
/// seed after them, or `None`. It is claimed that the result depends on the three seeds and the
/// program alone, and that an address that is found is the one created with its bump seed.
#[verifier::external_body]
fn try_find_program_address(
    first: &[u8],
    second: &[u8],
    third: &[u8],
    program: &Pubkey,
) -> (found: Option<(Pubkey, u8)>)
    ensures
        found_bytes(found) == find_program_address(seq![first@, second@, third@], program@),
        match found {
            Some((key, bump)) => program_address(
                seq![first@, second@, third@, seq![bump]],
                program@,
            ) == Some(key@),
            None => true,
        },
{
    let program = anchor_lang::prelude::Pubkey::new_from_array(program.bytes);
    let seeds = [first, second, third];
    match anchor_lang::prelude::Pubkey::try_find_program_address(&seeds, &program) {
        Some((key, bump)) => Some((Pubkey { bytes: key.to_bytes() }, bump)),
        None => None,
    }
}

/// The bytes of the address of a subaccount. `None` where no bump seed gives one.
pub open spec fn derived_address(
    subaccount_type: SubaccountType,
    smart_wallet: Pubkey,
    index: u64,
) -> Option<Seq<u8>> {
    match find_program_address(
        subaccount_seeds(subaccount_type, smart_wallet, index),
        program_id(),
    ) {
        Some((address, _)) => Some(address),
        None => None,
    }
}

/// The bump seed of the address of a subaccount. `None` where there is none.
pub open spec fn derived_bump(
    subaccount_type: SubaccountType,
    smart_wallet: Pubkey,
    index: u64,
) -> Option<u8> {
    match find_program_address(
        subaccount_seeds(subaccount_type, smart_wallet, index),
        program_id(),
    ) {
        Some((_, bump)) => Some(bump),
        None => None,
    }
}

/// The bytes of the address for which this program signs with `seeds`. `None` where they give none.
pub open spec fn signed_address(seeds: Seq<Seq<u8>>) -> Option<Seq<u8>> {
    program_address(seeds, program_id())
}

/// The address for which this program signs with `seeds`. `None` where they give none.
pub fn signer_address(seeds: &Vec<Vec<u8>>) -> (address: Option<Pubkey>)
    ensures
        address_bytes(address) == signed_address(seed_bytes(seeds@)),
{
    let mut slices: Vec<&[u8]> = Vec::new();
    let mut i: usize = 0;
    while i < seeds.len()
        invariant
            0 <= i <= seeds@.len(),
            slices@.len() == i,
            forall|j: int| 0 <= j < i ==> (#[trigger] slices@[j])@ == seeds@[j]@,
        decreases seeds@.len() - i,
    {
        slices.push(seeds[i].as_slice());
        i = i + 1;
    }
    assert(slice_bytes(slices@) =~= seed_bytes(seeds@));
    create_program_address(slices.as_slice(), &id())
}

/// The address of a subaccount, with its bump seed, with which it signs. `None` where no bump seed
/// gives one.
pub fn subaccount_address(
    subaccount_type: SubaccountType,
    smart_wallet: &Pubkey,
    index: u64,
) -> (found: Option<(Pubkey, u8)>)
    ensures
        found_bytes(found) == find_program_address(
            subaccount_seeds(subaccount_type, *smart_wallet, index),
            program_id(),
        ),
        match found {
            Some((key, bump)) => signed_address(
                subaccount_signer_seeds(subaccount_type, *smart_wallet, index, bump),
            ) == Some(key@),
            None => true,
        },
{
    let tag = tag_of(subaccount_type);
    let index_bytes = u64_to_le_bytes(index);
    let found = try_find_program_address(
        tag.as_slice(),
        smart_wallet.bytes.as_slice(),
        index_bytes.as_slice(),
        &id(),
    );
    assert forall|bump: u8|
        #![auto]
        seq![tag@, smart_wallet@, index_bytes@, seq![bump]] == subaccount_signer_seeds(
            subaccount_type,
            *smart_wallet,
            index,
            bump,
        ) by {
        assert(seq![tag@, smart_wallet@, index_bytes@, seq![bump]] =~= subaccount_signer_seeds(
            subaccount_type,
            *smart_wallet,
            index,
            bump,
        ));
    }
    found
}

} // verus!
