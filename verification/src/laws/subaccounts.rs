//! The addresses that are signed for: no two wallets or subaccounts are derived from the same bytes.

use vstd::bytes::{
    lemma_auto_spec_u64_to_from_le_bytes, spec_u64_from_le_bytes, spec_u64_to_le_bytes,
};
use vstd::prelude::*;

use crate::accounts::ExecuteTransaction;
use crate::execution::{action_fits, Execution, ExecutionAction, ExecutionEvent};
use crate::pubkey::{lemma_pubkey_ext_equal, Pubkey};
use crate::seeds::{
    ascii, seed_bytes, signed_address, subaccount_seeds, subaccount_signer_seeds, subaccount_tag,
    wallet_signer_seeds,
};
use crate::state::{SubaccountType, WalletState};

verus! {

/// The seeds of a subaccount, one after the other, as they are hashed.
proof fn lemma_hashed(subaccount_type: SubaccountType, smart_wallet: Pubkey, index: u64)
    ensures
        subaccount_seeds(subaccount_type, smart_wallet, index).flatten() == subaccount_tag(
            subaccount_type,
        ) + smart_wallet@ + spec_u64_to_le_bytes(index),
        subaccount_tag(SubaccountType::Derived).len() == 22,
        subaccount_tag(SubaccountType::OwnerInvoker).len() == 27,
        spec_u64_to_le_bytes(index).len() == 8,
        smart_wallet@.len() == 32,
{
    reveal_strlit("GokiSmartWalletDerived");
    reveal_strlit("GokiSmartWalletOwnerInvoker");
    lemma_auto_spec_u64_to_from_le_bytes();
    let seeds = subaccount_seeds(subaccount_type, smart_wallet, index);
    reveal_with_fuel(Seq::<_>::flatten, 4);
    assert(seeds.drop_first() =~= seq![smart_wallet@, spec_u64_to_le_bytes(index)]);
    assert(seeds.drop_first().drop_first() =~= seq![spec_u64_to_le_bytes(index)]);
    assert(seeds.drop_first().drop_first().drop_first() =~= Seq::<Seq<u8>>::empty());
    assert(seeds.flatten() =~= subaccount_tag(subaccount_type) + smart_wallet@
        + spec_u64_to_le_bytes(index));
}

/// The seeds are hashed one after the other, with nothing between them. Even so, two subaccounts
/// that differ in their type, their wallet or their index are derived from different bytes.
pub proof fn law_subaccounts_are_derived_from_different_bytes(
    one_type: SubaccountType,
    one_wallet: Pubkey,
    one_index: u64,
    two_type: SubaccountType,
    two_wallet: Pubkey,
    two_index: u64,
)
    ensures
        subaccount_seeds(one_type, one_wallet, one_index).flatten() == subaccount_seeds(
            two_type,
            two_wallet,
            two_index,
        ).flatten() ==> one_type == two_type && one_wallet == two_wallet && one_index == two_index,
{
    let one = subaccount_seeds(one_type, one_wallet, one_index).flatten();
    let two = subaccount_seeds(two_type, two_wallet, two_index).flatten();
    lemma_hashed(one_type, one_wallet, one_index);
    lemma_hashed(two_type, two_wallet, two_index);
    if one == two {
        assert(one.len() == two.len());
        let t = subaccount_tag(one_type).len() as int;
        assert(one.subrange(t, t + 32) =~= one_wallet@);
        assert(two.subrange(t, t + 32) =~= two_wallet@);
        lemma_pubkey_ext_equal(one_wallet, two_wallet);
        assert(one.subrange(t + 32, t + 40) =~= spec_u64_to_le_bytes(one_index));
        assert(two.subrange(t + 32, t + 40) =~= spec_u64_to_le_bytes(two_index));
        lemma_auto_spec_u64_to_from_le_bytes();
        assert(spec_u64_from_le_bytes(spec_u64_to_le_bytes(one_index)) == spec_u64_from_le_bytes(
            spec_u64_to_le_bytes(two_index),
        ));
    }
}

/// The seeds of a wallet's own address, one after the other, as they are hashed.
proof fn lemma_wallet_hashed(wallet: WalletState)
    ensures
        wallet_signer_seeds(wallet).flatten() == ascii("GokiSmartWallet"@) + wallet.base@ + seq![
            wallet.bump,
        ],
        ascii("GokiSmartWallet"@).len() == 15,
        wallet.base@.len() == 32,
{
    reveal_strlit("GokiSmartWallet");
    let seeds = wallet_signer_seeds(wallet);
    reveal_with_fuel(Seq::<_>::flatten, 4);
    assert(seeds.drop_first() =~= seq![wallet.base@, seq![wallet.bump]]);
    assert(seeds.drop_first().drop_first() =~= seq![seq![wallet.bump]]);
    assert(seeds.drop_first().drop_first().drop_first() =~= Seq::<Seq<u8>>::empty());
    assert(seeds.flatten() =~= ascii("GokiSmartWallet"@) + wallet.base@ + seq![wallet.bump]);
}

/// No wallet signs with the seeds of another: two wallets with different base keys or bump seeds
/// are derived from different bytes.
pub proof fn law_wallets_are_derived_from_different_bytes(one: WalletState, two: WalletState)
    ensures
        wallet_signer_seeds(one).flatten() == wallet_signer_seeds(two).flatten() ==> one.base
            == two.base && one.bump == two.bump,
{
    let left = wallet_signer_seeds(one).flatten();
    let right = wallet_signer_seeds(two).flatten();
    lemma_wallet_hashed(one);
    lemma_wallet_hashed(two);
    if left == right {
        assert(left.subrange(15, 47) =~= one.base@);
        assert(right.subrange(15, 47) =~= two.base@);
        lemma_pubkey_ext_equal(one.base, two.base);
        assert(left[47] == one.bump);
        assert(right[47] == two.bump);
    }
}

/// The address of a subaccount signs only where the bump seed is added to the seeds that the
/// subaccount is recorded with, and never with the seeds of a wallet's own address.
pub proof fn law_subaccounts_sign_with_their_own_seeds(
    subaccount_type: SubaccountType,
    smart_wallet: Pubkey,
    index: u64,
    bump: u8,
    wallet: WalletState,
)
    ensures
        subaccount_signer_seeds(subaccount_type, smart_wallet, index, bump).drop_last()
            == subaccount_seeds(subaccount_type, smart_wallet, index),
        subaccount_signer_seeds(subaccount_type, smart_wallet, index, bump).last() == seq![bump],
        subaccount_signer_seeds(subaccount_type, smart_wallet, index, bump).flatten()
            != wallet_signer_seeds(wallet).flatten(),
{
    let seeds = subaccount_seeds(subaccount_type, smart_wallet, index);
    let with_bump = subaccount_signer_seeds(subaccount_type, smart_wallet, index, bump);
    assert(with_bump.drop_last() =~= seeds);
    lemma_hashed(subaccount_type, smart_wallet, index);
    seeds.lemma_flatten_push(seq![bump]);
    lemma_wallet_hashed(wallet);
    assert(wallet_signer_seeds(wallet).flatten().len() == 48);
    assert(with_bump.flatten().len() >= 63);
}

/// Whatever bump seeds are passed, no subaccount signs with the seeds of another: where two sign with
/// the same bytes, their type, wallet, index and bump seed are the same.
pub proof fn law_subaccounts_sign_with_different_bytes(
    one_type: SubaccountType,
    one_wallet: Pubkey,
    one_index: u64,
    one_bump: u8,
    two_type: SubaccountType,
    two_wallet: Pubkey,
    two_index: u64,
    two_bump: u8,
)
    ensures
        subaccount_signer_seeds(one_type, one_wallet, one_index, one_bump).flatten()
            == subaccount_signer_seeds(two_type, two_wallet, two_index, two_bump).flatten() ==> {
            &&& one_type == two_type
            &&& one_wallet == two_wallet
            &&& one_index == two_index
            &&& one_bump == two_bump
        },
{
    let one = subaccount_seeds(one_type, one_wallet, one_index);
    let two = subaccount_seeds(two_type, two_wallet, two_index);
    one.lemma_flatten_push(seq![one_bump]);
    two.lemma_flatten_push(seq![two_bump]);
    let left = one.push(seq![one_bump]).flatten();
    let right = two.push(seq![two_bump]).flatten();
    if left == right {
        assert(left.drop_last() =~= one.flatten());
        assert(right.drop_last() =~= two.flatten());
        assert(left.last() == one_bump);
        assert(right.last() == two_bump);
        law_subaccounts_are_derived_from_different_bytes(
            one_type,
            one_wallet,
            one_index,
            two_type,
            two_wallet,
            two_index,
        );
    }
}

/// Every instruction that an execution invokes is signed by the address that the seeds of the
/// execution give. So where these are the seeds of a recorded subaccount with its bump seed, it is
/// signed by that subaccount.
pub proof fn law_recorded_subaccount_signs<E>(
    subaccount_type: SubaccountType,
    smart_wallet: Pubkey,
    index: u64,
    bump: u8,
    subaccount: Pubkey,
    accounts: ExecuteTransaction,
    execution: Execution,
    event: ExecutionEvent<E>,
    action: ExecutionAction<E>,
)
    ensures
        ({
            let seeds = subaccount_signer_seeds(subaccount_type, smart_wallet, index, bump);
            &&& seed_bytes(execution.signer_seeds@) == seeds
            &&& signed_address(seeds) == Some(subaccount@)
            &&& action_fits(
                action,
                accounts,
                seed_bytes(execution.signer_seeds@),
                execution.progress,
                event,
            )
        }) ==> match action {
            ExecutionAction::Invoke(invocation) => signed_address(
                seed_bytes(invocation.signer_seeds@),
            ) == Some(subaccount@),
            _ => true,
        },
{
}

} // verus!
