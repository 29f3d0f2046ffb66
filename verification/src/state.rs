//! What the program keeps in its accounts.

use vstd::prelude::*;

use crate::error::{ErrorCode, WalletError};
use crate::pubkey::Pubkey;

verus! {

/// A wallet that a set of owners governs together.
#[derive(Debug)]
pub struct SmartWallet {
    /// Base key of the wallet; its address is derived from it.
    pub base: Pubkey,
    /// Bump seed of the wallet's address.
    pub bump: u8,
    /// How many owners have to sign a transaction before it can be executed.
    pub threshold: u64,
    /// Least number of seconds between the creation and the execution of a transaction. If 0,
    /// this is ignored.
    pub minimum_delay: i64,
    /// Number of seconds for which a transaction can be executed once its ETA has come.
    pub grace_period: i64,
    /// How often the owners were replaced.
    pub owner_set_seqno: u32,
    /// How many transactions were created.
    pub num_transactions: u64,
    /// The owners.
    pub owners: Vec<Pubkey>,
}

/// The contents of a [`SmartWallet`].
#[verifier::ext_equal]
pub struct WalletState {
    pub base: Pubkey,
    pub bump: u8,
    pub threshold: u64,
    pub minimum_delay: i64,
    pub grace_period: i64,
    pub owner_set_seqno: u32,
    pub num_transactions: u64,
    pub owners: Seq<Pubkey>,
}

impl View for SmartWallet {
    type V = WalletState;

    open spec fn view(&self) -> WalletState {
        WalletState {
            base: self.base,
            bump: self.bump,
            threshold: self.threshold,
            minimum_delay: self.minimum_delay,
            grace_period: self.grace_period,
            owner_set_seqno: self.owner_set_seqno,
            num_transactions: self.num_transactions,
            owners: self.owners@,
        }
    }
}

/// One account that an instruction reads or writes.
#[derive(Clone, Copy, Debug)]
pub struct TXAccountMeta {
    /// The account's address.
    pub pubkey: Pubkey,
    /// Whether the account has to sign.
    pub is_signer: bool,
    /// Whether the account is written.
    pub is_writable: bool,
}

/// An instruction for some program, held until the transaction it belongs to is executed.
#[derive(Debug)]
pub struct TXInstruction {
    /// The program that runs the instruction.
    pub program_id: Pubkey,
    /// The accounts that are handed to the program.
    pub keys: Vec<TXAccountMeta>,
    /// The data that is handed to the program.
    pub data: Vec<u8>,
}

/// The contents of a [`TXInstruction`].
#[verifier::ext_equal]
pub struct InstructionState {
    pub program_id: Pubkey,
    pub keys: Seq<TXAccountMeta>,
    pub data: Seq<u8>,
}

impl View for TXInstruction {
    type V = InstructionState;

    open spec fn view(&self) -> InstructionState {
        InstructionState { program_id: self.program_id, keys: self.keys@, data: self.data@ }
    }
}

impl Clone for TXInstruction {
    fn clone(&self) -> (copy: Self)
        ensures
            copy@ == self@,
    {
        let copy = TXInstruction {
            program_id: self.program_id,
            keys: self.keys.clone(),
            data: self.data.clone(),
        };
        assert(copy.keys@ =~= self.keys@);
        assert(copy.data@ =~= self.data@);
        copy
    }
}

/// The contents of each of `instructions`.
pub open spec fn instruction_states(instructions: Seq<TXInstruction>) -> Seq<InstructionState> {
    Seq::new(instructions.len(), |i: int| instructions[i]@)
}

/// A proposal of the wallet's owners: instructions, and who has signed them so far.
#[derive(Debug)]
pub struct Transaction {
    /// The wallet that the transaction belongs to.
    pub smart_wallet: Pubkey,
    /// How many transactions of the wallet were created before this one.
    pub index: u64,
    /// Bump seed of the transaction's address.
    pub bump: u8,
    /// The owner who proposed the transaction.
    pub proposer: Pubkey,
    /// What to run.
    pub instructions: Vec<TXInstruction>,
    /// For each owner of the wallet whether the owner has signed.
    pub signers: Vec<bool>,
    /// The wallet's `owner_set_seqno` when the transaction was created.
    pub owner_set_seqno: u32,
    /// Point in time from which the transaction can be executed, or `NO_ETA`.
    pub eta: i64,
    /// The owner who executed the transaction.
    pub executor: Pubkey,
    /// When the transaction was executed, or -1.
    pub executed_at: i64,
}

/// The contents of a [`Transaction`].
#[verifier::ext_equal]
pub struct TransactionState {
    pub smart_wallet: Pubkey,
    pub index: u64,
    pub bump: u8,
    pub proposer: Pubkey,
    pub instructions: Seq<InstructionState>,
    pub signers: Seq<bool>,
    pub owner_set_seqno: u32,
    pub eta: i64,
    pub executor: Pubkey,
    pub executed_at: i64,
}

impl View for Transaction {
    type V = TransactionState;

    open spec fn view(&self) -> TransactionState {
        TransactionState {
            smart_wallet: self.smart_wallet,
            index: self.index,
            bump: self.bump,
            proposer: self.proposer,
            instructions: instruction_states(self.instructions@),
            signers: self.signers@,
            owner_set_seqno: self.owner_set_seqno,
            eta: self.eta,
            executor: self.executor,
            executed_at: self.executed_at,
        }
    }
}

/// The two ways in which a wallet signs for an address other than its own.
#[derive(Clone, Copy, Debug, PartialEq, Eq, Structural)]
pub enum SubaccountType {
    /// The address signs for transactions of the wallet.
    Derived,
    /// The address signs for instructions that a single owner invokes.
    OwnerInvoker,
}

/// What is known of a subaccount.
#[derive(Clone, Copy, Debug)]
pub struct SubaccountInfo {
    /// The wallet that the subaccount belongs to.
    pub smart_wallet: Pubkey,
    /// The subaccount's type.
    pub subaccount_type: SubaccountType,
    /// The subaccount's index among those of its type.
    pub index: u64,
}

/// Whether `slot` is the first place at which `key` stands in `owners`.
pub open spec fn is_slot_of(owners: Seq<Pubkey>, key: Pubkey, slot: int) -> bool {
    &&& 0 <= slot < owners.len()
    &&& owners[slot] == key
    &&& forall|i: int| 0 <= i < slot ==> owners[i] != key
}

/// The place at which the owner `key` signs: the first one at which `key` stands in `owners`.
pub open spec fn owner_slot(owners: Seq<Pubkey>, key: Pubkey) -> Option<int> {
    if owners.contains(key) {
        Some(choose|slot: int| is_slot_of(owners, key, slot))
    } else {
        None
    }
}

/// An owner has exactly one place to sign at.
pub proof fn lemma_owner_slot(owners: Seq<Pubkey>, key: Pubkey)
    ensures
        match owner_slot(owners, key) {
            Some(slot) => is_slot_of(owners, key, slot),
            None => !owners.contains(key),
        },
        forall|slot: int| #[trigger]
            is_slot_of(owners, key, slot) ==> owner_slot(owners, key) == Some(slot),
{
    if owners.contains(key) {
        let slot = first_place(owners, key, 0);
    }
    assert forall|slot: int| #[trigger] is_slot_of(owners, key, slot) implies owner_slot(
        owners,
        key,
    ) == Some(slot) by {
        assert(owners.contains(key));
    }
}

/// Some place from `from` on is the first at which `key` stands.
proof fn first_place(owners: Seq<Pubkey>, key: Pubkey, from: int) -> (slot: int)
    requires
        0 <= from,
        owners.contains(key),
        forall|i: int| 0 <= i < from && i < owners.len() ==> owners[i] != key,
    ensures
        is_slot_of(owners, key, slot),
    decreases owners.len() - from,
{
    if from >= owners.len() {
        assert(false);
        from
    } else if owners[from] == key {
        from
    } else {
        first_place(owners, key, from + 1)
    }
}

impl SmartWallet {
    /// The place at which the owner with the given key signs.
    pub fn owner_index(&self, key: Pubkey) -> (index: Result<usize, WalletError>)
        ensures
            match index {
                Ok(slot) => owner_slot(self@.owners, key) == Some(slot as int)
                    && is_slot_of(self@.owners, key, slot as int),
                Err(error) => error == WalletError::Code(ErrorCode::InvalidOwner)
                    && owner_slot(self@.owners, key) is None && !self@.owners.contains(key),
            },
    {
        let mut i: usize = 0;
        while i < self.owners.len()
            invariant
                0 <= i <= self.owners@.len(),
                forall|j: int| 0 <= j < i ==> self.owners@[j] != key,
            decreases self.owners@.len() - i,
        {
            if self.owners[i] == key {
                proof {
                    lemma_owner_slot(self@.owners, key);
                    assert(is_slot_of(self@.owners, key, i as int));
                }
                return Ok(i);
            }
            i = i + 1;
        }
        Err(WalletError::Code(ErrorCode::InvalidOwner))
    }
}

/// How many of `signers` are set.
pub open spec fn count_signers(signers: Seq<bool>) -> nat
    decreases signers.len(),
{
    if signers.len() == 0 {
        0
    } else {
        count_signers(signers.drop_last()) + if signers.last() {
            1nat
        } else {
            0nat
        }
    }
}

impl Transaction {
    /// How many owners have signed.
    pub fn num_signers(&self) -> (count: usize)
        ensures
            count == count_signers(self@.signers),
            count <= self@.signers.len(),
    {
        let mut count: usize = 0;
        let mut i: usize = 0;
        assert(self.signers@.take(0) =~= Seq::empty());
        while i < self.signers.len()
            invariant
                0 <= i <= self.signers@.len(),
                count == count_signers(self.signers@.take(i as int)),
                count <= i,
            decreases self.signers@.len() - i,
        {
            assert(self.signers@.take(i + 1).drop_last() =~= self.signers@.take(i as int));
            if self.signers[i] {
                count = count + 1;
            }
            i = i + 1;
        }
        assert(self.signers@.take(i as int) =~= self.signers@);
        count
    }
}

} // verus!
