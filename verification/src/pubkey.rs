//! Account addresses.

use vstd::prelude::*;

verus! {

/// The address of an account: an ed25519 public key or an address derived by a program.
#[derive(Clone, Copy, Debug)]
pub struct Pubkey {
    /// The raw bytes of the address.
    pub bytes: [u8; 32],
}

impl View for Pubkey {
    type V = Seq<u8>;

    open spec fn view(&self) -> Seq<u8> {
        self.bytes@
    }
}

impl PartialEq for Pubkey {
    fn eq(&self, other: &Self) -> (equal: bool) {
        let mut i: usize = 0;
        while i < 32
            invariant
                0 <= i <= 32,
                forall|j: int| 0 <= j < i ==> self.bytes[j] == other.bytes[j],
            decreases 32 - i,
        {
            if self.bytes[i] != other.bytes[i] {
                return false;
            }
            i = i + 1;
        }
        assert(self.bytes =~= other.bytes);
        true
    }
}

impl Eq for Pubkey {

}

impl vstd::std_specs::cmp::PartialEqSpecImpl for Pubkey {
    open spec fn obeys_eq_spec() -> bool {
        true
    }

    open spec fn eq_spec(&self, other: &Self) -> bool {
        *self == *other
    }
}

/// The address whose bytes are all zero.
pub open spec fn zero_key() -> Pubkey {
    Pubkey { bytes: [0u8; 32usize] }
}

impl Default for Pubkey {
    /// The address whose bytes are all zero.
    fn default() -> (key: Self)
        ensures
            key == zero_key(),
            forall|i: int| 0 <= i < 32 ==> #[trigger] key@[i] == 0,
    {
        Pubkey { bytes: [0u8; 32] }
    }
}

/// Two addresses with the same bytes are the same address.
pub proof fn lemma_pubkey_ext_equal(a: Pubkey, b: Pubkey)
    requires
        a@ == b@,
    ensures
        a == b,
{
    assert forall|i: int| 0 <= i < 32 implies a.bytes[i] == b.bytes[i] by {
        assert(a@[i] == b@[i]);
    }
    assert(a.bytes =~= b.bytes);
}

/// The bytes of this program's address, `GokivDYuQXPZCWRkwMhdH2h91KpDQXBEmpgBgs55bnpH` in base 58.
pub open spec fn program_id() -> Seq<u8> {
    seq![
        234u8, 217, 117, 99, 56, 163, 20, 101, 120, 160, 236, 91, 221, 180, 213, 123,
        16, 179, 118, 196, 147, 167, 181, 210, 36, 161, 226, 7, 110, 134, 124, 26,
    ]
}

/// The address of this program.
pub fn id() -> (key: Pubkey)
    ensures
        key@ == program_id(),
{
    let key = Pubkey {
        bytes: [
            234, 217, 117, 99, 56, 163, 20, 101, 120, 160, 236, 91, 221, 180, 213, 123,
            16, 179, 118, 196, 147, 167, 181, 210, 36, 161, 226, 7, 110, 134, 124, 26,
        ],
    };
    assert(key@ =~= program_id());
    key
}

} // verus!
