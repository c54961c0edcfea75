//! Record addresses and their derivation from a namespace tag and a seed.

use vstd::prelude::*;

verus! {

/// A 32-byte record address (also the form of an identity's public key).
#[derive(Clone, Copy, Debug)]
pub struct Address {
    pub bytes: [u8; 32],
}

impl View for Address {
    type V = Seq<u8>;

    open spec fn view(&self) -> Seq<u8> {
        self.bytes@
    }
}

/// The all-zero address, used as the null entry of an unused ballot slot.
pub open spec fn null_address() -> Seq<u8> {
    Seq::new(32, |i: int| 0u8)
}

impl Address {
    pub fn new(bytes: [u8; 32]) -> (r: Address)
        ensures
            r.bytes == bytes,
    {
        Address { bytes }
    }

    /// The null address: thirty-two zero bytes.
    pub fn null() -> (r: Address)
        ensures
            r@ == null_address(),
    {
        let r = Address { bytes: [0u8; 32] };
        assert(r@ =~= null_address());
        r
    }

    pub fn is_null(&self) -> (r: bool)
        ensures
            r == (self@ == null_address()),
    {
        let n = Address::null();
        self.same(&n)
    }

    /// Byte-wise equality of two addresses.
    pub fn same(&self, other: &Address) -> (r: bool)
        ensures
            r == (self@ == other@),
    {
        let mut i: usize = 0;
        while i < 32
            invariant
                0 <= i <= 32,
                self@.len() == 32,
                other@.len() == 32,
                forall|j: int| 0 <= j < i ==> self@[j] == other@[j],
            decreases 32 - i,
        {
            if self.bytes[i] != other.bytes[i] {
                return false;
            }
            i = i + 1;
        }
        assert(self@ =~= other@);
        true
    }
}

impl PartialEq for Address {
    fn eq(&self, other: &Address) -> (r: bool) {
        self.same(other)
    }
}

impl vstd::std_specs::cmp::PartialEqSpecImpl for Address {
    open spec fn obeys_eq_spec() -> bool {
        true
    }

    open spec fn eq_spec(&self, other: &Address) -> bool {
        self@ == other@
    }
}

impl Eq for Address {}

/// What the host's program-address search yields for a namespace tag, one
/// seed and a program identity: the address and its bump, or nothing when no
/// bump gives a valid address.
pub uninterp spec fn program_address(namespace: Seq<u8>, seed: Seq<u8>, program_id: Seq<u8>) -> Option<(Seq<u8>, u8)>;

/// Relies on `Pubkey::try_find_program_address` of solana-pubkey (as
/// re-exported by anchor-lang) for the program-address search: off the chain
/// it hashes the seeds, a bump and the program identity and tries bumps from
/// 255 down, so its result depends on these arguments alone.
#[verifier::external_body]
pub(crate) fn find_program_address(namespace: &[u8], seed: &[u8], program_id: &Address) -> (r: Option<(Address, u8)>)
    ensures
        r matches Some((a, b)) ==> program_address(namespace@, seed@, program_id@) == Some((a@, b)),
        r is None ==> program_address(namespace@, seed@, program_id@) is None,
{
    let program = anchor_lang::prelude::Pubkey::new_from_array(program_id.bytes);
    anchor_lang::prelude::Pubkey::try_find_program_address(&[namespace, seed], &program)
        .map(|(key, bump)| (Address { bytes: key.to_bytes() }, bump))
}

} // verus!
