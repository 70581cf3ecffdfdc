//! Account addresses and program-derived address computation.
use vstd::prelude::*;

use anchor_lang::solana_program::pubkey::{Pubkey, PubkeyError};

verus! {

/// A 32-byte account address.
#[derive(Clone, Copy, Debug)]
pub struct Address {
    pub bytes: [u8; 32],
}

impl View for Address {
    type V = Seq<u8>;

    open spec fn view(&self) -> Seq<u8> {
        self.bytes@
    }
}

impl Address {
    /// Builds an address from its raw bytes.
    pub fn new(bytes: [u8; 32]) -> (r: Address)
        ensures
            r@ == bytes@,
    {
        Address { bytes }
    }

    /// Byte-wise comparison of two addresses.
    pub fn same_as(&self, other: &Address) -> (r: bool)
        ensures
            r == (self@ == other@),
    {
        let mut i: usize = 0;
        while i < 32
            invariant
                0 <= i <= 32,
                self@.len() == 32,
                other@.len() == 32,
                forall|j: int| 0 <= j < i ==> self@[j] == other@[j],
            decreases 32 - i,
        {
            if self.bytes[i] != other.bytes[i] {
                return false;
            }
            i = i + 1;
        }
        assert(self@ =~= other@);
        true
    }
}

/// The views of a list of seeds.
pub open spec fn seeds_view(seeds: Seq<Vec<u8>>) -> Seq<Seq<u8>> {
    seeds.map_values(|s: Vec<u8>| s@)
}

/// The address derived from `seeds` under the program `program_id`, or `None`
/// where the seeds yield no valid program-derived address.
pub uninterp spec fn program_address(seeds: Seq<Seq<u8>>, program_id: Seq<u8>) -> Option<Seq<u8>>;

#[verifier::external_type_specification]
#[verifier::external_body]
pub struct ExPubkeyError(PubkeyError);

/// Relies on `Pubkey::create_program_address`: the derived address (a hash of
/// the seeds and the program id that must fall off the ed25519 curve) depends
/// on its arguments alone; where there is none, an error is returned.
#[verifier::external_body]
fn create_program_address(seeds: &Vec<Vec<u8>>, program_id: &Address) -> (r: Result<
    Address,
    PubkeyError,
>)
    ensures
        r is Ok <==> program_address(seeds_view(seeds@), program_id@) is Some,
        r matches Ok(a) ==> program_address(seeds_view(seeds@), program_id@) == Some(a@),
{
    let slices: Vec<&[u8]> = seeds.iter().map(|s| s.as_slice()).collect();
    let id = Pubkey::new_from_array(program_id.bytes);
    match Pubkey::create_program_address(&slices, &id) {
        Ok(k) => Ok(Address { bytes: k.to_bytes() }),
        Err(e) => Err(e),
    }
}

/// Derives the program address of `seeds` under `program_id`, or `None` where
/// the seeds yield no valid program-derived address.
pub fn derive_program_address(seeds: &Vec<Vec<u8>>, program_id: &Address) -> (r: Option<Address>)
    ensures
        r matches Some(a) ==> program_address(seeds_view(seeds@), program_id@) == Some(a@),
        r is None ==> program_address(seeds_view(seeds@), program_id@) is None,
{
    match create_program_address(seeds, program_id) {
        Ok(a) => Some(a),
        Err(_) => None,
    }
}

} // verus!
