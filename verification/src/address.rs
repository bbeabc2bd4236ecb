//! Deterministic record addresses.
//!
//! Every record lives at an address derived from a list of seeds. The
//! derivation is the program-address search of the runtime: this module
//! calls it and states what is known of it. Which seeds each kind of record
//! uses is fixed in [`crate::namespace`].

use anchor_lang::prelude::Pubkey;
use vstd::prelude::*;

verus! {

/// Longest seed the derivation accepts, in bytes.
pub const MAX_SEED_LEN: usize = 32;

/// The derivation accepts strictly fewer seeds than this.
pub const MAX_SEEDS: usize = 16;

/// A 32-byte identifier of a wallet, a program or a stored record.
#[derive(Clone, Copy, Debug, PartialEq, Eq, Hash)]
pub struct Address {
    pub bytes: [u8; 32],
}

impl View for Address {
    type V = Seq<u8>;

    open spec fn view(&self) -> Seq<u8> {
        self.bytes@
    }
}

impl Address {
    /// Wraps 32 raw bytes.
    pub fn new(bytes: [u8; 32]) -> (a: Address)
        ensures
            a.bytes == bytes,
            a@ == bytes@,
    {
        Address { bytes }
    }

    /// Byte-wise comparison of two addresses.
    pub fn same(&self, other: &Address) -> (r: bool)
        ensures
            r == (self@ == other@),
    {
        let mut i: usize = 0;
        while i < 32
            invariant
                i <= 32,
                forall|j: int| 0 <= j < i ==> self.bytes@[j] == other.bytes@[j],
            decreases 32 - i,
        {
            if self.bytes[i] != other.bytes[i] {
                return false;
            }
            i += 1;
        }
        assert(self@ =~= other@);
        true
    }

    /// The bytes of the address, as a seed.
    pub fn to_seed(&self) -> (v: Vec<u8>)
        ensures
            v@ == self@,
    {
        let mut v: Vec<u8> = Vec::new();
        let mut i: usize = 0;
        while i < 32
            invariant
                i <= 32,
                v@ =~= self@.subrange(0, i as int),
            decreases 32 - i,
        {
            v.push(self.bytes[i]);
            i += 1;
        }
        assert(self@.subrange(0, 32) =~= self@);
        v
    }
}

/// Two addresses with the same bytes are one address.
pub proof fn lemma_address_of_bytes(a: Address, b: Address)
    requires
        a@ == b@,
    ensures
        a == b,
{
    assert(a.bytes =~= b.bytes);
}

/// What a list of seeds is in contracts: the bytes of each seed, in order.
pub open spec fn seeds_view(seeds: Seq<Vec<u8>>) -> Seq<Seq<u8>> {
    Seq::new(seeds.len(), |i: int| seeds[i]@)
}

/// Whether the derivation rejects `seeds` outright: too many of them, or one
/// that is too long.
pub open spec fn seeds_rejected(seeds: Seq<Seq<u8>>) -> bool {
    seeds.len() >= MAX_SEEDS || exists|i: int|
        0 <= i < seeds.len() && (#[trigger] seeds[i]).len() > MAX_SEED_LEN
}

/// The program address and bump seed that the runtime's search finds for
/// `seeds` under `program_id`, if it finds one.
pub uninterp spec fn program_address(seeds: Seq<Seq<u8>>, program_id: Seq<u8>) -> Option<
    (Seq<u8>, u8),
>;

/// The address alone of [`program_address`].
pub open spec fn derived(seeds: Seq<Seq<u8>>, program_id: Seq<u8>) -> Option<Seq<u8>> {
    match program_address(seeds, program_id) {
        Some((address, _)) => Some(address),
        None => None,
    }
}

/// Calls `Pubkey::try_find_program_address`.
///
/// Trusted: the result is the search's result for these seeds and this
/// program, which depends on nothing else; and the search finds nothing when
/// sixteen or more seeds are given or one of them is longer than 32 bytes.
#[verifier::external_body]
pub(crate) fn try_find_program_address(seeds: &Vec<Vec<u8>>, program_id: &Address) -> (found:
    Option<(Address, u8)>)
    ensures
        match found {
            Some((address, bump)) => program_address(seeds_view(seeds@), program_id@) == Some(
                (address@, bump),
            ),
            None => program_address(seeds_view(seeds@), program_id@) is None,
        },
        seeds_rejected(seeds_view(seeds@)) ==> found is None,
{
    let parts: Vec<&[u8]> = seeds.iter().map(|s| s.as_slice()).collect();
    let program = Pubkey::new_from_array(program_id.bytes);
    match Pubkey::try_find_program_address(&parts, &program) {
        Some((key, bump)) => Some((Address { bytes: key.to_bytes() }, bump)),
        None => None,
    }
}

/// Derives the address for `seeds` under `program_id`.
pub fn derive_address(seeds: &Vec<Vec<u8>>, program_id: &Address) -> (address: Option<Address>)
    ensures
        match address {
            Some(a) => derived(seeds_view(seeds@), program_id@) == Some(a@),
            None => derived(seeds_view(seeds@), program_id@) is None,
        },
        seeds_rejected(seeds_view(seeds@)) ==> address is None,
{
    match try_find_program_address(seeds, program_id) {
        Some((a, _)) => Some(a),
        None => None,
    }
}

} // verus!
