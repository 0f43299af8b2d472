//! Account addresses and deterministic derivation of the escrow account
//! address from a (buyer, seller, subscription-id) triple.

use vstd::prelude::*;
use vstd::array::array_as_slice;
use vstd::slice::slice_to_vec;

verus! {

/// A 32-byte ledger account address.
#[derive(Debug, Clone, Copy)]
pub struct Address {
    pub bytes: [u8; 32],
}

impl View for Address {
    type V = Seq<u8>;

    open spec fn view(&self) -> Seq<u8> {
        self.bytes@
    }
}

impl Address {
    /// The all-zero address.
    pub fn zero() -> (r: Address)
        ensures
            r@ == Seq::new(32, |i: int| 0u8),
    {
        let bytes = vstd::array::array_fill_for_copy_types::<u8, 32>(0);
        proof {
            vstd::array::axiom_spec_array_fill_for_copy_type::<u8, 32>(0);
            assert(bytes@ =~= Seq::new(32, |i: int| 0u8));
        }
        Address { bytes }
    }

    /// Byte-for-byte equality of two addresses.
    pub fn equals(&self, other: &Address) -> (r: bool)
        ensures
            r == (self@ == other@),
    {
        let mut i: usize = 0;
        while i < 32
            invariant
                0 <= i <= 32,
                forall|j: int| 0 <= j < i ==> self.bytes@[j] == other.bytes@[j],
            decreases 32 - i,
        {
            if self.bytes[i] != other.bytes[i] {
                return false;
            }
            i = i + 1;
        }
        proof {
            assert(self@ =~= other@);
        }
        true
    }
}

/// What `Pubkey::try_find_program_address` returns for given seeds and
/// program address: a derived 32-byte address and its bump byte, or nothing
/// in the statistically improbable event that no bump byte yields a valid
/// address. The result is a function of the seeds and the program address
/// alone.
pub uninterp spec fn pda_of(seeds: Seq<Seq<u8>>, program: Seq<u8>) -> Option<(Seq<u8>, u8)>;

/// Relies on `solana_sdk::pubkey::Pubkey::try_find_program_address`: it
/// derives an account address from the seed list and the program address by
/// repeated SHA-256 hashing, deterministically, and returns `None` only when
/// no bump byte yields a valid derived address.
#[verifier::external_body]
fn find_derived_address(seeds: &Vec<Vec<u8>>, program: &Address) -> (r: Option<(Address, u8)>)
    ensures
        (match r {
            Some((addr, bump)) => pda_of(seeds.deep_view(), program@) == Some((addr@, bump)),
            None => pda_of(seeds.deep_view(), program@) is None,
        }),
{
    let seed_refs: Vec<&[u8]> = seeds.iter().map(|s| s.as_slice()).collect();
    let program_id = solana_sdk::pubkey::Pubkey::new_from_array(program.bytes);
    solana_sdk::pubkey::Pubkey::try_find_program_address(&seed_refs, &program_id)
        .map(|(pk, bump)| (Address { bytes: pk.to_bytes() }, bump))
}

/// Domain-separation tag that begins every subscription account seed list:
/// the UTF-8 bytes of "escrow".
pub open spec fn escrow_seed_tag() -> Seq<u8> {
    seq![101u8, 115u8, 99u8, 114u8, 111u8, 119u8]
}

/// The seed list from which the escrow account address is derived.
pub open spec fn subscription_seeds(
    buyer: Seq<u8>,
    seller: Seq<u8>,
    subscription_id: Seq<u8>,
) -> Seq<Seq<u8>> {
    seq![escrow_seed_tag(), buyer, seller, subscription_id]
}

/// The canonical escrow account address for a (buyer, seller,
/// subscription-id) triple under a given program.
pub open spec fn subscription_address(
    buyer: Seq<u8>,
    seller: Seq<u8>,
    subscription_id: Seq<u8>,
    program: Seq<u8>,
) -> Option<(Seq<u8>, u8)> {
    pda_of(subscription_seeds(buyer, seller, subscription_id), program)
}

/// Derives the escrow account address for a (buyer, seller, subscription-id)
/// triple. Every component that needs the account address must call this with
/// the same inputs; the result is the same on every call.
pub fn derive_subscription_address(
    buyer: &Address,
    seller: &Address,
    subscription_id: &Vec<u8>,
    program: &Address,
) -> (r: Option<(Address, u8)>)
    ensures
        (match r {
            Some((addr, bump)) => subscription_address(buyer@, seller@, subscription_id@, program@)
                == Some((addr@, bump)),
            None => subscription_address(buyer@, seller@, subscription_id@, program@) is None,
        }),
{
    let mut tag: Vec<u8> = Vec::new();
    tag.push(101);
    tag.push(115);
    tag.push(99);
    tag.push(114);
    tag.push(111);
    tag.push(119);
    proof {
        assert(tag@ =~= escrow_seed_tag());
    }
    let mut seeds: Vec<Vec<u8>> = Vec::new();
    seeds.push(tag);
    seeds.push(slice_to_vec(array_as_slice(&buyer.bytes)));
    seeds.push(slice_to_vec(array_as_slice(&seller.bytes)));
    seeds.push(slice_to_vec(subscription_id.as_slice()));
    proof {
        assert(seeds.deep_view() =~~= subscription_seeds(buyer@, seller@, subscription_id@));
    }
    find_derived_address(&seeds, program)
}

/// Law: address derivation is deterministic. For equal (buyer, seller,
/// subscription-id) triples under equal programs, every derivation yields an
/// identical result.
pub proof fn lemma_subscription_address_deterministic(
    buyer1: Seq<u8>,
    seller1: Seq<u8>,
    id1: Seq<u8>,
    program1: Seq<u8>,
    buyer2: Seq<u8>,
    seller2: Seq<u8>,
    id2: Seq<u8>,
    program2: Seq<u8>,
)
    requires
        buyer1 == buyer2,
        seller1 == seller2,
        id1 == id2,
        program1 == program2,
    ensures
        subscription_address(buyer1, seller1, id1, program1) == subscription_address(
            buyer2,
            seller2,
            id2,
            program2,
        ),
{
}

} // verus!
