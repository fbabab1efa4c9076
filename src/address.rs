use vstd::prelude::*;
use vstd::bytes::{spec_u64_to_le_bytes, u64_to_le_bytes};
use crate::state::Pubkey;

verus! {

/// The first seed of every order account's address: the ASCII bytes of
/// `deposit_order`.
pub open spec fn deposit_order_seed_bytes() -> Seq<u8> {
    seq![100u8, 101, 112, 111, 115, 105, 116, 95, 111, 114, 100, 101, 114]
}

pub fn deposit_order_seed() -> (r: Vec<u8>)
    ensures
        r@ == deposit_order_seed_bytes(),
{
    let r: Vec<u8> = vec![100u8, 101, 112, 111, 115, 105, 116, 95, 111, 114, 100, 101, 114];
    assert(r@ =~= deposit_order_seed_bytes());
    r
}

/// The program-derived address and bump that the seeds give under the program
/// id, or `None` where no bump gives an address off the curve.
pub uninterp spec fn program_address(seeds: Seq<Seq<u8>>, program_id: Seq<u8>) -> Option<(Seq<u8>, u8)>;

/// Relies on solana_program's `Pubkey::try_find_program_address`: its result
/// depends on the seeds and the program id alone.
#[verifier::external_body]
fn try_find_program_address(seeds: &Vec<Vec<u8>>, program_id: &Pubkey) -> (r: Option<(Pubkey, u8)>)
    ensures
        r is Some <==> program_address(seeds.deep_view(), program_id@) is Some,
        r is Some ==> program_address(seeds.deep_view(), program_id@) == Some(
            (r->Some_0.0@, r->Some_0.1),
        ),
{
    let refs: Vec<&[u8]> = seeds.iter().map(|s| s.as_slice()).collect();
    let id = anchor_lang::prelude::Pubkey::new_from_array(program_id.bytes);
    match anchor_lang::prelude::Pubkey::try_find_program_address(&refs, &id) {
        Some((k, b)) => Some((Pubkey { bytes: k.to_bytes() }, b)),
        None => None,
    }
}

/// The seeds of the account of order `order_id` in `mint`: the order seed,
/// the id's eight little-endian bytes, the mint.
pub open spec fn order_seeds(order_id: u64, mint: Seq<u8>) -> Seq<Seq<u8>> {
    seq![deposit_order_seed_bytes(), spec_u64_to_le_bytes(order_id), mint]
}

pub fn order_address_seeds(order_id: u64, mint: &Pubkey) -> (r: Vec<Vec<u8>>)
    ensures
        r.deep_view() == order_seeds(order_id, mint@),
{
    let first = deposit_order_seed();
    let second = u64_to_le_bytes(order_id);
    let third = mint.to_vec();
    let mut seeds: Vec<Vec<u8>> = Vec::new();
    seeds.push(first);
    seeds.push(second);
    seeds.push(third);
    proof {
        let dv = seeds.deep_view();
        assert(seeds@ == seq![first, second, third]);
        assert(dv[0] =~= first@);
        assert(dv[1] =~= second@);
        assert(dv[2] =~= third@);
        assert(dv =~= order_seeds(order_id, mint@));
    }
    seeds
}

/// The address of the account of order `order_id` in `mint` under
/// `program_id`, with its bump.
pub fn find_order_address(order_id: u64, mint: &Pubkey, program_id: &Pubkey) -> (r: Option<(Pubkey, u8)>)
    ensures
        r is Some <==> program_address(order_seeds(order_id, mint@), program_id@) is Some,
        r is Some ==> program_address(order_seeds(order_id, mint@), program_id@) == Some(
            (r->Some_0.0@, r->Some_0.1),
        ),
{
    let seeds = order_address_seeds(order_id, mint);
    try_find_program_address(&seeds, program_id)
}

/// Orders are told apart by id and mint together: two orders share the seeds
/// of their account only where both their ids and their mints agree.
pub proof fn lemma_order_seeds_distinct(id1: u64, mint1: Seq<u8>, id2: u64, mint2: Seq<u8>)
    ensures
        order_seeds(id1, mint1) == order_seeds(id2, mint2) <==> (id1 == id2 && mint1 == mint2),
{
    if order_seeds(id1, mint1) == order_seeds(id2, mint2) {
        assert(order_seeds(id1, mint1)[1] == order_seeds(id2, mint2)[1]);
        assert(order_seeds(id1, mint1)[2] == order_seeds(id2, mint2)[2]);
        vstd::bytes::lemma_auto_spec_u64_to_from_le_bytes();
    }
}

} // verus!
