use vstd::prelude::*;

use crate::key::Key;
use crate::state::SwapError;
use solana_program::pubkey::Pubkey;

verus! {

/// The seed tuple that fixes an offer's storage address: maker, offered
/// asset, requested asset and salt.
#[derive(Clone, Copy, Debug)]
pub struct OfferSeeds {
    pub maker: Key,
    pub offer_mint: Key,
    pub receive_mint: Key,
    pub bump: u8,
}

/// The constant first seed, the bytes of "offer".
pub open spec fn offer_tag() -> Seq<u8> {
    seq![111u8, 102, 102, 101, 114]
}

impl OfferSeeds {
    pub open spec fn seed_list(&self) -> Seq<Seq<u8>> {
        seq![offer_tag(), self.maker@, self.offer_mint@, self.receive_mint@, seq![self.bump]]
    }
}

/// The program-derived address and canonical bump of a list of seeds under a
/// program.
pub uninterp spec fn program_address(seeds: Seq<Seq<u8>>, program_id: Seq<u8>) -> (Seq<u8>, u8);

/// Relies on Pubkey::find_program_address: the address and canonical bump
/// that it finds depend on the seeds and the program alone. Each seed here is
/// at most 32 bytes and there are five of them, within its limits.
#[verifier::external_body]
fn find_program_address(seeds: &OfferSeeds, program_id: &Key) -> (r: (Key, u8))
    ensures
        (r.0@, r.1) == program_address(seeds.seed_list(), program_id@),
{
    let bump = [seeds.bump];
    let list: [&[u8]; 5] = [
        b"offer",
        &seeds.maker.bytes,
        &seeds.offer_mint.bytes,
        &seeds.receive_mint.bytes,
        &bump,
    ];
    let (address, found) = Pubkey::find_program_address(&list, &Pubkey::new_from_array(program_id.bytes));
    (Key::new(address.to_bytes()), found)
}

/// The address that an offer's record must sit at.
pub open spec fn offer_address(program_id: Seq<u8>, seeds: OfferSeeds) -> Seq<u8> {
    program_address(seeds.seed_list(), program_id).0
}

/// A caller-supplied address and salt for a new offer are authentic: the
/// address is the derived one and the salt is the canonical bump.
pub open spec fn new_address_ok(program_id: Seq<u8>, seeds: OfferSeeds, address: Seq<u8>) -> bool {
    program_address(seeds.seed_list(), program_id) == (address, seeds.bump)
}

/// Checks a caller-supplied address and salt for a new offer.
pub fn check_new_offer_address(program_id: &Key, seeds: &OfferSeeds, address: &Key) -> (r: Result<
    (),
    SwapError,
>)
    ensures
        r is Ok <==> new_address_ok(program_id@, *seeds, address@),
        r matches Err(e) ==> e == SwapError::InvalidProgramAddress,
{
    let (expected, bump) = find_program_address(seeds, program_id);
    if !expected.same(address) || bump != seeds.bump {
        Err(SwapError::InvalidProgramAddress)
    } else {
        Ok(())
    }
}

/// Checks that a stored record sits at the address its own fields derive.
pub fn check_stored_offer_address(program_id: &Key, seeds: &OfferSeeds, address: &Key) -> (r:
    Result<(), SwapError>)
    ensures
        r is Ok <==> offer_address(program_id@, *seeds) == address@,
        r matches Err(e) ==> e == SwapError::InvalidProgramAddress,
{
    let (expected, _) = find_program_address(seeds, program_id);
    if !expected.same(address) {
        Err(SwapError::InvalidProgramAddress)
    } else {
        Ok(())
    }
}

} // verus!
