//! Derived storage addresses.
//!
//! Records are stored under addresses derived from composite identifiers:
//! a short tag naming the record family, followed by the identifying
//! account keys, all hashed together with the owning program's id. The
//! derivation itself is an external primitive; the ledger only needs that
//! it is a pure function of the seed bytes, so that comparing a presented
//! record's address against the derived one defends against substitution.

use vstd::prelude::*;

verus! {

/// The address that the external derivation primitive returns for the
/// seed list `[prefix, seed_a, seed_b]` under `program`: a pure function
/// of its arguments, 32 bytes long.
pub uninterp spec fn derived_address(
    prefix: Seq<u8>,
    seed_a: Seq<u8>,
    seed_b: Seq<u8>,
    program: Seq<u8>,
) -> Seq<u8>;

/// Relies on anchor_lang's `Pubkey::find_program_address`: the derived
/// program address depends only on the seed bytes and the program id, and
/// is 32 bytes long. The bump seed it also returns is not exposed here.
/// The length bounds keep the call within the derivation's seed limits;
/// within them it fails only in the statistically improbable event that
/// no bump seed yields a valid address, which it treats as unreachable.
#[verifier::external_body]
pub(crate) fn derive_address(
    prefix: &Vec<u8>,
    seed_a: &Vec<u8>,
    seed_b: &Vec<u8>,
    program: &Vec<u8>,
) -> (r: Vec<u8>)
    requires
        prefix@.len() <= 32,
        seed_a@.len() <= 32,
        seed_b@.len() <= 32,
        program@.len() == 32,
    ensures
        r@ == derived_address(prefix@, seed_a@, seed_b@, program@),
        r@.len() == 32,
{
    let mut program_bytes = [0u8; 32];
    program_bytes.copy_from_slice(program.as_slice());
    let program_id = anchor_lang::prelude::Pubkey::new_from_array(program_bytes);
    let (address, _bump) = anchor_lang::prelude::Pubkey::find_program_address(
        &[prefix.as_slice(), seed_a.as_slice(), seed_b.as_slice()],
        &program_id,
    );
    address.to_bytes().to_vec()
}

} // verus!
