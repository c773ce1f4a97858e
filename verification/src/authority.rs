//! The authority address of a machine.
//!
//! Every machine has an address that is derived from its identifier and from
//! the address of the program that keeps the ledger. No secret key belongs to
//! it, so a machine can present it without a person signing. The derivation
//! is the host platform's: it hashes the seeds and searches for a bump seed,
//! a single byte, with which the hash is a valid derived address.

use anchor_lang::prelude::Pubkey;
use anchor_lang::solana_program::pubkey::PubkeyError;
use vstd::prelude::*;
use vstd::utf8::encode_utf8;

use crate::address::Address;

verus! {

/// The error of `Pubkey::create_program_address`. The ledger carries it
/// and never looks inside.
#[verifier::external_type_specification]
#[verifier::external_body]
pub struct ExPubkeyError(PubkeyError);

/// What `Pubkey::try_find_program_address` returns for the given seeds
/// and program: the derived address and the bump seed that it found, or
/// `None` where it found none. The derivation is a hash of its arguments,
/// so the same arguments always give the same answer.
pub uninterp spec fn found_program_address(seeds: Seq<Seq<u8>>, program_id: Seq<u8>) -> Option<
    (Seq<u8>, u8),
>;

/// What `Pubkey::create_program_address` returns for the given seeds, the
/// last of which is the bump seed, and program: the derived address, or
/// `None` where it returns an error. The derivation is a hash of its
/// arguments, so the same arguments always give the same answer.
pub uninterp spec fn created_program_address(seeds: Seq<Seq<u8>>, program_id: Seq<u8>) -> Option<
    Seq<u8>,
>;

/// What `found` is as a pair of plain values.
pub open spec fn found_view(found: Option<(Address, u8)>) -> Option<(Seq<u8>, u8)> {
    match found {
        Some((address, bump)) => Some((address@, bump)),
        None => None,
    }
}

/// What `created` is as a plain value.
pub open spec fn created_view(created: Option<Address>) -> Option<Seq<u8>> {
    match created {
        Some(address) => Some(address@),
        None => None,
    }
}

/// Calls `Pubkey::try_find_program_address` with two seeds. Nothing is
/// proved of it: the result is taken to be what `found_program_address`
/// names, a function of the seeds and the program address alone.
#[verifier::external_body]
fn try_find_program_address(first: &[u8], second: &[u8], program_id: &Address) -> (found: Option<
    (Address, u8),
>)
    ensures
        found_view(found) == found_program_address(seq![first@, second@], program_id@),
{
    let id = Pubkey::new_from_array(program_id.bytes);
    Pubkey::try_find_program_address(&[first, second], &id).map(
        |(address, bump)| (Address { bytes: address.to_bytes() }, bump),
    )
}

/// Calls `Pubkey::create_program_address` with two seeds and a bump seed.
/// Nothing is proved of it: the address is taken to be what
/// `created_program_address` names, and an error to mean that it names none.
#[verifier::external_body]
fn create_program_address(first: &[u8], second: &[u8], bump: u8, program_id: &Address) -> (created:
    Result<Address, PubkeyError>)
    ensures
        created matches Ok(address) ==> created_program_address(
            seq![first@, second@, seq![bump]],
            program_id@,
        ) == Some(address@),
        created is Err ==> created_program_address(
            seq![first@, second@, seq![bump]],
            program_id@,
        ) is None,
{
    let id = Pubkey::new_from_array(program_id.bytes);
    Pubkey::create_program_address(&[first, second, &[bump]], &id).map(
        |address| Address { bytes: address.to_bytes() },
    )
}

/// The text that starts the seeds of every machine authority.
pub open spec fn machine_auth_tag() -> Seq<char> {
    "machine-auth"@
}

/// The seeds of the authority of the machine with the given identifier.
pub open spec fn machine_auth_seeds(machine_id: Seq<char>) -> Seq<Seq<u8>> {
    seq![encode_utf8(machine_auth_tag()), encode_utf8(machine_id)]
}

/// The authority address and bump seed of the machine with the given
/// identifier, where the platform finds one.
pub open spec fn machine_auth_pda(program_id: Seq<u8>, machine_id: Seq<char>) -> Option<
    (Seq<u8>, u8),
> {
    found_program_address(machine_auth_seeds(machine_id), program_id)
}

/// The authority address that the given bump seed derives for the machine
/// with the given identifier, where it derives one.
pub open spec fn machine_auth_with_bump(
    program_id: Seq<u8>,
    machine_id: Seq<char>,
    bump: u8,
) -> Option<Seq<u8>> {
    created_program_address(machine_auth_seeds(machine_id).push(seq![bump]), program_id)
}

/// Finds the authority address of a machine and the bump seed that derives
/// it. Returns `None` where no bump seed gives a valid address.
pub fn find_machine_auth_pda(program_id: &Address, machine_id: &str) -> (found: Option<
    (Address, u8),
>)
    ensures
        found_view(found) == machine_auth_pda(program_id@, machine_id@),
{
    try_find_program_address("machine-auth".as_bytes(), machine_id.as_bytes(), program_id)
}

/// Derives the authority address of a machine from its identifier and a
/// bump seed that is already known. Returns `None` where they derive no
/// valid address.
pub fn machine_auth_address(program_id: &Address, machine_id: &str, bump: u8) -> (created: Option<
    Address,
>)
    ensures
        created_view(created) == machine_auth_with_bump(program_id@, machine_id@, bump),
{
    let derived = create_program_address(
        "machine-auth".as_bytes(),
        machine_id.as_bytes(),
        bump,
        program_id,
    );
    proof {
        assert(machine_auth_seeds(machine_id@).push(seq![bump]) =~= seq![
            encode_utf8(machine_auth_tag()),
            encode_utf8(machine_id@),
            seq![bump],
        ]);
    }
    match derived {
        Ok(address) => Some(address),
        Err(_) => None,
    }
}

} // verus!
