//! Deterministic sub-address derivation and the well-known program ids.
//!
//! The host derives sub-addresses from seeds with a one-way function; the
//! program uses it to bind each stream record to the escrow account holding
//! the locked tokens, and to compute the canonical ("associated") token
//! account of a wallet for a mint.  The derivation itself is the host's; its
//! result is named and trusted, everything around it is verified.

use vstd::prelude::*;

use crate::account::Address;

verus! {

/// What the host's seed derivation returns for a seed list and a program id,
/// when a valid sub-address exists for them.
pub uninterp spec fn spec_program_address(seeds: Seq<Seq<u8>>, program_id: Seq<u8>) -> Option<
    Seq<u8>,
>;

/// Relies on solana_pubkey::Pubkey::try_find_program_address: the derived
/// sub-address is a deterministic function of the seeds and the program id
/// alone, and `None` comes only in the statistically improbable case that no
/// bump seed yields a valid address.
#[verifier::external_body]
fn try_derive_program_address(seeds: &Vec<Vec<u8>>, program_id: &Address) -> (r: Option<Address>)
    ensures
        r is Some <==> spec_program_address(seeds.deep_view(), program_id@) is Some,
        r is Some ==> (r->0)@ == spec_program_address(seeds.deep_view(), program_id@)->0,
{
    let seed_refs: Vec<&[u8]> = seeds.iter().map(|s| s.as_slice()).collect();
    let program = solana_pubkey::Pubkey::new_from_array(program_id.bytes);
    solana_pubkey::Pubkey::try_find_program_address(&seed_refs, &program).map(
        |(pk, _bump)| Address { bytes: pk.to_bytes() },
    )
}

/// The identity of the token-ledger program
/// (`TokenkegQfeZyiNwAJbNbGKPFXCWuBvf9Ss623VQ5DA`).
pub open spec fn spl_token_id_bytes() -> Seq<u8> {
    seq![
        6u8, 221u8, 246u8, 225u8, 215u8, 101u8, 161u8, 147u8, 217u8, 203u8, 225u8, 70u8, 206u8,
        235u8, 121u8, 172u8, 28u8, 180u8, 133u8, 237u8, 95u8, 91u8, 55u8, 145u8, 58u8, 140u8,
        245u8, 133u8, 126u8, 255u8, 0u8, 169u8,
    ]
}

/// The identity of the associated-token-account program
/// (`ATokenGPvbdGVxr1b2hvZbsiqW5xWH25efTNsLJA8knL`).
pub open spec fn associated_token_program_id_bytes() -> Seq<u8> {
    seq![
        140u8, 151u8, 37u8, 143u8, 78u8, 36u8, 137u8, 241u8, 187u8, 61u8, 16u8, 41u8, 20u8, 142u8,
        13u8, 131u8, 11u8, 90u8, 19u8, 153u8, 218u8, 255u8, 16u8, 132u8, 4u8, 142u8, 123u8, 216u8,
        219u8, 233u8, 248u8, 89u8,
    ]
}

/// The identity of the system program (the all-ones base58 address, i.e. 32
/// zero bytes).
pub open spec fn system_program_id_bytes() -> Seq<u8> {
    Seq::<u8>::new(32, |i: int| 0u8)
}

/// The identity of the rent oracle account
/// (`SysvarRent111111111111111111111111111111111`).
pub open spec fn rent_sysvar_id_bytes() -> Seq<u8> {
    seq![
        6u8, 167u8, 213u8, 23u8, 25u8, 44u8, 92u8, 81u8, 33u8, 140u8, 201u8, 76u8, 61u8, 74u8,
        241u8, 127u8, 88u8, 218u8, 238u8, 8u8, 155u8, 161u8, 253u8, 68u8, 227u8, 219u8, 217u8,
        138u8, 0u8, 0u8, 0u8, 0u8,
    ]
}

pub fn spl_token_program_address() -> (a: Address)
    ensures
        a@ == spl_token_id_bytes(),
{
    let a = Address {
        bytes: [
            6u8, 221u8, 246u8, 225u8, 215u8, 101u8, 161u8, 147u8, 217u8, 203u8, 225u8, 70u8,
            206u8, 235u8, 121u8, 172u8, 28u8, 180u8, 133u8, 237u8, 95u8, 91u8, 55u8, 145u8, 58u8,
            140u8, 245u8, 133u8, 126u8, 255u8, 0u8, 169u8,
        ],
    };
    proof {
        assert(a@ =~= spl_token_id_bytes());
    }
    a
}

pub fn associated_token_program_address() -> (a: Address)
    ensures
        a@ == associated_token_program_id_bytes(),
{
    let a = Address {
        bytes: [
            140u8, 151u8, 37u8, 143u8, 78u8, 36u8, 137u8, 241u8, 187u8, 61u8, 16u8, 41u8, 20u8,
            142u8, 13u8, 131u8, 11u8, 90u8, 19u8, 153u8, 218u8, 255u8, 16u8, 132u8, 4u8, 142u8,
            123u8, 216u8, 219u8, 233u8, 248u8, 89u8,
        ],
    };
    proof {
        assert(a@ =~= associated_token_program_id_bytes());
    }
    a
}

pub fn system_program_address() -> (a: Address)
    ensures
        a@ == system_program_id_bytes(),
{
    let a = Address { bytes: [0u8; 32] };
    proof {
        assert(a@ =~= system_program_id_bytes());
    }
    a
}

pub fn rent_sysvar_address() -> (a: Address)
    ensures
        a@ == rent_sysvar_id_bytes(),
{
    let a = Address {
        bytes: [
            6u8, 167u8, 213u8, 23u8, 25u8, 44u8, 92u8, 81u8, 33u8, 140u8, 201u8, 76u8, 61u8, 74u8,
            241u8, 127u8, 88u8, 218u8, 238u8, 8u8, 155u8, 161u8, 253u8, 68u8, 227u8, 219u8, 217u8,
            138u8, 0u8, 0u8, 0u8, 0u8,
        ],
    };
    proof {
        assert(a@ =~= rent_sysvar_id_bytes());
    }
    a
}

/// The escrow sub-address bound to a stream record: derived from the record's
/// own address under this program's id.
pub open spec fn spec_escrow_address(record_key: Seq<u8>, program_id: Seq<u8>) -> Option<Seq<u8>> {
    spec_program_address(seq![record_key], program_id)
}

/// The canonical token account of a wallet for a mint: derived from the
/// wallet, the token program and the mint under the associated-token
/// program's id.
pub open spec fn spec_associated_token_address(wallet: Seq<u8>, mint: Seq<u8>) -> Option<Seq<u8>> {
    spec_program_address(
        seq![wallet, spl_token_id_bytes(), mint],
        associated_token_program_id_bytes(),
    )
}

/// Derive the escrow sub-address bound to a stream record.
pub fn find_escrow_address(record_key: &Address, program_id: &Address) -> (r: Option<Address>)
    ensures
        r is Some <==> spec_escrow_address(record_key@, program_id@) is Some,
        r is Some ==> (r->0)@ == spec_escrow_address(record_key@, program_id@)->0,
{
    let mut seeds: Vec<Vec<u8>> = Vec::new();
    seeds.push(vstd::slice::slice_to_vec(record_key.bytes.as_slice()));
    proof {
        assert(seeds.deep_view() =~~= seq![record_key@]);
    }
    try_derive_program_address(&seeds, program_id)
}

/// Derive the canonical token account of a wallet for a mint.
pub fn get_associated_token_address(wallet: &Address, mint: &Address) -> (r: Option<Address>)
    ensures
        r is Some <==> spec_associated_token_address(wallet@, mint@) is Some,
        r is Some ==> (r->0)@ == spec_associated_token_address(wallet@, mint@)->0,
{
    let mut seeds: Vec<Vec<u8>> = Vec::new();
    seeds.push(vstd::slice::slice_to_vec(wallet.bytes.as_slice()));
    seeds.push(vstd::slice::slice_to_vec(spl_token_program_address().bytes.as_slice()));
    seeds.push(vstd::slice::slice_to_vec(mint.bytes.as_slice()));
    proof {
        assert(seeds.deep_view() =~~= seq![wallet@, spl_token_id_bytes(), mint@]);
    }
    try_derive_program_address(&seeds, &associated_token_program_address())
}

} // verus!
