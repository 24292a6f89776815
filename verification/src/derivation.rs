//! Deterministic address derivation: a namespace and key material give a storage address
//! and the discriminant (bump) that was needed to find it.

use vstd::prelude::*;
use vstd::slice::slice_to_vec;
use crate::address::Address;
use crate::error::ErrorCode;
use solana_program::pubkey::Pubkey;

verus! {

/// A derived storage address with its discriminant.
#[derive(Clone, Copy, Debug, PartialEq, Eq)]
pub struct Derived {
    pub address: Address,
    pub bump: u8,
}

/// The address and bump that the program-address search gives for these seeds under this
/// program, or `None` where the search finds no address.
pub uninterp spec fn program_address(seeds: Seq<Seq<u8>>, program_id: Seq<u8>) -> Option<
    (Seq<u8>, u8),
>;

/// The SHA-256 digest of `data`.
pub uninterp spec fn sha256(data: Seq<u8>) -> Seq<u8>;

/// Namespace of the configuration singleton: the ASCII bytes of `config`.
pub open spec fn config_namespace() -> Seq<u8> {
    seq![0x63u8, 0x6f, 0x6e, 0x66, 0x69, 0x67]
}

/// Namespace of order records: the ASCII bytes of `order`.
pub open spec fn order_namespace() -> Seq<u8> {
    seq![0x6fu8, 0x72, 0x64, 0x65, 0x72]
}

/// Namespace of token-registry entries: the ASCII bytes of `token`.
pub open spec fn token_namespace() -> Seq<u8> {
    seq![0x74u8, 0x6f, 0x6b, 0x65, 0x6e]
}

/// A derivation as plain values.
pub open spec fn derived_view(d: Option<Derived>) -> Option<(Seq<u8>, u8)> {
    match d {
        Some(d) => Some((d.address@, d.bump)),
        None => None,
    }
}

/// The seeds of a derivation: the namespace, then the key unless it is empty.
pub open spec fn seeds_of(namespace: Seq<u8>, key: Seq<u8>) -> Seq<Seq<u8>> {
    if key.len() == 0 {
        seq![namespace]
    } else {
        seq![namespace, key]
    }
}

/// What `derive_address` gives for a namespace and a key under a program.
pub open spec fn spec_derive_address(program_id: Seq<u8>, namespace: Seq<u8>, key: Seq<u8>) -> Option<
    (Seq<u8>, u8),
> {
    program_address(seeds_of(namespace, key), program_id)
}

/// The derived address of the configuration singleton.
pub open spec fn spec_config_address(program_id: Seq<u8>) -> Option<(Seq<u8>, u8)> {
    spec_derive_address(program_id, config_namespace(), Seq::empty())
}

/// The derived address of the record of one order.
pub open spec fn spec_order_address(program_id: Seq<u8>, order_id: Seq<u8>) -> Option<
    (Seq<u8>, u8),
> {
    spec_derive_address(program_id, order_namespace(), order_id)
}

/// The derived address of the registry entry of one token type.
pub open spec fn spec_token_address(program_id: Seq<u8>, mint: Seq<u8>) -> Option<(Seq<u8>, u8)> {
    spec_derive_address(program_id, token_namespace(), mint)
}

/// Whether `supplied` is the derived address, and then its bump.
pub open spec fn spec_expect_address(supplied: Seq<u8>, derived: Option<(Seq<u8>, u8)>) -> Result<
    u8,
    ErrorCode,
> {
    match derived {
        Some((address, bump)) => if address == supplied {
            Ok(bump)
        } else {
            Err(ErrorCode::InvalidSeeds)
        },
        None => Err(ErrorCode::InvalidSeeds),
    }
}

/// Calls `Pubkey::try_find_program_address` of solana_program with these seeds and this
/// program. The search is a function of its arguments alone: the contract names its
/// result and claims nothing else of it.
#[verifier::external_body]
fn find_program_address(seeds: &Vec<Vec<u8>>, program_id: &Address) -> (r: Option<Derived>)
    ensures
        derived_view(r) == program_address(seeds@.map_values(|s: Vec<u8>| s@), program_id@),
{
    let slices: Vec<&[u8]> = seeds.iter().map(|s| s.as_slice()).collect();
    match Pubkey::try_find_program_address(&slices, &Pubkey::new_from_array(program_id.bytes)) {
        Some((key, bump)) => Some(Derived { address: Address { bytes: key.to_bytes() }, bump }),
        None => None,
    }
}

/// Calls `hash::hash` of solana_program, which is SHA-256: the contract names the digest.
#[verifier::external_body]
fn sha256_digest(data: &[u8]) -> (r: [u8; 32])
    ensures
        r@ == sha256(data@),
{
    solana_program::hash::hash(data).to_bytes()
}

/// The identifier of the order that the string `order` names: the SHA-256 digest of its
/// UTF-8 bytes.
pub fn order_id_of(order: &str) -> (r: [u8; 32])
    ensures
        r@ == sha256(vstd::utf8::encode_utf8(order@)),
{
    sha256_digest(order.as_bytes())
}

/// Derives the storage address for `key` in `namespace` under `program_id`.
pub fn derive_address(program_id: &Address, namespace: &[u8], key: &[u8]) -> (r: Option<Derived>)
    ensures
        derived_view(r) == spec_derive_address(program_id@, namespace@, key@),
{
    let mut seeds: Vec<Vec<u8>> = Vec::new();
    seeds.push(slice_to_vec(namespace));
    if key.len() > 0 {
        seeds.push(slice_to_vec(key));
    }
    assert(seeds@.map_values(|s: Vec<u8>| s@) =~= seeds_of(namespace@, key@));
    find_program_address(&seeds, program_id)
}

/// Derives the address of the configuration singleton.
pub fn config_address(program_id: &Address) -> (r: Option<Derived>)
    ensures
        derived_view(r) == spec_config_address(program_id@),
{
    let namespace: [u8; 6] = [0x63, 0x6f, 0x6e, 0x66, 0x69, 0x67];
    let key: [u8; 0] = [];
    assert(namespace@ =~= config_namespace());
    assert(key@ =~= Seq::<u8>::empty());
    derive_address(program_id, namespace.as_slice(), key.as_slice())
}

/// Derives the address of the record of the order `order_id`.
pub fn order_address(program_id: &Address, order_id: &[u8; 32]) -> (r: Option<Derived>)
    ensures
        derived_view(r) == spec_order_address(program_id@, order_id@),
{
    let namespace: [u8; 5] = [0x6f, 0x72, 0x64, 0x65, 0x72];
    assert(namespace@ =~= order_namespace());
    derive_address(program_id, namespace.as_slice(), order_id.as_slice())
}

/// Derives the address of the registry entry of the token type `mint`.
pub fn token_address(program_id: &Address, mint: &Address) -> (r: Option<Derived>)
    ensures
        derived_view(r) == spec_token_address(program_id@, mint@),
{
    let namespace: [u8; 5] = [0x74, 0x6f, 0x6b, 0x65, 0x6e];
    assert(namespace@ =~= token_namespace());
    derive_address(program_id, namespace.as_slice(), mint.bytes.as_slice())
}

/// Holds a caller-supplied storage address against the derived one: the bump where they
/// agree, `InvalidSeeds` where they differ or nothing was derived.
pub fn expect_address(supplied: &Address, derived: &Option<Derived>) -> (r: Result<u8, ErrorCode>)
    ensures
        r == spec_expect_address(supplied@, derived_view(*derived)),
{
    match derived {
        Some(d) => if d.address == *supplied {
            Ok(d.bump)
        } else {
            Err(ErrorCode::InvalidSeeds)
        },
        None => Err(ErrorCode::InvalidSeeds),
    }
}

} // verus!
