//! Where a stored account sits: the address derived from a tag and the fields
//! that tell one account of a kind from another.

use crate::identity::{lemma_identity_by_bytes, Identity};
use anchor_lang::prelude::Pubkey;
use vstd::prelude::*;
use vstd::slice::slice_to_vec;
use vstd::string::StringSliceAdditionalSpecFns;

verus! {

/// The tag of a property vault's address.
pub const VAULT_TAG: &'static str = "property_vault";

/// The tag of a payment record's address.
pub const PAYMENT_TAG: &'static str = "payment";

/// The tag of the registry's address.
pub const REGISTRY_TAG: &'static str = "property_registry";

/// The four bytes of a property identifier, lowest first.
pub open spec fn le_bytes(property_id: u32) -> Seq<u8> {
    seq![
        (property_id % 256) as u8,
        (property_id / 256 % 256) as u8,
        (property_id / 65536 % 256) as u8,
        (property_id / 16777216) as u8,
    ]
}

/// The seeds of a property's vault: the bytes of the vault tag, then the
/// property identifier.
pub open spec fn vault_seeds(property_id: u32) -> Seq<Seq<u8>> {
    seq![VAULT_TAG.spec_bytes(), le_bytes(property_id)]
}

/// The seeds of a contributor's payment record for a property: the bytes of the
/// payment tag, the property identifier, the contributor's identity.
pub open spec fn payment_seeds(property_id: u32, payer: Identity) -> Seq<Seq<u8>> {
    seq![PAYMENT_TAG.spec_bytes(), le_bytes(property_id), payer@]
}

/// The seeds of the registry: the bytes of its tag alone.
pub open spec fn registry_seeds() -> Seq<Seq<u8>> {
    seq![REGISTRY_TAG.spec_bytes()]
}

/// What `Pubkey::try_find_program_address` derives from seeds and a program's
/// identity: an address and the bump that was needed to reach it, or nothing
/// where the seeds admit none.
pub uninterp spec fn program_address(seeds: Seq<Seq<u8>>, program: Seq<u8>) -> Option<(Seq<u8>, u8)>;

/// A list of seeds as plain values.
pub open spec fn seeds_view(seeds: &Vec<Vec<u8>>) -> Seq<Seq<u8>> {
    Seq::new(seeds@.len(), |i: int| seeds@[i]@)
}

/// An address and its bump as plain values.
pub open spec fn address_view(found: Option<(Identity, u8)>) -> Option<(Seq<u8>, u8)> {
    match found {
        Some((address, bump)) => Some((address@, bump)),
        None => None,
    }
}

/// Whether a derived address is that of the account with the given key.
pub open spec fn names_account(derived: Option<(Seq<u8>, u8)>, key: Identity) -> bool {
    derived matches Some((address, _)) && address == key@
}

/// The address of a property's vault under a program.
pub open spec fn vault_address(program_id: Identity, property_id: u32) -> Option<(Seq<u8>, u8)> {
    program_address(vault_seeds(property_id), program_id@)
}

/// The address of a contributor's payment record for a property under a program.
pub open spec fn payment_address(program_id: Identity, property_id: u32, payer: Identity) -> Option<
    (Seq<u8>, u8),
> {
    program_address(payment_seeds(property_id, payer), program_id@)
}

/// The address of the registry under a program.
pub open spec fn registry_address(program_id: Identity) -> Option<(Seq<u8>, u8)> {
    program_address(registry_seeds(), program_id@)
}

/// Seeds tell properties and contributors apart: two vaults with the same seeds
/// are of one property, two payment records with the same seeds are of one
/// property and one contributor, and no two kinds of account share their seeds.
pub proof fn lemma_seeds_tell_accounts_apart(
    property_id: u32,
    payer: Identity,
    other_property_id: u32,
    other_payer: Identity,
)
    ensures
        vault_seeds(property_id) == vault_seeds(other_property_id) ==> property_id
            == other_property_id,
        payment_seeds(property_id, payer) == payment_seeds(other_property_id, other_payer)
            ==> property_id == other_property_id && payer == other_payer,
        vault_seeds(property_id) != payment_seeds(other_property_id, other_payer),
        vault_seeds(property_id) != registry_seeds(),
        payment_seeds(property_id, payer) != registry_seeds(),
{
    if le_bytes(property_id) == le_bytes(other_property_id) {
        assert(le_bytes(property_id)[0] == le_bytes(other_property_id)[0]);
        assert(le_bytes(property_id)[1] == le_bytes(other_property_id)[1]);
        assert(le_bytes(property_id)[2] == le_bytes(other_property_id)[2]);
        assert(le_bytes(property_id)[3] == le_bytes(other_property_id)[3]);
        assert(property_id == other_property_id);
    }
    if vault_seeds(property_id) == vault_seeds(other_property_id) {
        assert(vault_seeds(property_id)[1] == vault_seeds(other_property_id)[1]);
    }
    if payment_seeds(property_id, payer) == payment_seeds(other_property_id, other_payer) {
        assert(payment_seeds(property_id, payer)[1] == payment_seeds(
            other_property_id,
            other_payer,
        )[1]);
        assert(payment_seeds(property_id, payer)[2] == payment_seeds(
            other_property_id,
            other_payer,
        )[2]);
        lemma_identity_by_bytes(payer, other_payer);
    }
    assert(vault_seeds(property_id).len() == 2);
    assert(payment_seeds(other_property_id, other_payer).len() == 3);
    assert(payment_seeds(property_id, payer).len() == 3);
    assert(registry_seeds().len() == 1);
}

/// Calls `Pubkey::try_find_program_address`, which hashes the seeds with the
/// program's identity under one bump after another until the result is no point
/// of the curve. The contract only names the outcome: it is `program_address` of
/// the seeds and the program's bytes.
#[verifier::external_body]
fn try_find_program_address(seeds: &Vec<Vec<u8>>, program_id: &Identity) -> (found: Option<
    (Identity, u8),
>)
    ensures
        address_view(found) == program_address(seeds_view(seeds), program_id@),
{
    let parts: Vec<&[u8]> = seeds.iter().map(|seed| seed.as_slice()).collect();
    let program = Pubkey::new_from_array(program_id.bytes);
    match Pubkey::try_find_program_address(&parts, &program) {
        Some((address, bump)) => Some((Identity { bytes: address.to_bytes() }, bump)),
        None => None,
    }
}

/// Writes a property identifier as four bytes, lowest first.
pub fn property_id_bytes(property_id: u32) -> (bytes: Vec<u8>)
    ensures
        bytes@ == le_bytes(property_id),
{
    let mut bytes: Vec<u8> = Vec::new();
    bytes.push((property_id % 256) as u8);
    bytes.push((property_id / 256 % 256) as u8);
    bytes.push((property_id / 65536 % 256) as u8);
    bytes.push((property_id / 16777216) as u8);
    assert(bytes@ =~= le_bytes(property_id));
    bytes
}

/// The bytes of a tag.
pub fn tag_bytes(tag: &str) -> (bytes: Vec<u8>)
    ensures
        bytes@ == tag.spec_bytes(),
{
    slice_to_vec(tag.as_bytes())
}

/// Tells whether a derived address is that of the account with the given key.
pub fn sits_at(found: &Option<(Identity, u8)>, key: &Identity) -> (sits: bool)
    ensures
        sits == names_account(address_view(*found), *key),
{
    match found {
        Some((address, _)) => *address == *key,
        None => false,
    }
}

/// Finds the address of a property's vault under a program.
pub fn find_vault_address(program_id: &Identity, property_id: u32) -> (found: Option<(Identity, u8)>)
    ensures
        address_view(found) == vault_address(*program_id, property_id),
{
    let mut seeds: Vec<Vec<u8>> = Vec::new();
    seeds.push(tag_bytes(VAULT_TAG));
    seeds.push(property_id_bytes(property_id));
    assert(seeds_view(&seeds) =~= vault_seeds(property_id));
    try_find_program_address(&seeds, program_id)
}

/// Finds the address of a contributor's payment record for a property under a program.
pub fn find_payment_address(program_id: &Identity, property_id: u32, payer: &Identity) -> (found:
    Option<(Identity, u8)>)
    ensures
        address_view(found) == payment_address(*program_id, property_id, *payer),
{
    let mut seeds: Vec<Vec<u8>> = Vec::new();
    seeds.push(tag_bytes(PAYMENT_TAG));
    seeds.push(property_id_bytes(property_id));
    seeds.push(payer.to_vec());
    assert(seeds_view(&seeds) =~= payment_seeds(property_id, *payer));
    try_find_program_address(&seeds, program_id)
}

/// Finds the address of the registry under a program.
pub fn find_registry_address(program_id: &Identity) -> (found: Option<(Identity, u8)>)
    ensures
        address_view(found) == registry_address(*program_id),
{
    let mut seeds: Vec<Vec<u8>> = Vec::new();
    seeds.push(tag_bytes(REGISTRY_TAG));
    assert(seeds_view(&seeds) =~= registry_seeds());
    try_find_program_address(&seeds, program_id)
}

} // verus!
