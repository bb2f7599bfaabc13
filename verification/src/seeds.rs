use vstd::prelude::*;
use crate::address::{address_and_bump, program_address, try_find_program_address, Address};

verus! {

/// The label of a charity's address: the ASCII bytes of `charity`.
pub open spec fn charity_label() -> Seq<u8> {
    seq![0x63u8, 0x68u8, 0x61u8, 0x72u8, 0x69u8, 0x74u8, 0x79u8]
}

/// The label of a vault's address: the ASCII bytes of `vault`.
pub open spec fn vault_label() -> Seq<u8> {
    seq![0x76u8, 0x61u8, 0x75u8, 0x6cu8, 0x74u8]
}

/// The label of a receipt's address: the ASCII bytes of `donation`.
pub open spec fn donation_label() -> Seq<u8> {
    seq![0x64u8, 0x6fu8, 0x6eu8, 0x61u8, 0x74u8, 0x69u8, 0x6fu8, 0x6eu8]
}

/// The seeds of a charity's address: the label, the authority, the name.
pub open spec fn charity_seeds(authority: Seq<u8>, name: Seq<char>) -> Seq<Seq<u8>> {
    seq![charity_label(), authority, vstd::utf8::encode_utf8(name)]
}

/// The seeds of a vault's address: the label and the charity's address.
pub open spec fn vault_seeds(charity_key: Seq<u8>) -> Seq<Seq<u8>> {
    seq![vault_label(), charity_key]
}

/// The seeds of a receipt's address: the label, the donor, the charity and
/// the number of the donation, as eight bytes, lowest first.
pub open spec fn donation_seeds(donor: Seq<u8>, charity_key: Seq<u8>, sequence: u64) -> Seq<Seq<u8>> {
    seq![donation_label(), donor, charity_key, vstd::bytes::spec_u64_to_le_bytes(sequence)]
}

/// Seeds are read as the sequence of their byte sequences.
proof fn lemma_seeds_deep_view(seeds: Vec<Vec<u8>>)
    ensures
        seeds.deep_view() == Seq::new(seeds@.len(), |i: int| seeds@[i]@),
{
    assert forall|i: int| 0 <= i < seeds@.len() implies #[trigger] seeds@[i].deep_view() == seeds@[i]@ by {
        assert(seeds@[i].deep_view() =~= seeds@[i]@);
    }
    assert(seeds.deep_view() =~= Seq::new(seeds@.len(), |i: int| seeds@[i]@));
}

fn charity_label_bytes() -> (label: Vec<u8>)
    ensures
        label@ == charity_label(),
{
    let mut label: Vec<u8> = Vec::new();
    label.push(0x63);
    label.push(0x68);
    label.push(0x61);
    label.push(0x72);
    label.push(0x69);
    label.push(0x74);
    label.push(0x79);
    assert(label@ =~= charity_label());
    label
}

fn vault_label_bytes() -> (label: Vec<u8>)
    ensures
        label@ == vault_label(),
{
    let mut label: Vec<u8> = Vec::new();
    label.push(0x76);
    label.push(0x61);
    label.push(0x75);
    label.push(0x6c);
    label.push(0x74);
    assert(label@ =~= vault_label());
    label
}

fn donation_label_bytes() -> (label: Vec<u8>)
    ensures
        label@ == donation_label(),
{
    let mut label: Vec<u8> = Vec::new();
    label.push(0x64);
    label.push(0x6f);
    label.push(0x6e);
    label.push(0x61);
    label.push(0x74);
    label.push(0x69);
    label.push(0x6f);
    label.push(0x6e);
    assert(label@ =~= donation_label());
    label
}

/// The seeds of the address of the charity that `authority` calls `name`.
pub fn charity_seeds_of(authority: &Address, name: &String) -> (seeds: Vec<Vec<u8>>)
    ensures
        seeds.deep_view() == charity_seeds(authority@, name@),
{
    let mut seeds: Vec<Vec<u8>> = Vec::new();
    seeds.push(charity_label_bytes());
    seeds.push(authority.to_vec());
    seeds.push(name.as_str().as_bytes_vec());
    proof {
        lemma_seeds_deep_view(seeds);
        assert(seeds.deep_view() =~= charity_seeds(authority@, name@));
    }
    seeds
}

/// The seeds of the address of the vault of the charity at `charity_key`.
pub fn vault_seeds_of(charity_key: &Address) -> (seeds: Vec<Vec<u8>>)
    ensures
        seeds.deep_view() == vault_seeds(charity_key@),
{
    let mut seeds: Vec<Vec<u8>> = Vec::new();
    seeds.push(vault_label_bytes());
    seeds.push(charity_key.to_vec());
    proof {
        lemma_seeds_deep_view(seeds);
        assert(seeds.deep_view() =~= vault_seeds(charity_key@));
    }
    seeds
}

/// The seeds of the address of the receipt of the donation that `donor` made
/// to the charity at `charity_key` when it had counted `sequence` donations.
pub fn donation_seeds_of(donor: &Address, charity_key: &Address, sequence: u64) -> (seeds: Vec<Vec<u8>>)
    ensures
        seeds.deep_view() == donation_seeds(donor@, charity_key@, sequence),
{
    let mut seeds: Vec<Vec<u8>> = Vec::new();
    seeds.push(donation_label_bytes());
    seeds.push(donor.to_vec());
    seeds.push(charity_key.to_vec());
    seeds.push(vstd::bytes::u64_to_le_bytes(sequence));
    proof {
        lemma_seeds_deep_view(seeds);
        assert(seeds.deep_view() =~= donation_seeds(donor@, charity_key@, sequence));
    }
    seeds
}

/// Whether a derivation found an address, and that address is `key`.
pub open spec fn names(found: Option<(Seq<u8>, u8)>, key: Seq<u8>) -> bool {
    found matches Some((address, _)) && address == key
}

/// What the derivation yields for the vault of the charity at `charity_key`.
pub open spec fn derived_vault(charity_key: Seq<u8>, program_id: Seq<u8>) -> Option<(Seq<u8>, u8)> {
    program_address(vault_seeds(charity_key), program_id)
}

/// Whether `vault` is the address derived, for the program `program_id`, for
/// the vault of the charity at `charity_key`.
pub open spec fn is_vault_of(vault: Seq<u8>, charity_key: Seq<u8>, program_id: Seq<u8>) -> bool {
    names(derived_vault(charity_key, program_id), vault)
}

/// The address, with its bump, of the charity that `authority` calls `name`.
pub fn find_charity_address(authority: &Address, name: &String, program_id: &Address) -> (found: Option<(Address, u8)>)
    ensures
        address_and_bump(found) == program_address(charity_seeds(authority@, name@), program_id@),
{
    let seeds = charity_seeds_of(authority, name);
    try_find_program_address(&seeds, program_id)
}

/// The address, with its bump, of the vault of the charity at `charity_key`.
pub fn find_vault_address(charity_key: &Address, program_id: &Address) -> (found: Option<(Address, u8)>)
    ensures
        address_and_bump(found) == derived_vault(charity_key@, program_id@),
{
    let seeds = vault_seeds_of(charity_key);
    try_find_program_address(&seeds, program_id)
}

/// The address, with its bump, of the receipt of the donation that `donor`
/// made to the charity at `charity_key` when it had counted `sequence` donations.
pub fn find_donation_address(donor: &Address, charity_key: &Address, sequence: u64, program_id: &Address) -> (found: Option<(Address, u8)>)
    ensures
        address_and_bump(found) == program_address(
            donation_seeds(donor@, charity_key@, sequence),
            program_id@,
        ),
{
    let seeds = donation_seeds_of(donor, charity_key, sequence);
    try_find_program_address(&seeds, program_id)
}

/// Whether the derivation `found` yields the address `key`.
pub fn is_derived(found: &Option<(Address, u8)>, key: &Address) -> (same: bool)
    ensures
        same == names(address_and_bump(*found), key@),
{
    match found {
        Some((address, _)) => *address == *key,
        None => false,
    }
}

/// Donations with different numbers have different seeds, whoever gave: no
/// two receipts of a charity share their seeds.
pub proof fn lemma_donation_seeds_differ(
    first_donor: Seq<u8>,
    second_donor: Seq<u8>,
    charity_key: Seq<u8>,
    first: u64,
    second: u64,
)
    requires
        first != second,
    ensures
        donation_seeds(first_donor, charity_key, first) != donation_seeds(second_donor, charity_key, second),
{
    vstd::bytes::lemma_auto_spec_u64_to_from_le_bytes();
    let a = donation_seeds(first_donor, charity_key, first);
    let b = donation_seeds(second_donor, charity_key, second);
    assert(a[3] == vstd::bytes::spec_u64_to_le_bytes(first));
    assert(b[3] == vstd::bytes::spec_u64_to_le_bytes(second));
    assert(vstd::bytes::spec_u64_from_le_bytes(a[3]) == first);
    assert(vstd::bytes::spec_u64_from_le_bytes(b[3]) == second);
}

} // verus!
