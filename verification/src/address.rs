use vstd::prelude::*;

verus! {

/// The address of an account: 32 bytes, compared byte by byte.
#[derive(Clone, Copy, Debug)]
pub struct Address {
    pub bytes: [u8; 32],
}

impl View for Address {
    type V = Seq<u8>;

    open spec fn view(&self) -> Seq<u8> {
        self.bytes@
    }
}

impl Address {
    /// The address made of the given bytes.
    pub fn new(bytes: [u8; 32]) -> (address: Address)
        ensures
            address@ == bytes@,
    {
        Address { bytes }
    }

    /// The bytes of the address, in order, as a seed for a derivation.
    pub fn to_vec(&self) -> (out: Vec<u8>)
        ensures
            out@ == self@,
    {
        let mut out: Vec<u8> = Vec::new();
        let mut i: usize = 0;
        while i < 32
            invariant
                i <= 32,
                out@ == self@.subrange(0, i as int),
            decreases 32 - i,
        {
            out.push(self.bytes[i]);
            i += 1;
        }
        out
    }
}

impl PartialEq for Address {
    /// Two addresses are equal when all their bytes are.
    fn eq(&self, other: &Address) -> (same: bool) {
        let mut i: usize = 0;
        while i < 32
            invariant
                i <= 32,
                forall|j: int| 0 <= j < i ==> self@[j] == other@[j],
            decreases 32 - i,
        {
            if self.bytes[i] != other.bytes[i] {
                return false;
            }
            i += 1;
        }
        assert(self@ =~= other@);
        true
    }
}

impl vstd::std_specs::cmp::PartialEqSpecImpl for Address {
    open spec fn obeys_eq_spec() -> bool {
        true
    }

    open spec fn eq_spec(&self, other: &Address) -> bool {
        self@ == other@
    }
}

impl Eq for Address {}

/// The program-derived address, with its bump, that the host's library finds
/// for `seeds` and the program `program_id`; `None` where it finds none.
pub uninterp spec fn program_address(seeds: Seq<Seq<u8>>, program_id: Seq<u8>) -> Option<(Seq<u8>, u8)>;

/// What a derivation has yielded, with the address as its bytes.
pub open spec fn address_and_bump(found: Option<(Address, u8)>) -> Option<(Seq<u8>, u8)> {
    match found {
        Some((address, bump)) => Some((address@, bump)),
        None => None,
    }
}

/// Calls `Pubkey::try_find_program_address` of `anchor_lang`, which hashes
/// the seeds with a bump and the program's address until the hash is no
/// point of the curve. Believed, not proved: its result is a function of the
/// seeds and the program's address alone, here named `program_address`.
/// Nothing more is claimed of it.
#[verifier::external_body]
pub(crate) fn try_find_program_address(seeds: &Vec<Vec<u8>>, program_id: &Address) -> (found: Option<(Address, u8)>)
    ensures
        address_and_bump(found) == program_address(seeds.deep_view(), program_id@),
{
    let slices: Vec<&[u8]> = seeds.iter().map(|seed| seed.as_slice()).collect();
    let id = anchor_lang::prelude::Pubkey::new_from_array(program_id.bytes);
    match anchor_lang::prelude::Pubkey::try_find_program_address(&slices, &id) {
        Some((key, bump)) => Some((Address { bytes: key.to_bytes() }, bump)),
        None => None,
    }
}

} // verus!
