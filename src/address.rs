//! Account addresses and program-derived addresses.

use vstd::prelude::*;

verus! {

/// A 32-byte account address.
#[derive(Clone, Copy, Debug, Default)]
pub struct Address {
    pub bytes: [u8; 32],
}

impl View for Address {
    type V = Seq<u8>;

    open spec fn view(&self) -> Seq<u8> {
        self.bytes@
    }
}

impl Address {
    /// The all-zero address, which marks a record that was never set.
    pub fn zero() -> (r: Address)
        ensures
            r@ == Seq::new(32, |i: int| 0u8),
    {
        let r = Address { bytes: [0u8; 32] };
        assert(r@ =~= Seq::new(32, |i: int| 0u8));
        r
    }

    /// The address's bytes, in order.
    pub fn to_vec(&self) -> (r: Vec<u8>)
        ensures
            r@ == self@,
    {
        let mut r: Vec<u8> = Vec::new();
        let mut i: usize = 0;
        while i < 32
            invariant
                0 <= i <= 32,
                self.bytes@.len() == 32,
                r@ == self.bytes@.subrange(0, i as int),
            decreases 32 - i,
        {
            r.push(self.bytes[i]);
            i = i + 1;
            assert(r@ =~= self.bytes@.subrange(0, i as int));
        }
        assert(r@ =~= self.bytes@);
        r
    }

    pub fn new(bytes: [u8; 32]) -> (r: Address)
        ensures
            r@ == bytes@,
    {
        Address { bytes }
    }
}

impl PartialEq for Address {
    fn eq(&self, o: &Address) -> (r: bool) {
        let mut i: usize = 0;
        while i < 32
            invariant
                0 <= i <= 32,
                self.bytes@.len() == 32,
                o.bytes@.len() == 32,
                forall|j: int| 0 <= j < i ==> self.bytes@[j] == o.bytes@[j],
            decreases 32 - i,
        {
            if self.bytes[i] != o.bytes[i] {
                return false;
            }
            i = i + 1;
        }
        assert(self.bytes@ =~= o.bytes@);
        true
    }
}

impl vstd::std_specs::cmp::PartialEqSpecImpl for Address {
    open spec fn obeys_eq_spec() -> bool {
        true
    }

    open spec fn eq_spec(&self, o: &Address) -> bool {
        self.bytes@ == o.bytes@
    }
}

/// The address that the runtime derives from `seeds` under `program`, or
/// `None` where the derivation is refused (the hash falls on the curve, or a
/// seed is too long).
pub uninterp spec fn program_address_of(seeds: Seq<Seq<u8>>, program: Seq<u8>) -> Option<Seq<u8>>;

/// The seeds of the bid record of `owner` in `auction`.
pub open spec fn bid_seeds(owner: Seq<u8>, auction: Seq<u8>, bump: u8) -> Seq<Seq<u8>> {
    seq![seq![98u8, 105u8, 100u8], owner, auction, seq![bump]]
}

/// Relies on `Pubkey::create_program_address`: the derived address depends on
/// the seeds and the program id alone.
#[verifier::external_body]
fn create_program_address(seeds: &Vec<Vec<u8>>, program: &Address) -> (r: Option<Address>)
    ensures
        match r {
            Some(a) => program_address_of(seeds@.map_values(|s: Vec<u8>| s@), program@) == Some(a@),
            None => program_address_of(seeds@.map_values(|s: Vec<u8>| s@), program@) is None,
        },
{
    let slices: Vec<&[u8]> = seeds.iter().map(|s| s.as_slice()).collect();
    let id = solana_program::pubkey::Pubkey::new_from_array(program.bytes);
    match solana_program::pubkey::Pubkey::create_program_address(&slices, &id) {
        Ok(key) => Some(Address { bytes: key.to_bytes() }),
        Err(_) => None,
    }
}

/// The address of the bid record of `owner` in `auction`, derived with `bump`
/// under `program`.
pub fn bid_address(owner: &Address, auction: &Address, bump: u8, program: &Address) -> (r: Option<Address>)
    ensures
        match r {
            Some(a) => program_address_of(bid_seeds(owner@, auction@, bump), program@) == Some(a@),
            None => program_address_of(bid_seeds(owner@, auction@, bump), program@) is None,
        },
{
    let label: Vec<u8> = vec![98u8, 105u8, 100u8];
    let bump_seed: Vec<u8> = vec![bump];
    assert(label@ =~= seq![98u8, 105u8, 100u8]);
    assert(bump_seed@ =~= seq![bump]);
    let mut seeds: Vec<Vec<u8>> = Vec::new();
    seeds.push(label);
    seeds.push(owner.to_vec());
    seeds.push(auction.to_vec());
    seeds.push(bump_seed);
    assert(seeds@.map_values(|s: Vec<u8>| s@) =~= bid_seeds(owner@, auction@, bump));
    create_program_address(&seeds, program)
}

} // verus!
