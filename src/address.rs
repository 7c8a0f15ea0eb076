use vstd::prelude::*;

verus! {

/// A 32-byte account address: a user, a creator, an oracle authority, a
/// data source, a program or an escrow vault.
#[derive(Clone, Copy, Debug)]
pub struct Address {
    pub bytes: [u8; 32],
}

impl View for Address {
    type V = Seq<u8>;

    open spec fn view(&self) -> Seq<u8> {
        self.bytes@
    }
}

impl Address {
    /// The address with the given bytes.
    pub fn new(bytes: [u8; 32]) -> (r: Address)
        ensures
            r@ == bytes@,
    {
        Address { bytes }
    }

    /// Whether two addresses are the same.
    pub fn same_as(&self, other: &Address) -> (r: bool)
        ensures
            r == (self@ == other@),
    {
        let mut i: usize = 0;
        while i < 32
            invariant
                0 <= i <= 32,
                self@.len() == 32,
                other@.len() == 32,
                forall|j: int| 0 <= j < i ==> self@[j] == other@[j],
            decreases 32 - i,
        {
            if self.bytes[i] != other.bytes[i] {
                return false;
            }
            i = i + 1;
        }
        assert(self@ =~= other@);
        true
    }
}

impl PartialEq for Address {
    fn eq(&self, other: &Address) -> (r: bool) {
        self.same_as(other)
    }
}

impl vstd::std_specs::cmp::PartialEqSpecImpl for Address {
    open spec fn obeys_eq_spec() -> bool {
        true
    }

    open spec fn eq_spec(&self, other: &Address) -> bool {
        self@ == other@
    }
}

impl Eq for Address {

}

/// The address and bump seed that the runtime derives from a list of seeds
/// and a program id, when one exists.
pub uninterp spec fn program_address_of(seeds: Seq<Seq<u8>>, program_id: Seq<u8>) -> Option<
    (Seq<u8>, u8),
>;

/// Relies on `Pubkey::try_find_program_address` of solana-program (through
/// anchor-lang): a deterministic function of the seeds and the program id,
/// which yields `None` when no bump seed gives an address off the curve or
/// when the seeds are too many or too long.
#[verifier::external_body]
fn try_find_program_address(seeds: &Vec<Vec<u8>>, program_id: &Address) -> (r: Option<
    (Address, u8),
>)
    ensures
        r matches Some(found) ==> program_address_of(
            seeds@.map_values(|s: Vec<u8>| s@),
            program_id@,
        ) == Some((found.0@, found.1)),
        r is None ==> program_address_of(seeds@.map_values(|s: Vec<u8>| s@), program_id@) is None,
{
    let slices: Vec<&[u8]> = seeds.iter().map(|s| s.as_slice()).collect();
    let id = anchor_lang::prelude::Pubkey::new_from_array(program_id.bytes);
    anchor_lang::prelude::Pubkey::try_find_program_address(&slices, &id).map(
        |(key, bump)| (Address { bytes: key.to_bytes() }, bump),
    )
}

/// The namespace under which escrow vaults are derived: the bytes of "vault".
pub open spec fn vault_namespace() -> Seq<u8> {
    seq![118u8, 97u8, 117u8, 108u8, 116u8]
}

/// The seeds of a round's escrow vault: the namespace, then the round id in
/// little-endian order.
pub open spec fn vault_seeds(round_id: u64) -> Seq<Seq<u8>> {
    seq![vault_namespace(), vstd::bytes::spec_u64_to_le_bytes(round_id)]
}

/// The escrow vault of a round, as the runtime derives it for a program.
pub open spec fn vault_address_of(program_id: Seq<u8>, round_id: u64) -> Option<Seq<u8>> {
    match program_address_of(vault_seeds(round_id), program_id) {
        Some(found) => Some(found.0),
        None => None,
    }
}

/// The deterministic escrow key of a round: derived from the vault namespace
/// and the round id under the program's id, with no private key behind it.
pub fn vault_address(program_id: &Address, round_id: u64) -> (r: Option<Address>)
    ensures
        r matches Some(a) ==> vault_address_of(program_id@, round_id) == Some(a@),
        r is None ==> vault_address_of(program_id@, round_id) is None,
{
    let mut seeds: Vec<Vec<u8>> = Vec::new();
    seeds.push(vec![118u8, 97u8, 117u8, 108u8, 116u8]);
    seeds.push(vstd::bytes::u64_to_le_bytes(round_id));
    assert(seeds@.map_values(|s: Vec<u8>| s@) =~= vault_seeds(round_id));
    match try_find_program_address(&seeds, program_id) {
        Some(found) => Some(found.0),
        None => None,
    }
}

} // verus!
