use vstd::prelude::*;

verus! {

/// A 32-byte account address.
#[derive(Debug, Copy, Clone)]
pub struct Address {
    pub bytes: [u8; 32],
}

impl View for Address {
    type V = Seq<u8>;

    open spec fn view(&self) -> Seq<u8> {
        self.bytes@
    }
}

impl PartialEq for Address {
    fn eq(&self, other: &Address) -> (r: bool)
        ensures
            r == (self@ == other@),
    {
        let mut i: usize = 0;
        while i < 32
            invariant
                0 <= i <= 32,
                self@.len() == 32,
                other@.len() == 32,
                forall|j: int| 0 <= j < i ==> self@[j] == other@[j],
            decreases 32 - i,
        {
            if self.bytes[i] != other.bytes[i] {
                return false;
            }
            i = i + 1;
        }
        proof {
            assert(self@ =~= other@);
        }
        true
    }
}

impl vstd::std_specs::cmp::PartialEqSpecImpl for Address {
    open spec fn obeys_eq_spec() -> bool {
        true
    }

    open spec fn eq_spec(&self, other: &Address) -> bool {
        self@ == other@
    }
}

impl Eq for Address {}


/// The address derived from `seeds` for `program_id`, with its bump seed:
/// the first bump, trying 255 down to 1, for which the seeds followed by the
/// bump hash to a point off the curve. `None` where no bump qualifies, or
/// where the seeds exceed the count or length that derivation allows.
pub uninterp spec fn program_address(seeds: Seq<Seq<u8>>, program_id: Seq<u8>) -> Option<(Seq<u8>, u8)>;

/// The byte strings of a list of addresses, in order.
pub open spec fn seed_bytes(seeds: Seq<Address>) -> Seq<Seq<u8>> {
    seeds.map_values(|a: Address| a@)
}

/// What a derivation returned, as address bytes and bump.
pub open spec fn derived_view(r: Option<(Address, u8)>) -> Option<(Seq<u8>, u8)> {
    match r {
        Some(p) => Some((p.0@, p.1)),
        None => None,
    }
}

/// Relies on `Pubkey::try_find_program_address`: its result depends on the
/// seeds and the program id alone (it hashes them with each bump in turn).
#[verifier::external_body]
fn find_program_address(seeds: &[Address], program_id: &Address) -> (r: Option<(Address, u8)>)
    ensures
        derived_view(r) == program_address(seed_bytes(seeds@), program_id@),
{
    let refs: Vec<&[u8]> = seeds.iter().map(|a| &a.bytes[..]).collect();
    let program = solana_program::pubkey::Pubkey::new_from_array(program_id.bytes);
    solana_program::pubkey::Pubkey::try_find_program_address(&refs, &program).map(
        |(key, bump)| (Address { bytes: key.to_bytes() }, bump),
    )
}

/// The seeds of a booth's oracle: its admin and its two mints, in order.
pub open spec fn oracle_seeds(admin: Seq<u8>, mint_a: Seq<u8>, mint_b: Seq<u8>) -> Seq<Seq<u8>> {
    seq![admin, mint_a, mint_b]
}

/// The seeds of a booth: its oracle.
pub open spec fn booth_seeds(oracle: Seq<u8>) -> Seq<Seq<u8>> {
    seq![oracle]
}

/// The seeds of a vault: its booth and the mint it holds.
pub open spec fn vault_seeds(booth: Seq<u8>, mint: Seq<u8>) -> Seq<Seq<u8>> {
    seq![booth, mint]
}

/// The oracle address of the admin and the ordered pair of mints.
pub fn derive_oracle_address(
    admin: &Address,
    mint_a: &Address,
    mint_b: &Address,
    program_id: &Address,
) -> (r: Option<(Address, u8)>)
    ensures
        derived_view(r) == program_address(oracle_seeds(admin@, mint_a@, mint_b@), program_id@),
{
    let seeds: Vec<Address> = vec![*admin, *mint_a, *mint_b];
    assert(seed_bytes(seeds@) =~= oracle_seeds(admin@, mint_a@, mint_b@));
    find_program_address(seeds.as_slice(), program_id)
}

/// The booth address bound to an oracle.
pub fn derive_booth_address(oracle: &Address, program_id: &Address) -> (r: Option<(Address, u8)>)
    ensures
        derived_view(r) == program_address(booth_seeds(oracle@), program_id@),
{
    let seeds: Vec<Address> = vec![*oracle];
    assert(seed_bytes(seeds@) =~= booth_seeds(oracle@));
    find_program_address(seeds.as_slice(), program_id)
}

/// The address of a booth's vault for one mint.
pub fn derive_vault_address(booth: &Address, mint: &Address, program_id: &Address) -> (r: Option<
    (Address, u8),
>)
    ensures
        derived_view(r) == program_address(vault_seeds(booth@, mint@), program_id@),
{
    let seeds: Vec<Address> = vec![*booth, *mint];
    assert(seed_bytes(seeds@) =~= vault_seeds(booth@, mint@));
    find_program_address(seeds.as_slice(), program_id)
}

/// Deriving twice from the same seeds and program id gives the same address
/// and bump.
pub proof fn lemma_derivation_stable(
    seeds: Seq<Seq<u8>>,
    program_id: Seq<u8>,
    first: Option<(Address, u8)>,
    second: Option<(Address, u8)>,
)
    requires
        derived_view(first) == program_address(seeds, program_id),
        derived_view(second) == program_address(seeds, program_id),
    ensures
        first is Some <==> second is Some,
        first is Some ==> first->Some_0.0@ == second->Some_0.0@ && first->Some_0.1
            == second->Some_0.1,
{
}

} // verus!
