use vstd::prelude::*;
use vstd::string::*;
use crate::state::Pubkey;

verus! {

/// The seed material of an authority that the program itself holds: no person
/// has a key for it. Every delegated call (burn, mint, vault deposit and
/// withdrawal) is handed the seeds of the authority it acts under.
#[derive(Clone, Debug, PartialEq, Eq)]
pub struct DelegatedAuthority {
    pub seeds: Vec<Vec<u8>>,
}

impl View for DelegatedAuthority {
    type V = Seq<Seq<u8>>;

    open spec fn view(&self) -> Seq<Seq<u8>> {
        Seq::new(self.seeds@.len(), |i: int| self.seeds@[i]@)
    }
}

/// Seeds of the authority under which value enters and leaves the vault.
pub open spec fn vault_seeds(bump: u8) -> Seq<Seq<u8>> {
    seq!["program_token_account".spec_bytes(), seq![bump]]
}

/// Seeds of the authority that controls the custody account of `mint`.
pub open spec fn custody_seeds(mint: Pubkey, bump: u8) -> Seq<Seq<u8>> {
    seq!["program_token_account".spec_bytes(), mint@, seq![bump]]
}

/// Seeds of the authority under which the message transmitter mints.
pub open spec fn transmitter_seeds(bump: u8) -> Seq<Seq<u8>> {
    seq!["message_transmitter".spec_bytes(), seq![bump]]
}

/// The bytes of `key` as a seed.
pub(crate) fn key_seed(key: &Pubkey) -> (seed: Vec<u8>)
    ensures
        seed@ == key@,
{
    let mut seed: Vec<u8> = Vec::new();
    let mut i: usize = 0;
    while i < 32
        invariant
            i <= 32,
            seed@ == key@.subrange(0, i as int),
        decreases 32 - i,
    {
        seed.push(key.bytes[i]);
        assert(seed@ =~= key@.subrange(0, i + 1));
        i += 1;
    }
    assert(seed@ =~= key@);
    seed
}

/// A seed of one byte.
fn bump_seed(bump: u8) -> (seed: Vec<u8>)
    ensures
        seed@ == seq![bump],
{
    let mut seed: Vec<u8> = Vec::new();
    seed.push(bump);
    assert(seed@ =~= seq![bump]);
    seed
}

impl DelegatedAuthority {
    /// The authority under which value enters and leaves the vault.
    pub fn for_vault(bump: u8) -> (authority: DelegatedAuthority)
        ensures
            authority@ == vault_seeds(bump),
    {
        let mut seeds: Vec<Vec<u8>> = Vec::new();
        seeds.push("program_token_account".as_bytes_vec());
        seeds.push(bump_seed(bump));
        let authority = DelegatedAuthority { seeds };
        assert(authority@ =~= vault_seeds(bump));
        authority
    }

    /// The authority that controls the custody account of `mint`.
    pub fn for_custody(mint: &Pubkey, bump: u8) -> (authority: DelegatedAuthority)
        ensures
            authority@ == custody_seeds(*mint, bump),
    {
        let mut seeds: Vec<Vec<u8>> = Vec::new();
        seeds.push("program_token_account".as_bytes_vec());
        seeds.push(key_seed(mint));
        seeds.push(bump_seed(bump));
        let authority = DelegatedAuthority { seeds };
        assert(authority@ =~= custody_seeds(*mint, bump));
        authority
    }

    /// The authority under which the message transmitter mints.
    pub fn for_transmitter(bump: u8) -> (authority: DelegatedAuthority)
        ensures
            authority@ == transmitter_seeds(bump),
    {
        let mut seeds: Vec<Vec<u8>> = Vec::new();
        seeds.push("message_transmitter".as_bytes_vec());
        seeds.push(bump_seed(bump));
        let authority = DelegatedAuthority { seeds };
        assert(authority@ =~= transmitter_seeds(bump));
        authority
    }
}

} // verus!
