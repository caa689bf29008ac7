use vstd::prelude::*;
use vstd::bytes::*;
use vstd::string::*;
use crate::authority::key_seed;
use crate::state::Pubkey;

verus! {

/// Seeds of the address of the configuration record, of which there is one.
pub open spec fn global_state_address_seeds() -> Seq<Seq<u8>> {
    seq!["global_state".spec_bytes()]
}

/// Seeds of the address of the message transmitter, of which there is one.
pub open spec fn message_transmitter_address_seeds() -> Seq<Seq<u8>> {
    seq!["message_transmitter".spec_bytes()]
}

/// Seeds of the address of the custody account that holds the token `mint`.
pub open spec fn program_token_account_address_seeds(mint: Pubkey) -> Seq<Seq<u8>> {
    seq!["program_token_account".spec_bytes(), mint@]
}

/// Seeds of the address of the ledger of the custody account `token_account`.
pub open spec fn fund_account_address_seeds(token_account: Pubkey) -> Seq<Seq<u8>> {
    seq!["fund_account".spec_bytes(), token_account@]
}

/// Seeds of the address of the messenger that numbers the burns of `mint`.
pub open spec fn token_messenger_address_seeds(mint: Pubkey) -> Seq<Seq<u8>> {
    seq!["token_messenger".spec_bytes(), mint@]
}

/// Seeds of the address under which the burn record numbered `nonce` is stored.
pub open spec fn burn_message_address_seeds(nonce: u64) -> Seq<Seq<u8>> {
    seq!["burn_message".spec_bytes(), spec_u64_to_le_bytes(nonce)]
}

/// What a list of seeds holds, seed by seed.
pub open spec fn seeds_view(seeds: Vec<Vec<u8>>) -> Seq<Seq<u8>> {
    Seq::new(seeds@.len(), |i: int| seeds@[i]@)
}

/// The seeds of the address of the configuration record.
pub fn global_state_seeds() -> (seeds: Vec<Vec<u8>>)
    ensures
        seeds_view(seeds) == global_state_address_seeds(),
{
    let mut seeds: Vec<Vec<u8>> = Vec::new();
    seeds.push("global_state".as_bytes_vec());
    assert(seeds_view(seeds) =~= global_state_address_seeds());
    seeds
}

/// The seeds of the address of the message transmitter.
pub fn message_transmitter_seeds() -> (seeds: Vec<Vec<u8>>)
    ensures
        seeds_view(seeds) == message_transmitter_address_seeds(),
{
    let mut seeds: Vec<Vec<u8>> = Vec::new();
    seeds.push("message_transmitter".as_bytes_vec());
    assert(seeds_view(seeds) =~= message_transmitter_address_seeds());
    seeds
}

/// The seeds of the address of the custody account that holds the token
/// `mint`: a fixed tag, then the mint.
pub fn program_token_account_seeds(mint: &Pubkey) -> (seeds: Vec<Vec<u8>>)
    ensures
        seeds_view(seeds) == program_token_account_address_seeds(*mint),
{
    let mut seeds: Vec<Vec<u8>> = Vec::new();
    seeds.push("program_token_account".as_bytes_vec());
    seeds.push(key_seed(mint));
    assert(seeds_view(seeds) =~= program_token_account_address_seeds(*mint));
    seeds
}

/// The seeds of the address of the ledger of the custody account
/// `token_account`: a fixed tag, then the account.
pub fn fund_account_seeds(token_account: &Pubkey) -> (seeds: Vec<Vec<u8>>)
    ensures
        seeds_view(seeds) == fund_account_address_seeds(*token_account),
{
    let mut seeds: Vec<Vec<u8>> = Vec::new();
    seeds.push("fund_account".as_bytes_vec());
    seeds.push(key_seed(token_account));
    assert(seeds_view(seeds) =~= fund_account_address_seeds(*token_account));
    seeds
}

/// The seeds of the address of the messenger that numbers the burns of
/// `mint`: a fixed tag, then the mint.
pub fn token_messenger_seeds(mint: &Pubkey) -> (seeds: Vec<Vec<u8>>)
    ensures
        seeds_view(seeds) == token_messenger_address_seeds(*mint),
{
    let mut seeds: Vec<Vec<u8>> = Vec::new();
    seeds.push("token_messenger".as_bytes_vec());
    seeds.push(key_seed(mint));
    assert(seeds_view(seeds) =~= token_messenger_address_seeds(*mint));
    seeds
}

/// The seeds of the address under which the burn record numbered `nonce` is
/// stored: a fixed tag, then the nonce in eight bytes, lowest first.
pub fn burn_message_seeds(nonce: u64) -> (seeds: Vec<Vec<u8>>)
    ensures
        seeds_view(seeds) == burn_message_address_seeds(nonce),
        seeds@[1]@.len() == 8,
{
    let mut seeds: Vec<Vec<u8>> = Vec::new();
    seeds.push("burn_message".as_bytes_vec());
    seeds.push(u64_to_le_bytes(nonce));
    assert(seeds_view(seeds) =~= burn_message_address_seeds(nonce));
    seeds
}

/// Records with different nonces are stored under different seeds, so no
/// record can take the place of another.
pub proof fn burn_records_never_collide(nonce1: u64, nonce2: u64)
    requires
        nonce1 != nonce2,
    ensures
        burn_message_address_seeds(nonce1) != burn_message_address_seeds(nonce2),
{
    lemma_auto_spec_u64_to_from_le_bytes();
    assert(spec_u64_from_le_bytes(spec_u64_to_le_bytes(nonce1)) == nonce1);
    assert(spec_u64_from_le_bytes(spec_u64_to_le_bytes(nonce2)) == nonce2);
    assert(burn_message_address_seeds(nonce1)[1] == spec_u64_to_le_bytes(nonce1));
    assert(burn_message_address_seeds(nonce2)[1] == spec_u64_to_le_bytes(nonce2));
}

} // verus!
