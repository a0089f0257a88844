use vstd::prelude::*;
use crate::error::BridgeError;

verus! {

/// A 32-byte account address or token identifier.
pub type Address = [u8; 32];

/// Seed tags that keep the derivations of different roles apart: the first
/// seed of every derivation is the one-byte tag of its role.
pub const ROLE_ENDPOINT: u8 = 1;
pub const ROLE_CUSTODY: u8 = 2;
pub const ROLE_CUSTODY_SIGNER: u8 = 3;
pub const ROLE_MINT_SIGNER: u8 = 4;
pub const ROLE_WRAPPED_META: u8 = 5;
pub const ROLE_WRAPPED_MINT: u8 = 6;
pub const ROLE_CONFIG: u8 = 7;

/// The address derived from `seeds` under the namespace of `program`, if the
/// seeds admit one.
pub uninterp spec fn program_address_of(seeds: Seq<Seq<u8>>, program: Seq<u8>) -> Option<Seq<u8>>;

/// Big-endian bytes of a chain id.
pub open spec fn be16(x: u16) -> Seq<u8> {
    seq![(x / 256) as u8, (x % 256) as u8]
}

/// Seeds of the registration of an emitter (chain, address).
pub open spec fn endpoint_seeds(chain: u16, emitter: Seq<u8>) -> Seq<Seq<u8>> {
    seq![seq![ROLE_ENDPOINT], be16(chain), emitter]
}

/// Seeds of the custody account of a native mint.
pub open spec fn custody_seeds(mint: Seq<u8>) -> Seq<Seq<u8>> {
    seq![seq![ROLE_CUSTODY], mint]
}

/// Seeds of the signer that owns every custody account.
pub open spec fn custody_signer_seeds() -> Seq<Seq<u8>> {
    seq![seq![ROLE_CUSTODY_SIGNER]]
}

/// Seeds of the authority that mints every wrapped token.
pub open spec fn mint_signer_seeds() -> Seq<Seq<u8>> {
    seq![seq![ROLE_MINT_SIGNER]]
}

/// Seeds of the record of a wrapped mint.
pub open spec fn wrapped_meta_seeds(mint: Seq<u8>) -> Seq<Seq<u8>> {
    seq![seq![ROLE_WRAPPED_META], mint]
}

/// Seeds of the wrapped mint of a foreign token (origin chain, origin address).
pub open spec fn wrapped_mint_seeds(chain: u16, token: Seq<u8>) -> Seq<Seq<u8>> {
    seq![seq![ROLE_WRAPPED_MINT], be16(chain), token]
}

/// Seeds of the bridge's configuration account.
pub open spec fn config_seeds() -> Seq<Seq<u8>> {
    seq![seq![ROLE_CONFIG]]
}

/// The view of an optional address.
pub open spec fn opt_view(a: Option<Address>) -> Option<Seq<u8>> {
    match a {
        Some(x) => Some(x@),
        None => None,
    }
}

/// Relies on solana_program's `Pubkey::try_find_program_address`: the
/// address derived from the seeds under the program's namespace, with the
/// first bump seed that yields one, or `None` where no bump seed does.
#[verifier::external_body]
fn try_find_program_address(seeds: &Vec<Vec<u8>>, program: &Address) -> (r: Option<Address>)
    ensures
        opt_view(r) == program_address_of(seeds.deep_view(), program@),
{
    let s: Vec<&[u8]> = seeds.iter().map(|x| x.as_slice()).collect();
    let p = solana_program::pubkey::Pubkey::new_from_array(*program);
    solana_program::pubkey::Pubkey::try_find_program_address(&s, &p).map(|(k, _)| k.to_bytes())
}

/// Whether two addresses hold the same bytes.
pub fn addr_eq(a: &Address, b: &Address) -> (r: bool)
    ensures
        r == (a@ == b@),
{
    let mut i: usize = 0;
    while i < 32
        invariant
            i <= 32,
            a@.len() == 32,
            b@.len() == 32,
            forall|j: int| 0 <= j < i ==> a@[j] == b@[j],
        decreases 32 - i,
    {
        if a[i] != b[i] {
            return false;
        }
        i = i + 1;
    }
    assert(a@ =~= b@);
    true
}

fn bytes_of(a: &Address) -> (r: Vec<u8>)
    ensures
        r@ == a@,
        r.deep_view() == a@,
{
    let mut v: Vec<u8> = Vec::new();
    let mut i: usize = 0;
    while i < 32
        invariant
            i <= 32,
            a@.len() == 32,
            v@ == a@.subrange(0, i as int),
        decreases 32 - i,
    {
        v.push(a[i]);
        i = i + 1;
        assert(v@ =~= a@.subrange(0, i as int));
    }
    assert(v@ =~= a@);
    assert(v.deep_view() =~= a@);
    v
}

fn tag(role: u8) -> (r: Vec<u8>)
    ensures
        r.deep_view() == seq![role],
{
    let v = vec![role];
    assert(v.deep_view() =~= seq![role]);
    v
}

/// Whether `derived` is an address and `presented` is that address.
pub fn matches_derivation(derived: Option<Address>, presented: &Address) -> (r: bool)
    ensures
        r == (opt_view(derived) == Some(presented@)),
{
    match derived {
        Some(d) => addr_eq(&d, presented),
        None => false,
    }
}

/// Derives the address of a role from its seeds under the program's namespace.
pub fn derive_address(program: &Address, seeds: &Vec<Vec<u8>>) -> (r: Option<Address>)
    ensures
        opt_view(r) == program_address_of(seeds.deep_view(), program@),
{
    try_find_program_address(seeds, program)
}

/// Accepts `presented` exactly when it is the address derived from `seeds`.
pub fn verify_derivation(program: &Address, seeds: &Vec<Vec<u8>>, presented: &Address) -> (r: Result<(), BridgeError>)
    ensures
        r is Ok <==> program_address_of(seeds.deep_view(), program@) == Some(presented@),
        r is Err ==> r == Err::<(), BridgeError>(BridgeError::DerivationMismatch),
{
    if matches_derivation(derive_address(program, seeds), presented) {
        Ok(())
    } else {
        Err(BridgeError::DerivationMismatch)
    }
}

/// The seeds of `endpoint_seeds`, as bytes.
pub fn endpoint_seeds_of(chain: u16, emitter: &Address) -> (r: Vec<Vec<u8>>)
    ensures
        r.deep_view() == endpoint_seeds(chain, emitter@),
{
    let c = vec![(chain / 256) as u8, (chain % 256) as u8];
    assert(c.deep_view() =~= be16(chain));
    let v = vec![tag(ROLE_ENDPOINT), c, bytes_of(emitter)];
    assert(v.deep_view() =~= endpoint_seeds(chain, emitter@));
    v
}

/// The seeds of `custody_seeds`, as bytes.
pub fn custody_seeds_of(mint: &Address) -> (r: Vec<Vec<u8>>)
    ensures
        r.deep_view() == custody_seeds(mint@),
{
    let v = vec![tag(ROLE_CUSTODY), bytes_of(mint)];
    assert(v.deep_view() =~= custody_seeds(mint@));
    v
}

/// The seeds of `custody_signer_seeds`, as bytes.
pub fn custody_signer_seeds_of() -> (r: Vec<Vec<u8>>)
    ensures
        r.deep_view() == custody_signer_seeds(),
{
    let v = vec![tag(ROLE_CUSTODY_SIGNER)];
    assert(v.deep_view() =~= custody_signer_seeds());
    v
}

/// The seeds of `config_seeds`, as bytes.
pub fn config_seeds_of() -> (r: Vec<Vec<u8>>)
    ensures
        r.deep_view() == config_seeds(),
{
    let v = vec![tag(ROLE_CONFIG)];
    assert(v.deep_view() =~= config_seeds());
    v
}

/// The seeds of `mint_signer_seeds`, as bytes.
pub fn mint_signer_seeds_of() -> (r: Vec<Vec<u8>>)
    ensures
        r.deep_view() == mint_signer_seeds(),
{
    let v = vec![tag(ROLE_MINT_SIGNER)];
    assert(v.deep_view() =~= mint_signer_seeds());
    v
}

/// The seeds of `wrapped_meta_seeds`, as bytes.
pub fn wrapped_meta_seeds_of(mint: &Address) -> (r: Vec<Vec<u8>>)
    ensures
        r.deep_view() == wrapped_meta_seeds(mint@),
{
    let v = vec![tag(ROLE_WRAPPED_META), bytes_of(mint)];
    assert(v.deep_view() =~= wrapped_meta_seeds(mint@));
    v
}

/// The seeds of `wrapped_mint_seeds`, as bytes.
pub fn wrapped_mint_seeds_of(chain: u16, token: &Address) -> (r: Vec<Vec<u8>>)
    ensures
        r.deep_view() == wrapped_mint_seeds(chain, token@),
{
    let c = vec![(chain / 256) as u8, (chain % 256) as u8];
    assert(c.deep_view() =~= be16(chain));
    let v = vec![tag(ROLE_WRAPPED_MINT), c, bytes_of(token)];
    assert(v.deep_view() =~= wrapped_mint_seeds(chain, token@));
    v
}

proof fn lemma_flatten_first(s: Seq<Seq<u8>>)
    requires
        s.len() > 0,
        s[0].len() > 0,
    ensures
        s.flatten().len() > 0,
        s.flatten()[0] == s[0][0],
{
    assert(s.flatten() == s.first() + s.drop_first().flatten());
}

/// The byte string a seed list is hashed as: its seeds one after another.
pub open spec fn seed_bytes(seeds: Seq<Seq<u8>>) -> Seq<u8> {
    seeds.flatten()
}

/// The bytes hashed for a role start with that role's tag, so the bytes
/// hashed for two different roles always differ, whatever the other seeds
/// hold.
pub proof fn lemma_roles_disjoint(chain: u16, emitter: Seq<u8>, token: Seq<u8>, mint: Seq<u8>)
    ensures
        seed_bytes(endpoint_seeds(chain, emitter))[0] == ROLE_ENDPOINT,
        seed_bytes(custody_seeds(mint))[0] == ROLE_CUSTODY,
        seed_bytes(custody_signer_seeds())[0] == ROLE_CUSTODY_SIGNER,
        seed_bytes(mint_signer_seeds())[0] == ROLE_MINT_SIGNER,
        seed_bytes(wrapped_meta_seeds(mint))[0] == ROLE_WRAPPED_META,
        seed_bytes(wrapped_mint_seeds(chain, token))[0] == ROLE_WRAPPED_MINT,
        seed_bytes(config_seeds())[0] == ROLE_CONFIG,
        seed_bytes(endpoint_seeds(chain, emitter)) != seed_bytes(custody_seeds(mint)),
        seed_bytes(endpoint_seeds(chain, emitter)) != seed_bytes(wrapped_meta_seeds(mint)),
        seed_bytes(endpoint_seeds(chain, emitter)) != seed_bytes(wrapped_mint_seeds(chain, token)),
        seed_bytes(custody_seeds(mint)) != seed_bytes(wrapped_meta_seeds(mint)),
        seed_bytes(custody_seeds(mint)) != seed_bytes(wrapped_mint_seeds(chain, token)),
        seed_bytes(wrapped_meta_seeds(mint)) != seed_bytes(wrapped_mint_seeds(chain, token)),
        seed_bytes(custody_signer_seeds()) != seed_bytes(mint_signer_seeds()),
        seed_bytes(custody_seeds(mint)) != seed_bytes(custody_signer_seeds()),
        seed_bytes(wrapped_meta_seeds(mint)) != seed_bytes(mint_signer_seeds()),
        seed_bytes(config_seeds()) != seed_bytes(custody_signer_seeds()),
        seed_bytes(config_seeds()) != seed_bytes(mint_signer_seeds()),
{
    lemma_flatten_first(endpoint_seeds(chain, emitter));
    lemma_flatten_first(custody_seeds(mint));
    lemma_flatten_first(custody_signer_seeds());
    lemma_flatten_first(mint_signer_seeds());
    lemma_flatten_first(wrapped_meta_seeds(mint));
    lemma_flatten_first(wrapped_mint_seeds(chain, token));
    lemma_flatten_first(config_seeds());
}

} // verus!
