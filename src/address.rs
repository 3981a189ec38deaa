use anchor_lang::prelude::Pubkey;
use vstd::prelude::*;
use vstd::slice::slice_to_vec;

verus! {

/// A 32-byte account identity: a wallet, a mint, a program or a derived
/// storage address.
#[derive(Clone, Copy, Debug, Eq)]
pub struct Address {
    pub bytes: [u8; 32],
}

impl PartialEq for Address {
    fn eq(&self, o: &Address) -> (r: bool) {
        let mut i: usize = 0;
        while i < 32
            invariant
                i <= 32,
                forall|j: int| 0 <= j < i ==> self.bytes[j] == o.bytes[j],
            decreases 32 - i,
        {
            if self.bytes[i] != o.bytes[i] {
                return false;
            }
            i = i + 1;
        }
        assert(self.bytes =~= o.bytes);
        true
    }
}

impl vstd::std_specs::cmp::PartialEqSpecImpl for Address {
    open spec fn obeys_eq_spec() -> bool {
        true
    }

    open spec fn eq_spec(&self, o: &Address) -> bool {
        self.bytes == o.bytes
    }
}

/// The program-derived address of `seeds` under the program `program_id`,
/// with its bump seed, or `None` where none can be derived.
pub uninterp spec fn program_address_of(seeds: Seq<Seq<u8>>, program_id: Seq<u8>) -> Option<(Seq<u8>, u8)>;

/// The bytes of each seed.
pub open spec fn seeds_view(seeds: Seq<Vec<u8>>) -> Seq<Seq<u8>> {
    seeds.map_values(|s: Vec<u8>| s@)
}

/// What a derivation hands back, as bytes.
pub open spec fn derived_view(r: Option<(Address, u8)>) -> Option<(Seq<u8>, u8)> {
    match r {
        Some((a, bump)) => Some((a.bytes@, bump)),
        None => None,
    }
}

/// Relies on `Pubkey::try_find_program_address`: the first bump seed, from
/// 255 down, for which the seeds, the bump and the program id hash to a
/// point off the curve, with that address; `None` where the seeds break its
/// bounds or no bump works. The result depends on the arguments alone.
#[verifier::external_body]
fn find_program_address(seeds: &Vec<Vec<u8>>, program_id: &Address) -> (r: Option<(Address, u8)>)
    ensures
        derived_view(r) == program_address_of(seeds_view(seeds@), program_id.bytes@),
{
    let seed_refs: Vec<&[u8]> = seeds.iter().map(|s| s.as_slice()).collect();
    Pubkey::try_find_program_address(&seed_refs, &Pubkey::new_from_array(program_id.bytes)).map(
        |(key, bump)| (Address { bytes: key.to_bytes() }, bump),
    )
}

/// The namespace of the marketplace ledger: the ASCII bytes of `marketplace`.
pub open spec fn marketplace_tag() -> Seq<u8> {
    seq![109u8, 97, 114, 107, 101, 116, 112, 108, 97, 99, 101]
}

/// The namespace of publishers' collections: the ASCII bytes of `game`.
pub open spec fn game_tag() -> Seq<u8> {
    seq![103u8, 97, 109, 101]
}

/// The namespace of listings: the ASCII bytes of `listing`.
pub open spec fn listing_tag() -> Seq<u8> {
    seq![108u8, 105, 115, 116, 105, 110, 103]
}

/// The seeds of the one marketplace ledger.
pub open spec fn marketplace_seeds() -> Seq<Seq<u8>> {
    seq![marketplace_tag()]
}

/// The seeds of the collection of the publisher `authority`.
pub open spec fn game_seeds(authority: Address) -> Seq<Seq<u8>> {
    seq![game_tag(), authority.bytes@]
}

/// The seeds of the listing of the asset `nft_mint`.
pub open spec fn listing_seeds(nft_mint: Address) -> Seq<Seq<u8>> {
    seq![listing_tag(), nft_mint.bytes@]
}

fn key_seed(key: &Address) -> (r: Vec<u8>)
    ensures
        r@ == key.bytes@,
{
    slice_to_vec(key.bytes.as_slice())
}

/// The address of the marketplace ledger of `program_id`, with its bump.
pub fn marketplace_address(program_id: &Address) -> (r: Option<(Address, u8)>)
    ensures
        derived_view(r) == program_address_of(marketplace_seeds(), program_id.bytes@),
{
    let tag: Vec<u8> = vec![109u8, 97, 114, 107, 101, 116, 112, 108, 97, 99, 101];
    let seeds: Vec<Vec<u8>> = vec![tag];
    assert(seeds_view(seeds@) =~= marketplace_seeds());
    find_program_address(&seeds, program_id)
}

/// The address of the collection of the publisher `authority`, with its bump.
pub fn game_address(program_id: &Address, authority: &Address) -> (r: Option<(Address, u8)>)
    ensures
        derived_view(r) == program_address_of(game_seeds(*authority), program_id.bytes@),
{
    let tag: Vec<u8> = vec![103u8, 97, 109, 101];
    let seeds: Vec<Vec<u8>> = vec![tag, key_seed(authority)];
    assert(seeds_view(seeds@) =~= game_seeds(*authority));
    find_program_address(&seeds, program_id)
}

/// The address of the listing of the asset `nft_mint`, with its bump.
pub fn listing_address(program_id: &Address, nft_mint: &Address) -> (r: Option<(Address, u8)>)
    ensures
        derived_view(r) == program_address_of(listing_seeds(*nft_mint), program_id.bytes@),
{
    let tag: Vec<u8> = vec![108u8, 105, 115, 116, 105, 110, 103];
    let seeds: Vec<Vec<u8>> = vec![tag, key_seed(nft_mint)];
    assert(seeds_view(seeds@) =~= listing_seeds(*nft_mint));
    find_program_address(&seeds, program_id)
}

/// The seeds are separated by namespace and determined by their key: no two
/// distinct records (the ledger, a collection, a listing, for any keys) ask
/// for the same seeds, so their addresses can only meet where the derivation
/// itself collides.
pub proof fn lemma_seeds_distinct(a: Address, b: Address)
    ensures
        marketplace_seeds() != game_seeds(a),
        marketplace_seeds() != listing_seeds(a),
        game_seeds(a) != listing_seeds(b),
        game_seeds(a) == game_seeds(b) ==> a == b,
        listing_seeds(a) == listing_seeds(b) ==> a == b,
{
    assert(marketplace_seeds().len() != game_seeds(a).len());
    assert(marketplace_seeds().len() != listing_seeds(a).len());
    assert(game_seeds(a)[0].len() != listing_seeds(b)[0].len());
    if game_seeds(a) == game_seeds(b) {
        assert(game_seeds(a)[1] == game_seeds(b)[1]);
        assert(a.bytes =~= b.bytes);
    }
    if listing_seeds(a) == listing_seeds(b) {
        assert(listing_seeds(a)[1] == listing_seeds(b)[1]);
        assert(a.bytes =~= b.bytes);
    }
}

} // verus!
