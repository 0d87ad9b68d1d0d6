use vstd::prelude::*;

use crate::bytes::{copy_bytes, copy_range};

verus! {

/// The number of bytes in a storage address.
pub const ADDRESS_BYTES: usize = 32;

/// The longest seed the derivation function accepts, in bytes.
pub const MAX_SEED_BYTES: usize = 32;

/// What the collision-resistant derivation function yields for a given
/// concatenation of seed bytes and a given module identity: an off-curve
/// 32-byte address together with its disambiguation byte (the bump), or
/// nothing in the statistically improbable event that no bump works.
pub uninterp spec fn pda_of(data: Seq<u8>, module_id: Seq<u8>) -> Option<(Seq<u8>, u8)>;

/// The flattened bytes of a list of seeds, in order.
pub open spec fn seed_cat(seeds: Seq<Seq<u8>>) -> Seq<u8>
    decreases seeds.len(),
{
    if seeds.len() == 0 {
        Seq::empty()
    } else {
        seed_cat(seeds.drop_last()) + seeds.last()
    }
}

/// The views of a list of byte vectors.
pub open spec fn seeds_view(seeds: Seq<Vec<u8>>) -> Seq<Seq<u8>> {
    seeds.map_values(|v: Vec<u8>| v@)
}

/// What address derivation yields for a record: the namespace tag, the raw
/// title bytes and the raw owner bytes, concatenated in that order, reduced
/// under the module identity.
pub open spec fn derive_spec(ns: Seq<u8>, title: Seq<u8>, owner: Seq<u8>, module_id: Seq<u8>) -> Option<(Seq<u8>, u8)> {
    pda_of(ns + title + owner, module_id)
}

/// The address part of a successful derivation.
pub open spec fn derived_addr(ns: Seq<u8>, title: Seq<u8>, owner: Seq<u8>, module_id: Seq<u8>) -> Seq<u8> {
    derive_spec(ns, title, owner, module_id)->Some_0.0
}

/// Relies on `Pubkey::try_find_program_address` (solana-address, re-exported
/// through anchor-lang): with at most 15 seeds of at most 32 bytes each, it
/// hashes the seed bytes in order, followed by a bump byte, the module
/// identity and a fixed domain tag, retrying bumps until the digest leaves
/// the identity-key curve; the outcome is therefore a function of the
/// concatenated seed bytes and the module identity alone, and a returned
/// address is 32 bytes. It returns `None` only if no bump yields an
/// off-curve digest.
#[verifier::external_body]
fn find_pda(seeds: &Vec<Vec<u8>>, module_id: &Vec<u8>) -> (r: Option<(Vec<u8>, u8)>)
    requires
        module_id@.len() == ADDRESS_BYTES,
        seeds@.len() <= 15,
        forall|i: int| 0 <= i < seeds@.len() ==> (#[trigger] seeds@[i])@.len() <= MAX_SEED_BYTES,
    ensures
        match (r, pda_of(seed_cat(seeds_view(seeds@)), module_id@)) {
            (Some(found), Some(spec_found)) => found.0@ == spec_found.0 && found.1 == spec_found.1
                && found.0@.len() == ADDRESS_BYTES,
            (None, None) => true,
            _ => false,
        },
{
    let seed_slices: Vec<&[u8]> = seeds.iter().map(|s| s.as_slice()).collect();
    let module = anchor_lang::prelude::Pubkey::new_from_array(
        module_id.as_slice().try_into().unwrap(),
    );
    anchor_lang::prelude::Pubkey::try_find_program_address(&seed_slices, &module).map(
        |(address, bump)| (address.to_bytes().to_vec(), bump),
    )
}

/// A derived storage address and the bump that disambiguates it.
pub struct DerivedAddress {
    /// 32 bytes, distinct from any identity key.
    pub address: Vec<u8>,
    /// The disambiguation byte the derivation settled on.
    pub bump: u8,
}

/// Derives the storage address of the record filed under `title` by `owner`,
/// within the namespace `ns` of the module `module_id`. Deterministic: the
/// same inputs always yield the same address. Callable by any party; no
/// secret material is involved.
pub fn derive(ns: &Vec<u8>, title: &Vec<u8>, owner: &Vec<u8>, module_id: &Vec<u8>) -> (r: Option<
    DerivedAddress,
>)
    requires
        1 <= ns@.len() <= MAX_SEED_BYTES,
        title@.len() <= 50,
        owner@.len() == ADDRESS_BYTES,
        module_id@.len() == ADDRESS_BYTES,
    ensures
        match r {
            Some(d) => derive_spec(ns@, title@, owner@, module_id@) == Some((d.address@, d.bump))
                && d.address@.len() == ADDRESS_BYTES,
            None => derive_spec(ns@, title@, owner@, module_id@) is None,
        },
{
    let mut seeds: Vec<Vec<u8>> = Vec::new();
    seeds.push(copy_bytes(ns));
    if title.len() <= MAX_SEED_BYTES {
        seeds.push(copy_bytes(title));
    } else {
        seeds.push(copy_range(title, 0, MAX_SEED_BYTES));
        seeds.push(copy_range(title, MAX_SEED_BYTES, title.len()));
    }
    seeds.push(copy_bytes(owner));
    proof {
        assert(seed_cat(seeds_view(seeds@)) =~= ns@ + title@ + owner@) by {
            lemma_seed_cat_concrete(seeds@);
            if title@.len() > MAX_SEED_BYTES {
                assert(title@.subrange(0, MAX_SEED_BYTES as int) + title@.subrange(
                    MAX_SEED_BYTES as int,
                    title@.len() as int,
                ) =~= title@);
            }
        }
    }
    match find_pda(&seeds, module_id) {
        Some(found) => Some(DerivedAddress { address: found.0, bump: found.1 }),
        None => None,
    }
}

/// Unfolds `seed_cat` for the short seed lists `derive` builds.
proof fn lemma_seed_cat_concrete(seeds: Seq<Vec<u8>>)
    requires
        3 <= seeds.len() <= 4,
    ensures
        seeds.len() == 3 ==> seed_cat(seeds_view(seeds)) == seeds[0]@ + seeds[1]@ + seeds[2]@,
        seeds.len() == 4 ==> seed_cat(seeds_view(seeds)) == seeds[0]@ + seeds[1]@ + seeds[2]@
            + seeds[3]@,
{
    let v = seeds_view(seeds);
    assert(v.len() == seeds.len());
    if seeds.len() == 3 {
        assert(seed_cat(v.drop_last().drop_last().drop_last()) == Seq::<u8>::empty());
        assert(seed_cat(v.drop_last().drop_last()) == Seq::<u8>::empty() + v[0]);
        assert(seed_cat(v.drop_last()) == (Seq::<u8>::empty() + v[0]) + v[1]);
        assert(seed_cat(v) == ((Seq::<u8>::empty() + v[0]) + v[1]) + v[2]);
        assert(((Seq::<u8>::empty() + v[0]) + v[1]) + v[2] =~= seeds[0]@ + seeds[1]@ + seeds[2]@);
    } else {
        assert(seed_cat(v.drop_last().drop_last().drop_last().drop_last()) == Seq::<u8>::empty());
        assert(seed_cat(v.drop_last().drop_last().drop_last()) == Seq::<u8>::empty() + v[0]);
        assert(seed_cat(v.drop_last().drop_last()) == (Seq::<u8>::empty() + v[0]) + v[1]);
        assert(seed_cat(v.drop_last()) == ((Seq::<u8>::empty() + v[0]) + v[1]) + v[2]);
        assert(seed_cat(v) == (((Seq::<u8>::empty() + v[0]) + v[1]) + v[2]) + v[3]);
        assert((((Seq::<u8>::empty() + v[0]) + v[1]) + v[2]) + v[3] =~= seeds[0]@ + seeds[1]@
            + seeds[2]@ + seeds[3]@);
    }
}

} // verus!
