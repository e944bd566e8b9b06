//! Deterministic address derivation.
//!
//! An address is computed from a domain tag, the seed material, and a
//! one-byte disambiguator by folding the three words through an FNV-1a
//! style multiplicative mix. Finding a disambiguator is a bounded search
//! downward from 255; re-deriving with a cached disambiguator is a single
//! direct computation.

use vstd::prelude::*;

verus! {

use crate::errors::VaultError;

/// The two fixed domain tags, one per derived sub-account.
#[derive(Clone, Copy, PartialEq, Eq, Structural, Debug)]
pub enum DomainTag {
    /// Seeds the ledger record's own address from the owner identity.
    State,
    /// Seeds the holding account's address from the state address.
    Vault,
}

/// FNV-1a 64-bit offset basis.
pub const FNV_OFFSET_BASIS: u64 = 0xcbf2_9ce4_8422_2325;

/// FNV-1a 64-bit prime.
pub const FNV_PRIME: u64 = 0x100_0000_01b3;

/// The word each domain tag contributes to the mix: the tag's ASCII
/// bytes, packed big-endian into one integer.
pub open spec fn tag_code(tag: DomainTag) -> u64 {
    match tag {
        DomainTag::State => 0x73_7461_7465,
        DomainTag::Vault => 0x76_6175_6c74,
    }
}

/// One mixing round: xor the next word in, multiply by the FNV prime,
/// keep the low 64 bits.
pub open spec fn mix(h: u64, w: u64) -> u64 {
    (((h ^ w) * FNV_PRIME) % 0x1_0000_0000_0000_0000) as u64
}

/// The address derived from a tag, a seed and one disambiguator byte.
pub open spec fn spec_derive_at(tag: DomainTag, seed: u64, bump: u8) -> u64 {
    mix(mix(mix(FNV_OFFSET_BASIS, tag_code(tag)), seed), bump as u64)
}

/// A derived address is validly formed when it is nonzero; zero is the
/// reserved "no account" address.
pub open spec fn valid_address(addr: u64) -> bool {
    addr != 0
}

/// The disambiguator the search settles on: the largest byte at or below
/// `bump` whose derived address is validly formed, if any.
pub open spec fn search_from(tag: DomainTag, seed: u64, bump: int) -> Option<u8>
    decreases bump + 1,
{
    if bump < 0 {
        None
    } else if valid_address(spec_derive_at(tag, seed, bump as u8)) {
        Some(bump as u8)
    } else {
        search_from(tag, seed, bump - 1)
    }
}

/// What `derive` returns: the first validly formed address found while
/// searching disambiguators downward from 255, or exhaustion.
pub open spec fn spec_derive(tag: DomainTag, seed: u64) -> Result<(u64, u8), VaultError> {
    match search_from(tag, seed, 255) {
        Some(bump) => Ok((spec_derive_at(tag, seed, bump), bump)),
        None => Err(VaultError::DerivationExhausted),
    }
}

/// One mixing round, executable form.
pub fn mix_word(h: u64, w: u64) -> (r: u64)
    ensures
        r == mix(h, w),
{
    let x: u128 = (h ^ w) as u128;
    proof {
        assert(x * (FNV_PRIME as u128) <= 0xffff_ffff_ffff_ffff * 0x100_0000_01b3)
            by (nonlinear_arith)
            requires
                x <= 0xffff_ffff_ffff_ffff,
        ;
    }
    let wide: u128 = x * (FNV_PRIME as u128);
    (wide % 0x1_0000_0000_0000_0000u128) as u64
}

/// Re-derive an address from a cached disambiguator: a single direct
/// computation, no search.
pub fn derive_at(tag: DomainTag, seed: u64, bump: u8) -> (addr: u64)
    ensures
        addr == spec_derive_at(tag, seed, bump),
{
    let code: u64 = match tag {
        DomainTag::State => 0x73_7461_7465,
        DomainTag::Vault => 0x76_6175_6c74,
    };
    mix_word(mix_word(mix_word(FNV_OFFSET_BASIS, code), seed), bump as u64)
}

/// Derive an address afresh: search the disambiguator range downward from
/// 255 for the first validly formed address, and return it together with
/// the byte that produced it, for caching. Reports `DerivationExhausted`
/// when no byte in the range works.
pub fn derive(tag: DomainTag, seed: u64) -> (r: Result<(u64, u8), VaultError>)
    ensures
        r == spec_derive(tag, seed),
{
    let mut tried: u16 = 0;
    while tried < 256
        invariant
            tried <= 256,
            search_from(tag, seed, 255) == search_from(tag, seed, 255 - tried),
        decreases 256 - tried,
    {
        let bump: u8 = (255 - tried) as u8;
        let addr: u64 = derive_at(tag, seed, bump);
        if addr != 0 {
            proof {
                assert(search_from(tag, seed, 255 - tried) == Some(bump));
            }
            return Ok((addr, bump));
        }
        proof {
            assert(search_from(tag, seed, 255 - tried) == search_from(tag, seed, 255 - tried - 1));
        }
        tried = tried + 1;
    }
    proof {
        assert(search_from(tag, seed, -1) is None);
    }
    Err(VaultError::DerivationExhausted)
}

/// Law: derivation is deterministic. Two calls of `derive` on the same
/// tag and seed return the same address and the same disambiguator,
/// because each returns exactly `spec_derive` of its inputs.
pub proof fn lemma_derive_deterministic(
    tag: DomainTag,
    seed: u64,
    r1: Result<(u64, u8), VaultError>,
    r2: Result<(u64, u8), VaultError>,
)
    requires
        r1 == spec_derive(tag, seed),
        r2 == spec_derive(tag, seed),
    ensures
        r1 == r2,
{
}

} // verus!
