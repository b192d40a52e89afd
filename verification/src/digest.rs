//! Pluggable hashing strategies.
//!
//! A cache owns one strategy instance and uses it for nothing but turning a
//! key into a 64-bit digest. The strategy is a capability: callers may supply
//! their own implementation, as long as the digest of a key is a pure
//! function of the strategy instance and the key.

use vstd::prelude::*;

verus! {

/// A hashing strategy: produces a 64-bit digest from a key.
///
/// `digest_spec` is the mathematical account of the strategy; `digest` is the
/// executable side and must return exactly what `digest_spec` says. Because
/// the digest depends on nothing but the strategy instance and the key,
/// repeated calls on the same instance and key agree.
pub trait BuildDigest<K>: Sized {
    /// The digest of `k`, as a function of the strategy instance and the key.
    spec fn digest_spec(&self, k: K) -> u64;

    /// Computes the digest of `k`.
    fn digest(&self, k: &K) -> (d: u64)
        ensures
            d == self.digest_spec(*k),
    ;
}

/// The 64-bit finalizer-style mixing step behind [`MixDigest`].
pub open spec fn spec_mix64(x: u64) -> u64 {
    let a: u64 = (x ^ (x >> 33)).wrapping_mul(0xff51afd7ed558ccdu64);
    let b: u64 = (a ^ (a >> 33)).wrapping_mul(0xc4ceb9fe1a85ec53u64);
    b ^ (b >> 33)
}

/// The default hashing strategy for `u64` keys: a stateless 64-bit mixer
/// (the finalization rounds of a MurmurHash3-style hash), so that nearby
/// keys spread over distant slots.
#[derive(Clone, Copy, Debug)]
pub struct MixDigest;

impl Default for MixDigest {
    fn default() -> (r: Self)
        ensures
            r == MixDigest,
    {
        MixDigest
    }
}

impl BuildDigest<u64> for MixDigest {
    open spec fn digest_spec(&self, k: u64) -> u64 {
        spec_mix64(k)
    }

    fn digest(&self, k: &u64) -> (d: u64)
        ensures
            d == self.digest_spec(*k),
    {
        let x: u64 = *k;
        let a: u64 = (x ^ (x >> 33)).wrapping_mul(0xff51afd7ed558ccdu64);
        let b: u64 = (a ^ (a >> 33)).wrapping_mul(0xc4ceb9fe1a85ec53u64);
        b ^ (b >> 33)
    }
}

/// A transparent strategy for `u64` keys: the digest is the key itself.
///
/// With it, which keys collide is plain arithmetic (`k % capacity`), which
/// makes collision behavior reproducible.
#[derive(Clone, Copy, Debug)]
pub struct IdentityDigest;

impl Default for IdentityDigest {
    fn default() -> (r: Self)
        ensures
            r == IdentityDigest,
    {
        IdentityDigest
    }
}

impl BuildDigest<u64> for IdentityDigest {
    open spec fn digest_spec(&self, k: u64) -> u64 {
        k
    }

    fn digest(&self, k: &u64) -> (d: u64)
        ensures
            d == self.digest_spec(*k),
    {
        *k
    }
}

} // verus!
