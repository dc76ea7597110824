//! The authenticated Diffie-Hellman exchange over NIST P-256.
//!
//! A role's ephemeral keypair holds the secret scalar (big-endian, as the
//! curve library emits it) and the public point already in SGX wire form
//! (X || Y, each half little-endian). A keypair is one-shot: the role
//! contexts hold it in an `Option` and take it out on first use.

use vstd::prelude::*;
use crate::RaError;
use crate::bytes::spec_rev;
use crate::crypto::{
    p256_pub_of, p256_scalar_valid, p256_point_valid, p256_shared_x, p256_keygen, p256_ecdh,
};
use crate::kdf::{spec_swap64, swap_halves_64};

verus! {

/// An ephemeral DH keypair: secret scalar and wire-form public point.
pub struct DhKeyPair {
    pub priv_key: Vec<u8>,
    pub pub_wire: Vec<u8>,
}

/// Field widths of a DH keypair.
pub open spec fn wf_key_pair(k: DhKeyPair) -> bool {
    k.priv_key@.len() == 32 && k.pub_wire@.len() == 64
}

/// Generate an ephemeral keypair. The public point is the scalar's, in
/// wire form; the scalar is fresh randomness and nothing more is known of
/// it.
pub fn gen_key_pair() -> (r: DhKeyPair)
    ensures
        wf_key_pair(r),
        p256_scalar_valid(r.priv_key@),
        r.pub_wire@ == spec_swap64(p256_pub_of(r.priv_key@)),
{
    let (priv_key, pub_be) = p256_keygen();
    let pub_wire = swap_halves_64(&pub_be);
    DhKeyPair { priv_key, pub_wire }
}

/// The little-endian shared secret a role computes from its scalar and the
/// peer's wire-form public point: the reversed X coordinate of the
/// Diffie-Hellman product.
pub open spec fn spec_shared_le(priv_key: Seq<u8>, peer_wire: Seq<u8>) -> Seq<u8> {
    spec_rev(p256_shared_x(priv_key, spec_swap64(peer_wire)))
}

/// Compute the little-endian shared secret from an own scalar and a peer
/// public point in wire form. Fails with `CryptoError` exactly when the
/// curve library rejects the scalar or the point encoding.
pub fn dh_shared_le(priv_key: &Vec<u8>, peer_wire: &Vec<u8>) -> (r: Result<Vec<u8>, RaError>)
    requires
        priv_key@.len() == 32,
        peer_wire@.len() == 64,
    ensures
        (r is Ok) == (p256_scalar_valid(priv_key@)
            && p256_point_valid(spec_swap64(peer_wire@))),
        r is Ok ==> r->Ok_0@ == spec_shared_le(priv_key@, peer_wire@)
            && r->Ok_0@.len() == 32,
        r is Err ==> r->Err_0 == RaError::CryptoError,
{
    let peer_be = swap_halves_64(peer_wire);
    match p256_ecdh(priv_key, &peer_be) {
        Ok(x_be) => {
            let shared = crate::bytes::rev_bytes(&x_be);
            Ok(shared)
        },
        Err(e) => Err(e),
    }
}

} // verus!
