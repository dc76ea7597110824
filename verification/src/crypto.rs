//! The trusted boundary to the cryptographic primitives.
//!
//! Every function here is an `external_body` wrapper around one outside
//! call; Verus believes the stated contract and reads nothing else. Results
//! that are functions of the arguments alone (a digest, a MAC, a curve
//! point, a deterministic signature) are given uninterpreted names, and the
//! verified protocol logic is proved against those names. Key generation is
//! random, so nothing is claimed of which key comes out, only of the pair's
//! consistency.
//!
//! Byte-order convention of this module: scalars, coordinates and
//! signature halves are big-endian, as the curve library emits them. The
//! little-endian SGX wire forms are produced by verified conversions
//! elsewhere.

use vstd::prelude::*;
use crate::RaError;
use sha2::Digest;
use cmac::Mac;
use p256::elliptic_curve::sec1::ToEncodedPoint;
use p256::ecdsa::signature::Signer;
use p256::ecdsa::signature::Verifier;

verus! {

/// The SHA-256 digest (32 bytes) of a byte string.
pub uninterp spec fn sha256_of(data: Seq<u8>) -> Seq<u8>;

/// The AES-128-CMAC tag (16 bytes) of a byte string under a 16-byte key.
pub uninterp spec fn cmac_of(key: Seq<u8>, data: Seq<u8>) -> Seq<u8>;

/// The uncompressed NIST P-256 public point (X || Y, 64 bytes big-endian)
/// of a 32-byte big-endian secret scalar.
pub uninterp spec fn p256_pub_of(sk: Seq<u8>) -> Seq<u8>;

/// Whether 32 big-endian bytes are a valid P-256 secret scalar
/// (nonzero and below the group order).
pub uninterp spec fn p256_scalar_valid(sk: Seq<u8>) -> bool;

/// Whether 64 bytes (X || Y, big-endian) encode a point on P-256.
pub uninterp spec fn p256_point_valid(p: Seq<u8>) -> bool;

/// The X coordinate (32 bytes big-endian) of the Diffie-Hellman product of
/// a secret scalar and a peer public point.
pub uninterp spec fn p256_shared_x(sk: Seq<u8>, peer: Seq<u8>) -> Seq<u8>;

/// The deterministic (RFC 6979) ECDSA-P256 signature (r || s, 64 bytes
/// big-endian) of a message under a secret scalar.
pub uninterp spec fn p256_sig_of(sk: Seq<u8>, msg: Seq<u8>) -> Seq<u8>;

/// Whether the curve library accepts `sig` (r || s, 64 bytes big-endian) as
/// an ECDSA-P256 signature of `msg` under the public point `pk`.
pub uninterp spec fn p256_sig_ok(pk: Seq<u8>, msg: Seq<u8>, sig: Seq<u8>) -> bool;

/// Relies on sha2::Sha256: a 32-byte digest depending on the input alone.
#[verifier::external_body]
pub fn sha256(data: &Vec<u8>) -> (r: Vec<u8>)
    ensures
        r@ == sha256_of(data@),
        r@.len() == 32,
{
    let mut h = sha2::Sha256::new();
    h.update(data.as_slice());
    h.finalize().to_vec()
}

/// Relies on cmac::Cmac over aes::Aes128: a 16-byte tag depending on the
/// key and the input alone. `new_from_slice` accepts exactly 16-byte keys.
#[verifier::external_body]
pub fn cmac128(key: &Vec<u8>, data: &Vec<u8>) -> (r: Vec<u8>)
    requires
        key@.len() == 16,
    ensures
        r@ == cmac_of(key@, data@),
        r@.len() == 16,
{
    let mut m = <cmac::Cmac<aes::Aes128> as cmac::Mac>::new_from_slice(key.as_slice()).unwrap();
    m.update(data.as_slice());
    m.finalize().into_bytes().to_vec()
}

/// Relies on p256::SecretKey::random and its public key: the pair is
/// consistent (the point is the scalar's), the scalar valid; which scalar
/// comes out is random and nothing is claimed of it.
#[verifier::external_body]
pub fn p256_keygen() -> (r: (Vec<u8>, Vec<u8>))
    ensures
        r.0@.len() == 32,
        r.1@.len() == 64,
        p256_scalar_valid(r.0@),
        r.1@ == p256_pub_of(r.0@),
        p256_point_valid(r.1@),
{
    let sk = p256::SecretKey::random(&mut rand_core::OsRng);
    let pk = sk.public_key().to_encoded_point(false);
    let sk_bytes = sk.to_bytes().to_vec();
    let pk_bytes = pk.as_bytes()[1..].to_vec();
    (sk_bytes, pk_bytes)
}

/// Relies on p256::ecdh::diffie_hellman: the scalar product's X coordinate,
/// a function of the scalar and the point alone. Fails exactly when the
/// scalar or the point encoding is rejected by the curve library.
#[verifier::external_body]
pub fn p256_ecdh(sk: &Vec<u8>, peer: &Vec<u8>) -> (r: Result<Vec<u8>, RaError>)
    requires
        sk@.len() == 32,
        peer@.len() == 64,
    ensures
        (r is Ok) == (p256_scalar_valid(sk@) && p256_point_valid(peer@)),
        r is Ok ==> r->Ok_0@ == p256_shared_x(sk@, peer@) && r->Ok_0@.len() == 32,
        r is Err ==> r->Err_0 == RaError::CryptoError,
{
    let secret = p256::SecretKey::from_bytes(sk.as_slice().into())
        .map_err(|_| RaError::CryptoError)?;
    let mut enc = [4u8; 65];
    enc[1..].copy_from_slice(peer.as_slice());
    let point = p256::PublicKey::from_sec1_bytes(&enc).map_err(|_| RaError::CryptoError)?;
    let shared = p256::ecdh::diffie_hellman(secret.to_nonzero_scalar(), point.as_affine());
    Ok(shared.raw_secret_bytes().to_vec())
}

/// Relies on p256::ecdsa::SigningKey::sign: a deterministic (RFC 6979)
/// signature, a function of the scalar and the message alone, which the
/// library's own verifier accepts under the matching public point. Fails
/// exactly when the scalar is rejected.
#[verifier::external_body]
pub fn p256_sign(sk: &Vec<u8>, msg: &Vec<u8>) -> (r: Result<Vec<u8>, RaError>)
    requires
        sk@.len() == 32,
    ensures
        (r is Ok) == p256_scalar_valid(sk@),
        r is Ok ==> r->Ok_0@ == p256_sig_of(sk@, msg@) && r->Ok_0@.len() == 64,
        r is Ok ==> p256_sig_ok(p256_pub_of(sk@), msg@, r->Ok_0@),
        r is Err ==> r->Err_0 == RaError::CryptoError,
{
    let key = p256::ecdsa::SigningKey::from_slice(sk.as_slice())
        .map_err(|_| RaError::CryptoError)?;
    let sig: p256::ecdsa::Signature = key.sign(msg.as_slice());
    Ok(sig.to_bytes().to_vec())
}

/// Relies on p256::ecdsa::VerifyingKey::verify: acceptance depends on the
/// point, the message and the signature alone; a rejected point encoding or
/// signature encoding verifies nothing.
#[verifier::external_body]
pub fn p256_verify(pk: &Vec<u8>, msg: &Vec<u8>, sig: &Vec<u8>) -> (r: bool)
    requires
        pk@.len() == 64,
        sig@.len() == 64,
    ensures
        r == (p256_point_valid(pk@) && p256_sig_ok(pk@, msg@, sig@)),
{
    let mut enc = [4u8; 65];
    enc[1..].copy_from_slice(pk.as_slice());
    let key = match p256::ecdsa::VerifyingKey::from_sec1_bytes(&enc) {
        Ok(k) => k,
        Err(_) => return false,
    };
    let parsed = match p256::ecdsa::Signature::from_slice(sig.as_slice()) {
        Ok(s) => s,
        Err(_) => return false,
    };
    key.verify(msg.as_slice(), &parsed).is_ok()
}

/// Whether a byte is an ASCII hexadecimal digit.
pub open spec fn is_hex_digit(c: u8) -> bool {
    (0x30 <= c <= 0x39) || (0x41 <= c <= 0x46) || (0x61 <= c <= 0x66)
}

/// The value of an ASCII hexadecimal digit.
pub open spec fn hex_val(c: u8) -> u8 {
    if 0x30 <= c <= 0x39 {
        (c - 0x30) as u8
    } else if 0x41 <= c <= 0x46 {
        (c - 0x41 + 10) as u8
    } else {
        (c - 0x61 + 10) as u8
    }
}

/// Whether a byte string is well-formed hexadecimal: even length, digits only.
pub open spec fn spec_hex_ok(s: Seq<u8>) -> bool {
    s.len() % 2 == 0 && (forall|i: int| 0 <= i < s.len() ==> is_hex_digit(s[i]))
}

/// The bytes a well-formed hexadecimal string denotes, two digits per byte.
pub open spec fn spec_hex_decode(s: Seq<u8>) -> Seq<u8> {
    Seq::new(s.len() / 2, |i: int| (hex_val(s[2 * i]) * 16 + hex_val(s[2 * i + 1])) as u8)
}

/// Relies on hex::decode: two digits (either case) per byte, failing
/// exactly on an odd length or a non-digit.
#[verifier::external_body]
pub fn hex_decode(s: &Vec<u8>) -> (r: Result<Vec<u8>, RaError>)
    ensures
        (r is Ok) == spec_hex_ok(s@),
        r is Ok ==> r->Ok_0@ == spec_hex_decode(s@),
        r is Err ==> r->Err_0 == RaError::CryptoError,
{
    hex::decode(s.as_slice()).map_err(|_| RaError::CryptoError)
}

} // verus!
