//! The key-derivation kernel.
//!
//! The KDK is `CMAC(0^16, shared_secret)` over the little-endian X
//! coordinate of the Diffie-Hellman product, per SGX convention. The four
//! session subkeys are `CMAC(KDK, 0x01 || label || 0x00 || 0x80 || 0x00)`
//! for the ASCII labels SMK, SK, MK and VK, in that order. The derivation
//! is a function of the shared secret alone: both roles obtain identical
//! subkeys exactly when their Diffie-Hellman secrets agree.

use vstd::prelude::*;
use crate::bytes::{spec_rev, rev_bytes, append_bytes, sub_bytes};
use crate::crypto::{cmac_of, sha256_of, sha256, cmac128};

verus! {

/// The ASCII label of the session MAC key.
pub open spec fn smk_label() -> Seq<u8> {
    seq![0x53u8, 0x4du8, 0x4bu8]
}

/// The ASCII label of the signing key.
pub open spec fn sk_label() -> Seq<u8> {
    seq![0x53u8, 0x4bu8]
}

/// The ASCII label of the master key.
pub open spec fn mk_label() -> Seq<u8> {
    seq![0x4du8, 0x4bu8]
}

/// The ASCII label of the verification key.
pub open spec fn vk_label() -> Seq<u8> {
    seq![0x56u8, 0x4bu8]
}

/// The CMAC input deriving the subkey of a label:
/// a counter byte, the label, a null separator, and the output length
/// (0x80 bits) little-endian.
pub open spec fn spec_kdf_input(label: Seq<u8>) -> Seq<u8> {
    seq![0x01u8] + label + seq![0x00u8, 0x80u8, 0x00u8]
}

/// The all-zero 16-byte CMAC key under which the KDK is derived.
pub open spec fn zero_key() -> Seq<u8> {
    Seq::new(16, |i: int| 0u8)
}

/// The KDK derived from a shared secret.
pub open spec fn spec_kdk(shared_le: Seq<u8>) -> Seq<u8> {
    cmac_of(zero_key(), shared_le)
}

/// The session MAC key of a KDK.
pub open spec fn spec_smk(kdk: Seq<u8>) -> Seq<u8> {
    cmac_of(kdk, spec_kdf_input(smk_label()))
}

/// The signing key of a KDK.
pub open spec fn spec_sk(kdk: Seq<u8>) -> Seq<u8> {
    cmac_of(kdk, spec_kdf_input(sk_label()))
}

/// The master key of a KDK.
pub open spec fn spec_mk(kdk: Seq<u8>) -> Seq<u8> {
    cmac_of(kdk, spec_kdf_input(mk_label()))
}

/// The verification key of a KDK.
pub open spec fn spec_vk(kdk: Seq<u8>) -> Seq<u8> {
    cmac_of(kdk, spec_kdf_input(vk_label()))
}

fn kdf_subkey(kdk: &Vec<u8>, label: &Vec<u8>) -> (r: Vec<u8>)
    requires
        kdk@.len() == 16,
    ensures
        r@ == cmac_of(kdk@, spec_kdf_input(label@)),
        r@.len() == 16,
{
    let mut input: Vec<u8> = Vec::new();
    input.push(0x01u8);
    append_bytes(&mut input, label);
    input.push(0x00u8);
    input.push(0x80u8);
    input.push(0x00u8);
    assert(input@ =~= spec_kdf_input(label@));
    cmac128(kdk, &input)
}

/// Derive the KDK from the little-endian shared secret.
pub fn derive_kdk(shared_le: &Vec<u8>) -> (r: Vec<u8>)
    ensures
        r@ == spec_kdk(shared_le@),
        r@.len() == 16,
{
    let mut zeros: Vec<u8> = Vec::new();
    let mut i: usize = 0;
    while i < 16
        invariant
            i <= 16,
            zeros@.len() == i,
            forall|k: int| 0 <= k < i ==> zeros@[k] == 0u8,
        decreases 16 - i,
    {
        zeros.push(0u8);
        i = i + 1;
    }
    assert(zeros@ =~= zero_key());
    cmac128(&zeros, shared_le)
}

/// Derive the four session subkeys (SMK, SK, MK, VK) from a KDK.
pub fn derive_secret_keys(kdk: &Vec<u8>) -> (r: (Vec<u8>, Vec<u8>, Vec<u8>, Vec<u8>))
    requires
        kdk@.len() == 16,
    ensures
        r.0@ == spec_smk(kdk@) && r.0@.len() == 16,
        r.1@ == spec_sk(kdk@) && r.1@.len() == 16,
        r.2@ == spec_mk(kdk@) && r.2@.len() == 16,
        r.3@ == spec_vk(kdk@) && r.3@.len() == 16,
{
    let mut smk_l: Vec<u8> = Vec::new();
    smk_l.push(0x53u8);
    smk_l.push(0x4du8);
    smk_l.push(0x4bu8);
    assert(smk_l@ =~= smk_label());
    let mut sk_l: Vec<u8> = Vec::new();
    sk_l.push(0x53u8);
    sk_l.push(0x4bu8);
    assert(sk_l@ =~= sk_label());
    let mut mk_l: Vec<u8> = Vec::new();
    mk_l.push(0x4du8);
    mk_l.push(0x4bu8);
    assert(mk_l@ =~= mk_label());
    let mut vk_l: Vec<u8> = Vec::new();
    vk_l.push(0x56u8);
    vk_l.push(0x4bu8);
    assert(vk_l@ =~= vk_label());
    (
        kdf_subkey(kdk, &smk_l),
        kdf_subkey(kdk, &sk_l),
        kdf_subkey(kdk, &mk_l),
        kdf_subkey(kdk, &vk_l),
    )
}

/// KDF agreement: the subkey tree is a function of the shared secret
/// alone, so two roles whose Diffie-Hellman secrets agree derive the same
/// KDK and bit-for-bit equal SMK, SK, MK and VK. (That the two secrets do
/// agree is the Diffie-Hellman property of the curve, which lives with the
/// curve library; this lemma states what follows from agreement.)
pub proof fn lemma_kdf_agreement(signer_shared: Seq<u8>, verifier_shared: Seq<u8>)
    requires
        signer_shared == verifier_shared,
    ensures
        spec_kdk(signer_shared) == spec_kdk(verifier_shared),
        spec_smk(spec_kdk(signer_shared)) == spec_smk(spec_kdk(verifier_shared)),
        spec_sk(spec_kdk(signer_shared)) == spec_sk(spec_kdk(verifier_shared)),
        spec_mk(spec_kdk(signer_shared)) == spec_mk(spec_kdk(verifier_shared)),
        spec_vk(spec_kdk(signer_shared)) == spec_vk(spec_kdk(verifier_shared)),
{
}

/// The transcript whose digest binds the exchange to the quote:
/// `g_a || g_b || vk`, all in wire form.
pub open spec fn spec_transcript(g_a: Seq<u8>, g_b: Seq<u8>, vk: Seq<u8>) -> Seq<u8> {
    g_a + g_b + vk
}

/// The verification digest `SHA-256(g_a || g_b || vk)`.
pub open spec fn spec_vd(g_a: Seq<u8>, g_b: Seq<u8>, vk: Seq<u8>) -> Seq<u8> {
    sha256_of(spec_transcript(g_a, g_b, vk))
}

/// Compute the verification digest binding the DH transcript.
pub fn verification_digest(g_a: &Vec<u8>, g_b: &Vec<u8>, vk: &Vec<u8>) -> (r: Vec<u8>)
    ensures
        r@ == spec_vd(g_a@, g_b@, vk@),
        r@.len() == 32,
{
    let mut t: Vec<u8> = Vec::new();
    append_bytes(&mut t, g_a);
    append_bytes(&mut t, g_b);
    append_bytes(&mut t, vk);
    assert(t@ =~= spec_transcript(g_a@, g_b@, vk@));
    sha256(&t)
}

/// A 64-byte value with its two 32-byte halves each reversed: the
/// conversion between the big-endian X || Y (or r || s) form of the curve
/// library and the little-endian SGX wire form, in either direction.
pub open spec fn spec_swap64(s: Seq<u8>) -> Seq<u8>
    recommends
        s.len() == 64,
{
    spec_rev(s.subrange(0, 32)) + spec_rev(s.subrange(32, 64))
}

/// Reverse each 32-byte half of a 64-byte value.
pub fn swap_halves_64(s: &Vec<u8>) -> (r: Vec<u8>)
    requires
        s@.len() == 64,
    ensures
        r@ == spec_swap64(s@),
        r@.len() == 64,
{
    let lo = sub_bytes(s, 0, 32);
    let hi = sub_bytes(s, 32, 64);
    let mut r = rev_bytes(&lo);
    let hi_rev = rev_bytes(&hi);
    append_bytes(&mut r, &hi_rev);
    r
}

} // verus!
