//! The Enclave role: the verifier side of the authenticated exchange.
//!
//! The enclave publishes its ephemeral public key, verifies the SP's
//! signature and MAC on MSG2, derives the session keys, computes the
//! verification digest that the quote must carry, and emits the MSG3 MAC.
//! Stream traffic and the hardware local-attestation check stay with the
//! caller, which hands their outcomes in as plain values.

use vstd::prelude::*;
use crate::RaError;
use crate::bytes::{bytes_eq, sub_bytes, append_bytes};
use crate::msg::{RaMsg2, RaMsg3, Msg2Model, wf_msg2, spec_msg2_mac_input, spec_msg3_mac_input,
    PUBKEY_LEN, MAC_LEN, QUOTE_LEN};
use crate::codec::{msg2_mac_input, msg3_mac_input};
use crate::crypto::{cmac_of, p256_pub_of, p256_scalar_valid, p256_point_valid, p256_sig_ok,
    p256_verify, cmac128};
use crate::kdf::{spec_kdk, spec_smk, spec_sk, spec_mk, spec_vk, spec_vd, spec_swap64,
    swap_halves_64, derive_kdk, derive_secret_keys, verification_digest};
use crate::dhke::{DhKeyPair, wf_key_pair, spec_shared_le, gen_key_pair, dh_shared_le};

verus! {

/// The enclave's attestation context: a one-shot ephemeral keypair and the
/// SP's ECDSA verification key (X || Y, 64 bytes big-endian).
pub struct EnclaveRaContext {
    pub key_pair: Option<DhKeyPair>,
    pub sp_vkey: Vec<u8>,
}

/// Field widths of the enclave context.
pub open spec fn wf_enclave_context(c: EnclaveRaContext) -> bool {
    &&& match c.key_pair {
        Some(k) => wf_key_pair(k),
        None => true,
    }
    &&& c.sp_vkey@.len() == 64
}

/// The secrets and transcript values a successful MSG2 verification
/// leaves behind.
pub struct EnclaveSession {
    pub smk: Vec<u8>,
    pub sk: Vec<u8>,
    pub mk: Vec<u8>,
    pub vk: Vec<u8>,
    pub vd: Vec<u8>,
    pub g_a: Vec<u8>,
    pub g_b: Vec<u8>,
}

/// Field widths of an enclave session.
pub open spec fn wf_enclave_session(s: EnclaveSession) -> bool {
    &&& s.smk@.len() == 16
    &&& s.sk@.len() == 16
    &&& s.mk@.len() == 16
    &&& s.vk@.len() == 16
    &&& s.vd@.len() == 32
    &&& s.g_a@.len() == PUBKEY_LEN
    &&& s.g_b@.len() == PUBKEY_LEN
}

/// The KDK the verifier derives from its scalar and the peer point of MSG2.
pub open spec fn spec_session_kdk(priv_key: Seq<u8>, peer_wire: Seq<u8>) -> Seq<u8> {
    spec_kdk(spec_shared_le(priv_key, peer_wire))
}

/// Whether the SP's signature on MSG2 verifies: the SP verification key is
/// a valid point and the signature (wire form) over `g_b || g_a` is
/// accepted under it.
pub open spec fn spec_msg2_sig_ok(sp_vkey: Seq<u8>, g_a: Seq<u8>, m: Msg2Model) -> bool {
    p256_point_valid(sp_vkey) && p256_sig_ok(sp_vkey, m.g_b + g_a, spec_swap64(m.sign_gb_ga))
}

/// Whether the curve library accepts the key material of MSG2: the own
/// scalar and the peer point.
pub open spec fn spec_msg2_dh_ok(priv_key: Seq<u8>, m: Msg2Model) -> bool {
    p256_scalar_valid(priv_key) && p256_point_valid(spec_swap64(m.g_b))
}

/// Whether the MAC of MSG2 is the CMAC under the session's SMK of the
/// message's remaining fields.
pub open spec fn spec_msg2_mac_ok(priv_key: Seq<u8>, m: Msg2Model) -> bool {
    m.mac == cmac_of(spec_smk(spec_session_kdk(priv_key, m.g_b)), spec_msg2_mac_input(m))
}

impl EnclaveRaContext {
    /// Build a context holding a fresh ephemeral keypair and the SP's
    /// verification key; rejects a key that is not 64 bytes.
    pub fn init(sp_vkey: Vec<u8>) -> (r: Result<EnclaveRaContext, RaError>)
        ensures
            (r is Ok) == (sp_vkey@.len() == 64),
            r is Ok ==> wf_enclave_context(r->Ok_0) && r->Ok_0.key_pair is Some
                && r->Ok_0.sp_vkey@ == sp_vkey@,
            r is Ok ==> ({
                let k = r->Ok_0.key_pair->Some_0;
                p256_scalar_valid(k.priv_key@)
                    && k.pub_wire@ == spec_swap64(p256_pub_of(k.priv_key@))
            }),
            r is Err ==> r->Err_0 == RaError::CryptoError,
    {
        if sp_vkey.len() != 64 {
            return Err(RaError::CryptoError);
        }
        Ok(EnclaveRaContext { key_pair: Some(gen_key_pair()), sp_vkey })
    }

    /// The public key the enclave publishes to the client, in wire form.
    pub fn get_public_key(&self) -> (r: Vec<u8>)
        requires
            self.key_pair is Some,
            wf_enclave_context(*self),
        ensures
            r@ == self.key_pair->Some_0.pub_wire@,
            r@.len() == PUBKEY_LEN,
    {
        let kp = self.key_pair.as_ref().unwrap();
        sub_bytes(&kp.pub_wire, 0, kp.pub_wire.len())
    }

    /// Verify MSG2 and derive the session: check the SP's signature over
    /// `g_b || g_a`, compute the shared secret and the subkey tree, check
    /// the MAC, and compute the verification digest. Consumes the
    /// ephemeral keypair whatever the outcome.
    pub fn process_msg_2(&mut self, msg2: &RaMsg2) -> (r: Result<EnclaveSession, RaError>)
        requires
            wf_enclave_context(*old(self)),
            old(self).key_pair is Some,
            wf_msg2(msg2@),
        ensures
            final(self).key_pair is None,
            final(self).sp_vkey@ == old(self).sp_vkey@,
            wf_enclave_context(*final(self)),
            ({
                let k = old(self).key_pair->Some_0;
                let sigok = spec_msg2_sig_ok(old(self).sp_vkey@, k.pub_wire@, msg2@);
                let dhok = spec_msg2_dh_ok(k.priv_key@, msg2@);
                let macok = spec_msg2_mac_ok(k.priv_key@, msg2@);
                &&& (r is Ok) == (sigok && dhok && macok)
                &&& (r == Err::<EnclaveSession, RaError>(RaError::SignatureInvalid))
                    == !sigok
                &&& (r == Err::<EnclaveSession, RaError>(RaError::CryptoError))
                    == (sigok && !dhok)
                &&& (r == Err::<EnclaveSession, RaError>(RaError::IntegrityError))
                    == (sigok && dhok && !macok)
                &&& r is Ok ==> ({
                    let kdk = spec_session_kdk(k.priv_key@, msg2@.g_b);
                    let s = r->Ok_0;
                    &&& wf_enclave_session(s)
                    &&& s.smk@ == spec_smk(kdk)
                    &&& s.sk@ == spec_sk(kdk)
                    &&& s.mk@ == spec_mk(kdk)
                    &&& s.vk@ == spec_vk(kdk)
                    &&& s.vd@ == spec_vd(k.pub_wire@, msg2@.g_b, spec_vk(kdk))
                    &&& s.g_a@ == k.pub_wire@
                    &&& s.g_b@ == msg2@.g_b
                })
            }),
    {
        let kp = self.key_pair.take().unwrap();
        let g_a = sub_bytes(&kp.pub_wire, 0, kp.pub_wire.len());

        // Signature over the wire transcript g_b || g_a.
        let mut signed: Vec<u8> = Vec::new();
        append_bytes(&mut signed, &msg2.g_b);
        append_bytes(&mut signed, &g_a);
        assert(signed@ =~= msg2@.g_b + g_a@);
        let sig_be = swap_halves_64(&msg2.sign_gb_ga);
        let sig_accepted = p256_verify(&self.sp_vkey, &signed, &sig_be);
        proof {
            let k = old(self).key_pair->Some_0;
            assert(kp == k);
            assert(g_a@ == k.pub_wire@);
            assert(signed@ == msg2@.g_b + k.pub_wire@);
            assert(sig_be@ == spec_swap64(msg2@.sign_gb_ga));
            assert(self.sp_vkey@ == old(self).sp_vkey@);
            assert(sig_accepted == spec_msg2_sig_ok(old(self).sp_vkey@, k.pub_wire@, msg2@));
        }
        if !sig_accepted {
            return Err(RaError::SignatureInvalid);
        }

        // Shared secret and subkey tree.
        let shared = match dh_shared_le(&kp.priv_key, &msg2.g_b) {
            Ok(s) => s,
            Err(e) => {
                return Err(e);
            },
        };
        let kdk = derive_kdk(&shared);
        let (smk, sk, mk, vk) = derive_secret_keys(&kdk);

        // MAC over the remaining fields of MSG2.
        let mac_input = msg2_mac_input(msg2);
        let tag = cmac128(&smk, &mac_input);
        if !bytes_eq(&tag, &msg2.mac) {
            return Err(RaError::IntegrityError);
        }

        // Digest binding the transcript to the quote.
        let vd = verification_digest(&g_a, &msg2.g_b, &vk);
        let g_b = sub_bytes(&msg2.g_b, 0, msg2.g_b.len());
        Ok(EnclaveSession { smk, sk, mk, vk, vd, g_a, g_b })
    }

    /// Accept the quote the client fetched: the caller reports whether the
    /// QE report passed the hardware local-attestation check, and on
    /// success the enclave signs off MSG3 with its MAC under SMK.
    pub fn accept_quote(session: &EnclaveSession, quote: Vec<u8>, qe_report_ok: bool)
        -> (r: Result<RaMsg3, RaError>)
        requires
            wf_enclave_session(*session),
            quote@.len() == QUOTE_LEN,
        ensures
            (r is Ok) == qe_report_ok,
            r is Err ==> r->Err_0 == RaError::LocalAttestation,
            r is Ok ==> ({
                let m = r->Ok_0;
                &&& m@.g_a == session.g_a@
                &&& m@.ps_sec_prop is None
                &&& m@.quote == quote@
                &&& m@.mac == cmac_of(session.smk@, spec_msg3_mac_input(m@))
                &&& m@.mac.len() == MAC_LEN
            }),
    {
        if !qe_report_ok {
            return Err(RaError::LocalAttestation);
        }
        let g_a = sub_bytes(&session.g_a, 0, session.g_a.len());
        let mut m = RaMsg3 { mac: Vec::new(), g_a, ps_sec_prop: None, quote };
        let input = msg3_mac_input(&m);
        m.mac = cmac128(&session.smk, &input);
        Ok(m)
    }

    /// Zero-pad the verification digest to the 64 report-data bytes of a
    /// REPORT; rejects data that does not fit.
    pub fn pad_report_data(data: &Vec<u8>) -> (r: Result<Vec<u8>, RaError>)
        ensures
            (r is Ok) == (data@.len() <= 64),
            r is Ok ==> r->Ok_0@.len() == 64
                && r->Ok_0@.subrange(0, data@.len() as int) == data@
                && (forall|i: int| data@.len() <= i < 64 ==> r->Ok_0@[i] == 0u8),
            r is Err ==> r->Err_0 == RaError::ReportDataTooLong,
    {
        if data.len() > 64 {
            return Err(RaError::ReportDataTooLong);
        }
        let mut out = sub_bytes(data, 0, data.len());
        while out.len() < 64
            invariant
                data@.len() <= out@.len() <= 64,
                out@.subrange(0, data@.len() as int) == data@,
                forall|i: int| data@.len() <= i < out@.len() ==> out@[i] == 0u8,
            decreases 64 - out@.len(),
        {
            let ghost pre = out@;
            out.push(0u8);
            assert(out@.subrange(0, data@.len() as int)
                =~= pre.subrange(0, data@.len() as int));
        }
        Ok(out)
    }
}

/// MAC authenticity of MSG2, for the MAC field itself: a message whose
/// other fields are those of a correctly authenticated MSG2 but whose MAC
/// was altered fails the enclave's MAC check. (Altering the covered
/// fields instead is caught by the same check unless the alteration
/// collides under CMAC, which is outside this model.)
pub proof fn lemma_msg2_mac_tamper(priv_key: Seq<u8>, m: Msg2Model, t: Msg2Model)
    requires
        spec_msg2_mac_ok(priv_key, m),
        t.g_b == m.g_b,
        t.spid == m.spid,
        t.quote_type == m.quote_type,
        t.kdf_id == m.kdf_id,
        t.sign_gb_ga == m.sign_gb_ga,
        t.sig_rl == m.sig_rl,
        t.mac != m.mac,
    ensures
        !spec_msg2_mac_ok(priv_key, t),
{
    assert(spec_msg2_mac_input(t) == spec_msg2_mac_input(m));
}

} // verus!
