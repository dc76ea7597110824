//! The Service-Provider role: the signer side of the exchange and the
//! policy point.
//!
//! The SP signs `g_b || g_a`, derives the session keys, MACs MSG2, and on
//! MSG3 checks the MAC, the verification digest, the enclave identity
//! against the expected SIGSTRUCT, the DEBUG attribute, and the IAS
//! verdict against the configured trust options. IAS and stream traffic
//! stay with the caller, which hands the verdict in as plain values.

use vstd::prelude::*;
use crate::RaError;
use crate::bytes::{bytes_eq, sub_bytes, append_bytes, spec_u16_of_le, spec_u64_of_le};
use crate::msg::{RaMsg1, RaMsg2, RaMsg3, RaMsg4, Msg3Model, wf_msg1, wf_msg3, wf_msg4,
    spec_msg2_mac_input, spec_msg3_mac_input, SPID_LEN, QUOTE_LEN, PIB_LEN};
use crate::codec::{msg2_mac_input, msg3_mac_input, opt_bytes_view};
use crate::crypto::{cmac_of, sha256_of, p256_pub_of, p256_scalar_valid, p256_point_valid,
    p256_sig_of, spec_hex_ok, spec_hex_decode, hex_decode, p256_sign, sha256, cmac128};
use crate::kdf::{spec_kdk, spec_smk, spec_sk, spec_mk, spec_vk, spec_vd, spec_swap64,
    swap_halves_64, derive_kdk, derive_secret_keys, verification_digest};
use crate::dhke::{DhKeyPair, wf_key_pair, spec_shared_le, gen_key_pair, dh_shared_le};

verus! {

/// The quote offsets and flag the SP's checks read.
pub const MRENCLAVE_LO: usize = 112;
/// End of the MRENCLAVE bytes.
pub const MRENCLAVE_HI: usize = 144;
/// Start of the MRSIGNER bytes.
pub const MRSIGNER_LO: usize = 176;
/// End of the MRSIGNER bytes.
pub const MRSIGNER_HI: usize = 208;
/// Offset of the little-endian ISVPRODID.
pub const ISVPRODID_OFF: usize = 304;
/// Offset of the little-endian ISVSVN.
pub const ISVSVN_OFF: usize = 306;
/// Offset of the little-endian 64-bit ATTRIBUTES.FLAGS of the quoted enclave.
pub const ATTR_FLAGS_OFF: usize = 96;
/// Start of the REPORTDATA digest the protocol binds.
pub const REPORTDATA_LO: usize = 368;
/// End of the REPORTDATA digest.
pub const REPORTDATA_HI: usize = 400;
/// The DEBUG bit of ATTRIBUTES.FLAGS.
pub const DEBUG_FLAG: u64 = 2;

/// The expected enclave identity, read from a SIGSTRUCT at init.
pub struct Sigstruct {
    pub enclavehash: Vec<u8>,
    pub modulus: Vec<u8>,
    pub isvprodid: u16,
    pub isvsvn: u16,
    pub attributes_flags: u64,
}

/// Field widths of a SIGSTRUCT.
pub open spec fn wf_sigstruct(s: Sigstruct) -> bool {
    s.enclavehash@.len() == 32 && s.modulus@.len() == 384
}

/// The SP configuration: identifiers and trust policy.
pub struct SpConfig {
    pub spid_hex: Vec<u8>,
    pub linkable: bool,
    pub random_nonce: bool,
    pub use_platform_service: bool,
    pub quote_trust_options: Vec<Vec<u8>>,
    pub pse_trust_options: Option<Vec<Vec<u8>>>,
}

/// The IAS verdict on a quote, as plain values.
pub struct IasVerdict {
    pub quote_status: Vec<u8>,
    pub pse_manifest_status: Option<Vec<u8>>,
    pub platform_info_blob: Option<Vec<u8>>,
    pub epid_pseudonym: Option<Vec<u8>>,
}

/// The session state MSG1 processing leaves for MSG3 processing.
pub struct SpSession {
    pub smk: Vec<u8>,
    pub sk: Vec<u8>,
    pub mk: Vec<u8>,
    pub vd: Vec<u8>,
}

/// Field widths of an SP session.
pub open spec fn wf_sp_session(s: SpSession) -> bool {
    s.smk@.len() == 16 && s.sk@.len() == 16 && s.mk@.len() == 16 && s.vd@.len() == 32
}

/// The SP's attestation context.
pub struct SpRaContext {
    pub config: SpConfig,
    pub spid: Vec<u8>,
    pub sigstruct: Sigstruct,
    pub sp_private_key: Vec<u8>,
    pub key_pair: Option<DhKeyPair>,
    pub session: Option<SpSession>,
}

/// Well-formedness of the SP context.
pub open spec fn wf_sp_context(c: SpRaContext) -> bool {
    &&& c.spid@.len() == SPID_LEN
    &&& wf_sigstruct(c.sigstruct)
    &&& c.sp_private_key@.len() == 32
    &&& match c.key_pair {
        Some(k) => wf_key_pair(k),
        None => true,
    }
    &&& match c.session {
        Some(s) => wf_sp_session(s),
        None => true,
    }
}

/// The ASCII bytes of the IAS status "OK".
pub open spec fn ok_status() -> Seq<u8> {
    seq![0x4fu8, 0x4bu8]
}

/// Whether a status is trusted: it is "OK", or the policy lists it.
pub open spec fn spec_status_trusted(s: Seq<u8>, opts: Seq<Vec<u8>>) -> bool {
    s == ok_status() || exists|i: int| 0 <= i < opts.len() && opts[i]@ == s
}

/// Whether a status is trusted under a trust-option list.
pub fn status_trusted(status: &Vec<u8>, opts: &Vec<Vec<u8>>) -> (r: bool)
    ensures
        r == spec_status_trusted(status@, opts@),
{
    let mut ok_bytes: Vec<u8> = Vec::new();
    ok_bytes.push(0x4fu8);
    ok_bytes.push(0x4bu8);
    assert(ok_bytes@ =~= ok_status());
    if bytes_eq(status, &ok_bytes) {
        return true;
    }
    let mut i: usize = 0;
    while i < opts.len()
        invariant
            i <= opts@.len(),
            status@ != ok_status(),
            forall|k: int| 0 <= k < i ==> opts@[k]@ != status@,
        decreases opts@.len() - i,
    {
        if bytes_eq(&opts[i], status) {
            return true;
        }
        i = i + 1;
    }
    false
}

/// The KDK the signer derives from its scalar and the peer point of MSG1.
pub open spec fn spec_sp_kdk(priv_key: Seq<u8>, g_a: Seq<u8>) -> Seq<u8> {
    spec_kdk(spec_shared_le(priv_key, g_a))
}

/// Whether the quote carries the enclave identity the SIGSTRUCT declares:
/// MRENCLAVE equals the SIGSTRUCT hash, MRSIGNER equals the SHA-256 of the
/// SIGSTRUCT modulus, and the product id and security version match.
pub open spec fn spec_identity_ok(quote: Seq<u8>, s: Sigstruct) -> bool {
    &&& quote.subrange(MRENCLAVE_LO as int, MRENCLAVE_HI as int) == s.enclavehash@
    &&& quote.subrange(MRSIGNER_LO as int, MRSIGNER_HI as int) == sha256_of(s.modulus@)
    &&& spec_u16_of_le(quote[ISVPRODID_OFF as int], quote[ISVPRODID_OFF + 1]) == s.isvprodid
    &&& spec_u16_of_le(quote[ISVSVN_OFF as int], quote[ISVSVN_OFF + 1]) == s.isvsvn
}

/// Whether the quoted enclave's ATTRIBUTES.FLAGS has the DEBUG bit set.
pub open spec fn spec_debug_set(quote: Seq<u8>) -> bool {
    spec_u64_of_le(quote.subrange(ATTR_FLAGS_OFF as int, ATTR_FLAGS_OFF + 8)) & DEBUG_FLAG
        != 0
}

/// Whether the MAC of MSG3 is the CMAC under the session SMK of the
/// message's remaining fields.
pub open spec fn spec_msg3_mac_ok(smk: Seq<u8>, m: Msg3Model) -> bool {
    m.mac == cmac_of(smk, spec_msg3_mac_input(m))
}

/// Whether the quote's REPORTDATA digest equals the session's
/// verification digest.
pub open spec fn spec_msg3_vd_ok(vd: Seq<u8>, m: Msg3Model) -> bool {
    m.quote.subrange(REPORTDATA_LO as int, REPORTDATA_HI as int) == vd
}

impl SpRaContext {
    /// Build a context from the configuration, the expected SIGSTRUCT and
    /// the SP signing key. Linkable quotes without nonce or platform
    /// service are the only supported mode; the caller must have checked
    /// those flags. Rejects a SPID that is not 32 hexadecimal characters.
    pub fn init(config: SpConfig, sigstruct: Sigstruct, sp_private_key: Vec<u8>)
        -> (r: Result<SpRaContext, RaError>)
        requires
            config.linkable,
            !config.random_nonce,
            !config.use_platform_service,
            wf_sigstruct(sigstruct),
            sp_private_key@.len() == 32,
        ensures
            (r is Ok) == (spec_hex_ok(config.spid_hex@)
                && spec_hex_decode(config.spid_hex@).len() == SPID_LEN),
            r is Ok ==> ({
                let c = r->Ok_0;
                &&& wf_sp_context(c)
                &&& c.spid@ == spec_hex_decode(config.spid_hex@)
                &&& c.key_pair is Some
                &&& c.session is None
                &&& c.sp_private_key@ == sp_private_key@
                &&& p256_scalar_valid(c.key_pair->Some_0.priv_key@)
                &&& c.key_pair->Some_0.pub_wire@
                    == spec_swap64(p256_pub_of(c.key_pair->Some_0.priv_key@))
            }),
            r is Err ==> r->Err_0 == RaError::CryptoError,
    {
        let spid = match hex_decode(&config.spid_hex) {
            Ok(s) => s,
            Err(e) => {
                return Err(e);
            },
        };
        if spid.len() != SPID_LEN {
            return Err(RaError::CryptoError);
        }
        Ok(SpRaContext {
            config,
            spid,
            sigstruct,
            sp_private_key,
            key_pair: Some(gen_key_pair()),
            session: None,
        })
    }

    /// Process MSG1: sign `g_b || g_a`, derive the subkey tree from the
    /// shared secret, stash the session, and assemble MSG2 with its MAC
    /// under SMK. The caller supplies the revocation list it fetched for
    /// the group of MSG1. Consumes the ephemeral keypair.
    pub fn process_msg_1(&mut self, msg1: &RaMsg1, sig_rl: Option<Vec<u8>>)
        -> (r: Result<RaMsg2, RaError>)
        requires
            wf_sp_context(*old(self)),
            old(self).key_pair is Some,
            wf_msg1(msg1@),
        ensures
            final(self).key_pair is None,
            wf_sp_context(*final(self)),
            final(self).config == old(self).config,
            final(self).spid@ == old(self).spid@,
            final(self).sigstruct == old(self).sigstruct,
            final(self).sp_private_key@ == old(self).sp_private_key@,
            ({
                let k = old(self).key_pair->Some_0;
                let kdk = spec_sp_kdk(k.priv_key@, msg1@.g_a);
                &&& (r is Ok) == (p256_scalar_valid(old(self).sp_private_key@)
                    && p256_scalar_valid(k.priv_key@)
                    && p256_point_valid(spec_swap64(msg1@.g_a)))
                &&& r is Err ==> r->Err_0 == RaError::CryptoError
                    && final(self).session == old(self).session
                &&& r is Ok ==> ({
                    let m = r->Ok_0;
                    let s = final(self).session->Some_0;
                    &&& final(self).session is Some
                    &&& s.smk@ == spec_smk(kdk)
                    &&& s.sk@ == spec_sk(kdk)
                    &&& s.mk@ == spec_mk(kdk)
                    &&& s.vd@ == spec_vd(msg1@.g_a, k.pub_wire@, spec_vk(kdk))
                    &&& m@.g_b == k.pub_wire@
                    &&& m@.spid == old(self).spid@
                    &&& m@.quote_type == 1u16
                    &&& m@.kdf_id == 1u16
                    &&& m@.sign_gb_ga == spec_swap64(p256_sig_of(old(self).sp_private_key@,
                        k.pub_wire@ + msg1@.g_a))
                    &&& m@.mac == cmac_of(spec_smk(kdk), spec_msg2_mac_input(m@))
                    &&& m@.sig_rl == opt_bytes_view(sig_rl)
                })
            }),
    {
        let kp = self.key_pair.take().unwrap();
        let g_b = sub_bytes(&kp.pub_wire, 0, kp.pub_wire.len());

        // Sign the wire transcript g_b || g_a.
        let mut signed: Vec<u8> = Vec::new();
        append_bytes(&mut signed, &g_b);
        append_bytes(&mut signed, &msg1.g_a);
        assert(signed@ =~= kp.pub_wire@ + msg1@.g_a);
        let sig_be = match p256_sign(&self.sp_private_key, &signed) {
            Ok(s) => s,
            Err(e) => {
                return Err(e);
            },
        };
        let sign_gb_ga = swap_halves_64(&sig_be);

        // Shared secret and subkey tree.
        let shared = match dh_shared_le(&kp.priv_key, &msg1.g_a) {
            Ok(s) => s,
            Err(e) => {
                return Err(e);
            },
        };
        let kdk = derive_kdk(&shared);
        let (smk, sk, mk, vk) = derive_secret_keys(&kdk);

        // Digest binding the transcript to the quote the enclave must carry.
        let vd = verification_digest(&msg1.g_a, &g_b, &vk);
        let spid = sub_bytes(&self.spid, 0, self.spid.len());

        let mut m = RaMsg2 {
            g_b,
            spid,
            quote_type: 1,
            kdf_id: 1,
            sign_gb_ga,
            mac: Vec::new(),
            sig_rl,
        };
        let input = msg2_mac_input(&m);
        m.mac = cmac128(&smk, &input);
        self.session = Some(SpSession { smk, sk, mk, vd });
        proof {
            let k = old(self).key_pair->Some_0;
            let kdkspec = spec_sp_kdk(k.priv_key@, msg1@.g_a);
            assert(kp == k);
            assert(m@.g_b == k.pub_wire@);
            assert(kdk@ == kdkspec);
            assert(input@ == spec_msg2_mac_input(m@));
            assert(m@.mac == cmac_of(spec_smk(kdkspec), spec_msg2_mac_input(m@)));
            assert(m@.sign_gb_ga == spec_swap64(p256_sig_of(old(self).sp_private_key@,
                k.pub_wire@ + msg1@.g_a)));
        }
        Ok(m)
    }

    /// Check MSG3 before the quote is sent to IAS: the MAC under SMK over
    /// the remaining fields, and the REPORTDATA digest against the
    /// session's verification digest. Both failures are integrity
    /// failures.
    pub fn check_msg3(&self, msg3: &RaMsg3) -> (r: Result<(), RaError>)
        requires
            wf_sp_context(*self),
            self.session is Some,
            wf_msg3(msg3@),
        ensures
            ({
                let s = self.session->Some_0;
                &&& (r is Ok) == (spec_msg3_mac_ok(s.smk@, msg3@)
                    && spec_msg3_vd_ok(s.vd@, msg3@))
                &&& r is Err ==> r->Err_0 == RaError::IntegrityError
            }),
    {
        let session = self.session.as_ref().unwrap();
        let input = msg3_mac_input(msg3);
        let tag = cmac128(&session.smk, &input);
        if !bytes_eq(&tag, &msg3.mac) {
            return Err(RaError::IntegrityError);
        }
        let quote_digest = sub_bytes(&msg3.quote, REPORTDATA_LO, REPORTDATA_HI);
        if !bytes_eq(&quote_digest, &session.vd) {
            return Err(RaError::IntegrityError);
        }
        Ok(())
    }

    /// Process MSG3 with the IAS verdict in hand: re-apply the integrity
    /// checks, verify the enclave identity against the SIGSTRUCT, reject a
    /// DEBUG enclave in a release build, and decide trust from the IAS
    /// statuses and the configured options. Returns MSG4 and the EPID
    /// pseudonym.
    pub fn process_msg_3(&self, msg3: &RaMsg3, verdict: &IasVerdict, release_build: bool)
        -> (r: Result<(RaMsg4, Option<Vec<u8>>), RaError>)
        requires
            wf_sp_context(*self),
            self.session is Some,
            wf_msg3(msg3@),
            match verdict.platform_info_blob {
                Some(p) => p@.len() == PIB_LEN,
                None => true,
            },
        ensures
            ({
                let s = self.session->Some_0;
                let integrity = spec_msg3_mac_ok(s.smk@, msg3@)
                    && spec_msg3_vd_ok(s.vd@, msg3@);
                let idok = spec_identity_ok(msg3@.quote, self.sigstruct);
                let debug_reject = release_build && spec_debug_set(msg3@.quote);
                &&& (r is Ok) == (integrity && idok && !debug_reject)
                &&& (r == Err::<(RaMsg4, Option<Vec<u8>>), RaError>(RaError::IntegrityError))
                    == !integrity
                &&& (r == Err::<(RaMsg4, Option<Vec<u8>>), RaError>(
                    RaError::SigstructMismatched)) == (integrity && !idok)
                &&& (r == Err::<(RaMsg4, Option<Vec<u8>>), RaError>(
                    RaError::EnclaveInDebugMode)) == (integrity && idok && debug_reject)
                &&& r is Ok ==> ({
                    let m4 = r->Ok_0.0;
                    &&& m4@.is_enclave_trusted == spec_status_trusted(verdict.quote_status@,
                        self.config.quote_trust_options@)
                    &&& m4@.is_pse_manifest_trusted == match verdict.pse_manifest_status {
                        Some(ps) => Some(spec_status_trusted(ps@,
                            match self.config.pse_trust_options {
                                Some(o) => o@,
                                None => Seq::<Vec<u8>>::empty(),
                            })),
                        None => None,
                    }
                    &&& m4@.pib == opt_bytes_view(verdict.platform_info_blob)
                    &&& wf_msg4(m4@)
                    &&& opt_bytes_view(r->Ok_0.1) == opt_bytes_view(verdict.epid_pseudonym)
                })
            }),
    {
        if let Err(e) = self.check_msg3(msg3) {
            return Err(e);
        }

        // Enclave identity against the SIGSTRUCT.
        let quote = &msg3.quote;
        let mrenclave = sub_bytes(quote, MRENCLAVE_LO, MRENCLAVE_HI);
        let mrsigner = sub_bytes(quote, MRSIGNER_LO, MRSIGNER_HI);
        let modulus_hash = sha256(&self.sigstruct.modulus);
        let isvprodid = quote[ISVPRODID_OFF] as u16 | ((quote[ISVPRODID_OFF + 1] as u16) << 8);
        let isvsvn = quote[ISVSVN_OFF] as u16 | ((quote[ISVSVN_OFF + 1] as u16) << 8);
        if !bytes_eq(&mrenclave, &self.sigstruct.enclavehash)
            || !bytes_eq(&mrsigner, &modulus_hash)
            || isvprodid != self.sigstruct.isvprodid
            || isvsvn != self.sigstruct.isvsvn {
            return Err(RaError::SigstructMismatched);
        }

        // No DEBUG enclave in a release build.
        let flags = read_attr_flags(quote);
        if release_build && flags & DEBUG_FLAG != 0 {
            return Err(RaError::EnclaveInDebugMode);
        }

        // Trust decision from the IAS statuses.
        let is_enclave_trusted = status_trusted(&verdict.quote_status,
            &self.config.quote_trust_options);
        let empty_opts: Vec<Vec<u8>> = Vec::new();
        let is_pse_manifest_trusted: Option<bool> = match &verdict.pse_manifest_status {
            Some(ps) => Some(status_trusted(ps, match &self.config.pse_trust_options {
                Some(o) => o,
                None => &empty_opts,
            })),
            None => None,
        };
        let pib: Option<Vec<u8>> = match &verdict.platform_info_blob {
            Some(p) => Some(sub_bytes(p, 0, p.len())),
            None => None,
        };
        let epid: Option<Vec<u8>> = match &verdict.epid_pseudonym {
            Some(p) => Some(sub_bytes(p, 0, p.len())),
            None => None,
        };
        let m4 = RaMsg4 { is_enclave_trusted, is_pse_manifest_trusted, pib };
        proof {
            assert(m4@.pib == opt_bytes_view(verdict.platform_info_blob));
        }
        Ok((m4, epid))
    }

    /// Take the negotiated signing and master keys out of the session,
    /// once MSG4 reported the enclave trusted.
    pub fn take_keys(&mut self) -> (r: (Vec<u8>, Vec<u8>))
        requires
            old(self).session is Some,
            wf_sp_context(*old(self)),
        ensures
            final(self).session is None,
            r.0@ == old(self).session->Some_0.sk@,
            r.1@ == old(self).session->Some_0.mk@,
    {
        let s = self.session.take().unwrap();
        (s.sk, s.mk)
    }
}

/// Transcript binding: when a session's verification digest is the
/// SHA-256 of `g_a || g_b || vk` and MSG3 passes the digest check, the
/// quote's REPORTDATA carries exactly that digest of the transcript.
pub proof fn lemma_transcript_binding(vd: Seq<u8>, m: Msg3Model, g_a: Seq<u8>, g_b: Seq<u8>,
    vk: Seq<u8>)
    requires
        vd == spec_vd(g_a, g_b, vk),
        spec_msg3_vd_ok(vd, m),
    ensures
        m.quote.subrange(REPORTDATA_LO as int, REPORTDATA_HI as int)
            == sha256_of(g_a + g_b + vk),
{
}

/// MAC authenticity of MSG3, for the MAC field itself: a message whose
/// other fields are those of a correctly authenticated MSG3 but whose MAC
/// was altered fails the SP's MAC check. (Altering the covered fields
/// instead is caught by the same check unless the alteration collides
/// under CMAC, which is outside this model.)
pub proof fn lemma_msg3_mac_tamper(smk: Seq<u8>, m: Msg3Model, t: Msg3Model)
    requires
        spec_msg3_mac_ok(smk, m),
        t.g_a == m.g_a,
        t.ps_sec_prop == m.ps_sec_prop,
        t.quote == m.quote,
        t.mac != m.mac,
    ensures
        !spec_msg3_mac_ok(smk, t),
{
    assert(spec_msg3_mac_input(t) == spec_msg3_mac_input(m));
}

/// Read the quoted enclave's little-endian ATTRIBUTES.FLAGS.
fn read_attr_flags(quote: &Vec<u8>) -> (r: u64)
    requires
        quote@.len() == QUOTE_LEN,
    ensures
        r == spec_u64_of_le(quote@.subrange(ATTR_FLAGS_OFF as int, ATTR_FLAGS_OFF + 8)),
{
    let r = quote[ATTR_FLAGS_OFF] as u64 | ((quote[ATTR_FLAGS_OFF + 1] as u64) << 8)
        | ((quote[ATTR_FLAGS_OFF + 2] as u64) << 16)
        | ((quote[ATTR_FLAGS_OFF + 3] as u64) << 24)
        | ((quote[ATTR_FLAGS_OFF + 4] as u64) << 32)
        | ((quote[ATTR_FLAGS_OFF + 5] as u64) << 40)
        | ((quote[ATTR_FLAGS_OFF + 6] as u64) << 48)
        | ((quote[ATTR_FLAGS_OFF + 7] as u64) << 56);
    proof {
        let s = quote@.subrange(ATTR_FLAGS_OFF as int, ATTR_FLAGS_OFF + 8);
        assert(s[0] == quote@[ATTR_FLAGS_OFF as int] && s[1] == quote@[ATTR_FLAGS_OFF + 1]
            && s[2] == quote@[ATTR_FLAGS_OFF + 2] && s[3] == quote@[ATTR_FLAGS_OFF + 3]
            && s[4] == quote@[ATTR_FLAGS_OFF + 4] && s[5] == quote@[ATTR_FLAGS_OFF + 5]
            && s[6] == quote@[ATTR_FLAGS_OFF + 6] && s[7] == quote@[ATTR_FLAGS_OFF + 7]);
    }
    r
}

} // verus!
