//! Protocol messages MSG0..MSG4 and their canonical wire form.
//!
//! Every fixed-width field is emitted raw in declaration order, integers
//! little-endian; an optional field carries a one-byte tag (0x00 absent,
//! 0x01 present); the variable-length `sig_rl` blob is prefixed with an
//! eight-byte little-endian length. The MAC of MSG2 and MSG3 is computed
//! under SMK over the canonical encoding of the message's remaining fields
//! in declaration order.

use vstd::prelude::*;
use crate::bytes::{spec_u16_le, spec_u32_le, spec_u64_le};

verus! {

/// Byte length of a DH public key on the wire (P-256 X || Y, little-endian).
pub const PUBKEY_LEN: usize = 64;
/// Byte length of an EPID group identifier.
pub const GID_LEN: usize = 4;
/// Byte length of a service-provider identifier.
pub const SPID_LEN: usize = 16;
/// Byte length of an ECDSA-P256 signature (r || s, little-endian).
pub const SIG_LEN: usize = 64;
/// Byte length of an AES-128-CMAC tag.
pub const MAC_LEN: usize = 16;
/// Byte length of an SGX linkable quote.
pub const QUOTE_LEN: usize = 432;
/// Byte length of the platform-services security property blob.
pub const PS_SEC_PROP_LEN: usize = 256;
/// Byte length of the platform-info blob.
pub const PIB_LEN: usize = 256;

/// MSG0, Client -> SP: the extended EPID group id (always zero: IAS is used).
pub struct RaMsg0 {
    pub exgid: u32,
}

/// MSG1, Client -> SP: EPID group id and the enclave's DH public key.
pub struct RaMsg1 {
    pub gid: Vec<u8>,
    pub g_a: Vec<u8>,
}

/// MSG2, SP -> Client: the SP's DH public key, identifiers, signature over
/// `g_b || g_a`, MAC under SMK, and an optional signature revocation list.
pub struct RaMsg2 {
    pub g_b: Vec<u8>,
    pub spid: Vec<u8>,
    pub quote_type: u16,
    pub kdf_id: u16,
    pub sign_gb_ga: Vec<u8>,
    pub mac: Vec<u8>,
    pub sig_rl: Option<Vec<u8>>,
}

/// MSG3, Client -> SP: MAC under SMK, the enclave's DH public key again,
/// an optional platform-services property blob (absent here), and the quote.
pub struct RaMsg3 {
    pub mac: Vec<u8>,
    pub g_a: Vec<u8>,
    pub ps_sec_prop: Option<Vec<u8>>,
    pub quote: Vec<u8>,
}

/// MSG4, SP -> Client -> Enclave: the trust verdict.
pub struct RaMsg4 {
    pub is_enclave_trusted: bool,
    pub is_pse_manifest_trusted: Option<bool>,
    pub pib: Option<Vec<u8>>,
}

/// Mathematical model of MSG1.
pub struct Msg1Model {
    pub gid: Seq<u8>,
    pub g_a: Seq<u8>,
}

/// Mathematical model of MSG2.
pub struct Msg2Model {
    pub g_b: Seq<u8>,
    pub spid: Seq<u8>,
    pub quote_type: u16,
    pub kdf_id: u16,
    pub sign_gb_ga: Seq<u8>,
    pub mac: Seq<u8>,
    pub sig_rl: Option<Seq<u8>>,
}

/// Mathematical model of MSG3.
pub struct Msg3Model {
    pub mac: Seq<u8>,
    pub g_a: Seq<u8>,
    pub ps_sec_prop: Option<Seq<u8>>,
    pub quote: Seq<u8>,
}

/// Mathematical model of MSG4.
pub struct Msg4Model {
    pub is_enclave_trusted: bool,
    pub is_pse_manifest_trusted: Option<bool>,
    pub pib: Option<Seq<u8>>,
}

impl View for RaMsg1 {
    type V = Msg1Model;

    open spec fn view(&self) -> Msg1Model {
        Msg1Model { gid: self.gid@, g_a: self.g_a@ }
    }
}

impl View for RaMsg2 {
    type V = Msg2Model;

    open spec fn view(&self) -> Msg2Model {
        Msg2Model {
            g_b: self.g_b@,
            spid: self.spid@,
            quote_type: self.quote_type,
            kdf_id: self.kdf_id,
            sign_gb_ga: self.sign_gb_ga@,
            mac: self.mac@,
            sig_rl: match self.sig_rl {
                Some(rl) => Some(rl@),
                None => None,
            },
        }
    }
}

impl View for RaMsg3 {
    type V = Msg3Model;

    open spec fn view(&self) -> Msg3Model {
        Msg3Model {
            mac: self.mac@,
            g_a: self.g_a@,
            ps_sec_prop: match self.ps_sec_prop {
                Some(p) => Some(p@),
                None => None,
            },
            quote: self.quote@,
        }
    }
}

impl View for RaMsg4 {
    type V = Msg4Model;

    open spec fn view(&self) -> Msg4Model {
        Msg4Model {
            is_enclave_trusted: self.is_enclave_trusted,
            is_pse_manifest_trusted: self.is_pse_manifest_trusted,
            pib: match self.pib {
                Some(p) => Some(p@),
                None => None,
            },
        }
    }
}

/// Well-formed MSG1: fields at their declared widths.
pub open spec fn wf_msg1(m: Msg1Model) -> bool {
    m.gid.len() == GID_LEN && m.g_a.len() == PUBKEY_LEN
}

/// Well-formed MSG2: fields at their declared widths.
pub open spec fn wf_msg2(m: Msg2Model) -> bool {
    &&& m.g_b.len() == PUBKEY_LEN
    &&& m.spid.len() == SPID_LEN
    &&& m.sign_gb_ga.len() == SIG_LEN
    &&& m.mac.len() == MAC_LEN
    &&& match m.sig_rl {
        Some(rl) => rl.len() <= u64::MAX,
        None => true,
    }
}

/// Well-formed MSG3: fields at their declared widths.
pub open spec fn wf_msg3(m: Msg3Model) -> bool {
    &&& m.mac.len() == MAC_LEN
    &&& m.g_a.len() == PUBKEY_LEN
    &&& match m.ps_sec_prop {
        Some(p) => p.len() == PS_SEC_PROP_LEN,
        None => true,
    }
    &&& m.quote.len() == QUOTE_LEN
}

/// Well-formed MSG4: the platform-info blob at its declared width.
pub open spec fn wf_msg4(m: Msg4Model) -> bool {
    match m.pib {
        Some(p) => p.len() == PIB_LEN,
        None => true,
    }
}

/// Canonical encoding of a boolean: one byte, 0x00 or 0x01.
pub open spec fn spec_enc_bool(b: bool) -> Seq<u8> {
    if b {
        seq![1u8]
    } else {
        seq![0u8]
    }
}

/// Canonical encoding of an optional fixed-width blob: tag then raw bytes.
pub open spec fn spec_enc_opt_fixed(o: Option<Seq<u8>>) -> Seq<u8> {
    match o {
        None => seq![0u8],
        Some(p) => seq![1u8] + p,
    }
}

/// Canonical encoding of the optional variable-length blob: tag, then an
/// eight-byte little-endian length, then the bytes.
pub open spec fn spec_enc_opt_var(o: Option<Seq<u8>>) -> Seq<u8> {
    match o {
        None => seq![0u8],
        Some(rl) => seq![1u8] + spec_u64_le(rl.len() as u64) + rl,
    }
}

/// Canonical encoding of an optional boolean: tag then the boolean byte.
pub open spec fn spec_enc_opt_bool(o: Option<bool>) -> Seq<u8> {
    match o {
        None => seq![0u8],
        Some(b) => seq![1u8] + spec_enc_bool(b),
    }
}

/// Canonical encoding of MSG0.
pub open spec fn spec_enc_msg0(exgid: u32) -> Seq<u8> {
    spec_u32_le(exgid)
}

/// Canonical encoding of MSG1.
pub open spec fn spec_enc_msg1(m: Msg1Model) -> Seq<u8> {
    m.gid + m.g_a
}

/// Canonical encoding of the fields of MSG2 other than the MAC, in
/// declaration order: the MAC of MSG2 is computed over exactly these bytes.
pub open spec fn spec_msg2_mac_input(m: Msg2Model) -> Seq<u8> {
    m.g_b + m.spid + spec_u16_le(m.quote_type) + spec_u16_le(m.kdf_id)
        + m.sign_gb_ga + spec_enc_opt_var(m.sig_rl)
}

/// Canonical encoding of MSG2.
pub open spec fn spec_enc_msg2(m: Msg2Model) -> Seq<u8> {
    m.g_b + m.spid + spec_u16_le(m.quote_type) + spec_u16_le(m.kdf_id)
        + m.sign_gb_ga + m.mac + spec_enc_opt_var(m.sig_rl)
}

/// Canonical encoding of the fields of MSG3 other than the MAC, in
/// declaration order: the MAC of MSG3 is computed over exactly these bytes.
pub open spec fn spec_msg3_mac_input(m: Msg3Model) -> Seq<u8> {
    m.g_a + spec_enc_opt_fixed(m.ps_sec_prop) + m.quote
}

/// Canonical encoding of MSG3.
pub open spec fn spec_enc_msg3(m: Msg3Model) -> Seq<u8> {
    m.mac + m.g_a + spec_enc_opt_fixed(m.ps_sec_prop) + m.quote
}

/// Canonical encoding of MSG4.
pub open spec fn spec_enc_msg4(m: Msg4Model) -> Seq<u8> {
    spec_enc_bool(m.is_enclave_trusted) + spec_enc_opt_bool(m.is_pse_manifest_trusted)
        + spec_enc_opt_fixed(m.pib)
}

} // verus!
