//! Canonical wire codec for MSG0..MSG4.
//!
//! `encode_*` emits exactly the canonical encoding; `decode_*` accepts a
//! byte string exactly when it is the canonical encoding of some message,
//! and returns that message. The round-trip lemmas state that decoding an
//! encoding yields the message encoded.

use vstd::prelude::*;
use crate::RaError;
use crate::bytes::{
    spec_u16_le, spec_u16_of_le, spec_u32_le, spec_u32_of_le, spec_u64_le, spec_u64_of_le,
    lemma_u16_le_roundtrip, lemma_u32_le_roundtrip, lemma_u64_le_roundtrip, sub_bytes,
    append_bytes,
};
use crate::msg::{
    RaMsg0, RaMsg1, RaMsg2, RaMsg3, RaMsg4, Msg1Model, Msg2Model, Msg3Model, Msg4Model,
    wf_msg1, wf_msg2, wf_msg3, wf_msg4, spec_enc_bool, spec_enc_opt_fixed, spec_enc_opt_var,
    spec_enc_opt_bool, spec_enc_msg0, spec_enc_msg1, spec_enc_msg2, spec_enc_msg3,
    spec_enc_msg4, spec_msg2_mac_input, spec_msg3_mac_input,
};

verus! {

/// The model of an optional byte vector.
pub open spec fn opt_bytes_view(o: Option<Vec<u8>>) -> Option<Seq<u8>> {
    match o {
        Some(v) => Some(v@),
        None => None,
    }
}

fn push_u16_le(dst: &mut Vec<u8>, x: u16)
    ensures
        final(dst)@ == old(dst)@ + spec_u16_le(x),
{
    proof {
        assert(x & 0xff < 256 && (x >> 8) & 0xff < 256) by (bit_vector);
    }
    dst.push((x & 0xff) as u8);
    dst.push(((x >> 8) & 0xff) as u8);
    assert(dst@ =~= old(dst)@ + spec_u16_le(x));
}

fn push_u32_le(dst: &mut Vec<u8>, x: u32)
    ensures
        final(dst)@ == old(dst)@ + spec_u32_le(x),
{
    proof {
        assert(x & 0xff < 256 && (x >> 8) & 0xff < 256 && (x >> 16) & 0xff < 256
            && (x >> 24) & 0xff < 256) by (bit_vector);
    }
    dst.push((x & 0xff) as u8);
    dst.push(((x >> 8) & 0xff) as u8);
    dst.push(((x >> 16) & 0xff) as u8);
    dst.push(((x >> 24) & 0xff) as u8);
    assert(dst@ =~= old(dst)@ + spec_u32_le(x));
}

fn push_u64_le(dst: &mut Vec<u8>, x: u64)
    ensures
        final(dst)@ == old(dst)@ + spec_u64_le(x),
{
    proof {
        assert(x & 0xff < 256 && (x >> 8) & 0xff < 256 && (x >> 16) & 0xff < 256
            && (x >> 24) & 0xff < 256 && (x >> 32) & 0xff < 256 && (x >> 40) & 0xff < 256
            && (x >> 48) & 0xff < 256 && (x >> 56) & 0xff < 256) by (bit_vector);
    }
    dst.push((x & 0xff) as u8);
    dst.push(((x >> 8) & 0xff) as u8);
    dst.push(((x >> 16) & 0xff) as u8);
    dst.push(((x >> 24) & 0xff) as u8);
    dst.push(((x >> 32) & 0xff) as u8);
    dst.push(((x >> 40) & 0xff) as u8);
    dst.push(((x >> 48) & 0xff) as u8);
    dst.push(((x >> 56) & 0xff) as u8);
    assert(dst@ =~= old(dst)@ + spec_u64_le(x));
}

fn push_bool(dst: &mut Vec<u8>, b: bool)
    ensures
        final(dst)@ == old(dst)@ + spec_enc_bool(b),
{
    if b {
        dst.push(1u8);
    } else {
        dst.push(0u8);
    }
    assert(dst@ =~= old(dst)@ + spec_enc_bool(b));
}

fn push_opt_fixed(dst: &mut Vec<u8>, o: &Option<Vec<u8>>)
    ensures
        final(dst)@ == old(dst)@ + spec_enc_opt_fixed(opt_bytes_view(*o)),
{
    match o {
        None => {
            dst.push(0u8);
            assert(dst@ =~= old(dst)@ + spec_enc_opt_fixed(opt_bytes_view(*o)));
        },
        Some(p) => {
            dst.push(1u8);
            append_bytes(dst, p);
            assert(dst@ =~= old(dst)@ + spec_enc_opt_fixed(opt_bytes_view(*o)));
        },
    }
}

fn push_opt_var(dst: &mut Vec<u8>, o: &Option<Vec<u8>>)
    ensures
        final(dst)@ == old(dst)@ + spec_enc_opt_var(opt_bytes_view(*o)),
{
    match o {
        None => {
            dst.push(0u8);
            assert(dst@ =~= old(dst)@ + spec_enc_opt_var(opt_bytes_view(*o)));
        },
        Some(rl) => {
            dst.push(1u8);
            push_u64_le(dst, rl.len() as u64);
            append_bytes(dst, rl);
            assert(dst@ =~= old(dst)@ + spec_enc_opt_var(opt_bytes_view(*o)));
        },
    }
}

fn read_u16_le(b: &Vec<u8>, i: usize) -> (r: u16)
    requires
        i + 2 <= b@.len(),
    ensures
        r == spec_u16_of_le(b@[i as int], b@[i + 1]),
{
    let _n: usize = b.len();
    b[i] as u16 | ((b[i + 1] as u16) << 8)
}

fn read_u32_le(b: &Vec<u8>, i: usize) -> (r: u32)
    requires
        i + 4 <= b@.len(),
    ensures
        r == spec_u32_of_le(b@[i as int], b@[i + 1], b@[i + 2], b@[i + 3]),
{
    let _n: usize = b.len();
    b[i] as u32 | ((b[i + 1] as u32) << 8) | ((b[i + 2] as u32) << 16)
        | ((b[i + 3] as u32) << 24)
}

fn read_u64_le(b: &Vec<u8>, i: usize) -> (r: u64)
    requires
        i + 8 <= b@.len(),
    ensures
        r == spec_u64_of_le(b@.subrange(i as int, i + 8)),
{
    let _n: usize = b.len();
    let r = b[i] as u64 | ((b[i + 1] as u64) << 8) | ((b[i + 2] as u64) << 16)
        | ((b[i + 3] as u64) << 24) | ((b[i + 4] as u64) << 32) | ((b[i + 5] as u64) << 40)
        | ((b[i + 6] as u64) << 48) | ((b[i + 7] as u64) << 56);
    proof {
        let s = b@.subrange(i as int, i + 8);
        assert(s[0] == b@[i as int] && s[1] == b@[i + 1] && s[2] == b@[i + 2]
            && s[3] == b@[i + 3] && s[4] == b@[i + 4] && s[5] == b@[i + 5]
            && s[6] == b@[i + 6] && s[7] == b@[i + 7]);
    }
    r
}

/// Encode MSG0.
pub fn encode_msg0(m: &RaMsg0) -> (r: Vec<u8>)
    ensures
        r@ == spec_enc_msg0(m.exgid),
{
    let mut out: Vec<u8> = Vec::new();
    push_u32_le(&mut out, m.exgid);
    out
}

/// Encode MSG1.
pub fn encode_msg1(m: &RaMsg1) -> (r: Vec<u8>)
    ensures
        r@ == spec_enc_msg1(m@),
{
    let mut out: Vec<u8> = Vec::new();
    append_bytes(&mut out, &m.gid);
    append_bytes(&mut out, &m.g_a);
    assert(out@ =~= spec_enc_msg1(m@));
    out
}

/// Encode MSG2.
pub fn encode_msg2(m: &RaMsg2) -> (r: Vec<u8>)
    ensures
        r@ == spec_enc_msg2(m@),
{
    let mut out: Vec<u8> = Vec::new();
    append_bytes(&mut out, &m.g_b);
    append_bytes(&mut out, &m.spid);
    push_u16_le(&mut out, m.quote_type);
    push_u16_le(&mut out, m.kdf_id);
    append_bytes(&mut out, &m.sign_gb_ga);
    append_bytes(&mut out, &m.mac);
    push_opt_var(&mut out, &m.sig_rl);
    assert(out@ =~= spec_enc_msg2(m@));
    out
}

/// The bytes the MAC of MSG2 covers: every field but the MAC itself,
/// canonically encoded in declaration order.
pub fn msg2_mac_input(m: &RaMsg2) -> (r: Vec<u8>)
    ensures
        r@ == spec_msg2_mac_input(m@),
{
    let mut out: Vec<u8> = Vec::new();
    append_bytes(&mut out, &m.g_b);
    append_bytes(&mut out, &m.spid);
    push_u16_le(&mut out, m.quote_type);
    push_u16_le(&mut out, m.kdf_id);
    append_bytes(&mut out, &m.sign_gb_ga);
    push_opt_var(&mut out, &m.sig_rl);
    assert(out@ =~= spec_msg2_mac_input(m@));
    out
}

/// Encode MSG3.
pub fn encode_msg3(m: &RaMsg3) -> (r: Vec<u8>)
    ensures
        r@ == spec_enc_msg3(m@),
{
    let mut out: Vec<u8> = Vec::new();
    append_bytes(&mut out, &m.mac);
    append_bytes(&mut out, &m.g_a);
    push_opt_fixed(&mut out, &m.ps_sec_prop);
    append_bytes(&mut out, &m.quote);
    assert(out@ =~= spec_enc_msg3(m@));
    out
}

/// The bytes the MAC of MSG3 covers: every field but the MAC itself,
/// canonically encoded in declaration order.
pub fn msg3_mac_input(m: &RaMsg3) -> (r: Vec<u8>)
    ensures
        r@ == spec_msg3_mac_input(m@),
{
    let mut out: Vec<u8> = Vec::new();
    append_bytes(&mut out, &m.g_a);
    push_opt_fixed(&mut out, &m.ps_sec_prop);
    append_bytes(&mut out, &m.quote);
    assert(out@ =~= spec_msg3_mac_input(m@));
    out
}

/// Encode MSG4.
pub fn encode_msg4(m: &RaMsg4) -> (r: Vec<u8>)
    ensures
        r@ == spec_enc_msg4(m@),
{
    let mut out: Vec<u8> = Vec::new();
    push_bool(&mut out, m.is_enclave_trusted);
    match m.is_pse_manifest_trusted {
        None => out.push(0u8),
        Some(t) => {
            out.push(1u8);
            push_bool(&mut out, t);
        },
    }
    push_opt_fixed(&mut out, &m.pib);
    assert(out@ =~= spec_enc_msg4(m@));
    out
}

/// What a boolean byte decodes to, if anything.
pub open spec fn spec_dec_bool(x: u8) -> Option<bool> {
    if x == 0 {
        Some(false)
    } else if x == 1 {
        Some(true)
    } else {
        None
    }
}

/// What MSG0 a byte string is the canonical encoding of, if any.
pub open spec fn spec_dec_msg0(b: Seq<u8>) -> Option<u32> {
    if b.len() == 4 {
        Some(spec_u32_of_le(b[0], b[1], b[2], b[3]))
    } else {
        None
    }
}

/// What MSG1 a byte string is the canonical encoding of, if any.
pub open spec fn spec_dec_msg1(b: Seq<u8>) -> Option<Msg1Model> {
    if b.len() == 68 {
        Some(Msg1Model { gid: b.subrange(0, 4), g_a: b.subrange(4, 68) })
    } else {
        None
    }
}

/// What MSG2 a byte string is the canonical encoding of, if any.
pub open spec fn spec_dec_msg2(b: Seq<u8>) -> Option<Msg2Model> {
    if b.len() < 165 {
        None
    } else {
        let m = Msg2Model {
            g_b: b.subrange(0, 64),
            spid: b.subrange(64, 80),
            quote_type: spec_u16_of_le(b[80], b[81]),
            kdf_id: spec_u16_of_le(b[82], b[83]),
            sign_gb_ga: b.subrange(84, 148),
            mac: b.subrange(148, 164),
            sig_rl: None,
        };
        if b[164] == 0 {
            if b.len() == 165 {
                Some(m)
            } else {
                None
            }
        } else if b[164] == 1 {
            if b.len() < 173 {
                None
            } else if b.len() == 173 + spec_u64_of_le(b.subrange(165, 173)) {
                Some(Msg2Model { sig_rl: Some(b.subrange(173, b.len() as int)), ..m })
            } else {
                None
            }
        } else {
            None
        }
    }
}

/// What MSG3 a byte string is the canonical encoding of, if any.
pub open spec fn spec_dec_msg3(b: Seq<u8>) -> Option<Msg3Model> {
    if b.len() < 81 {
        None
    } else {
        let m = Msg3Model {
            mac: b.subrange(0, 16),
            g_a: b.subrange(16, 80),
            ps_sec_prop: None,
            quote: Seq::empty(),
        };
        if b[80] == 0 {
            if b.len() == 513 {
                Some(Msg3Model { quote: b.subrange(81, 513), ..m })
            } else {
                None
            }
        } else if b[80] == 1 {
            if b.len() == 769 {
                Some(Msg3Model {
                    ps_sec_prop: Some(b.subrange(81, 337)),
                    quote: b.subrange(337, 769),
                    ..m
                })
            } else {
                None
            }
        } else {
            None
        }
    }
}

/// What MSG4 a byte string is the canonical encoding of, if any.
pub open spec fn spec_dec_msg4(b: Seq<u8>) -> Option<Msg4Model> {
    if b.len() < 2 {
        None
    } else {
        match spec_dec_bool(b[0]) {
            None => None,
            Some(t) => {
                let (pse, p) = if b[1] == 0 {
                    (Some(Option::<bool>::None), 2int)
                } else if b[1] == 1 && b.len() >= 3 && spec_dec_bool(b[2]) is Some {
                    (Some(Some(spec_dec_bool(b[2])->Some_0)), 3int)
                } else {
                    (None, 0int)
                };
                match pse {
                    None => None,
                    Some(pse) => {
                        if b.len() < p + 1 {
                            None
                        } else if b[p] == 0 {
                            if b.len() == p + 1 {
                                Some(Msg4Model {
                                    is_enclave_trusted: t,
                                    is_pse_manifest_trusted: pse,
                                    pib: None,
                                })
                            } else {
                                None
                            }
                        } else if b[p] == 1 {
                            if b.len() == p + 257 {
                                Some(Msg4Model {
                                    is_enclave_trusted: t,
                                    is_pse_manifest_trusted: pse,
                                    pib: Some(b.subrange(p + 1, p + 257)),
                                })
                            } else {
                                None
                            }
                        } else {
                            None
                        }
                    },
                }
            },
        }
    }
}

/// Decode MSG0: accepts exactly the canonical encodings.
pub fn decode_msg0(b: &Vec<u8>) -> (r: Result<RaMsg0, RaError>)
    ensures
        (r is Ok) == (spec_dec_msg0(b@) is Some),
        r is Ok ==> r->Ok_0.exgid == spec_dec_msg0(b@)->Some_0,
        r is Err ==> r->Err_0 == RaError::CryptoError,
{
    if b.len() != 4 {
        return Err(RaError::CryptoError);
    }
    Ok(RaMsg0 { exgid: read_u32_le(b, 0) })
}

/// Decode MSG1: accepts exactly the canonical encodings.
pub fn decode_msg1(b: &Vec<u8>) -> (r: Result<RaMsg1, RaError>)
    ensures
        (r is Ok) == (spec_dec_msg1(b@) is Some),
        r is Ok ==> r->Ok_0@ == spec_dec_msg1(b@)->Some_0,
        r is Ok ==> wf_msg1(r->Ok_0@),
        r is Err ==> r->Err_0 == RaError::CryptoError,
{
    if b.len() != 68 {
        return Err(RaError::CryptoError);
    }
    let gid = sub_bytes(b, 0, 4);
    let g_a = sub_bytes(b, 4, 68);
    Ok(RaMsg1 { gid, g_a })
}

/// Decode MSG2: accepts exactly the canonical encodings.
pub fn decode_msg2(b: &Vec<u8>) -> (r: Result<RaMsg2, RaError>)
    ensures
        (r is Ok) == (spec_dec_msg2(b@) is Some),
        r is Ok ==> r->Ok_0@ == spec_dec_msg2(b@)->Some_0,
        r is Ok ==> wf_msg2(r->Ok_0@),
        r is Err ==> r->Err_0 == RaError::CryptoError,
{
    if b.len() < 165 {
        return Err(RaError::CryptoError);
    }
    let g_b = sub_bytes(b, 0, 64);
    let spid = sub_bytes(b, 64, 80);
    let quote_type = read_u16_le(b, 80);
    let kdf_id = read_u16_le(b, 82);
    let sign_gb_ga = sub_bytes(b, 84, 148);
    let mac = sub_bytes(b, 148, 164);
    let tag = b[164];
    if tag == 0 {
        if b.len() != 165 {
            return Err(RaError::CryptoError);
        }
        Ok(RaMsg2 { g_b, spid, quote_type, kdf_id, sign_gb_ga, mac, sig_rl: None })
    } else if tag == 1 {
        if b.len() < 173 {
            return Err(RaError::CryptoError);
        }
        let n = read_u64_le(b, 165);
        let rem = (b.len() - 173) as u64;
        if n != rem {
            return Err(RaError::CryptoError);
        }
        let rl = sub_bytes(b, 173, b.len());
        Ok(RaMsg2 { g_b, spid, quote_type, kdf_id, sign_gb_ga, mac, sig_rl: Some(rl) })
    } else {
        Err(RaError::CryptoError)
    }
}

/// Decode MSG3: accepts exactly the canonical encodings.
pub fn decode_msg3(b: &Vec<u8>) -> (r: Result<RaMsg3, RaError>)
    ensures
        (r is Ok) == (spec_dec_msg3(b@) is Some),
        r is Ok ==> r->Ok_0@ == spec_dec_msg3(b@)->Some_0,
        r is Ok ==> wf_msg3(r->Ok_0@),
        r is Err ==> r->Err_0 == RaError::CryptoError,
{
    if b.len() < 81 {
        return Err(RaError::CryptoError);
    }
    let mac = sub_bytes(b, 0, 16);
    let g_a = sub_bytes(b, 16, 80);
    let tag = b[80];
    if tag == 0 {
        if b.len() != 513 {
            return Err(RaError::CryptoError);
        }
        let quote = sub_bytes(b, 81, 513);
        Ok(RaMsg3 { mac, g_a, ps_sec_prop: None, quote })
    } else if tag == 1 {
        if b.len() != 769 {
            return Err(RaError::CryptoError);
        }
        let ps = sub_bytes(b, 81, 337);
        let quote = sub_bytes(b, 337, 769);
        Ok(RaMsg3 { mac, g_a, ps_sec_prop: Some(ps), quote })
    } else {
        Err(RaError::CryptoError)
    }
}

/// Decode MSG4: accepts exactly the canonical encodings.
pub fn decode_msg4(b: &Vec<u8>) -> (r: Result<RaMsg4, RaError>)
    ensures
        (r is Ok) == (spec_dec_msg4(b@) is Some),
        r is Ok ==> r->Ok_0@ == spec_dec_msg4(b@)->Some_0,
        r is Ok ==> wf_msg4(r->Ok_0@),
        r is Err ==> r->Err_0 == RaError::CryptoError,
{
    if b.len() < 2 {
        return Err(RaError::CryptoError);
    }
    let t: bool = if b[0] == 0 {
        false
    } else if b[0] == 1 {
        true
    } else {
        return Err(RaError::CryptoError);
    };
    let pse: Option<bool>;
    let p: usize;
    if b[1] == 0 {
        pse = None;
        p = 2;
    } else if b[1] == 1 {
        if b.len() < 3 {
            return Err(RaError::CryptoError);
        }
        if b[2] == 0 {
            pse = Some(false);
        } else if b[2] == 1 {
            pse = Some(true);
        } else {
            return Err(RaError::CryptoError);
        }
        p = 3;
    } else {
        return Err(RaError::CryptoError);
    }
    if b.len() < p + 1 {
        return Err(RaError::CryptoError);
    }
    if b[p] == 0 {
        if b.len() != p + 1 {
            return Err(RaError::CryptoError);
        }
        Ok(RaMsg4 { is_enclave_trusted: t, is_pse_manifest_trusted: pse, pib: None })
    } else if b[p] == 1 {
        if b.len() != p + 257 {
            return Err(RaError::CryptoError);
        }
        let pib = sub_bytes(b, p + 1, p + 257);
        Ok(RaMsg4 { is_enclave_trusted: t, is_pse_manifest_trusted: pse, pib: Some(pib) })
    } else {
        Err(RaError::CryptoError)
    }
}

/// Decoding the canonical encoding of MSG0 yields the value encoded.
pub proof fn lemma_msg0_roundtrip(exgid: u32)
    ensures
        spec_dec_msg0(spec_enc_msg0(exgid)) == Some(exgid),
{
    lemma_u32_le_roundtrip(exgid);
}

/// Decoding the canonical encoding of a well-formed MSG1 yields the message
/// encoded.
pub proof fn lemma_msg1_roundtrip(m: Msg1Model)
    requires
        wf_msg1(m),
    ensures
        spec_dec_msg1(spec_enc_msg1(m)) == Some(m),
{
    let e = spec_enc_msg1(m);
    assert(e.subrange(0, 4) =~= m.gid);
    assert(e.subrange(4, 68) =~= m.g_a);
}

/// Decoding the canonical encoding of a well-formed MSG2 yields the message
/// encoded.
pub proof fn lemma_msg2_roundtrip(m: Msg2Model)
    requires
        wf_msg2(m),
    ensures
        spec_dec_msg2(spec_enc_msg2(m)) == Some(m),
{
    let e = spec_enc_msg2(m);
    lemma_u16_le_roundtrip(m.quote_type);
    lemma_u16_le_roundtrip(m.kdf_id);
    assert(e.subrange(0, 64) =~= m.g_b);
    assert(e.subrange(64, 80) =~= m.spid);
    assert(e[80] == spec_u16_le(m.quote_type)[0] && e[81] == spec_u16_le(m.quote_type)[1]);
    assert(e[82] == spec_u16_le(m.kdf_id)[0] && e[83] == spec_u16_le(m.kdf_id)[1]);
    assert(e.subrange(84, 148) =~= m.sign_gb_ga);
    assert(e.subrange(148, 164) =~= m.mac);
    match m.sig_rl {
        None => {
            assert(e.len() == 165 && e[164] == 0);
        },
        Some(rl) => {
            let n = rl.len() as u64;
            lemma_u64_le_roundtrip(n);
            assert(e.len() == 173 + rl.len() && e[164] == 1);
            assert(e.subrange(165, 173) =~= spec_u64_le(n));
            assert(spec_u64_of_le(e.subrange(165, 173)) == rl.len());
            assert(e.subrange(173, e.len() as int) =~= rl);
        },
    }
}

/// Decoding the canonical encoding of a well-formed MSG3 yields the message
/// encoded.
pub proof fn lemma_msg3_roundtrip(m: Msg3Model)
    requires
        wf_msg3(m),
    ensures
        spec_dec_msg3(spec_enc_msg3(m)) == Some(m),
{
    let e = spec_enc_msg3(m);
    assert(e.subrange(0, 16) =~= m.mac);
    assert(e.subrange(16, 80) =~= m.g_a);
    match m.ps_sec_prop {
        None => {
            assert(e.len() == 513 && e[80] == 0);
            assert(e.subrange(81, 513) =~= m.quote);
        },
        Some(p) => {
            assert(e.len() == 769 && e[80] == 1);
            assert(e.subrange(81, 337) =~= p);
            assert(e.subrange(337, 769) =~= m.quote);
        },
    }
}

/// Decoding the canonical encoding of a well-formed MSG4 yields the message
/// encoded.
pub proof fn lemma_msg4_roundtrip(m: Msg4Model)
    requires
        wf_msg4(m),
    ensures
        spec_dec_msg4(spec_enc_msg4(m)) == Some(m),
{
    let e = spec_enc_msg4(m);
    let p: int = match m.is_pse_manifest_trusted {
        None => 2,
        Some(_) => 3,
    };
    match m.pib {
        None => {
            assert(e.len() == p + 1 && e[p] == 0);
        },
        Some(pb) => {
            assert(e.len() == p + 257 && e[p] == 1);
            assert(e.subrange(p + 1, p + 257) =~= pb);
        },
    }
}

} // verus!
