//! End-to-end sessions over the verified protocol logic, with the real
//! cryptographic primitives linked in.

use aes::Aes128;
use cmac::{Cmac, Mac};
use p256::ecdsa::signature::Signer;
use p256::ecdsa::SigningKey;
use p256::elliptic_curve::sec1::ToEncodedPoint;
use rand_core::OsRng;
use sha2::{Digest, Sha256};

use sgx_ra::client::{check_msg4, ClientRaContext};
use sgx_ra::codec::{decode_msg1, decode_msg2, decode_msg3, decode_msg4, encode_msg1,
    encode_msg2, encode_msg3, encode_msg4};
use sgx_ra::dhke::{dh_shared_le, gen_key_pair};
use sgx_ra::enclave::EnclaveRaContext;
use sgx_ra::kdf::{derive_kdk, derive_secret_keys};
use sgx_ra::msg::{RaMsg3, RaMsg4};
use sgx_ra::sp::{IasVerdict, Sigstruct, SpConfig, SpRaContext};
use sgx_ra::RaError;

fn sp_keypair() -> (Vec<u8>, Vec<u8>) {
    let sk = SigningKey::random(&mut OsRng);
    let sk_bytes = sk.to_bytes().to_vec();
    let pk = sk.verifying_key().to_encoded_point(false);
    (sk_bytes, pk.as_bytes()[1..].to_vec())
}

fn cmac_ref(key: &[u8], data: &[u8]) -> Vec<u8> {
    let mut m = <Cmac<Aes128> as Mac>::new_from_slice(key).unwrap();
    m.update(data);
    m.finalize().into_bytes().to_vec()
}

fn sha_ref(data: &[u8]) -> Vec<u8> {
    let mut h = Sha256::new();
    h.update(data);
    h.finalize().to_vec()
}

struct Rig {
    sp: SpRaContext,
    enclave: EnclaveRaContext,
    msg2: sgx_ra::msg::RaMsg2,
}

fn setup(trust: Vec<Vec<u8>>, pse_trust: Option<Vec<Vec<u8>>>) -> Rig {
    let (sp_sk, sp_vk) = sp_keypair();
    let enclave = EnclaveRaContext::init(sp_vk).unwrap();
    let client = ClientRaContext::init(vec![0, 1, 2, 3]).unwrap();
    let sigstruct = Sigstruct {
        enclavehash: vec![0x5a; 32],
        modulus: vec![0x77; 384],
        isvprodid: 4,
        isvsvn: 9,
        attributes_flags: 0,
    };
    let config = SpConfig {
        spid_hex: b"00112233445566778899aabbccddeeff".to_vec(),
        linkable: true,
        random_nonce: false,
        use_platform_service: false,
        quote_trust_options: trust,
        pse_trust_options: pse_trust,
    };
    let mut sp = SpRaContext::init(config, sigstruct, sp_sk).unwrap();
    assert_eq!(client.get_extended_epid_group_id().exgid, 0);
    let g_a = enclave.get_public_key();
    let msg1 = client.get_msg_1(g_a);
    let msg1 = decode_msg1(&encode_msg1(&msg1)).unwrap();
    let msg2 = sp.process_msg_1(&msg1, None).unwrap();
    let msg2 = decode_msg2(&encode_msg2(&msg2)).unwrap();
    Rig { sp, enclave, msg2 }
}

fn quote_for(sp: &SpRaContext, vd: &[u8], flags: u64) -> Vec<u8> {
    let mut q = vec![0u8; 432];
    q[96..104].copy_from_slice(&flags.to_le_bytes());
    q[112..144].copy_from_slice(&sp.sigstruct.enclavehash);
    q[176..208].copy_from_slice(&sha_ref(&sp.sigstruct.modulus));
    q[304..306].copy_from_slice(&sp.sigstruct.isvprodid.to_le_bytes());
    q[306..308].copy_from_slice(&sp.sigstruct.isvsvn.to_le_bytes());
    q[368..400].copy_from_slice(vd);
    q
}

fn ok_verdict() -> IasVerdict {
    IasVerdict {
        quote_status: b"OK".to_vec(),
        pse_manifest_status: None,
        platform_info_blob: None,
        epid_pseudonym: Some(b"pseudonym".to_vec()),
    }
}

#[test]
fn happy_path() {
    let mut rig = setup(Vec::new(), None);
    let session = rig.enclave.process_msg_2(&rig.msg2).unwrap();
    let quote = quote_for(&rig.sp, &session.vd, 0);
    let msg3 = EnclaveRaContext::accept_quote(&session, quote, true).unwrap();
    let msg3 = decode_msg3(&encode_msg3(&msg3)).unwrap();
    rig.sp.check_msg3(&msg3).unwrap();
    let (msg4, epid) = rig.sp.process_msg_3(&msg3, &ok_verdict(), true).unwrap();
    assert!(msg4.is_enclave_trusted);
    assert_eq!(msg4.is_pse_manifest_trusted, None);
    assert_eq!(epid, Some(b"pseudonym".to_vec()));
    let msg4 = decode_msg4(&encode_msg4(&msg4)).unwrap();
    check_msg4(&msg4).unwrap();

    // Both roles hold bit-for-bit equal signing and master keys.
    let (sk, mk) = rig.sp.take_keys();
    assert_eq!(sk, session.sk);
    assert_eq!(mk, session.mk);

    // Transcript binding: the quote carries SHA-256(g_a || g_b || vk).
    let mut transcript = session.g_a.clone();
    transcript.extend_from_slice(&session.g_b);
    transcript.extend_from_slice(&session.vk);
    assert_eq!(&msg3.quote[368..400], &sha_ref(&transcript)[..]);
}

#[test]
fn kdf_agreement_across_roles() {
    let a = gen_key_pair();
    let b = gen_key_pair();
    let shared_ab = dh_shared_le(&a.priv_key, &b.pub_wire).unwrap();
    let shared_ba = dh_shared_le(&b.priv_key, &a.pub_wire).unwrap();
    assert_eq!(shared_ab, shared_ba);
    let kdk_a = derive_kdk(&shared_ab);
    let kdk_b = derive_kdk(&shared_ba);
    assert_eq!(kdk_a, kdk_b);
    let keys_a = derive_secret_keys(&kdk_a);
    let keys_b = derive_secret_keys(&kdk_b);
    assert_eq!(keys_a, keys_b);
}

#[test]
fn kdf_formula_exact() {
    let shared = vec![0x42u8; 32];
    let kdk = derive_kdk(&shared);
    assert_eq!(kdk, cmac_ref(&[0u8; 16], &shared));
    let (smk, sk, mk, vk) = derive_secret_keys(&kdk);
    assert_eq!(smk, cmac_ref(&kdk, &[1, 0x53, 0x4d, 0x4b, 0, 0x80, 0]));
    assert_eq!(sk, cmac_ref(&kdk, &[1, 0x53, 0x4b, 0, 0x80, 0]));
    assert_eq!(mk, cmac_ref(&kdk, &[1, 0x4d, 0x4b, 0, 0x80, 0]));
    assert_eq!(vk, cmac_ref(&kdk, &[1, 0x56, 0x4b, 0, 0x80, 0]));
    let distinct = [&smk, &sk, &mk, &vk];
    for i in 0..4 {
        for j in (i + 1)..4 {
            assert_ne!(distinct[i], distinct[j]);
        }
    }
}

#[test]
fn group_out_of_date_with_permissive_policy() {
    let mut rig = setup(vec![b"GROUP_OUT_OF_DATE".to_vec()], None);
    let session = rig.enclave.process_msg_2(&rig.msg2).unwrap();
    let quote = quote_for(&rig.sp, &session.vd, 0);
    let msg3 = EnclaveRaContext::accept_quote(&session, quote, true).unwrap();
    let verdict = IasVerdict {
        quote_status: b"GROUP_OUT_OF_DATE".to_vec(),
        ..ok_verdict()
    };
    let (msg4, _) = rig.sp.process_msg_3(&msg3, &verdict, true).unwrap();
    assert!(msg4.is_enclave_trusted);
    check_msg4(&msg4).unwrap();
}

#[test]
fn wrong_enclave_measurement_rejected() {
    let mut rig = setup(Vec::new(), None);
    let session = rig.enclave.process_msg_2(&rig.msg2).unwrap();
    let mut quote = quote_for(&rig.sp, &session.vd, 0);
    for b in quote[112..144].iter_mut() {
        *b ^= 0xff;
    }
    let msg3 = EnclaveRaContext::accept_quote(&session, quote, true).unwrap();
    let r = rig.sp.process_msg_3(&msg3, &ok_verdict(), true);
    assert!(matches!(r, Err(RaError::SigstructMismatched)));
}

#[test]
fn transcript_tamper_rejected_at_sp() {
    // The client substitutes a foreign g_a into MSG1: the SP's
    // verification digest then differs from the one the enclave put in
    // the quote, and the digest check fails.
    let (sp_sk, _sp_vk) = sp_keypair();
    let sigstruct = Sigstruct {
        enclavehash: vec![0x5a; 32],
        modulus: vec![0x77; 384],
        isvprodid: 4,
        isvsvn: 9,
        attributes_flags: 0,
    };
    let config = SpConfig {
        spid_hex: b"00112233445566778899aabbccddeeff".to_vec(),
        linkable: true,
        random_nonce: false,
        use_platform_service: false,
        quote_trust_options: Vec::new(),
        pse_trust_options: None,
    };
    let mut sp = SpRaContext::init(config, sigstruct, sp_sk).unwrap();
    let foreign = gen_key_pair();
    let client = ClientRaContext::init(vec![0, 1, 2, 3]).unwrap();
    let msg1 = client.get_msg_1(foreign.pub_wire.clone());
    let msg2 = sp.process_msg_1(&msg1, None).unwrap();

    // The enclave-side digest would cover the enclave's own g_a; emulate
    // it with a digest over a different transcript.
    let honest = gen_key_pair();
    let mut transcript = honest.pub_wire.clone();
    transcript.extend_from_slice(&msg2.g_b);
    transcript.extend_from_slice(&[0u8; 16]);
    let enclave_vd = sha_ref(&transcript);
    let quote = quote_for(&sp, &enclave_vd, 0);

    // MAC the MSG3 under the SP's own session key so only the digest
    // check can reject.
    let mut msg3 = RaMsg3 {
        mac: Vec::new(),
        g_a: foreign.pub_wire.clone(),
        ps_sec_prop: None,
        quote,
    };
    let input = sgx_ra::codec::msg3_mac_input(&msg3);
    msg3.mac = sgx_ra::crypto::cmac128(&sp.session.as_ref().unwrap().smk, &input);
    assert!(matches!(sp.check_msg3(&msg3), Err(RaError::IntegrityError)));
    assert!(matches!(
        sp.process_msg_3(&msg3, &ok_verdict(), true),
        Err(RaError::IntegrityError)
    ));
}

#[test]
fn debug_enclave_rejected_in_release() {
    let mut rig = setup(Vec::new(), None);
    let session = rig.enclave.process_msg_2(&rig.msg2).unwrap();
    let quote = quote_for(&rig.sp, &session.vd, 2);
    let msg3 = EnclaveRaContext::accept_quote(&session, quote, true).unwrap();
    let r = rig.sp.process_msg_3(&msg3, &ok_verdict(), true);
    assert!(matches!(r, Err(RaError::EnclaveInDebugMode)));

    // In a debug build the same quote passes.
    let mut rig2 = setup(Vec::new(), None);
    let session2 = rig2.enclave.process_msg_2(&rig2.msg2).unwrap();
    let quote2 = quote_for(&rig2.sp, &session2.vd, 2);
    let msg3_2 = EnclaveRaContext::accept_quote(&session2, quote2, true).unwrap();
    assert!(rig2.sp.process_msg_3(&msg3_2, &ok_verdict(), false).is_ok());
}

#[test]
fn revoked_quote_distrusted_on_all_sides() {
    let mut rig = setup(vec![b"GROUP_OUT_OF_DATE".to_vec()], None);
    let session = rig.enclave.process_msg_2(&rig.msg2).unwrap();
    let quote = quote_for(&rig.sp, &session.vd, 0);
    let msg3 = EnclaveRaContext::accept_quote(&session, quote, true).unwrap();
    let verdict = IasVerdict { quote_status: b"REVOKED".to_vec(), ..ok_verdict() };
    let (msg4, _) = rig.sp.process_msg_3(&msg3, &verdict, true).unwrap();
    assert!(!msg4.is_enclave_trusted);
    let msg4 = decode_msg4(&encode_msg4(&msg4)).unwrap();
    assert!(matches!(check_msg4(&msg4), Err(RaError::EnclaveNotTrusted)));
}

#[test]
fn pse_verdicts_follow_policy() {
    let mut rig = setup(Vec::new(), Some(vec![b"OUT_OF_DATE".to_vec()]));
    let session = rig.enclave.process_msg_2(&rig.msg2).unwrap();
    let quote = quote_for(&rig.sp, &session.vd, 0);
    let msg3 = EnclaveRaContext::accept_quote(&session, quote, true).unwrap();
    let verdict = IasVerdict {
        pse_manifest_status: Some(b"OUT_OF_DATE".to_vec()),
        ..ok_verdict()
    };
    let (msg4, _) = rig.sp.process_msg_3(&msg3, &verdict, true).unwrap();
    assert_eq!(msg4.is_pse_manifest_trusted, Some(true));
    check_msg4(&msg4).unwrap();

    let mut rig2 = setup(Vec::new(), None);
    let session2 = rig2.enclave.process_msg_2(&rig2.msg2).unwrap();
    let quote2 = quote_for(&rig2.sp, &session2.vd, 0);
    let msg3_2 = EnclaveRaContext::accept_quote(&session2, quote2, true).unwrap();
    let verdict2 = IasVerdict {
        pse_manifest_status: Some(b"INVALID".to_vec()),
        ..ok_verdict()
    };
    let (msg4_2, _) = rig2.sp.process_msg_3(&msg3_2, &verdict2, true).unwrap();
    assert_eq!(msg4_2.is_pse_manifest_trusted, Some(false));
    assert!(matches!(check_msg4(&msg4_2), Err(RaError::PseNotTrusted)));
}

#[test]
fn msg2_bit_flip_rejected_by_enclave() {
    // A flipped MAC byte fails the integrity check.
    let mut rig = setup(Vec::new(), None);
    let mut tampered = rig.msg2;
    tampered.mac[0] ^= 1;
    assert!(matches!(
        rig.enclave.process_msg_2(&tampered),
        Err(RaError::IntegrityError)
    ));

    // A flipped byte in a MAC-covered field fails the integrity check.
    let mut rig2 = setup(Vec::new(), None);
    let mut tampered2 = rig2.msg2;
    tampered2.spid[3] ^= 1;
    assert!(matches!(
        rig2.enclave.process_msg_2(&tampered2),
        Err(RaError::IntegrityError)
    ));

    // A flipped byte under the signature fails authentication first.
    let mut rig3 = setup(Vec::new(), None);
    let mut tampered3 = rig3.msg2;
    tampered3.sign_gb_ga[10] ^= 1;
    assert!(matches!(
        rig3.enclave.process_msg_2(&tampered3),
        Err(RaError::SignatureInvalid)
    ));
}

#[test]
fn msg3_bit_flip_rejected_by_sp() {
    let mut rig = setup(Vec::new(), None);
    let session = rig.enclave.process_msg_2(&rig.msg2).unwrap();
    let quote = quote_for(&rig.sp, &session.vd, 0);
    let msg3 = EnclaveRaContext::accept_quote(&session, quote, true).unwrap();
    let mut flipped_mac = decode_msg3(&encode_msg3(&msg3)).unwrap();
    flipped_mac.mac[5] ^= 0x80;
    assert!(matches!(rig.sp.check_msg3(&flipped_mac), Err(RaError::IntegrityError)));
    let mut flipped_quote = msg3;
    flipped_quote.quote[50] ^= 0x80;
    assert!(matches!(rig.sp.check_msg3(&flipped_quote), Err(RaError::IntegrityError)));
}

#[test]
fn forged_signature_rejected() {
    // MSG2 signed under a different SP key fails verification.
    let (sp_sk_other, _) = sp_keypair();
    let (_, sp_vk) = sp_keypair();
    let mut enclave = EnclaveRaContext::init(sp_vk).unwrap();
    let sigstruct = Sigstruct {
        enclavehash: vec![0; 32],
        modulus: vec![0; 384],
        isvprodid: 0,
        isvsvn: 0,
        attributes_flags: 0,
    };
    let config = SpConfig {
        spid_hex: b"00112233445566778899aabbccddeeff".to_vec(),
        linkable: true,
        random_nonce: false,
        use_platform_service: false,
        quote_trust_options: Vec::new(),
        pse_trust_options: None,
    };
    let mut sp = SpRaContext::init(config, sigstruct, sp_sk_other).unwrap();
    let client = ClientRaContext::init(vec![0, 1, 2, 3]).unwrap();
    let msg1 = client.get_msg_1(enclave.get_public_key());
    let msg2 = sp.process_msg_1(&msg1, None).unwrap();
    assert!(matches!(enclave.process_msg_2(&msg2), Err(RaError::SignatureInvalid)));
}

#[test]
fn replayed_msg2_rejected_in_fresh_session() {
    // A MSG2 captured in one session fails in another: the signature
    // covers the fresh session's g_a, so authentication already rejects
    // it, before the MAC under the stale SMK could.
    let (sp_sk, sp_vk) = sp_keypair();
    let mut enclave1 = EnclaveRaContext::init(sp_vk.clone()).unwrap();
    let mut enclave2 = EnclaveRaContext::init(sp_vk).unwrap();
    let sigstruct = Sigstruct {
        enclavehash: vec![0; 32],
        modulus: vec![0; 384],
        isvprodid: 0,
        isvsvn: 0,
        attributes_flags: 0,
    };
    let config = SpConfig {
        spid_hex: b"00112233445566778899aabbccddeeff".to_vec(),
        linkable: true,
        random_nonce: false,
        use_platform_service: false,
        quote_trust_options: Vec::new(),
        pse_trust_options: None,
    };
    let mut sp = SpRaContext::init(config, sigstruct, sp_sk).unwrap();
    let client = ClientRaContext::init(vec![0, 1, 2, 3]).unwrap();
    let msg1 = client.get_msg_1(enclave1.get_public_key());
    let msg2 = sp.process_msg_1(&msg1, None).unwrap();
    assert!(enclave1.process_msg_2(&msg2).is_ok());
    assert!(matches!(enclave2.process_msg_2(&msg2), Err(RaError::SignatureInvalid)));
}

#[test]
fn local_attestation_failure_rejects_quote() {
    let mut rig = setup(Vec::new(), None);
    let session = rig.enclave.process_msg_2(&rig.msg2).unwrap();
    let quote = quote_for(&rig.sp, &session.vd, 0);
    let r = EnclaveRaContext::accept_quote(&session, quote, false);
    assert!(matches!(r, Err(RaError::LocalAttestation)));
}

#[test]
fn report_data_padding() {
    let vd = vec![0xabu8; 32];
    let padded = EnclaveRaContext::pad_report_data(&vd).unwrap();
    assert_eq!(padded.len(), 64);
    assert_eq!(&padded[..32], &vd[..]);
    assert!(padded[32..].iter().all(|b| *b == 0));
    let too_long = vec![0u8; 65];
    assert!(matches!(
        EnclaveRaContext::pad_report_data(&too_long),
        Err(RaError::ReportDataTooLong)
    ));
}

#[test]
fn init_validation() {
    // A malformed SPID is rejected at SP init.
    let sigstruct = Sigstruct {
        enclavehash: vec![0; 32],
        modulus: vec![0; 384],
        isvprodid: 0,
        isvsvn: 0,
        attributes_flags: 0,
    };
    let config = SpConfig {
        spid_hex: b"not hex at all, not even close!!".to_vec(),
        linkable: true,
        random_nonce: false,
        use_platform_service: false,
        quote_trust_options: Vec::new(),
        pse_trust_options: None,
    };
    let (sp_sk, _) = sp_keypair();
    assert!(matches!(
        SpRaContext::init(config, sigstruct, sp_sk),
        Err(RaError::CryptoError)
    ));

    // A group id of the wrong width is rejected at client init.
    assert!(matches!(
        ClientRaContext::init(vec![0, 1, 2]),
        Err(RaError::AesmError)
    ));

    // A verification key of the wrong width is rejected at enclave init.
    assert!(matches!(
        EnclaveRaContext::init(vec![0; 63]),
        Err(RaError::CryptoError)
    ));
}

#[test]
fn spid_decoding_exact() {
    let sigstruct = Sigstruct {
        enclavehash: vec![0; 32],
        modulus: vec![0; 384],
        isvprodid: 0,
        isvsvn: 0,
        attributes_flags: 0,
    };
    let config = SpConfig {
        spid_hex: b"00ff10AbCd0000000000000000000001".to_vec(),
        linkable: true,
        random_nonce: false,
        use_platform_service: false,
        quote_trust_options: Vec::new(),
        pse_trust_options: None,
    };
    let (sp_sk, _) = sp_keypair();
    let sp = SpRaContext::init(config, sigstruct, sp_sk).unwrap();
    assert_eq!(
        sp.spid,
        vec![0x00, 0xff, 0x10, 0xab, 0xcd, 0, 0, 0, 0, 0, 0, 0, 0, 0, 0, 1]
    );
}

#[test]
fn msg4_assembly_from_client() {
    let mac = vec![1u8; 16];
    let g_a = vec![2u8; 64];
    let quote = vec![3u8; 432];
    let m3 = ClientRaContext::assemble_msg3(mac.clone(), g_a.clone(), quote.clone());
    assert_eq!(m3.mac, mac);
    assert_eq!(m3.g_a, g_a);
    assert_eq!(m3.ps_sec_prop, None);
    assert_eq!(m3.quote, quote);

    let m4 = RaMsg4 {
        is_enclave_trusted: true,
        is_pse_manifest_trusted: Some(true),
        pib: None,
    };
    check_msg4(&m4).unwrap();
}

#[test]
fn digest_and_mac_wrappers_transform_their_input() {
    // If the digest wrapper handed its input back, the length would be
    // the transcript's, not 32.
    let vd = sgx_ra::kdf::verification_digest(&vec![1u8; 64], &vec![2u8; 64], &vec![3u8; 16]);
    assert_eq!(vd.len(), 32);
    let mut transcript = vec![1u8; 64];
    transcript.extend_from_slice(&vec![2u8; 64]);
    transcript.extend_from_slice(&vec![3u8; 16]);
    assert_eq!(vd, sha_ref(&transcript));

    // A MAC differs from its input and from a MAC under another key.
    let key1 = vec![0u8; 16];
    let key2 = vec![1u8; 16];
    let data = vec![9u8; 16];
    let t1 = sgx_ra::crypto::cmac128(&key1, &data);
    let t2 = sgx_ra::crypto::cmac128(&key2, &data);
    assert_ne!(t1, data);
    assert_ne!(t1, t2);
    assert_eq!(t1, cmac_ref(&key1, &data));
}

#[test]
fn invalid_peer_point_rejected() {
    // A MSG2 whose g_b is not a curve point fails with a crypto error,
    // even under a valid SP signature over the transcript.
    let (sp_sk, sp_vk) = sp_keypair();
    let mut enclave = EnclaveRaContext::init(sp_vk).unwrap();
    let g_a = enclave.get_public_key();
    let g_b = vec![0xffu8; 64];
    let mut signed = g_b.clone();
    signed.extend_from_slice(&g_a);
    let sig: p256::ecdsa::Signature = SigningKey::from_slice(&sp_sk).unwrap().sign(&signed);
    let sign_gb_ga = sgx_ra::kdf::swap_halves_64(&sig.to_bytes().to_vec());
    let msg2 = sgx_ra::msg::RaMsg2 {
        g_b,
        spid: vec![0; 16],
        quote_type: 1,
        kdf_id: 1,
        sign_gb_ga,
        mac: vec![0; 16],
        sig_rl: None,
    };
    assert!(matches!(enclave.process_msg_2(&msg2), Err(RaError::CryptoError)));
}
