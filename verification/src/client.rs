//! The Client role: a transparent relay between enclave and SP.
//!
//! The client holds no secret material. It caches the EPID group id it got
//! from the quoting infrastructure, pairs it with the enclave's public key
//! to form MSG1, forwards MSG2 to the enclave, assembles MSG3 from the
//! enclave's MAC and the quote, and applies the MSG4 trust verdict. All
//! stream and AESM traffic stays with the caller.

use vstd::prelude::*;
use crate::RaError;
use crate::bytes::sub_bytes;
use crate::msg::{RaMsg0, RaMsg1, RaMsg2, RaMsg3, RaMsg4, wf_msg1, wf_msg3, GID_LEN, PUBKEY_LEN,
    MAC_LEN, QUOTE_LEN};

verus! {

/// The client's session context: the cached EPID group id.
pub struct ClientRaContext {
    pub gid: Vec<u8>,
}

impl ClientRaContext {
    /// Build a context from the group id the quoting infrastructure
    /// reported; rejects a group id that is not four bytes.
    pub fn init(gid: Vec<u8>) -> (r: Result<ClientRaContext, RaError>)
        ensures
            (r is Ok) == (gid@.len() == GID_LEN),
            r is Ok ==> r->Ok_0.gid@ == gid@,
            r is Err ==> r->Err_0 == RaError::AesmError,
    {
        if gid.len() != GID_LEN {
            return Err(RaError::AesmError);
        }
        Ok(ClientRaContext { gid })
    }

    /// MSG0: the extended EPID group id. Zero means IAS performs the
    /// attestation, the only mode supported.
    pub fn get_extended_epid_group_id(&self) -> (r: RaMsg0)
        ensures
            r.exgid == 0,
    {
        RaMsg0 { exgid: 0 }
    }

    /// MSG1: the cached group id paired with the enclave's public key.
    pub fn get_msg_1(&self, g_a: Vec<u8>) -> (r: RaMsg1)
        requires
            self.gid@.len() == GID_LEN,
            g_a@.len() == PUBKEY_LEN,
        ensures
            r@.gid == self.gid@,
            r@.g_a == g_a@,
            wf_msg1(r@),
    {
        let gid = sub_bytes(&self.gid, 0, self.gid.len());
        RaMsg1 { gid, g_a }
    }

    /// The quote request the client extracts from MSG2: the SP identifier
    /// and the signature revocation list (empty when absent).
    pub fn extract_quote_request(msg2: &RaMsg2) -> (r: (Vec<u8>, Vec<u8>))
        ensures
            r.0@ == msg2@.spid,
            r.1@ == match msg2@.sig_rl {
                Some(rl) => rl,
                None => Seq::<u8>::empty(),
            },
    {
        let spid = sub_bytes(&msg2.spid, 0, msg2.spid.len());
        let sig_rl: Vec<u8> = match &msg2.sig_rl {
            Some(rl) => sub_bytes(rl, 0, rl.len()),
            None => Vec::new(),
        };
        assert(sig_rl@ =~= match msg2@.sig_rl {
            Some(rl) => rl,
            None => Seq::<u8>::empty(),
        });
        (spid, sig_rl)
    }

    /// MSG3: the enclave's MAC over the remaining fields, the enclave
    /// public key from MSG1, no platform-services blob, and the quote.
    pub fn assemble_msg3(mac: Vec<u8>, g_a: Vec<u8>, quote: Vec<u8>) -> (r: RaMsg3)
        requires
            mac@.len() == MAC_LEN,
            g_a@.len() == PUBKEY_LEN,
            quote@.len() == QUOTE_LEN,
        ensures
            r@.mac == mac@,
            r@.g_a == g_a@,
            r@.ps_sec_prop is None,
            r@.quote == quote@,
            wf_msg3(r@),
    {
        RaMsg3 { mac, g_a, ps_sec_prop: None, quote }
    }
}

/// The MSG4 trust verdict, applied alike by client and enclave: the
/// session succeeds exactly when the enclave is trusted and the PSE
/// manifest verdict, if one was given, is positive.
pub fn check_msg4(m: &RaMsg4) -> (r: Result<(), RaError>)
    ensures
        (r is Ok) == (m.is_enclave_trusted && m.is_pse_manifest_trusted != Some(false)),
        (r == Err::<(), RaError>(RaError::EnclaveNotTrusted)) == !m.is_enclave_trusted,
        (r == Err::<(), RaError>(RaError::PseNotTrusted)) == (m.is_enclave_trusted
            && m.is_pse_manifest_trusted == Some(false)),
{
    if !m.is_enclave_trusted {
        return Err(RaError::EnclaveNotTrusted);
    }
    match m.is_pse_manifest_trusted {
        Some(t) => {
            if !t {
                Err(RaError::PseNotTrusted)
            } else {
                Ok(())
            }
        },
        None => Ok(()),
    }
}

} // verus!
