//! Signed message envelopes.
//!
//! An envelope wraps an application payload with the sender's public key and
//! an Ed25519 signature over the payload. The trust model is self-certifying:
//! the sender's identity is the public key that verifies the signature.
//! `verify_and_decode` applied to the output of `sign_and_encode` returns the
//! signer's public key and the original message; that round trip is stated on
//! `sign_and_encode` through [`verify_decode_spec`] and proved.

use vstd::prelude::*;
use vstd::string::StringExecFns;

use crate::error::NodeError;
use crate::identity::{ed25519_verify, pk_of, sig_check, sig_of, NodeIdentity, SIG_LEN};
use crate::message::{
    enc_message, lemma_message_round_trip, message_from_bytes_spec, message_wf, MessageType,
    MessageTypeView,
};
use crate::wire::{
    enc_blob, fits_u32, lemma_take_blob, lemma_take_bytes, read_blob, read_exact, take_blob,
    take_bytes, write_blob, write_raw,
};

verus! {

/// A signed envelope: sender public key, payload bytes, signature.
pub struct SignedMessage {
    from: Vec<u8>,
    data: Vec<u8>,
    signature: Vec<u8>,
}

#[verifier::ext_equal]
pub ghost struct EnvelopeView {
    pub from: Seq<u8>,
    pub data: Seq<u8>,
    pub sig: Seq<u8>,
}

impl View for SignedMessage {
    type V = EnvelopeView;

    closed spec fn view(&self) -> EnvelopeView {
        EnvelopeView { from: self.from@, data: self.data@, sig: self.signature@ }
    }
}

pub open spec fn envelope_wf(e: EnvelopeView) -> bool {
    &&& e.from.len() == crate::ID_LEN
    &&& fits_u32(e.data.len() as int)
    &&& e.sig.len() == SIG_LEN
}

/// The envelope layout: the raw public key, the payload as a blob, the raw
/// signature.
pub open spec fn enc_envelope(e: EnvelopeView) -> Seq<u8> {
    e.from + enc_blob(e.data) + e.sig
}

/// Parse a complete envelope; trailing bytes are rejected.
pub open spec fn envelope_from_bytes_spec(b: Seq<u8>) -> Option<EnvelopeView> {
    match take_bytes(crate::ID_LEN as int, b) {
        Some((from, r1)) => match take_blob(r1) {
            Some((data, r2)) => match take_bytes(SIG_LEN as int, r2) {
                Some((sig, r3)) => if r3.len() == 0 {
                    Some(EnvelopeView { from, data, sig })
                } else {
                    None
                },
                None => None,
            },
            None => None,
        },
        None => None,
    }
}

/// A well-formed envelope's binary form parses back to the envelope itself.
pub proof fn lemma_envelope_round_trip(e: EnvelopeView)
    requires
        envelope_wf(e),
    ensures
        envelope_from_bytes_spec(enc_envelope(e)) == Some(e),
{
    let r1 = enc_blob(e.data) + (e.sig + Seq::<u8>::empty());
    assert(enc_envelope(e) =~= e.from + r1);
    lemma_take_bytes(e.from, r1);
    lemma_take_blob(e.data, e.sig + Seq::<u8>::empty());
    lemma_take_bytes(e.sig, Seq::<u8>::empty());
}

/// What verification-then-decoding yields on given envelope bytes: the
/// embedded public key and the decoded payload, if the envelope parses, the
/// signature checks under the embedded key, and the payload decodes.
pub open spec fn verify_decode_spec(b: Seq<u8>) -> Option<(Seq<u8>, MessageTypeView)> {
    match envelope_from_bytes_spec(b) {
        Some(e) => if sig_check(e.from, e.data, e.sig) {
            match message_from_bytes_spec(e.data) {
                Some(m) => Some((e.from, m)),
                None => None,
            }
        } else {
            None
        },
        None => None,
    }
}

/// A message whose encoded payload fits behind the envelope's length prefix.
pub open spec fn payload_fits(m: MessageTypeView) -> bool {
    &&& message_wf(m)
    &&& fits_u32(enc_message(m).len() as int)
}

impl SignedMessage {
    /// Serialize `message`, sign the payload with the node's secret key, and
    /// serialize the wrapper. The result is exactly what
    /// `verify_and_decode` accepts: it decodes to the signer's public key and
    /// the original message.
    pub fn sign_and_encode(identity: &NodeIdentity, message: &MessageType) -> (r: Result<
        Vec<u8>,
        NodeError,
    >)
        requires
            identity.wf(),
        ensures
            match r {
                Ok(bytes) => {
                    &&& payload_fits(message@)
                    &&& bytes@ == enc_envelope(
                        EnvelopeView {
                            from: identity.public_view(),
                            data: enc_message(message@),
                            sig: sig_of(identity.seed(), enc_message(message@)),
                        },
                    )
                    &&& verify_decode_spec(bytes@) == Some((identity.public_view(), message@))
                },
                Err(e) => !payload_fits(message@) && e is EncodeError,
            },
    {
        let payload = match message.to_bytes() {
            Ok(p) => p,
            Err(e) => {
                return Err(e);
            },
        };
        if (payload.len() as u64) >= 0x1_0000_0000u64 {
            return Err(NodeError::EncodeError(String::from_str("message payload too long")));
        }
        let signature = identity.sign(&payload);
        let from = identity.public_key();
        let mut out: Vec<u8> = Vec::new();
        write_raw(&mut out, from.as_slice());
        write_blob(&mut out, payload.as_slice());
        write_raw(&mut out, signature.as_slice());
        proof {
            let env = EnvelopeView {
                from: identity.public_view(),
                data: enc_message(message@),
                sig: sig_of(identity.seed(), enc_message(message@)),
            };
            identity.lemma_public_len();
            assert(out@ =~= enc_envelope(env));
            lemma_envelope_round_trip(env);
            lemma_message_round_trip(message@);
        }
        Ok(out)
    }

    /// Deserialize the wrapper, verify the signature over the payload using
    /// the embedded key, and decode the payload. Fails with `DecodeError` on
    /// a malformed wrapper or payload and with `VerifyError` exactly when the
    /// wrapper parses but the signature does not check; a failed message must
    /// be dropped, not dispatched.
    pub fn verify_and_decode(bytes: &Vec<u8>) -> (r: Result<(Vec<u8>, MessageType), NodeError>)
        ensures
            match r {
                Ok(p) => {
                    &&& verify_decode_spec(bytes@) == Some((p.0@, p.1@))
                    &&& p.1.wf()
                    &&& p.0@.len() == crate::ID_LEN
                },
                Err(e) => {
                    &&& verify_decode_spec(bytes@) is None
                    &&& (e is VerifyError <==> (envelope_from_bytes_spec(bytes@) matches Some(env)
                        && !sig_check(env.from, env.data, env.sig)))
                    &&& (e is DecodeError <==> !(e is VerifyError))
                },
            },
    {
        let sm = match envelope_from_bytes(bytes) {
            Some(sm) => sm,
            None => {
                return Err(NodeError::DecodeError(String::from_str("malformed envelope")));
            },
        };
        if !ed25519_verify(&sm.from, &sm.data, &sm.signature) {
            return Err(NodeError::VerifyError(String::from_str("signature check failed")));
        }
        match MessageType::from_bytes(&sm.data) {
            Ok(m) => Ok((sm.from, m)),
            Err(_) => Err(NodeError::DecodeError(String::from_str("malformed message payload"))),
        }
    }
}

/// Parse the envelope layout; trailing bytes are rejected. The parsed parts
/// have the fixed lengths the layout prescribes.
fn envelope_from_bytes(bytes: &Vec<u8>) -> (r: Option<SignedMessage>)
    ensures
        match r {
            Some(sm) => envelope_from_bytes_spec(bytes@) == Some(sm@) && envelope_wf(sm@),
            None => envelope_from_bytes_spec(bytes@) is None,
        },
{
    proof {
        assert(bytes@.skip(0) =~= bytes@);
    }
    match read_exact(bytes, 0, crate::ID_LEN) {
        None => None,
        Some((from, p1)) => match read_blob(bytes, p1) {
            None => None,
            Some((data, p2)) => match read_exact(bytes, p2, SIG_LEN) {
                None => None,
                Some((signature, p3)) => {
                    if p3 != bytes.len() {
                        assert(bytes@.skip(p3 as int).len() != 0);
                        return None;
                    }
                    assert(bytes@.skip(p3 as int).len() == 0);
                    Some(SignedMessage { from, data, signature })
                },
            },
        },
    }
}

} // verus!
