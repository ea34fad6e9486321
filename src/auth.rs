//! Request authentication, before anything else: the platform signs the
//! timestamp header followed by the raw body with Ed25519, and a request
//! whose signature does not verify under the configured key goes no further.
use vstd::prelude::*;
use vstd::utf8::encode_utf8;

use crate::hexcode::{hex_bytes, hex_decode, is_hex};

verus! {

/// Why a request was turned away.
#[derive(Clone, Copy, Debug, PartialEq, Eq, Structural)]
pub enum AuthError {
    /// The configured public key is not 32 bytes of hex.
    BadKey,
    /// A header is missing, or the signature is not 64 bytes of hex.
    Malformed,
    /// The signature does not verify.
    BadSignature,
    /// The body is not an interaction.
    BadPayload,
}

impl AuthError {
    /// The HTTP status that answers the request.
    pub fn status(&self) -> (r: u16)
        ensures
            r == match *self {
                AuthError::BadKey => 500u16,
                AuthError::Malformed => 400u16,
                AuthError::BadSignature => 401u16,
                AuthError::BadPayload => 500u16,
            },
    {
        match self {
            AuthError::BadKey => 500,
            AuthError::Malformed => 400,
            AuthError::BadSignature => 401,
            AuthError::BadPayload => 500,
        }
    }
}

/// Whether `sig` is a valid Ed25519 signature of `msg` under the public key
/// `key`, as `ed25519_dalek` checks it.
pub uninterp spec fn ed25519_accepts(key: Seq<u8>, msg: Seq<u8>, sig: Seq<u8>) -> bool;

/// The error that `ed25519_dalek` reports.
#[verifier::external_type_specification]
#[verifier::external_body]
pub struct ExSignatureError(ed25519_dalek::SignatureError);

/// Relies on `ed25519_dalek`: `VerifyingKey::from_bytes` reads the key (a
/// key that is not a curve point verifies nothing), and `Verifier::verify`
/// checks the signature, read by `Signature::from_bytes`, over `msg`.
#[verifier::external_body]
fn ed25519_verify(key: &[u8; 32], msg: &[u8], sig: &[u8; 64]) -> (r: Result<
    (),
    ed25519_dalek::SignatureError,
>)
    ensures
        r is Ok <==> ed25519_accepts(key@, msg@, sig@),
{
    let vk = ed25519_dalek::VerifyingKey::from_bytes(key)?;
    ed25519_dalek::Verifier::verify(&vk, msg, &ed25519_dalek::Signature::from_bytes(sig))
}

/// The first 32 bytes of `v`.
fn key_array(v: &Vec<u8>) -> (r: [u8; 32])
    requires
        v@.len() == 32,
    ensures
        r@ == v@,
{
    let mut r = [0u8; 32];
    let mut i: usize = 0;
    while i < 32
        invariant
            i <= 32,
            v@.len() == 32,
            forall|k: int| 0 <= k < i ==> r@[k] == v@[k],
        decreases 32 - i,
    {
        r[i] = v[i];
        i = i + 1;
    }
    assert(r@ =~= v@);
    r
}

/// The first 64 bytes of `v`.
fn signature_array(v: &Vec<u8>) -> (r: [u8; 64])
    requires
        v@.len() == 64,
    ensures
        r@ == v@,
{
    let mut r = [0u8; 64];
    let mut i: usize = 0;
    while i < 64
        invariant
            i <= 64,
            v@.len() == 64,
            forall|k: int| 0 <= k < i ==> r@[k] == v@[k],
        decreases 64 - i,
    {
        r[i] = v[i];
        i = i + 1;
    }
    assert(r@ =~= v@);
    r
}

/// The 32-byte key that hex text stands for.
pub open spec fn key_of(public_key: Seq<char>) -> Option<Seq<u8>> {
    if is_hex(public_key) && hex_bytes(public_key).len() == 32 {
        Some(hex_bytes(public_key))
    } else {
        None
    }
}

/// The 64-byte signature that hex text stands for.
pub open spec fn signature_of(signature: Seq<char>) -> Option<Seq<u8>> {
    if is_hex(signature) && hex_bytes(signature).len() == 64 {
        Some(hex_bytes(signature))
    } else {
        None
    }
}

/// The verdict on a request: the key is read first, then the
/// headers, then the signature over the timestamp and the body is checked.
pub open spec fn verify_spec(
    public_key: Seq<char>,
    timestamp: Option<Seq<char>>,
    signature: Option<Seq<char>>,
    body: Seq<char>,
) -> Result<(), AuthError> {
    match key_of(public_key) {
        None => Err(AuthError::BadKey),
        Some(key) => match (timestamp, signature) {
            (Some(ts), Some(sg)) => match signature_of(sg) {
                None => Err(AuthError::Malformed),
                Some(sig) => if ed25519_accepts(key, encode_utf8(ts) + encode_utf8(body), sig) {
                    Ok(())
                } else {
                    Err(AuthError::BadSignature)
                },
            },
            _ => Err(AuthError::Malformed),
        },
    }
}

pub open spec fn opt_view(s: Option<&str>) -> Option<Seq<char>> {
    match s {
        Some(t) => Some(t@),
        None => None,
    }
}

/// Checks a request against the hex `public_key`: `timestamp` and
/// `signature` are its two signature headers, where present.
pub fn verify_request(
    public_key: &str,
    timestamp: Option<&str>,
    signature: Option<&str>,
    body: &str,
) -> (r: Result<(), AuthError>)
    ensures
        r == verify_spec(public_key@, opt_view(timestamp), opt_view(signature), body@),
{
    let key = match hex_decode(public_key) {
        Ok(k) => k,
        Err(_) => {
            return Err(AuthError::BadKey);
        },
    };
    if key.len() != 32 {
        return Err(AuthError::BadKey);
    }
    let (ts, sg) = match (timestamp, signature) {
        (Some(ts), Some(sg)) => (ts, sg),
        _ => {
            return Err(AuthError::Malformed);
        },
    };
    let sig = match hex_decode(sg) {
        Ok(s) => s,
        Err(_) => {
            return Err(AuthError::Malformed);
        },
    };
    if sig.len() != 64 {
        return Err(AuthError::Malformed);
    }
    let head = ts.as_bytes();
    let tail = body.as_bytes();
    let mut msg: Vec<u8> = Vec::new();
    let mut i: usize = 0;
    while i < head.len()
        invariant
            i <= head@.len(),
            msg@ == head@.take(i as int),
        decreases head@.len() - i,
    {
        msg.push(head[i]);
        i = i + 1;
        assert(msg@ =~= head@.take(i as int));
    }
    let mut j: usize = 0;
    while j < tail.len()
        invariant
            j <= tail@.len(),
            i == head@.len(),
            msg@ == head@.take(i as int) + tail@.take(j as int),
        decreases tail@.len() - j,
    {
        msg.push(tail[j]);
        j = j + 1;
        assert(msg@ =~= head@.take(i as int) + tail@.take(j as int));
    }
    assert(msg@ =~= encode_utf8(ts@) + encode_utf8(body@));
    let key = key_array(&key);
    let sig = signature_array(&sig);
    match ed25519_verify(&key, msg.as_slice(), &sig) {
        Ok(()) => Ok(()),
        Err(_) => Err(AuthError::BadSignature),
    }
}

} // verus!
