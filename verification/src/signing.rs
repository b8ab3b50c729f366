//! Ed25519 signatures over session hashes, carried as standard base64 text.

use crate::hashing::{hash_session_data, session_hash};
use vstd::prelude::*;
use vstd::utf8::encode_utf8;

verus! {

/// The public key that ed25519-dalek derives from the 32-byte seed `seed`.
pub uninterp spec fn ed25519_public(seed: Seq<u8>) -> Seq<u8>;

/// The signature that ed25519-dalek makes over `message` with the seed `seed`.
pub uninterp spec fn ed25519_signature(seed: Seq<u8>, message: Seq<u8>) -> Seq<u8>;

/// Whether ed25519-dalek accepts `signature` over `message` under the public
/// key with the bytes `public`.
pub uninterp spec fn ed25519_accepts(public: Seq<u8>, message: Seq<u8>, signature: Seq<u8>) -> bool;

/// The text that the base64 crate's standard engine writes for `bytes`.
pub uninterp spec fn base64_text(bytes: Seq<u8>) -> Seq<char>;

/// The bytes that the base64 crate's standard engine reads from `text`, and
/// nothing where it refuses the text.
pub uninterp spec fn base64_bytes(text: Seq<char>) -> Option<Seq<u8>>;

/// Whether `signature_b64` is the base64 text of a signature, 64 bytes long,
/// over the UTF-8 bytes of `message` that the key `public` accepts.
pub open spec fn signature_valid(message: Seq<char>, signature_b64: Seq<char>, public: Seq<u8>) -> bool {
    match base64_bytes(signature_b64) {
        Some(raw) => raw.len() == 64 && ed25519_accepts(public, encode_utf8(message), raw),
        None => false,
    }
}

/// The base64 text of the signature over the UTF-8 bytes of `message` made
/// with the seed `seed`.
pub open spec fn signature_text(message: Seq<char>, seed: Seq<u8>) -> Seq<char> {
    base64_text(ed25519_signature(seed, encode_utf8(message)))
}

/// A private signing key, held as its 32-byte seed.
#[derive(Debug)]
pub struct SigningKey {
    seed: [u8; 32],
}

/// A public verifying key, held as its 32 bytes.
#[derive(Debug)]
pub struct VerifyingKey {
    bytes: [u8; 32],
}

impl View for SigningKey {
    type V = Seq<u8>;

    closed spec fn view(&self) -> Seq<u8> {
        self.seed@
    }
}

impl View for VerifyingKey {
    type V = Seq<u8>;

    closed spec fn view(&self) -> Seq<u8> {
        self.bytes@
    }
}

impl SigningKey {
    /// The key with the given seed.
    pub fn from_bytes(seed: &[u8; 32]) -> (key: SigningKey)
        ensures
            key@ == seed@,
    {
        SigningKey { seed: *seed }
    }

    /// The seed of the key.
    pub fn to_bytes(&self) -> (seed: [u8; 32])
        ensures
            seed@ == self@,
    {
        self.seed
    }

    /// A key with a seed drawn from the operating system's random source.
    pub fn generate() -> (key: SigningKey) {
        SigningKey { seed: random_seed() }
    }

    /// The public key that belongs to this key.
    pub fn verifying_key(&self) -> (public: VerifyingKey)
        ensures
            public@ == ed25519_public(self@),
    {
        VerifyingKey { bytes: ed25519_public_key(&self.seed) }
    }

    /// A second value of the same key.
    pub fn duplicate(&self) -> (copy: SigningKey)
        ensures
            copy@ == self@,
    {
        SigningKey { seed: self.seed }
    }
}

impl VerifyingKey {
    /// The key with the given bytes. Bytes that are no point of the curve
    /// make a key that accepts nothing.
    pub fn from_bytes(bytes: &[u8; 32]) -> (key: VerifyingKey)
        ensures
            key@ == bytes@,
    {
        VerifyingKey { bytes: *bytes }
    }

    /// The bytes of the key.
    pub fn to_bytes(&self) -> (bytes: [u8; 32])
        ensures
            bytes@ == self@,
    {
        self.bytes
    }

    /// A second value of the same key.
    pub fn duplicate(&self) -> (copy: VerifyingKey)
        ensures
            copy@ == self@,
    {
        VerifyingKey { bytes: self.bytes }
    }
}

/// Signs `hash` and returns the signature as standard base64 text. The
/// signature verifies under the public key that belongs to `key`.
pub fn sign_hash(hash: &str, key: &SigningKey) -> (signature: String)
    ensures
        signature@ == signature_text(hash@, key@),
        signature_valid(hash@, signature@, ed25519_public(key@)),
{
    let raw = ed25519_sign(&key.seed, hash.as_bytes());
    base64_encode(raw.as_slice())
}

/// Tells whether `signature_b64` is a signature over `hash` that `key`
/// accepts. Text that is no base64, or that holds no signature, gives `false`.
pub fn verify_signature(hash: &str, signature_b64: &str, key: &VerifyingKey) -> (ok: bool)
    ensures
        ok == signature_valid(hash@, signature_b64@, key@),
        base64_bytes(signature_b64@) is None ==> !ok,
        (base64_bytes(signature_b64@) matches Some(raw) && raw.len() != 64) ==> !ok,
{
    match base64_decode(signature_b64) {
        Some(raw) => ed25519_verify(&key.bytes, hash.as_bytes(), raw.as_slice()),
        None => false,
    }
}

/// Hashes a session and signs the hash; returns the hash and the signature.
pub fn hash_and_sign_session(
    key: &SigningKey,
    process_name: &str,
    window_title: &str,
    start_time: &str,
    end_time: &str,
    keystrokes: u64,
    clicks: u64,
    scrolls: u64,
    prev_hash: Option<&str>,
) -> (signed: (String, String))
    ensures
        signed.0@ == session_hash(
            process_name@,
            window_title@,
            start_time@,
            end_time@,
            keystrokes,
            clicks,
            scrolls,
            match prev_hash {
                Some(p) => Some(p@),
                None => None,
            },
        ),
        signed.1@ == signature_text(signed.0@, key@),
        signature_valid(signed.0@, signed.1@, ed25519_public(key@)),
{
    let hash = hash_session_data(
        process_name,
        window_title,
        start_time,
        end_time,
        keystrokes,
        clicks,
        scrolls,
        prev_hash,
    );
    let signature = sign_hash(hash.as_str(), key);
    (hash, signature)
}

/// Calls ed25519-dalek's `SigningKey::generate` with rand's `OsRng` and takes
/// the seed of the key. Nothing is claimed of the seed: it is random. Where
/// the random source of the operating system fails, `OsRng` panics; no input
/// of this function can rule that out.
#[verifier::external_body]
fn random_seed() -> (seed: [u8; 32]) {
    ed25519_dalek::SigningKey::generate(&mut rand::rngs::OsRng).to_bytes()
}

/// Calls ed25519-dalek's `SigningKey::from_bytes` and `verifying_key`. The
/// result is the public key named by `ed25519_public`.
#[verifier::external_body]
fn ed25519_public_key(seed: &[u8; 32]) -> (public: [u8; 32])
    ensures
        public@ == ed25519_public(seed@),
{
    ed25519_dalek::SigningKey::from_bytes(seed).verifying_key().to_bytes()
}

/// Calls ed25519-dalek's `Signer::sign` on the key made from `seed`. The
/// result is the signature named by `ed25519_signature`: signing is
/// deterministic. The key's own public key accepts what it signed.
#[verifier::external_body]
fn ed25519_sign(seed: &[u8; 32], message: &[u8]) -> (signature: [u8; 64])
    ensures
        signature@ == ed25519_signature(seed@, message@),
        ed25519_accepts(ed25519_public(seed@), message@, signature@),
{
    ed25519_dalek::Signer::sign(&ed25519_dalek::SigningKey::from_bytes(seed), message).to_bytes()
}

/// Calls ed25519-dalek's `VerifyingKey::from_bytes`, `Signature::from_slice`
/// and `Verifier::verify`. The result is the verdict named by
/// `ed25519_accepts`; a signature that is not 64 bytes long is refused.
#[verifier::external_body]
fn ed25519_verify(public: &[u8; 32], message: &[u8], signature: &[u8]) -> (ok: bool)
    ensures
        ok == ed25519_accepts(public@, message@, signature@),
        signature@.len() != 64 ==> !ok,
{
    match (
        ed25519_dalek::VerifyingKey::from_bytes(public),
        ed25519_dalek::Signature::from_slice(signature),
    ) {
        (Ok(key), Ok(sig)) => ed25519_dalek::Verifier::verify(&key, message, &sig).is_ok(),
        _ => false,
    }
}

/// Calls `Engine::encode` of the base64 crate's `STANDARD` engine. The result
/// is the text named by `base64_text`, and the engine reads the same bytes
/// back from it. The length asked for keeps the length of the text within
/// `usize`.
#[verifier::external_body]
pub(crate) fn base64_encode(bytes: &[u8]) -> (text: String)
    requires
        bytes@.len() <= usize::MAX / 2,
    ensures
        text@ == base64_text(bytes@),
        base64_bytes(text@) == Some(bytes@),
{
    base64::Engine::encode(&base64::engine::general_purpose::STANDARD, bytes)
}

/// Calls `Engine::decode` of the base64 crate's `STANDARD` engine. The result
/// is the one named by `base64_bytes`; the engine's error becomes `None`.
#[verifier::external_body]
fn base64_decode(text: &str) -> (bytes: Option<Vec<u8>>)
    ensures
        match bytes {
            Some(raw) => base64_bytes(text@) == Some(raw@),
            None => base64_bytes(text@) is None,
        },
{
    base64::Engine::decode(&base64::engine::general_purpose::STANDARD, text).ok()
}

} // verus!
