//! The signing key pair of the monitor and the errors of key handling.
//!
//! Where the private key is kept is the caller's business: this module turns
//! what was read from the secret store into a key pair, or makes a new one.

use crate::signing::{base64_encode, base64_text, ed25519_public, SigningKey, VerifyingKey};
use vstd::prelude::*;
use vstd::string::*;

verus! {

/// Length in bytes of a stored private key.
pub const SECRET_KEY_LENGTH: usize = 32;

/// What can go wrong while keys are loaded, made or stored.
#[derive(Debug)]
pub enum KeyError {
    /// The secret store holds no key.
    NotFound,
    /// The stored key is damaged.
    InvalidKey(String),
    /// The secret store failed.
    CredentialManager(String),
    /// The public key file could not be written.
    FileSystem(String),
}

impl KeyError {
    /// The text of the error.
    pub open spec fn message_text(self) -> Seq<char> {
        match self {
            KeyError::NotFound => "Key not found"@,
            KeyError::InvalidKey(e) => "Invalid key: "@ + e@,
            KeyError::CredentialManager(e) => "Credential Manager error: "@ + e@,
            KeyError::FileSystem(e) => "File system error: "@ + e@,
        }
    }

    /// The error as a line of text.
    pub fn message(&self) -> (text: String)
        ensures
            text@ == self.message_text(),
    {
        match self {
            KeyError::NotFound => String::from_str("Key not found"),
            KeyError::InvalidKey(e) => String::from_str("Invalid key: ").concat(e.as_str()),
            KeyError::CredentialManager(e) => String::from_str("Credential Manager error: ").concat(
                e.as_str(),
            ),
            KeyError::FileSystem(e) => String::from_str("File system error: ").concat(e.as_str()),
        }
    }
}

/// How a key pair came to be.
#[derive(Debug, Clone, Copy, PartialEq, Eq, Structural)]
pub enum KeyOrigin {
    /// Read from the secret store.
    Loaded,
    /// Newly made: the caller has yet to store it.
    Generated,
}

/// The key pair used to sign sessions and daily commitments.
#[derive(Debug)]
pub struct KeyManager {
    signing_key: SigningKey,
    verifying_key: VerifyingKey,
}

/// The 32 bytes of `blob` as an array.
fn seed_of(blob: &[u8]) -> (seed: [u8; 32])
    requires
        blob@.len() == 32,
    ensures
        seed@ == blob@,
{
    let mut seed: [u8; 32] = [0u8; 32];
    let mut i: usize = 0;
    while i < 32
        invariant
            i <= 32,
            blob@.len() == 32,
            forall|j: int| 0 <= j < i ==> seed@[j] == blob@[j],
        decreases 32 - i,
    {
        seed[i] = blob[i];
        i += 1;
    }
    assert(seed@ =~= blob@);
    seed
}

impl KeyManager {
    /// The public key is the one that belongs to the private key.
    #[verifier::type_invariant]
    pub closed spec fn paired(self) -> bool {
        self.verifying_key@ == ed25519_public(self.signing_key@)
    }

    /// The seed of the private key.
    pub closed spec fn seed(self) -> Seq<u8> {
        self.signing_key@
    }

    /// The bytes of the public key.
    pub closed spec fn public(self) -> Seq<u8> {
        self.verifying_key@
    }

    /// The public key of a pair is the one that ed25519-dalek derives from
    /// the seed of its private key.
    pub proof fn lemma_paired(self)
        requires
            self.paired(),
        ensures
            self.public() == ed25519_public(self.seed()),
    {
    }

    /// The pair that belongs to a private key.
    pub fn from_signing_key(signing_key: SigningKey) -> (keys: KeyManager)
        ensures
            keys.seed() == signing_key@,
            keys.public() == ed25519_public(signing_key@),
    {
        let verifying_key = signing_key.verifying_key();
        KeyManager { signing_key, verifying_key }
    }

    /// The pair for a private key as the secret store returned it. A blob of
    /// any length but 32 is refused as an invalid key.
    pub fn from_stored(blob: &[u8]) -> (loaded: Result<KeyManager, KeyError>)
        ensures
            blob@.len() == SECRET_KEY_LENGTH ==> (loaded matches Ok(keys) && keys.seed() == blob@
                && keys.public() == ed25519_public(blob@)),
            blob@.len() != SECRET_KEY_LENGTH ==> (loaded matches Err(KeyError::InvalidKey(why))
                && why@ == "Invalid key size"@),
    {
        if blob.len() != SECRET_KEY_LENGTH {
            return Err(KeyError::InvalidKey(String::from_str("Invalid key size")));
        }
        let seed = seed_of(blob);
        Ok(KeyManager::from_signing_key(SigningKey::from_bytes(&seed)))
    }

    /// A new pair with a random private key.
    pub fn generate() -> (keys: KeyManager)
        ensures
            keys.public() == ed25519_public(keys.seed()),
    {
        KeyManager::from_signing_key(SigningKey::generate())
    }

    /// Decides on the key pair from what the secret store gave: a stored key
    /// is taken, a missing one is replaced by a new pair that the caller must
    /// store, and any other failure is passed on.
    pub fn init(stored: Result<Vec<u8>, KeyError>) -> (outcome: Result<(KeyManager, KeyOrigin), KeyError>)
        ensures
            match stored {
                Ok(blob) => if blob@.len() == SECRET_KEY_LENGTH {
                    outcome matches Ok((keys, origin)) && keys.seed() == blob@ && origin
                        == KeyOrigin::Loaded
                } else {
                    outcome matches Err(KeyError::InvalidKey(why)) && why@ == "Invalid key size"@
                },
                Err(KeyError::NotFound) => outcome matches Ok((_, origin)) && origin
                    == KeyOrigin::Generated,
                Err(e) => outcome == Err::<(KeyManager, KeyOrigin), KeyError>(e),
            },
    {
        match stored {
            Ok(blob) => match KeyManager::from_stored(blob.as_slice()) {
                Ok(keys) => Ok((keys, KeyOrigin::Loaded)),
                Err(e) => Err(e),
            },
            Err(KeyError::NotFound) => Ok((KeyManager::generate(), KeyOrigin::Generated)),
            Err(e) => Err(e),
        }
    }

    /// The private key, for signing.
    pub fn signing_key(&self) -> (key: &SigningKey)
        ensures
            key@ == self.seed(),
    {
        &self.signing_key
    }

    /// The public key, for verifying.
    pub fn verifying_key(&self) -> (key: &VerifyingKey)
        ensures
            key@ == self.public(),
            key@ == ed25519_public(self.seed()),
    {
        proof {
            use_type_invariant(self);
        }
        &self.verifying_key
    }

    /// The public key as standard base64 text, as it is written to the public
    /// key file.
    pub fn public_key_base64(&self) -> (text: String)
        ensures
            text@ == base64_text(self.public()),
    {
        let bytes = self.verifying_key.to_bytes();
        base64_encode(bytes.as_slice())
    }

    /// A second value of the same pair.
    pub fn duplicate(&self) -> (copy: KeyManager)
        ensures
            copy.seed() == self.seed(),
            copy.public() == self.public(),
    {
        proof {
            use_type_invariant(self);
        }
        KeyManager {
            signing_key: self.signing_key.duplicate(),
            verifying_key: self.verifying_key.duplicate(),
        }
    }
}

} // verus!
