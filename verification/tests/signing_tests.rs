use base64::Engine;
use ed25519_dalek::Signer;
use ownmon::hashing::{hash_session_data, sha256_hex};
use ownmon::keys::{KeyError, KeyManager, KeyOrigin};
use ownmon::signing::{
    hash_and_sign_session, sign_hash, verify_signature, SigningKey, VerifyingKey,
};

#[test]
fn test_hash_consistency() {
    let hash1 = hash_session_data(
        "code.exe",
        "main.rs",
        "2024-01-01T10:00:00",
        "2024-01-01T10:30:00",
        100,
        50,
        10,
        None,
    );
    let hash2 = hash_session_data(
        "code.exe",
        "main.rs",
        "2024-01-01T10:00:00",
        "2024-01-01T10:30:00",
        100,
        50,
        10,
        None,
    );
    assert_eq!(hash1, hash2);
}

#[test]
fn test_hash_changes_with_data() {
    let hash1 = hash_session_data(
        "code.exe",
        "main.rs",
        "2024-01-01T10:00:00",
        "2024-01-01T10:30:00",
        100,
        50,
        10,
        None,
    );
    let hash2 = hash_session_data(
        "code.exe",
        "main.rs",
        "2024-01-01T10:00:00",
        "2024-01-01T10:30:00",
        101,
        50,
        10,
        None,
    );
    assert_ne!(hash1, hash2);
}

#[test]
fn test_sign_and_verify() {
    let key = SigningKey::generate();
    let hash = hash_session_data(
        "code.exe",
        "main.rs",
        "2024-01-01T10:00:00",
        "2024-01-01T10:30:00",
        100,
        50,
        10,
        None,
    );

    let signature = sign_hash(&hash, &key);
    assert!(verify_signature(&hash, &signature, &key.verifying_key()));
}

#[test]
fn test_invalid_signature() {
    let key1 = SigningKey::generate();
    let key2 = SigningKey::generate();
    let hash = "test_hash";

    let signature = sign_hash(hash, &key1);
    assert!(!verify_signature(hash, &signature, &key2.verifying_key()));
}

#[test]
fn test_key_generation() {
    let (km, origin) = KeyManager::init(Err(KeyError::NotFound)).expect("Failed to init key manager");
    assert_eq!(origin, KeyOrigin::Generated);

    let stored = km.signing_key().to_bytes().to_vec();
    let (km2, origin2) = KeyManager::init(Ok(stored)).expect("Failed to reload key manager");
    assert_eq!(origin2, KeyOrigin::Loaded);
    assert_eq!(km.public_key_base64(), km2.public_key_base64());
}

#[test]
fn session_hash_has_the_normative_wire_form() {
    let hash = hash_session_data(
        "code.exe",
        "main.rs",
        "2024-01-01T10:00:00",
        "2024-01-01T10:30:00",
        100,
        50,
        10,
        None,
    );
    assert_eq!(hash, "914638cdefe9439060e99abed4c55e550905ca0e30959dc9c124dc99bd125248");
    assert_eq!(hash.len(), 64);
    let chained = hash_session_data(
        "code.exe",
        "main.rs",
        "2024-01-01T10:00:00",
        "2024-01-01T10:30:00",
        100,
        50,
        10,
        Some(&hash),
    );
    assert_eq!(chained, "0a30d1b93a85bbb45914c0e435f6653c3251b094d10aa718f3b58232a7964962");
}

#[test]
fn sha256_hex_is_lowercase_hex_of_the_digest() {
    assert_eq!(
        sha256_hex(b""),
        "e3b0c44298fc1c149afbf4c8996fb92427ae41e4649b934ca495991b7852b855"
    );
    assert_eq!(
        sha256_hex(b"ab"),
        "fb8e20fc2e4c3f248c60c39bd652f3c1347298bb977b8b4d5903b85055620603"
    );
}

#[test]
fn signature_is_base64_of_the_dalek_signature() {
    let seed = [7u8; 32];
    let key = SigningKey::from_bytes(&seed);
    let signature = sign_hash("abc", &key);

    let dalek = ed25519_dalek::SigningKey::from_bytes(&seed);
    let expected =
        base64::engine::general_purpose::STANDARD.encode(dalek.sign(b"abc").to_bytes());
    assert_eq!(signature, expected);
    assert_eq!(signature.len(), 88);
    assert_eq!(key.verifying_key().to_bytes(), dalek.verifying_key().to_bytes());
    assert_eq!(key.to_bytes(), seed);
}

#[test]
fn signing_is_deterministic() {
    let key = SigningKey::from_bytes(&[1u8; 32]);
    assert_eq!(sign_hash("same", &key), sign_hash("same", &key.duplicate()));
    assert_ne!(sign_hash("same", &key), sign_hash("other", &key));
}

#[test]
fn verification_refuses_what_is_no_signature() {
    let key = SigningKey::from_bytes(&[9u8; 32]);
    let public = key.verifying_key();
    let signature = sign_hash("message", &key);
    assert!(verify_signature("message", &signature, &public));
    assert!(!verify_signature("messagf", &signature, &public));
    assert!(!verify_signature("message", "not base64 !!", &public));
    assert!(!verify_signature("message", "", &public));
    // Valid base64, but not 64 bytes.
    assert!(!verify_signature("message", "YWJj", &public));
    // A key that is no point of the curve accepts nothing.
    let mut bad = [0xffu8; 32];
    bad[0] = 0xee;
    let broken = VerifyingKey::from_bytes(&bad);
    assert!(!verify_signature("message", &signature, &broken));
    assert_eq!(broken.duplicate().to_bytes(), bad);
}

#[test]
fn hash_and_sign_gives_hash_and_its_signature() {
    let key = SigningKey::from_bytes(&[3u8; 32]);
    let (hash, signature) = hash_and_sign_session(
        &key,
        "code.exe",
        "main.rs",
        "2024-01-01T10:00:00",
        "2024-01-01T10:30:00",
        100,
        50,
        10,
        None,
    );
    assert_eq!(hash, "914638cdefe9439060e99abed4c55e550905ca0e30959dc9c124dc99bd125248");
    assert_eq!(signature, sign_hash(&hash, &key));
    assert!(verify_signature(&hash, &signature, &key.verifying_key()));
}

#[test]
fn stored_key_of_wrong_size_is_invalid() {
    match KeyManager::from_stored(&[1u8; 31]) {
        Err(KeyError::InvalidKey(why)) => assert_eq!(why, "Invalid key size"),
        _ => panic!("a 31-byte key was accepted"),
    }
    match KeyManager::init(Ok(vec![0u8; 33])) {
        Err(KeyError::InvalidKey(_)) => {}
        _ => panic!("a 33-byte key was accepted"),
    }
    let keys = KeyManager::from_stored(&[5u8; 32]).unwrap();
    assert_eq!(keys.signing_key().to_bytes(), [5u8; 32]);
    assert_eq!(
        keys.verifying_key().to_bytes(),
        ed25519_dalek::SigningKey::from_bytes(&[5u8; 32]).verifying_key().to_bytes()
    );
}

#[test]
fn init_passes_other_failures_on() {
    match KeyManager::init(Err(KeyError::CredentialManager("CredReadW failed".to_string()))) {
        Err(KeyError::CredentialManager(why)) => assert_eq!(why, "CredReadW failed"),
        _ => panic!("the failure of the secret store was lost"),
    }
    match KeyManager::init(Err(KeyError::FileSystem("disk".to_string()))) {
        Err(KeyError::FileSystem(why)) => assert_eq!(why, "disk"),
        _ => panic!("the failure of the file system was lost"),
    }
}

#[test]
fn key_errors_have_their_messages() {
    assert_eq!(KeyError::NotFound.message(), "Key not found");
    assert_eq!(KeyError::InvalidKey("x".to_string()).message(), "Invalid key: x");
    assert_eq!(
        KeyError::CredentialManager("y".to_string()).message(),
        "Credential Manager error: y"
    );
    assert_eq!(KeyError::FileSystem("z".to_string()).message(), "File system error: z");
}

#[test]
fn public_key_text_is_base64_of_the_key() {
    let keys = KeyManager::from_signing_key(SigningKey::from_bytes(&[8u8; 32]));
    let expected = base64::engine::general_purpose::STANDARD.encode(keys.verifying_key().to_bytes());
    assert_eq!(keys.public_key_base64(), expected);
    let copy = keys.duplicate();
    assert_eq!(copy.public_key_base64(), expected);
    let fresh = KeyManager::generate();
    assert_eq!(
        fresh.verifying_key().to_bytes(),
        fresh.signing_key().verifying_key().to_bytes()
    );
}

#[test]
fn signature_of_another_length_is_refused() {
    let key = SigningKey::from_bytes(&[9u8; 32]);
    let public = key.verifying_key();
    let signature = sign_hash("message", &key);
    let raw = base64::engine::general_purpose::STANDARD.decode(&signature).unwrap();
    assert_eq!(raw.len(), 64);
    let short = base64::engine::general_purpose::STANDARD.encode(&raw[..63]);
    assert!(!verify_signature("message", &short, &public));
    let mut longer = raw.clone();
    longer.push(0);
    let long = base64::engine::general_purpose::STANDARD.encode(&longer);
    assert!(!verify_signature("message", &long, &public));
    assert!(verify_signature("message", &signature, &public));
}
