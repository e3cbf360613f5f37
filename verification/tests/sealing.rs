use datatool::crypto::{decrypt_password, encrypt_password, CryptoError};

#[test]
fn test_encrypt_decrypt() {
    let password = "my_secret_password";
    let encrypted = encrypt_password("alice", password).unwrap();
    let decrypted = decrypt_password("alice", &encrypted).unwrap();
    assert_eq!(password, decrypted);
}

#[test]
fn sealing_tolerates_empty_inputs() {
    let sealed = encrypt_password("", "").unwrap();
    assert_eq!(decrypt_password("", &sealed).unwrap(), "");
    let sealed = encrypt_password("bob", "pw").unwrap();
    assert_eq!(decrypt_password("bob", &sealed).unwrap(), "pw");
}

#[test]
fn sealed_text_is_fresh_per_call_but_always_opens() {
    let a = encrypt_password("alice", "hunter2").unwrap();
    let b = encrypt_password("alice", "hunter2").unwrap();
    // the nonce is random, so the sealed text differs…
    assert_ne!(a, b);
    // …while both open to the same password
    assert_eq!(decrypt_password("alice", &a).unwrap(), "hunter2");
    assert_eq!(decrypt_password("alice", &b).unwrap(), "hunter2");
}

#[test]
fn non_base64_input_is_an_invalid_format() {
    assert_eq!(
        decrypt_password("alice", "not base64 at all!!!"),
        Err(CryptoError::InvalidFormat)
    );
}

#[test]
fn too_short_frame_is_an_invalid_format() {
    // base64 of three bytes: shorter than the 12-byte nonce
    let short = base64::Engine::encode(&base64::engine::general_purpose::STANDARD, [1u8, 2, 3]);
    assert_eq!(decrypt_password("alice", &short), Err(CryptoError::InvalidFormat));
}

#[test]
fn tampered_frame_fails_to_decrypt() {
    let sealed = encrypt_password("alice", "hunter2").unwrap();
    let mut frame =
        base64::Engine::decode(&base64::engine::general_purpose::STANDARD, &sealed).unwrap();
    let last = frame.len() - 1;
    frame[last] ^= 0x01;
    let resealed = base64::Engine::encode(&base64::engine::general_purpose::STANDARD, &frame);
    assert_eq!(
        decrypt_password("alice", &resealed),
        Err(CryptoError::DecryptionFailed)
    );
}

#[test]
fn sealing_errors_render_their_messages() {
    assert_eq!(CryptoError::EncryptionFailed.message(), "Encryption failed");
    assert_eq!(CryptoError::DecryptionFailed.message(), "Decryption failed");
    assert_eq!(CryptoError::InvalidFormat.message(), "Invalid data format");
}

#[test]
fn wrong_machine_identity_fails_to_decrypt() {
    let sealed = encrypt_password("alice", "hunter2").unwrap();
    assert_eq!(
        decrypt_password("mallory", &sealed),
        Err(CryptoError::DecryptionFailed)
    );
}
