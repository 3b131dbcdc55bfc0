use vulpecula::infra::parameters::secrets::{EncryptedValue, MasterKey, SecretError};

fn key(byte: u8) -> MasterKey {
    match MasterKey::from_bytes(&[byte; 32]) {
        Ok(k) => k,
        Err(_) => panic!("a 32-byte key is accepted"),
    }
}

#[test]
fn decrypt_gives_back_what_encrypt_sealed() {
    let k = key(7);
    for plaintext in ["", "hunter2", "päßwörd ✓", "a much longer secret value with spaces"] {
        let enc = k.encrypt(plaintext).expect("encryption succeeds");
        assert_eq!(enc.nonce.len(), 12);
        assert_eq!(enc.dek_nonce.len(), 12);
        assert_eq!(enc.ciphertext.len(), plaintext.len() + 16);
        assert_eq!(enc.wrapped_dek.len(), 32 + 16);
        assert_ne!(enc.ciphertext, plaintext.as_bytes());
        assert_eq!(k.decrypt(&enc).expect("decryption succeeds"), plaintext);
    }
}

#[test]
fn each_encryption_uses_fresh_keys_and_nonces() {
    let k = key(1);
    let a = k.encrypt("same").unwrap();
    let b = k.encrypt("same").unwrap();
    assert_ne!(a.nonce, b.nonce);
    assert_ne!(a.ciphertext, b.ciphertext);
    assert_ne!(a.wrapped_dek, b.wrapped_dek);
}

#[test]
fn another_master_key_cannot_unwrap() {
    let enc = key(1).encrypt("secret").unwrap();
    assert_eq!(key(2).decrypt(&enc), Err(SecretError::UnwrapDekFailed));
    assert_eq!(
        SecretError::UnwrapDekFailed.message(),
        "failed to unwrap dek"
    );
}

#[test]
fn tampered_ciphertext_fails_to_decrypt() {
    let k = key(3);
    let mut enc = k.encrypt("secret").unwrap();
    enc.ciphertext[0] ^= 1;
    assert_eq!(k.decrypt(&enc), Err(SecretError::DecryptFailed));
    assert_eq!(SecretError::DecryptFailed.message(), "failed to decrypt value");
}

#[test]
fn wrong_nonce_lengths_are_refused() {
    let k = key(4);
    let enc = k.encrypt("x").unwrap();
    let bad = EncryptedValue {
        ciphertext: enc.ciphertext.clone(),
        nonce: enc.nonce.clone(),
        wrapped_dek: enc.wrapped_dek.clone(),
        dek_nonce: vec![0u8; 11],
    };
    assert_eq!(k.decrypt(&bad), Err(SecretError::InvalidNonceLength));
    let bad = EncryptedValue {
        ciphertext: enc.ciphertext.clone(),
        nonce: vec![0u8; 13],
        wrapped_dek: enc.wrapped_dek.clone(),
        dek_nonce: enc.dek_nonce.clone(),
    };
    assert_eq!(k.decrypt(&bad), Err(SecretError::InvalidNonceLength));
    assert_eq!(SecretError::InvalidNonceLength.message(), "invalid nonce length");
}

#[test]
fn master_key_must_be_32_bytes() {
    assert!(MasterKey::from_bytes(&[0u8; 32]).is_ok());
    match MasterKey::from_bytes(&[0u8; 31]) {
        Err(e) => {
            assert_eq!(e, SecretError::InvalidMasterKeyLength { len: 31 });
            assert_eq!(e.message(), "master key must be 32 bytes, got 31");
        }
        Ok(_) => panic!("31 bytes are refused"),
    }
    match MasterKey::from_bytes(&[]) {
        Err(e) => assert_eq!(e.message(), "master key must be 32 bytes, got 0"),
        Ok(_) => panic!("no bytes are refused"),
    }
}

#[test]
fn error_texts() {
    assert_eq!(SecretError::RandomDekFailed.message(), "failed to generate dek");
    assert_eq!(SecretError::RandomNonceFailed.message(), "failed to generate nonce");
    assert_eq!(SecretError::EncryptFailed.message(), "failed to encrypt value");
    assert_eq!(SecretError::WrapDekFailed.message(), "failed to wrap dek");
    assert_eq!(SecretError::InvalidDekLength.message(), "invalid dek length");
    assert_eq!(SecretError::InvalidUtf8.message(), "decrypted value was not valid utf-8");
}

#[test]
fn sealing_is_determined_by_its_keys_and_nonces() {
    let k = key(3);
    let dek = [5u8; 32];
    let nonce = [1u8; 12];
    let dek_nonce = [2u8; 12];
    let a = k.seal("hunter2", &dek, &nonce, &dek_nonce).expect("short values seal");
    let b = k.seal("hunter2", &dek, &nonce, &dek_nonce).expect("short values seal");
    assert_eq!(a.ciphertext, b.ciphertext);
    assert_eq!(a.wrapped_dek, b.wrapped_dek);
    assert_eq!(a.nonce, nonce.to_vec());
    assert_eq!(a.dek_nonce, dek_nonce.to_vec());
    assert_eq!(a.ciphertext.len(), "hunter2".len() + 16);
    assert_eq!(a.wrapped_dek.len(), 32 + 16);
    assert_ne!(&a.ciphertext[..7], "hunter2".as_bytes());
    assert_eq!(k.decrypt(&a).unwrap(), "hunter2");
    let other = k.seal("hunter2", &dek, &[9u8; 12], &dek_nonce).unwrap();
    assert_ne!(other.ciphertext, a.ciphertext);
}
