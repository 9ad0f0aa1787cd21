use attested_router::db_crypto::AesDbCryptoProvider;
use attested_router::db_crypto::DbCryptoError;
use attested_router::db_crypto::DbCryptoProvider;
use attested_router::db_crypto::NullDbCryptoProvider;

#[test]
fn null_provider_passes_data_through() {
    let p = NullDbCryptoProvider;
    assert!(!p.requires_password());
    let data = vec![1u8, 2, 3, 4];
    assert_eq!(p.encrypt(&data).unwrap(), data);
    assert_eq!(p.decrypt(&data).unwrap(), data);
}

#[test]
fn null_provider_refuses_passwords() {
    let mut p = NullDbCryptoProvider;
    assert_eq!(p.set_password(&[0u8; 32]), Err(DbCryptoError::EncryptionNotEnabled));
    assert_eq!(p.clear_password(), Err(DbCryptoError::EncryptionNotEnabled));
}

#[test]
fn aes_requires_password_before_use() {
    let p = AesDbCryptoProvider::new();
    assert!(p.requires_password());
    assert_eq!(p.encrypt(&[1, 2, 3]), Err(DbCryptoError::MissingEncryptionKey));
    assert_eq!(p.decrypt(&[1, 2, 3]), Err(DbCryptoError::MissingEncryptionKey));
    assert_eq!(p.get_encryption_key(), Err(DbCryptoError::MissingEncryptionKey));
}

#[test]
fn aes_password_length_is_checked() {
    let mut p = AesDbCryptoProvider::new();
    assert_eq!(p.set_password(&[7u8; 31]), Err(DbCryptoError::EncryptionInvalidKeyLength));
    assert_eq!(p.set_password(&[7u8; 33]), Err(DbCryptoError::EncryptionInvalidKeyLength));
    assert_eq!(p.set_password(&[7u8; 32]), Ok(()));
}

#[test]
fn aes_password_set_only_once() {
    let mut p = AesDbCryptoProvider::new();
    assert_eq!(p.set_password(&[7u8; 32]), Ok(()));
    assert_eq!(p.set_password(&[8u8; 32]), Err(DbCryptoError::EncryptionKeyAlreadySet));
    assert_eq!(p.get_encryption_key(), Ok(vec![7u8; 32]));
    assert_eq!(p.clear_password(), Ok(()));
    assert_eq!(p.set_password(&[8u8; 32]), Ok(()));
}

#[test]
fn aes_round_trip() {
    let mut p = AesDbCryptoProvider::new();
    p.set_password(&[42u8; 32]).unwrap();
    let plaintext = b"account ledger page".to_vec();
    let ciphertext = p.encrypt(&plaintext).unwrap();
    // Sealed output carries a 16-byte authentication tag and never equals
    // the plaintext.
    assert_eq!(ciphertext.len(), plaintext.len() + 16);
    assert_ne!(&ciphertext[..plaintext.len()], &plaintext[..]);
    assert_eq!(p.decrypt(&ciphertext).unwrap(), plaintext);
}

#[test]
fn aes_detects_tampering() {
    let mut p = AesDbCryptoProvider::new();
    p.set_password(&[42u8; 32]).unwrap();
    let mut ciphertext = p.encrypt(&[5u8; 24]).unwrap();
    ciphertext[3] ^= 0x01;
    assert_eq!(p.decrypt(&ciphertext), Err(DbCryptoError::Aead));
}

#[test]
fn aes_key_changes_ciphertext() {
    let mut p1 = AesDbCryptoProvider::new();
    p1.set_password(&[1u8; 32]).unwrap();
    let mut p2 = AesDbCryptoProvider::new();
    p2.set_password(&[2u8; 32]).unwrap();
    let data = vec![9u8; 16];
    assert_ne!(p1.encrypt(&data).unwrap(), p2.encrypt(&data).unwrap());
    // Decrypting under the wrong key fails authentication.
    let ct = p1.encrypt(&data).unwrap();
    assert_eq!(p2.decrypt(&ct), Err(DbCryptoError::Aead));
}

#[test]
fn aes_default_has_no_key() {
    let p = AesDbCryptoProvider::default();
    assert_eq!(p.get_encryption_key(), Err(DbCryptoError::MissingEncryptionKey));
}
