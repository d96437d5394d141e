use mcp_manager::encryption::{EncryptedData, KeyStore};

#[test]
fn data_key_needs_master_key() {
    let mut ks = KeyStore::new();
    assert_eq!(ks.generate_data_key("topic".to_string()).unwrap_err(), "Master key not initialized");
    let info = ks.generate_master_key().unwrap();
    assert_eq!(info.id, "master");
    assert_eq!(info.algorithm, "AES-256-GCM");
    assert!(info.created_at.parse::<i64>().is_ok());
    let info = ks.generate_data_key("topic".to_string()).unwrap();
    assert_eq!(info.id, "topic");
}

#[test]
fn encrypt_then_decrypt_round_trips() {
    let mut ks = KeyStore::new();
    ks.generate_master_key().unwrap();
    ks.generate_data_key("t".to_string()).unwrap();
    let sealed = ks.encrypt("你好, world".to_string(), "t".to_string()).unwrap();
    assert_ne!(sealed.ciphertext, "你好, world");
    assert_eq!(sealed.iv.len(), 16);
    assert!(sealed.tag.is_some());
    assert_eq!(ks.decrypt(sealed, "t".to_string()).unwrap(), "你好, world");
}

#[test]
fn fixed_nonce_encryption_is_deterministic() {
    let mut ks = KeyStore::new();
    ks.generate_master_key().unwrap();
    ks.generate_data_key("t".to_string()).unwrap();
    let a = ks.encrypt_with_nonce("abc".to_string(), "t".to_string(), vec![0u8; 12]).unwrap();
    let b = ks.encrypt_with_nonce("abc".to_string(), "t".to_string(), vec![0u8; 12]).unwrap();
    assert_eq!(a, b);
    assert_eq!(a.iv, "AAAAAAAAAAAAAAAA");
    assert!(ks.encrypt_with_nonce("abc".to_string(), "t".to_string(), vec![0u8; 5]).is_err());
}

#[test]
fn missing_topic_key_is_reported() {
    let ks = KeyStore::new();
    assert_eq!(ks.encrypt("x".to_string(), "t".to_string()).unwrap_err(), "Data key not found for topic: t");
    let data = EncryptedData { ciphertext: String::new(), iv: String::new(), tag: None };
    assert_eq!(ks.decrypt(data, "t".to_string()).unwrap_err(), "Data key not found for topic: t");
}

#[test]
fn tampered_ciphertext_is_refused() {
    let mut ks = KeyStore::new();
    ks.generate_master_key().unwrap();
    ks.generate_data_key("t".to_string()).unwrap();
    let mut sealed = ks.encrypt("secret".to_string(), "t".to_string()).unwrap();
    sealed.tag = Some("AAAAAAAAAAAAAAAAAAAAAA==".to_string());
    assert!(ks.decrypt(sealed, "t".to_string()).is_err());
    let bad = EncryptedData { ciphertext: "***".to_string(), iv: "AAAA".to_string(), tag: None };
    assert!(ks.decrypt(bad, "t".to_string()).is_err());
}
