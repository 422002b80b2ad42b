use rsa::pkcs8::DecodePrivateKey;
use rsa::{Pkcs1v15Encrypt, RsaPrivateKey, RsaPublicKey};
use sha1::Digest;
use apoptotic::net::cfb8::AesCfb8;
use apoptotic::net::session::{compute_server_hash, decrypt_client_secrets, generate_keys, offline_uuid};

#[test]
fn test_generate_keys() {
    let keys = generate_keys().expect("generate keys");
    assert_eq!(keys.verify_token.len(), 4);
    assert!(!keys.public_key_der.is_empty());
}

#[test]
fn test_aes_cfb8_single_byte() {
    let key = [1u8; 16];
    let mut data = [0x48u8];
    let mut enc = AesCfb8::new(&key);
    enc.encrypt(&mut data);
    let mut dec = AesCfb8::new(&key);
    dec.decrypt(&mut data);
    assert_eq!(data[0], 0x48, "Single byte should roundtrip");
}

#[test]
fn test_aes_cfb8_two_bytes() {
    let key = [0xAAu8; 16];
    let mut data = [72u8, 101u8];
    let mut enc = AesCfb8::new(&key);
    enc.encrypt(&mut data);
    let ct = data;
    let mut dec = AesCfb8::new(&key);
    let mut data2 = ct;
    dec.decrypt(&mut data2);
    assert_eq!(data2, [72, 101], "Two bytes should roundtrip");
}

#[test]
fn test_cfb8_deterministic() {
    let key = [0x10u8; 16];
    let mut c1 = AesCfb8::new(&key);
    let mut d1 = b"Test".to_vec();
    c1.encrypt(&mut d1);
    let mut c2 = AesCfb8::new(&key);
    let mut d2 = b"Test".to_vec();
    c2.encrypt(&mut d2);
    assert_eq!(d1, d2, "Same input + key should produce same ciphertext");
}

#[test]
fn test_aes_cfb8_roundtrip() {
    let key: [u8; 16] = [0x01, 0x02, 0x03, 0x04, 0x05, 0x06, 0x07, 0x08,
                          0x09, 0x0A, 0x0B, 0x0C, 0x0D, 0x0E, 0x0F, 0x10];
    let mut enc = AesCfb8::new(&key);
    let mut data = b"Hello, Minecraft!".to_vec();
    enc.encrypt(&mut data);
    let mut dec = AesCfb8::new(&key);
    dec.decrypt(&mut data);
    assert_eq!(&data, b"Hello, Minecraft!");
}

#[test]
fn cfb8_known_answer_and_stream_continuity() {
    // AES-128 of the all-zero block under the all-zero key starts with 0x66.
    let key = [0u8; 16];
    let mut enc = AesCfb8::new(&key);
    let mut one = [0u8];
    enc.encrypt(&mut one);
    assert_eq!(one[0], 0x66);
    // Encrypting in two calls equals encrypting at once.
    let mut whole = b"abcdef".to_vec();
    AesCfb8::new(&[7u8; 16]).encrypt(&mut whole);
    let mut split = AesCfb8::new(&[7u8; 16]);
    let mut a = b"abc".to_vec();
    let mut b = b"def".to_vec();
    split.encrypt(&mut a);
    split.encrypt(&mut b);
    a.extend_from_slice(&b);
    assert_eq!(a, whole);
    assert_ne!(whole, b"abcdef".to_vec());
}

#[test]
fn test_compute_server_hash() {
    let shared_secret: [u8; 16] = [0; 16];
    let public_key: &[u8] = b"test_key";
    let hash = compute_server_hash("", &shared_secret, public_key);
    assert!(!hash.is_empty());
}

#[test]
fn server_hash_is_hex_sha1() {
    let secret = [3u8; 16];
    let hash = compute_server_hash("srv", &secret, b"pk");
    let mut data = b"srv".to_vec();
    data.extend_from_slice(&secret);
    data.extend_from_slice(b"pk");
    let expected = hex::encode(sha1::Sha1::digest(&data));
    assert_eq!(hash, expected);
    assert_eq!(hash.len(), 40);
}

#[test]
fn test_encrypt_decrypt_secrets() {
    let keys = generate_keys().unwrap();
    let shared_secret: [u8; 16] = [0x42; 16];
    let verify_token: [u8; 4] = [0xAB; 4];
    let public_key = RsaPublicKey::from(&RsaPrivateKey::from_pkcs8_der(&keys.private_key_der).unwrap());
    let enc_secret = public_key.encrypt(&mut rand::rngs::OsRng, Pkcs1v15Encrypt, &shared_secret).unwrap();
    let enc_token = public_key.encrypt(&mut rand::rngs::OsRng, Pkcs1v15Encrypt, &verify_token).unwrap();
    let (dec_secret, dec_token) = decrypt_client_secrets(&keys.private_key_der, &enc_secret, &enc_token).unwrap();
    assert_eq!(dec_secret, shared_secret);
    assert_eq!(dec_token, verify_token);
}

#[test]
fn decrypt_rejects_wrong_lengths() {
    let keys = generate_keys().unwrap();
    let public_key = RsaPublicKey::from(&RsaPrivateKey::from_pkcs8_der(&keys.private_key_der).unwrap());
    let short = public_key.encrypt(&mut rand::rngs::OsRng, Pkcs1v15Encrypt, &[1u8; 15]).unwrap();
    let token = public_key.encrypt(&mut rand::rngs::OsRng, Pkcs1v15Encrypt, &[1u8; 4]).unwrap();
    let err = decrypt_client_secrets(&keys.private_key_der, &short, &token).unwrap_err();
    assert_eq!(err, "Shared secret must be 16 bytes");
    let secret = public_key.encrypt(&mut rand::rngs::OsRng, Pkcs1v15Encrypt, &[1u8; 16]).unwrap();
    let bad_token = public_key.encrypt(&mut rand::rngs::OsRng, Pkcs1v15Encrypt, &[1u8; 5]).unwrap();
    let err = decrypt_client_secrets(&keys.private_key_der, &secret, &bad_token).unwrap_err();
    assert_eq!(err, "Verify token must be 4 bytes");
    let err = decrypt_client_secrets(&keys.private_key_der, &[0u8; 3], &token).unwrap_err();
    assert!(err.starts_with("Failed to decrypt shared secret: "));
}

#[test]
fn test_offline_uuid_deterministic() {
    let a = offline_uuid("Player123");
    let b = offline_uuid("Player123");
    assert_eq!(a, b, "same username must produce same UUID");
}

#[test]
fn test_offline_uuid_different() {
    let a = offline_uuid("Alice");
    let b = offline_uuid("Bob");
    assert_ne!(a, b, "different usernames must produce different UUIDs");
}

#[test]
fn test_offline_uuid_format() {
    let uuid = uuid::Uuid::from_u128(offline_uuid("TestPlayer"));
    assert_eq!(uuid.get_version_num(), 3, "must be v3 UUID");
    let s = uuid.to_string();
    assert_eq!(s.len(), 36, "UUID string must be 36 chars");
    assert_eq!(&s[14..15], "3", "version character must be '3'");
}

#[test]
fn offline_uuid_matches_uuid_crate() {
    let expected = uuid::Uuid::new_v3(&uuid::Uuid::NAMESPACE_OID, b"OfflinePlayer:Notch");
    assert_eq!(offline_uuid("Notch"), expected.as_u128());
}

#[test]
fn decrypted_secrets_must_have_their_sizes() {
    let sixteen: Vec<u8> = (1..=16).collect();
    assert_eq!(apoptotic::net::session::shared_secret_from(Ok(sixteen.clone())), Ok([1, 2, 3, 4, 5, 6, 7, 8, 9, 10, 11, 12, 13, 14, 15, 16]));
    assert_eq!(
        apoptotic::net::session::shared_secret_from(Ok(vec![1, 2, 3])),
        Err("Shared secret must be 16 bytes".to_string())
    );
    assert_eq!(
        apoptotic::net::session::shared_secret_from(Err("decryption error".to_string())),
        Err("Failed to decrypt shared secret: decryption error".to_string())
    );
    assert_eq!(apoptotic::net::session::verify_token_from(Ok(vec![9, 8, 7, 6])), Ok([9, 8, 7, 6]));
    assert_eq!(apoptotic::net::session::verify_token_from(Ok(sixteen)), Err("Verify token must be 4 bytes".to_string()));
    assert_eq!(
        apoptotic::net::session::verify_token_from(Err("bad".to_string())),
        Err("Failed to decrypt verify token: bad".to_string())
    );
}

#[test]
fn process_encrypts_then_decrypts() {
    let key = [7u8; 16];
    let mut c = AesCfb8::new(&key);
    let mut data = b"hello world".to_vec();
    c.process(&mut data);
    assert_eq!(data, b"hello world".to_vec());
    // the register moved on as encrypting the bytes moves it
    let mut e = AesCfb8::new(&key);
    let mut first = b"hello world".to_vec();
    e.encrypt(&mut first);
    let mut next_a = b"more".to_vec();
    let mut next_b = b"more".to_vec();
    c.encrypt(&mut next_a);
    e.encrypt(&mut next_b);
    assert_eq!(next_a, next_b);
}

#[test]
fn decrypt_takes_the_secret_first() {
    let keys = generate_keys().unwrap();
    let public_key = RsaPublicKey::from(&RsaPrivateKey::from_pkcs8_der(&keys.private_key_der).unwrap());
    let secret = public_key.encrypt(&mut rand::rngs::OsRng, Pkcs1v15Encrypt, &[7u8; 16]).unwrap();
    let token = public_key.encrypt(&mut rand::rngs::OsRng, Pkcs1v15Encrypt, &[9u8; 4]).unwrap();
    let err = decrypt_client_secrets(&keys.private_key_der, &token, &secret).unwrap_err();
    assert_eq!(err, "Shared secret must be 16 bytes");
    let (s, t) = decrypt_client_secrets(&keys.private_key_der, &secret, &token).unwrap();
    assert_eq!(s, [7u8; 16]);
    assert_eq!(t, [9u8; 4]);
}

#[test]
fn decrypt_with_an_unreadable_key_fails() {
    let keys = generate_keys().unwrap();
    let public_key = RsaPublicKey::from(&RsaPrivateKey::from_pkcs8_der(&keys.private_key_der).unwrap());
    let secret = public_key.encrypt(&mut rand::rngs::OsRng, Pkcs1v15Encrypt, &[7u8; 16]).unwrap();
    let token = public_key.encrypt(&mut rand::rngs::OsRng, Pkcs1v15Encrypt, &[9u8; 4]).unwrap();
    let err = decrypt_client_secrets(&[1u8, 2, 3], &secret, &token).unwrap_err();
    assert!(err.starts_with("Failed to decrypt shared secret: "));
}
