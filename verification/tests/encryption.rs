use aes_gcm::aead::{Aead, KeyInit};
use rust_server::error::AppError;
use rust_server::utils::encryption::{Encryptor, KEY_LENGTH, NONCE_LENGTH};

fn decode(text: &str) -> Result<Vec<u8>, base64::DecodeError> {
    base64::Engine::decode(&base64::engine::general_purpose::STANDARD, text)
}

fn encode(bytes: &[u8]) -> String {
    base64::Engine::encode(&base64::engine::general_purpose::STANDARD, bytes)
}

fn refused(message: &str) -> AppError {
    AppError::InternalError(message.to_string())
}

#[test]
fn test_encryptor_initialization() {
    let key = Encryptor::generate_key();
    let nonce = Encryptor::generate_nonce();

    let encryptor = Encryptor::new(&key, &nonce);
    assert!(encryptor.is_ok());

    let invalid_key = "invalid_key";
    let result = Encryptor::new(invalid_key, &nonce);
    assert!(result.is_err());

    let invalid_nonce = "invalid_nonce";
    let result = Encryptor::new(&key, invalid_nonce);
    assert!(result.is_err());
}

#[test]
fn test_key_generation() {
    let key = Encryptor::generate_key();

    let decoded = decode(&key);
    assert!(decoded.is_ok());

    assert_eq!(decoded.unwrap().len(), 32);
}

#[test]
fn test_nonce_generation() {
    let nonce = Encryptor::generate_nonce();

    let decoded = decode(&nonce);
    assert!(decoded.is_ok());

    assert_eq!(decoded.unwrap().len(), 12);
}

#[test]
fn test_encryption_decryption() {
    let key = Encryptor::generate_key();
    let nonce = Encryptor::generate_nonce();
    let encryptor = Encryptor::new(&key, &nonce).unwrap();

    let original_text = "Hello, World!";

    let encrypted = encryptor.encrypt(original_text);
    assert!(encrypted.is_ok());
    let encrypted_text = encrypted.unwrap();

    assert_ne!(encrypted_text, original_text);

    let decrypted = encryptor.decrypt(&encrypted_text);
    assert!(decrypted.is_ok());
    assert_eq!(decrypted.unwrap(), original_text);
}

#[test]
fn test_decryption_with_invalid_data() {
    let key = Encryptor::generate_key();
    let nonce = Encryptor::generate_nonce();
    let encryptor = Encryptor::new(&key, &nonce).unwrap();

    let result = encryptor.decrypt("invalid-base64-data");
    assert!(result.is_err());

    let invalid_data = encode("invalid data".as_bytes());
    let result = encryptor.decrypt(&invalid_data);
    assert!(result.is_err());
}

#[test]
fn test_different_encryptors() {
    let key1 = Encryptor::generate_key();
    let nonce1 = Encryptor::generate_nonce();
    let encryptor1 = Encryptor::new(&key1, &nonce1).unwrap();

    let key2 = Encryptor::generate_key();
    let nonce2 = Encryptor::generate_nonce();
    let encryptor2 = Encryptor::new(&key2, &nonce2).unwrap();

    let text = "Test message";

    let encrypted = encryptor1.encrypt(text).unwrap();

    let result = encryptor2.decrypt(&encrypted);
    assert!(result.is_err());
}

#[test]
fn test_encryption_with_special_characters() {
    let key = Encryptor::generate_key();
    let nonce = Encryptor::generate_nonce();
    let encryptor = Encryptor::new(&key, &nonce).unwrap();

    let special_text = "Hello, \u{2030}\u{220f}\u{f1}\u{c1}\u{ef}\u{e5}! \u{f8ff}\u{fc}\u{e5}\u{e7} @#$%^&*";

    let encrypted = encryptor.encrypt(special_text).unwrap();
    let decrypted = encryptor.decrypt(&encrypted).unwrap();

    assert_eq!(decrypted, special_text);
}

#[test]
fn cipher_lengths() {
    assert_eq!(KEY_LENGTH, 32);
    assert_eq!(NONCE_LENGTH, 12);
}

#[test]
fn generated_keys_and_nonces_differ() {
    assert_ne!(Encryptor::generate_key(), Encryptor::generate_key());
    assert_ne!(Encryptor::generate_nonce(), Encryptor::generate_nonce());
}

#[test]
fn settings_are_checked_in_order() {
    let key = encode(&[7u8; 32]);
    let nonce = encode(&[9u8; 12]);
    assert!(Encryptor::new(&key, &nonce).is_ok());
    assert_eq!(
        Encryptor::new("***", "***").err(),
        Some(refused("Invalid encryption key format"))
    );
    assert_eq!(Encryptor::new(&key, "***").err(), Some(refused("Invalid nonce format")));
    assert_eq!(
        Encryptor::new(&key, &encode(&[9u8; 11])).err(),
        Some(refused("Invalid nonce length"))
    );
    assert_eq!(
        Encryptor::new(&encode(&[7u8; 31]), &encode(&[9u8; 13])).err(),
        Some(refused("Invalid nonce length"))
    );
    assert_eq!(
        Encryptor::new(&encode(&[7u8; 31]), &nonce).err(),
        Some(refused("Invalid key length"))
    );
    assert_eq!(
        Encryptor::new(&encode(&[7u8; 33]), &nonce).err(),
        Some(refused("Invalid key length"))
    );
    assert_eq!(Encryptor::new("", &nonce).err(), Some(refused("Invalid key length")));
}

#[test]
fn placeholder_settings_are_refused() {
    assert!(Encryptor::new("your-32-byte-secret-key-here", "unique-nonce12").is_err());
}

#[test]
fn encryption_is_a_function_of_key_nonce_and_text() {
    let key = encode(&[0u8; 32]);
    let nonce = encode(&[0u8; 12]);
    let encryptor = Encryptor::new(&key, &nonce).unwrap();
    // AES-256-GCM under the zero key and nonce, without data: the tag alone,
    // 530f8afb c74536b9 a963b4f1 c4cb738b.
    assert_eq!(encryptor.encrypt("").unwrap(), "Uw+K+8dFNrmpY7TxxMtziw==");
    let first = encryptor.encrypt("secret").unwrap();
    assert_eq!(encryptor.encrypt("secret").unwrap(), first);
    assert_eq!(Encryptor::new(&key, &nonce).unwrap().encrypt("secret").unwrap(), first);
    assert_ne!(encryptor.encrypt("Secret").unwrap(), first);
    // Six bytes of text and sixteen of tag.
    assert_eq!(decode(&first).unwrap().len(), 22);
    assert_eq!(encryptor.decrypt(&first).unwrap(), "secret");
    assert_eq!(encryptor.decrypt("Uw+K+8dFNrmpY7TxxMtziw==").unwrap(), "");
}

#[test]
fn decryption_failures_have_their_messages() {
    let key = encode(&[1u8; 32]);
    let nonce = encode(&[2u8; 12]);
    let encryptor = Encryptor::new(&key, &nonce).unwrap();
    assert_eq!(
        encryptor.decrypt("invalid-base64-data"),
        Err(refused("Invalid encrypted data format"))
    );
    assert_eq!(encryptor.decrypt(&encode(b"invalid data")), Err(refused("Decryption failed")));
    assert_eq!(encryptor.decrypt(""), Err(refused("Decryption failed")));
    let mut sealed = decode(&encryptor.encrypt("secret").unwrap()).unwrap();
    sealed[0] ^= 1;
    assert_eq!(encryptor.decrypt(&encode(&sealed)), Err(refused("Decryption failed")));
    let other = Encryptor::new(&key, &encode(&[3u8; 12])).unwrap();
    assert_eq!(
        other.decrypt(&encryptor.encrypt("secret").unwrap()),
        Err(refused("Decryption failed"))
    );
}

#[test]
fn bytes_that_are_no_text_are_refused() {
    let cipher = aes_gcm::Aes256Gcm::new_from_slice(&[1u8; 32]).unwrap();
    let sealed = cipher
        .encrypt(aes_gcm::Nonce::from_slice(&[2u8; 12]), &[0xff, 0xfe, 0x80][..])
        .unwrap();
    let encryptor = Encryptor::new(&encode(&[1u8; 32]), &encode(&[2u8; 12])).unwrap();
    assert_eq!(
        encryptor.decrypt(&encode(&sealed)),
        Err(refused("Invalid UTF-8 in decrypted data"))
    );
}
