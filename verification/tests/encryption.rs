use aes_gcm::aead::{Aead, KeyInit};
use aes_gcm::{Aes256Gcm, Nonce};
use base64::engine::general_purpose::STANDARD;
use base64::Engine;
use ferris_file_sync::db::encryption::{
    decrypt_token, encrypt_token, encrypt_token_with_nonce, CipherError,
};
use sha2::{Digest, Sha256};

#[test]
fn test_encrypt_decrypt() {
    let test_token = "test-token-value";
    let encryption_key = "test-encryption-key";

    // Encrypt the token
    let encrypted = encrypt_token(test_token, encryption_key).unwrap();

    // Decrypt the token
    let decrypted = decrypt_token(&encrypted, encryption_key).unwrap();

    assert_eq!(test_token, decrypted);
}

#[test]
fn round_trip_of_empty_and_non_ascii_tokens() {
    for token in ["", "a", "żółć-\u{1F980}-token", "line\nbreak\ttab"] {
        for key in ["", "k", "a much longer secret than thirty-two bytes would ever be"] {
            let blob = encrypt_token(token, key).unwrap();
            assert_eq!(decrypt_token(&blob, key).unwrap(), token);
        }
    }
}

#[test]
fn known_answer_for_a_given_nonce() {
    let nonce: [u8; 12] = [0, 1, 2, 3, 4, 5, 6, 7, 8, 9, 10, 11];
    let blob = encrypt_token_with_nonce("test-token-value", "test-encryption-key", &nonce).unwrap();
    assert_eq!(blob, "AAECAwQFBgcICQoLjkJC93RBSVptQeoKdEmFefcKPqODt02W+V1PhxQ0tio=");
    assert_eq!(decrypt_token(&blob, "test-encryption-key").unwrap(), "test-token-value");
}

#[test]
fn blob_is_nonce_then_ciphertext_then_tag() {
    let nonce: [u8; 12] = [9; 12];
    let blob = encrypt_token_with_nonce("abc", "secret", &nonce).unwrap();
    let bytes = STANDARD.decode(&blob).unwrap();
    assert_eq!(bytes.len(), 12 + 3 + 16);
    assert_eq!(&bytes[..12], &nonce[..]);
    let key = Sha256::digest("secret".as_bytes());
    let cipher = Aes256Gcm::new_from_slice(&key).unwrap();
    let plain = cipher.decrypt(Nonce::from_slice(&nonce), &bytes[12..]).unwrap();
    assert_eq!(plain, b"abc");
}

#[test]
fn same_nonce_gives_same_blob_and_other_nonce_another() {
    let a = encrypt_token_with_nonce("token", "key", &[1; 12]).unwrap();
    let b = encrypt_token_with_nonce("token", "key", &[1; 12]).unwrap();
    let c = encrypt_token_with_nonce("token", "key", &[2; 12]).unwrap();
    assert_eq!(a, b);
    assert_ne!(a, c);
}

#[test]
fn two_encryptions_differ() {
    let first = encrypt_token("same-token", "same-key").unwrap();
    let second = encrypt_token("same-token", "same-key").unwrap();
    assert_ne!(first, second);
    assert_eq!(decrypt_token(&first, "same-key").unwrap(), "same-token");
    assert_eq!(decrypt_token(&second, "same-key").unwrap(), "same-token");
}

#[test]
fn flipping_any_byte_is_detected() {
    let blob = encrypt_token("a token worth protecting", "key").unwrap();
    let bytes = STANDARD.decode(&blob).unwrap();
    for i in 0..bytes.len() {
        let mut altered = bytes.clone();
        altered[i] ^= 0x01;
        let tampered = STANDARD.encode(&altered);
        assert_eq!(decrypt_token(&tampered, "key"), Err(CipherError::DecryptionFailed));
    }
}

#[test]
fn wrong_key_fails_decryption() {
    let blob = encrypt_token("token", "right-key").unwrap();
    assert_eq!(decrypt_token(&blob, "wrong-key"), Err(CipherError::DecryptionFailed));
}

#[test]
fn blob_that_is_not_base64_is_malformed() {
    assert_eq!(decrypt_token("not base64 at all!", "key"), Err(CipherError::MalformedToken));
    assert_eq!(decrypt_token("AAA", "key"), Err(CipherError::MalformedToken));
}

#[test]
fn blob_shorter_than_a_nonce_is_malformed() {
    assert_eq!(decrypt_token("", "key"), Err(CipherError::MalformedToken));
    let eleven = STANDARD.encode([7u8; 11]);
    assert_eq!(decrypt_token(&eleven, "key"), Err(CipherError::MalformedToken));
}

#[test]
fn blob_of_a_bare_nonce_fails_decryption() {
    let twelve = STANDARD.encode([7u8; 12]);
    assert_eq!(decrypt_token(&twelve, "key"), Err(CipherError::DecryptionFailed));
}

#[test]
fn bytes_that_are_no_text_are_an_encoding_error() {
    let key = Sha256::digest("key".as_bytes());
    let cipher = Aes256Gcm::new_from_slice(&key).unwrap();
    let nonce = [3u8; 12];
    let sealed = cipher.encrypt(Nonce::from_slice(&nonce), &[0xff, 0xfe, 0x80][..]).unwrap();
    let mut combined = nonce.to_vec();
    combined.extend_from_slice(&sealed);
    let blob = STANDARD.encode(&combined);
    assert_eq!(decrypt_token(&blob, "key"), Err(CipherError::EncodingError));
}

#[test]
fn key_is_the_sha256_of_the_secret() {
    let nonce = [5u8; 12];
    let blob = encrypt_token_with_nonce("t", "another secret", &nonce).unwrap();
    let bytes = STANDARD.decode(&blob).unwrap();
    let raw_key = {
        let mut k = [0u8; 32];
        let secret = "another secret".as_bytes();
        k[..secret.len()].copy_from_slice(secret);
        k
    };
    let unhashed = Aes256Gcm::new_from_slice(&raw_key).unwrap();
    assert!(unhashed.decrypt(Nonce::from_slice(&nonce), &bytes[12..]).is_err());
    let hashed = Aes256Gcm::new_from_slice(&Sha256::digest("another secret".as_bytes())).unwrap();
    assert_eq!(hashed.decrypt(Nonce::from_slice(&nonce), &bytes[12..]).unwrap(), b"t");
}

#[test]
fn blob_has_the_length_of_its_parts() {
    for token in ["", "a", "ab", "abc", "abcd", "é\u{1F980}"] {
        let blob = encrypt_token(token, "key").unwrap();
        let sealed = 12 + token.len() + 16;
        assert_eq!(blob.len(), 4 * ((sealed + 2) / 3));
        assert_eq!(STANDARD.decode(&blob).unwrap().len(), sealed);
        assert_ne!(blob, token);
    }
}
