//! Token cipher: AES-256-GCM under a key derived from the configured secret,
//! with a fresh 96-bit nonce per token and a base64 text blob as the result.

use aes_gcm::aead::{Aead, KeyInit};
use aes_gcm::{Aes256Gcm, Nonce};
use base64::engine::general_purpose::STANDARD;
use base64::Engine;
use rand::rngs::OsRng;
use rand::RngCore;
use sha2::{Digest, Sha256};
use vstd::prelude::*;
use vstd::utf8::*;

verus! {

/// Size in bytes of the nonce that precedes every sealed token.
pub const NONCE_LEN: usize = 12;

/// Size in bytes of the authentication tag that AES-GCM appends.
pub const TAG_LEN: usize = 16;

/// Largest plaintext, in bytes, that AES-GCM accepts under one nonce.
pub const MAX_PLAINTEXT_LEN: u64 = 0x10_0000_0000;

/// Why a token could not be sealed or opened.
#[derive(Clone, Copy, Debug, PartialEq, Eq, Structural)]
pub enum CipherError {
    /// The operating system gave no random bytes for a nonce.
    NonceUnavailable,
    /// The token is too long to be sealed.
    EncryptionFailed,
    /// The blob is not base64, or is shorter than a nonce.
    MalformedToken,
    /// The authentication tag does not match: wrong key or altered blob.
    DecryptionFailed,
    /// The opened bytes are not UTF-8 text.
    EncodingError,
}

/// The SHA-256 digest of `data`.
pub uninterp spec fn sha256(data: Seq<u8>) -> Seq<u8>;

/// The AES-256-GCM ciphertext of `plaintext`, tag appended, with no
/// associated data.
pub uninterp spec fn aes256_gcm_seal(key: Seq<u8>, nonce: Seq<u8>, plaintext: Seq<u8>) -> Seq<u8>;

/// What AES-256-GCM opens `sealed` to, or `None` where it rejects it.
pub uninterp spec fn aes256_gcm_open(key: Seq<u8>, nonce: Seq<u8>, sealed: Seq<u8>) -> Option<
    Seq<u8>,
>;

/// The padded standard-alphabet base64 text of `data`.
pub uninterp spec fn base64_encode(data: Seq<u8>) -> Seq<char>;

/// The bytes that padded standard-alphabet base64 `text` stands for, or
/// `None` where it is not such text.
pub uninterp spec fn base64_decode(text: Seq<char>) -> Option<Seq<u8>>;

/// Number of characters in the padded base64 text of `n` bytes.
pub open spec fn base64_len(n: int) -> int {
    4 * ((n + 2) / 3)
}

/// The symmetric key that stands for a configured secret of any length.
pub open spec fn derived_key(secret: Seq<char>) -> Seq<u8> {
    sha256(encode_utf8(secret))
}

/// Whether `token` can be sealed: AES-GCM takes its bytes and the text blob
/// can be allocated.
pub open spec fn sealable(token: Seq<char>) -> bool {
    &&& encode_utf8(token).len() <= MAX_PLAINTEXT_LEN
    &&& base64_len(NONCE_LEN + encode_utf8(token).len() + TAG_LEN) <= isize::MAX
}

/// The bytes that sealing `token` under `secret` with `nonce` gives: the
/// nonce, followed by the ciphertext with its tag.
pub open spec fn sealed_bytes(token: Seq<char>, secret: Seq<char>, nonce: Seq<u8>) -> Seq<u8> {
    nonce + aes256_gcm_seal(derived_key(secret), nonce, encode_utf8(token))
}

/// The blob that sealing `token` under `secret` with `nonce` gives: the
/// base64 text of [`sealed_bytes`].
pub open spec fn sealed_blob(token: Seq<char>, secret: Seq<char>, nonce: Seq<u8>) -> Seq<char> {
    base64_encode(sealed_bytes(token, secret, nonce))
}

/// Whether `blob` is what sealing `token` under `secret` with `nonce`
/// gives, laid out as every sealed token is: base64 text of full length
/// that stands for the nonce, as many ciphertext bytes as the token has
/// bytes, and the tag.
pub open spec fn seals(blob: Seq<char>, token: Seq<char>, secret: Seq<char>, nonce: Seq<u8>) -> bool {
    &&& nonce.len() == NONCE_LEN
    &&& blob == sealed_blob(token, secret, nonce)
    &&& base64_decode(blob) == Some(sealed_bytes(token, secret, nonce))
    &&& sealed_bytes(token, secret, nonce).len() == NONCE_LEN + encode_utf8(token).len() + TAG_LEN
    &&& blob.len() == base64_len(NONCE_LEN + encode_utf8(token).len() + TAG_LEN)
}

/// What opening `blob` under `secret` gives.
pub open spec fn opened_blob(blob: Seq<char>, secret: Seq<char>) -> Result<Seq<char>, CipherError> {
    match base64_decode(blob) {
        None => Err(CipherError::MalformedToken),
        Some(bytes) => if bytes.len() < NONCE_LEN {
            Err(CipherError::MalformedToken)
        } else {
            match aes256_gcm_open(
                derived_key(secret),
                bytes.subrange(0, NONCE_LEN as int),
                bytes.subrange(NONCE_LEN as int, bytes.len() as int),
            ) {
                None => Err(CipherError::DecryptionFailed),
                Some(plain) => if valid_utf8(plain) {
                    Ok(decode_utf8(plain))
                } else {
                    Err(CipherError::EncodingError)
                },
            }
        },
    }
}

/// The nonce that `blob` was sealed with: the first twelve bytes that it
/// encodes.
pub open spec fn blob_nonce(blob: Seq<char>) -> Option<Seq<u8>> {
    match base64_decode(blob) {
        Some(bytes) => if bytes.len() >= NONCE_LEN {
            Some(bytes.subrange(0, NONCE_LEN as int))
        } else {
            None
        },
        None => None,
    }
}

/// Whether `blob` is `token` sealed under `secret` with some nonce.
pub open spec fn is_sealing_of(blob: Seq<char>, token: Seq<char>, secret: Seq<char>) -> bool {
    exists|nonce: Seq<u8>| #[trigger] seals(blob, token, secret, nonce)
}

/// Calls `sha2::Sha256::digest`.  Trusted: the 32 bytes returned are the
/// SHA-256 digest of `data`, a function of `data` alone.
#[verifier::external_body]
fn sha256_digest(data: &[u8]) -> (digest: [u8; 32])
    ensures
        digest@ == sha256(data@),
{
    Sha256::digest(data).into()
}

/// Calls `rand::rngs::OsRng::try_fill_bytes` on twelve bytes.  Trusted:
/// nothing beyond the type; `None` where the operating system reports an
/// error.
#[verifier::external_body]
fn fresh_nonce() -> (nonce: Option<[u8; 12]>) {
    let mut bytes = [0u8; 12];
    OsRng.try_fill_bytes(&mut bytes).ok()?;
    Some(bytes)
}

/// Calls `Aes256Gcm::new_from_slice` and `Aead::encrypt` of `aes_gcm`.
/// Trusted: the call fails exactly on a plaintext longer than AES-GCM
/// allows; otherwise it returns the ciphertext with its 16-byte tag
/// appended, a function of key, nonce and plaintext alone, and opening that
/// with the same key and nonce gives the plaintext back.
#[verifier::external_body]
fn aead_seal(key: &[u8; 32], nonce: &[u8], plaintext: &[u8]) -> (sealed: Option<Vec<u8>>)
    requires
        nonce@.len() == NONCE_LEN,
    ensures
        sealed is Some <==> plaintext@.len() <= MAX_PLAINTEXT_LEN,
        sealed matches Some(bytes) ==> {
            &&& bytes@ == aes256_gcm_seal(key@, nonce@, plaintext@)
            &&& bytes@.len() == plaintext@.len() + TAG_LEN
            &&& aes256_gcm_open(key@, nonce@, bytes@) == Some(plaintext@)
        },
{
    let cipher = Aes256Gcm::new_from_slice(key).ok()?;
    cipher.encrypt(Nonce::from_slice(nonce), plaintext).ok()
}

/// Calls `Aes256Gcm::new_from_slice` and `Aead::decrypt` of `aes_gcm`.
/// Trusted: the outcome (plaintext, or rejection where the tag does not
/// authenticate the input) is a function of key, nonce and input alone.
#[verifier::external_body]
fn aead_open(key: &[u8; 32], nonce: &[u8], sealed: &[u8]) -> (plaintext: Option<Vec<u8>>)
    requires
        nonce@.len() == NONCE_LEN,
    ensures
        match plaintext {
            Some(bytes) => aes256_gcm_open(key@, nonce@, sealed@) == Some(bytes@),
            None => aes256_gcm_open(key@, nonce@, sealed@) is None,
        },
{
    let cipher = Aes256Gcm::new_from_slice(key).ok()?;
    cipher.decrypt(Nonce::from_slice(nonce), sealed).ok()
}

/// Calls `Engine::encode` of `base64` on the `STANDARD` engine.  Trusted:
/// the text is a function of `data` alone, it has four characters for
/// every three bytes begun, and decoding it with the same engine gives
/// `data` back.  The call panics where the text length does not fit an
/// allocation, which `requires` leaves out.
#[verifier::external_body]
fn base64_text(data: &[u8]) -> (text: String)
    requires
        base64_len(data@.len() as int) <= isize::MAX,
    ensures
        text@ == base64_encode(data@),
        text@.len() == base64_len(data@.len() as int),
        base64_decode(text@) == Some(data@),
{
    STANDARD.encode(data)
}

/// Calls `Engine::decode` of `base64` on the `STANDARD` engine.  Trusted:
/// the outcome (bytes, or rejection) is a function of `text` alone.
#[verifier::external_body]
fn base64_bytes(text: &str) -> (data: Option<Vec<u8>>)
    ensures
        match data {
            Some(bytes) => base64_decode(text@) == Some(bytes@),
            None => base64_decode(text@) is None,
        },
{
    STANDARD.decode(text).ok()
}

/// Calls `String::from_utf8`.  Trusted: it succeeds exactly on valid UTF-8
/// and then returns the text that the bytes encode.
#[verifier::external_body]
fn text_from_utf8(bytes: Vec<u8>) -> (text: Option<String>)
    ensures
        text is Some <==> valid_utf8(bytes@),
        text matches Some(s) ==> s@ == decode_utf8(bytes@),
{
    String::from_utf8(bytes).ok()
}

/// Reduces a secret of any length to the 256-bit key.
fn get_key_bytes(key: &str) -> (key_bytes: [u8; 32])
    ensures
        key_bytes@ == derived_key(key@),
{
    sha256_digest(key.as_bytes())
}

/// Whether the base64 text of `n` bytes can be allocated.
fn base64_fits(n: usize) -> (fits: bool)
    ensures
        fits == (base64_len(n as int) <= isize::MAX),
{
    let quarter: usize = (usize::MAX / 2) / 4;
    n <= 3 * quarter
}

/// Seals `token` under `encryption_key` with the given nonce.
///
/// The result is determined by the three arguments.  It is an error exactly
/// when the token is too long to be sealed.  Otherwise the blob is the
/// base64 text of the nonce, the ciphertext and the tag, and opens to
/// `token` under the same key.
pub fn encrypt_token_with_nonce(token: &str, encryption_key: &str, nonce: &[u8; 12]) -> (r: Result<
    String,
    CipherError,
>)
    ensures
        r is Ok <==> sealable(token@),
        r matches Ok(blob) ==> {
            &&& seals(blob@, token@, encryption_key@, nonce@)
            &&& blob_nonce(blob@) == Some(nonce@)
            &&& opened_blob(blob@, encryption_key@) == Ok::<Seq<char>, CipherError>(token@)
        },
        r matches Err(e) ==> e == CipherError::EncryptionFailed,
{
    let key_bytes = get_key_bytes(encryption_key);
    let plaintext = token.as_bytes();
    let nonce_bytes = nonce.as_slice();
    let ciphertext = match aead_seal(&key_bytes, nonce_bytes, plaintext) {
        Some(c) => c,
        None => { return Err(CipherError::EncryptionFailed); },
    };
    if ciphertext.len() > usize::MAX - NONCE_LEN || !base64_fits(NONCE_LEN + ciphertext.len()) {
        return Err(CipherError::EncryptionFailed);
    }
    let mut combined: Vec<u8> = Vec::with_capacity(NONCE_LEN + ciphertext.len());
    combined.extend_from_slice(nonce_bytes);
    combined.extend_from_slice(ciphertext.as_slice());
    let blob = base64_text(combined.as_slice());
    proof {
        broadcast use encode_utf8_decode_utf8, encode_utf8_valid_utf8;
        assert(combined@ == nonce@ + ciphertext@);
        assert(combined@.subrange(0, NONCE_LEN as int) == nonce@);
        assert(combined@.subrange(NONCE_LEN as int, combined@.len() as int) == ciphertext@);
    }
    Ok(blob)
}

/// Seals `token` under `encryption_key` with a nonce drawn from the
/// operating system.
///
/// Whatever nonce is drawn, a blob that comes back opens to `token` under
/// the same key.  A token that cannot be sealed is always an error.
pub fn encrypt_token(token: &str, encryption_key: &str) -> (r: Result<String, CipherError>)
    ensures
        r matches Ok(blob) ==> {
            &&& is_sealing_of(blob@, token@, encryption_key@)
            &&& opened_blob(blob@, encryption_key@) == Ok::<Seq<char>, CipherError>(token@)
        },
        r matches Err(e) ==> {
            ||| e == CipherError::NonceUnavailable
            ||| (e == CipherError::EncryptionFailed && !sealable(token@))
        },
        !sealable(token@) ==> r is Err,
{
    match fresh_nonce() {
        None => Err(CipherError::NonceUnavailable),
        Some(nonce) => encrypt_token_with_nonce(token, encryption_key, &nonce),
    }
}

/// Opens a blob made by [`encrypt_token`] under the same key.
pub fn decrypt_token(encrypted_token: &str, encryption_key: &str) -> (r: Result<String, CipherError>)
    ensures
        match r {
            Ok(token) => opened_blob(encrypted_token@, encryption_key@) == Ok::<
                Seq<char>,
                CipherError,
            >(token@),
            Err(e) => opened_blob(encrypted_token@, encryption_key@) == Err::<
                Seq<char>,
                CipherError,
            >(e),
        },
{
    let key_bytes = get_key_bytes(encryption_key);
    let combined = match base64_bytes(encrypted_token) {
        Some(bytes) => bytes,
        None => { return Err(CipherError::MalformedToken); },
    };
    if combined.len() < NONCE_LEN {
        return Err(CipherError::MalformedToken);
    }
    let (nonce, ciphertext) = combined.as_slice().split_at(NONCE_LEN);
    let plaintext = match aead_open(&key_bytes, nonce, ciphertext) {
        Some(bytes) => bytes,
        None => { return Err(CipherError::DecryptionFailed); },
    };
    match text_from_utf8(plaintext) {
        Some(token) => Ok(token),
        None => Err(CipherError::EncodingError),
    }
}

/// Text has at least one byte for every character.
proof fn lemma_utf8_len(chars: Seq<char>)
    ensures
        encode_utf8(chars).len() >= chars.len(),
    decreases chars.len(),
{
    if chars.len() > 0 {
        lemma_utf8_len(chars.drop_first());
    }
}

/// No token is stored in the clear: a blob that seals a token is longer
/// than the token, and so is not the token.
pub proof fn lemma_blob_differs_from_token(blob: Seq<char>, token: Seq<char>, secret: Seq<char>)
    requires
        is_sealing_of(blob, token, secret),
    ensures
        blob.len() > token.len(),
        blob != token,
{
    lemma_utf8_len(token);
}

/// Nonce freshness: two blobs that were sealed with different nonces are
/// different blobs, whatever token and key went into them.
pub proof fn lemma_fresh_nonce_fresh_blob(
    first: Seq<char>,
    second: Seq<char>,
    first_nonce: Seq<u8>,
    second_nonce: Seq<u8>,
)
    requires
        blob_nonce(first) == Some(first_nonce),
        blob_nonce(second) == Some(second_nonce),
        first_nonce != second_nonce,
    ensures
        first != second,
{
}

} // verus!
