//! AES-256-GCM encryption under a PBKDF2-HMAC-SHA256 key derived from the PIN.

use vstd::prelude::*;
use crate::text::{cat, u64_to_string};
use aes_gcm::aead::{Aead, KeyInit};

verus! {

/// PBKDF2 iterations.
pub const PBKDF2_ITERATIONS: u32 = 1_000_000;
/// Salt length in bytes.
pub const SALT_LEN: usize = 16;
/// Nonce length in bytes.
pub const NONCE_LEN: usize = 12;
/// Vault format version.
pub const VAULT_VERSION: u32 = 1;
/// Largest plaintext AES-GCM seals, in bytes.
pub const MAX_PLAINTEXT: u64 = 68719476736;

/// An encrypted blob with what is needed to decrypt it again.
#[derive(Debug, Clone)]
pub struct EncryptedData {
    pub version: u32,
    pub salt: Vec<u8>,
    pub nonce: Vec<u8>,
    pub ciphertext: Vec<u8>,
}

/// The 32-byte key PBKDF2-HMAC-SHA256 derives from a PIN and a salt with
/// the vault's iteration count.
pub uninterp spec fn pbkdf2_key(pin: Seq<char>, salt: Seq<u8>) -> Seq<u8>;

/// What AES-256-GCM produces when sealing a plaintext under a key and a nonce.
pub uninterp spec fn aes_gcm_seal(key: Seq<u8>, nonce: Seq<u8>, plaintext: Seq<u8>) -> Seq<u8>;

/// What AES-256-GCM opening gives: the plaintext, or `None` when the tag does
/// not authenticate the ciphertext under the key and nonce.
pub uninterp spec fn aes_gcm_open(key: Seq<u8>, nonce: Seq<u8>, ciphertext: Seq<u8>) -> Option<Seq<u8>>;

/// `pbkdf2::pbkdf2_hmac::<Sha256>` with the vault's iteration count into a
/// 32-byte buffer: a function of the PIN's bytes and the salt.
#[verifier::external_body]
fn pbkdf2_hmac_sha256(pin: &str, salt: &[u8]) -> (r: Vec<u8>)
    ensures
        r@ == pbkdf2_key(pin@, salt@),
        r@.len() == 32,
{
    let mut key = vec![0u8; 32];
    pbkdf2::pbkdf2_hmac::<sha2::Sha256>(pin.as_bytes(), salt, PBKDF2_ITERATIONS, &mut key);
    key
}

/// `rand::thread_rng().fill_bytes` into a fresh buffer: random bytes of the
/// requested length; nothing else is stated of them.
#[verifier::external_body]
fn random_bytes(len: usize) -> (r: Vec<u8>)
    ensures
        r@.len() == len,
{
    let mut buffer = vec![0u8; len];
    rand::RngCore::fill_bytes(&mut rand::thread_rng(), &mut buffer);
    buffer
}

/// `Aes256Gcm::encrypt` with a 32-byte key and a 12-byte nonce. It fails only
/// for plaintexts above the AES-GCM limit; AEAD guarantees that opening the
/// result with the same key and nonce gives the plaintext back.
#[verifier::external_body]
fn aes_gcm_encrypt(key: &[u8], nonce: &[u8], plaintext: &[u8]) -> (r: Result<Vec<u8>, String>)
    requires
        key@.len() == 32,
        nonce@.len() == NONCE_LEN,
    ensures
        plaintext@.len() <= MAX_PLAINTEXT ==> r is Ok,
        r matches Ok(c) ==> c@ == aes_gcm_seal(key@, nonce@, plaintext@)
            && aes_gcm_open(key@, nonce@, c@) == Some(plaintext@),
{
    let cipher = aes_gcm::Aes256Gcm::new_from_slice(key).map_err(|e| format!("Failed to create cipher: {}", e))?;
    cipher
        .encrypt(aes_gcm::Nonce::from_slice(nonce), plaintext)
        .map_err(|e| format!("Encryption failed: {}", e))
}

/// `Aes256Gcm::decrypt` with a 32-byte key and a 12-byte nonce: the plaintext
/// exactly when the ciphertext authenticates.
#[verifier::external_body]
fn aes_gcm_decrypt(key: &[u8], nonce: &[u8], ciphertext: &[u8]) -> (r: Result<Vec<u8>, String>)
    requires
        key@.len() == 32,
        nonce@.len() == NONCE_LEN,
    ensures
        r matches Ok(p) ==> aes_gcm_open(key@, nonce@, ciphertext@) == Some(p@),
        r is Err <==> aes_gcm_open(key@, nonce@, ciphertext@) is None,
{
    let cipher = aes_gcm::Aes256Gcm::new_from_slice(key).map_err(|e| format!("Failed to create cipher: {}", e))?;
    cipher
        .decrypt(aes_gcm::Nonce::from_slice(nonce), ciphertext)
        .map_err(|e| format!("Decryption failed (wrong PIN or corrupted vault): {}", e))
}

/// The 256-bit key derived from a PIN and a salt.
pub fn derive_key(pin: &str, salt: &[u8]) -> (r: Vec<u8>)
    ensures
        r@ == pbkdf2_key(pin@, salt@),
        r@.len() == 32,
{
    pbkdf2_hmac_sha256(pin, salt)
}

/// Encrypts under a key derived from the PIN with a fresh random salt and
/// nonce, both kept with the ciphertext.
pub fn encrypt(plaintext: &[u8], pin: &str) -> (r: Result<EncryptedData, String>)
    ensures
        plaintext@.len() <= MAX_PLAINTEXT ==> r is Ok,
        r matches Ok(e) ==> sealed_from(e, plaintext@, pin@),
{
    let salt = random_bytes(SALT_LEN);
    let nonce = random_bytes(NONCE_LEN);
    let key = derive_key(pin, salt.as_slice());
    let ciphertext = aes_gcm_encrypt(key.as_slice(), nonce.as_slice(), plaintext)?;
    Ok(EncryptedData { version: VAULT_VERSION, salt, nonce, ciphertext })
}

/// The message for a blob of another format version.
pub open spec fn version_message(found: u32) -> Seq<char> {
    "Unsupported vault version: "@ + crate::text::decimal(found as nat) + " (expected 1)"@
}

/// Decrypts with a key derived from the PIN. A blob of another version is
/// refused; otherwise the plaintext comes back exactly when the ciphertext
/// authenticates under the PIN's key, so a wrong PIN or a changed byte fails.
pub fn decrypt(encrypted: &EncryptedData, pin: &str) -> (r: Result<Vec<u8>, String>)
    requires
        encrypted.nonce@.len() == NONCE_LEN,
    ensures
        decrypt_outcome(*encrypted, pin@, r),
{
    if encrypted.version != VAULT_VERSION {
        let found = u64_to_string(encrypted.version as u64);
        let first = cat("Unsupported vault version: ", found.as_str());
        return Err(cat(first.as_str(), " (expected 1)"));
    }
    let key = derive_key(pin, encrypted.salt.as_slice());
    aes_gcm_decrypt(key.as_slice(), encrypted.nonce.as_slice(), encrypted.ciphertext.as_slice())
}

/// What `encrypt` promises of a blob sealed from `plaintext` under `pin`.
pub open spec fn sealed_from(e: EncryptedData, plaintext: Seq<u8>, pin: Seq<char>) -> bool {
    &&& e.version == VAULT_VERSION
    &&& e.salt@.len() == SALT_LEN
    &&& e.nonce@.len() == NONCE_LEN
    &&& e.ciphertext@ == aes_gcm_seal(pbkdf2_key(pin, e.salt@), e.nonce@, plaintext)
    &&& aes_gcm_open(pbkdf2_key(pin, e.salt@), e.nonce@, e.ciphertext@) == Some(plaintext)
}

/// What `decrypt` promises of its answer `r` for a blob and a PIN.
pub open spec fn decrypt_outcome(e: EncryptedData, pin: Seq<char>, r: Result<Vec<u8>, String>) -> bool {
    &&& e.version != VAULT_VERSION ==> (r matches Err(m) && m@ == version_message(e.version))
    &&& e.version == VAULT_VERSION ==> (r is Ok <==> aes_gcm_open(pbkdf2_key(pin, e.salt@), e.nonce@, e.ciphertext@) is Some)
    &&& r matches Ok(p) ==> aes_gcm_open(pbkdf2_key(pin, e.salt@), e.nonce@, e.ciphertext@) == Some(p@)
}

/// Decrypting what `encrypt` produced, with the same PIN, succeeds and gives
/// back exactly the plaintext: every answer `decrypt` may give for a blob
/// `encrypt` sealed is `Ok` of the plaintext.
pub proof fn lemma_round_trip(plaintext: Seq<u8>, pin: Seq<char>, e: EncryptedData, r: Result<Vec<u8>, String>)
    requires
        sealed_from(e, plaintext, pin),
        decrypt_outcome(e, pin, r),
    ensures
        r matches Ok(p) && p@ == plaintext,
{
}

} // verus!
