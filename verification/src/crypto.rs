//! The authenticated envelope: AES-256-GCM packets for stored bytes, and
//! URL-safe tokens that carry a serialized file reference.

use vstd::prelude::*;
use vstd::slice::slice_to_vec;
use aes_gcm::aead::{Aead, KeyInit, OsRng};
use aes_gcm::{Aes256Gcm, Nonce};
use base64::engine::general_purpose::URL_SAFE_NO_PAD;
use base64::Engine;
use rand::RngCore;
use sha2::{Digest, Sha256};
use crate::error::{AppError, ErrorModel};
use crate::models::FileReference;

verus! {

/// Length of the nonce that leads every packet.
pub const NONCE_LEN: usize = 12;

/// Length of the authentication tag that ends every sealed message.
pub const TAG_LEN: usize = 16;

/// The longest plaintext that AES-GCM seals under one nonce.
pub const MAX_PLAINTEXT: u64 = 0x10_0000_0000;

/// What AES-256-GCM, without associated data, makes of a plaintext under a
/// key and a nonce: the ciphertext followed by its tag.
pub uninterp spec fn aead_seal(key: Seq<u8>, nonce: Seq<u8>, plaintext: Seq<u8>) -> Seq<u8>;

/// What AES-256-GCM recovers from a sealed message under a key and a nonce:
/// the plaintext, or nothing where the tag does not authenticate it.
pub uninterp spec fn aead_open(key: Seq<u8>, nonce: Seq<u8>, sealed: Seq<u8>) -> Option<Seq<u8>>;

/// The unpadded URL-safe base64 text of some bytes.
pub uninterp spec fn url_base64_text(data: Seq<u8>) -> Seq<char>;

/// The bytes that an unpadded URL-safe base64 text stands for, if it is one.
pub uninterp spec fn url_base64_bytes(text: Seq<char>) -> Option<Seq<u8>>;

/// The SHA-256 digest of some bytes.
pub uninterp spec fn sha256(data: Seq<u8>) -> Seq<u8>;

/// The error of aes-gcm, which tells nothing but that sealing or opening failed.
#[verifier::external_type_specification]
#[verifier::external_body]
pub struct ExAeadError(aes_gcm::Error);

/// The error of base64, which says where a text stops being base64.
#[verifier::external_type_specification]
#[verifier::external_body]
pub struct ExDecodeError(base64::DecodeError);

/// A packet: the nonce, then the message sealed under it.
pub open spec fn packet_of(key: Seq<u8>, nonce: Seq<u8>, plaintext: Seq<u8>) -> Seq<u8> {
    nonce + aead_seal(key, nonce, plaintext)
}

/// What a packet holds: nothing if it is too short to carry a nonce,
/// else what its tail opens to under its first twelve bytes.
pub open spec fn opened(key: Seq<u8>, packet: Seq<u8>) -> Option<Seq<u8>> {
    if packet.len() < NONCE_LEN {
        None
    } else {
        aead_open(
            key,
            packet.subrange(0, NONCE_LEN as int),
            packet.subrange(NONCE_LEN as int, packet.len() as int),
        )
    }
}

/// The token of a serialized reference: its packet in URL-safe base64.
pub open spec fn token_of(key: Seq<u8>, nonce: Seq<u8>, serialized: Seq<u8>) -> Seq<char> {
    url_base64_text(packet_of(key, nonce, serialized))
}

/// What a token holds: the serialized reference, or nothing where the text
/// is no base64, is too short, or does not authenticate.
pub open spec fn token_content(key: Seq<u8>, token: Seq<char>) -> Option<Seq<u8>> {
    match url_base64_bytes(token) {
        Some(packet) => opened(key, packet),
        None => None,
    }
}

/// A plaintext of this length can be sealed into a packet in memory.
pub open spec fn fits_packet(len: nat) -> bool {
    len + NONCE_LEN + TAG_LEN <= isize::MAX
}

/// A serialized reference of this length can be sealed and written as text.
pub open spec fn fits_token(len: nat) -> bool {
    (len + NONCE_LEN + TAG_LEN) / 3 * 4 + 3 <= isize::MAX
}

/// A packet made of a nonce and a message that opens under it opens as a whole.
pub proof fn lemma_packet_opens(key: Seq<u8>, nonce: Seq<u8>, sealed: Seq<u8>, plaintext: Seq<u8>)
    requires
        nonce.len() == NONCE_LEN,
        aead_open(key, nonce, sealed) == Some(plaintext),
    ensures
        opened(key, nonce + sealed) == Some(plaintext),
{
    let packet = nonce + sealed;
    assert(packet.subrange(0, NONCE_LEN as int) =~= nonce);
    assert(packet.subrange(NONCE_LEN as int, packet.len() as int) =~= sealed);
}

/// A token whose packet decodes from its text and opens under its nonce
/// reads back as what was sealed.
pub proof fn lemma_token_reads_back(
    key: Seq<u8>,
    nonce: Seq<u8>,
    serialized: Seq<u8>,
)
    requires
        nonce.len() == NONCE_LEN,
        aead_open(key, nonce, aead_seal(key, nonce, serialized)) == Some(serialized),
        url_base64_bytes(token_of(key, nonce, serialized)) == Some(
            packet_of(key, nonce, serialized),
        ),
    ensures
        token_content(key, token_of(key, nonce, serialized)) == Some(serialized),
{
    lemma_packet_opens(key, nonce, aead_seal(key, nonce, serialized), serialized);
}

/// Calls `Aes256Gcm::new` and `Aead::encrypt` of aes-gcm. The call fails
/// exactly where the plaintext is longer than the cipher allows; otherwise
/// it gives the plaintext sealed under the key and nonce, sixteen bytes
/// longer, which the same key and nonce open again.
#[verifier::external_body]
fn aes_gcm_encrypt(key: &[u8; 32], nonce: &[u8; 12], plaintext: &[u8]) -> (r: Result<
    Vec<u8>,
    aes_gcm::Error,
>)
    requires
        plaintext@.len() + TAG_LEN <= isize::MAX,
    ensures
        r is Ok <==> plaintext@.len() <= MAX_PLAINTEXT,
        r is Ok ==> r->Ok_0@ == aead_seal(key@, nonce@, plaintext@),
        r is Ok ==> r->Ok_0@.len() == plaintext@.len() + TAG_LEN,
        r is Ok ==> aead_open(key@, nonce@, r->Ok_0@) == Some(plaintext@),
{
    Aes256Gcm::new(key.into()).encrypt(Nonce::from_slice(nonce), plaintext)
}

/// Calls `Aes256Gcm::new` and `Aead::decrypt` of aes-gcm. The call gives
/// the plaintext where the message authenticates under the key and nonce,
/// sixteen bytes shorter than the message, and fails otherwise.
#[verifier::external_body]
fn aes_gcm_decrypt(key: &[u8; 32], nonce: &[u8], sealed: &[u8]) -> (r: Result<
    Vec<u8>,
    aes_gcm::Error,
>)
    requires
        nonce@.len() == NONCE_LEN,
    ensures
        r is Ok <==> aead_open(key@, nonce@, sealed@) is Some,
        r is Ok ==> Some(r->Ok_0@) == aead_open(key@, nonce@, sealed@),
        r is Ok ==> r->Ok_0@.len() + TAG_LEN == sealed@.len(),
{
    Aes256Gcm::new(key.into()).decrypt(Nonce::from_slice(nonce), sealed)
}

/// Calls `to_string` on the error of aes-gcm, which always prints the same
/// fixed text.
#[verifier::external_body]
fn aead_error_text(e: &aes_gcm::Error) -> (text: String)
    ensures
        text@ == "aead::Error"@,
{
    e.to_string()
}

/// Calls `fill_bytes` on `OsRng`. The bytes are random, so nothing is
/// claimed of them; where the system has no randomness to give, the
/// process stops.
#[verifier::external_body]
fn os_random_bytes<const N: usize>() -> (bytes: [u8; N]) {
    let mut bytes = [0u8; N];
    OsRng.fill_bytes(&mut bytes);
    bytes
}

/// Calls `Engine::encode` on base64's `URL_SAFE_NO_PAD`. The text is the
/// encoding of the bytes, and decodes to them again.
#[verifier::external_body]
fn url_base64_encode(data: &[u8]) -> (text: String)
    requires
        data@.len() / 3 * 4 + 3 <= isize::MAX,
    ensures
        text@ == url_base64_text(data@),
        url_base64_bytes(text@) == Some(data@),
{
    URL_SAFE_NO_PAD.encode(data)
}

/// Calls `Engine::decode` on base64's `URL_SAFE_NO_PAD`. The call gives the
/// bytes that the text stands for, and fails where it stands for none.
#[verifier::external_body]
fn url_base64_decode(text: &str) -> (r: Result<Vec<u8>, base64::DecodeError>)
    ensures
        r is Ok <==> url_base64_bytes(text@) is Some,
        r is Ok ==> Some(r->Ok_0@) == url_base64_bytes(text@),
{
    URL_SAFE_NO_PAD.decode(text)
}

/// Calls `Sha256::digest` of sha2, which gives the SHA-256 digest.
#[verifier::external_body]
fn sha256_digest(data: &[u8]) -> (digest: [u8; 32])
    ensures
        digest@ == sha256(data@),
{
    Sha256::digest(data).into()
}

/// Seals and opens with one 256-bit key.
pub struct CryptoService {
    key: [u8; 32],
}

impl CryptoService {
    /// The key that this service seals and opens with.
    pub closed spec fn key(&self) -> Seq<u8> {
        self.key@
    }

    pub fn new(key: &[u8; 32]) -> (s: Self)
        ensures
            s.key() == key@,
    {
        CryptoService { key: *key }
    }

    /// Seals `data` under the given nonce and puts the nonce in front.
    pub fn seal_with_nonce(&self, nonce: &[u8; 12], data: &[u8]) -> (r: Result<Vec<u8>, AppError>)
        requires
            fits_packet(data@.len()),
        ensures
            r is Ok <==> data@.len() <= MAX_PLAINTEXT,
            r is Ok ==> r->Ok_0@ == packet_of(self.key(), nonce@, data@),
            r is Ok ==> r->Ok_0@.len() == data@.len() + NONCE_LEN + TAG_LEN,
            r is Ok ==> opened(self.key(), r->Ok_0@) == Some(data@),
            r is Err ==> r->Err_0@ == ErrorModel::EncryptionError("aead::Error"@),
    {
        match aes_gcm_encrypt(&self.key, nonce, data) {
            Ok(sealed) => {
                let mut packet = slice_to_vec(nonce.as_slice());
                packet.extend_from_slice(sealed.as_slice());
                proof {
                    assert(packet@ =~= nonce@ + sealed@);
                    lemma_packet_opens(self.key(), nonce@, sealed@, data@);
                }
                Ok(packet)
            },
            Err(e) => Err(AppError::EncryptionError(aead_error_text(&e))),
        }
    }

    /// Seals `data` under a fresh random nonce. The packet is the nonce
    /// followed by the sealed data, and opens to `data` again.
    pub fn encrypt_data(&self, data: &[u8]) -> (r: Result<Vec<u8>, AppError>)
        requires
            fits_packet(data@.len()),
        ensures
            r is Ok <==> data@.len() <= MAX_PLAINTEXT,
            r is Ok ==> r->Ok_0@.len() == data@.len() + NONCE_LEN + TAG_LEN,
            r is Ok ==> r->Ok_0@ == packet_of(
                self.key(),
                r->Ok_0@.subrange(0, NONCE_LEN as int),
                data@,
            ),
            r is Ok ==> opened(self.key(), r->Ok_0@) == Some(data@),
            r is Err ==> r->Err_0@ == ErrorModel::EncryptionError("aead::Error"@),
    {
        let nonce: [u8; 12] = os_random_bytes();
        let r = self.seal_with_nonce(&nonce, data);
        proof {
            if r is Ok {
                assert(r->Ok_0@.subrange(0, NONCE_LEN as int) =~= nonce@);
            }
        }
        r
    }

    /// Opens a packet. Fails where the packet is shorter than a nonce or
    /// does not authenticate under this key.
    pub fn decrypt_data(&self, encrypted_data: &[u8]) -> (r: Result<Vec<u8>, AppError>)
        ensures
            r is Ok <==> opened(self.key(), encrypted_data@) is Some,
            r is Ok ==> Some(r->Ok_0@) == opened(self.key(), encrypted_data@),
            r is Ok ==> r->Ok_0@.len() + NONCE_LEN + TAG_LEN == encrypted_data@.len(),
            r is Err ==> r->Err_0@ == (if encrypted_data@.len() < NONCE_LEN {
                ErrorModel::EncryptionError("Invalid encrypted data"@)
            } else {
                ErrorModel::EncryptionError("aead::Error"@)
            }),
    {
        if encrypted_data.len() < NONCE_LEN {
            return Err(AppError::EncryptionError("Invalid encrypted data".to_string()));
        }
        let (nonce, sealed) = encrypted_data.split_at(NONCE_LEN);
        match aes_gcm_decrypt(&self.key, nonce, sealed) {
            Ok(plaintext) => Ok(plaintext),
            Err(e) => Err(AppError::EncryptionError(aead_error_text(&e))),
        }
    }

    /// Makes the token of a reference from its serialized form: sealed under
    /// the reference's own nonce, so that the same reference always gives
    /// the same token, and written as unpadded URL-safe base64.
    pub fn encrypt_file_reference(&self, file_ref: &FileReference, serialized: &[u8]) -> (r: Result<
        String,
        AppError,
    >)
        requires
            fits_token(serialized@.len()),
        ensures
            r is Ok <==> serialized@.len() <= MAX_PLAINTEXT,
            r is Ok ==> r->Ok_0@ == token_of(self.key(), file_ref.nonce@, serialized@),
            r is Ok ==> token_content(self.key(), r->Ok_0@) == Some(serialized@),
            r is Err ==> r->Err_0@ == ErrorModel::EncryptionError("aead::Error"@),
    {
        match self.seal_with_nonce(&file_ref.nonce, serialized) {
            Ok(packet) => Ok(url_base64_encode(packet.as_slice())),
            Err(e) => Err(e),
        }
    }

    /// Reads a token back into the serialized reference it carries. Every
    /// failure gives the same error, whatever its cause.
    pub fn decrypt_file_reference(&self, encrypted_id: &str) -> (r: Result<Vec<u8>, AppError>)
        ensures
            r is Ok <==> token_content(self.key(), encrypted_id@) is Some,
            r is Ok ==> Some(r->Ok_0@) == token_content(self.key(), encrypted_id@),
            r is Err ==> r->Err_0@ == ErrorModel::InvalidImageId,
    {
        let combined = match url_base64_decode(encrypted_id) {
            Ok(bytes) => bytes,
            Err(_) => {
                return Err(AppError::InvalidImageId);
            },
        };
        if combined.len() < NONCE_LEN {
            return Err(AppError::InvalidImageId);
        }
        let (nonce, sealed) = combined.as_slice().split_at(NONCE_LEN);
        match aes_gcm_decrypt(&self.key, nonce, sealed) {
            Ok(plaintext) => Ok(plaintext),
            Err(_) => Err(AppError::InvalidImageId),
        }
    }

    /// Settles what a token's content reads as: the reference it was
    /// deserialized to, or the same error as for any other bad token where
    /// it could not be deserialized.
    pub fn reference_or_invalid(parsed: Option<FileReference>) -> (r: Result<
        FileReference,
        AppError,
    >)
        ensures
            r is Ok <==> parsed is Some,
            r is Ok ==> r->Ok_0 == parsed->Some_0,
            r is Err ==> r->Err_0@ == ErrorModel::InvalidImageId,
    {
        match parsed {
            Some(file_ref) => Ok(file_ref),
            None => Err(AppError::InvalidImageId),
        }
    }

    /// A fresh random key.
    pub fn generate_key() -> (key: [u8; 32]) {
        os_random_bytes()
    }

    /// The SHA-256 digest of `data`.
    pub fn hash_data(data: &[u8]) -> (digest: [u8; 32])
        ensures
            digest@ == sha256(data@),
    {
        sha256_digest(data)
    }
}

} // verus!
