//! The endpoints that serve a stored image and its description.

use vstd::prelude::*;
use vstd::string::*;
use vstd::slice::slice_subrange;
use crate::crypto::{opened, sha256, CryptoService};
use crate::error::{AppError, ErrorModel};
use crate::models::FileReference;
use crate::text::{decimal_string, decimal_text};

verus! {

/// The lower-case hexadecimal digit for a value below sixteen.
pub open spec fn hex_digit(n: int) -> char {
    seq!['0', '1', '2', '3', '4', '5', '6', '7', '8', '9', 'a', 'b', 'c', 'd', 'e', 'f'][n]
}

/// Bytes in lower-case hexadecimal, two digits each, high digit first.
pub open spec fn hex_text(bytes: Seq<u8>) -> Seq<char> {
    Seq::new(
        2 * bytes.len(),
        |i: int|
            hex_digit(
                if i % 2 == 0 {
                    bytes[i / 2] as int / 16
                } else {
                    bytes[i / 2] as int % 16
                },
            ),
    )
}

/// Calls `hex::encode`, which writes each byte as two lower-case
/// hexadecimal digits, the high one first.
#[verifier::external_body]
fn hex_encode(bytes: &[u8]) -> (text: String)
    ensures
        text@ == hex_text(bytes@),
{
    hex::encode(bytes)
}

/// Whether a byte may stand in the value of a response header.
pub open spec fn is_header_byte(b: u8) -> bool {
    (b >= 32 && b != 127) || b == 9
}

/// Whether a text can be sent as the value of a response header.
pub open spec fn is_header_text(text: Seq<char>) -> bool {
    forall|i: int|
        0 <= i < vstd::utf8::encode_utf8(text).len() ==> is_header_byte(
            #[trigger] vstd::utf8::encode_utf8(text)[i],
        )
}

/// How long a served image may be cached.
pub open spec fn cache_policy() -> Seq<char> {
    "public, max-age=3600"@
}

/// The entity tag of a body: the first eight bytes of its SHA-256 digest in
/// hexadecimal, between double quotes.
pub open spec fn etag_of(body: Seq<u8>) -> Seq<char> {
    "\""@ + hex_text(sha256(body).subrange(0, 8)) + "\""@
}

/// A served image: its bytes and the headers that go with them.
#[derive(Debug)]
pub struct ImageReply {
    pub body: Vec<u8>,
    pub content_type: String,
    pub content_length: String,
    pub cache_control: String,
    pub etag: String,
}

/// What `/info` tells of a reference.
#[derive(Debug)]
pub struct ImageInfo {
    pub size: usize,
    pub mime_type: String,
    pub id: String,
}

/// Why a fetched packet cannot be served for a reference, if it cannot.
pub open spec fn serve_fault(key: Seq<u8>, file_ref: FileReference, packet: Seq<u8>) -> Option<
    ErrorModel,
> {
    if packet.len() < crate::crypto::NONCE_LEN {
        Some(ErrorModel::EncryptionError("Invalid encrypted data"@))
    } else if opened(key, packet) is None {
        Some(ErrorModel::EncryptionError("aead::Error"@))
    } else if opened(key, packet)->Some_0.len() != file_ref.size {
        Some(ErrorModel::InternalError("Decrypted file size mismatch"@))
    } else if !is_header_text(file_ref.mime_type@) {
        Some(ErrorModel::InternalError("Invalid MIME type"@))
    } else {
        None
    }
}

fn header_text(text: &str) -> (ok: bool)
    ensures
        ok == is_header_text(text@),
{
    let bytes = text.as_bytes();
    let mut i: usize = 0;
    while i < bytes.len()
        invariant
            i <= bytes@.len(),
            bytes@ == text.spec_bytes(),
            forall|j: int| 0 <= j < i ==> is_header_byte(#[trigger] bytes@[j]),
        decreases bytes@.len() - i,
    {
        let b = bytes[i];
        if !((b >= 32 && b != 127) || b == 9) {
            return false;
        }
        i += 1;
    }
    true
}

/// Turns the packet fetched for a reference into the image to serve: the
/// decrypted bytes, which must be as long as the reference says, with their
/// type, length, cache policy and entity tag.
pub fn get_image(crypto: &CryptoService, file_ref: &FileReference, encrypted_data: &[u8]) -> (r:
    Result<ImageReply, AppError>)
    ensures
        r is Err <==> serve_fault(crypto.key(), *file_ref, encrypted_data@) is Some,
        r is Err ==> r->Err_0@ == serve_fault(crypto.key(), *file_ref, encrypted_data@)->Some_0,
        r is Ok ==> {
            let reply = r->Ok_0;
            &&& Some(reply.body@) == opened(crypto.key(), encrypted_data@)
            &&& reply.body@.len() == file_ref.size
            &&& reply.content_type@ == file_ref.mime_type@
            &&& reply.content_length@ == decimal_text(file_ref.size as nat)
            &&& reply.cache_control@ == cache_policy()
            &&& reply.etag@ == etag_of(reply.body@)
        },
{
    let body = match crypto.decrypt_data(encrypted_data) {
        Ok(body) => body,
        Err(e) => {
            return Err(e);
        },
    };
    if body.len() != file_ref.size {
        return Err(AppError::InternalError(String::from_str("Decrypted file size mismatch")));
    }
    if !header_text(file_ref.mime_type.as_str()) {
        return Err(AppError::InternalError(String::from_str("Invalid MIME type")));
    }
    let digest = CryptoService::hash_data(body.as_slice());
    let mut etag = String::from_str("\"");
    etag.append(hex_encode(slice_subrange(digest.as_slice(), 0, 8)).as_str());
    etag.append("\"");
    Ok(
        ImageReply {
            content_type: file_ref.mime_type.clone(),
            content_length: decimal_string(body.len()),
            cache_control: String::from_str("public, max-age=3600"),
            etag,
            body,
        },
    )
}

/// Describes a reference without fetching what it points to.
pub fn get_image_info(file_ref: &FileReference, encrypted_id: &str) -> (info: ImageInfo)
    ensures
        info.size == file_ref.size,
        info.mime_type@ == file_ref.mime_type@,
        info.id@ == encrypted_id@,
{
    ImageInfo {
        size: file_ref.size,
        mime_type: file_ref.mime_type.clone(),
        id: String::from_str(encrypted_id),
    }
}

} // verus!
