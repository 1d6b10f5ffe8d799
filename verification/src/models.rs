//! The values that travel between the pipeline's stages.

use vstd::prelude::*;
use rand::RngCore;

verus! {

/// All that is needed to fetch a stored file again: where the backend keeps
/// it, how long the decrypted payload is and what kind of data it is. The
/// nonce is drawn once, when the reference is made, and seals every token
/// made from it.
#[derive(Debug, Clone)]
pub struct FileReference {
    pub file_id: String,
    pub message_id: i64,
    pub nonce: [u8; 12],
    pub size: usize,
    pub mime_type: String,
}

/// What a client learns once its upload is stored.
#[derive(Debug)]
pub struct UploadResponse {
    pub id: String,
    pub url: String,
    pub size: usize,
    pub mime_type: String,
}

/// The immediate answer to an accepted upload.
#[derive(Debug)]
pub struct QueuedResponse {
    pub job_id: String,
    pub status_url: String,
}

/// The state of an upload job as a client sees it. A failed upload leaves no
/// entry in the job table, so polling never reports `Failed`.
#[derive(Debug)]
pub enum JobStatus {
    Pending,
    Completed { response: UploadResponse },
    Failed { error: String },
}

#[derive(Debug)]
pub struct HealthResponse {
    pub status: String,
    pub timestamp: u64,
    pub version: String,
}

/// The envelope in which the backend answers every call.
#[derive(Debug)]
pub struct TelegramResponse<T> {
    pub ok: bool,
    pub result: Option<T>,
    pub description: Option<String>,
}

#[derive(Debug)]
pub struct TelegramFile {
    pub file_id: String,
    pub file_unique_id: String,
    pub file_size: Option<i64>,
    pub file_path: Option<String>,
}

#[derive(Debug)]
pub struct TelegramMessage {
    pub message_id: i64,
    pub document: Option<TelegramDocument>,
    pub photo: Option<Vec<TelegramPhotoSize>>,
}

#[derive(Debug)]
pub struct TelegramDocument {
    pub file_id: String,
    pub file_unique_id: String,
    pub file_name: Option<String>,
    pub mime_type: Option<String>,
    pub file_size: Option<i64>,
}

#[derive(Debug)]
pub struct TelegramPhotoSize {
    pub file_id: String,
    pub file_unique_id: String,
    pub width: i32,
    pub height: i32,
    pub file_size: Option<i64>,
}

/// Calls `fill_bytes` on `rand::thread_rng()` for twelve bytes. The bytes
/// are random, so nothing is claimed of them; where the generator cannot be
/// seeded, the process stops.
#[verifier::external_body]
fn thread_random_nonce() -> (nonce: [u8; 12]) {
    let mut nonce = [0u8; 12];
    rand::thread_rng().fill_bytes(&mut nonce);
    nonce
}

impl FileReference {
    /// A reference with the given contents and a nonce of its own.
    pub fn new(file_id: String, message_id: i64, size: usize, mime_type: String) -> (r: Self)
        ensures
            r.file_id == file_id,
            r.message_id == message_id,
            r.size == size,
            r.mime_type == mime_type,
    {
        let nonce = thread_random_nonce();
        FileReference { file_id, message_id, nonce, size, mime_type }
    }

    /// The same reference with a nonce chosen by the caller.
    pub fn with_nonce(
        file_id: String,
        message_id: i64,
        nonce: [u8; 12],
        size: usize,
        mime_type: String,
    ) -> (r: Self)
        ensures
            r.file_id == file_id,
            r.message_id == message_id,
            r.nonce == nonce,
            r.size == size,
            r.mime_type == mime_type,
    {
        FileReference { file_id, message_id, nonce, size, mime_type }
    }
}

} // verus!
