//! The job status endpoint.

use vstd::prelude::*;
use vstd::string::*;
use crate::models::{FileReference, JobStatus, QueuedResponse, UploadResponse};
use crate::worker::JobStore;

verus! {

/// The status that answers a finished job.
pub const STATUS_OK: u16 = 200;

/// The status that answers a job still pending, and an accepted upload.
pub const STATUS_ACCEPTED: u16 = 202;

/// The reference of a job, if the worker has finished it. A job without an
/// entry reads as pending, whether it waits, failed or never existed.
pub fn get_job_status<'a>(store: &'a JobStore, job_id: &str) -> (r: Option<&'a FileReference>)
    ensures
        r is Some <==> store@.contains_key(job_id@),
        r is Some ==> *r->Some_0 == store@[job_id@],
{
    store.get(job_id)
}

/// The answer for a finished job, once its token is made.
pub fn completed(file_ref: &FileReference, token: String) -> (r: (u16, JobStatus))
    ensures
        r.0 == STATUS_OK,
        r.1 is Completed,
        r.1->response.id@ == token@,
        r.1->response.url@ == "/image/"@ + token@,
        r.1->response.size == file_ref.size,
        r.1->response.mime_type@ == file_ref.mime_type@,
{
    let url = String::from_str("/image/").concat(token.as_str());
    let response = UploadResponse {
        id: token,
        url,
        size: file_ref.size,
        mime_type: file_ref.mime_type.clone(),
    };
    (STATUS_OK, JobStatus::Completed { response })
}

/// The answer for a job that has no entry.
pub fn pending() -> (r: (u16, JobStatus))
    ensures
        r.0 == STATUS_ACCEPTED,
        r.1 is Pending,
{
    (STATUS_ACCEPTED, JobStatus::Pending)
}

/// The answer to an upload that was queued.
pub fn queued(job_id: &str) -> (r: (u16, QueuedResponse))
    ensures
        r.0 == STATUS_ACCEPTED,
        r.1.job_id@ == job_id@,
        r.1.status_url@ == "/job/"@ + job_id@,
{
    (
        STATUS_ACCEPTED,
        QueuedResponse {
            job_id: String::from_str(job_id),
            status_url: String::from_str("/job/").concat(job_id),
        },
    )
}

} // verus!
