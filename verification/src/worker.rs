//! The upload worker's bookkeeping: the jobs it takes, the table of
//! finished uploads, and what one finished backend call does to that table.

use vstd::prelude::*;
use vstd::string::*;
use vstd::hash_map::StringHashMap;
use crate::error::{AppError, ErrorModel};
use crate::models::{FileReference, TelegramMessage};
use crate::text::{decimal_string, decimal_text};

verus! {

/// One accepted upload on its way to the backend.
#[derive(Debug)]
pub struct UploadJob {
    pub job_id: String,
    pub encrypted_data: Vec<u8>,
    pub unique_filename: String,
    pub original_size: usize,
    pub mime_type: String,
    pub client_ip: String,
}

/// The finished uploads, by job identifier. A job that is not in the table
/// is pending, or failed, or never existed: the table cannot tell.
pub struct JobStore {
    jobs: StringHashMap<FileReference>,
}

impl View for JobStore {
    type V = Map<Seq<char>, FileReference>;

    closed spec fn view(&self) -> Map<Seq<char>, FileReference> {
        self.jobs@
    }
}

impl JobStore {
    pub fn new() -> (store: Self)
        ensures
            store@ == Map::<Seq<char>, FileReference>::empty(),
    {
        JobStore { jobs: StringHashMap::new() }
    }

    /// Records the reference of a finished job, in place of any earlier one.
    pub fn insert(&mut self, job_id: String, file_ref: FileReference)
        ensures
            final(self)@ == old(self)@.insert(job_id@, file_ref),
    {
        self.jobs.insert(job_id, file_ref);
    }

    /// The reference of a finished job.
    pub fn get(&self, job_id: &str) -> (r: Option<&FileReference>)
        ensures
            r is Some <==> self@.contains_key(job_id@),
            r is Some ==> *r->Some_0 == self@[job_id@],
    {
        self.jobs.get(job_id)
    }
}

/// What a finished upload call means for a job: no entry where the call
/// failed or the backend's message carries no document.
pub open spec fn job_fault(upload: Result<TelegramMessage, AppError>) -> Option<ErrorModel> {
    match upload {
        Err(e) => Some(e@),
        Ok(message) => if message.document is None {
            Some(ErrorModel::TelegramError("No document in response"@))
        } else {
            None
        },
    }
}

/// Takes the outcome of a job's upload call. On success the job's
/// reference, with the backend's handle and message number and the job's own
/// size and type, is entered under the job's identifier. On failure the
/// table is left as it was.
pub fn process_job(job: &UploadJob, upload: Result<TelegramMessage, AppError>, store: &mut JobStore)
    -> (r: Result<(), AppError>)
    ensures
        r is Err <==> job_fault(upload) is Some,
        r is Err ==> r->Err_0@ == job_fault(upload)->Some_0 && final(store)@ == old(store)@,
        r is Ok ==> {
            let entry = final(store)@[job.job_id@];
            &&& final(store)@ == old(store)@.insert(job.job_id@, entry)
            &&& entry.file_id@ == upload->Ok_0.document->Some_0.file_id@
            &&& entry.message_id == upload->Ok_0.message_id
            &&& entry.size == job.original_size
            &&& entry.mime_type@ == job.mime_type@
        },
{
    let message = match upload {
        Ok(message) => message,
        Err(e) => {
            return Err(e);
        },
    };
    let file_id = match &message.document {
        Some(document) => document.file_id.clone(),
        None => {
            return Err(AppError::TelegramError(String::from_str("No document in response")));
        },
    };
    let file_ref = FileReference::new(
        file_id,
        message.message_id,
        job.original_size,
        job.mime_type.clone(),
    );
    store.insert(job.job_id.clone(), file_ref);
    assert(final(store)@.contains_key(job.job_id@));
    Ok(())
}

/// The line that reports a job's outcome in the log chat.
pub open spec fn report_text(job: UploadJob, fault: Option<Seq<char>>) -> Seq<char> {
    match fault {
        None => "✅ Upload Success | Job ID: "@ + job.job_id@ + " | Size: "@ + decimal_text(
            job.original_size as nat,
        ) + " | Type: "@ + job.mime_type@ + " | IP: "@ + job.client_ip@,
        Some(text) => "❌ Upload Failed | Job ID: "@ + job.job_id@ + " | Error: "@ + text
            + " | IP: "@ + job.client_ip@,
    }
}

/// Writes the report of a job's outcome.
pub fn job_report(job: &UploadJob, outcome: &Result<(), AppError>) -> (text: String)
    ensures
        text@ == report_text(
            *job,
            match *outcome {
                Ok(_) => None,
                Err(e) => Some(crate::error::log_text_of(e@)),
            },
        ),
{
    match outcome {
        Ok(_) => {
            let mut text = String::from_str("✅ Upload Success | Job ID: ");
            text.append(job.job_id.as_str());
            text.append(" | Size: ");
            text.append(decimal_string(job.original_size).as_str());
            text.append(" | Type: ");
            text.append(job.mime_type.as_str());
            text.append(" | IP: ");
            text.append(job.client_ip.as_str());
            text
        },
        Err(e) => {
            let mut text = String::from_str("❌ Upload Failed | Job ID: ");
            text.append(job.job_id.as_str());
            text.append(" | Error: ");
            text.append(e.message().as_str());
            text.append(" | IP: ");
            text.append(job.client_ip.as_str());
            text
        },
    }
}

/// Where the worker stands in its handling of one job.
#[derive(Debug, Clone, Copy, PartialEq, Eq, Structural)]
pub enum WorkerPhase {
    Waiting,
    Uploading,
    Reporting,
    Resting,
    Stopped,
}

/// What the worker's surroundings tell it.
#[derive(Debug, Clone, Copy, PartialEq, Eq, Structural)]
pub enum WorkerEvent {
    JobReceived,
    QueueClosed,
    UploadDone,
    ReportDone,
    DelayDone,
}

/// What the worker asks its surroundings to do next.
#[derive(Debug, Clone, Copy, PartialEq, Eq, Structural)]
pub enum WorkerAction {
    ReceiveJob,
    UploadFile,
    SendReport,
    Sleep { secs: u64 },
    Stop,
}

/// What the worker is busy with in each phase.
pub open spec fn action_in(phase: WorkerPhase, delay_secs: u64) -> WorkerAction {
    match phase {
        WorkerPhase::Waiting => WorkerAction::ReceiveJob,
        WorkerPhase::Uploading => WorkerAction::UploadFile,
        WorkerPhase::Reporting => WorkerAction::SendReport,
        WorkerPhase::Resting => WorkerAction::Sleep { secs: delay_secs },
        WorkerPhase::Stopped => WorkerAction::Stop,
    }
}

/// The phase that follows: one job at a time, from the queue to the upload,
/// its report and the rest after it. An event that does not belong to the
/// phase changes nothing.
pub open spec fn next_phase(phase: WorkerPhase, event: WorkerEvent) -> WorkerPhase {
    match (phase, event) {
        (WorkerPhase::Waiting, WorkerEvent::JobReceived) => WorkerPhase::Uploading,
        (WorkerPhase::Waiting, WorkerEvent::QueueClosed) => WorkerPhase::Stopped,
        (WorkerPhase::Uploading, WorkerEvent::UploadDone) => WorkerPhase::Reporting,
        (WorkerPhase::Reporting, WorkerEvent::ReportDone) => WorkerPhase::Resting,
        (WorkerPhase::Resting, WorkerEvent::DelayDone) => WorkerPhase::Waiting,
        _ => phase,
    }
}

/// One step of the worker: the phase it moves to and what is to be done there.
pub fn run_upload_worker(phase: WorkerPhase, event: WorkerEvent, delay_secs: u64) -> (r: (
    WorkerPhase,
    WorkerAction,
))
    ensures
        r.0 == next_phase(phase, event),
        r.1 == action_in(next_phase(phase, event), delay_secs),
{
    let next = match phase {
        WorkerPhase::Waiting => match event {
            WorkerEvent::JobReceived => WorkerPhase::Uploading,
            WorkerEvent::QueueClosed => WorkerPhase::Stopped,
            _ => phase,
        },
        WorkerPhase::Uploading => match event {
            WorkerEvent::UploadDone => WorkerPhase::Reporting,
            _ => phase,
        },
        WorkerPhase::Reporting => match event {
            WorkerEvent::ReportDone => WorkerPhase::Resting,
            _ => phase,
        },
        WorkerPhase::Resting => match event {
            WorkerEvent::DelayDone => WorkerPhase::Waiting,
            _ => phase,
        },
        WorkerPhase::Stopped => phase,
    };
    let action = match next {
        WorkerPhase::Waiting => WorkerAction::ReceiveJob,
        WorkerPhase::Uploading => WorkerAction::UploadFile,
        WorkerPhase::Reporting => WorkerAction::SendReport,
        WorkerPhase::Resting => WorkerAction::Sleep { secs: delay_secs },
        WorkerPhase::Stopped => WorkerAction::Stop,
    };
    (next, action)
}

/// The worker takes a job only when it is waiting, and it comes to wait
/// again only out of its rest: so no two uploads overlap, and a rest of the
/// configured length lies between one job and the next whether the upload
/// succeeded or not.
pub proof fn lemma_one_job_then_rest(phase: WorkerPhase, event: WorkerEvent, delay_secs: u64)
    ensures
        next_phase(phase, event) == WorkerPhase::Uploading && phase != WorkerPhase::Uploading
            ==> phase == WorkerPhase::Waiting && event == WorkerEvent::JobReceived,
        next_phase(phase, event) == WorkerPhase::Waiting && phase != WorkerPhase::Waiting
            ==> phase == WorkerPhase::Resting && event == WorkerEvent::DelayDone,
        next_phase(phase, event) == WorkerPhase::Resting ==> action_in(
            next_phase(phase, event),
            delay_secs,
        ) == (WorkerAction::Sleep { secs: delay_secs }),
        phase == WorkerPhase::Stopped ==> next_phase(phase, event) == WorkerPhase::Stopped,
{
}

} // verus!
