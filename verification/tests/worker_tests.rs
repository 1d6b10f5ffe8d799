use image_relay::error::AppError;
use image_relay::models::{TelegramDocument, TelegramMessage};
use image_relay::worker::{
    job_report, process_job, run_upload_worker, JobStore, UploadJob, WorkerAction, WorkerEvent,
    WorkerPhase,
};

fn job(id: &str) -> UploadJob {
    UploadJob {
        job_id: id.to_string(),
        encrypted_data: vec![1, 2, 3],
        unique_filename: "prefix_cat.png".to_string(),
        original_size: 1200,
        mime_type: "image/png".to_string(),
        client_ip: "203.0.113.9:4711".to_string(),
    }
}

fn stored(file_id: &str, message_id: i64) -> TelegramMessage {
    TelegramMessage {
        message_id,
        document: Some(TelegramDocument {
            file_id: file_id.to_string(),
            file_unique_id: "u".to_string(),
            file_name: None,
            mime_type: None,
            file_size: None,
        }),
        photo: None,
    }
}

#[test]
fn finished_upload_enters_the_table() {
    let mut store = JobStore::new();
    assert!(store.get("job-1").is_none());
    process_job(&job("job-1"), Ok(stored("FILE", 99)), &mut store).unwrap();
    let entry = store.get("job-1").unwrap();
    assert_eq!(entry.file_id, "FILE");
    assert_eq!(entry.message_id, 99);
    assert_eq!(entry.size, 1200);
    assert_eq!(entry.mime_type, "image/png");
    assert!(store.get("job-2").is_none());
}

#[test]
fn failed_upload_leaves_no_entry() {
    let mut store = JobStore::new();
    let r = process_job(
        &job("job-1"),
        Err(AppError::TelegramError("Upload failed: 502".to_string())),
        &mut store,
    );
    match r {
        Err(AppError::TelegramError(m)) => assert_eq!(m, "Upload failed: 502"),
        other => panic!("unexpected: {:?}", other),
    }
    assert!(store.get("job-1").is_none());
}

#[test]
fn message_without_document_leaves_no_entry() {
    let mut store = JobStore::new();
    let message = TelegramMessage { message_id: 5, document: None, photo: None };
    match process_job(&job("job-1"), Ok(message), &mut store) {
        Err(AppError::TelegramError(m)) => assert_eq!(m, "No document in response"),
        other => panic!("unexpected: {:?}", other),
    }
    assert!(store.get("job-1").is_none());
}

#[test]
fn later_entry_replaces_earlier_one() {
    let mut store = JobStore::new();
    process_job(&job("job-1"), Ok(stored("A", 1)), &mut store).unwrap();
    process_job(&job("job-2"), Ok(stored("B", 2)), &mut store).unwrap();
    process_job(&job("job-1"), Ok(stored("C", 3)), &mut store).unwrap();
    assert_eq!(store.get("job-1").unwrap().file_id, "C");
    assert_eq!(store.get("job-2").unwrap().file_id, "B");
}

#[test]
fn reports_read_as_expected() {
    assert_eq!(
        job_report(&job("job-1"), &Ok(())),
        "✅ Upload Success | Job ID: job-1 | Size: 1200 | Type: image/png | IP: 203.0.113.9:4711"
    );
    assert_eq!(
        job_report(&job("job-1"), &Err(AppError::TelegramError("down".to_string()))),
        "❌ Upload Failed | Job ID: job-1 | Error: Telegram API error: down | IP: 203.0.113.9:4711"
    );
}

#[test]
fn worker_handles_one_job_at_a_time_and_rests() {
    let (p, a) = run_upload_worker(WorkerPhase::Waiting, WorkerEvent::JobReceived, 2);
    assert_eq!((p, a), (WorkerPhase::Uploading, WorkerAction::UploadFile));
    let (p, a) = run_upload_worker(p, WorkerEvent::JobReceived, 2);
    assert_eq!((p, a), (WorkerPhase::Uploading, WorkerAction::UploadFile));
    let (p, a) = run_upload_worker(p, WorkerEvent::UploadDone, 2);
    assert_eq!((p, a), (WorkerPhase::Reporting, WorkerAction::SendReport));
    let (p, a) = run_upload_worker(p, WorkerEvent::ReportDone, 2);
    assert_eq!((p, a), (WorkerPhase::Resting, WorkerAction::Sleep { secs: 2 }));
    let (p, a) = run_upload_worker(p, WorkerEvent::JobReceived, 2);
    assert_eq!((p, a), (WorkerPhase::Resting, WorkerAction::Sleep { secs: 2 }));
    let (p, a) = run_upload_worker(p, WorkerEvent::DelayDone, 2);
    assert_eq!((p, a), (WorkerPhase::Waiting, WorkerAction::ReceiveJob));
    let (p, a) = run_upload_worker(p, WorkerEvent::QueueClosed, 2);
    assert_eq!((p, a), (WorkerPhase::Stopped, WorkerAction::Stop));
    let (p, a) = run_upload_worker(p, WorkerEvent::JobReceived, 2);
    assert_eq!((p, a), (WorkerPhase::Stopped, WorkerAction::Stop));
}
