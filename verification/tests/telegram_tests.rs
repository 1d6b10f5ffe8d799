use image_relay::error::AppError;
use image_relay::models::{TelegramFile, TelegramMessage, TelegramResponse};
use image_relay::services::telegram::{
    http_failure, read_reply, read_verdict, HttpReply, TelegramService,
};

fn fault<T: std::fmt::Debug>(r: Result<T, AppError>) -> String {
    match r {
        Err(AppError::TelegramError(m)) => m,
        other => panic!("unexpected: {:?}", other),
    }
}

#[test]
fn test_telegram_service_creation() {
    let service = TelegramService::new("test_token".to_string(), 12345, None);
    assert_eq!(service.chat_id(), 12345);
    assert!(service.base_url().contains("test_token"));
}

#[test]
fn addresses_are_built_from_the_token() {
    let service = TelegramService::new("42:tok".to_string(), -7, Some(8));
    assert_eq!(service.base_url(), "https://api.telegram.org/bot42:tok");
    assert_eq!(service.method_url("sendDocument"), "https://api.telegram.org/bot42:tok/sendDocument");
    assert_eq!(service.method_url("getMe"), "https://api.telegram.org/bot42:tok/getMe");
    assert_eq!(
        service.download_url("documents/file_1.bin"),
        "https://api.telegram.org/file/bot42:tok/documents/file_1.bin"
    );
    assert_eq!(service.log_chat_id(), Some(8));
    assert_eq!(service.log_target(), Some(8));
    assert_eq!(TelegramService::new("t".to_string(), 1, None).log_target(), None);
}

#[test]
fn upload_reply_is_read() {
    let message = TelegramMessage { message_id: 11, document: None, photo: None };
    let ok = TelegramResponse { ok: true, result: Some(message), description: None };
    assert_eq!(TelegramService::upload_file(HttpReply::Answered(ok)).unwrap().message_id, 11);

    let refused: TelegramResponse<TelegramMessage> = TelegramResponse {
        ok: false,
        result: None,
        description: Some("Bad Request: chat not found".to_string()),
    };
    assert_eq!(
        fault(TelegramService::upload_file(HttpReply::Answered(refused))),
        "Bad Request: chat not found"
    );

    let silent: TelegramResponse<TelegramMessage> =
        TelegramResponse { ok: false, result: None, description: None };
    assert_eq!(fault(TelegramService::upload_file(HttpReply::Answered(silent))), "");

    let empty: TelegramResponse<TelegramMessage> =
        TelegramResponse { ok: true, result: None, description: Some("ignored".to_string()) };
    assert_eq!(
        fault(TelegramService::upload_file(HttpReply::Answered(empty))),
        "No result in response"
    );

    let failed: HttpReply<TelegramMessage> = HttpReply::Failed { body: "502 Bad Gateway".to_string() };
    assert_eq!(fault(TelegramService::upload_file(failed)), "Upload failed: 502 Bad Gateway");
}

#[test]
fn file_info_reply_is_read() {
    let file = TelegramFile {
        file_id: "F".to_string(),
        file_unique_id: "U".to_string(),
        file_size: Some(3),
        file_path: Some("documents/f.bin".to_string()),
    };
    let ok = TelegramResponse { ok: true, result: Some(file), description: None };
    let info = TelegramService::get_file_info(HttpReply::Answered(ok)).unwrap();
    assert_eq!(TelegramService::download_file_by_id(info).unwrap(), "documents/f.bin");

    let empty: TelegramResponse<TelegramFile> =
        TelegramResponse { ok: true, result: None, description: None };
    assert_eq!(
        fault(TelegramService::get_file_info(HttpReply::Answered(empty))),
        "No file info in response"
    );
    let failed: HttpReply<TelegramFile> = HttpReply::Failed { body: "secret detail".to_string() };
    assert_eq!(fault(TelegramService::get_file_info(failed)), "Failed to get file info");

    let pathless = TelegramFile {
        file_id: "F".to_string(),
        file_unique_id: "U".to_string(),
        file_size: None,
        file_path: None,
    };
    assert_eq!(fault(TelegramService::download_file_by_id(pathless)), "No file path in response");
}

#[test]
fn download_outcome_is_read() {
    assert_eq!(TelegramService::download_file(true, vec![1, 2, 3]).unwrap(), vec![1, 2, 3]);
    assert_eq!(fault(TelegramService::download_file(false, vec![1])), "Failed to download file");
}

#[test]
fn verdict_only_replies_are_read() {
    let ok: TelegramResponse<bool> = TelegramResponse { ok: true, result: None, description: None };
    assert!(TelegramService::delete_message(HttpReply::Answered(ok)).is_ok());
    let no: TelegramResponse<bool> = TelegramResponse {
        ok: false,
        result: Some(false),
        description: Some("message to delete not found".to_string()),
    };
    assert_eq!(
        fault(TelegramService::delete_message(HttpReply::Answered(no))),
        "message to delete not found"
    );
    assert_eq!(
        fault(TelegramService::delete_message(HttpReply::Failed { body: "nope".to_string() })),
        "Failed to delete message: nope"
    );

    let sent: TelegramResponse<TelegramMessage> =
        TelegramResponse { ok: true, result: None, description: None };
    assert!(TelegramService::send_log_message(HttpReply::Answered(sent)).is_ok());
    let unsent: TelegramResponse<TelegramMessage> =
        TelegramResponse { ok: false, result: None, description: Some("chat gone".to_string()) };
    assert_eq!(fault(TelegramService::send_log_message(HttpReply::Answered(unsent))), "chat gone");
    assert_eq!(
        fault(TelegramService::send_log_message(HttpReply::Failed { body: "x".to_string() })),
        "Failed to send log message: x"
    );
}

#[test]
fn probe_and_http_failures_are_named() {
    assert!(TelegramService::test_connection(true).is_ok());
    assert_eq!(fault(TelegramService::test_connection(false)), "Bot connection test failed");
    assert_eq!(
        fault::<()>(Err(http_failure("Upload failed: ", "gateway timeout"))),
        "Upload failed: gateway timeout"
    );
    let reply: TelegramResponse<u8> = TelegramResponse { ok: true, result: Some(9), description: None };
    assert_eq!(read_reply(reply, "nothing").unwrap(), 9);
    let reply: HttpReply<u8> = HttpReply::Answered(TelegramResponse { ok: true, result: None, description: None });
    assert!(read_verdict(reply, "x").is_ok());
}
