//! The backend message store: where its calls go and how its replies read.
//! The calls themselves are made by the caller; this module decides what
//! each reply means.

use vstd::prelude::*;
use vstd::string::*;
use crate::error::{AppError, ErrorModel};
use crate::models::{TelegramFile, TelegramMessage, TelegramResponse};

verus! {

/// The text of an optional string, empty where there is none.
pub open spec fn text_or_empty(text: Option<String>) -> Seq<char> {
    match text {
        Some(t) => t@,
        None => Seq::<char>::empty(),
    }
}

/// Where the backend is reached, and which chats it writes to.
pub struct TelegramService {
    bot_token: String,
    chat_id: i64,
    log_chat_id: Option<i64>,
    base_url: String,
}

impl TelegramService {
    pub closed spec fn spec_bot_token(&self) -> Seq<char> {
        self.bot_token@
    }

    pub closed spec fn spec_chat_id(&self) -> i64 {
        self.chat_id
    }

    pub closed spec fn spec_log_chat_id(&self) -> Option<i64> {
        self.log_chat_id
    }

    pub closed spec fn spec_base_url(&self) -> Seq<char> {
        self.base_url@
    }

    pub fn new(bot_token: String, chat_id: i64, log_chat_id: Option<i64>) -> (s: Self)
        ensures
            s.spec_bot_token() == bot_token@,
            s.spec_chat_id() == chat_id,
            s.spec_log_chat_id() == log_chat_id,
            s.spec_base_url() == "https://api.telegram.org/bot"@ + bot_token@,
    {
        let base_url = String::from_str("https://api.telegram.org/bot").concat(bot_token.as_str());
        TelegramService { bot_token, chat_id, log_chat_id, base_url }
    }

    pub fn chat_id(&self) -> (id: i64)
        ensures
            id == self.spec_chat_id(),
    {
        self.chat_id
    }

    pub fn log_chat_id(&self) -> (id: Option<i64>)
        ensures
            id == self.spec_log_chat_id(),
    {
        self.log_chat_id
    }

    pub fn base_url(&self) -> (url: &str)
        ensures
            url@ == self.spec_base_url(),
    {
        self.base_url.as_str()
    }

    /// The address of one method of the backend's interface.
    pub fn method_url(&self, method: &str) -> (url: String)
        ensures
            url@ == self.spec_base_url() + "/"@ + method@,
    {
        let mut url = self.base_url.clone();
        url.append("/");
        url.append(method);
        url
    }

    /// The address from which a stored file is fetched.
    pub fn download_url(&self, file_path: &str) -> (url: String)
        ensures
            url@ == "https://api.telegram.org/file/bot"@ + self.spec_bot_token() + "/"@
                + file_path@,
    {
        let mut url = String::from_str("https://api.telegram.org/file/bot");
        url.append(self.bot_token.as_str());
        url.append("/");
        url.append(file_path);
        url
    }

    /// Reads the outcome of an upload: the stored message, or what went wrong.
    pub fn upload_file(reply: HttpReply<TelegramMessage>) -> (r: Result<TelegramMessage, AppError>)
        ensures
            r is Ok <==> reply_fault(reply, "Upload failed: "@, "No result in response"@) is None,
            r is Ok ==> r->Ok_0 == reply->Answered_0.result->Some_0,
            r is Err ==> Some(r->Err_0@) == reply_fault(
                reply,
                "Upload failed: "@,
                "No result in response"@,
            ),
    {
        match reply {
            HttpReply::Failed { body } => Err(http_failure("Upload failed: ", body.as_str())),
            HttpReply::Answered(answer) => read_reply(answer, "No result in response"),
        }
    }

    /// Reads the outcome of a request for a file's whereabouts. The body of
    /// a failed call is not passed on.
    pub fn get_file_info(reply: HttpReply<TelegramFile>) -> (r: Result<TelegramFile, AppError>)
        ensures
            r is Ok <==> reply is Answered && reply->Answered_0.ok && reply->Answered_0.result
                is Some,
            r is Ok ==> r->Ok_0 == reply->Answered_0.result->Some_0,
            r is Err ==> r->Err_0@ == (match reply {
                HttpReply::Failed { .. } => ErrorModel::TelegramError("Failed to get file info"@),
                HttpReply::Answered(answer) => answer_fault(
                    answer.ok,
                    answer.description,
                    "No file info in response"@,
                ),
            }),
    {
        match reply {
            HttpReply::Failed { .. } => Err(
                AppError::TelegramError(String::from_str("Failed to get file info")),
            ),
            HttpReply::Answered(answer) => read_reply(answer, "No file info in response"),
        }
    }

    /// Reads the outcome of a download: the bytes, if the call succeeded.
    pub fn download_file(status_is_success: bool, body: Vec<u8>) -> (r: Result<Vec<u8>, AppError>)
        ensures
            r is Ok <==> status_is_success,
            r is Ok ==> r->Ok_0 == body,
            r is Err ==> r->Err_0@ == ErrorModel::TelegramError("Failed to download file"@),
    {
        if status_is_success {
            Ok(body)
        } else {
            Err(AppError::TelegramError(String::from_str("Failed to download file")))
        }
    }

    /// The path under which a file's bytes are fetched, if the backend gave one.
    pub fn download_file_by_id(file_info: TelegramFile) -> (r: Result<String, AppError>)
        ensures
            r is Ok <==> file_info.file_path is Some,
            r is Ok ==> r->Ok_0 == file_info.file_path->Some_0,
            r is Err ==> r->Err_0@ == ErrorModel::TelegramError("No file path in response"@),
    {
        match file_info.file_path {
            Some(path) => Ok(path),
            None => Err(AppError::TelegramError(String::from_str("No file path in response"))),
        }
    }

    /// Reads the outcome of a deletion: only the backend's verdict counts.
    pub fn delete_message(reply: HttpReply<bool>) -> (r: Result<(), AppError>)
        ensures
            r is Ok <==> verdict_fault(reply, "Failed to delete message: "@) is None,
            r is Err ==> Some(r->Err_0@) == verdict_fault(reply, "Failed to delete message: "@),
    {
        read_verdict(reply, "Failed to delete message: ")
    }

    /// The chat that log messages go to; none where logging to the backend
    /// is off, and then no message is to be sent.
    pub fn log_target(&self) -> (target: Option<i64>)
        ensures
            target == self.spec_log_chat_id(),
    {
        self.log_chat_id
    }

    /// Reads the outcome of a log message that was sent.
    pub fn send_log_message(reply: HttpReply<TelegramMessage>) -> (r: Result<(), AppError>)
        ensures
            r is Ok <==> verdict_fault(reply, "Failed to send log message: "@) is None,
            r is Err ==> Some(r->Err_0@) == verdict_fault(reply, "Failed to send log message: "@),
    {
        read_verdict(reply, "Failed to send log message: ")
    }

    /// Reads the outcome of the connectivity probe.
    pub fn test_connection(status_is_success: bool) -> (r: Result<(), AppError>)
        ensures
            r is Ok <==> status_is_success,
            r is Err ==> r->Err_0@ == ErrorModel::TelegramError("Bot connection test failed"@),
    {
        if status_is_success {
            Ok(())
        } else {
            Err(AppError::TelegramError(String::from_str("Bot connection test failed")))
        }
    }
}

/// What came back from a call to the backend: the body of a response with a
/// failing status, or the backend's answer.
pub enum HttpReply<T> {
    Failed { body: String },
    Answered(TelegramResponse<T>),
}

/// The error that an answer without a usable result stands for: the
/// backend's description where it says no, else `missing`.
pub open spec fn answer_fault(ok: bool, description: Option<String>, missing: Seq<char>)
    -> ErrorModel {
    if !ok {
        ErrorModel::TelegramError(text_or_empty(description))
    } else {
        ErrorModel::TelegramError(missing)
    }
}

/// What is wrong with the outcome of a call that should bring a result.
pub open spec fn reply_fault<T>(reply: HttpReply<T>, failed: Seq<char>, missing: Seq<char>)
    -> Option<ErrorModel> {
    match reply {
        HttpReply::Failed { body } => Some(ErrorModel::TelegramError(failed + body@)),
        HttpReply::Answered(answer) => if answer.ok && answer.result is Some {
            None
        } else {
            Some(answer_fault(answer.ok, answer.description, missing))
        },
    }
}

/// What is wrong with the outcome of a call of which only the verdict counts.
pub open spec fn verdict_fault<T>(reply: HttpReply<T>, failed: Seq<char>) -> Option<ErrorModel> {
    match reply {
        HttpReply::Failed { body } => Some(ErrorModel::TelegramError(failed + body@)),
        HttpReply::Answered(answer) => if answer.ok {
            None
        } else {
            Some(ErrorModel::TelegramError(text_or_empty(answer.description)))
        },
    }
}

/// Reads the outcome of a call of which only the verdict counts.
pub fn read_verdict<T>(reply: HttpReply<T>, failed: &str) -> (r: Result<(), AppError>)
    ensures
        r is Ok <==> verdict_fault(reply, failed@) is None,
        r is Err ==> Some(r->Err_0@) == verdict_fault(reply, failed@),
{
    match reply {
        HttpReply::Failed { body } => Err(http_failure(failed, body.as_str())),
        HttpReply::Answered(answer) => {
            if answer.ok {
                Ok(())
            } else {
                Err(AppError::TelegramError(description_text(answer.description)))
            }
        },
    }
}

/// The error for a call that the backend answered with a failing status:
/// what the call was, then what the backend said.
pub fn http_failure(what: &str, body: &str) -> (e: AppError)
    ensures
        e@ == ErrorModel::TelegramError(what@ + body@),
{
    AppError::TelegramError(String::from_str(what).concat(body))
}

fn description_text(description: Option<String>) -> (text: String)
    ensures
        text@ == text_or_empty(description),
{
    match description {
        Some(t) => t,
        None => String::new(),
    }
}

/// Reads an answer: its result where the backend says `ok` and sent one, else
/// the backend's description, or `missing` where `ok` came without a result.
pub fn read_reply<T>(reply: TelegramResponse<T>, missing: &str) -> (r: Result<T, AppError>)
    ensures
        r is Ok <==> reply.ok && reply.result is Some,
        r is Ok ==> r->Ok_0 == reply.result->Some_0,
        r is Err ==> r->Err_0@ == answer_fault(reply.ok, reply.description, missing@),
{
    if !reply.ok {
        return Err(AppError::TelegramError(description_text(reply.description)));
    }
    match reply.result {
        Some(value) => Ok(value),
        None => Err(AppError::TelegramError(String::from_str(missing))),
    }
}

} // verus!
