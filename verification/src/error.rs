//! The error taxonomy and what each error shows to a client.

use vstd::prelude::*;
use vstd::string::*;
use crate::text::{decimal_string, decimal_text};

verus! {

/// Everything a request can fail with.
#[derive(Debug, Clone)]
pub enum AppError {
    TelegramError(String),
    EncryptionError(String),
    InvalidFileFormat(String),
    FileTooLarge { max_size: usize },
    RateLimitExceeded,
    NotFound,
    InvalidImageId,
    InternalError(String),
    ValidationError(String),
    ConfigError(String),
    Unauthorized,
    InvalidId,
    TooManyRequests,
}

/// An error with its detail as a sequence of characters.
pub enum ErrorModel {
    TelegramError(Seq<char>),
    EncryptionError(Seq<char>),
    InvalidFileFormat(Seq<char>),
    FileTooLarge { max_size: usize },
    RateLimitExceeded,
    NotFound,
    InvalidImageId,
    InternalError(Seq<char>),
    ValidationError(Seq<char>),
    ConfigError(Seq<char>),
    Unauthorized,
    InvalidId,
    TooManyRequests,
}

impl View for AppError {
    type V = ErrorModel;

    open spec fn view(&self) -> ErrorModel {
        match self {
            AppError::TelegramError(m) => ErrorModel::TelegramError(m@),
            AppError::EncryptionError(m) => ErrorModel::EncryptionError(m@),
            AppError::InvalidFileFormat(m) => ErrorModel::InvalidFileFormat(m@),
            AppError::FileTooLarge { max_size } => ErrorModel::FileTooLarge { max_size: *max_size },
            AppError::RateLimitExceeded => ErrorModel::RateLimitExceeded,
            AppError::NotFound => ErrorModel::NotFound,
            AppError::InvalidImageId => ErrorModel::InvalidImageId,
            AppError::InternalError(m) => ErrorModel::InternalError(m@),
            AppError::ValidationError(m) => ErrorModel::ValidationError(m@),
            AppError::ConfigError(m) => ErrorModel::ConfigError(m@),
            AppError::Unauthorized => ErrorModel::Unauthorized,
            AppError::InvalidId => ErrorModel::InvalidId,
            AppError::TooManyRequests => ErrorModel::TooManyRequests,
        }
    }
}

/// The HTTP status that answers an error.
pub open spec fn status_of(e: ErrorModel) -> u16 {
    match e {
        ErrorModel::TelegramError(_) => 503,
        ErrorModel::EncryptionError(_) => 500,
        ErrorModel::InvalidFileFormat(_) => 400,
        ErrorModel::FileTooLarge { .. } => 413,
        ErrorModel::RateLimitExceeded => 429,
        ErrorModel::TooManyRequests => 429,
        ErrorModel::NotFound => 404,
        ErrorModel::InvalidImageId => 400,
        ErrorModel::InternalError(_) => 500,
        ErrorModel::ValidationError(_) => 400,
        ErrorModel::ConfigError(_) => 500,
        ErrorModel::Unauthorized => 401,
        ErrorModel::InvalidId => 400,
    }
}

/// The text a client is shown. Validation failures are passed on as they are;
/// backend, crypto and internal failures show only their category.
pub open spec fn client_text_of(e: ErrorModel) -> Seq<char> {
    match e {
        ErrorModel::TelegramError(_) => "External service error"@,
        ErrorModel::EncryptionError(_) => "Encryption error"@,
        ErrorModel::InvalidFileFormat(m) => m,
        ErrorModel::FileTooLarge { max_size } => "File too large. Maximum size: "@ + decimal_text(
            max_size as nat,
        ) + " bytes"@,
        ErrorModel::RateLimitExceeded => "Rate limit exceeded"@,
        ErrorModel::TooManyRequests => "Too many concurrent requests"@,
        ErrorModel::NotFound => "Image not found"@,
        ErrorModel::InvalidImageId => "Invalid image ID"@,
        ErrorModel::InternalError(_) => "Internal server error"@,
        ErrorModel::ValidationError(m) => m,
        ErrorModel::ConfigError(_) => "Configuration error"@,
        ErrorModel::Unauthorized => "Unauthorized"@,
        ErrorModel::InvalidId => "Invalid ID format"@,
    }
}

/// The full description of an error, detail included, as it is logged.
pub open spec fn log_text_of(e: ErrorModel) -> Seq<char> {
    match e {
        ErrorModel::TelegramError(m) => "Telegram API error: "@ + m,
        ErrorModel::EncryptionError(m) => "Encryption error: "@ + m,
        ErrorModel::InvalidFileFormat(m) => "Invalid file format: "@ + m,
        ErrorModel::FileTooLarge { max_size } => "File too large: "@ + decimal_text(
            max_size as nat,
        ) + " bytes maximum"@,
        ErrorModel::RateLimitExceeded => "Rate limit exceeded"@,
        ErrorModel::TooManyRequests => "Too many requests"@,
        ErrorModel::NotFound => "Image not found"@,
        ErrorModel::InvalidImageId => "Invalid image ID"@,
        ErrorModel::InternalError(m) => "Internal server error: "@ + m,
        ErrorModel::ValidationError(m) => "Validation error: "@ + m,
        ErrorModel::ConfigError(m) => "Configuration error: "@ + m,
        ErrorModel::Unauthorized => "Unauthorized"@,
        ErrorModel::InvalidId => "Invalid ID format"@,
    }
}

/// Whether the detail of an error is kept from the client.
pub open spec fn detail_suppressed(e: ErrorModel) -> bool {
    e is TelegramError || e is EncryptionError || e is InternalError || e is ConfigError
}

impl AppError {
    /// The HTTP status that answers this error.
    pub fn status_code(&self) -> (code: u16)
        ensures
            code == status_of(self@),
    {
        match self {
            AppError::TelegramError(_) => 503,
            AppError::EncryptionError(_) => 500,
            AppError::InvalidFileFormat(_) => 400,
            AppError::FileTooLarge { .. } => 413,
            AppError::RateLimitExceeded => 429,
            AppError::TooManyRequests => 429,
            AppError::NotFound => 404,
            AppError::InvalidImageId => 400,
            AppError::InternalError(_) => 500,
            AppError::ValidationError(_) => 400,
            AppError::ConfigError(_) => 500,
            AppError::Unauthorized => 401,
            AppError::InvalidId => 400,
        }
    }

    /// The text shown to the client.
    pub fn client_message(&self) -> (text: String)
        ensures
            text@ == client_text_of(self@),
    {
        match self {
            AppError::TelegramError(_) => String::from_str("External service error"),
            AppError::EncryptionError(_) => String::from_str("Encryption error"),
            AppError::InvalidFileFormat(m) => m.clone(),
            AppError::FileTooLarge { max_size } => {
                let mut text = String::from_str("File too large. Maximum size: ");
                text.append(decimal_string(*max_size).as_str());
                text.append(" bytes");
                text
            },
            AppError::RateLimitExceeded => String::from_str("Rate limit exceeded"),
            AppError::TooManyRequests => String::from_str("Too many concurrent requests"),
            AppError::NotFound => String::from_str("Image not found"),
            AppError::InvalidImageId => String::from_str("Invalid image ID"),
            AppError::InternalError(_) => String::from_str("Internal server error"),
            AppError::ValidationError(m) => m.clone(),
            AppError::ConfigError(_) => String::from_str("Configuration error"),
            AppError::Unauthorized => String::from_str("Unauthorized"),
            AppError::InvalidId => String::from_str("Invalid ID format"),
        }
    }

    /// The full description, detail included.
    pub fn message(&self) -> (text: String)
        ensures
            text@ == log_text_of(self@),
    {
        match self {
            AppError::TelegramError(m) => String::from_str("Telegram API error: ").concat(
                m.as_str(),
            ),
            AppError::EncryptionError(m) => String::from_str("Encryption error: ").concat(
                m.as_str(),
            ),
            AppError::InvalidFileFormat(m) => String::from_str("Invalid file format: ").concat(
                m.as_str(),
            ),
            AppError::FileTooLarge { max_size } => {
                let mut text = String::from_str("File too large: ");
                text.append(decimal_string(*max_size).as_str());
                text.append(" bytes maximum");
                text
            },
            AppError::RateLimitExceeded => String::from_str("Rate limit exceeded"),
            AppError::TooManyRequests => String::from_str("Too many requests"),
            AppError::NotFound => String::from_str("Image not found"),
            AppError::InvalidImageId => String::from_str("Invalid image ID"),
            AppError::InternalError(m) => String::from_str("Internal server error: ").concat(
                m.as_str(),
            ),
            AppError::ValidationError(m) => String::from_str("Validation error: ").concat(
                m.as_str(),
            ),
            AppError::ConfigError(m) => String::from_str("Configuration error: ").concat(
                m.as_str(),
            ),
            AppError::Unauthorized => String::from_str("Unauthorized"),
            AppError::InvalidId => String::from_str("Invalid ID format"),
        }
    }
}

/// Whatever the detail of a backend, crypto, internal or configuration error
/// says, the client is shown the same text and the same status.
pub proof fn lemma_detail_never_leaks(a: ErrorModel, b: ErrorModel)
    requires
        detail_suppressed(a),
        a is TelegramError <==> b is TelegramError,
        a is EncryptionError <==> b is EncryptionError,
        a is InternalError <==> b is InternalError,
        a is ConfigError <==> b is ConfigError,
    ensures
        client_text_of(a) == client_text_of(b),
        status_of(a) == status_of(b),
{
}

} // verus!
