use image_relay::error::AppError;
use image_relay::text::decimal_string;

#[test]
fn every_error_has_its_status() {
    assert_eq!(AppError::TelegramError("x".to_string()).status_code(), 503);
    assert_eq!(AppError::EncryptionError("x".to_string()).status_code(), 500);
    assert_eq!(AppError::InvalidFileFormat("x".to_string()).status_code(), 400);
    assert_eq!(AppError::FileTooLarge { max_size: 1 }.status_code(), 413);
    assert_eq!(AppError::RateLimitExceeded.status_code(), 429);
    assert_eq!(AppError::TooManyRequests.status_code(), 429);
    assert_eq!(AppError::NotFound.status_code(), 404);
    assert_eq!(AppError::InvalidImageId.status_code(), 400);
    assert_eq!(AppError::InternalError("x".to_string()).status_code(), 500);
    assert_eq!(AppError::ValidationError("x".to_string()).status_code(), 400);
    assert_eq!(AppError::ConfigError("x".to_string()).status_code(), 500);
    assert_eq!(AppError::Unauthorized.status_code(), 401);
    assert_eq!(AppError::InvalidId.status_code(), 400);
}

#[test]
fn client_sees_no_internal_detail() {
    assert_eq!(
        AppError::TelegramError("token 123 rejected".to_string()).client_message(),
        "External service error"
    );
    assert_eq!(
        AppError::EncryptionError("aead::Error".to_string()).client_message(),
        "Encryption error"
    );
    assert_eq!(
        AppError::InternalError("lock poisoned".to_string()).client_message(),
        "Internal server error"
    );
    assert_eq!(
        AppError::ConfigError("bad key".to_string()).client_message(),
        "Configuration error"
    );
}

#[test]
fn client_sees_validation_detail() {
    assert_eq!(
        AppError::InvalidFileFormat("Unsupported image type".to_string()).client_message(),
        "Unsupported image type"
    );
    assert_eq!(
        AppError::ValidationError("No image file found in request".to_string()).client_message(),
        "No image file found in request"
    );
    assert_eq!(
        AppError::FileTooLarge { max_size: 10485760 }.client_message(),
        "File too large. Maximum size: 10485760 bytes"
    );
    assert_eq!(AppError::RateLimitExceeded.client_message(), "Rate limit exceeded");
    assert_eq!(AppError::TooManyRequests.client_message(), "Too many concurrent requests");
    assert_eq!(AppError::NotFound.client_message(), "Image not found");
    assert_eq!(AppError::InvalidImageId.client_message(), "Invalid image ID");
    assert_eq!(AppError::Unauthorized.client_message(), "Unauthorized");
    assert_eq!(AppError::InvalidId.client_message(), "Invalid ID format");
}

#[test]
fn full_messages_carry_the_detail() {
    assert_eq!(AppError::TelegramError("boom".to_string()).message(), "Telegram API error: boom");
    assert_eq!(AppError::EncryptionError("boom".to_string()).message(), "Encryption error: boom");
    assert_eq!(
        AppError::InvalidFileFormat("boom".to_string()).message(),
        "Invalid file format: boom"
    );
    assert_eq!(
        AppError::FileTooLarge { max_size: 42 }.message(),
        "File too large: 42 bytes maximum"
    );
    assert_eq!(AppError::RateLimitExceeded.message(), "Rate limit exceeded");
    assert_eq!(AppError::NotFound.message(), "Image not found");
    assert_eq!(AppError::InvalidImageId.message(), "Invalid image ID");
    assert_eq!(
        AppError::InternalError("boom".to_string()).message(),
        "Internal server error: boom"
    );
    assert_eq!(AppError::ValidationError("boom".to_string()).message(), "Validation error: boom");
    assert_eq!(AppError::ConfigError("boom".to_string()).message(), "Configuration error: boom");
    assert_eq!(AppError::Unauthorized.message(), "Unauthorized");
    assert_eq!(AppError::InvalidId.message(), "Invalid ID format");
    assert_eq!(AppError::TooManyRequests.message(), "Too many requests");
}

#[test]
fn decimal_numerals() {
    assert_eq!(decimal_string(0), "0");
    assert_eq!(decimal_string(7), "7");
    assert_eq!(decimal_string(10), "10");
    assert_eq!(decimal_string(1200), "1200");
    assert_eq!(decimal_string(10485760), "10485760");
    assert_eq!(decimal_string(usize::MAX), usize::MAX.to_string());
}

#[test]
fn numbers_are_read_as_the_standard_library_reads_them() {
    let samples = [
        "", "0", "7", "42", "007", "+5", "-5", "+", "-", "+-5", "-+5", "--5", "++5", " 5", "5 ",
        "5a", "a5", "1_000", "１２", "٣", "é", "4294967295", "4294967296",
        "9223372036854775807", "9223372036854775808", "-9223372036854775808",
        "-9223372036854775809", "18446744073709551615", "18446744073709551616",
        "+18446744073709551615", "-0", "+0", "00000000000000000000000000001",
        "99999999999999999999999999999", "-00000000000000000000009223372036854775808",
        "1.0", "0x10", "1e3", "\u{0}1", "-1001234",
    ];
    for s in samples {
        assert_eq!(image_relay::text::parse_i64(s), s.parse::<i64>().ok());
        assert_eq!(image_relay::text::parse_u64(s), s.parse::<u64>().ok());
    }
}

#[test]
fn numbers_at_the_limits() {
    assert_eq!(image_relay::text::parse_i64("-9223372036854775808"), Some(i64::MIN));
    assert_eq!(image_relay::text::parse_i64("9223372036854775807"), Some(i64::MAX));
    assert_eq!(image_relay::text::parse_i64("9223372036854775808"), None);
    assert_eq!(image_relay::text::parse_u64("18446744073709551615"), Some(u64::MAX));
    assert_eq!(image_relay::text::parse_u64("18446744073709551616"), None);
    assert_eq!(image_relay::text::parse_u64("-1"), None);
    assert_eq!(image_relay::text::parse_u64(""), None);
}
