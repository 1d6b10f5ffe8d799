//! The service's settings, built from the text of its environment variables.

use vstd::prelude::*;
use vstd::string::*;
use base64::engine::general_purpose::STANDARD;
use base64::Engine;
use crate::error::{AppError, ErrorModel};
use crate::text::{i64_of_text, parse_i64, parse_u64, u64_of_text};

verus! {

/// The bytes that standard, padded base64 text stands for, if it is such text.
pub uninterp spec fn standard_base64_bytes(text: Seq<char>) -> Option<Seq<u8>>;

/// Calls `Engine::decode` on base64's `STANDARD`. The call gives the bytes
/// that the text stands for, and fails where it stands for none.
#[verifier::external_body]
fn standard_base64_decode(text: &str) -> (r: Result<Vec<u8>, base64::DecodeError>)
    ensures
        r is Ok <==> standard_base64_bytes(text@) is Some,
        r is Ok ==> Some(r->Ok_0@) == standard_base64_bytes(text@),
{
    STANDARD.decode(text)
}

/// The text of each environment variable the service reads, where it is set.
pub struct EnvVars {
    pub telegram_bot_token: Option<String>,
    pub telegram_chat_id: Option<String>,
    pub encryption_key: Option<String>,
    pub max_file_size: Option<String>,
    pub rate_limit_per_minute: Option<String>,
    pub bind_address: Option<String>,
    pub admin_secret: Option<String>,
    pub upload_delay_secs: Option<String>,
}

#[derive(Debug, Clone)]
pub struct Config {
    pub telegram_bot_token: String,
    pub telegram_chat_id: i64,
    pub encryption_key: String,
    pub max_file_size: usize,
    pub rate_limit_per_minute: u32,
    pub bind_address: String,
    pub allowed_image_types: Vec<String>,
    pub admin_secret: String,
    pub upload_delay_secs: u64,
}

/// The text of a variable, or of its default where it is not set.
pub open spec fn text_or(var: Option<String>, default: Seq<char>) -> Seq<char> {
    match var {
        Some(text) => text@,
        None => default,
    }
}

/// The image types accepted when nothing else is configured.
pub open spec fn default_image_types() -> Seq<Seq<char>> {
    seq!["image/jpeg"@, "image/png"@, "image/gif"@, "image/webp"@]
}

/// The views of a list of strings.
pub open spec fn texts(list: Seq<String>) -> Seq<Seq<char>> {
    list.map_values(|s: String| s@)
}

/// Whether the text is the base64 of exactly 32 bytes.
pub open spec fn is_key_text(text: Seq<char>) -> bool {
    standard_base64_bytes(text) is Some && standard_base64_bytes(text)->Some_0.len() == 32
}

/// What is wrong with the variables, if anything: the first fault in the
/// order in which they are read.
pub open spec fn config_fault(vars: EnvVars) -> Option<Seq<char>> {
    if vars.telegram_bot_token is None {
        Some("TELEGRAM_BOT_TOKEN environment variable is required"@)
    } else if vars.telegram_chat_id is None {
        Some("TELEGRAM_CHAT_ID environment variable is required"@)
    } else if i64_of_text(vars.telegram_chat_id->Some_0@) is None {
        Some("TELEGRAM_CHAT_ID must be a valid integer"@)
    } else if vars.encryption_key is None {
        Some("ENCRYPTION_KEY environment variable is required"@)
    } else if u64_of_text(text_or(vars.max_file_size, "10485760"@)) is None || u64_of_text(
        text_or(vars.max_file_size, "10485760"@),
    )->Some_0 > usize::MAX {
        Some("MAX_FILE_SIZE must be a valid integer"@)
    } else if u64_of_text(text_or(vars.rate_limit_per_minute, "60"@)) is None || u64_of_text(
        text_or(vars.rate_limit_per_minute, "60"@),
    )->Some_0 > u32::MAX {
        Some("RATE_LIMIT_PER_MINUTE must be a valid integer"@)
    } else if u64_of_text(text_or(vars.upload_delay_secs, "1"@)) is None {
        Some("UPLOAD_DELAY_SECS must be a valid integer"@)
    } else if standard_base64_bytes(vars.encryption_key->Some_0@) is None {
        Some("ENCRYPTION_KEY must be valid base64"@)
    } else if standard_base64_bytes(vars.encryption_key->Some_0@)->Some_0.len() != 32 {
        Some("ENCRYPTION_KEY must be 32 bytes (256 bits) when decoded"@)
    } else {
        None
    }
}

fn config_error(text: &str) -> (e: AppError)
    ensures
        e@ == ErrorModel::ConfigError(text@),
{
    AppError::ConfigError(String::from_str(text))
}

fn text_or_default(var: &Option<String>, default: &str) -> (text: String)
    ensures
        text@ == text_or(*var, default@),
{
    match var {
        Some(text) => text.clone(),
        None => String::from_str(default),
    }
}

fn default_types() -> (list: Vec<String>)
    ensures
        texts(list@) == default_image_types(),
{
    let mut list: Vec<String> = Vec::new();
    list.push(String::from_str("image/jpeg"));
    list.push(String::from_str("image/png"));
    list.push(String::from_str("image/gif"));
    list.push(String::from_str("image/webp"));
    assert(texts(list@) =~= default_image_types());
    list
}

impl Config {
    /// Builds the settings from the variables' text. Unset optional
    /// variables take their defaults; the key must be the base64 of exactly
    /// 32 bytes.
    pub fn from_env(vars: &EnvVars) -> (r: Result<Config, AppError>)
        ensures
            r is Err <==> config_fault(*vars) is Some,
            r is Err ==> r->Err_0@ == ErrorModel::ConfigError(config_fault(*vars)->Some_0),
            r is Ok ==> {
                let c = r->Ok_0;
                &&& c.telegram_bot_token@ == vars.telegram_bot_token->Some_0@
                &&& Some(c.telegram_chat_id) == i64_of_text(vars.telegram_chat_id->Some_0@)
                &&& c.encryption_key@ == vars.encryption_key->Some_0@
                &&& Some(c.max_file_size as u64) == u64_of_text(
                    text_or(vars.max_file_size, "10485760"@),
                )
                &&& Some(c.rate_limit_per_minute as u64) == u64_of_text(
                    text_or(vars.rate_limit_per_minute, "60"@),
                )
                &&& c.bind_address@ == text_or(vars.bind_address, "0.0.0.0:3000"@)
                &&& texts(c.allowed_image_types@) == default_image_types()
                &&& c.admin_secret@ == text_or(vars.admin_secret, ""@)
                &&& Some(c.upload_delay_secs) == u64_of_text(text_or(vars.upload_delay_secs, "1"@))
                &&& is_key_text(c.encryption_key@)
            },
    {
        let telegram_bot_token = match &vars.telegram_bot_token {
            Some(text) => text.clone(),
            None => {
                return Err(config_error("TELEGRAM_BOT_TOKEN environment variable is required"));
            },
        };
        let chat_text = match &vars.telegram_chat_id {
            Some(text) => text.clone(),
            None => {
                return Err(config_error("TELEGRAM_CHAT_ID environment variable is required"));
            },
        };
        let telegram_chat_id = match parse_i64(chat_text.as_str()) {
            Some(n) => n,
            None => {
                return Err(config_error("TELEGRAM_CHAT_ID must be a valid integer"));
            },
        };
        let encryption_key = match &vars.encryption_key {
            Some(text) => text.clone(),
            None => {
                return Err(config_error("ENCRYPTION_KEY environment variable is required"));
            },
        };
        let size_text = text_or_default(&vars.max_file_size, "10485760");
        let max_file_size: usize = match parse_u64(size_text.as_str()) {
            Some(n) if n <= usize::MAX as u64 => n as usize,
            _ => {
                return Err(config_error("MAX_FILE_SIZE must be a valid integer"));
            },
        };
        let rate_text = text_or_default(&vars.rate_limit_per_minute, "60");
        let rate_limit_per_minute: u32 = match parse_u64(rate_text.as_str()) {
            Some(n) if n <= u32::MAX as u64 => n as u32,
            _ => {
                return Err(config_error("RATE_LIMIT_PER_MINUTE must be a valid integer"));
            },
        };
        let delay_text = text_or_default(&vars.upload_delay_secs, "1");
        let upload_delay_secs = match parse_u64(delay_text.as_str()) {
            Some(n) => n,
            None => {
                return Err(config_error("UPLOAD_DELAY_SECS must be a valid integer"));
            },
        };
        let bind_address = text_or_default(&vars.bind_address, "0.0.0.0:3000");
        let admin_secret = text_or_default(&vars.admin_secret, "");
        match standard_base64_decode(encryption_key.as_str()) {
            Ok(bytes) => {
                if bytes.len() != 32 {
                    return Err(
                        config_error("ENCRYPTION_KEY must be 32 bytes (256 bits) when decoded"),
                    );
                }
            },
            Err(_) => {
                return Err(config_error("ENCRYPTION_KEY must be valid base64"));
            },
        }
        Ok(
            Config {
                telegram_bot_token,
                telegram_chat_id,
                encryption_key,
                max_file_size,
                rate_limit_per_minute,
                bind_address,
                allowed_image_types: default_types(),
                admin_secret,
                upload_delay_secs,
            },
        )
    }

    /// The 32 bytes of the configured key. Fails where the configured text
    /// is no base64 or stands for another number of bytes.
    pub fn get_encryption_key_bytes(&self) -> (r: Result<[u8; 32], AppError>)
        ensures
            r is Ok <==> is_key_text(self.encryption_key@),
            r is Ok ==> Some(r->Ok_0@) == standard_base64_bytes(self.encryption_key@),
            r is Err ==> r->Err_0@ == (if standard_base64_bytes(self.encryption_key@) is None {
                ErrorModel::ConfigError("Failed to decode encryption key"@)
            } else {
                ErrorModel::ConfigError("ENCRYPTION_KEY must be 32 bytes (256 bits) when decoded"@)
            }),
    {
        let bytes = match standard_base64_decode(self.encryption_key.as_str()) {
            Ok(bytes) => bytes,
            Err(_) => {
                return Err(config_error("Failed to decode encryption key"));
            },
        };
        if bytes.len() != 32 {
            return Err(config_error("ENCRYPTION_KEY must be 32 bytes (256 bits) when decoded"));
        }
        let mut key = [0u8; 32];
        let mut i: usize = 0;
        while i < 32
            invariant
                i <= 32,
                bytes@.len() == 32,
                forall|j: int| 0 <= j < i ==> key@[j] == bytes@[j],
            decreases 32 - i,
        {
            key[i] = bytes[i];
            i += 1;
        }
        assert(key@ =~= bytes@);
        Ok(key)
    }
}

} // verus!
