//! Why exchange rates could not be had or used.

use vstd::prelude::*;

use crate::text;

verus! {

/// Why exchange rates could not be had or used.
#[derive(Debug, PartialEq, Eq)]
pub enum ForexError {
    ApiError,
    ApiTimeout,
    ApiUnresponsive,
    ConversionError,
    CouldNotAcquireLock,
    CurrencyNotAcceptable,
    ConfigurationError(String),
    DefaultCurrencyParsingError,
    EntryNotFound,
    ForexDataUnavailable,
    InvalidLogExpiry,
    LocalReadError,
    LocalWriteError,
    ParsingError,
    AwsKmsDecryptionFailed,
    RedisConnectionError,
    RedisLockReleaseFailed,
    RedisWriteError,
    WriteLockNotAcquired,
}

impl ForexError {
    /// The error in words.
    pub open spec fn message_text(self) -> Seq<char> {
        match self {
            ForexError::ApiError => "API error"@,
            ForexError::ApiTimeout => "API timeout"@,
            ForexError::ApiUnresponsive => "API unresponsive"@,
            ForexError::ConversionError => "Conversion error"@,
            ForexError::CouldNotAcquireLock => "Could not acquire the lock for cache entry"@,
            ForexError::CurrencyNotAcceptable => "Provided currency not acceptable"@,
            ForexError::ConfigurationError(detail) => "Forex configuration error: "@ + detail@,
            ForexError::DefaultCurrencyParsingError => {
                "Incorrect entries in default Currency response"@
            },
            ForexError::EntryNotFound => "Entry not found in cache"@,
            ForexError::ForexDataUnavailable => "Forex data unavailable"@,
            ForexError::InvalidLogExpiry => "Expiration time invalid"@,
            ForexError::LocalReadError => "Error reading local"@,
            ForexError::LocalWriteError => "Error writing to local cache"@,
            ForexError::ParsingError => "Json Parsing error"@,
            ForexError::AwsKmsDecryptionFailed => "Aws Kms decryption error"@,
            ForexError::RedisConnectionError => "Error connecting to redis"@,
            ForexError::RedisLockReleaseFailed => "Not able to release write lock"@,
            ForexError::RedisWriteError => "Error writing to redis"@,
            ForexError::WriteLockNotAcquired => "Not able to acquire write lock"@,
        }
    }

    /// The error in words.
    pub fn message(&self) -> (r: String)
        ensures
            r@ == self.message_text(),
    {
        match self {
            ForexError::ApiError => "API error".to_owned(),
            ForexError::ApiTimeout => "API timeout".to_owned(),
            ForexError::ApiUnresponsive => "API unresponsive".to_owned(),
            ForexError::ConversionError => "Conversion error".to_owned(),
            ForexError::CouldNotAcquireLock => {
                "Could not acquire the lock for cache entry".to_owned()
            },
            ForexError::CurrencyNotAcceptable => "Provided currency not acceptable".to_owned(),
            ForexError::ConfigurationError(detail) => {
                text::joined("Forex configuration error: ", detail.as_str())
            },
            ForexError::DefaultCurrencyParsingError => {
                "Incorrect entries in default Currency response".to_owned()
            },
            ForexError::EntryNotFound => "Entry not found in cache".to_owned(),
            ForexError::ForexDataUnavailable => "Forex data unavailable".to_owned(),
            ForexError::InvalidLogExpiry => "Expiration time invalid".to_owned(),
            ForexError::LocalReadError => "Error reading local".to_owned(),
            ForexError::LocalWriteError => "Error writing to local cache".to_owned(),
            ForexError::ParsingError => "Json Parsing error".to_owned(),
            ForexError::AwsKmsDecryptionFailed => "Aws Kms decryption error".to_owned(),
            ForexError::RedisConnectionError => "Error connecting to redis".to_owned(),
            ForexError::RedisLockReleaseFailed => "Not able to release write lock".to_owned(),
            ForexError::RedisWriteError => "Error writing to redis".to_owned(),
            ForexError::WriteLockNotAcquired => "Not able to acquire write lock".to_owned(),
        }
    }
}

impl Clone for ForexError {
    fn clone(&self) -> (r: ForexError)
        ensures
            r == *self,
    {
        match self {
            ForexError::ApiError => ForexError::ApiError,
            ForexError::ApiTimeout => ForexError::ApiTimeout,
            ForexError::ApiUnresponsive => ForexError::ApiUnresponsive,
            ForexError::ConversionError => ForexError::ConversionError,
            ForexError::CouldNotAcquireLock => ForexError::CouldNotAcquireLock,
            ForexError::CurrencyNotAcceptable => ForexError::CurrencyNotAcceptable,
            ForexError::ConfigurationError(detail) => {
                ForexError::ConfigurationError(detail.clone())
            },
            ForexError::DefaultCurrencyParsingError => ForexError::DefaultCurrencyParsingError,
            ForexError::EntryNotFound => ForexError::EntryNotFound,
            ForexError::ForexDataUnavailable => ForexError::ForexDataUnavailable,
            ForexError::InvalidLogExpiry => ForexError::InvalidLogExpiry,
            ForexError::LocalReadError => ForexError::LocalReadError,
            ForexError::LocalWriteError => ForexError::LocalWriteError,
            ForexError::ParsingError => ForexError::ParsingError,
            ForexError::AwsKmsDecryptionFailed => ForexError::AwsKmsDecryptionFailed,
            ForexError::RedisConnectionError => ForexError::RedisConnectionError,
            ForexError::RedisLockReleaseFailed => ForexError::RedisLockReleaseFailed,
            ForexError::RedisWriteError => ForexError::RedisWriteError,
            ForexError::WriteLockNotAcquired => ForexError::WriteLockNotAcquired,
        }
    }
}

/// The words of each error. A configuration error ends in its detail.
pub proof fn law_words_of_errors(detail: String)
    ensures
        ForexError::ApiError.message_text() == "API error"@,
        ForexError::ApiTimeout.message_text() == "API timeout"@,
        ForexError::ApiUnresponsive.message_text() == "API unresponsive"@,
        ForexError::ConversionError.message_text() == "Conversion error"@,
        ForexError::CouldNotAcquireLock.message_text() == "Could not acquire the lock for cache entry"@,
        ForexError::CurrencyNotAcceptable.message_text() == "Provided currency not acceptable"@,
        ForexError::DefaultCurrencyParsingError.message_text() == "Incorrect entries in default Currency response"@,
        ForexError::EntryNotFound.message_text() == "Entry not found in cache"@,
        ForexError::ForexDataUnavailable.message_text() == "Forex data unavailable"@,
        ForexError::InvalidLogExpiry.message_text() == "Expiration time invalid"@,
        ForexError::LocalReadError.message_text() == "Error reading local"@,
        ForexError::LocalWriteError.message_text() == "Error writing to local cache"@,
        ForexError::ParsingError.message_text() == "Json Parsing error"@,
        ForexError::AwsKmsDecryptionFailed.message_text() == "Aws Kms decryption error"@,
        ForexError::RedisConnectionError.message_text() == "Error connecting to redis"@,
        ForexError::RedisLockReleaseFailed.message_text() == "Not able to release write lock"@,
        ForexError::RedisWriteError.message_text() == "Error writing to redis"@,
        ForexError::WriteLockNotAcquired.message_text() == "Not able to acquire write lock"@,
        ForexError::ConfigurationError(detail).message_text() == "Forex configuration error: "@
            + detail@,
{
}

} // verus!
