//! The error taxonomy of the service. Errors that originate in an
//! outside component carry the component's message as plain text; the
//! gateway error carries the upstream status code and the URL that was
//! fetched. Every error maps to a stable machine-readable code and to
//! an HTTP status.

use vstd::prelude::*;

verus! {

/// One domain error. `Proxy` is the gateway-type failure raised when
/// the upstream answers a request with a non-success status; it is
/// kept distinct from the internal errors because it originates in a
/// dependency, not in this system.
#[derive(Debug)]
pub enum AppError {
    /// The store's connection pool failed.
    Redis(String),
    /// A store command failed.
    RedisCommand(String),
    /// The configuration could not be read or parsed.
    Config(String),
    /// The upstream HTTP client failed at the transport level.
    HttpClient(String),
    /// A local file operation failed.
    Io(String),
    /// Serializing or deserializing a payload failed.
    Serialization(String),
    /// A cache operation failed.
    Cache(String),
    /// The upstream returned a non-success status for the given URL.
    Proxy { status: u16, url: String },
    /// An unclassified internal failure.
    Internal(String),
    /// The requested resource does not exist.
    NotFound(String),
}

/// The stable machine-readable code of each error.
pub open spec fn error_code_spec(e: &AppError) -> Seq<char> {
    match e {
        AppError::Redis(_) => "REDIS_ERROR"@,
        AppError::RedisCommand(_) => "REDIS_ERROR"@,
        AppError::Config(_) => "CONFIG_ERROR"@,
        AppError::HttpClient(_) => "HTTP_CLIENT_ERROR"@,
        AppError::Io(_) => "IO_ERROR"@,
        AppError::Serialization(_) => "SERIALIZATION_ERROR"@,
        AppError::Cache(_) => "CACHE_ERROR"@,
        AppError::Proxy { .. } => "PROXY_ERROR"@,
        AppError::Internal(_) => "INTERNAL_ERROR"@,
        AppError::NotFound(_) => "NOT_FOUND"@,
    }
}

/// The HTTP status each error surfaces with: 404 for a missing
/// resource, 400 for a configuration fault, 502 for the gateway error,
/// 500 for everything else.
pub open spec fn status_code_spec(e: &AppError) -> u16 {
    match e {
        AppError::NotFound(_) => 404,
        AppError::Config(_) => 400,
        AppError::Proxy { .. } => 502,
        _ => 500,
    }
}

impl AppError {
    /// The stable machine-readable code of this error.
    pub fn error_code(&self) -> (r: &'static str)
        ensures
            r@ == error_code_spec(self),
    {
        match self {
            AppError::Redis(_) | AppError::RedisCommand(_) => "REDIS_ERROR",
            AppError::Config(_) => "CONFIG_ERROR",
            AppError::HttpClient(_) => "HTTP_CLIENT_ERROR",
            AppError::Io(_) => "IO_ERROR",
            AppError::Serialization(_) => "SERIALIZATION_ERROR",
            AppError::Cache(_) => "CACHE_ERROR",
            AppError::Proxy { .. } => "PROXY_ERROR",
            AppError::Internal(_) => "INTERNAL_ERROR",
            AppError::NotFound(_) => "NOT_FOUND",
        }
    }

    /// The HTTP status this error surfaces with.
    pub fn status_code(&self) -> (r: u16)
        ensures
            r == status_code_spec(self),
    {
        match self {
            AppError::NotFound(_) => 404,
            AppError::Config(_) => 400,
            AppError::Proxy { .. } => 502,
            _ => 500,
        }
    }
}

/// The body every surfaced error is rendered as.
pub struct ErrorResponse {
    /// Human-readable message.
    pub error: String,
    /// Stable machine-readable code.
    pub code: String,
    /// Optional operator-facing detail.
    pub details: Option<String>,
}

/// The result type of the library's fallible operations.
pub type AppResult<T> = Result<T, AppError>;

} // verus!
