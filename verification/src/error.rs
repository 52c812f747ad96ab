//! The failures that the service reports.

use vstd::prelude::*;

verus! {

/// Everything that can go wrong, each with a text that gives the detail.
#[derive(Debug)]
pub enum ServiceError {
    ProcessingError(String),
    UserNotFound(String),
    ChannelError(String),
    QueueFull(String),
    DatabaseError(String),
    RateLimitExceeded(String),
    InvalidMessage(String),
    ThreadPoolError(String),
    DatabasePoolError(String),
    ConfigError(String),
    ServerError(String),
    Configuration(String),
    Internal(String),
    Unauthorized(String),
    NotFound(String),
}

/// The variants of [`ServiceError`], without their detail.
#[derive(Debug, Clone, Copy, PartialEq, Eq, Structural)]
pub enum ErrorKind {
    ProcessingError,
    UserNotFound,
    ChannelError,
    QueueFull,
    DatabaseError,
    RateLimitExceeded,
    InvalidMessage,
    ThreadPoolError,
    DatabasePoolError,
    ConfigError,
    ServerError,
    Configuration,
    Internal,
    Unauthorized,
    NotFound,
}

/// What a [`ServiceError`] is: its variant and its detail.
pub struct ErrorView {
    pub kind: ErrorKind,
    pub detail: Seq<char>,
}

impl ErrorKind {
    /// The words that introduce the detail when an error of this kind is shown.
    pub open spec fn heading(self) -> Seq<char> {
        match self {
            ErrorKind::ProcessingError => "Failed to process message: "@,
            ErrorKind::UserNotFound => "User not found: "@,
            ErrorKind::ChannelError => "Channel error: "@,
            ErrorKind::QueueFull => "Queue full: "@,
            ErrorKind::DatabaseError => "Database error: "@,
            ErrorKind::RateLimitExceeded => "Rate limit exceeded: "@,
            ErrorKind::InvalidMessage => "Invalid message format: "@,
            ErrorKind::ThreadPoolError => "Thread pool error: "@,
            ErrorKind::DatabasePoolError => "Database pool error: "@,
            ErrorKind::ConfigError => "Config error: "@,
            ErrorKind::ServerError => "Server error: "@,
            ErrorKind::Configuration => "Configuration error: "@,
            ErrorKind::Internal => "Internal error: "@,
            ErrorKind::Unauthorized => "Unauthorized: "@,
            ErrorKind::NotFound => "Not found: "@,
        }
    }

    /// The HTTP status that answers a request which ended in an error of this
    /// kind.
    pub open spec fn code(self) -> u16 {
        match self {
            ErrorKind::InvalidMessage => 400,
            ErrorKind::NotFound => 404,
            ErrorKind::RateLimitExceeded => 429,
            _ => 500,
        }
    }

    /// Whether a failure of this kind may pass, so that the work is worth
    /// trying again: the store or the completion service was unavailable.
    pub open spec fn transient(self) -> bool {
        self == ErrorKind::DatabaseError || self == ErrorKind::ProcessingError
    }
}

impl ErrorView {
    /// The full text of the error: heading, then detail.
    pub open spec fn text(self) -> Seq<char> {
        self.kind.heading() + self.detail
    }
}

impl View for ServiceError {
    type V = ErrorView;

    open spec fn view(&self) -> ErrorView {
        ErrorView { kind: self.kind(), detail: self.detail() }
    }
}

impl ServiceError {
    /// The variant of the error.
    pub open spec fn spec_kind(&self) -> ErrorKind {
        match self {
            ServiceError::ProcessingError(_) => ErrorKind::ProcessingError,
            ServiceError::UserNotFound(_) => ErrorKind::UserNotFound,
            ServiceError::ChannelError(_) => ErrorKind::ChannelError,
            ServiceError::QueueFull(_) => ErrorKind::QueueFull,
            ServiceError::DatabaseError(_) => ErrorKind::DatabaseError,
            ServiceError::RateLimitExceeded(_) => ErrorKind::RateLimitExceeded,
            ServiceError::InvalidMessage(_) => ErrorKind::InvalidMessage,
            ServiceError::ThreadPoolError(_) => ErrorKind::ThreadPoolError,
            ServiceError::DatabasePoolError(_) => ErrorKind::DatabasePoolError,
            ServiceError::ConfigError(_) => ErrorKind::ConfigError,
            ServiceError::ServerError(_) => ErrorKind::ServerError,
            ServiceError::Configuration(_) => ErrorKind::Configuration,
            ServiceError::Internal(_) => ErrorKind::Internal,
            ServiceError::Unauthorized(_) => ErrorKind::Unauthorized,
            ServiceError::NotFound(_) => ErrorKind::NotFound,
        }
    }

    /// The detail text that the error carries.
    pub open spec fn detail(&self) -> Seq<char> {
        match self {
            ServiceError::ProcessingError(s) => s@,
            ServiceError::UserNotFound(s) => s@,
            ServiceError::ChannelError(s) => s@,
            ServiceError::QueueFull(s) => s@,
            ServiceError::DatabaseError(s) => s@,
            ServiceError::RateLimitExceeded(s) => s@,
            ServiceError::InvalidMessage(s) => s@,
            ServiceError::ThreadPoolError(s) => s@,
            ServiceError::DatabasePoolError(s) => s@,
            ServiceError::ConfigError(s) => s@,
            ServiceError::ServerError(s) => s@,
            ServiceError::Configuration(s) => s@,
            ServiceError::Internal(s) => s@,
            ServiceError::Unauthorized(s) => s@,
            ServiceError::NotFound(s) => s@,
        }
    }

    /// The variant of the error.
    #[verifier::when_used_as_spec(spec_kind)]
    pub fn kind(&self) -> (k: ErrorKind)
        ensures
            k == self.spec_kind(),
    {
        match self {
            ServiceError::ProcessingError(_) => ErrorKind::ProcessingError,
            ServiceError::UserNotFound(_) => ErrorKind::UserNotFound,
            ServiceError::ChannelError(_) => ErrorKind::ChannelError,
            ServiceError::QueueFull(_) => ErrorKind::QueueFull,
            ServiceError::DatabaseError(_) => ErrorKind::DatabaseError,
            ServiceError::RateLimitExceeded(_) => ErrorKind::RateLimitExceeded,
            ServiceError::InvalidMessage(_) => ErrorKind::InvalidMessage,
            ServiceError::ThreadPoolError(_) => ErrorKind::ThreadPoolError,
            ServiceError::DatabasePoolError(_) => ErrorKind::DatabasePoolError,
            ServiceError::ConfigError(_) => ErrorKind::ConfigError,
            ServiceError::ServerError(_) => ErrorKind::ServerError,
            ServiceError::Configuration(_) => ErrorKind::Configuration,
            ServiceError::Internal(_) => ErrorKind::Internal,
            ServiceError::Unauthorized(_) => ErrorKind::Unauthorized,
            ServiceError::NotFound(_) => ErrorKind::NotFound,
        }
    }

    /// The full text of the error: heading, then detail.
    pub fn describe(&self) -> (s: String)
        ensures
            s@ == self@.text(),
    {
        match self {
            ServiceError::ProcessingError(d) => String::from_str("Failed to process message: ").concat(d.as_str()),
            ServiceError::UserNotFound(d) => String::from_str("User not found: ").concat(d.as_str()),
            ServiceError::ChannelError(d) => String::from_str("Channel error: ").concat(d.as_str()),
            ServiceError::QueueFull(d) => String::from_str("Queue full: ").concat(d.as_str()),
            ServiceError::DatabaseError(d) => String::from_str("Database error: ").concat(d.as_str()),
            ServiceError::RateLimitExceeded(d) => String::from_str("Rate limit exceeded: ").concat(d.as_str()),
            ServiceError::InvalidMessage(d) => String::from_str("Invalid message format: ").concat(d.as_str()),
            ServiceError::ThreadPoolError(d) => String::from_str("Thread pool error: ").concat(d.as_str()),
            ServiceError::DatabasePoolError(d) => String::from_str("Database pool error: ").concat(d.as_str()),
            ServiceError::ConfigError(d) => String::from_str("Config error: ").concat(d.as_str()),
            ServiceError::ServerError(d) => String::from_str("Server error: ").concat(d.as_str()),
            ServiceError::Configuration(d) => String::from_str("Configuration error: ").concat(d.as_str()),
            ServiceError::Internal(d) => String::from_str("Internal error: ").concat(d.as_str()),
            ServiceError::Unauthorized(d) => String::from_str("Unauthorized: ").concat(d.as_str()),
            ServiceError::NotFound(d) => String::from_str("Not found: ").concat(d.as_str()),
        }
    }

    /// The HTTP status that answers a request which ended in this error.
    pub fn status_code(&self) -> (c: u16)
        ensures
            c == self.kind().code(),
    {
        match self {
            ServiceError::InvalidMessage(_) => 400,
            ServiceError::NotFound(_) => 404,
            ServiceError::RateLimitExceeded(_) => 429,
            _ => 500,
        }
    }

    /// Whether the failure is one that the retry policy acts on.
    pub fn is_transient(&self) -> (b: bool)
        ensures
            b == self.kind().transient(),
    {
        match self {
            ServiceError::DatabaseError(_) => true,
            ServiceError::ProcessingError(_) => true,
            _ => false,
        }
    }

    /// An independent copy of the error.
    pub fn duplicate(&self) -> (e: ServiceError)
        ensures
            e == *self,
    {
        match self {
            ServiceError::ProcessingError(d) => ServiceError::ProcessingError(d.clone()),
            ServiceError::UserNotFound(d) => ServiceError::UserNotFound(d.clone()),
            ServiceError::ChannelError(d) => ServiceError::ChannelError(d.clone()),
            ServiceError::QueueFull(d) => ServiceError::QueueFull(d.clone()),
            ServiceError::DatabaseError(d) => ServiceError::DatabaseError(d.clone()),
            ServiceError::RateLimitExceeded(d) => ServiceError::RateLimitExceeded(d.clone()),
            ServiceError::InvalidMessage(d) => ServiceError::InvalidMessage(d.clone()),
            ServiceError::ThreadPoolError(d) => ServiceError::ThreadPoolError(d.clone()),
            ServiceError::DatabasePoolError(d) => ServiceError::DatabasePoolError(d.clone()),
            ServiceError::ConfigError(d) => ServiceError::ConfigError(d.clone()),
            ServiceError::ServerError(d) => ServiceError::ServerError(d.clone()),
            ServiceError::Configuration(d) => ServiceError::Configuration(d.clone()),
            ServiceError::Internal(d) => ServiceError::Internal(d.clone()),
            ServiceError::Unauthorized(d) => ServiceError::Unauthorized(d.clone()),
            ServiceError::NotFound(d) => ServiceError::NotFound(d.clone()),
        }
    }
}

} // verus!
