//! Error taxonomy of the workflow core.
//!
//! Configuration, authentication, validation, not-found, service-unavailable,
//! workflow (business-rule violations such as an illegal state transition),
//! and record (de)serialization failures are kept distinguishable so that a
//! caller can tell a retryable storage fault from a rule violation.

use vstd::prelude::*;

verus! {

/// Main error type for all workflow operations.
#[derive(Debug, Clone)]
pub enum LennardError {
    /// Bad or missing settings.
    Config(String),
    /// A collaborator rejected the credentials.
    Auth(String),
    /// Malformed input, such as an invalid mailing address.
    Validation(String),
    /// A storage fault reported by the surrounding process.
    IoError(String),
    /// A business-rule violation, such as an illegal state transition or a
    /// missing required field for the next step.
    Workflow(String),
    /// A collaborator was unreachable or returned an error status.
    ServiceUnavailable(String),
    /// A referenced entity is absent.
    NotFound(String),
    /// A processing step could not make sense of collaborator output.
    Processing(String),
    /// A record could not be written out.
    Serialization(String),
    /// A persisted record is corrupt.
    Deserialization(String),
    /// The rendered document was longer than the dispatch service allows.
    PageLimitExceeded { page_count: u32, limit: u32, message: String },
}

impl LennardError {
    /// The human-readable text of this error: a category prefix followed by
    /// the detail message.
    pub open spec fn spec_message(self) -> Seq<char> {
        match self {
            LennardError::Config(s) => "Configuration error: "@ + s@,
            LennardError::Auth(s) => "Authentication failed: "@ + s@,
            LennardError::Validation(s) => "Validation failed: "@ + s@,
            LennardError::IoError(s) => "IO error: "@ + s@,
            LennardError::Workflow(s) => "Workflow error: "@ + s@,
            LennardError::ServiceUnavailable(s) => "Service unavailable: "@ + s@,
            LennardError::NotFound(s) => "Not found: "@ + s@,
            LennardError::Processing(s) => "Processing error: "@ + s@,
            LennardError::Serialization(s) => "Serialization error: "@ + s@,
            LennardError::Deserialization(s) => "Deserialization error: "@ + s@,
            LennardError::PageLimitExceeded { page_count, limit, message } =>
                "Page limit exceeded: "@ + message@,
        }
    }

    /// Render the error as text, for notifications and result lines.
    pub fn message(&self) -> (r: String)
        ensures
            r@ == self.spec_message(),
    {
        match self {
            LennardError::Config(s) => String::from_str("Configuration error: ").concat(s.as_str()),
            LennardError::Auth(s) => String::from_str("Authentication failed: ").concat(s.as_str()),
            LennardError::Validation(s) => String::from_str("Validation failed: ").concat(s.as_str()),
            LennardError::IoError(s) => String::from_str("IO error: ").concat(s.as_str()),
            LennardError::Workflow(s) => String::from_str("Workflow error: ").concat(s.as_str()),
            LennardError::ServiceUnavailable(s) => String::from_str("Service unavailable: ").concat(s.as_str()),
            LennardError::NotFound(s) => String::from_str("Not found: ").concat(s.as_str()),
            LennardError::Processing(s) => String::from_str("Processing error: ").concat(s.as_str()),
            LennardError::Serialization(s) => String::from_str("Serialization error: ").concat(s.as_str()),
            LennardError::Deserialization(s) => String::from_str("Deserialization error: ").concat(s.as_str()),
            LennardError::PageLimitExceeded { page_count: _, limit: _, message } =>
                String::from_str("Page limit exceeded: ").concat(message.as_str()),
        }
    }
}

/// Result type for workflow operations.
pub type Result<T> = core::result::Result<T, LennardError>;

} // verus!
