use vstd::prelude::*;

use crate::text::{push_str, string_from_chars};

verus! {

/// Machine-readable error code carried by every [`AppError`].
#[derive(Clone, Copy, Debug, PartialEq, Eq, Structural)]
pub enum ErrorCode {
    InvalidInput,
    ValidationError,
    ConfigurationError,
    StorageError,
    WorkspaceError,
    IndexingError,
    EngineError,
}

/// How a caller is expected to react to an [`AppError`].
#[derive(Clone, Copy, Debug, PartialEq, Eq, Structural)]
pub enum ErrorCategory {
    /// The request itself was wrong; retrying the same request fails again.
    UserError,
    /// A transient or content-dependent failure that a retry may cure.
    Recoverable,
    /// A failure of a local subsystem (storage, configuration).
    SystemError,
    /// No model could produce an answer for the request.
    ModelError,
}

/// The single error type of the library: a code, a category and a message.
#[derive(Clone, Debug)]
pub struct AppError {
    pub code: ErrorCode,
    pub category: ErrorCategory,
    pub message: String,
}

impl AppError {
    pub fn new(code: ErrorCode, category: ErrorCategory, message: String) -> (r: AppError)
        ensures
            r.code == code,
            r.category == category,
            r.message@ == message@,
    {
        AppError { code, category, message }
    }

    /// An error caused by the caller's own input.
    pub fn user(message: String) -> (r: AppError)
        ensures
            r.code == ErrorCode::InvalidInput,
            r.category == ErrorCategory::UserError,
            r.message@ == message@,
    {
        AppError { code: ErrorCode::InvalidInput, category: ErrorCategory::UserError, message }
    }

    /// A failure reading or writing persistent storage.
    pub fn storage(message: String) -> (r: AppError)
        ensures
            r.code == ErrorCode::StorageError,
            r.category == ErrorCategory::SystemError,
            r.message@ == message@,
    {
        AppError { code: ErrorCode::StorageError, category: ErrorCategory::SystemError, message }
    }

    /// No engine or model could serve the request.
    pub fn model(message: String) -> (r: AppError)
        ensures
            r.code == ErrorCode::EngineError,
            r.category == ErrorCategory::ModelError,
            r.message@ == message@,
    {
        AppError { code: ErrorCode::EngineError, category: ErrorCategory::ModelError, message }
    }

    /// A configuration value was rejected.
    pub fn configuration(message: String) -> (r: AppError)
        ensures
            r.code == ErrorCode::ConfigurationError,
            r.category == ErrorCategory::UserError,
            r.message@ == message@,
    {
        AppError { code: ErrorCode::ConfigurationError, category: ErrorCategory::UserError, message }
    }

    /// A workspace was missing or in the wrong state.
    pub fn workspace(message: String) -> (r: AppError)
        ensures
            r.code == ErrorCode::WorkspaceError,
            r.category == ErrorCategory::UserError,
            r.message@ == message@,
    {
        AppError { code: ErrorCode::WorkspaceError, category: ErrorCategory::UserError, message }
    }

    /// A per-document indexing failure; the indexing loop moves on.
    pub fn indexing(message: String) -> (r: AppError)
        ensures
            r.code == ErrorCode::IndexingError,
            r.category == ErrorCategory::Recoverable,
            r.message@ == message@,
    {
        AppError { code: ErrorCode::IndexingError, category: ErrorCategory::Recoverable, message }
    }
}

/// `"{field} must not be empty"`.
pub open spec fn empty_field_message(field: Seq<char>) -> Seq<char> {
    field + " must not be empty"@
}

/// Refuses an empty `value` for the input named `field`.
pub fn require_non_empty(field: &str, value: &str) -> (r: Result<(), AppError>)
    ensures
        match r {
            Ok(()) => value@.len() > 0,
            Err(e) => value@.len() == 0 && e.code == ErrorCode::ValidationError && e.category
                == ErrorCategory::UserError && e.message@ == empty_field_message(field@),
        },
{
    if value.is_empty() {
        let mut m: Vec<char> = Vec::new();
        push_str(&mut m, field);
        push_str(&mut m, " must not be empty");
        Err(AppError::new(ErrorCode::ValidationError, ErrorCategory::UserError, string_from_chars(m.as_slice())))
    } else {
        Ok(())
    }
}

} // verus!
