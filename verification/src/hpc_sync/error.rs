//! Typed errors with a stable code, retryability and a suggested fix.
use vstd::prelude::*;

verus! {

/// The result of an operation that can fail with an [`AppError`].
pub type AppResult<T> = Result<T, AppError>;

/// An error that an operation reports.
#[derive(Debug)]
pub struct AppError {
    pub code: &'static str,
    pub message: String,
    pub retryable: bool,
    pub suggested_fix: String,
    pub exit_code: i32,
}

/// What an error says.
#[verifier::ext_equal]
pub struct ErrorView {
    pub code: Seq<char>,
    pub message: Seq<char>,
    pub retryable: bool,
    pub suggested_fix: Seq<char>,
    pub exit_code: i32,
}

impl View for AppError {
    type V = ErrorView;

    open spec fn view(&self) -> ErrorView {
        ErrorView {
            code: self.code@,
            message: self.message@,
            retryable: self.retryable,
            suggested_fix: self.suggested_fix@,
            exit_code: self.exit_code,
        }
    }
}

/// An error with the exit code for usage and configuration errors.
pub open spec fn plain_error(
    code: Seq<char>,
    message: Seq<char>,
    retryable: bool,
    suggested_fix: Seq<char>,
) -> ErrorView {
    ErrorView { code, message, retryable, suggested_fix, exit_code: 2 }
}

/// The error that a result holds, if it holds one.
pub open spec fn fault<T>(r: AppResult<T>) -> Option<ErrorView> {
    match r {
        Ok(_) => None,
        Err(e) => Some(e@),
    }
}

impl AppError {
    /// An error with the exit code for usage and configuration errors.
    pub fn new(code: &'static str, message: String, retryable: bool, suggested_fix: &str) -> (r:
        Self)
        ensures
            r@ == plain_error(code@, message@, retryable, suggested_fix@),
    {
        AppError {
            code,
            message,
            retryable,
            suggested_fix: suggested_fix.to_owned(),
            exit_code: 2,
        }
    }

    /// The same error with another exit code.
    pub fn with_exit_code(self, exit_code: i32) -> (r: Self)
        ensures
            r@ == (ErrorView { exit_code, ..self@ }),
    {
        AppError {
            code: self.code,
            message: self.message,
            retryable: self.retryable,
            suggested_fix: self.suggested_fix,
            exit_code,
        }
    }

    /// What the error says to a reader.
    pub fn text(&self) -> (r: &str)
        ensures
            r@ == self@.message,
    {
        self.message.as_str()
    }
}

} // verus!
