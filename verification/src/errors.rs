//! Application-level error categories and their stable client-facing codes.

use vstd::prelude::*;
use vstd::string::*;
use crate::text::str_eq;

verus! {

/// Application-level error categories that all backend operations funnel into.
///
/// Source-specific failures (database, storage, hashing, SMTP, ...) become
/// `Internal`, carrying their message for the logs; the other variants are
/// the categories a client needs to tell apart.
#[derive(Debug, Clone)]
pub enum AppError {
    Internal(String),
    Unauthorized,
    Forbidden,
    NotFound(String),
    Validation(String),
}

/// Stable, client-facing error categories, surfaced as `extensions.code` on
/// GraphQL errors and as the HTTP status on the REST endpoint.
#[derive(Debug, Clone, Copy, PartialEq, Eq, Structural)]
pub enum ErrorCode {
    Internal,
    Unauthorized,
    Forbidden,
    NotFound,
    Validation,
}

/// The view of an [`AppError`]: its category and the character content of
/// its message, if it carries one.
pub enum AppErrorView {
    Internal(Seq<char>),
    Unauthorized,
    Forbidden,
    NotFound(Seq<char>),
    Validation(Seq<char>),
}

impl View for AppError {
    type V = AppErrorView;

    open spec fn view(&self) -> AppErrorView {
        match self {
            AppError::Internal(m) => AppErrorView::Internal(m@),
            AppError::Unauthorized => AppErrorView::Unauthorized,
            AppError::Forbidden => AppErrorView::Forbidden,
            AppError::NotFound(m) => AppErrorView::NotFound(m@),
            AppError::Validation(m) => AppErrorView::Validation(m@),
        }
    }
}

impl ErrorCode {
    /// The wire form of the code (SCREAMING_SNAKE_CASE).
    pub open spec fn wire(self) -> Seq<char> {
        match self {
            ErrorCode::Internal => "INTERNAL"@,
            ErrorCode::Unauthorized => "UNAUTHORIZED"@,
            ErrorCode::Forbidden => "FORBIDDEN"@,
            ErrorCode::NotFound => "NOT_FOUND"@,
            ErrorCode::Validation => "VALIDATION"@,
        }
    }

    /// The code whose wire form is `value`, if any.
    pub open spec fn from_wire(value: Seq<char>) -> Option<ErrorCode> {
        if value == "INTERNAL"@ {
            Some(ErrorCode::Internal)
        } else if value == "UNAUTHORIZED"@ {
            Some(ErrorCode::Unauthorized)
        } else if value == "FORBIDDEN"@ {
            Some(ErrorCode::Forbidden)
        } else if value == "NOT_FOUND"@ {
            Some(ErrorCode::NotFound)
        } else if value == "VALIDATION"@ {
            Some(ErrorCode::Validation)
        } else {
            None
        }
    }

    pub fn as_str(self) -> (s: &'static str)
        ensures
            s@ == self.wire(),
    {
        match self {
            ErrorCode::Internal => "INTERNAL",
            ErrorCode::Unauthorized => "UNAUTHORIZED",
            ErrorCode::Forbidden => "FORBIDDEN",
            ErrorCode::NotFound => "NOT_FOUND",
            ErrorCode::Validation => "VALIDATION",
        }
    }

    pub fn parse(value: &str) -> (code: Option<Self>)
        ensures
            code == Self::from_wire(value@),
    {
        if str_eq(value, "INTERNAL") {
            Some(ErrorCode::Internal)
        } else if str_eq(value, "UNAUTHORIZED") {
            Some(ErrorCode::Unauthorized)
        } else if str_eq(value, "FORBIDDEN") {
            Some(ErrorCode::Forbidden)
        } else if str_eq(value, "NOT_FOUND") {
            Some(ErrorCode::NotFound)
        } else if str_eq(value, "VALIDATION") {
            Some(ErrorCode::Validation)
        } else {
            None
        }
    }

    /// The HTTP status that stands for the code.
    pub open spec fn http_status(self) -> u16 {
        match self {
            ErrorCode::Internal => 500,
            ErrorCode::Unauthorized => 401,
            ErrorCode::Forbidden => 403,
            ErrorCode::NotFound => 404,
            ErrorCode::Validation => 400,
        }
    }
}

/// Parsing the wire form of a code gives the code back.
pub proof fn lemma_error_code_wire_roundtrip(code: ErrorCode)
    ensures
        ErrorCode::from_wire(code.wire()) == Some(code),
{
    reveal_strlit("INTERNAL");
    reveal_strlit("UNAUTHORIZED");
    reveal_strlit("FORBIDDEN");
    reveal_strlit("NOT_FOUND");
    reveal_strlit("VALIDATION");
    assert("INTERNAL"@.len() == 8);
    assert("UNAUTHORIZED"@.len() == 12);
    assert("FORBIDDEN"@.len() == 9);
    assert("NOT_FOUND"@.len() == 9);
    assert("VALIDATION"@.len() == 10);
    assert("FORBIDDEN"@[0] != "NOT_FOUND"@[0]);
}

/// A string parses to a code only when it is exactly that code's wire form.
pub proof fn lemma_error_code_parse_exact(value: Seq<char>)
    ensures
        ErrorCode::from_wire(value) matches Some(code) ==> code.wire() == value,
{
}

impl AppErrorView {
    pub open spec fn code(self) -> ErrorCode {
        match self {
            AppErrorView::Internal(_) => ErrorCode::Internal,
            AppErrorView::Unauthorized => ErrorCode::Unauthorized,
            AppErrorView::Forbidden => ErrorCode::Forbidden,
            AppErrorView::NotFound(_) => ErrorCode::NotFound,
            AppErrorView::Validation(_) => ErrorCode::Validation,
        }
    }

    /// What a client is shown: internal details stay out of it.
    pub open spec fn client_message(self) -> Seq<char> {
        match self {
            AppErrorView::Internal(_) => "Internal server error"@,
            AppErrorView::Unauthorized => "Unauthorized"@,
            AppErrorView::Forbidden => "Forbidden"@,
            AppErrorView::NotFound(m) => m,
            AppErrorView::Validation(m) => m,
        }
    }

    /// The full rendering of the error, as written to the logs.
    pub open spec fn display(self) -> Seq<char> {
        match self {
            AppErrorView::Internal(m) => "Internal server error: "@ + m,
            AppErrorView::Unauthorized => "Unauthorized"@,
            AppErrorView::Forbidden => "Forbidden"@,
            AppErrorView::NotFound(m) => "Not found: "@ + m,
            AppErrorView::Validation(m) => "Validation error: "@ + m,
        }
    }

    /// The error that a client-side code and message stand for.
    pub open spec fn from_client_parts(code: Option<Seq<char>>, message: Seq<char>) -> AppErrorView {
        let parsed = match code {
            Some(c) => ErrorCode::from_wire(c),
            None => None,
        };
        match parsed {
            Some(ErrorCode::Unauthorized) => AppErrorView::Unauthorized,
            Some(ErrorCode::Forbidden) => AppErrorView::Forbidden,
            Some(ErrorCode::NotFound) => AppErrorView::NotFound(message),
            Some(ErrorCode::Validation) => AppErrorView::Validation(message),
            _ => AppErrorView::Internal(message),
        }
    }
}

impl AppError {
    /// Stable category code that mirrors the HTTP status / GraphQL extension.
    pub fn code(&self) -> (code: ErrorCode)
        ensures
            code == self@.code(),
    {
        match self {
            AppError::Internal(_) => ErrorCode::Internal,
            AppError::Unauthorized => ErrorCode::Unauthorized,
            AppError::Forbidden => ErrorCode::Forbidden,
            AppError::NotFound(_) => ErrorCode::NotFound,
            AppError::Validation(_) => ErrorCode::Validation,
        }
    }

    /// HTTP status code for the error.
    pub fn status_code(&self) -> (status: u16)
        ensures
            status == self@.code().http_status(),
    {
        match self.code() {
            ErrorCode::Internal => 500,
            ErrorCode::Unauthorized => 401,
            ErrorCode::Forbidden => 403,
            ErrorCode::NotFound => 404,
            ErrorCode::Validation => 400,
        }
    }

    /// Message shown to clients. Internal errors are intentionally opaque.
    pub fn client_message(&self) -> (message: String)
        ensures
            message@ == self@.client_message(),
    {
        match self {
            AppError::Internal(_) => String::from_str("Internal server error"),
            AppError::Unauthorized => String::from_str("Unauthorized"),
            AppError::Forbidden => String::from_str("Forbidden"),
            AppError::NotFound(msg) => msg.clone(),
            AppError::Validation(msg) => msg.clone(),
        }
    }

    /// Full rendering of the error, including internal details.
    pub fn message(&self) -> (message: String)
        ensures
            message@ == self@.display(),
    {
        match self {
            AppError::Internal(m) => String::from_str("Internal server error: ").concat(m.as_str()),
            AppError::Unauthorized => String::from_str("Unauthorized"),
            AppError::Forbidden => String::from_str("Forbidden"),
            AppError::NotFound(m) => String::from_str("Not found: ").concat(m.as_str()),
            AppError::Validation(m) => String::from_str("Validation error: ").concat(m.as_str()),
        }
    }

    /// Rebuilds an error from the code and message a client saw; an unknown or
    /// missing code is treated as internal.
    pub fn from_client_parts(code: Option<&str>, message: String) -> (error: AppError)
        ensures
            error@ == AppErrorView::from_client_parts(
                match code {
                    Some(c) => Some(c@),
                    None => None,
                },
                message@,
            ),
    {
        let parsed = match code {
            Some(c) => ErrorCode::parse(c),
            None => None,
        };
        match parsed {
            Some(ErrorCode::Unauthorized) => AppError::Unauthorized,
            Some(ErrorCode::Forbidden) => AppError::Forbidden,
            Some(ErrorCode::NotFound) => AppError::NotFound(message),
            Some(ErrorCode::Validation) => AppError::Validation(message),
            _ => AppError::Internal(message),
        }
    }
}

/// An error that leaves the server as a code and a client message comes back
/// as the same error, except that an internal error comes back with its
/// details replaced by the opaque client message.
pub proof fn lemma_client_parts_roundtrip(e: AppErrorView)
    ensures
        AppErrorView::from_client_parts(Some(e.code().wire()), e.client_message()) == (match e {
            AppErrorView::Internal(_) => AppErrorView::Internal("Internal server error"@),
            _ => e,
        }),
{
    lemma_error_code_wire_roundtrip(e.code());
}

} // verus!
