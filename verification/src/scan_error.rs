//! The failure type of the scanner sessions: a category, a stable code, the
//! operation that failed, an optional Linux errno and a message.
use vstd::prelude::*;

use crate::text::owned;

verus! {

/// A scanner failure. `kind` and `code` name the category, `operation` names
/// the step that failed.
#[derive(Clone, Debug, PartialEq, Eq)]
pub struct ScannerError {
    pub kind: &'static str,
    pub code: &'static str,
    pub operation: &'static str,
    pub errno: Option<i32>,
    pub message: String,
}

/// The mathematical content of a [`ScannerError`].
pub struct ScannerErrorView {
    pub kind: Seq<char>,
    pub code: Seq<char>,
    pub operation: Seq<char>,
    pub errno: Option<i32>,
    pub message: Seq<char>,
}

impl View for ScannerError {
    type V = ScannerErrorView;

    open spec fn view(&self) -> ScannerErrorView {
        ScannerErrorView {
            kind: self.kind@,
            code: self.code@,
            operation: self.operation@,
            errno: self.errno,
            message: self.message@,
        }
    }
}

/// The categories of scanner failures.
pub enum ScanFailure {
    InvalidPlan,
    Resource,
    Internal,
    Unsupported,
    Lifecycle,
    Context,
}

impl ScanFailure {
    /// The category's kind name.
    pub open spec fn kind(self) -> Seq<char> {
        match self {
            ScanFailure::InvalidPlan => "invalidPlan"@,
            ScanFailure::Resource => "resource"@,
            ScanFailure::Internal => "internal"@,
            ScanFailure::Unsupported => "unsupported"@,
            ScanFailure::Lifecycle => "lifecycle"@,
            ScanFailure::Context => "context"@,
        }
    }

    /// The category's stable code.
    pub open spec fn code(self) -> Seq<char> {
        match self {
            ScanFailure::InvalidPlan => "ERR_INVALID_PLAN"@,
            ScanFailure::Resource => "ERR_RESOURCE_LIMIT"@,
            ScanFailure::Internal => "ERR_INTERNAL"@,
            ScanFailure::Unsupported => "ERR_UNSUPPORTED"@,
            ScanFailure::Lifecycle => "ERR_INVALID_STATE"@,
            ScanFailure::Context => "ERR_ROUTE_CONTEXT"@,
        }
    }
}

/// The view of a failure of a category, without an errno.
pub open spec fn scan_failure(
    category: ScanFailure,
    operation: Seq<char>,
    message: Seq<char>,
) -> ScannerErrorView {
    ScannerErrorView {
        kind: category.kind(),
        code: category.code(),
        operation,
        errno: None,
        message,
    }
}

/// The view of an invalid-plan failure.
pub open spec fn invalid_plan(operation: Seq<char>, message: Seq<char>) -> ScannerErrorView {
    scan_failure(ScanFailure::InvalidPlan, operation, message)
}

/// Whether a result is the scanner failure with the given view.
pub open spec fn scan_fails_with<T>(r: Result<T, ScannerError>, expected: ScannerErrorView) -> bool {
    r matches Err(e) && e@ == expected
}

impl ScannerError {
    /// A plan field that violates a public limit.
    pub fn invalid(operation: &'static str, message: &str) -> (r: Self)
        ensures
            r@ == invalid_plan(operation@, message@),
    {
        ScannerError {
            kind: "invalidPlan",
            code: "ERR_INVALID_PLAN",
            operation,
            errno: None,
            message: owned(message),
        }
    }

    /// A request that would exceed a resource budget.
    pub fn resource(operation: &'static str, message: &str) -> (r: Self)
        ensures
            r@ == scan_failure(ScanFailure::Resource, operation@, message@),
    {
        ScannerError {
            kind: "resource",
            code: "ERR_RESOURCE_LIMIT",
            operation,
            errno: None,
            message: owned(message),
        }
    }

    /// A broken internal expectation.
    pub fn internal(operation: &'static str, message: &str) -> (r: Self)
        ensures
            r@ == scan_failure(ScanFailure::Internal, operation@, message@),
    {
        ScannerError {
            kind: "internal",
            code: "ERR_INTERNAL",
            operation,
            errno: None,
            message: owned(message),
        }
    }

    /// A request this build cannot serve.
    pub fn unsupported(operation: &'static str, message: &str) -> (r: Self)
        ensures
            r@ == scan_failure(ScanFailure::Unsupported, operation@, message@),
    {
        ScannerError {
            kind: "unsupported",
            code: "ERR_UNSUPPORTED",
            operation,
            errno: None,
            message: owned(message),
        }
    }

    /// A control request the session's state does not allow.
    pub fn lifecycle(operation: &'static str, message: &str) -> (r: Self)
        ensures
            r@ == scan_failure(ScanFailure::Lifecycle, operation@, message@),
    {
        ScannerError {
            kind: "lifecycle",
            code: "ERR_INVALID_STATE",
            operation,
            errno: None,
            message: owned(message),
        }
    }

    /// A routing or interface context that cannot serve the request.
    pub fn context(operation: &'static str, message: &str) -> (r: Self)
        ensures
            r@ == scan_failure(ScanFailure::Context, operation@, message@),
    {
        ScannerError {
            kind: "context",
            code: "ERR_ROUTE_CONTEXT",
            operation,
            errno: None,
            message: owned(message),
        }
    }

    /// A Linux system-call failure with its errno.
    pub fn system(operation: &'static str, errno: i32, message: &str) -> (r: Self)
        ensures
            r@ == (ScannerErrorView {
                kind: "system"@,
                code: "ERR_SYSTEM"@,
                operation: operation@,
                errno: Some(errno),
                message: message@,
            }),
    {
        ScannerError {
            kind: "system",
            code: "ERR_SYSTEM",
            operation,
            errno: Some(errno),
            message: owned(message),
        }
    }
}

} // verus!
