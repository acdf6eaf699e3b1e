//! The errors that the store and the service report, and the shape in which
//! an error is handed to a client.

use vstd::prelude::*;
use vstd::string::StringExecFns;
use crate::ident::{id_text, uuid_text};
use crate::validation::{report_text, ValidationErrors};

verus! {

/// Why the store refused an operation.
#[derive(Debug)]
pub enum StoreError {
    /// The row that an operation was to act on does not exist.
    RecordNotFound(String),
    /// A row with the same identifier is already stored.
    Conflict(String),
    /// Any other failure of the store, with its description.
    Other(String),
}

/// Why the service refused a request.
#[derive(Debug)]
pub enum AppError {
    /// The store failed.
    Database(StoreError),
    /// The memo that the request names does not exist.
    NotFound(String),
    /// The request breaks a rule.
    Validation(String),
    /// Anything that fits none of the other kinds.
    Internal(String),
}

/// An error as a client sees it: the kind, the full message and the status
/// number.
#[derive(Debug)]
pub struct ErrorResponse {
    pub error: String,
    pub message: String,
    pub status: u16,
}

/// The description carried by a refused insertion.
pub open spec fn conflict_text() -> Seq<char> {
    "a memo with this id already exists"@
}

/// The description of a memo that is not there.
pub open spec fn not_found_text(id: u128) -> Seq<char> {
    "Memo with id "@ + uuid_text(id) + " not found"@
}

/// The description of a request that breaks rules.
pub open spec fn validation_text(report: Seq<char>) -> Seq<char> {
    "Validation failed: "@ + report
}

/// The description of a direction that is neither `asc` nor `desc`.
pub open spec fn order_text() -> Seq<char> {
    "Order must be 'asc' or 'desc'"@
}

/// A store error as text: its kind, then its description.
pub open spec fn store_error_text(e: StoreError) -> Seq<char> {
    match e {
        StoreError::RecordNotFound(text) => "RecordNotFound Error: "@ + text@,
        StoreError::Conflict(text) => "Conflict Error: "@ + text@,
        StoreError::Other(text) => text@,
    }
}

/// The status number of an error: 404 for a missing memo, 400 for a broken
/// rule, 500 for the rest.
pub open spec fn status_of(e: AppError) -> u16 {
    match e {
        AppError::Database(_) => 500,
        AppError::NotFound(_) => 404,
        AppError::Validation(_) => 400,
        AppError::Internal(_) => 500,
    }
}

/// The name of an error's kind.
pub open spec fn kind_text(e: AppError) -> Seq<char> {
    match e {
        AppError::Database(_) => "DatabaseError"@,
        AppError::NotFound(_) => "NotFound"@,
        AppError::Validation(_) => "ValidationError"@,
        AppError::Internal(_) => "InternalError"@,
    }
}

/// An error's full message: a prefix for its kind, then its description.
pub open spec fn error_text(e: AppError) -> Seq<char> {
    match e {
        AppError::Database(inner) => "Database error: "@ + store_error_text(inner),
        AppError::NotFound(text) => "Not found: "@ + text@,
        AppError::Validation(text) => "Validation error: "@ + text@,
        AppError::Internal(text) => "Internal error: "@ + text@,
    }
}

impl StoreError {
    /// This error reports an identifier that is already taken.
    pub open spec fn is_conflict(&self) -> bool {
        self matches StoreError::Conflict(text) && text@ == conflict_text()
    }

    /// This error reports that the memo `id` is not stored.
    pub open spec fn is_missing(&self, id: u128) -> bool {
        self matches StoreError::RecordNotFound(text) && text@ == not_found_text(id)
    }

    /// The error for a memo that is not stored.
    pub fn missing(id: u128) -> (e: StoreError)
        ensures
            e.is_missing(id),
    {
        StoreError::RecordNotFound(not_found_message(id))
    }

    /// The error for an identifier that is already taken.
    pub fn conflict() -> (e: StoreError)
        ensures
            e.is_conflict(),
    {
        StoreError::Conflict(String::from_str("a memo with this id already exists"))
    }

    /// This error as text.
    pub fn to_text(&self) -> (text: String)
        ensures
            text@ == store_error_text(*self),
    {
        match self {
            StoreError::RecordNotFound(detail) => {
                let mut text = String::from_str("RecordNotFound Error: ");
                text.append(detail.as_str());
                text
            },
            StoreError::Conflict(detail) => {
                let mut text = String::from_str("Conflict Error: ");
                text.append(detail.as_str());
                text
            },
            StoreError::Other(detail) => detail.clone(),
        }
    }
}

/// Writes the description of a memo that is not there.
pub fn not_found_message(id: u128) -> (text: String)
    ensures
        text@ == not_found_text(id),
{
    let mut text = String::from_str("Memo with id ");
    let digits = id_text(id);
    text.append(digits.as_str());
    text.append(" not found");
    text
}

impl AppError {
    /// This error says that the memo `id` does not exist.
    pub open spec fn is_not_found(&self, id: u128) -> bool {
        self matches AppError::NotFound(text) && text@ == not_found_text(id)
    }

    /// This error says that a request broke the rules of `report`.
    pub open spec fn is_validation(&self, text: Seq<char>) -> bool {
        self matches AppError::Validation(t) && t@ == text
    }

    /// This error passes on the store's refusal of an identifier that is
    /// already taken.
    pub open spec fn is_conflict(&self) -> bool {
        self matches AppError::Database(inner) && inner.is_conflict()
    }

    /// The error for a memo that does not exist.
    pub fn not_found(id: u128) -> (e: AppError)
        ensures
            e.is_not_found(id),
    {
        AppError::NotFound(not_found_message(id))
    }

    /// The error for a request that breaks rules: it names each of them.
    pub fn from_validation_errors(errors: &ValidationErrors) -> (e: AppError)
        ensures
            e.is_validation(validation_text(report_text(errors.violations@))),
    {
        let mut text = String::from_str("Validation failed: ");
        let report = errors.text();
        text.append(report.as_str());
        AppError::Validation(text)
    }

    /// The error for a rule that is reported as plain text.
    pub fn from_message(text: String) -> (e: AppError)
        ensures
            e == AppError::Validation(text),
    {
        AppError::Validation(text)
    }

    /// The error for a failure of the store.
    pub fn from_store_error(inner: StoreError) -> (e: AppError)
        ensures
            e == AppError::Database(inner),
    {
        AppError::Database(inner)
    }

    /// The error for a failed update of the memo `id`: a store that found no
    /// such row means that the memo does not exist; every other failure of the
    /// store is passed on as it is.
    pub fn from_update_error(inner: StoreError, id: u128) -> (e: AppError)
        ensures
            inner is RecordNotFound ==> e.is_not_found(id),
            !(inner is RecordNotFound) ==> e == AppError::Database(inner),
    {
        match inner {
            StoreError::RecordNotFound(_) => AppError::not_found(id),
            other => AppError::Database(other),
        }
    }

    /// The status number to answer this error with.
    pub fn status_code(&self) -> (status: u16)
        ensures
            status == status_of(*self),
    {
        match self {
            AppError::Database(_) => 500,
            AppError::NotFound(_) => 404,
            AppError::Validation(_) => 400,
            AppError::Internal(_) => 500,
        }
    }

    /// The name of this error's kind.
    pub fn error_type(&self) -> (kind: String)
        ensures
            kind@ == kind_text(*self),
    {
        match self {
            AppError::Database(_) => String::from_str("DatabaseError"),
            AppError::NotFound(_) => String::from_str("NotFound"),
            AppError::Validation(_) => String::from_str("ValidationError"),
            AppError::Internal(_) => String::from_str("InternalError"),
        }
    }

    /// This error's full message.
    pub fn to_text(&self) -> (text: String)
        ensures
            text@ == error_text(*self),
    {
        match self {
            AppError::Database(inner) => {
                let mut text = String::from_str("Database error: ");
                let detail = inner.to_text();
                text.append(detail.as_str());
                text
            },
            AppError::NotFound(detail) => {
                let mut text = String::from_str("Not found: ");
                text.append(detail.as_str());
                text
            },
            AppError::Validation(detail) => {
                let mut text = String::from_str("Validation error: ");
                text.append(detail.as_str());
                text
            },
            AppError::Internal(detail) => {
                let mut text = String::from_str("Internal error: ");
                text.append(detail.as_str());
                text
            },
        }
    }

    /// This error as a client sees it.
    pub fn error_response(&self) -> (response: ErrorResponse)
        ensures
            response.error@ == kind_text(*self),
            response.message@ == error_text(*self),
            response.status == status_of(*self),
    {
        ErrorResponse {
            error: self.error_type(),
            message: self.to_text(),
            status: self.status_code(),
        }
    }
}

} // verus!
