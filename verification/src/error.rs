//! The failures of the engine, and the errors that the operations of a
//! collection answer with.
use crate::text::{begins_with, starts_with};
use vstd::prelude::*;
use vstd::string::*;

verus! {

/// A failure as the engine reports it.
#[derive(Clone, Debug, PartialEq, Eq)]
pub enum Fault {
    /// The engine refused or failed a statement: its extended result code
    /// and its message, if it gave one.
    Rejected { code: i32, message: Option<String> },
    /// A query that should give a row gave none.
    NoRows,
    /// The value of the row cannot be handed over (text that is not UTF-8).
    Unreadable,
    /// Any other failure, in words.
    Other { description: String },
}

/// What a [`Fault`] stands for.
pub ghost enum FaultView {
    Rejected { code: i32, message: Option<Seq<char>> },
    NoRows,
    Unreadable,
    Other { description: Seq<char> },
}

impl View for Fault {
    type V = FaultView;

    open spec fn view(&self) -> FaultView {
        match self {
            Fault::Rejected { code, message } => FaultView::Rejected {
                code: *code,
                message: match message {
                    Some(m) => Some(m@),
                    None => None,
                },
            },
            Fault::NoRows => FaultView::NoRows,
            Fault::Unreadable => FaultView::Unreadable,
            Fault::Other { description } => FaultView::Other { description: description@ },
        }
    }
}

/// The errors of a collection.
#[derive(Clone, Debug, PartialEq, Eq)]
pub enum StoreError {
    /// The engine did not accept the statement that creates the table.
    SchemaError { detail: String },
    /// The table of the collection does not exist.
    NotInitialized,
    /// The key is already there.
    ConstraintViolation,
    /// No row has the key.
    NotFound,
    /// The stored value cannot be read as the kind asked for.
    TypeMismatch,
    /// Any other failure of the engine or the connection.
    EngineFailure { detail: String },
}

/// What a [`StoreError`] stands for.
pub ghost enum StoreErrorView {
    SchemaError { detail: Seq<char> },
    NotInitialized,
    ConstraintViolation,
    NotFound,
    TypeMismatch,
    EngineFailure { detail: Seq<char> },
}

impl View for StoreError {
    type V = StoreErrorView;

    open spec fn view(&self) -> StoreErrorView {
        match self {
            StoreError::SchemaError { detail } => StoreErrorView::SchemaError { detail: detail@ },
            StoreError::NotInitialized => StoreErrorView::NotInitialized,
            StoreError::ConstraintViolation => StoreErrorView::ConstraintViolation,
            StoreError::NotFound => StoreErrorView::NotFound,
            StoreError::TypeMismatch => StoreErrorView::TypeMismatch,
            StoreError::EngineFailure { detail } => StoreErrorView::EngineFailure {
                detail: detail@,
            },
        }
    }
}

/// The operations that reach the engine.
#[derive(Clone, Copy, Debug, PartialEq, Eq, Structural)]
pub enum Operation {
    Create,
    Write,
    Read,
    Remove,
}

/// The primary result code of an extended result code: its low byte.
pub open spec fn primary_code(code: i32) -> i32 {
    code & 0xff
}

/// Whether an extended result code belongs to the engine's class of
/// constraint failures, whose primary code is 19.
pub open spec fn is_constraint_code(code: i32) -> bool {
    primary_code(code) == 19
}

/// Whether an extended result code belongs to the engine's class of general
/// errors, whose primary code is 1. A statement that cannot be prepared,
/// for a table that is not there or for any other reason, fails with one.
pub open spec fn is_general_code(code: i32) -> bool {
    primary_code(code) == 1
}

/// The words that come with a failure.
pub open spec fn fault_detail(f: FaultView) -> Seq<char> {
    match f {
        FaultView::Rejected { message: Some(m), .. } => m,
        FaultView::Rejected { message: None, .. } => "the engine gave no message"@,
        FaultView::NoRows => "the query returned no rows"@,
        FaultView::Unreadable => "the stored value cannot be read"@,
        FaultView::Other { description } => description,
    }
}

/// Whether a failure says that the table is not there: a general error of
/// the engine whose message begins with `no such table`, or another failure
/// whose description begins so.
pub open spec fn names_missing_table(f: FaultView) -> bool {
    match f {
        FaultView::Rejected { code, message: Some(m) } => is_general_code(code) && begins_with(
            m,
            "no such table"@,
        ),
        FaultView::Other { description } => begins_with(description, "no such table"@),
        _ => false,
    }
}

/// The error that a failure becomes under an operation.
///
/// Creating answers every failure with `SchemaError`. The others answer a
/// missing table with `NotInitialized`; then `set` a constraint failure with
/// `ConstraintViolation`, `get` a missing row with `NotFound` and a value
/// that cannot be handed over with `TypeMismatch`; all the rest is an
/// `EngineFailure`.
pub open spec fn classified(op: Operation, f: FaultView) -> StoreErrorView {
    if op == Operation::Create {
        StoreErrorView::SchemaError { detail: fault_detail(f) }
    } else if names_missing_table(f) {
        StoreErrorView::NotInitialized
    } else if op == Operation::Write && (f matches FaultView::Rejected { code, .. }
        && is_constraint_code(code)) {
        StoreErrorView::ConstraintViolation
    } else if op == Operation::Read && f is NoRows {
        StoreErrorView::NotFound
    } else if op == Operation::Read && f is Unreadable {
        StoreErrorView::TypeMismatch
    } else {
        StoreErrorView::EngineFailure { detail: fault_detail(f) }
    }
}

/// Whether an error can come of an operation at all.
pub open spec fn may_come_of(op: Operation, e: StoreErrorView) -> bool {
    match e {
        StoreErrorView::SchemaError { .. } => op == Operation::Create,
        StoreErrorView::NotInitialized => op != Operation::Create,
        StoreErrorView::ConstraintViolation => op == Operation::Write,
        StoreErrorView::NotFound => op == Operation::Read,
        StoreErrorView::TypeMismatch => op == Operation::Read,
        StoreErrorView::EngineFailure { .. } => op != Operation::Create,
    }
}

impl Fault {
    /// Tells whether this failure says that the table is not there.
    pub fn is_missing_table(&self) -> (r: bool)
        ensures
            r == names_missing_table(self@),
    {
        match self {
            Fault::Rejected { code, message: Some(m) } => general_code(*code) && starts_with(
                m.as_str(),
                "no such table",
            ),
            Fault::Other { description } => starts_with(description.as_str(), "no such table"),
            _ => false,
        }
    }

    /// The words that come with this failure.
    pub fn into_detail(self) -> (detail: String)
        ensures
            detail@ == fault_detail(self@),
    {
        match self {
            Fault::Rejected { message: Some(m), .. } => m,
            Fault::Rejected { message: None, .. } => String::from_str("the engine gave no message"),
            Fault::NoRows => String::from_str("the query returned no rows"),
            Fault::Unreadable => String::from_str("the stored value cannot be read"),
            Fault::Other { description } => description,
        }
    }
}

/// Tells whether an extended result code is a constraint failure.
pub fn constraint_code(code: i32) -> (r: bool)
    ensures
        r == is_constraint_code(code),
{
    code & 0xff == 19
}

/// Tells whether an extended result code is a general error.
pub fn general_code(code: i32) -> (r: bool)
    ensures
        r == is_general_code(code),
{
    code & 0xff == 1
}

/// Turns a failure of the engine into the error of the operation that met it.
pub fn classify(op: Operation, fault: Fault) -> (e: StoreError)
    ensures
        e@ == classified(op, fault@),
        may_come_of(op, e@),
{
    if op == Operation::Create {
        return StoreError::SchemaError { detail: fault.into_detail() };
    }
    if fault.is_missing_table() {
        return StoreError::NotInitialized;
    }
    match op {
        Operation::Write => {
            if let Fault::Rejected { code, .. } = &fault {
                if constraint_code(*code) {
                    return StoreError::ConstraintViolation;
                }
            }
        },
        Operation::Read => {
            if let Fault::NoRows = &fault {
                return StoreError::NotFound;
            }
            if let Fault::Unreadable = &fault {
                return StoreError::TypeMismatch;
            }
        },
        _ => {},
    }
    StoreError::EngineFailure { detail: fault.into_detail() }
}

/// An error in words.
pub open spec fn error_text(e: StoreErrorView) -> Seq<char> {
    match e {
        StoreErrorView::SchemaError { detail } => "the table could not be created: "@ + detail,
        StoreErrorView::NotInitialized => "the table of the collection does not exist"@,
        StoreErrorView::ConstraintViolation => "the key is already set"@,
        StoreErrorView::NotFound => "the key is not set"@,
        StoreErrorView::TypeMismatch => "the stored value is not of the kind asked for"@,
        StoreErrorView::EngineFailure { detail } => "the engine failed: "@ + detail,
    }
}

impl StoreError {
    /// This error in words, with the engine's words where it carries them.
    pub fn to_text(&self) -> (text: String)
        ensures
            text@ == error_text(self@),
    {
        match self {
            StoreError::SchemaError { detail } => {
                let mut text = String::from_str("the table could not be created: ");
                text.append(detail.as_str());
                text
            },
            StoreError::NotInitialized => String::from_str(
                "the table of the collection does not exist",
            ),
            StoreError::ConstraintViolation => String::from_str("the key is already set"),
            StoreError::NotFound => String::from_str("the key is not set"),
            StoreError::TypeMismatch => String::from_str(
                "the stored value is not of the kind asked for",
            ),
            StoreError::EngineFailure { detail } => {
                let mut text = String::from_str("the engine failed: ");
                text.append(detail.as_str());
                text
            },
        }
    }
}

} // verus!
