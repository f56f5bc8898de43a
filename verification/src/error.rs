//! The engine's error type: a kind, a description and an optional cause.

use crate::text::join;
use crate::vm::graphicsengine::vktext::status_words;
use crate::vm::graphicsengine::vktext::write_status_words;
use vstd::prelude::*;
use vstd::string::*;

verus! {

/// What went wrong, by class.
#[derive(Clone, Copy, Debug, PartialEq, Eq, Structural)]
pub enum ErrorKind {
    /// An error that belongs to none of the classes below.
    General,
    /// A call into the device returned a status other than success.
    ApiCall,
    /// A handle that is stale or was never issued was looked up.
    NotFound,
    /// An operation was requested in a state that does not allow it.
    IllegalState,
    /// The shared context was already borrowed in a conflicting way.
    BorrowConflict,
    /// An argument lies outside the range the operation accepts.
    OutOfRange,
}

/// The lower-level failure behind an error.
#[derive(Debug)]
pub enum Cause {
    /// The status code that a device call returned.
    Status(i32),
    /// The text of a failure reported from elsewhere.
    Message(String),
}

/// The mathematical value of a [`Cause`].
pub enum CauseView {
    Status(i32),
    Message(Seq<char>),
}

impl View for Cause {
    type V = CauseView;

    open spec fn view(&self) -> CauseView {
        match self {
            Cause::Status(code) => CauseView::Status(*code),
            Cause::Message(text) => CauseView::Message(text@),
        }
    }
}

impl Cause {
    /// The text that stands for the cause in a rendered error.
    pub open spec fn rendered(cause: CauseView) -> Seq<char> {
        match cause {
            CauseView::Status(code) => status_words(code),
            CauseView::Message(text) => text,
        }
    }

    /// Renders the cause as text.
    pub fn render(&self) -> (text: String)
        ensures
            text@ == Cause::rendered(self@),
    {
        match self {
            Cause::Status(code) => {
                write_status_words(*code)
            },
            Cause::Message(text) => text.clone(),
        }
    }
}

/// The mathematical value of a [`FennecError`].
pub struct ErrorView {
    pub kind: ErrorKind,
    pub description: Seq<char>,
    pub cause: Option<CauseView>,
}

/// An error raised by the engine.
#[derive(Debug)]
pub struct FennecError {
    kind: ErrorKind,
    description: String,
    cause: Option<Cause>,
}

impl View for FennecError {
    type V = ErrorView;

    closed spec fn view(&self) -> ErrorView {
        ErrorView {
            kind: self.kind,
            description: self.description@,
            cause: match self.cause {
                Some(cause) => Some(cause@),
                None => None,
            },
        }
    }
}

/// The description given to an error that wraps a device status.
pub open spec fn status_description() -> Seq<char> {
    "Vulkan error occurred"@
}

/// The description given to an error raised by a shared borrow of the
/// context that conflicts with the exclusive one.
pub open spec fn borrow_description() -> Seq<char> {
    "Could not borrow from cell"@
}

/// The description given to an error raised by an exclusive borrow of the
/// context that conflicts with a borrow that is held.
pub open spec fn borrow_mut_description() -> Seq<char> {
    "Could not borrow mutibly from cell"@
}

/// The value of the error for a shared borrow of the context while the
/// exclusive borrow is held.
pub open spec fn borrow_conflict_error() -> ErrorView {
    ErrorView {
        kind: ErrorKind::BorrowConflict,
        description: borrow_description(),
        cause: Some(CauseView::Message("already mutably borrowed"@)),
    }
}

/// The value of the error for an exclusive borrow of the context while a
/// borrow is held.
pub open spec fn borrow_mut_conflict_error() -> ErrorView {
    ErrorView {
        kind: ErrorKind::BorrowConflict,
        description: borrow_mut_description(),
        cause: Some(CauseView::Message("already borrowed"@)),
    }
}

/// The text of an error: the description alone where there is no cause or
/// the description is empty, otherwise the description, a colon and the
/// cause.
pub open spec fn rendered_error(error: ErrorView) -> Seq<char> {
    match error.cause {
        Some(cause) => if error.description.len() > 0 {
            error.description + ": "@ + Cause::rendered(cause)
        } else {
            error.description
        },
        None => error.description,
    }
}

/// The value of an error of a given kind that has a description and no
/// cause.
pub open spec fn plain_error(kind: ErrorKind, description: Seq<char>) -> ErrorView {
    ErrorView { kind, description, cause: None }
}

/// The value of the error for an operation requested in a state that does
/// not allow it.
pub open spec fn illegal_state(description: Seq<char>) -> ErrorView {
    plain_error(ErrorKind::IllegalState, description)
}

/// The value of the error for an argument outside the accepted range.
pub open spec fn out_of_range(description: Seq<char>) -> ErrorView {
    plain_error(ErrorKind::OutOfRange, description)
}

/// The value of the error for a handle that points at nothing.
pub open spec fn not_found(description: Seq<char>) -> ErrorView {
    plain_error(ErrorKind::NotFound, description)
}

impl FennecError {
    /// An error of the general kind with a description and no cause.
    pub fn new(description: &str) -> (error: Self)
        ensures
            error@ == (ErrorView {
                kind: ErrorKind::General,
                description: description@,
                cause: None,
            }),
    {
        Self { kind: ErrorKind::General, description: String::from_str(description), cause: None }
    }

    /// An error of a given kind with a description and no cause.
    pub fn with_kind(kind: ErrorKind, description: &str) -> (error: Self)
        ensures
            error@ == (ErrorView { kind, description: description@, cause: None }),
    {
        Self { kind, description: String::from_str(description), cause: None }
    }

    /// An error that wraps a failure from outside the engine. Its kind is
    /// `ApiCall` where the cause is a device status and `General` otherwise.
    pub fn from_error(description: &str, cause: Cause) -> (error: Self)
        ensures
            error@ == (ErrorView {
                kind: if cause@ is Status {
                    ErrorKind::ApiCall
                } else {
                    ErrorKind::General
                },
                description: description@,
                cause: Some(cause@),
            }),
    {
        let kind = match &cause {
            Cause::Status(_) => ErrorKind::ApiCall,
            Cause::Message(_) => ErrorKind::General,
        };
        Self { kind, description: String::from_str(description), cause: Some(cause) }
    }

    /// The error for a device call that returned `status`.
    pub fn from_status(status: i32) -> (error: Self)
        ensures
            error@ == (ErrorView {
                kind: ErrorKind::ApiCall,
                description: status_description(),
                cause: Some(CauseView::Status(status)),
            }),
    {
        Self::from_error("Vulkan error occurred", Cause::Status(status))
    }

    /// The error for a shared borrow of the context while the exclusive
    /// borrow is held.
    pub fn borrow_conflict() -> (error: Self)
        ensures
            error@ == borrow_conflict_error(),
    {
        Self {
            kind: ErrorKind::BorrowConflict,
            description: String::from_str("Could not borrow from cell"),
            cause: Some(Cause::Message(String::from_str("already mutably borrowed"))),
        }
    }

    /// The error for an exclusive borrow of the context while a borrow is
    /// held.
    pub fn borrow_mut_conflict() -> (error: Self)
        ensures
            error@ == borrow_mut_conflict_error(),
    {
        Self {
            kind: ErrorKind::BorrowConflict,
            description: String::from_str("Could not borrow mutibly from cell"),
            cause: Some(Cause::Message(String::from_str("already borrowed"))),
        }
    }

    /// The class of the error.
    pub fn kind(&self) -> (kind: ErrorKind)
        ensures
            kind == self@.kind,
    {
        self.kind
    }

    /// The description of the error.
    pub fn description(&self) -> (description: &str)
        ensures
            description@ == self@.description,
    {
        self.description.as_str()
    }

    /// The cause of the error, if there is one.
    pub fn cause(&self) -> (cause: &Option<Cause>)
        ensures
            match *cause {
                Some(c) => self@.cause == Some(c@),
                None => self@.cause is None,
            },
    {
        &self.cause
    }

    /// The error as one line of text.
    pub fn message(&self) -> (text: String)
        ensures
            text@ == rendered_error(self@),
    {
        match &self.cause {
            Some(cause) => {
                if self.description.as_str().unicode_len() > 0 {
                    let head = join(self.description.as_str(), ": ");
                    let tail = cause.render();
                    let text = join(head.as_str(), tail.as_str());
                    assert(text@ =~= self@.description + ": "@ + Cause::rendered(cause@));
                    text
                } else {
                    self.description.clone()
                }
            },
            None => self.description.clone(),
        }
    }
}

} // verus!
