//! The board-level error type: an error kind with an optional textual
//! cause.

use vstd::prelude::*;
use vstd::string::StringExecFns;

verus! {

/// Error kind enum.
#[derive(Clone, Copy, Debug, PartialEq, Eq, Structural)]
pub enum Kind {
    /// Default crate error.
    InternalError,
}

/// A board error: a [`Kind`] and an optional description of the underlying
/// cause.
#[derive(Debug)]
pub struct BoardError {
    kind: Kind,
    cause: Option<String>,
}

impl BoardError {
    /// The error's kind.
    pub closed spec fn spec_kind(&self) -> Kind {
        self.kind
    }

    /// The attached cause description, if any.
    pub closed spec fn spec_cause(&self) -> Option<Seq<char>> {
        match self.cause {
            Some(c) => Some(c@),
            None => None,
        }
    }

    /// Create an instance of [`BoardError`] specifying a [`Kind`] but
    /// without a cause.
    pub fn with_kind(kind: Kind) -> (e: Self)
        ensures
            e.spec_kind() == kind,
            e.spec_cause() is None,
    {
        BoardError { kind, cause: None }
    }

    /// Attach a cause to this error, keeping its kind.
    pub fn with(self, cause: String) -> (e: Self)
        ensures
            e.spec_kind() == self.spec_kind(),
            e.spec_cause() == Some(cause@),
    {
        BoardError { kind: self.kind, cause: Some(cause) }
    }

    /// Create a new [`Kind::InternalError`] error with the given cause.
    pub fn new(cause: String) -> (e: Self)
        ensures
            e.spec_kind() == Kind::InternalError,
            e.spec_cause() == Some(cause@),
    {
        BoardError::with_kind(Kind::InternalError).with(cause)
    }

    /// The attached cause, if any.
    pub fn cause(&self) -> (c: &Option<String>)
        ensures
            c is Some <==> self.spec_cause() is Some,
            c matches Some(s) ==> self.spec_cause() == Some(s@),
    {
        &self.cause
    }

    /// The error's kind.
    pub fn kind(&self) -> (k: Kind)
        ensures
            k == self.spec_kind(),
    {
        self.kind
    }

    /// Renders the error as text: the cause behind a fixed heading, or a
    /// fixed unknown-error line when no cause was attached.
    pub fn message(&self) -> (m: String)
        ensures
            self.spec_cause() matches Some(c) ==> m@ == "BoardError: "@ + c,
            self.spec_cause() is None ==> m@ == "BoardError: Unknown error"@,
    {
        match &self.cause {
            Some(c) => {
                let mut m = String::from_str("BoardError: ");
                m.append(c.as_str());
                m
            },
            None => String::from_str("BoardError: Unknown error"),
        }
    }
}

impl Default for BoardError {
    /// A [`Kind::InternalError`] error without a cause.
    fn default() -> (e: Self)
        ensures
            e.spec_kind() == Kind::InternalError,
            e.spec_cause() is None,
    {
        BoardError::with_kind(Kind::InternalError)
    }
}

} // verus!
