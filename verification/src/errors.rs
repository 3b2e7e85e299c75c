//! Errors raised while a pipeline is built.
use vstd::prelude::*;

verus! {

/// Why an operator could not be built.
#[derive(Debug, PartialEq, Eq)]
pub enum Error {
    /// No operator kind of this name exists in this category.
    UnknownOp { category: String, name: String },
    /// The configuration handed to operator kind `op` lacks `field`, or holds
    /// something of the wrong shape there.
    ConfigError { op: String, field: String },
}

/// An [`Error`] with its strings as sequences of characters.
pub enum ErrorView {
    UnknownOp { category: Seq<char>, name: Seq<char> },
    ConfigError { op: Seq<char>, field: Seq<char> },
}

impl View for Error {
    type V = ErrorView;

    open spec fn view(&self) -> ErrorView {
        match self {
            Error::UnknownOp { category, name } => ErrorView::UnknownOp {
                category: category@,
                name: name@,
            },
            Error::ConfigError { op, field } => ErrorView::ConfigError { op: op@, field: field@ },
        }
    }
}

impl Error {
    /// The error for a kind name that no factory of `category` knows.
    pub fn unknown_op(category: &str, name: &str) -> (e: Error)
        ensures
            e@ == (ErrorView::UnknownOp { category: category@, name: name@ }),
    {
        Error::UnknownOp { category: category.to_owned(), name: name.to_owned() }
    }

    /// The error for a configuration of operator kind `op` whose `field` is
    /// missing or malformed.
    pub fn config(op: &str, field: &str) -> (e: Error)
        ensures
            e@ == (ErrorView::ConfigError { op: op@, field: field@ }),
    {
        Error::ConfigError { op: op.to_owned(), field: field.to_owned() }
    }
}

} // verus!
