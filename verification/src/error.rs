//! The ways in which generation fails. Every failure is final: nothing is
//! retried and no partial output is produced.

use crate::document::FormatIssue;
use crate::text::{decimal, push_decimal};
use vstd::prelude::*;
use vstd::string::StringExecFns;

verus! {

/// Where in a function a type identifier stands.
#[derive(Clone, Copy, Debug, PartialEq, Eq, Structural)]
pub enum TypePosition {
    /// The function's result.
    Result,
    /// The parameter at this position, counted from zero.
    Parameter(usize),
}

#[derive(Clone, Debug, PartialEq, Eq)]
pub enum AbiError {
    /// The input file could not be read. `path` is the path that was
    /// opened, after resolution; `cause` is the system's message.
    Io { path: String, cause: String },
    /// The input file is not an ABI document.
    Format { path: String, issue: FormatIssue },
    /// A type definition could not be translated.
    Schema { type_id: u32, reason: String },
    /// A function refers to a type identifier that no type definition has.
    UnresolvedType { function: String, position: TypePosition, type_id: u32 },
}

pub enum AbiErrorView {
    Io { path: Seq<char>, cause: Seq<char> },
    Format { path: Seq<char>, issue: FormatIssue },
    Schema { type_id: u32, reason: Seq<char> },
    UnresolvedType { function: Seq<char>, position: TypePosition, type_id: u32 },
}

impl View for AbiError {
    type V = AbiErrorView;

    open spec fn view(&self) -> AbiErrorView {
        match *self {
            AbiError::Io { path, cause } => AbiErrorView::Io { path: path@, cause: cause@ },
            AbiError::Format { path, issue } => AbiErrorView::Format { path: path@, issue },
            AbiError::Schema { type_id, reason } => AbiErrorView::Schema {
                type_id,
                reason: reason@,
            },
            AbiError::UnresolvedType { function, position, type_id } => {
                AbiErrorView::UnresolvedType { function: function@, position, type_id }
            },
        }
    }
}

/// How a position is called in a message.
pub open spec fn position_text(position: TypePosition) -> Seq<char> {
    match position {
        TypePosition::Result => "result"@,
        TypePosition::Parameter(i) => "argument "@ + decimal(i as nat),
    }
}

/// The message of an error.
pub open spec fn message_of(error: AbiErrorView) -> Seq<char> {
    match error {
        AbiErrorView::Io { path, cause } => "Unable to read `"@ + path + "`: "@ + cause,
        AbiErrorView::Format { path, issue } => match issue {
            FormatIssue::InvalidJson => "Cannot parse `"@ + path + "` as JSON"@,
            FormatIssue::UnexpectedShape => "Invalid ABI document in `"@ + path + "`"@,
        },
        AbiErrorView::Schema { type_id, reason } => "Cannot translate type "@ + decimal(
            type_id as nat,
        ) + ": "@ + reason,
        AbiErrorView::UnresolvedType { function, position, type_id } => "Unexpected "@
            + position_text(position) + " type "@ + decimal(type_id as nat) + " in function `"@
            + function + "`"@,
    }
}

impl AbiError {
    /// The message to show for this error. An `Io` or `Format` error names
    /// the path of the file; a `Schema` or `UnresolvedType` error names the
    /// type identifier.
    pub fn message(&self) -> (text: String)
        ensures
            text@ == message_of(self@),
    {
        match self {
            AbiError::Io { path, cause } => {
                let mut text = String::from_str("Unable to read `");
                text.append(path.as_str());
                text.append("`: ");
                text.append(cause.as_str());
                text
            },
            AbiError::Format { path, issue } => match issue {
                FormatIssue::InvalidJson => {
                    let mut text = String::from_str("Cannot parse `");
                    text.append(path.as_str());
                    text.append("` as JSON");
                    text
                },
                FormatIssue::UnexpectedShape => {
                    let mut text = String::from_str("Invalid ABI document in `");
                    text.append(path.as_str());
                    text.append("`");
                    text
                },
            },
            AbiError::Schema { type_id, reason } => {
                let mut text = String::from_str("Cannot translate type ");
                push_decimal(&mut text, *type_id as u64);
                text.append(": ");
                text.append(reason.as_str());
                text
            },
            AbiError::UnresolvedType { function, position, type_id } => {
                let mut text = String::from_str("Unexpected ");
                match position {
                    TypePosition::Result => {
                        text.append("result");
                    },
                    TypePosition::Parameter(i) => {
                        text.append("argument ");
                        push_decimal(&mut text, *i as u64);
                    },
                }
                assert(text@ =~= "Unexpected "@ + position_text(*position));
                text.append(" type ");
                push_decimal(&mut text, *type_id as u64);
                text.append(" in function `");
                text.append(function.as_str());
                text.append("`");
                text
            },
        }
    }
}

} // verus!
