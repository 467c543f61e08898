//! The fatal conditions a derivation can hit, and their diagnostic texts.
//!
//! Every violation aborts the whole derivation target: the caller is
//! expected to surface the message and stop.

use vstd::prelude::*;
use vstd::string::StringExecFns;

verus! {

/// A fatal derivation error.  The payload is the marker or annotation name
/// the diagnostic speaks of.
#[derive(Debug, PartialEq)]
pub enum DeriveError {
    /// The record is not a plain field-braced structure; carries the
    /// derivation marker name (`getters` or `setters`).
    NotBracedStruct(String),
    /// More than one matching configuration block on one field; carries the
    /// annotation name.
    DuplicateAttr(String),
    /// A nested entry that is neither a bare word nor a key/value pair;
    /// carries the annotation name.
    MalformedAttr(String),
    /// A non-boolean literal where a boolean was required.
    ExpectedBool,
}

/// Mathematical model of a [`DeriveError`].
pub enum ErrorView {
    NotBracedStruct(Seq<char>),
    DuplicateAttr(Seq<char>),
    MalformedAttr(Seq<char>),
    ExpectedBool,
}

impl View for DeriveError {
    type V = ErrorView;

    open spec fn view(&self) -> ErrorView {
        match self {
            DeriveError::NotBracedStruct(n) => ErrorView::NotBracedStruct(n@),
            DeriveError::DuplicateAttr(n) => ErrorView::DuplicateAttr(n@),
            DeriveError::MalformedAttr(n) => ErrorView::MalformedAttr(n@),
            DeriveError::ExpectedBool => ErrorView::ExpectedBool,
        }
    }
}

/// The diagnostic text of an error.
pub open spec fn spec_message(e: ErrorView) -> Seq<char> {
    match e {
        ErrorView::NotBracedStruct(n) => "#[derive("@ + n
            + ")] can only be used with braced structs"@,
        ErrorView::DuplicateAttr(n) => "Expected at most one "@ + n + " attribute"@,
        ErrorView::MalformedAttr(n) => "Malformed "@ + n + " attribute"@,
        ErrorView::ExpectedBool => "Expected bool"@,
    }
}

impl DeriveError {
    /// The diagnostic text to abort with.
    pub fn message(&self) -> (r: String)
        ensures
            r@ == spec_message(self@),
    {
        match self {
            DeriveError::NotBracedStruct(n) => {
                let mut s = String::from_str("#[derive(");
                s.append(n.as_str());
                s.append(")] can only be used with braced structs");
                s
            },
            DeriveError::DuplicateAttr(n) => {
                let mut s = String::from_str("Expected at most one ");
                s.append(n.as_str());
                s.append(" attribute");
                s
            },
            DeriveError::MalformedAttr(n) => {
                let mut s = String::from_str("Malformed ");
                s.append(n.as_str());
                s.append(" attribute");
                s
            },
            DeriveError::ExpectedBool => String::from_str("Expected bool"),
        }
    }
}

} // verus!
