//! Error types for document operations.
use crate::decimal::{decimal, push_decimal};
use crate::ext::io_error_text;
use vstd::prelude::*;

verus! {

/// Everything that can go wrong handling a document.
///
/// Variants are deliberately specific: a message like "this file is damaged"
/// is useless for diagnosis.
#[derive(Debug)]
#[non_exhaustive]
pub enum Error {
    /// The file is not a PDF, or its header is unrecoverably damaged.
    NotAPdf {
        /// What specifically failed to parse.
        reason: String,
    },
    /// The document is encrypted and no valid password was supplied.
    PasswordRequired,
    /// A page index was outside the document.
    PageOutOfRange {
        /// The page that was asked for.
        requested: usize,
        /// How many pages the document actually has.
        total: usize,
    },
    /// A structural limit was exceeded.
    ///
    /// A defense against decompression bombs and pathological object graphs,
    /// not a bug.
    LimitExceeded {
        /// Which limit was hit.
        limit: &'static str,
        /// The value the document asked for.
        value: u64,
        /// The configured maximum.
        maximum: u64,
    },
    /// The operation is understood but deliberately unsupported.
    Unsupported(String),
    /// Underlying I/O failure.
    Io(std::io::Error),
}

/// Convenient result alias for this crate.
pub type Result<T> = std::result::Result<T, Error>;

impl Error {
    /// The message for every variant but [`Error::Io`], whose text comes from
    /// the operating system.
    pub open spec fn spec_message(&self) -> Seq<char> {
        match self {
            Error::NotAPdf { reason } => "not a valid PDF document: "@ + reason@,
            Error::PasswordRequired => "document is encrypted and requires a password"@,
            Error::PageOutOfRange { requested, total } => "page "@ + decimal(*requested as nat)
                + " is out of range (document has "@ + decimal(*total as nat) + " pages)"@,
            Error::LimitExceeded { limit, value, maximum } => "document exceeds the "@ + limit@
                + " safety limit ("@ + decimal(*value as nat) + " > "@ + decimal(*maximum as nat)
                + ")"@,
            Error::Unsupported(what) => "unsupported: "@ + what@,
            Error::Io(_) => "i/o error: "@,
        }
    }

    /// A human-readable description of the error.
    pub fn message(&self) -> (text: String)
        ensures
            !(self is Io) ==> text@ == self.spec_message(),
            self is Io ==> exists|detail: Seq<char>| text@ == self.spec_message() + detail,
    {
        match self {
            Error::NotAPdf { reason } => {
                let mut text = String::from_str("not a valid PDF document: ");
                text.append(reason.as_str());
                text
            },
            Error::PasswordRequired => String::from_str(
                "document is encrypted and requires a password",
            ),
            Error::PageOutOfRange { requested, total } => {
                let mut text = String::from_str("page ");
                push_decimal(&mut text, *requested as u128);
                text.append(" is out of range (document has ");
                push_decimal(&mut text, *total as u128);
                text.append(" pages)");
                text
            },
            Error::LimitExceeded { limit, value, maximum } => {
                let mut text = String::from_str("document exceeds the ");
                text.append(limit);
                text.append(" safety limit (");
                push_decimal(&mut text, *value as u128);
                text.append(" > ");
                push_decimal(&mut text, *maximum as u128);
                text.append(")");
                text
            },
            Error::Unsupported(what) => {
                let mut text = String::from_str("unsupported: ");
                text.append(what.as_str());
                text
            },
            Error::Io(error) => {
                let mut text = String::from_str("i/o error: ");
                let detail = io_error_text(error);
                text.append(detail.as_str());
                assert(text@ =~= self.spec_message() + detail@);
                text
            },
        }
    }
}

} // verus!
