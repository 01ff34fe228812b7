//! The error model of the engine boundary: what a failure looks like to the
//! caller, and how a status reported by the engine becomes one.

use crate::marshal::{bytes_of, decode_text};
use vstd::prelude::*;
use vstd::utf8::{decode_utf8, valid_utf8};

verus! {

/// `std::io::ErrorKind`, carried through as it is: nothing is claimed of what
/// a kind holds.
#[verifier::external_type_specification]
#[verifier::external_body]
pub struct ExErrorKind(std::io::ErrorKind);

/// A failure at the engine boundary.
#[derive(Debug, PartialEq)]
pub enum Error {
    /// The engine reported a failure and described it.
    VAALError(String),
    /// A value could not cross the boundary, or the engine had nothing to give.
    WrapperError(String),
    /// The engine reported a failure whose description could not be read.
    Null(),
    /// The operating system reported a failure.
    IoError(std::io::ErrorKind),
}

/// An [`Error`] with its texts as character sequences.
pub enum ErrorView {
    Native(Seq<char>),
    Wrapper(Seq<char>),
    Unreadable,
    Io(std::io::ErrorKind),
}

impl View for Error {
    type V = ErrorView;

    open spec fn view(&self) -> ErrorView {
        match self {
            Error::VAALError(text) => ErrorView::Native(text@),
            Error::WrapperError(text) => ErrorView::Wrapper(text@),
            Error::Null() => ErrorView::Unreadable,
            Error::IoError(kind) => ErrorView::Io(*kind),
        }
    }
}

/// The text shown for a failure whose description could not be read.
pub open spec fn unreadable_text() -> Seq<char> {
    "null/unknown error message unavailable"@
}

/// The text that the standard library shows for an I/O error of `kind`.
pub uninterp spec fn io_error_text(kind: std::io::ErrorKind) -> Seq<char>;

/// The text that `std::io::Error`, made from `kind` alone, shows through
/// `Display`; the contract only gives that text its name.
#[verifier::external_body]
fn io_error_message(kind: std::io::ErrorKind) -> (text: String)
    ensures
        text@ == io_error_text(kind),
{
    format!("{}", std::io::Error::from(kind))
}

/// The failure that a description stands for. The engine describes a failed
/// status by a string of its own; where it gave none, or bytes that are not
/// text, the failure is [`ErrorView::Unreadable`].
pub open spec fn failure_of(description: Option<Seq<u8>>) -> ErrorView {
    match description {
        Some(bytes) => if valid_utf8(bytes) {
            ErrorView::Native(decode_utf8(bytes))
        } else {
            ErrorView::Unreadable
        },
        None => ErrorView::Unreadable,
    }
}

/// The text that [`Error::message`] gives for a failure.
pub open spec fn message_of(error: ErrorView) -> Seq<char> {
    match error {
        ErrorView::Native(text) => text,
        ErrorView::Wrapper(text) => text,
        ErrorView::Unreadable => unreadable_text(),
        ErrorView::Io(kind) => io_error_text(kind),
    }
}

impl Error {
    /// The failure that the engine's description of a status stands for. An absent
    /// description and one that is not valid UTF-8 are treated alike.
    pub fn from_description(description: Option<Vec<u8>>) -> (error: Error)
        ensures
            error@ == failure_of(bytes_of(description)),
    {
        match description {
            None => Error::Null(),
            Some(bytes) => match decode_text(bytes) {
                Some(text) => Error::VAALError(text),
                None => Error::Null(),
            },
        }
    }

    /// The text to show for this failure.
    pub fn message(&self) -> (text: String)
        ensures
            text@ == message_of(self@),
    {
        match self {
            Error::VAALError(text) => text.clone(),
            Error::WrapperError(text) => text.clone(),
            Error::Null() => "null/unknown error message unavailable".to_owned(),
            Error::IoError(kind) => io_error_message(*kind),
        }
    }
}

/// A status as a native call returned it, with the engine's description of it.
/// The description is only asked for after a failure; see [`Status::is_success`].
#[derive(Debug)]
pub struct Status {
    pub code: u32,
    pub description: Option<Vec<u8>>,
}

impl Status {
    /// Whether the status reports success. The engine uses zero for success and
    /// any other value for a failure.
    pub open spec fn succeeded(&self) -> bool {
        self.code == 0
    }

    /// What [`Status::result`] gives for this status.
    pub open spec fn outcome(&self) -> Result<(), ErrorView> {
        if self.succeeded() {
            Ok(())
        } else {
            Err(failure_of(bytes_of(self.description)))
        }
    }

    /// Whether `code` reports success, so that no description is needed.
    pub fn is_success(code: u32) -> (success: bool)
        ensures
            success == (code == 0),
    {
        code == 0
    }

    /// Success, or the failure that the description stands for.
    pub fn result(self) -> (result: Result<(), Error>)
        ensures
            result_view(result) == self.outcome(),
    {
        if self.code == 0 {
            Ok(())
        } else {
            Err(Error::from_description(self.description))
        }
    }
}

/// A result with its error taken by its view.
pub open spec fn result_view<T>(result: Result<T, Error>) -> Result<T, ErrorView> {
    match result {
        Ok(value) => Ok(value),
        Err(error) => Err(error@),
    }
}

} // verus!
