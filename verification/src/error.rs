//! The one error type of the library: every way in which a call can fail.

use crate::text::{decimal, decimal_of, signed_decimal, signed_decimal_of};
use vstd::prelude::*;
use vstd::std_specs::convert::FromSpecImpl;
use vstd::string::StringExecFns;

verus! {

/// The error object of a failed call, as the server sent it.
#[derive(Debug, PartialEq)]
pub struct RemoteError {
    /// The number that tells the kind of error.
    pub code: i64,
    /// A short description of the error.
    pub message: String,
    /// Further information, where the server gave any.
    pub data: Option<serde_json::Value>,
}

pub struct RemoteErrorView {
    pub code: i64,
    pub message: Seq<char>,
    pub data: Option<serde_json::Value>,
}

impl View for RemoteError {
    type V = RemoteErrorView;

    open spec fn view(&self) -> RemoteErrorView {
        RemoteErrorView { code: self.code, message: self.message@, data: self.data }
    }
}

/// A failure below the protocol: the exchange with the server did not take
/// place, or the server answered with a status that is no success.
#[derive(Debug, PartialEq, Eq)]
pub struct TransportFailure {
    /// The HTTP status, where the server answered at all.
    pub status: Option<u16>,
    /// What went wrong, for a reader.
    pub detail: String,
}

pub struct TransportFailureView {
    pub status: Option<u16>,
    pub detail: Seq<char>,
}

impl View for TransportFailure {
    type V = TransportFailureView;

    open spec fn view(&self) -> TransportFailureView {
        TransportFailureView { status: self.status, detail: self.detail@ }
    }
}

impl Clone for TransportFailure {
    fn clone(&self) -> (copy: Self)
        ensures
            copy@ == self@,
    {
        TransportFailure { status: self.status, detail: self.detail.clone() }
    }
}

/// Why a call failed.
#[derive(Debug, PartialEq)]
pub enum Error {
    /// A value that was expected is absent.
    OptionNone,
    /// The exchange broke a rule of this client.
    Custom(String),
    /// The server answered with an error, carried here as it came.
    Protocol(RemoteError),
    /// A value could not be turned into JSON, or JSON into a value.
    Encoding(String),
    /// The network or the HTTP exchange failed.
    Transport(TransportFailure),
}

pub enum ErrorView {
    OptionNone,
    Custom(Seq<char>),
    Protocol(RemoteErrorView),
    Encoding(Seq<char>),
    Transport(TransportFailureView),
}

impl View for Error {
    type V = ErrorView;

    open spec fn view(&self) -> ErrorView {
        match self {
            Error::OptionNone => ErrorView::OptionNone,
            Error::Custom(msg) => ErrorView::Custom(msg@),
            Error::Protocol(err) => ErrorView::Protocol(err@),
            Error::Encoding(msg) => ErrorView::Encoding(msg@),
            Error::Transport(failure) => ErrorView::Transport(failure@),
        }
    }
}

pub type Result<T> = std::result::Result<T, Error>;

/// The diagnostic text of an error: its tag, and in brackets what it carries.
pub open spec fn error_text(e: ErrorView) -> Seq<char> {
    match e {
        ErrorView::OptionNone => "OptionNone"@,
        ErrorView::Custom(msg) => "Custom("@ + msg + ")"@,
        ErrorView::Protocol(err) => "Protocol("@ + signed_decimal_of(err.code as int) + ", "@
            + err.message + (if err.data is Some {
            ", with data)"@
        } else {
            ")"@
        }),
        ErrorView::Encoding(msg) => "Encoding("@ + msg + ")"@,
        ErrorView::Transport(failure) => "Transport("@ + (match failure.status {
            Some(status) => decimal_of(status as nat),
            None => "no status"@,
        }) + ", "@ + failure.detail + ")"@,
    }
}

impl Error {
    /// The diagnostic text of the error, for a reader.
    pub fn to_string(&self) -> (text: String)
        ensures
            text@ == error_text(self@),
    {
        match self {
            Error::OptionNone => String::from_str("OptionNone"),
            Error::Custom(msg) => {
                let mut text = String::from_str("Custom(");
                text.append(msg.as_str());
                text.append(")");
                text
            },
            Error::Protocol(err) => {
                let mut text = String::from_str("Protocol(");
                text.append(signed_decimal(err.code).as_str());
                text.append(", ");
                text.append(err.message.as_str());
                if err.data.is_some() {
                    text.append(", with data)");
                } else {
                    text.append(")");
                }
                text
            },
            Error::Encoding(msg) => {
                let mut text = String::from_str("Encoding(");
                text.append(msg.as_str());
                text.append(")");
                text
            },
            Error::Transport(failure) => {
                let mut text = String::from_str("Transport(");
                match failure.status {
                    Some(status) => {
                        text.append(decimal(status as u64).as_str());
                    },
                    None => {
                        text.append("no status");
                    },
                }
                text.append(", ");
                text.append(failure.detail.as_str());
                text.append(")");
                text
            },
        }
    }

    /// The error of an absent value.
    pub fn none() -> (e: Self)
        ensures
            e@ == ErrorView::OptionNone,
    {
        Error::OptionNone
    }

    /// The error of a broken rule, with its message.
    pub fn custom(msg: &str) -> (e: Self)
        ensures
            e@ == ErrorView::Custom(msg@),
    {
        Error::Custom(msg.to_owned())
    }

    /// The error of a failed encoding or decoding, with its message.
    pub fn serde(msg: &str) -> (e: Self)
        ensures
            e@ == ErrorView::Encoding(msg@),
    {
        Error::Encoding(msg.to_owned())
    }
}

impl From<RemoteError> for Error {
    fn from(err: RemoteError) -> (e: Self) {
        Error::Protocol(err)
    }
}

impl FromSpecImpl<RemoteError> for Error {
    open spec fn obeys_from_spec() -> bool {
        true
    }

    open spec fn from_spec(err: RemoteError) -> Self {
        Error::Protocol(err)
    }
}

impl From<TransportFailure> for Error {
    fn from(failure: TransportFailure) -> (e: Self) {
        Error::Transport(failure)
    }
}

impl FromSpecImpl<TransportFailure> for Error {
    open spec fn obeys_from_spec() -> bool {
        true
    }

    open spec fn from_spec(failure: TransportFailure) -> Self {
        Error::Transport(failure)
    }
}

} // verus!
