//! The error type shared by every fallible operation of the crate.

use vstd::prelude::*;
use vstd::string::*;

verus! {

/// What went wrong.
#[derive(Clone, Copy, Debug, PartialEq, Eq, Structural)]
pub enum ErrorKind {
    /// The country code is not in the locale table.
    LocaleNotFound,
    /// The username flow was asked for on a domain that has none.
    UnsupportedDomainForUsernameFlow,
    /// The redirect URL carries no authorization code.
    AuthorizationCodeMissing,
    /// A capture arrived for a device serial that is not pending.
    DeviceNotFound,
    /// The registration endpoint answered with a non-success status.
    RegistrationFailed,
    /// The registration answer lacks a required token field.
    MalformedRegistrationResponse,
    /// The stored private key is not a PKCS#1 PEM RSA key.
    InvalidPrivateKey,
    /// The RSA operation itself failed.
    SigningFailure,
    /// A stored session could not be read back.
    PersistenceError,
}

/// An error kind together with a human-readable message.
#[derive(Clone, Debug)]
pub struct AppError {
    pub kind: ErrorKind,
    pub message: String,
}

/// The mathematical value of an [`AppError`].
pub struct AppErrorView {
    pub kind: ErrorKind,
    pub message: Seq<char>,
}

impl View for AppError {
    type V = AppErrorView;

    open spec fn view(&self) -> AppErrorView {
        AppErrorView { kind: self.kind, message: self.message@ }
    }
}

/// The view of an error with the given kind and message.
pub open spec fn error_view(kind: ErrorKind, message: Seq<char>) -> AppErrorView {
    AppErrorView { kind, message }
}

impl AppError {
    /// An error of `kind` that says `message`.
    pub fn new(kind: ErrorKind, message: &str) -> (e: AppError)
        ensures
            e@ == error_view(kind, message@),
    {
        AppError { kind, message: String::from_str(message) }
    }

    /// The kind of this error.
    pub fn kind(&self) -> (k: ErrorKind)
        ensures
            k == self.kind,
    {
        self.kind
    }

    /// The text shown to a browser when a request handler fails:
    /// `Error: ` followed by the message.
    pub fn response_text(&self) -> (t: String)
        ensures
            t@ == "Error: "@ + self.message@,
    {
        let mut out = String::from_str("Error: ");
        out.append(self.message.as_str());
        out
    }
}

} // verus!
