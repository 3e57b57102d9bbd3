//! The errors of the tracker.

use vstd::prelude::*;
use vstd::string::StringExecFns;

verus! {

/// Everything that can go wrong, each kind with the text that explains it.
#[derive(Debug, PartialEq, Eq)]
pub enum AppError {
    /// The remote service refused the credentials.
    Auth(String),
    /// The snapshot store could not be opened, read or written.
    Database(String),
    /// A file could not be read or written.
    Io(String),
    /// The remote service answered with a failure.
    Api(String),
    /// The tracker's own directories or settings could not be found.
    Config(String),
    /// A document could not be encoded or decoded.
    Serialization(String),
    /// The remote service could not be reached.
    Request(String),
    /// A value handed to the tracker cannot be used.
    InvalidInput(String),
    /// There is no usable session.
    Session(String),
    /// Any other failure.
    Anyhow(String),
}

/// An error as contracts see it.
pub enum AppErrorView {
    Auth(Seq<char>),
    Database(Seq<char>),
    Io(Seq<char>),
    Api(Seq<char>),
    Config(Seq<char>),
    Serialization(Seq<char>),
    Request(Seq<char>),
    InvalidInput(Seq<char>),
    Session(Seq<char>),
    Anyhow(Seq<char>),
}

/// The part of the system in which a failure arose.
#[derive(Clone, Copy, Debug, PartialEq, Eq, Structural)]
pub enum ErrorClass {
    /// The remote service could not be reached or refused the request.  The
    /// caller may try again; the tracker itself never does.
    Transport,
    /// The snapshot store failed.  Nothing was written.
    Storage,
    /// A failure outside the capture and compare cycle.
    Other,
}

impl AppErrorView {
    /// The words that introduce the detail of each kind of error.
    pub open spec fn prefix(self) -> Seq<char> {
        match self {
            AppErrorView::Auth(_) => "Authentication error: "@,
            AppErrorView::Database(_) => "Database error: "@,
            AppErrorView::Io(_) => "IO error: "@,
            AppErrorView::Api(_) => "API error: "@,
            AppErrorView::Config(_) => "Configuration error: "@,
            AppErrorView::Serialization(_) => "Serialization error: "@,
            AppErrorView::Request(_) => "HTTP request error: "@,
            AppErrorView::InvalidInput(_) => "Invalid input: "@,
            AppErrorView::Session(_) => "Session error: "@,
            AppErrorView::Anyhow(_) => "Anyhow error: "@,
        }
    }

    /// The detail that the error carries.
    pub open spec fn detail(self) -> Seq<char> {
        match self {
            AppErrorView::Auth(d) => d,
            AppErrorView::Database(d) => d,
            AppErrorView::Io(d) => d,
            AppErrorView::Api(d) => d,
            AppErrorView::Config(d) => d,
            AppErrorView::Serialization(d) => d,
            AppErrorView::Request(d) => d,
            AppErrorView::InvalidInput(d) => d,
            AppErrorView::Session(d) => d,
            AppErrorView::Anyhow(d) => d,
        }
    }

    /// The full message: the introduction followed by the detail.
    pub open spec fn message(self) -> Seq<char> {
        self.prefix() + self.detail()
    }

    /// Where the failure arose.
    pub open spec fn class(self) -> ErrorClass {
        match self {
            AppErrorView::Api(_) => ErrorClass::Transport,
            AppErrorView::Request(_) => ErrorClass::Transport,
            AppErrorView::Database(_) => ErrorClass::Storage,
            AppErrorView::Io(_) => ErrorClass::Storage,
            _ => ErrorClass::Other,
        }
    }
}

impl View for AppError {
    type V = AppErrorView;

    open spec fn view(&self) -> AppErrorView {
        match self {
            AppError::Auth(d) => AppErrorView::Auth(d@),
            AppError::Database(d) => AppErrorView::Database(d@),
            AppError::Io(d) => AppErrorView::Io(d@),
            AppError::Api(d) => AppErrorView::Api(d@),
            AppError::Config(d) => AppErrorView::Config(d@),
            AppError::Serialization(d) => AppErrorView::Serialization(d@),
            AppError::Request(d) => AppErrorView::Request(d@),
            AppError::InvalidInput(d) => AppErrorView::InvalidInput(d@),
            AppError::Session(d) => AppErrorView::Session(d@),
            AppError::Anyhow(d) => AppErrorView::Anyhow(d@),
        }
    }
}

impl Clone for AppError {
    fn clone(&self) -> (copy: Self)
        ensures
            copy == *self,
    {
        match self {
            AppError::Auth(d) => AppError::Auth(d.clone()),
            AppError::Database(d) => AppError::Database(d.clone()),
            AppError::Io(d) => AppError::Io(d.clone()),
            AppError::Api(d) => AppError::Api(d.clone()),
            AppError::Config(d) => AppError::Config(d.clone()),
            AppError::Serialization(d) => AppError::Serialization(d.clone()),
            AppError::Request(d) => AppError::Request(d.clone()),
            AppError::InvalidInput(d) => AppError::InvalidInput(d.clone()),
            AppError::Session(d) => AppError::Session(d.clone()),
            AppError::Anyhow(d) => AppError::Anyhow(d.clone()),
        }
    }
}

impl AppError {
    /// The message to show to the user.
    pub fn message(&self) -> (text: String)
        ensures
            text@ == self@.message(),
    {
        match self {
            AppError::Auth(d) => "Authentication error: ".to_owned().concat(d.as_str()),
            AppError::Database(d) => "Database error: ".to_owned().concat(d.as_str()),
            AppError::Io(d) => "IO error: ".to_owned().concat(d.as_str()),
            AppError::Api(d) => "API error: ".to_owned().concat(d.as_str()),
            AppError::Config(d) => "Configuration error: ".to_owned().concat(d.as_str()),
            AppError::Serialization(d) => "Serialization error: ".to_owned().concat(d.as_str()),
            AppError::Request(d) => "HTTP request error: ".to_owned().concat(d.as_str()),
            AppError::InvalidInput(d) => "Invalid input: ".to_owned().concat(d.as_str()),
            AppError::Session(d) => "Session error: ".to_owned().concat(d.as_str()),
            AppError::Anyhow(d) => "Anyhow error: ".to_owned().concat(d.as_str()),
        }
    }

    /// Where the failure arose.
    pub fn class(&self) -> (class: ErrorClass)
        ensures
            class == self@.class(),
    {
        match self {
            AppError::Api(_) => ErrorClass::Transport,
            AppError::Request(_) => ErrorClass::Transport,
            AppError::Database(_) => ErrorClass::Storage,
            AppError::Io(_) => ErrorClass::Storage,
            _ => ErrorClass::Other,
        }
    }
}

} // verus!
