//! The error taxonomy of the crawler: filesystem failures, remote
//! rejections, and an unclassified fallback.

use vstd::prelude::*;
use vstd::string::StringExecFns;

verus! {

/// The kind of a [`PixivError`].
#[derive(Debug, Clone)]
pub enum ExampleErrorKind {
    /// A filesystem operation failed; `file` names the offending path.
    IoError { message: String, file: String },
    /// The remote answered, but flagged the payload as an error; `context`
    /// names the operation that failed.
    RequestError {
        /// The message of the error.
        message: String,
        context: String,
    },
    /// An unknown error.
    UnknownError,
}

/// An error kind behind a constructor facade.
#[derive(Debug, Clone)]
pub struct PixivError {
    kind: ExampleErrorKind,
}

impl PixivError {
    /// The kind this error carries.
    pub closed spec fn spec_kind(&self) -> ExampleErrorKind {
        self.kind
    }

    /// Borrows the kind this error carries.
    pub fn kind(&self) -> (k: &ExampleErrorKind)
        ensures
            *k == self.spec_kind(),
    {
        &self.kind
    }

    /// An error for a failed filesystem operation on `file`.
    pub fn io_error(message: &str, file: &str) -> (e: Self)
        ensures
            e.spec_kind() matches ExampleErrorKind::IoError { message: m, file: f }
                && m@ == message@ && f@ == file@,
    {
        PixivError {
            kind: ExampleErrorKind::IoError { message: message.to_owned(), file: file.to_owned() },
        }
    }

    /// An error for a payload the remote flagged as failed, in the
    /// operation named by `context`.
    pub fn request_error(message: &str, context: &str) -> (e: Self)
        ensures
            e.spec_kind() matches ExampleErrorKind::RequestError { message: m, context: c }
                && m@ == message@ && c@ == context@,
    {
        PixivError {
            kind: ExampleErrorKind::RequestError {
                message: message.to_owned(),
                context: context.to_owned(),
            },
        }
    }

    /// Renders the error as one line of text, as the kind does.
    pub fn to_message(&self) -> (s: String)
        ensures
            kind_message(self.spec_kind()) == s@,
    {
        self.kind.to_message()
    }
}

/// The text that [`ExampleErrorKind::to_message`] renders for a kind.
pub open spec fn kind_message(kind: ExampleErrorKind) -> Seq<char> {
    match kind {
        ExampleErrorKind::UnknownError => "UnknownError"@,
        ExampleErrorKind::RequestError { message, context } => "RequestError: "@ + message@
            + "\n    at: "@ + context@,
        ExampleErrorKind::IoError { message, file } => "IoError: "@ + message@ + "\n    at: "@
            + file@,
    }
}

impl ExampleErrorKind {
    /// Renders the kind as one line of text naming the kind, its message,
    /// and where it arose.
    pub fn to_message(&self) -> (s: String)
        ensures
            kind_message(*self) == s@,
    {
        match self {
            ExampleErrorKind::UnknownError => "UnknownError".to_owned(),
            ExampleErrorKind::RequestError { message, context } => {
                let mut s = "RequestError: ".to_owned();
                s.append(message.as_str());
                s.append("\n    at: ");
                s.append(context.as_str());
                s
            },
            ExampleErrorKind::IoError { message, file } => {
                let mut s = "IoError: ".to_owned();
                s.append(message.as_str());
                s.append("\n    at: ");
                s.append(file.as_str());
                s
            },
        }
    }
}

impl From<ExampleErrorKind> for PixivError {
    fn from(value: ExampleErrorKind) -> (e: Self) {
        PixivError { kind: value }
    }
}

impl vstd::std_specs::convert::FromSpecImpl<ExampleErrorKind> for PixivError {
    closed spec fn obeys_from_spec() -> bool {
        true
    }

    closed spec fn from_spec(t: ExampleErrorKind) -> Self {
        PixivError { kind: t }
    }
}

/// Wrapping a kind with [`PixivError::from`] keeps the kind.
pub proof fn lemma_from_keeps_kind(kind: ExampleErrorKind)
    ensures
        <PixivError as vstd::std_specs::convert::FromSpec<ExampleErrorKind>>::obeys_from_spec(),
        <PixivError as vstd::std_specs::convert::FromSpec<ExampleErrorKind>>::from_spec(
            kind,
        ).spec_kind() == kind,
{
}

} // verus!
