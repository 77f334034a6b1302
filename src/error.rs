use vstd::prelude::*;

verus! {

/// Message shown when the tool is invoked without an output path or inputs.
pub const USAGE: &'static str = "Usage: zipper <zip file> <file to archive> <file to archive> ...";

/// Description of a failure in the container codec.
pub const ZIP_FAILURE: &'static str = "An error occurred creating the archive";

/// The category of a failure; each one has its own exit code.
#[derive(Clone, Copy, Debug, PartialEq, Eq, Structural)]
pub enum ErrorKind {
    Usage,
    IO,
    Zip,
}

/// The exit code that the process ends with for a failure of kind `k`.
pub open spec fn exit_code_of(k: ErrorKind) -> int {
    match k {
        ErrorKind::Usage => 1,
        ErrorKind::IO => 2,
        ErrorKind::Zip => 3,
    }
}

impl ErrorKind {
    /// The stable exit code of this kind: 1 for usage, 2 for I/O, 3 for the codec.
    pub fn exit_code(&self) -> (r: i32)
        ensures
            r == exit_code_of(*self),
    {
        match self {
            ErrorKind::Usage => 1,
            ErrorKind::IO => 2,
            ErrorKind::Zip => 3,
        }
    }
}

/// What an error holds, as mathematical values.
pub struct ErrorView {
    pub kind: ErrorKind,
    pub description: Seq<char>,
    pub cause: Option<Seq<char>>,
}

/// A failure of the tool: its kind, a message for the user and, where a
/// lower-level failure caused it, that failure's text.
#[derive(Debug)]
pub struct Error {
    pub kind: ErrorKind,
    pub(crate) cause: Option<String>,
    pub(crate) description: String,
}

impl View for Error {
    type V = ErrorView;

    open(crate) spec fn view(&self) -> ErrorView {
        ErrorView {
            kind: self.kind,
            description: self.description@,
            cause: match self.cause {
                Some(c) => Some(c@),
                None => None,
            },
        }
    }
}

/// The error for an invocation without an output path or without inputs.
pub open spec fn usage_error() -> ErrorView {
    ErrorView { kind: ErrorKind::Usage, description: USAGE@, cause: None }
}

/// A file-system failure with the given cause and description.
pub open spec fn io_error(cause: Seq<char>, description: Seq<char>) -> ErrorView {
    ErrorView { kind: ErrorKind::IO, description, cause: Some(cause) }
}

/// A container-codec failure with the given cause.
pub open spec fn zip_error(cause: Seq<char>) -> ErrorView {
    ErrorView { kind: ErrorKind::Zip, description: ZIP_FAILURE@, cause: Some(cause) }
}

/// The one-line message shown for an error: its description, followed by
/// the text of its cause where it has one.
pub open spec fn message_of(e: ErrorView) -> Seq<char> {
    match e.cause {
        Some(c) => e.description + ": "@ + c,
        None => e.description,
    }
}

impl Error {
    /// Every error carries a message that can be shown to the user.
    pub open(crate) spec fn wf(&self) -> bool {
        self.description@.len() > 0
    }

    pub fn usage() -> (r: Error)
        ensures
            r@ == usage_error(),
            r.wf(),
    {
        proof {
            reveal_strlit("Usage: zipper <zip file> <file to archive> <file to archive> ...");
        }
        Error { kind: ErrorKind::Usage, cause: None, description: String::from_str(USAGE) }
    }

    pub fn io(cause: String, description: &str) -> (r: Error)
        requires
            description@.len() > 0,
        ensures
            r@ == io_error(cause@, description@),
            r.wf(),
    {
        Error {
            kind: ErrorKind::IO,
            cause: Some(cause),
            description: String::from_str(description),
        }
    }

    pub fn zip(cause: String) -> (r: Error)
        ensures
            r@ == zip_error(cause@),
            r.wf(),
    {
        proof {
            reveal_strlit("An error occurred creating the archive");
        }
        Error { kind: ErrorKind::Zip, cause: Some(cause), description: String::from_str(ZIP_FAILURE) }
    }

    /// The message shown to the user.
    pub fn description(&self) -> (r: &str)
        ensures
            r@ == self@.description,
    {
        self.description.as_str()
    }

    /// The text of the lower-level failure behind this one, if any.
    pub fn cause(&self) -> (r: Option<&str>)
        ensures
            match r {
                Some(c) => self@.cause == Some(c@),
                None => self@.cause is None,
            },
    {
        match &self.cause {
            Some(c) => Some(c.as_str()),
            None => None,
        }
    }

    /// The one-line message to print for this error.
    pub fn message(&self) -> (r: String)
        ensures
            r@ == message_of(self@),
    {
        let mut m = self.description.clone();
        match &self.cause {
            Some(c) => {
                m.append(": ");
                m.append(c.as_str());
            },
            None => {},
        }
        m
    }

    /// The exit code of this error's kind.
    pub fn exit_code(&self) -> (r: i32)
        ensures
            r == exit_code_of(self@.kind),
    {
        self.kind.exit_code()
    }
}

} // verus!
