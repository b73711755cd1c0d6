//! Failures and how they are reported.

use vstd::prelude::*;
use vstd::string::*;

verus! {

/// The classes of failure.
#[derive(Clone, Copy, Debug, PartialEq, Eq, Structural)]
pub enum ErrorKind {
    /// The request did not reach the server, or no answer came back.
    Transport,
    /// The server answered with a status outside 200 to 299.
    Api,
    /// The body of an answer could not be read as what was expected.
    Parse,
    /// The credential store could not be reached.
    StoreAccess,
    /// The settings file could not be found, read or written.
    ConfigIo,
    /// A result could not be written out as a document.
    Render,
}

/// A failure: its class, what failed, and the underlying cause where one is known.
#[derive(Debug, PartialEq, Eq)]
pub struct ClientError {
    pub kind: ErrorKind,
    pub message: String,
    pub cause: Option<String>,
}

/// What a `ClientError` holds, as mathematical values.
pub struct ClientErrorView {
    pub kind: ErrorKind,
    pub message: Seq<char>,
    pub cause: Option<Seq<char>>,
}

impl View for ClientError {
    type V = ClientErrorView;

    open spec fn view(&self) -> ClientErrorView {
        ClientErrorView {
            kind: self.kind,
            message: self.message@,
            cause: self.cause.deep_view(),
        }
    }
}

impl DeepView for ClientError {
    type V = ClientErrorView;

    open spec fn deep_view(&self) -> ClientErrorView {
        self@
    }
}

/// A failure of class `kind` with nothing known of its cause.
pub open spec fn failure(kind: ErrorKind, message: Seq<char>) -> ClientErrorView {
    ClientErrorView { kind, message, cause: None }
}

/// A failure of class `kind` that `cause` brought about.
pub open spec fn failure_from(kind: ErrorKind, message: Seq<char>, cause: Seq<char>) -> ClientErrorView {
    ClientErrorView { kind, message, cause: Some(cause) }
}

impl ClientErrorView {
    /// The report of the failure on one line: the message, then a colon and the
    /// cause where one is known.
    pub open spec fn report(self) -> Seq<char> {
        match self.cause {
            Some(cause) => self.message + ": "@ + cause,
            None => self.message,
        }
    }
}

impl ClientError {
    /// A failure of class `kind` with nothing known of its cause.
    pub fn new(kind: ErrorKind, message: &str) -> (r: ClientError)
        ensures
            r@ == failure(kind, message@),
    {
        ClientError { kind, message: String::from_str(message), cause: None }
    }

    /// A failure of class `kind` that `cause` brought about.
    pub fn caused(kind: ErrorKind, message: &str, cause: String) -> (r: ClientError)
        ensures
            r@ == failure_from(kind, message@, cause@),
    {
        ClientError { kind, message: String::from_str(message), cause: Some(cause) }
    }

    /// The report of the failure on one line.
    pub fn report(&self) -> (r: String)
        ensures
            r@ == self@.report(),
    {
        match &self.cause {
            Some(cause) => {
                let mut r = self.message.clone();
                r.append(": ");
                r.append(cause.as_str());
                r
            },
            None => self.message.clone(),
        }
    }
}

/// The view of a result: that of what it holds.
pub open spec fn result_view<T: View, E: View>(r: Result<T, E>) -> Result<T::V, E::V> {
    match r {
        Ok(value) => Ok(value@),
        Err(error) => Err(error@),
    }
}

} // verus!
