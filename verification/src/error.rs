//! The failures a transport can end with.

use vstd::prelude::*;
use vstd::string::*;

verus! {

/// `anyhow::Error`, declared so that the error of a factory can be carried
/// through. Nothing is said of what such an error holds.
#[verifier::external_type_specification]
#[verifier::external_body]
pub struct ExAnyhowError(anyhow::Error);

/// Why a transport, or the whole serve call, failed.
#[derive(Debug)]
pub enum TransportError {
    /// A transport that needs the method registry is enabled, but there is no
    /// factory left to build the registry with.
    MissingConverter,
    /// The factory was invoked and failed; its own error is kept as it came.
    Factory(anyhow::Error),
    /// A listener could not be bound to its address.
    Bind(String),
    /// The dispatch engine failed on a request.
    Dispatch(String),
    /// Reading the input or writing the output failed.
    Io(String),
    /// The persistent session store could not be opened.
    SessionStore(String),
    /// A transport's background task was cancelled or panicked.
    Task(String),
}

/// A [`TransportError`] with its texts as character sequences.
pub enum TransportErrorView {
    MissingConverter,
    Factory(anyhow::Error),
    Bind(Seq<char>),
    Dispatch(Seq<char>),
    Io(Seq<char>),
    SessionStore(Seq<char>),
    Task(Seq<char>),
}

impl View for TransportError {
    type V = TransportErrorView;

    open spec fn view(&self) -> TransportErrorView {
        match *self {
            TransportError::MissingConverter => TransportErrorView::MissingConverter,
            TransportError::Factory(e) => TransportErrorView::Factory(e),
            TransportError::Bind(m) => TransportErrorView::Bind(m@),
            TransportError::Dispatch(m) => TransportErrorView::Dispatch(m@),
            TransportError::Io(m) => TransportErrorView::Io(m@),
            TransportError::SessionStore(m) => TransportErrorView::SessionStore(m@),
            TransportError::Task(m) => TransportErrorView::Task(m@),
        }
    }
}

impl TransportError {
    /// What [`TransportError::message`] says of `self`: a fixed sentence, the
    /// text the error carries, or that text behind a fixed prefix. The text
    /// of a factory's own error is whatever that error displays as.
    pub open spec fn is_message(self, text: String) -> bool {
        match self {
            TransportError::MissingConverter => text@
                == "RPC converter required for WebSocket/stdio"@,
            TransportError::Factory(e) => to_string_from_display_ensures::<anyhow::Error>(
                &e,
                text,
            ),
            TransportError::Bind(m) => text@ == m@,
            TransportError::Dispatch(m) => text@ == "RPC error: "@ + m@,
            TransportError::Io(m) => text@ == m@,
            TransportError::SessionStore(m) => text@
                == "Failed to initialize SQLite session manager: "@ + m@,
            TransportError::Task(m) => text@ == "MCP server task failed: "@ + m@,
        }
    }

    /// The error as one line of text.
    pub fn message(&self) -> (text: String)
        ensures
            self.is_message(text),
    {
        match self {
            TransportError::MissingConverter => String::from_str(
                "RPC converter required for WebSocket/stdio",
            ),
            TransportError::Factory(e) => e.to_string(),
            TransportError::Bind(m) => m.clone(),
            TransportError::Dispatch(m) => String::from_str("RPC error: ").concat(m.as_str()),
            TransportError::Io(m) => m.clone(),
            TransportError::SessionStore(m) => String::from_str(
                "Failed to initialize SQLite session manager: ",
            ).concat(m.as_str()),
            TransportError::Task(m) => String::from_str("MCP server task failed: ").concat(
                m.as_str(),
            ),
        }
    }
}

} // verus!
