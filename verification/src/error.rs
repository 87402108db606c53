//! Errors of the library's operations.

use vstd::prelude::*;
use crate::text::str_concat;

verus! {

/// Errors that can occur during Discord RPC operations.
#[derive(Debug)]
pub enum Error {
    /// The `OAuth2` token is invalid or was rejected by Discord.
    InvalidToken(String),
    /// A network-level error occurred.
    Network(String),
    /// WebSocket connection error.
    WebSocket(String),
    /// Discord Gateway protocol error.
    Gateway(String),
    /// Failed to resolve external image assets.
    ExternalAssets(String),
    /// The activity was already stopped.
    AlreadyStopped,
    /// `start_activity()` was not called before this operation.
    NotStarted,
    /// JSON serialization error.
    Serialization(String),
    /// Internal runtime error.
    Runtime(String),
}

/// The mathematical form of an error.
pub enum ErrorView {
    InvalidToken(Seq<char>),
    Network(Seq<char>),
    WebSocket(Seq<char>),
    Gateway(Seq<char>),
    ExternalAssets(Seq<char>),
    AlreadyStopped,
    NotStarted,
    Serialization(Seq<char>),
    Runtime(Seq<char>),
}

impl View for Error {
    type V = ErrorView;

    open spec fn view(&self) -> ErrorView {
        match self {
            Error::InvalidToken(s) => ErrorView::InvalidToken(s@),
            Error::Network(s) => ErrorView::Network(s@),
            Error::WebSocket(s) => ErrorView::WebSocket(s@),
            Error::Gateway(s) => ErrorView::Gateway(s@),
            Error::ExternalAssets(s) => ErrorView::ExternalAssets(s@),
            Error::AlreadyStopped => ErrorView::AlreadyStopped,
            Error::NotStarted => ErrorView::NotStarted,
            Error::Serialization(s) => ErrorView::Serialization(s@),
            Error::Runtime(s) => ErrorView::Runtime(s@),
        }
    }
}

/// The message that describes an error.
pub open spec fn error_message(e: ErrorView) -> Seq<char> {
    match e {
        ErrorView::InvalidToken(s) => "Invalid OAuth2 token: "@ + s,
        ErrorView::Network(s) => "Network error: "@ + s,
        ErrorView::WebSocket(s) => "WebSocket error: "@ + s,
        ErrorView::Gateway(s) => "Gateway error: "@ + s,
        ErrorView::ExternalAssets(s) => "External assets error: "@ + s,
        ErrorView::AlreadyStopped => "Activity already stopped"@,
        ErrorView::NotStarted => "Client not started. Call start_activity() first"@,
        ErrorView::Serialization(s) => "Serialization error: "@ + s,
        ErrorView::Runtime(s) => "Runtime error: "@ + s,
    }
}

impl Error {
    /// The message that describes this error.
    pub fn message(&self) -> (m: String)
        ensures
            m@ == error_message(self@),
    {
        match self {
            Error::InvalidToken(s) => str_concat("Invalid OAuth2 token: ", s.as_str()),
            Error::Network(s) => str_concat("Network error: ", s.as_str()),
            Error::WebSocket(s) => str_concat("WebSocket error: ", s.as_str()),
            Error::Gateway(s) => str_concat("Gateway error: ", s.as_str()),
            Error::ExternalAssets(s) => str_concat("External assets error: ", s.as_str()),
            Error::AlreadyStopped => String::from_str("Activity already stopped"),
            Error::NotStarted => String::from_str("Client not started. Call start_activity() first"),
            Error::Serialization(s) => str_concat("Serialization error: ", s.as_str()),
            Error::Runtime(s) => str_concat("Runtime error: ", s.as_str()),
        }
    }
}

} // verus!
