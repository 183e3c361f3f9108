//! What can go wrong between the client and the server.

use vstd::prelude::*;
use crate::transport::WriteOutcome;

verus! {

/// What can go wrong between the client and the server.
#[derive(Debug, PartialEq, Eq)]
pub enum ComsError {
    /// A connection attempt failed.
    Connection,
    /// A message was to be sent while there was no connection.
    NotConnected,
    /// A write failed; the connection is lost.
    Send,
    /// No response arrived within the time the caller allowed.
    Timeout,
    /// A reply arrived that is not of the shape the caller asked for.
    UnexpectedMessage,
    /// The server answered with a failure; its reason is attached.
    Rejected(String),
}

/// Mathematical value of a [`ComsError`].
pub enum ComsErrorView {
    Connection,
    NotConnected,
    Send,
    Timeout,
    UnexpectedMessage,
    Rejected(Seq<char>),
}

impl ComsErrorView {
    /// The error in words.
    pub open spec fn description(self) -> Seq<char> {
        match self {
            ComsErrorView::Connection => "Could not connect to the server!"@,
            ComsErrorView::NotConnected =>
                "Client is not connected to server! Cannot send message!"@,
            ComsErrorView::Send => "Connection to the server was lost while sending!"@,
            ComsErrorView::Timeout => "Timeout!"@,
            ComsErrorView::UnexpectedMessage => "Wrong response from Server!"@,
            ComsErrorView::Rejected(reason) => reason,
        }
    }
}

impl View for ComsError {
    type V = ComsErrorView;

    open spec fn view(&self) -> ComsErrorView {
        match self {
            ComsError::Connection => ComsErrorView::Connection,
            ComsError::NotConnected => ComsErrorView::NotConnected,
            ComsError::Send => ComsErrorView::Send,
            ComsError::Timeout => ComsErrorView::Timeout,
            ComsError::UnexpectedMessage => ComsErrorView::UnexpectedMessage,
            ComsError::Rejected(reason) => ComsErrorView::Rejected(reason@),
        }
    }
}

impl ComsError {
    /// The error in words, for a log or an error line on a form.
    pub fn describe(&self) -> (text: String)
        ensures
            text@ == self@.description(),
    {
        match self {
            ComsError::Connection => "Could not connect to the server!".to_owned(),
            ComsError::NotConnected =>
                "Client is not connected to server! Cannot send message!".to_owned(),
            ComsError::Send => "Connection to the server was lost while sending!".to_owned(),
            ComsError::Timeout => "Timeout!".to_owned(),
            ComsError::UnexpectedMessage => "Wrong response from Server!".to_owned(),
            ComsError::Rejected(reason) => reason.clone(),
        }
    }
}

/// What a write that did not reach the wire means for the caller.
pub open spec fn write_error(outcome: WriteOutcome) -> Option<ComsErrorView> {
    match outcome {
        WriteOutcome::Written => None,
        WriteOutcome::Failed => Some(ComsErrorView::Send),
        WriteOutcome::NoConnection => Some(ComsErrorView::NotConnected),
    }
}

} // verus!
