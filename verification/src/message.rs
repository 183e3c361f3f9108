//! The message envelope exchanged with the server.
//!
//! Every message carries a 128-bit correlation identifier and a content that
//! is one of a closed set of variants. The domain payloads (login data, chat
//! text, user records) are opaque to this crate: they travel as the bytes
//! that the schema layer produced, and only their tag is looked at.

use vstd::prelude::*;

verus! {

/// Identifier that a request carries and that its response echoes.
pub type CorrelationId = u128;

/// The step of the session protocol that a session message performs.
#[derive(Clone, Copy, Debug, PartialEq, Eq, Structural)]
pub enum SessionKind {
    Login,
    SignUp,
    Token,
}

/// The event that a notification reports.
#[derive(Clone, Copy, Debug, PartialEq, Eq, Structural)]
pub enum NotificationKind {
    NewMessage,
    NewChat,
    MessageRead,
    FriendRequest,
    FriendAccepted,
}

/// The answer to a request.
#[derive(Debug, PartialEq, Eq)]
pub enum Response {
    /// Bare acknowledgement.
    Okay,
    /// Success, with the encoded result of a query.
    OkQuery(Vec<u8>),
    /// Success, with the encoded result of a session action.
    OkSession(Vec<u8>),
    /// Failure, with the reason in words.
    Failed(String),
}

/// Mathematical value of a [`Response`].
pub enum ResponseView {
    Okay,
    OkQuery(Seq<u8>),
    OkSession(Seq<u8>),
    Failed(Seq<char>),
}

impl View for Response {
    type V = ResponseView;

    open spec fn view(&self) -> ResponseView {
        match self {
            Response::Okay => ResponseView::Okay,
            Response::OkQuery(payload) => ResponseView::OkQuery(payload@),
            Response::OkSession(payload) => ResponseView::OkSession(payload@),
            Response::Failed(reason) => ResponseView::Failed(reason@),
        }
    }
}

impl Clone for Response {
    fn clone(&self) -> (copy: Self)
        ensures
            copy@ == self@,
    {
        match self {
            Response::Okay => Response::Okay,
            Response::OkQuery(payload) => Response::OkQuery(copy_bytes(payload)),
            Response::OkSession(payload) => Response::OkSession(copy_bytes(payload)),
            Response::Failed(reason) => Response::Failed(reason.clone()),
        }
    }
}

/// What a message says.
#[derive(Debug, PartialEq, Eq)]
pub enum Content {
    Session(SessionKind, Vec<u8>),
    Query(Vec<u8>),
    Notification(NotificationKind, Vec<u8>),
    Modification(Vec<u8>),
    Response(Response),
}

/// Mathematical value of a [`Content`].
pub enum ContentView {
    Session(SessionKind, Seq<u8>),
    Query(Seq<u8>),
    Notification(NotificationKind, Seq<u8>),
    Modification(Seq<u8>),
    Response(ResponseView),
}

impl ContentView {
    /// A response closes an exchange; every other content opens one and
    /// expects the peer to answer it.
    pub open spec fn expects_reply(self) -> bool {
        !(self is Response)
    }
}

impl View for Content {
    type V = ContentView;

    open spec fn view(&self) -> ContentView {
        match self {
            Content::Session(kind, payload) => ContentView::Session(*kind, payload@),
            Content::Query(payload) => ContentView::Query(payload@),
            Content::Notification(kind, payload) => ContentView::Notification(*kind, payload@),
            Content::Modification(payload) => ContentView::Modification(payload@),
            Content::Response(response) => ContentView::Response(response@),
        }
    }
}

impl Clone for Content {
    fn clone(&self) -> (copy: Self)
        ensures
            copy@ == self@,
    {
        match self {
            Content::Session(kind, payload) => Content::Session(*kind, copy_bytes(payload)),
            Content::Query(payload) => Content::Query(copy_bytes(payload)),
            Content::Notification(kind, payload) => Content::Notification(
                *kind,
                copy_bytes(payload),
            ),
            Content::Modification(payload) => Content::Modification(copy_bytes(payload)),
            Content::Response(response) => Content::Response(response.clone()),
        }
    }
}

impl Content {
    /// Whether the peer is expected to answer a message with this content.
    pub fn expects_reply(&self) -> (expected: bool)
        ensures
            expected == self@.expects_reply(),
    {
        match self {
            Content::Response(_) => false,
            _ => true,
        }
    }
}

/// One message: the correlation identifier and the content.
#[derive(Debug, PartialEq, Eq)]
pub struct Message {
    pub id: CorrelationId,
    pub content: Content,
}

/// Mathematical value of a [`Message`].
pub struct MessageView {
    pub id: CorrelationId,
    pub content: ContentView,
}

impl MessageView {
    /// The bare acknowledgement that answers the message `id`.
    pub open spec fn acknowledgement(id: CorrelationId) -> MessageView {
        MessageView { id, content: ContentView::Response(ResponseView::Okay) }
    }
}

impl View for Message {
    type V = MessageView;

    open spec fn view(&self) -> MessageView {
        MessageView { id: self.id, content: self.content@ }
    }
}

impl Clone for Message {
    fn clone(&self) -> (copy: Self)
        ensures
            copy@ == self@,
    {
        Message { id: self.id, content: self.content.clone() }
    }
}

impl Message {
    /// Puts `content` into an envelope under `id`.
    pub fn new(id: CorrelationId, content: Content) -> (message: Message)
        ensures
            message@ == (MessageView { id, content: content@ }),
    {
        Message { id, content }
    }

    /// The bare acknowledgement that answers the message `id`: a response
    /// `Okay` under the same identifier.
    pub fn acknowledgement(id: CorrelationId) -> (ack: Message)
        ensures
            ack@ == MessageView::acknowledgement(id),
    {
        Message { id, content: Content::Response(Response::Okay) }
    }

    /// Whether the peer is expected to answer this message.
    pub fn expects_reply(&self) -> (expected: bool)
        ensures
            expected == self@.content.expects_reply(),
    {
        self.content.expects_reply()
    }
}

/// The mathematical values of a run of messages.
pub open spec fn messages_view(messages: Seq<Message>) -> Seq<MessageView> {
    messages.map_values(|message: Message| message@)
}

/// The mathematical value of a frame that may have come off a queue.
pub open spec fn frame_view(frame: Option<Message>) -> Option<MessageView> {
    match frame {
        Some(message) => Some(message@),
        None => None,
    }
}

/// The mathematical values of a run of requests paired with their responses.
pub open spec fn pairs_view(pairs: Seq<(Message, Response)>) -> Seq<(MessageView, ResponseView)> {
    pairs.map_values(|pair: (Message, Response)| (pair.0@, pair.1@))
}

/// An independent copy of a byte payload.
pub fn copy_bytes(bytes: &Vec<u8>) -> (copy: Vec<u8>)
    ensures
        copy@ == bytes@,
{
    let copy = bytes.clone();
    assert(copy@ =~= bytes@);
    copy
}

} // verus!
