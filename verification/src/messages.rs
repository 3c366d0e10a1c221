//! The messages that clients and the server exchange, and the events of a line-oriented stream.

use vstd::prelude::*;

verus! {

/// How many messages a channel buffers before a sender has to wait.
pub const CHANNEL_SIZE: usize = 100;

/// A message between a client and the server.
#[derive(Debug, PartialEq, Eq)]
pub enum ClientServerMessages {
    /// The named user joins the server.
    Join(String),
    /// The named user leaves the server.
    Leave(String),
    /// The named user (first field) says something (second field).
    Message(String, String),
    /// The server refuses a request.
    Error(String),
}

/// The mathematical value of a [`ClientServerMessages`].
pub enum MessageView {
    Join(Seq<char>),
    Leave(Seq<char>),
    Message(Seq<char>, Seq<char>),
    Error(Seq<char>),
}

impl View for ClientServerMessages {
    type V = MessageView;

    open spec fn view(&self) -> MessageView {
        match *self {
            ClientServerMessages::Join(username) => MessageView::Join(username@),
            ClientServerMessages::Leave(username) => MessageView::Leave(username@),
            ClientServerMessages::Message(username, text) => MessageView::Message(
                username@,
                text@,
            ),
            ClientServerMessages::Error(text) => MessageView::Error(text@),
        }
    }
}

impl DeepView for ClientServerMessages {
    type V = MessageView;

    open spec fn deep_view(&self) -> MessageView {
        self@
    }
}

impl Clone for ClientServerMessages {
    fn clone(&self) -> (copy: Self)
        ensures
            copy == *self,
    {
        match self {
            ClientServerMessages::Join(username) => ClientServerMessages::Join(username.clone()),
            ClientServerMessages::Leave(username) => ClientServerMessages::Leave(username.clone()),
            ClientServerMessages::Message(username, text) => ClientServerMessages::Message(
                username.clone(),
                text.clone(),
            ),
            ClientServerMessages::Error(text) => ClientServerMessages::Error(text.clone()),
        }
    }
}

/// What reading from a stream of lines can bring.
#[derive(Debug, PartialEq, Eq)]
pub enum StreamEvent<T> {
    /// A line arrived; `T` is what it was read as.
    Item(T),
    /// A line was longer than the stream's limit.
    LineTooLong,
    /// The stream failed.
    IoError,
    /// The stream has ended.
    Ended,
}

impl<T: DeepView> DeepView for StreamEvent<T> {
    type V = StreamEvent<T::V>;

    open spec fn deep_view(&self) -> StreamEvent<T::V> {
        match *self {
            StreamEvent::Item(item) => StreamEvent::Item(item.deep_view()),
            StreamEvent::LineTooLong => StreamEvent::LineTooLong,
            StreamEvent::IoError => StreamEvent::IoError,
            StreamEvent::Ended => StreamEvent::Ended,
        }
    }
}

} // verus!
