//! Where users come from and go to: new connections, and updates to the user map.

use crate::messages::{ClientServerMessages, MessageView, StreamEvent};
use vstd::prelude::*;

verus! {

/// An update to the user map: a message, and the stream `T` to the client who sent it where that
/// client is new.
pub type Update<T> = (ClientServerMessages, Option<T>);

/// The mathematical value of an [`Update`].
pub open spec fn update_view<T>(update: Update<T>) -> (MessageView, Option<T>) {
    (update.0@, update.1)
}

/// What to do about an update to the user map.
#[derive(Debug, PartialEq, Eq)]
pub enum UserMapAction<T> {
    /// Register a new user.
    Register { username: String, user_stream: T },
    /// Deregister an existing user.
    Deregister(String),
    /// Do nothing but report this update, which is not valid.
    Reject(Update<T>),
    /// End: no more updates will come.
    Stop,
}

/// The mathematical value of a [`UserMapAction`].
pub enum UserMapActionView<T> {
    Register { username: Seq<char>, user_stream: T },
    Deregister(Seq<char>),
    Reject((MessageView, Option<T>)),
    Stop,
}

impl<T> View for UserMapAction<T> {
    type V = UserMapActionView<T>;

    open spec fn view(&self) -> UserMapActionView<T> {
        match *self {
            UserMapAction::Register { username, user_stream } => UserMapActionView::Register {
                username: username@,
                user_stream,
            },
            UserMapAction::Deregister(username) => UserMapActionView::Deregister(username@),
            UserMapAction::Reject(update) => UserMapActionView::Reject(update_view(update)),
            UserMapAction::Stop => UserMapActionView::Stop,
        }
    }
}

/// A user joins by an update that has a stream, and leaves by one that has none.
pub open spec fn user_map_action<T>(update: (MessageView, Option<T>)) -> UserMapActionView<T> {
    match update {
        (MessageView::Join(username), Some(user_stream)) => UserMapActionView::Register {
            username,
            user_stream,
        },
        (MessageView::Leave(username), None) => UserMapActionView::Deregister(username),
        _ => UserMapActionView::Reject(update),
    }
}

/// Decides about the next update to the user map, or `None` when the channel for updates is
/// closed.
pub fn process_user_map_updates<T>(update: Option<Update<T>>) -> (action: UserMapAction<T>)
    ensures
        action@ == match update {
            Some(update) => user_map_action(update_view(update)),
            None => UserMapActionView::Stop,
        },
{
    match update {
        Some((ClientServerMessages::Join(username), Some(user_stream))) => {
            UserMapAction::Register { username, user_stream }
        },
        Some((ClientServerMessages::Leave(username), None)) => UserMapAction::Deregister(username),
        Some(update) => UserMapAction::Reject(update),
        None => UserMapAction::Stop,
    }
}

/// What listening for connections can bring.
#[derive(Debug, PartialEq, Eq)]
pub enum ListenerEvent<T> {
    /// A client connected, and the stream to this client, read for the first time, brought
    /// `first`: a line, read as a message where it holds one, or something else.
    Connected { first: StreamEvent<Option<ClientServerMessages>>, user_stream: T },
    /// A client failed to connect.
    Failed,
    /// There will be no more connections.
    Ended,
}

/// Why a connection is dropped.
#[derive(Debug, PartialEq, Eq)]
pub enum Rejection {
    /// The connection failed.
    ConnectionFailed,
    /// The first line holds a message, but not a join message.
    NotJoin(ClientServerMessages),
    /// The first line holds no message.
    Undecodable,
    /// The first line is too long.
    LineTooLong,
    /// The stream failed.
    IoError,
    /// The stream ended before the first line.
    Ended,
}

/// The mathematical value of a [`Rejection`].
pub enum RejectionView {
    ConnectionFailed,
    NotJoin(MessageView),
    Undecodable,
    LineTooLong,
    IoError,
    Ended,
}

impl View for Rejection {
    type V = RejectionView;

    open spec fn view(&self) -> RejectionView {
        match *self {
            Rejection::ConnectionFailed => RejectionView::ConnectionFailed,
            Rejection::NotJoin(message) => RejectionView::NotJoin(message@),
            Rejection::Undecodable => RejectionView::Undecodable,
            Rejection::LineTooLong => RejectionView::LineTooLong,
            Rejection::IoError => RejectionView::IoError,
            Rejection::Ended => RejectionView::Ended,
        }
    }
}

/// What to do about a new connection.
#[derive(Debug, PartialEq, Eq)]
pub enum ListenerAction<T> {
    /// Pass this update on to the user map, and listen on.
    Forward(Update<T>),
    /// Drop the connection for this reason, and listen on.
    Reject(Rejection),
    /// Stop to listen.
    Stop,
}

/// The mathematical value of a [`ListenerAction`].
pub enum ListenerActionView<T> {
    Forward((MessageView, Option<T>)),
    Reject(RejectionView),
    Stop,
}

impl<T> View for ListenerAction<T> {
    type V = ListenerActionView<T>;

    open spec fn view(&self) -> ListenerActionView<T> {
        match *self {
            ListenerAction::Forward(update) => ListenerActionView::Forward(update_view(update)),
            ListenerAction::Reject(rejection) => ListenerActionView::Reject(rejection@),
            ListenerAction::Stop => ListenerActionView::Stop,
        }
    }
}

/// A connection is let in, with its stream, if and only if its first line is a join message.
pub open spec fn listener_action<T>(
    first: StreamEvent<Option<MessageView>>,
    user_stream: T,
) -> ListenerActionView<T> {
    match first {
        StreamEvent::Item(Some(message)) => {
            if message is Join {
                ListenerActionView::Forward((message, Some(user_stream)))
            } else {
                ListenerActionView::Reject(RejectionView::NotJoin(message))
            }
        },
        StreamEvent::Item(None) => ListenerActionView::Reject(RejectionView::Undecodable),
        StreamEvent::LineTooLong => ListenerActionView::Reject(RejectionView::LineTooLong),
        StreamEvent::IoError => ListenerActionView::Reject(RejectionView::IoError),
        StreamEvent::Ended => ListenerActionView::Reject(RejectionView::Ended),
    }
}

/// Decides about a new connection.
pub fn accept_new_connections<T>(event: ListenerEvent<T>) -> (action: ListenerAction<T>)
    ensures
        action@ == match event {
            ListenerEvent::Connected { first, user_stream } => listener_action(
                first.deep_view(),
                user_stream,
            ),
            ListenerEvent::Failed => ListenerActionView::Reject(RejectionView::ConnectionFailed),
            ListenerEvent::Ended => ListenerActionView::Stop,
        },
{
    match event {
        ListenerEvent::Connected { first, user_stream } => match first {
            StreamEvent::Item(Some(ClientServerMessages::Join(username))) => {
                ListenerAction::Forward((ClientServerMessages::Join(username), Some(user_stream)))
            },
            StreamEvent::Item(Some(message)) => ListenerAction::Reject(Rejection::NotJoin(message)),
            StreamEvent::Item(None) => ListenerAction::Reject(Rejection::Undecodable),
            StreamEvent::LineTooLong => ListenerAction::Reject(Rejection::LineTooLong),
            StreamEvent::IoError => ListenerAction::Reject(Rejection::IoError),
            StreamEvent::Ended => ListenerAction::Reject(Rejection::Ended),
        },
        ListenerEvent::Failed => ListenerAction::Reject(Rejection::ConnectionFailed),
        ListenerEvent::Ended => ListenerAction::Stop,
    }
}

} // verus!
