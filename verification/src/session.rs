//! The session that serves one user on the server.

use crate::messages::{ClientServerMessages, MessageView, StreamEvent};
use crate::push::{push_message, reaches_all_others, Delivery};
use crate::registration::User;
use crate::updates::{update_view, Update};
use crate::user_map::UserMap;
use vstd::prelude::*;

verus! {

/// What a session waits for.
#[derive(Debug, PartialEq, Eq)]
pub enum UserEvent {
    /// The stream to the client brought something: a line, read as a message where it holds one,
    /// or something else.
    Incoming(StreamEvent<Option<ClientServerMessages>>),
    /// The user's channel brought a message for the client, or `None` where it is closed.
    Outgoing(Option<ClientServerMessages>),
}

/// The mathematical value of a [`UserEvent`].
pub enum UserEventView {
    Incoming(StreamEvent<Option<MessageView>>),
    Outgoing(Option<MessageView>),
}

impl View for UserEvent {
    type V = UserEventView;

    open spec fn view(&self) -> UserEventView {
        match *self {
            UserEvent::Incoming(event) => UserEventView::Incoming(event.deep_view()),
            UserEvent::Outgoing(message) => UserEventView::Outgoing(message.deep_view()),
        }
    }
}

/// What a session does. `T` is the stream to the user's client.
#[derive(Debug, PartialEq, Eq)]
pub enum UserAction<T> {
    /// Pass this message on to all users but the one of this name.
    Push { sending_username: String, message: ClientServerMessages },
    /// Hand this update to the user map.
    UpdateUserMap(Update<T>),
    /// Remove this user from the user map.
    Deregister(String),
    /// Send this message to the client.
    SendToClient(ClientServerMessages),
    /// Report a message that a client on the server must not send.
    ReportUnexpected(ClientServerMessages),
    /// Report a line that holds no message.
    ReportUndecodable,
    /// Report a line that is too long.
    ReportLineTooLong,
}

/// The mathematical value of a [`UserAction`].
pub enum UserActionView<T> {
    Push { sending_username: Seq<char>, message: MessageView },
    UpdateUserMap((MessageView, Option<T>)),
    Deregister(Seq<char>),
    SendToClient(MessageView),
    ReportUnexpected(MessageView),
    ReportUndecodable,
    ReportLineTooLong,
}

impl<T> DeepView for UserAction<T> {
    type V = UserActionView<T>;

    open spec fn deep_view(&self) -> UserActionView<T> {
        match *self {
            UserAction::Push { sending_username, message } => UserActionView::Push {
                sending_username: sending_username@,
                message: message@,
            },
            UserAction::UpdateUserMap(update) => UserActionView::UpdateUserMap(update_view(update)),
            UserAction::Deregister(username) => UserActionView::Deregister(username@),
            UserAction::SendToClient(message) => UserActionView::SendToClient(message@),
            UserAction::ReportUnexpected(message) => UserActionView::ReportUnexpected(message@),
            UserAction::ReportUndecodable => UserActionView::ReportUndecodable,
            UserAction::ReportLineTooLong => UserActionView::ReportLineTooLong,
        }
    }
}

/// What follows from an event.
#[derive(Debug, PartialEq, Eq)]
pub struct UserStep<T> {
    /// What to do, in this order. That one of them fails is reported and keeps none of the others
    /// from being done.
    pub actions: Vec<UserAction<T>>,
    /// Whether the session goes on after that.
    pub run_loop: bool,
}

/// What the session of `username` does on an event. It passes on what its client says to all users
/// but `username`, whatever name the message itself gives.
pub open spec fn user_actions<T>(username: Seq<char>, event: UserEventView) -> Seq<
    UserActionView<T>,
> {
    match event {
        UserEventView::Incoming(StreamEvent::Item(Some(message))) => match message {
            MessageView::Message(_, _) => seq![
                UserActionView::Push { sending_username: username, message },
            ],
            MessageView::Leave(_) => seq![
                UserActionView::Push { sending_username: username, message },
                UserActionView::UpdateUserMap((message, None)),
            ],
            _ => seq![UserActionView::ReportUnexpected(message)],
        },
        UserEventView::Incoming(StreamEvent::Item(None)) => seq![UserActionView::ReportUndecodable],
        UserEventView::Incoming(StreamEvent::LineTooLong) => seq![
            UserActionView::ReportLineTooLong,
        ],
        UserEventView::Incoming(StreamEvent::IoError) => seq![UserActionView::Deregister(username)],
        UserEventView::Incoming(StreamEvent::Ended) => seq![UserActionView::Deregister(username)],
        UserEventView::Outgoing(Some(message)) => seq![UserActionView::SendToClient(message)],
        UserEventView::Outgoing(None) => Seq::empty(),
    }
}

/// Whether this event ends a session: the client leaves, or the stream to the client is gone.
pub open spec fn ends_session(event: UserEventView) -> bool {
    match event {
        UserEventView::Incoming(StreamEvent::Item(Some(message))) => message is Leave,
        UserEventView::Incoming(StreamEvent::IoError) => true,
        UserEventView::Incoming(StreamEvent::Ended) => true,
        _ => false,
    }
}

/// What a session does first: it lets all other users know that the user has joined.
pub fn begin_user_session<T, R, M, U>(user: &User<T, R, M, U>) -> (action: UserAction<T>)
    ensures
        action.deep_view() == (UserActionView::<T>::Push {
            sending_username: user.username@,
            message: MessageView::Join(user.username@),
        }),
{
    UserAction::Push {
        sending_username: user.username.clone(),
        message: ClientServerMessages::Join(user.username.clone()),
    }
}

/// Plans how what a session passes on gets to all users but the user of the session, whatever name
/// the message itself gives.
pub fn pass_on<'a, S, T, R, M, U>(
    user: &User<T, R, M, U>,
    user_map: &'a UserMap<S>,
    message: &ClientServerMessages,
) -> (deliveries: Vec<Delivery<'a, S>>)
    ensures
        reaches_all_others(deliveries.deep_view(), user_map@, user.username@, message@),
{
    push_message(user_map, user.username.as_str(), message)
}

/// Handles messages to and from the client of a user.
pub fn process_user_updates<T, R, M, U>(user: &User<T, R, M, U>, event: UserEvent) -> (step:
    UserStep<T>)
    ensures
        step.actions.deep_view() == user_actions::<T>(user.username@, event@),
        step.run_loop == !ends_session(event@),
{
    let mut actions: Vec<UserAction<T>> = Vec::new();
    let mut run_loop = true;
    match event {
        UserEvent::Incoming(StreamEvent::Item(Some(message))) => match message {
            ClientServerMessages::Message(username, text) => {
                actions.push(
                    UserAction::Push {
                        sending_username: user.username.clone(),
                        message: ClientServerMessages::Message(username, text),
                    },
                );
            },
            ClientServerMessages::Leave(username) => {
                actions.push(
                    UserAction::Push {
                        sending_username: user.username.clone(),
                        message: ClientServerMessages::Leave(username.clone()),
                    },
                );
                actions.push(
                    UserAction::UpdateUserMap((ClientServerMessages::Leave(username), None)),
                );
                run_loop = false;
            },
            message => {
                actions.push(UserAction::ReportUnexpected(message));
            },
        },
        UserEvent::Incoming(StreamEvent::Item(None)) => {
            actions.push(UserAction::ReportUndecodable);
        },
        UserEvent::Incoming(StreamEvent::LineTooLong) => {
            actions.push(UserAction::ReportLineTooLong);
        },
        UserEvent::Incoming(StreamEvent::IoError) => {
            actions.push(UserAction::Deregister(user.username.clone()));
            run_loop = false;
        },
        UserEvent::Incoming(StreamEvent::Ended) => {
            actions.push(UserAction::Deregister(user.username.clone()));
            run_loop = false;
        },
        UserEvent::Outgoing(Some(message)) => {
            actions.push(UserAction::SendToClient(message));
        },
        UserEvent::Outgoing(None) => {},
    }
    UserStep { actions, run_loop }
}

} // verus!
