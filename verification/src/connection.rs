//! The client's connection to the server.

use crate::messages::{ClientServerMessages, MessageView, StreamEvent};
use vstd::prelude::*;

verus! {

/// How a connection stands. `E` is an error that ends it.
#[derive(Debug, PartialEq, Eq)]
pub enum ConnectionState<E> {
    /// The join message is being sent.
    Joining,
    /// Messages go both ways.
    Running,
    /// The connection has ended in good order.
    Finished,
    /// The connection has ended with this error.
    Failed(E),
}

impl<E> ConnectionState<E> {
    /// Whether the connection has ended.
    pub open spec fn ended(self) -> bool {
        self is Finished || self is Failed
    }
}

/// What a connection waits for.
#[derive(Debug, PartialEq, Eq)]
pub enum ConnectionEvent<E> {
    /// The terminal has a message for the server, or `None` where its channel is closed.
    Outgoing(Option<ClientServerMessages>),
    /// The stream from the server brought something: a line, read as a message where it holds one,
    /// or something else.
    Incoming(StreamEvent<Option<ClientServerMessages>>),
    /// The message of the last action could not be put into a line.
    EncodeFailed(E),
    /// The last action failed.
    ActionFailed(E),
}

/// The mathematical value of a [`ConnectionEvent`].
pub enum ConnectionEventView<E> {
    Outgoing(Option<MessageView>),
    Incoming(StreamEvent<Option<MessageView>>),
    EncodeFailed(E),
    ActionFailed(E),
}

impl<E> View for ConnectionEvent<E> {
    type V = ConnectionEventView<E>;

    open spec fn view(&self) -> ConnectionEventView<E> {
        match *self {
            ConnectionEvent::Outgoing(message) => ConnectionEventView::Outgoing(
                message.deep_view(),
            ),
            ConnectionEvent::Incoming(event) => ConnectionEventView::Incoming(event.deep_view()),
            ConnectionEvent::EncodeFailed(error) => ConnectionEventView::EncodeFailed(error),
            ConnectionEvent::ActionFailed(error) => ConnectionEventView::ActionFailed(error),
        }
    }
}

/// What a connection does.
#[derive(Debug, PartialEq, Eq)]
pub enum ConnectionAction {
    /// Nothing.
    Wait,
    /// Send this message to the server.
    Send(ClientServerMessages),
    /// Hand this message to the terminal.
    Deliver(ClientServerMessages),
    /// Report a line that holds no message.
    ReportUndecodable,
}

/// The mathematical value of a [`ConnectionAction`].
pub enum ConnectionActionView {
    Wait,
    Send(MessageView),
    Deliver(MessageView),
    ReportUndecodable,
}

impl View for ConnectionAction {
    type V = ConnectionActionView;

    open spec fn view(&self) -> ConnectionActionView {
        match *self {
            ConnectionAction::Wait => ConnectionActionView::Wait,
            ConnectionAction::Send(message) => ConnectionActionView::Send(message@),
            ConnectionAction::Deliver(message) => ConnectionActionView::Deliver(message@),
            ConnectionAction::ReportUndecodable => ConnectionActionView::ReportUndecodable,
        }
    }
}

/// What follows from an event: what to do, and how the connection stands then.
#[derive(Debug, PartialEq, Eq)]
pub struct ConnectionStep<E> {
    pub action: ConnectionAction,
    pub state: ConnectionState<E>,
}

/// What a connection does on an event.
pub open spec fn connection_action<E>(
    state: ConnectionState<E>,
    event: ConnectionEventView<E>,
) -> ConnectionActionView {
    if state.ended() {
        ConnectionActionView::Wait
    } else {
        match event {
            ConnectionEventView::Outgoing(Some(message)) => ConnectionActionView::Send(message),
            ConnectionEventView::Incoming(StreamEvent::Item(Some(message))) => {
                ConnectionActionView::Deliver(message)
            },
            ConnectionEventView::Incoming(StreamEvent::Item(None)) => {
                ConnectionActionView::ReportUndecodable
            },
            _ => ConnectionActionView::Wait,
        }
    }
}

/// How a connection stands after an event. It ends in good order when one side closes, and with an
/// error when an action fails; that a message cannot be put into a line is such an error for the
/// join message only.
pub open spec fn connection_state_after<E>(
    state: ConnectionState<E>,
    event: ConnectionEventView<E>,
) -> ConnectionState<E> {
    if state.ended() {
        state
    } else {
        match event {
            ConnectionEventView::Outgoing(None) => ConnectionState::Finished,
            ConnectionEventView::Incoming(StreamEvent::Ended) => ConnectionState::Finished,
            ConnectionEventView::ActionFailed(error) => ConnectionState::Failed(error),
            ConnectionEventView::EncodeFailed(error) => {
                if state is Joining {
                    ConnectionState::Failed(error)
                } else {
                    state
                }
            },
            _ => ConnectionState::Running,
        }
    }
}

/// How a connection that has just been made begins: with a join message to the server.
pub fn begin_server_connection<E>(username: &str) -> (step: ConnectionStep<E>)
    ensures
        step.action@ == ConnectionActionView::Send(MessageView::Join(username@)),
        step.state == ConnectionState::<E>::Joining,
{
    ConnectionStep {
        action: ConnectionAction::Send(ClientServerMessages::Join(username.to_owned())),
        state: ConnectionState::Joining,
    }
}

/// Handles messages being sent to and from the server. The events after the join message has
/// been sent come in state `Joining` once, and in state `Running` from then on.
pub fn process_server_connection<E>(
    state: ConnectionState<E>,
    event: ConnectionEvent<E>,
) -> (step: ConnectionStep<E>)
    ensures
        step.action@ == connection_action(state, event@),
        step.state == connection_state_after(state, event@),
{
    let joining = match state {
        ConnectionState::Joining => true,
        ConnectionState::Running => false,
        ended => {
            return ConnectionStep { action: ConnectionAction::Wait, state: ended };
        },
    };
    match event {
        ConnectionEvent::Outgoing(Some(message)) => ConnectionStep {
            action: ConnectionAction::Send(message),
            state: ConnectionState::Running,
        },
        ConnectionEvent::Outgoing(None) => ConnectionStep {
            action: ConnectionAction::Wait,
            state: ConnectionState::Finished,
        },
        ConnectionEvent::Incoming(StreamEvent::Item(Some(message))) => ConnectionStep {
            action: ConnectionAction::Deliver(message),
            state: ConnectionState::Running,
        },
        ConnectionEvent::Incoming(StreamEvent::Item(None)) => ConnectionStep {
            action: ConnectionAction::ReportUndecodable,
            state: ConnectionState::Running,
        },
        ConnectionEvent::Incoming(StreamEvent::Ended) => ConnectionStep {
            action: ConnectionAction::Wait,
            state: ConnectionState::Finished,
        },
        ConnectionEvent::Incoming(_) => ConnectionStep {
            action: ConnectionAction::Wait,
            state: ConnectionState::Running,
        },
        ConnectionEvent::EncodeFailed(error) => ConnectionStep {
            action: ConnectionAction::Wait,
            state: if joining {
                ConnectionState::Failed(error)
            } else {
                ConnectionState::Running
            },
        },
        ConnectionEvent::ActionFailed(error) => ConnectionStep {
            action: ConnectionAction::Wait,
            state: ConnectionState::Failed(error),
        },
    }
}

} // verus!
