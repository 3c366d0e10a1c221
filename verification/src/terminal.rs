//! The client's terminal.

use crate::command::{command_of_line, convert_string_to_command};
use crate::errors::{CommandError, CommandErrorView};
use crate::messages::{ClientServerMessages, MessageView, StreamEvent};
use vstd::prelude::*;
use vstd::string::*;

verus! {

/// How the terminal stands. `E` is an error that ends it.
#[derive(Debug, PartialEq, Eq)]
pub enum TerminalState<E> {
    /// Lines are read and written.
    Running,
    /// The terminal has ended in good order.
    Finished,
    /// The terminal has ended with this error.
    Failed(E),
}

/// What the terminal waits for.
#[derive(Debug, PartialEq, Eq)]
pub enum TerminalEvent<E> {
    /// The user's input brought a line, or something else.
    Input(StreamEvent<String>),
    /// The connection brought a message for the user, or `None` where its channel is closed.
    Output(Option<ClientServerMessages>),
    /// The last action failed.
    ActionFailed(E),
}

/// The mathematical value of a [`TerminalEvent`].
pub enum TerminalEventView<E> {
    Input(StreamEvent<Seq<char>>),
    Output(Option<MessageView>),
    ActionFailed(E),
}

impl<E> View for TerminalEvent<E> {
    type V = TerminalEventView<E>;

    open spec fn view(&self) -> TerminalEventView<E> {
        match *self {
            TerminalEvent::Input(event) => TerminalEventView::Input(event.deep_view()),
            TerminalEvent::Output(message) => TerminalEventView::Output(message.deep_view()),
            TerminalEvent::ActionFailed(error) => TerminalEventView::ActionFailed(error),
        }
    }
}

/// What the terminal does.
#[derive(Debug, PartialEq, Eq)]
pub enum TerminalAction {
    /// Nothing.
    Wait,
    /// Hand this message to the connection.
    Forward(ClientServerMessages),
    /// Print this line.
    Print(String),
    /// Report a line that is no command.
    ReportCommand(CommandError),
    /// Report a line that is too long.
    ReportLineTooLong,
}

/// The mathematical value of a [`TerminalAction`].
pub enum TerminalActionView {
    Wait,
    Forward(MessageView),
    Print(Seq<char>),
    ReportCommand(CommandErrorView),
    ReportLineTooLong,
}

impl View for TerminalAction {
    type V = TerminalActionView;

    open spec fn view(&self) -> TerminalActionView {
        match *self {
            TerminalAction::Wait => TerminalActionView::Wait,
            TerminalAction::Forward(message) => TerminalActionView::Forward(message@),
            TerminalAction::Print(line) => TerminalActionView::Print(line@),
            TerminalAction::ReportCommand(error) => TerminalActionView::ReportCommand(error@),
            TerminalAction::ReportLineTooLong => TerminalActionView::ReportLineTooLong,
        }
    }
}

/// What follows from an event: what to do, and how the terminal stands then.
#[derive(Debug, PartialEq, Eq)]
pub struct TerminalStep<E> {
    pub action: TerminalAction,
    pub state: TerminalState<E>,
}

/// The line that shows a message to the user.
pub open spec fn display_line(message: MessageView) -> Seq<char> {
    match message {
        MessageView::Join(username) => username + ": joined the server"@,
        MessageView::Leave(username) => username + ": left the server"@,
        MessageView::Message(username, text) => username + ": "@ + text,
        MessageView::Error(text) => "Error: "@ + text,
    }
}

/// The line that shows a message to the user.
fn display_message(message: &ClientServerMessages) -> (line: String)
    ensures
        line@ == display_line(message@),
{
    match message {
        ClientServerMessages::Join(username) => username.clone().concat(": joined the server"),
        ClientServerMessages::Leave(username) => username.clone().concat(": left the server"),
        ClientServerMessages::Message(username, text) => username.clone().concat(": ").concat(
            text.as_str(),
        ),
        ClientServerMessages::Error(text) => "Error: ".to_owned().concat(text.as_str()),
    }
}

/// What the terminal of `username` does on an event.
pub open spec fn terminal_action<E>(
    username: Seq<char>,
    state: TerminalState<E>,
    event: TerminalEventView<E>,
) -> TerminalActionView {
    if state !is Running {
        TerminalActionView::Wait
    } else {
        match event {
            TerminalEventView::Input(StreamEvent::Item(line)) => match command_of_line(
                username,
                line,
            ) {
                Ok(command) => TerminalActionView::Forward(command),
                Err(error) => TerminalActionView::ReportCommand(error),
            },
            TerminalEventView::Input(StreamEvent::LineTooLong) => {
                TerminalActionView::ReportLineTooLong
            },
            TerminalEventView::Output(Some(message)) => TerminalActionView::Print(
                display_line(message),
            ),
            _ => TerminalActionView::Wait,
        }
    }
}

/// Whether the terminal is done after this event: the input or the connection is gone, or the
/// server has refused the user.
pub open spec fn ends_terminal<E>(event: TerminalEventView<E>) -> bool {
    match event {
        TerminalEventView::Input(StreamEvent::IoError) => true,
        TerminalEventView::Input(StreamEvent::Ended) => true,
        TerminalEventView::Output(Some(message)) => message is Error,
        TerminalEventView::Output(None) => true,
        _ => false,
    }
}

/// How the terminal stands after an event. That the action of the last event failed is an error
/// even where that event ended the terminal.
pub open spec fn terminal_state_after<E>(
    state: TerminalState<E>,
    event: TerminalEventView<E>,
) -> TerminalState<E> {
    match (state, event) {
        (TerminalState::Failed(_), _) => state,
        (_, TerminalEventView::ActionFailed(error)) => TerminalState::Failed(error),
        (TerminalState::Finished, _) => state,
        (TerminalState::Running, _) => {
            if ends_terminal(event) {
                TerminalState::Finished
            } else {
                state
            }
        },
    }
}

/// Handles the lines being read from and written to the terminal, and validates that what the
/// user sends is a command.
pub fn process_terminal<E>(username: &str, state: TerminalState<E>, event: TerminalEvent<E>) -> (
step: TerminalStep<E>)
    ensures
        step.action@ == terminal_action(username@, state, event@),
        step.state == terminal_state_after(state, event@),
{
    match (state, event) {
        (TerminalState::Failed(error), _) => TerminalStep {
            action: TerminalAction::Wait,
            state: TerminalState::Failed(error),
        },
        (_, TerminalEvent::ActionFailed(error)) => TerminalStep {
            action: TerminalAction::Wait,
            state: TerminalState::Failed(error),
        },
        (TerminalState::Finished, _) => TerminalStep {
            action: TerminalAction::Wait,
            state: TerminalState::Finished,
        },
        (TerminalState::Running, TerminalEvent::Input(StreamEvent::Item(line))) => TerminalStep {
            action: match convert_string_to_command(username, line.as_str()) {
                Ok(command) => TerminalAction::Forward(command),
                Err(error) => TerminalAction::ReportCommand(error),
            },
            state: TerminalState::Running,
        },
        (TerminalState::Running, TerminalEvent::Input(StreamEvent::LineTooLong)) => TerminalStep {
            action: TerminalAction::ReportLineTooLong,
            state: TerminalState::Running,
        },
        (TerminalState::Running, TerminalEvent::Input(_)) => TerminalStep {
            action: TerminalAction::Wait,
            state: TerminalState::Finished,
        },
        (TerminalState::Running, TerminalEvent::Output(Some(message))) => {
            let line = display_message(&message);
            TerminalStep {
                action: TerminalAction::Print(line),
                state: match message {
                    ClientServerMessages::Error(_) => TerminalState::Finished,
                    _ => TerminalState::Running,
                },
            }
        },
        (TerminalState::Running, TerminalEvent::Output(None)) => TerminalStep {
            action: TerminalAction::Wait,
            state: TerminalState::Finished,
        },
    }
}

} // verus!
