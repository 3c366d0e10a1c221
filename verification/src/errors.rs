//! What can go wrong, and the text that a person gets to read about it.

use vstd::prelude::*;
use vstd::string::*;

verus! {

/// Why a line typed at the terminal is no command.
#[derive(Debug, PartialEq, Eq)]
pub enum CommandError {
    /// The line has no first word.
    NoCommand,
    /// A `send` command has nothing to send.
    NoMessage,
    /// The first word is not the name of a command.
    InvalidCommand(String),
}

/// The mathematical value of a [`CommandError`].
pub enum CommandErrorView {
    NoCommand,
    NoMessage,
    InvalidCommand(Seq<char>),
}

impl View for CommandError {
    type V = CommandErrorView;

    open spec fn view(&self) -> CommandErrorView {
        match *self {
            CommandError::NoCommand => CommandErrorView::NoCommand,
            CommandError::NoMessage => CommandErrorView::NoMessage,
            CommandError::InvalidCommand(command) => CommandErrorView::InvalidCommand(command@),
        }
    }
}

impl CommandErrorView {
    /// The text for this error.
    pub open spec fn text(self) -> Seq<char> {
        match self {
            CommandErrorView::NoCommand => "Unable to split input message"@,
            CommandErrorView::NoMessage => "No message found with send command"@,
            CommandErrorView::InvalidCommand(command) => "Invalid command "@ + command
                + " received from user"@,
        }
    }
}

impl CommandError {
    /// The text for this error.
    pub fn text(&self) -> (text: String)
        ensures
            text@ == self@.text(),
    {
        match self {
            CommandError::NoCommand => "Unable to split input message".to_owned(),
            CommandError::NoMessage => "No message found with send command".to_owned(),
            CommandError::InvalidCommand(command) => "Invalid command ".to_owned().concat(
                command.as_str(),
            ).concat(" received from user"),
        }
    }
}

/// Why the server could not do what it was asked to.
#[derive(Debug, PartialEq, Eq)]
pub enum ServerError {
    /// The username is taken.
    UsernameInUse(String),
    /// The client who asked for a taken username could not be told.
    ReplyFailed { error: String, username: String },
    /// There is no such user.
    UnknownUser(String),
    /// A message did not reach the user it was for.
    SendFailed { error: String, sending_username: String, username: String },
}

/// The mathematical value of a [`ServerError`].
pub enum ServerErrorView {
    UsernameInUse(Seq<char>),
    ReplyFailed { error: Seq<char>, username: Seq<char> },
    UnknownUser(Seq<char>),
    SendFailed { error: Seq<char>, sending_username: Seq<char>, username: Seq<char> },
}

impl View for ServerError {
    type V = ServerErrorView;

    open spec fn view(&self) -> ServerErrorView {
        match *self {
            ServerError::UsernameInUse(username) => ServerErrorView::UsernameInUse(username@),
            ServerError::ReplyFailed { error, username } => ServerErrorView::ReplyFailed {
                error: error@,
                username: username@,
            },
            ServerError::UnknownUser(username) => ServerErrorView::UnknownUser(username@),
            ServerError::SendFailed { error, sending_username, username } => {
                ServerErrorView::SendFailed {
                    error: error@,
                    sending_username: sending_username@,
                    username: username@,
                }
            },
        }
    }
}

impl ServerErrorView {
    /// The text for this error.
    pub open spec fn text(self) -> Seq<char> {
        match self {
            ServerErrorView::UsernameInUse(username) => "Username "@ + username
                + " already in use. Please use another username"@,
            ServerErrorView::ReplyFailed { error, username } => "Error "@ + error
                + " sending username error message to user "@ + username,
            ServerErrorView::UnknownUser(username) => "Unable to find user "@ + username
                + " in the user map"@,
            ServerErrorView::SendFailed { error, sending_username, username } => "Error "@ + error
                + " sending message from user "@ + sending_username + " to user "@ + username,
        }
    }
}

impl ServerError {
    /// The text for this error.
    pub fn text(&self) -> (text: String)
        ensures
            text@ == self@.text(),
    {
        match self {
            ServerError::UsernameInUse(username) => "Username ".to_owned().concat(
                username.as_str(),
            ).concat(" already in use. Please use another username"),
            ServerError::ReplyFailed { error, username } => "Error ".to_owned().concat(
                error.as_str(),
            ).concat(" sending username error message to user ").concat(username.as_str()),
            ServerError::UnknownUser(username) => "Unable to find user ".to_owned().concat(
                username.as_str(),
            ).concat(" in the user map"),
            ServerError::SendFailed { error, sending_username, username } => {
                "Error ".to_owned().concat(error.as_str()).concat(
                    " sending message from user ",
                ).concat(sending_username.as_str()).concat(" to user ").concat(username.as_str())
            },
        }
    }
}

} // verus!
