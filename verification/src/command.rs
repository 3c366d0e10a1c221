//! The commands that a user types at the terminal.

use crate::errors::{CommandError, CommandErrorView};
use crate::messages::{ClientServerMessages, MessageView};
use vstd::prelude::*;
use vstd::string::*;

verus! {

/// The first word of a line: everything before the first space, or the whole line where it has
/// no space.
pub open spec fn first_word(line: Seq<char>) -> Seq<char> {
    match line.index_of_first(' ') {
        Some(at) => line.take(at),
        None => line,
    }
}

/// What follows the first space of a line; nothing where the line has no space.
pub open spec fn after_first_word(line: Seq<char>) -> Seq<char> {
    match line.index_of_first(' ') {
        Some(at) => line.skip(at + 1),
        None => Seq::empty(),
    }
}

/// The message that a line typed by `username` stands for, or why it stands for none.
pub open spec fn command_of_line(username: Seq<char>, line: Seq<char>) -> Result<
    MessageView,
    CommandErrorView,
> {
    let word = first_word(line);
    let rest = after_first_word(line);
    if word == "send"@ && rest.len() > 0 {
        Ok(MessageView::Message(username, rest))
    } else if word == "send"@ {
        Err(CommandErrorView::NoMessage)
    } else if word == "leave"@ {
        Ok(MessageView::Leave(username))
    } else if word.len() > 0 {
        Err(CommandErrorView::InvalidCommand(word))
    } else {
        Err(CommandErrorView::NoCommand)
    }
}

/// The mathematical value of what [`convert_string_to_command`] returns.
pub open spec fn command_view(result: Result<ClientServerMessages, CommandError>) -> Result<
    MessageView,
    CommandErrorView,
> {
    match result {
        Ok(message) => Ok(message@),
        Err(error) => Err(error@),
    }
}

/// The number of characters before the first space; the number of all characters where there is
/// no space.
fn find_space(line: &str) -> (position: usize)
    ensures
        position == first_word(line@).len(),
        position <= line@.len(),
        position < line@.len() <==> line@.contains(' '),
        line@.take(position as int) == first_word(line@),
        position < line@.len() ==> line@.skip(position + 1) == after_first_word(line@),
        position == line@.len() ==> after_first_word(line@).len() == 0,
{
    let length: usize = line.unicode_len();
    let mut position: usize = 0;
    let mut found = false;
    for c in chars: line.chars()
        invariant
            chars.seq() == line@,
            length == line@.len(),
            position <= chars.index() <= length,
            forall|j: int| 0 <= j < position ==> line@[j] != ' ',
            found ==> position < chars.index() && line@[position as int] == ' ',
            !found ==> position == chars.index(),
    {
        if !found {
            if c == ' ' {
                found = true;
            } else {
                position = position + 1;
            }
        }
    }
    proof {
        line@.index_of_first_ensures(' ');
        assert(line@.take(line@.len() as int) == line@);
    }
    position
}

/// Reads a line typed at the terminal: `send` with the text to send after a space, or `leave`.
/// The result is the message to send to the server, or the reason why there is none; a `send`
/// that is followed by nothing has no message.
pub fn convert_string_to_command(username: &str, command_string: &str) -> (result: Result<
    ClientServerMessages,
    CommandError,
>)
    ensures
        command_view(result) == command_of_line(username@, command_string@),
{
    let position = find_space(command_string);
    let length: usize = command_string.unicode_len();
    let command: String = command_string.substring_char(0, position).to_owned();
    assert(command@ == first_word(command_string@));
    if command == "send".to_owned() {
        if position < length && position + 1 < length {
            let message = command_string.substring_char(position + 1, length);
            assert(message@ == after_first_word(command_string@));
            Ok(ClientServerMessages::Message(username.to_owned(), message.to_owned()))
        } else {
            Err(CommandError::NoMessage)
        }
    } else if command == "leave".to_owned() {
        Ok(ClientServerMessages::Leave(username.to_owned()))
    } else if position > 0 {
        Err(CommandError::InvalidCommand(command))
    } else {
        Err(CommandError::NoCommand)
    }
}

} // verus!
