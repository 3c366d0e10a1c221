//! What each operation comes to, told from its results: for each result, when it comes about.

use crate::address::{address, decimal, digit, server_address, socket_address};
use crate::channel::{channel_limit, is_fed_by, message_channel};
use crate::command::{after_first_word, command_of_line, convert_string_to_command, first_word};
use crate::connection::{
    begin_server_connection, connection_action, connection_state_after, process_server_connection,
    ConnectionActionView, ConnectionEvent, ConnectionEventView, ConnectionState, ConnectionStep,
};
use crate::errors::{CommandError, CommandErrorView, ServerError, ServerErrorView};
use crate::messages::{ClientServerMessages, MessageView, StreamEvent};
use crate::push::{
    begin_push, continue_push, push_message, push_state_after, push_state_at, Delivery,
    DeliveryView, PushState, PushStateView,
};
use crate::registration::{
    deregister_user, refusal_error, refusal_reply, register_new_user, register_with_channel,
    registered, Refusal, ReplyOutcome, User,
};
use crate::session::{
    begin_user_session, ends_session, process_user_updates, user_actions, UserAction,
    UserActionView, UserEvent, UserEventView, UserStep,
};
use crate::terminal::{
    process_terminal, terminal_action, terminal_state_after, TerminalActionView, TerminalEvent,
    TerminalEventView, TerminalState, TerminalStep,
};
use crate::updates::{
    accept_new_connections, listener_action, process_user_map_updates, user_map_action,
    ListenerAction, ListenerActionView, ListenerEvent, RejectionView, Update, UserMapAction,
    UserMapActionView,
};
use crate::user_map::{lists, UserMap};
use tokio::sync::mpsc::{Receiver, Sender};
use vstd::prelude::*;

verus! {

// ---- Addresses ----
/// Whether a text is made of decimal digits, and of nothing else.
pub open spec fn is_number(text: Seq<char>) -> bool {
    &&& text.len() > 0
    &&& forall|i: int| 0 <= i < text.len() ==> '0' <= #[trigger] text[i] <= '9'
}

/// The number that a text of decimal digits stands for, read in base ten.
pub open spec fn number(text: Seq<char>) -> int
    decreases text.len(),
{
    if text.len() == 0 {
        0
    } else {
        10 * number(text.drop_last()) + (text.last() as int - '0' as int)
    }
}

proof fn lemma_decimal(n: nat)
    ensures
        is_number(decimal(n)),
        number(decimal(n)) == n,
        decimal(n).len() > 1 ==> decimal(n)[0] != '0',
        n > 0 ==> decimal(n)[0] != '0',
    decreases n,
{
    let text = decimal(n);
    assert(text.last() == digit(n % 10));
    assert('0' <= digit(n % 10) <= '9');
    assert(digit(n % 10) as int - '0' as int == n % 10);
    if n < 10 {
        assert(text.drop_last() =~= Seq::empty());
        assert(number(text.drop_last()) == 0);
    } else {
        lemma_decimal(n / 10);
        assert(text.drop_last() =~= decimal(n / 10));
        assert(text[0] == decimal(n / 10)[0]);
        assert forall|i: int| 0 <= i < text.len() implies '0' <= #[trigger] text[i] <= '9' by {
            if i < text.len() - 1 {
                assert(text[i] == decimal(n / 10)[i]);
            }
        }
    }
}

/// An address is the ip, one colon, and the port in decimal digits without leading zeros: read in
/// base ten, they give the port.
pub proof fn address_gives_ip_and_port(ip: Seq<char>, port: nat)
    ensures
        ({
            let text = address(ip, port);
            let digits = text.skip(1 + ip.len() as int);
            &&& text == ip.push(':') + digits
            &&& is_number(digits)
            &&& number(digits) == port
            &&& digits.len() > 1 ==> digits[0] != '0'
        }),
{
    reveal_strlit(":");
    lemma_decimal(port);
    let text = address(ip, port);
    assert(text.skip(1 + ip.len() as int) =~= decimal(port));
    assert(text =~= ip.push(':') + decimal(port));
}

/// Addresses are the same only where both ip and port are.
pub proof fn different_places_have_different_addresses(
    ip_1: Seq<char>,
    port_1: nat,
    ip_2: Seq<char>,
    port_2: nat,
)
    requires
        address(ip_1, port_1) == address(ip_2, port_2),
    ensures
        ip_1 == ip_2,
        port_1 == port_2,
{
    address_gives_ip_and_port(ip_1, port_1);
    address_gives_ip_and_port(ip_2, port_2);
    let text = address(ip_1, port_1);
    if ip_1.len() < ip_2.len() {
        let digits = text.skip(1 + ip_1.len() as int);
        assert(digits[ip_2.len() - ip_1.len() - 1] == text[ip_2.len() as int]);
        assert(text[ip_2.len() as int] == ':');
    } else if ip_2.len() < ip_1.len() {
        let digits = text.skip(1 + ip_2.len() as int);
        assert(digits[ip_1.len() - ip_2.len() - 1] == text[ip_1.len() as int]);
        assert(text[ip_1.len() as int] == ':');
    } else {
        assert(ip_1 =~= text.take(ip_1.len() as int));
        assert(ip_2 =~= text.take(ip_1.len() as int));
    }
}

/// The address to connect to is that of the ip and the port which are asked for.
pub proof fn client_connects_where_it_is_told(ip: &str, port: u16, text: String)
    requires
        call_ensures(socket_address, (ip, port), text),
    ensures
        ({
            let digits = text@.skip(1 + ip@.len() as int);
            &&& text@ == ip@.push(':') + digits
            &&& is_number(digits)
            &&& number(digits) == port
            &&& digits.len() > 1 ==> digits[0] != '0'
        }),
{
    address_gives_ip_and_port(ip@, port as nat);
}

/// The server listens on the ip and the port that are asked for; each of them that is not asked for
/// is the one that the server has by itself.
pub proof fn server_listens_where_it_is_told(ip: Option<String>, port: Option<u16>, text: String)
    requires
        call_ensures(server_address, (ip, port), text),
    ensures
        ({
            let told = match ip {
                Some(ip) => ip@,
                None => "127.0.0.1"@,
            };
            let digits = text@.skip(1 + told.len() as int);
            &&& text@ == told.push(':') + digits
            &&& is_number(digits)
            &&& digits.len() > 1 ==> digits[0] != '0'
            &&& port matches Some(port) ==> number(digits) == port
            &&& port is None ==> number(digits) == 10000
        }),
{
    let told = match ip {
        Some(ip) => ip@,
        None => "127.0.0.1"@,
    };
    address_gives_ip_and_port(
        told,
        match port {
            Some(port) => port as nat,
            None => 10000,
        },
    );
}

// ---- Commands ----
/// A line is its first word, with a space and the rest behind it where it has a space.
proof fn lemma_line_of_words(line: Seq<char>)
    ensures
        !first_word(line).contains(' '),
        line == first_word(line) || line == first_word(line).push(' ') + after_first_word(line),
        !line.contains(' ') ==> line == first_word(line) && after_first_word(line).len() == 0,
{
    line.index_of_first_ensures(' ');
    match line.index_of_first(' ') {
        Some(at) => {
            assert(line =~= line.take(at).push(' ') + line.skip(at + 1));
            assert forall|i: int| 0 <= i < line.take(at).len() implies line.take(at)[i] != ' ' by {
                assert(line.take(at)[i] == line[i]);
            }
        },
        None => {},
    }
}

/// Whoever splits a line into a word without spaces and a rest gets its first word.
proof fn lemma_words_of_line(word: Seq<char>, rest: Seq<char>)
    requires
        !word.contains(' '),
    ensures
        first_word(word) == word,
        after_first_word(word) == Seq::<char>::empty(),
        first_word(word.push(' ') + rest) == word,
        after_first_word(word.push(' ') + rest) == rest,
{
    word.index_of_first_ensures(' ');
    let line = word.push(' ') + rest;
    line.index_of_first_ensures(' ');
    assert(line[word.len() as int] == ' ');
    let at = line.index_of_first(' ')->0;
    assert(at <= word.len());
    if at < word.len() {
        assert(word[at] == line[at]);
    }
    assert(line.take(at) =~= word);
    assert(line.skip(at + 1) =~= rest);
}

/// Whether `line` is `word` alone, or `word` with a space and anything behind it.
pub open spec fn begins_with_word(line: Seq<char>, word: Seq<char>) -> bool {
    line == word || word.push(' ').is_prefix_of(line)
}

proof fn lemma_begins_with_first_word(line: Seq<char>, word: Seq<char>)
    requires
        !word.contains(' '),
    ensures
        begins_with_word(line, word) <==> first_word(line) == word,
{
    lemma_line_of_words(line);
    if word.push(' ').is_prefix_of(line) {
        let rest = line.skip(word.len() as int + 1);
        assert(line =~= word.push(' ') + rest);
        lemma_words_of_line(word, rest);
    } else if line == word {
        lemma_words_of_line(word, Seq::empty());
    }
    if first_word(line) == word && line != word {
        assert(word.push(' ') =~= line.subrange(0, word.len() as int + 1));
    }
}

proof fn lemma_command_words()
    ensures
        !"send"@.contains(' '),
        !"leave"@.contains(' '),
        "send"@ != "leave"@,
        "send"@.len() > 0,
        "leave"@.len() > 0,
        "send "@ == "send"@.push(' '),
        "leave "@ == "leave"@.push(' '),
{
    reveal_strlit("send");
    reveal_strlit("leave");
    reveal_strlit("send ");
    reveal_strlit("leave ");
    assert("send "@ =~= "send"@.push(' '));
    assert("leave "@ =~= "leave"@.push(' '));
    assert("send"@.len() != "leave"@.len());
}

/// A line is read as a message exactly where it is `send`, a space and a text that is not empty,
/// which is then said, or `leave`, alone or with a space and anything behind it. Both are in the
/// name of the user who types the line.
pub proof fn commands_are_send_and_leave(
    username: Seq<char>,
    line: Seq<char>,
    message: MessageView,
)
    ensures
        command_of_line(username, line) == Ok::<MessageView, CommandErrorView>(message) <==> {
            ||| message matches MessageView::Message(sender, text) && sender == username
                && text.len() > 0 && line == "send "@ + text
            ||| message matches MessageView::Leave(sender) && sender == username && (line
                == "leave"@ || "leave "@.is_prefix_of(line))
        },
{
    lemma_command_words();
    lemma_line_of_words(line);
    lemma_begins_with_first_word(line, "send"@);
    lemma_begins_with_first_word(line, "leave"@);
    if let MessageView::Message(_, text) = message {
        lemma_words_of_line("send"@, text);
    }
}

/// A line that begins with neither `send` and a space nor the word `leave` is no command, whatever
/// its first word: the terminal reports it, hands nothing to the connection, and runs on.
pub proof fn other_lines_are_not_forwarded<E>(
    username: Seq<char>,
    line: Seq<char>,
    message: MessageView,
)
    requires
        !("send "@.is_prefix_of(line) && line.len() > 5),
        line != "leave"@,
        !"leave "@.is_prefix_of(line),
    ensures
        command_of_line(username, line) is Err,
        ({
            let event = TerminalEventView::<E>::Input(StreamEvent::Item(line));
            let action = terminal_action(username, TerminalState::Running, event);
            &&& action is ReportCommand
            &&& action != TerminalActionView::Forward(message)
            &&& terminal_state_after(TerminalState::Running, event) == TerminalState::<E>::Running
        }),
{
    if let Ok(command) = command_of_line(username, line) {
        reveal_strlit("send ");
        commands_are_send_and_leave(username, line, command);
        if let MessageView::Message(_, text) = command {
            assert("send "@ =~= line.subrange(0, 5));
        }
    }
}

/// Why a line is no command: it has no first word, its first word is `send` with nothing to send
/// behind it, or its first word, which is then told, is neither `send` nor `leave`.
pub proof fn command_errors_tell_what_is_wrong(
    username: Seq<char>,
    line: Seq<char>,
    word: Seq<char>,
)
    ensures
        command_of_line(username, line) == Err::<MessageView, CommandErrorView>(
            CommandErrorView::NoCommand,
        ) <==> line.len() == 0 || line[0] == ' ',
        command_of_line(username, line) == Err::<MessageView, CommandErrorView>(
            CommandErrorView::NoMessage,
        ) <==> line == "send"@ || line == "send "@,
        command_of_line(username, line) == Err::<MessageView, CommandErrorView>(
            CommandErrorView::InvalidCommand(word),
        ) <==> {
            &&& word.len() > 0
            &&& !word.contains(' ')
            &&& begins_with_word(line, word)
            &&& word != "send"@
            &&& word != "leave"@
        },
{
    lemma_command_words();
    lemma_line_of_words(line);
    lemma_begins_with_first_word(line, "send"@);
    lemma_begins_with_first_word(line, "leave"@);
    if !word.contains(' ') {
        lemma_begins_with_first_word(line, word);
    }
    lemma_words_of_line("send"@, Seq::empty());
    assert("send "@ =~= "send"@.push(' ') + Seq::empty());
    let first = first_word(line);
    if first.len() > 0 {
        assert(line[0] == first[0]);
        assert(first.contains(first[0]));
    } else if line.len() > 0 {
        assert(line[0] == ' ');
    }
    if first == "send"@ && after_first_word(line).len() == 0 {
        assert(line == "send"@ || line =~= "send "@);
    }
}

/// What a typed line is read as is what these laws say of the line.
pub proof fn lines_are_read_as_stated(
    username: &str,
    line: &str,
    result: Result<ClientServerMessages, CommandError>,
)
    requires
        call_ensures(convert_string_to_command, (username, line), result),
    ensures
        result matches Ok(message) ==> command_of_line(username@, line@) == Ok::<
            MessageView,
            CommandErrorView,
        >(message@),
        result matches Err(error) ==> command_of_line(username@, line@) == Err::<
            MessageView,
            CommandErrorView,
        >(error@),
{
}

/// The text about each kind of command error.
pub proof fn command_errors_are_told_in_words(word: Seq<char>)
    ensures
        CommandErrorView::NoCommand.text() == "Unable to split input message"@,
        CommandErrorView::NoMessage.text() == "No message found with send command"@,
        CommandErrorView::InvalidCommand(word).text() == "Invalid command "@ + word
            + " received from user"@,
{
}

// ---- The client's terminal ----
/// A running terminal ends in good order if and only if the input fails or ends, the connection is
/// gone, or the server sends an error, and fails if and only if an action failed. After everything
/// else it runs on.
pub proof fn terminal_ends_when_a_side_closes<E>(event: TerminalEventView<E>, error: E)
    ensures
        ({
            let after = terminal_state_after(TerminalState::Running, event);
            &&& after is Finished <==> {
                ||| event == TerminalEventView::<E>::Input(StreamEvent::IoError)
                ||| event == TerminalEventView::<E>::Input(StreamEvent::Ended)
                ||| event == TerminalEventView::<E>::Output(None)
                ||| event matches TerminalEventView::Output(Some(MessageView::Error(_)))
            }
            &&& after == TerminalState::Failed(error) <==> event
                == TerminalEventView::ActionFailed(error)
            &&& after is Failed <==> event is ActionFailed
        }),
{
}

/// No line that is typed, and nobody who joins, leaves or says something, ends the terminal.
pub proof fn terminal_runs_on<E>(line: Seq<char>, username: Seq<char>, text: Seq<char>)
    ensures
        forall|event: TerminalEventView<E>|
            {
                ||| event == TerminalEventView::<E>::Input(StreamEvent::Item(line))
                ||| event == TerminalEventView::<E>::Input(StreamEvent::LineTooLong)
                ||| event == TerminalEventView::<E>::Output(Some(MessageView::Join(username)))
                ||| event == TerminalEventView::<E>::Output(Some(MessageView::Leave(username)))
                ||| event == TerminalEventView::<E>::Output(
                    Some(MessageView::Message(username, text)),
                )
            } ==> #[trigger] terminal_state_after(TerminalState::<E>::Running, event)
                == TerminalState::<E>::Running,
{
}

/// How a running terminal shows each kind of message, whoever uses it.
pub proof fn terminal_shows_messages<E>(user: Seq<char>, username: Seq<char>, text: Seq<char>)
    ensures
        terminal_action(
            user,
            TerminalState::<E>::Running,
            TerminalEventView::Output(Some(MessageView::Join(username))),
        ) == TerminalActionView::Print(username + ": joined the server"@),
        terminal_action(
            user,
            TerminalState::<E>::Running,
            TerminalEventView::Output(Some(MessageView::Leave(username))),
        ) == TerminalActionView::Print(username + ": left the server"@),
        terminal_action(
            user,
            TerminalState::<E>::Running,
            TerminalEventView::Output(Some(MessageView::Message(username, text))),
        ) == TerminalActionView::Print(username + ": "@ + text),
        terminal_action(
            user,
            TerminalState::<E>::Running,
            TerminalEventView::Output(Some(MessageView::Error(text))),
        ) == TerminalActionView::Print("Error: "@ + text),
{
}

/// A running terminal hands on, reports and prints in answer to nothing but what calls for it:
/// lines that are commands, lines that are none or are too long, and messages.
pub proof fn terminal_answers_what_calls_for_it<E>(
    username: Seq<char>,
    event: TerminalEventView<E>,
    message: MessageView,
    error: CommandErrorView,
)
    ensures
        ({
            let action = terminal_action(username, TerminalState::Running, event);
            &&& action == TerminalActionView::Forward(message) <==> (event
                matches TerminalEventView::Input(StreamEvent::Item(line)) && command_of_line(
                username,
                line,
            ) == Ok::<MessageView, CommandErrorView>(message))
            &&& action == TerminalActionView::ReportCommand(error) <==> (event
                matches TerminalEventView::Input(StreamEvent::Item(line)) && command_of_line(
                username,
                line,
            ) == Err::<MessageView, CommandErrorView>(error))
            &&& action is ReportLineTooLong <==> event == TerminalEventView::<E>::Input(
                StreamEvent::LineTooLong,
            )
            &&& action is Print <==> event matches TerminalEventView::Output(Some(_))
        }),
{
}

// ---- The client's connection ----
/// A connection that has not ended sends a message exactly where the terminal has that message for
/// the server, hands one on exactly where the server sends that message, and reports exactly the
/// lines that hold no message.
pub proof fn connection_carries_messages<E>(
    state: ConnectionState<E>,
    event: ConnectionEventView<E>,
    message: MessageView,
)
    requires
        state is Joining || state is Running,
    ensures
        connection_action(state, event) == ConnectionActionView::Send(message) <==> event
            == ConnectionEventView::<E>::Outgoing(Some(message)),
        connection_action(state, event) == ConnectionActionView::Deliver(message) <==> event
            == ConnectionEventView::<E>::Incoming(StreamEvent::Item(Some(message))),
        connection_action(state, event) is ReportUndecodable <==> event == ConnectionEventView::<
            E,
        >::Incoming(StreamEvent::Item(None)),
{
}

/// A connection that has not ended finishes if and only if one of its sides closes, and fails if
/// and only if an action fails, where to put the join message into a line is such an action and to
/// put a later message into a line is none. After everything else it runs.
pub proof fn connection_runs_until_it_ends<E>(
    state: ConnectionState<E>,
    event: ConnectionEventView<E>,
    error: E,
)
    requires
        state is Joining || state is Running,
    ensures
        ({
            let after = connection_state_after(state, event);
            &&& after is Finished <==> {
                ||| event == ConnectionEventView::<E>::Outgoing(None)
                ||| event == ConnectionEventView::<E>::Incoming(StreamEvent::Ended)
            }
            &&& after == ConnectionState::Failed(error) <==> {
                ||| event == ConnectionEventView::ActionFailed(error)
                ||| state is Joining && event == ConnectionEventView::EncodeFailed(error)
            }
            &&& after is Failed <==> event is ActionFailed || (state is Joining
                && event is EncodeFailed)
            &&& after !is Joining
        }),
{
}

/// A connection or a terminal that has ended does nothing more.
pub proof fn what_has_ended_waits<E>(
    error: E,
    connection_event: ConnectionEventView<E>,
    username: Seq<char>,
    terminal_event: TerminalEventView<E>,
)
    ensures
        connection_action(ConnectionState::Finished, connection_event)
            == ConnectionActionView::Wait,
        connection_action(ConnectionState::Failed(error), connection_event)
            == ConnectionActionView::Wait,
        connection_state_after(ConnectionState::Finished, connection_event)
            == ConnectionState::<E>::Finished,
        connection_state_after(ConnectionState::Failed(error), connection_event)
            == ConnectionState::Failed(error),
        terminal_action(username, TerminalState::Finished, terminal_event)
            == TerminalActionView::Wait,
        terminal_action(username, TerminalState::Failed(error), terminal_event)
            == TerminalActionView::Wait,
        terminal_state_after(TerminalState::Failed(error), terminal_event)
            == TerminalState::Failed(error),
{
}

/// A connection begins by telling the server who joins.
pub proof fn connection_begins_by_joining<E>(username: &str, step: ConnectionStep<E>)
    requires
        call_ensures(begin_server_connection::<E>, (username,), step),
    ensures
        step.action@ == ConnectionActionView::Send(MessageView::Join(username@)),
        step.state is Joining,
{
}

/// The connection acts and goes on as these laws say of each event.
pub proof fn connection_steps_as_stated<E>(
    state: ConnectionState<E>,
    event: ConnectionEvent<E>,
    step: ConnectionStep<E>,
)
    requires
        call_ensures(process_server_connection::<E>, (state, event), step),
    ensures
        step.action@ == connection_action(state, event@),
        step.state == connection_state_after(state, event@),
{
}

/// The terminal acts and goes on as these laws say of each event.
pub proof fn terminal_steps_as_stated<E>(
    username: &str,
    state: TerminalState<E>,
    event: TerminalEvent<E>,
    step: TerminalStep<E>,
)
    requires
        call_ensures(process_terminal::<E>, (username, state, event), step),
    ensures
        step.action@ == terminal_action(username@, state, event@),
        step.state == terminal_state_after(state, event@),
{
}

// ---- Sessions on the server ----
/// A session begins by telling all but its own user that this user has joined.
pub proof fn session_begins_by_announcing<T, R, M, U>(
    user: &User<T, R, M, U>,
    action: UserAction<T>,
)
    requires
        call_ensures(begin_user_session::<T, R, M, U>, (user,), action),
    ensures
        action matches UserAction::Push { sending_username, message } && sending_username@
            == user.username@ && message@ == MessageView::Join(user.username@),
{
}

/// A session acts and goes on as these laws say of each event.
pub proof fn session_steps_as_stated<T, R, M, U>(
    user: &User<T, R, M, U>,
    event: UserEvent,
    step: UserStep<T>,
)
    requires
        call_ensures(process_user_updates::<T, R, M, U>, (user, event), step),
    ensures
        step.actions.deep_view() == user_actions::<T>(user.username@, event@),
        step.run_loop <==> !ends_session(event@),
{
}

proof fn lemma_contains_one<A>(a: A, b: A)
    ensures
        seq![a].contains(b) <==> a == b,
{
    assert(seq![a][0] == a);
}

proof fn lemma_contains_two<A>(a: A, b: A, c: A)
    ensures
        seq![a, b].contains(c) <==> (c == a || c == b),
{
    assert(seq![a, b][0] == a);
    assert(seq![a, b][1] == b);
}

/// What a session does, and in answer to what. It passes on what its client says and that its
/// client leaves, always leaving out its own user; it hands a leave message to the user map,
/// without a stream; it takes its own user off where the stream is gone; it sends its client what
/// the channel brings; and it reports what else its client sends. Nothing is done twice, and
/// others are told that a user leaves before the user map is.
pub proof fn session_answers_what_calls_for_it<T>(
    username: Seq<char>,
    event: UserEventView,
    name: Seq<char>,
    message: MessageView,
    stream: Option<T>,
)
    ensures
        ({
            let actions = user_actions::<T>(username, event);
            let sent = event == UserEventView::Incoming(StreamEvent::Item(Some(message)));
            &&& actions.contains(
                UserActionView::Push { sending_username: name, message },
            ) <==> sent && (message is Message || message is Leave) && name == username
            &&& actions.contains(UserActionView::UpdateUserMap((message, stream))) <==> sent
                && message is Leave && stream is None
            &&& actions.contains(UserActionView::Deregister(name)) <==> name == username && (event
                == UserEventView::Incoming(StreamEvent::IoError) || event
                == UserEventView::Incoming(StreamEvent::Ended))
            &&& actions.contains(UserActionView::SendToClient(message)) <==> event
                == UserEventView::Outgoing(Some(message))
            &&& actions.contains(UserActionView::ReportUnexpected(message)) <==> sent && (
            message is Join || message is Error)
            &&& actions.contains(UserActionView::ReportUndecodable) <==> event
                == UserEventView::Incoming(StreamEvent::Item(None))
            &&& actions.contains(UserActionView::ReportLineTooLong) <==> event
                == UserEventView::Incoming(StreamEvent::LineTooLong)
            &&& actions.no_duplicates()
            &&& actions.len() > 1 ==> actions[0] is Push
        }),
{
    let actions = user_actions::<T>(username, event);
    let pushed = UserActionView::<T>::Push { sending_username: name, message };
    let updated = UserActionView::UpdateUserMap((message, stream));
    let removed = UserActionView::<T>::Deregister(name);
    let sent = UserActionView::<T>::SendToClient(message);
    let unexpected = UserActionView::<T>::ReportUnexpected(message);
    let undecodable = UserActionView::<T>::ReportUndecodable;
    let too_long = UserActionView::<T>::ReportLineTooLong;
    if actions.len() == 1 {
        let done = actions[0];
        assert(actions =~= seq![done]);
        lemma_contains_one(done, pushed);
        lemma_contains_one(done, updated);
        lemma_contains_one(done, removed);
        lemma_contains_one(done, sent);
        lemma_contains_one(done, unexpected);
        lemma_contains_one(done, undecodable);
        lemma_contains_one(done, too_long);
    } else if actions.len() == 2 {
        let first = actions[0];
        let second = actions[1];
        assert(actions =~= seq![first, second]);
        lemma_contains_two(first, second, pushed);
        lemma_contains_two(first, second, updated);
        lemma_contains_two(first, second, removed);
        lemma_contains_two(first, second, sent);
        lemma_contains_two(first, second, unexpected);
        lemma_contains_two(first, second, undecodable);
        lemma_contains_two(first, second, too_long);
    }
}

/// A session ends if and only if its client leaves or the stream to the client is gone.
pub proof fn session_ends_when_the_client_is_gone(event: UserEventView)
    ensures
        ends_session(event) <==> {
            ||| event matches UserEventView::Incoming(
                StreamEvent::Item(Some(MessageView::Leave(_))),
            )
            ||| event == UserEventView::Incoming(StreamEvent::IoError)
            ||| event == UserEventView::Incoming(StreamEvent::Ended)
        },
{
}

// ---- Passing messages on ----
/// The positions of the deliveries that are made from `state` on, and the state that is come to, in
/// at most `steps` steps, where `outcome` tells how each delivery turns out: a step makes the
/// delivery at the position that the state holds, and asks for the state after it.
pub open spec fn push_driven<S>(
    plan: Seq<DeliveryView<S>>,
    sending_username: Seq<char>,
    outcome: spec_fn(int) -> Result<(), Seq<char>>,
    state: PushStateView,
    steps: nat,
) -> (Seq<int>, PushStateView)
    decreases steps,
{
    match state {
        PushStateView::Sending(at) if steps > 0 => {
            let next = push_state_after(plan, sending_username, at, outcome(at));
            let later = push_driven(plan, sending_username, outcome, next, (steps - 1) as nat);
            (seq![at] + later.0, later.1)
        },
        _ => (Seq::empty(), state),
    }
}

proof fn lemma_push_driven_without_failure<S>(
    plan: Seq<DeliveryView<S>>,
    sending_username: Seq<char>,
    outcome: spec_fn(int) -> Result<(), Seq<char>>,
    position: int,
    steps: nat,
)
    requires
        0 <= position < plan.len(),
        steps >= plan.len() - position,
        forall|i: int| position <= i < plan.len() ==> (#[trigger] outcome(i)) is Ok,
    ensures
        push_driven(plan, sending_username, outcome, PushStateView::Sending(position), steps) == (
            Seq::new((plan.len() - position) as nat, |i: int| position + i),
            PushStateView::Finished(Ok(())),
        ),
    decreases plan.len() - position,
{
    assert(outcome(position) is Ok);
    let next = (steps - 1) as nat;
    if position + 1 < plan.len() {
        lemma_push_driven_without_failure(plan, sending_username, outcome, position + 1, next);
    } else {
        assert(push_driven(
            plan,
            sending_username,
            outcome,
            PushStateView::Finished(Ok(())),
            next,
        ).0 =~= Seq::empty());
    }
    assert(push_driven(
        plan,
        sending_username,
        outcome,
        PushStateView::Sending(position),
        steps,
    ).0 =~= Seq::new((plan.len() - position) as nat, |i: int| position + i));
}

proof fn lemma_push_driven_to_failure<S>(
    plan: Seq<DeliveryView<S>>,
    sending_username: Seq<char>,
    outcome: spec_fn(int) -> Result<(), Seq<char>>,
    position: int,
    failing: int,
    steps: nat,
)
    requires
        0 <= position <= failing < plan.len(),
        steps >= plan.len() - position,
        forall|i: int| position <= i < failing ==> (#[trigger] outcome(i)) is Ok,
        outcome(failing) is Err,
    ensures
        push_driven(plan, sending_username, outcome, PushStateView::Sending(position), steps) == (
            Seq::new((failing + 1 - position) as nat, |i: int| position + i),
            PushStateView::Finished(
                Err(
                    ServerErrorView::SendFailed {
                        error: outcome(failing)->Err_0,
                        sending_username,
                        username: plan[failing].username,
                    },
                ),
            ),
        ),
    decreases failing - position,
{
    let next = (steps - 1) as nat;
    let after = push_state_after(plan, sending_username, position, outcome(position));
    if position < failing {
        assert(outcome(position) is Ok);
        lemma_push_driven_to_failure(
            plan,
            sending_username,
            outcome,
            position + 1,
            failing,
            next,
        );
    } else {
        assert(push_driven(plan, sending_username, outcome, after, next).0 =~= Seq::empty());
    }
    assert(push_driven(
        plan,
        sending_username,
        outcome,
        PushStateView::Sending(position),
        steps,
    ).0 =~= Seq::new((failing + 1 - position) as nat, |i: int| position + i));
}

/// A push that goes by its states, from the first one on, makes every delivery of its plan exactly
/// once and in order where none fails, and ends well.
pub proof fn push_makes_every_delivery_once<S>(
    plan: Seq<DeliveryView<S>>,
    sending_username: Seq<char>,
    outcome: spec_fn(int) -> Result<(), Seq<char>>,
    steps: nat,
)
    requires
        steps >= plan.len(),
        forall|i: int| 0 <= i < plan.len() ==> (#[trigger] outcome(i)) is Ok,
    ensures
        push_driven(plan, sending_username, outcome, push_state_at(plan, 0), steps) == (
            Seq::new(plan.len(), |i: int| i),
            PushStateView::Finished(Ok(())),
        ),
{
    if plan.len() > 0 {
        lemma_push_driven_without_failure(plan, sending_username, outcome, 0, steps);
    }
    assert(push_driven(plan, sending_username, outcome, push_state_at(plan, 0), steps).0
        =~= Seq::new(plan.len(), |i: int| i));
}

/// A push that goes by its states makes every delivery up to and with the first one that fails,
/// once and in order, and no other; it ends with the error that this one failed with.
pub proof fn push_stops_at_the_first_failure<S>(
    plan: Seq<DeliveryView<S>>,
    sending_username: Seq<char>,
    outcome: spec_fn(int) -> Result<(), Seq<char>>,
    failing: int,
    steps: nat,
)
    requires
        steps >= plan.len(),
        0 <= failing < plan.len(),
        forall|i: int| 0 <= i < failing ==> (#[trigger] outcome(i)) is Ok,
        outcome(failing) is Err,
    ensures
        push_driven(plan, sending_username, outcome, push_state_at(plan, 0), steps) == (
            Seq::new((failing + 1) as nat, |i: int| i),
            PushStateView::Finished(
                Err(
                    ServerErrorView::SendFailed {
                        error: outcome(failing)->Err_0,
                        sending_username,
                        username: plan[failing].username,
                    },
                ),
            ),
        ),
{
    lemma_push_driven_to_failure(plan, sending_username, outcome, 0, failing, steps);
    assert(push_driven(plan, sending_username, outcome, push_state_at(plan, 0), steps).0
        =~= Seq::new((failing + 1) as nat, |i: int| i));
}

/// A push begins with the first delivery, if there is any.
pub proof fn push_begins_with_the_first_delivery<'a, S>(
    deliveries: &Vec<Delivery<'a, S>>,
    state: PushState,
)
    requires
        call_ensures(begin_push::<S>, (deliveries,), state),
    ensures
        deliveries@.len() > 0 ==> state == PushState::Sending(0),
        deliveries@.len() == 0 ==> state matches PushState::Finished(Ok(_)),
{
}

/// After a delivery that succeeded comes the very next one, or the good end after the last; one
/// that failed ends the push with an error that tells from whom, to whom and why.
pub proof fn push_goes_from_delivery_to_delivery<'a, S>(
    sending_username: &str,
    deliveries: &Vec<Delivery<'a, S>>,
    position: usize,
    outcome: Result<(), String>,
    state: PushState,
)
    requires
        position < deliveries@.len(),
        call_ensures(
            continue_push::<S>,
            (sending_username, deliveries, position, outcome),
            state,
        ),
    ensures
        outcome is Ok && position + 1 < deliveries@.len() ==> (state matches PushState::Sending(
            next,
        ) && next == position + 1),
        outcome is Ok && position + 1 == deliveries@.len() ==> (state
            matches PushState::Finished(Ok(_))),
        outcome matches Err(reason) ==> (state matches PushState::Finished(Err(error))
            && error@.text() == "Error "@ + reason@ + " sending message from user "@
            + sending_username@ + " to user "@ + deliveries@[position as int].username@),
{
}

/// A message is planned to go to whoever is on the server and is not the one who sends it, to
/// nobody twice, as it is, and over the channel of the user whom it goes to.
pub proof fn plan_is_for_everybody_else_once<'a, S>(
    user_map: &'a UserMap<S>,
    sending_username: &str,
    message: &ClientServerMessages,
    deliveries: Vec<Delivery<'a, S>>,
    username: Seq<char>,
)
    requires
        call_ensures(push_message::<S>, (user_map, sending_username, message), deliveries),
    ensures
        (exists|i: int|
            0 <= i < deliveries@.len() && (#[trigger] deliveries@[i]).username@ == username)
            <==> user_map@.contains_key(username) && username != sending_username@,
        forall|i: int, j: int|
            0 <= i < deliveries@.len() && 0 <= j < deliveries@.len() && (
            #[trigger] deliveries@[i]).username@ == (#[trigger] deliveries@[j]).username@ ==> i
                == j,
        forall|i: int|
            0 <= i < deliveries@.len() ==> {
                &&& (#[trigger] deliveries@[i]).message@ == message@
                &&& *deliveries@[i].channel == user_map@[deliveries@[i].username@]
            },
{
    let plan = deliveries.deep_view();
    assert forall|i: int| 0 <= i < deliveries@.len() implies #[trigger] plan[i]
        == deliveries@[i].deep_view() by {}
    if user_map@.contains_key(username) && username != sending_username@ {
        let i = choose|i: int| 0 <= i < plan.len() && (#[trigger] plan[i]).username == username;
        assert(deliveries@[i].username@ == username);
    }
    assert forall|i: int| 0 <= i < deliveries@.len() implies {
        &&& (#[trigger] deliveries@[i]).message@ == message@
        &&& *deliveries@[i].channel == user_map@[deliveries@[i].username@]
        &&& user_map@.contains_key(deliveries@[i].username@)
        &&& deliveries@[i].username@ != sending_username@
    } by {
        assert(plan[i] == deliveries@[i].deep_view());
    }
    assert forall|i: int, j: int|
        0 <= i < deliveries@.len() && 0 <= j < deliveries@.len() && (
        #[trigger] deliveries@[i]).username@ == (#[trigger] deliveries@[j]).username@ implies i
        == j by {
        assert(plan[i].username == plan[j].username);
    }
}

// ---- Users on the server ----
/// A user is registered exactly on a join message with a stream, under the name and with the stream
/// that it gives, and deregistered exactly on a leave message without one; every other update is
/// rejected as it is.
pub proof fn user_map_follows_join_and_leave<T>(
    update: (MessageView, Option<T>),
    username: Seq<char>,
    user_stream: T,
    rejected: (MessageView, Option<T>),
)
    ensures
        user_map_action(update) == (UserMapActionView::Register { username, user_stream })
            <==> update == (MessageView::Join(username), Some(user_stream)),
        user_map_action(update) == UserMapActionView::<T>::Deregister(username) <==> update == (
            MessageView::Leave(username),
            None::<T>,
        ),
        user_map_action(update) == UserMapActionView::Reject(rejected) <==> {
            &&& rejected == update
            &&& !(update.0 is Join && update.1 is Some)
            &&& !(update.0 is Leave && update.1 is None)
        },
        user_map_action(update) !is Stop,
{
}

/// The user map is done exactly where no more updates can come.
pub proof fn user_map_stops_without_updates<T>(update: Option<Update<T>>, action: UserMapAction<T>)
    requires
        call_ensures(process_user_map_updates::<T>, (update,), action),
    ensures
        action is Stop <==> update is None,
        action matches UserMapAction::Register { username, user_stream } ==> {
            &&& update matches Some((message, Some(stream)))
            &&& message@ == MessageView::Join(username@)
            &&& stream == user_stream
        },
        action matches UserMapAction::Deregister(username) ==> {
            &&& update matches Some((message, None))
            &&& message@ == MessageView::Leave(username@)
        },
{
}

/// A connection is let in, with its stream, exactly on a join message; and each reason for a
/// rejection has its own cause.
pub proof fn listener_lets_in_who_joins<T>(
    first: StreamEvent<Option<MessageView>>,
    user_stream: T,
    update: (MessageView, Option<T>),
    message: MessageView,
)
    ensures
        ({
            let action = listener_action(first, user_stream);
            &&& action == ListenerActionView::Forward(update) <==> {
                &&& update.0 is Join
                &&& update.1 == Some(user_stream)
                &&& first == StreamEvent::Item(Some(update.0))
            }
            &&& action == ListenerActionView::<T>::Reject(RejectionView::NotJoin(message)) <==> {
                &&& message !is Join
                &&& first == StreamEvent::Item(Some(message))
            }
            &&& action == ListenerActionView::<T>::Reject(RejectionView::Undecodable) <==> first
                == StreamEvent::<Option<MessageView>>::Item(None)
            &&& action == ListenerActionView::<T>::Reject(RejectionView::LineTooLong) <==> first
                == StreamEvent::<Option<MessageView>>::LineTooLong
            &&& action == ListenerActionView::<T>::Reject(RejectionView::IoError) <==> first
                == StreamEvent::<Option<MessageView>>::IoError
            &&& action == ListenerActionView::<T>::Reject(RejectionView::Ended) <==> first
                == StreamEvent::<Option<MessageView>>::Ended
            &&& action !is Stop
        }),
{
}

/// The listener stops exactly where there will be no more connections: neither a client that fails
/// to connect nor one that is rejected ends it.
pub proof fn listener_stops_at_the_end<T>(event: ListenerEvent<T>, action: ListenerAction<T>)
    requires
        call_ensures(accept_new_connections::<T>, (event,), action),
    ensures
        action is Stop <==> event is Ended,
        event is Failed ==> action@ == ListenerActionView::<T>::Reject(
            RejectionView::ConnectionFailed,
        ),
        action is Forward ==> event is Connected,
{
}

/// Who registers is on the server afterwards; all who were there are there as before, and nobody
/// else is.
pub proof fn registering_adds_one_user<S>(
    users: Map<Seq<char>, S>,
    username: Seq<char>,
    channel: S,
    name: Seq<char>,
)
    ensures
        registered(users, username, channel).contains_key(name) <==> users.contains_key(name)
            || name == username,
        users.contains_key(name) ==> registered(users, username, channel)[name] == users[name],
        !users.contains_key(username) ==> registered(users, username, channel)[username]
            == channel,
{
}

/// Whoever asks for a username is let on the server with it, with a channel of a hundred messages
/// that feeds the user's session, if and only if nobody there has it; all others stay as they are.
pub proof fn registration_is_by_free_username<T, M, U>(
    user_map: &mut UserMap<Sender<ClientServerMessages>>,
    username: String,
    user_stream: T,
    user_map_handle: M,
    user_map_updates_tx: U,
    result: Result<User<T, Receiver<ClientServerMessages>, M, U>, Refusal<T>>,
    name: Seq<char>,
)
    requires
        call_ensures(
            register_new_user::<T, M, U>,
            (user_map, username, user_stream, user_map_handle, user_map_updates_tx),
            result,
        ),
    ensures
        result is Ok <==> !old(user_map)@.contains_key(username@),
        final(user_map)@.contains_key(name) <==> old(user_map)@.contains_key(name) || name
            == username@,
        old(user_map)@.contains_key(name) ==> final(user_map)@[name] == old(user_map)@[name],
        result matches Ok(user) ==> {
            &&& user.username@ == username@
            &&& user.user_stream == user_stream
            &&& user.user_map == user_map_handle
            &&& user.user_map_updates_tx == user_map_updates_tx
            &&& is_fed_by(user.user_messages_rx, final(user_map)@[username@])
            &&& channel_limit(final(user_map)@[username@]) == 100
        },
        result matches Err(refusal) ==> {
            &&& refusal.username@ == username@
            &&& refusal.user_stream == user_stream
            &&& refusal.reply@ == MessageView::Error(
                "Username "@ + username@ + " already in use. Please use another username"@,
            )
        },
{
}

/// A user who is registered with a channel is reached over it, and reads from its other half.
pub proof fn registered_user_has_the_given_channel<S, R, T, M, U>(
    user_map: &mut UserMap<S>,
    channel: (S, R),
    username: String,
    user_stream: T,
    user_map_handle: M,
    user_map_updates_tx: U,
    result: Result<User<T, R, M, U>, Refusal<T>>,
    name: Seq<char>,
)
    requires
        call_ensures(
            register_with_channel::<S, R, T, M, U>,
            (user_map, channel, username, user_stream, user_map_handle, user_map_updates_tx),
            result,
        ),
    ensures
        result is Ok <==> !old(user_map)@.contains_key(username@),
        final(user_map)@.contains_key(name) <==> old(user_map)@.contains_key(name) || name
            == username@,
        old(user_map)@.contains_key(name) ==> final(user_map)@[name] == old(user_map)@[name],
        result matches Ok(user) ==> {
            &&& final(user_map)@[username@] == channel.0
            &&& user.user_messages_rx == channel.1
            &&& user.username@ == username@
            &&& user.user_stream == user_stream
            &&& user.user_map == user_map_handle
            &&& user.user_map_updates_tx == user_map_updates_tx
        },
        result matches Err(refusal) ==> {
            &&& refusal.username@ == username@
            &&& refusal.user_stream == user_stream
            &&& refusal.reply@ == MessageView::Error(
                "Username "@ + username@ + " already in use. Please use another username"@,
            )
        },
{
}

/// Deregistering takes exactly the named user off the server, and fails, with the name in the
/// error, exactly where there is no such user.
pub proof fn deregistering_takes_off_one_user<S>(
    user_map: &mut UserMap<S>,
    username: &str,
    result: Result<(), ServerError>,
    name: Seq<char>,
)
    requires
        call_ensures(deregister_user::<S>, (user_map, username), result),
    ensures
        result is Ok <==> old(user_map)@.contains_key(username@),
        final(user_map)@.contains_key(name) <==> old(user_map)@.contains_key(name) && name
            != username@,
        final(user_map)@.contains_key(name) ==> final(user_map)@[name] == old(user_map)@[name],
        result matches Err(error) ==> error@.text() == "Unable to find user "@ + username@
            + " in the user map"@,
{
}

/// After a channel is put into the user map under a name, that name gives this channel, and every
/// other name gives what it gave before.
pub proof fn inserted_channel_is_found<S>(
    user_map: &mut UserMap<S>,
    username: String,
    channel: S,
    replaced: Option<S>,
    earlier: &UserMap<S>,
    later: &UserMap<S>,
    name: &str,
    found_before: Option<&S>,
    found: Option<&S>,
)
    requires
        call_ensures(UserMap::<S>::insert, (user_map, username, channel), replaced),
        earlier@ == old(user_map)@,
        later@ == final(user_map)@,
        call_ensures(UserMap::<S>::get, (earlier, name), found_before),
        call_ensures(UserMap::<S>::get, (later, name), found),
    ensures
        name@ == username@ ==> found == Some(&channel),
        name@ == username@ ==> match replaced {
            Some(channel) => found_before == Some(&channel),
            None => found_before is None,
        },
        name@ != username@ ==> found == found_before,
{
}

/// After a name is removed from the user map, it gives no channel, and every other name gives what
/// it gave before.
pub proof fn removed_channel_is_gone<S>(
    user_map: &mut UserMap<S>,
    username: &str,
    removed: Option<S>,
    earlier: &UserMap<S>,
    later: &UserMap<S>,
    name: &str,
    found_before: Option<&S>,
    found: Option<&S>,
)
    requires
        call_ensures(UserMap::<S>::remove, (user_map, username), removed),
        earlier@ == old(user_map)@,
        later@ == final(user_map)@,
        call_ensures(UserMap::<S>::get, (earlier, name), found_before),
        call_ensures(UserMap::<S>::get, (later, name), found),
    ensures
        name@ == username@ ==> found is None,
        name@ == username@ ==> match removed {
            Some(channel) => found_before == Some(&channel),
            None => found_before is None,
        },
        name@ != username@ ==> found == found_before,
{
}

/// A new user map gives no channel for any name.
pub proof fn new_user_map_is_empty<S>(user_map: UserMap<S>, name: &str, found: Option<&S>)
    requires
        call_ensures(UserMap::<S>::new, (), user_map),
        call_ensures(UserMap::<S>::get, (&user_map, name), found),
    ensures
        found is None,
{
}

/// Entries that list the users hold each of them exactly once, with that user's channel.
pub proof fn entries_hold_each_user_once<S>(
    entries: Seq<(String, S)>,
    users: Map<Seq<char>, S>,
    username: Seq<char>,
)
    requires
        lists(entries, users),
    ensures
        users.contains_key(username) <==> entries.map_values(|entry: (String, S)| entry.0@).contains(
            username,
        ),
        entries.map_values(|entry: (String, S)| entry.0@).no_duplicates(),
        forall|i: int|
            0 <= i < entries.len() ==> users[(#[trigger] entries[i]).0@] == entries[i].1,
{
    let names = entries.map_values(|entry: (String, S)| entry.0@);
    if users.contains_key(username) {
        let i = choose|i: int| 0 <= i < entries.len() && (#[trigger] entries[i]).0@ == username;
        assert(names[i] == username);
    }
    if names.contains(username) {
        let i = choose|i: int| 0 <= i < names.len() && names[i] == username;
        assert(entries[i].0@ == username);
    }
    assert forall|i: int, j: int|
        0 <= i < names.len() && 0 <= j < names.len() && i != j implies names[i] != names[j] by {
        assert(entries[i].0@ == names[i]);
        assert(entries[j].0@ == names[j]);
    }
}

/// The channel of a user buffers a hundred messages, and what is sent into it comes out at the
/// user's session.
pub proof fn channels_buffer_a_hundred_messages(
    halves: (Sender<ClientServerMessages>, Receiver<ClientServerMessages>),
)
    requires
        call_ensures(message_channel, (), halves),
    ensures
        channel_limit(halves.0) == 100,
        is_fed_by(halves.1, halves.0),
{
}

/// Errors are shown in the words that these laws give for them.
pub proof fn error_texts_are_as_stated(
    command_error: CommandError,
    command_text: String,
    server_error: ServerError,
    server_text: String,
)
    requires
        call_ensures(CommandError::text, (&command_error,), command_text),
        call_ensures(ServerError::text, (&server_error,), server_text),
    ensures
        command_text@ == command_error@.text(),
        server_text@ == server_error@.text(),
{
}

/// A client who is refused is told which username is taken, in these words.
pub proof fn refusal_names_the_username(username: Seq<char>)
    ensures
        refusal_reply(username) == MessageView::Error(
            "Username "@ + username + " already in use. Please use another username"@,
        ),
{
}

/// What a refused registration ends in tells that the username is taken, unless the client could
/// not be told so for a reason, which is told then.
pub proof fn refusal_ends_in_its_reason(
    username: &str,
    outcome: ReplyOutcome,
    error: ServerError,
)
    requires
        call_ensures(refusal_error, (username, outcome), error),
    ensures
        outcome matches ReplyOutcome::Failed(reason) ==> error@.text() == "Error "@ + reason@
            + " sending username error message to user "@ + username@,
        outcome !is Failed ==> error@.text() == "Username "@ + username@
            + " already in use. Please use another username"@,
{
}

/// The text about each kind of server error.
pub proof fn server_errors_are_told_in_words(
    error: Seq<char>,
    sending_username: Seq<char>,
    username: Seq<char>,
)
    ensures
        ServerErrorView::UsernameInUse(username).text() == "Username "@ + username
            + " already in use. Please use another username"@,
        (ServerErrorView::ReplyFailed { error, username }).text() == "Error "@ + error
            + " sending username error message to user "@ + username,
        ServerErrorView::UnknownUser(username).text() == "Unable to find user "@ + username
            + " in the user map"@,
        (ServerErrorView::SendFailed { error, sending_username, username }).text() == "Error "@
            + error + " sending message from user "@ + sending_username + " to user "@ + username,
{
}

} // verus!
