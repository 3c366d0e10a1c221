use simple_chat::address::server_address;
use simple_chat::connection::{
    begin_server_connection, process_server_connection, ConnectionAction, ConnectionEvent,
    ConnectionState, ConnectionStep,
};
use simple_chat::errors::CommandError;
use simple_chat::messages::{ClientServerMessages, StreamEvent};
use simple_chat::push::{begin_push, continue_push, push_message, PushState};
use simple_chat::registration::{deregister_user, register_new_user, User};
use simple_chat::session::{begin_user_session, process_user_updates, UserAction, UserEvent};
use simple_chat::terminal::{
    process_terminal, TerminalAction, TerminalEvent, TerminalState, TerminalStep,
};
use simple_chat::updates::{
    accept_new_connections, process_user_map_updates, ListenerAction, ListenerEvent, UserMapAction,
};
use simple_chat::user_map::UserMap;
use tokio::sync::mpsc::{Receiver, Sender};

type Event = ConnectionEvent<&'static str>;
type State = ConnectionState<&'static str>;

fn join(username: &str) -> ClientServerMessages {
    ClientServerMessages::Join(username.to_string())
}

fn leave(username: &str) -> ClientServerMessages {
    ClientServerMessages::Leave(username.to_string())
}

fn message(username: &str, text: &str) -> ClientServerMessages {
    ClientServerMessages::Message(username.to_string(), text.to_string())
}

fn step(action: ConnectionAction, state: State) -> ConnectionStep<&'static str> {
    ConnectionStep { action, state }
}

#[test]
fn connection_begins_with_a_join_message() {
    assert_eq!(
        begin_server_connection("a"),
        step(ConnectionAction::Send(join("a")), State::Joining)
    );
}

#[test]
fn connection_relays_messages_both_ways() {
    for state in [State::Joining, State::Running] {
        let running = match state {
            State::Joining => process_server_connection(
                State::Joining,
                Event::Outgoing(Some(leave("a"))),
            ),
            _ => process_server_connection(
                State::Running,
                Event::Outgoing(Some(leave("a"))),
            ),
        };
        assert_eq!(running, step(ConnectionAction::Send(leave("a")), State::Running));
    }
    assert_eq!(
        process_server_connection(
            State::Running,
            Event::Incoming(StreamEvent::Item(Some(join("b"))))
        ),
        step(ConnectionAction::Deliver(join("b")), State::Running)
    );
}

#[test]
fn connection_finishes_when_a_side_closes() {
    assert_eq!(
        process_server_connection(State::Running, Event::Outgoing(None)),
        step(ConnectionAction::Wait, State::Finished)
    );
    assert_eq!(
        process_server_connection(State::Joining, Event::Incoming(StreamEvent::Ended)),
        step(ConnectionAction::Wait, State::Finished)
    );
}

#[test]
fn connection_goes_on_after_what_it_cannot_use() {
    assert_eq!(
        process_server_connection(State::Running, Event::Incoming(StreamEvent::Item(None))),
        step(ConnectionAction::ReportUndecodable, State::Running)
    );
    assert_eq!(
        process_server_connection(State::Running, Event::Incoming(StreamEvent::LineTooLong)),
        step(ConnectionAction::Wait, State::Running)
    );
    assert_eq!(
        process_server_connection(State::Running, Event::Incoming(StreamEvent::IoError)),
        step(ConnectionAction::Wait, State::Running)
    );
    assert_eq!(
        process_server_connection(State::Running, Event::EncodeFailed("e")),
        step(ConnectionAction::Wait, State::Running)
    );
}

#[test]
fn connection_fails_when_an_action_fails() {
    assert_eq!(
        process_server_connection(State::Running, Event::ActionFailed("e")),
        step(ConnectionAction::Wait, State::Failed("e"))
    );
    assert_eq!(
        process_server_connection(State::Joining, Event::EncodeFailed("e")),
        step(ConnectionAction::Wait, State::Failed("e"))
    );
}

#[test]
fn ended_connection_is_at_rest() {
    assert_eq!(
        process_server_connection(State::Finished, Event::Outgoing(Some(join("a")))),
        step(ConnectionAction::Wait, State::Finished)
    );
    assert_eq!(
        process_server_connection(State::Failed("e"), Event::ActionFailed("f")),
        step(ConnectionAction::Wait, State::Failed("e"))
    );
}

type Input = TerminalEvent<&'static str>;
type Terminal = TerminalState<&'static str>;

fn terminal(event: Input) -> (TerminalAction, Terminal) {
    let TerminalStep { action, state } = process_terminal("me", Terminal::Running, event);
    (action, state)
}

fn typed(line: &str) -> Input {
    Input::Input(StreamEvent::Item(line.to_string()))
}

#[test]
fn terminal_hands_on_commands_only() {
    assert_eq!(
        terminal(typed("send hi there")),
        (TerminalAction::Forward(message("me", "hi there")), Terminal::Running)
    );
    assert_eq!(
        terminal(typed("leave")),
        (TerminalAction::Forward(leave("me")), Terminal::Running)
    );
    assert_eq!(
        terminal(typed("dance")),
        (
            TerminalAction::ReportCommand(CommandError::InvalidCommand("dance".to_string())),
            Terminal::Running
        )
    );
}

fn shown(line: &str) -> TerminalAction {
    TerminalAction::Print(line.to_string())
}

#[test]
fn terminal_shows_messages() {
    let output = |message| terminal(Input::Output(Some(message)));
    assert_eq!(output(join("a")), (shown("a: joined the server"), Terminal::Running));
    assert_eq!(output(leave("a")), (shown("a: left the server"), Terminal::Running));
    assert_eq!(output(message("a", "hi")), (shown("a: hi"), Terminal::Running));
    assert_eq!(
        output(ClientServerMessages::Error("no".to_string())),
        (shown("Error: no"), Terminal::Finished)
    );
}

#[test]
fn terminal_ends_when_input_or_connection_is_gone() {
    for event in [
        Input::Input(StreamEvent::IoError),
        Input::Input(StreamEvent::Ended),
        Input::Output(None),
    ] {
        assert_eq!(terminal(event), (TerminalAction::Wait, Terminal::Finished));
    }
    assert_eq!(
        terminal(Input::Input(StreamEvent::LineTooLong)),
        (TerminalAction::ReportLineTooLong, Terminal::Running)
    );
}

#[test]
fn terminal_fails_when_an_action_fails() {
    assert_eq!(
        terminal(Input::ActionFailed("e")),
        (TerminalAction::Wait, Terminal::Failed("e"))
    );
    // Also where the event before it ended the terminal.
    assert_eq!(
        process_terminal("me", Terminal::Finished, Input::ActionFailed("e")).state,
        Terminal::Failed("e")
    );
    assert_eq!(
        process_terminal("me", Terminal::Finished, typed("leave")),
        TerminalStep { action: TerminalAction::Wait, state: Terminal::Finished }
    );
    assert_eq!(
        process_terminal("me", Terminal::Failed("e"), Input::ActionFailed("f")).state,
        Terminal::Failed("e")
    );
}

type SessionUser = User<usize, Receiver<ClientServerMessages>, (), ()>;

/// A server in memory: the stream of a user is the position of the user's client.
struct Server {
    user_map: UserMap<Sender<ClientServerMessages>>,
    sessions: Vec<SessionUser>,
}

/// A client in memory: how its connection stands, and what it has handed to its terminal.
struct Client {
    state: State,
    delivered: Vec<ClientServerMessages>,
}

impl Server {
    fn push(&self, sending_username: &str, message: &ClientServerMessages) {
        let deliveries = push_message(&self.user_map, sending_username, message);
        let mut state = begin_push(&deliveries);
        while let PushState::Sending(position) = state {
            let delivery = &deliveries[position];
            let outcome = delivery
                .channel
                .try_send(delivery.message.clone())
                .map_err(|error| error.to_string());
            state = continue_push(sending_username, &deliveries, position, outcome);
        }
        assert_eq!(state, PushState::Finished(Ok(())));
    }

    /// A client connects and sends its first message.
    fn connect(&mut self, first: ClientServerMessages, client: usize) {
        let event = ListenerEvent::Connected {
            first: StreamEvent::Item(Some(first)),
            user_stream: client,
        };
        let update = match accept_new_connections(event) {
            ListenerAction::Forward(update) => update,
            action => panic!("{action:?}"),
        };
        match process_user_map_updates(Some(update)) {
            UserMapAction::Register { username, user_stream } => {
                let user =
                    register_new_user(&mut self.user_map, username, user_stream, (), ()).unwrap();
                match begin_user_session(&user) {
                    UserAction::Push { sending_username, message } => {
                        self.push(&sending_username, &message)
                    }
                    action => panic!("{action:?}"),
                }
                self.sessions.push(user);
            }
            action => panic!("{action:?}"),
        }
    }

    /// A client sends a message; the result tells whether its session goes on.
    fn receive(&mut self, client: usize, message: ClientServerMessages) -> bool {
        let event = UserEvent::Incoming(StreamEvent::Item(Some(message)));
        let step = process_user_updates(&self.sessions[client], event);
        for action in step.actions {
            match action {
                UserAction::Push { sending_username, message } => {
                    self.push(&sending_username, &message)
                }
                UserAction::UpdateUserMap(update) => {
                    match process_user_map_updates(Some(update)) {
                        UserMapAction::Deregister(username) => {
                            deregister_user(&mut self.user_map, &username).unwrap()
                        }
                        action => panic!("{action:?}"),
                    }
                }
                action => panic!("{action:?}"),
            }
        }
        step.run_loop
    }

    /// Sends a client what its channel has brought.
    fn flush(&mut self, client: usize, to: &mut Client) {
        while let Ok(message) = self.sessions[client].user_messages_rx.try_recv() {
            let event = UserEvent::Outgoing(Some(message));
            let step = process_user_updates(&self.sessions[client], event);
            for action in step.actions {
                match action {
                    UserAction::SendToClient(message) => to.receive(message),
                    action => panic!("{action:?}"),
                }
            }
        }
    }
}

impl Client {
    fn connect(username: &str) -> (Client, ClientServerMessages) {
        let ConnectionStep { action, state } = begin_server_connection(username);
        match action {
            ConnectionAction::Send(message) => (Client { state, delivered: vec![] }, message),
            action => panic!("{action:?}"),
        }
    }

    fn act(&mut self, event: Event) -> ConnectionAction {
        let state = std::mem::replace(&mut self.state, State::Finished);
        let step = process_server_connection(state, event);
        self.state = step.state;
        step.action
    }

    fn send(&mut self, message: ClientServerMessages) -> ClientServerMessages {
        match self.act(Event::Outgoing(Some(message))) {
            ConnectionAction::Send(message) => message,
            action => panic!("{action:?}"),
        }
    }

    fn receive(&mut self, message: ClientServerMessages) {
        match self.act(Event::Incoming(StreamEvent::Item(Some(message)))) {
            ConnectionAction::Deliver(message) => self.delivered.push(message),
            action => panic!("{action:?}"),
        }
    }
}

#[test]
fn test_two_clients() {
    let socket_address = "127.0.0.1:10000";
    let username_1 = "Test_Username_1";
    let username_2 = "Test_Username_2";

    assert_eq!(server_address(None, None), socket_address);
    let mut server = Server { user_map: UserMap::new(), sessions: vec![] };

    // Client 1 starts before client 2, so that it receives a join message from client 2.
    let (mut client_1, first) = Client::connect(username_1);
    server.connect(first, 0);
    let (mut client_2, first) = Client::connect(username_2);
    server.connect(first, 1);

    server.flush(0, &mut client_1);
    let join_message = client_1.delivered.pop().unwrap();

    // Check join message from client 2.
    assert_eq!(join_message, ClientServerMessages::Join(username_2.to_string()));

    let out_message_1 =
        ClientServerMessages::Message(username_1.to_string(), "Test message 1".to_string());

    let sent = client_1.send(out_message_1.clone());
    assert!(server.receive(0, sent));
    server.flush(1, &mut client_2);
    let in_message_1 = client_2.delivered.pop().unwrap();

    // Check that the message received by client 2 is the same as the message sent by client 1.
    assert_eq!(out_message_1, in_message_1);

    let out_message_2 =
        ClientServerMessages::Message(username_2.to_string(), "Test message 2".to_string());

    let sent = client_2.send(out_message_2.clone());
    assert!(server.receive(1, sent));
    server.flush(0, &mut client_1);
    let in_message_2 = client_1.delivered.pop().unwrap();

    // Check that the message received by client 1 is the same as the message sent by client 2.
    assert_eq!(out_message_2, in_message_2);

    let sent = client_1.send(ClientServerMessages::Leave(username_1.to_string()));
    assert!(!server.receive(0, sent));
    server.flush(1, &mut client_2);
    assert_eq!(client_2.delivered, vec![leave(username_1)]);

    let sent = client_2.send(ClientServerMessages::Leave(username_2.to_string()));
    assert!(!server.receive(1, sent));

    assert!(client_1.delivered.is_empty());
    assert!(server.user_map.get(username_1).is_none());
    assert!(server.user_map.get(username_2).is_none());
}
