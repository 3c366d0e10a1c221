use simple_chat::address::{server_address, socket_address};
use simple_chat::channel::message_channel;
use simple_chat::errors::ServerError;
use simple_chat::messages::{ClientServerMessages, StreamEvent, CHANNEL_SIZE};
use simple_chat::push::{begin_push, continue_push, push_message, PushState};
use simple_chat::registration::{
    deregister_user, refusal_error, register_new_user, register_with_channel, ReplyOutcome, User,
};
use simple_chat::session::{
    begin_user_session, pass_on, process_user_updates, UserAction, UserEvent,
};
use simple_chat::updates::{
    accept_new_connections, process_user_map_updates, ListenerAction, ListenerEvent, Rejection,
    Update, UserMapAction,
};
use simple_chat::user_map::UserMap;
use tokio::io::{duplex, DuplexStream};
use tokio::sync::mpsc::{channel, Receiver, Sender};
use tokio_util::codec::{Framed, LinesCodec};

type Stream = Framed<DuplexStream, LinesCodec>;

fn join(username: &str) -> ClientServerMessages {
    ClientServerMessages::Join(username.to_string())
}

fn leave(username: &str) -> ClientServerMessages {
    ClientServerMessages::Leave(username.to_string())
}

fn message(username: &str, text: &str) -> ClientServerMessages {
    ClientServerMessages::Message(username.to_string(), text.to_string())
}

#[test]
fn register_and_deregister() {
    let (_client, server) = duplex(1024);

    let user_stream = Framed::new(server, LinesCodec::new());
    let (user_map_updates_tx, _user_map_updates_rx) = channel::<Update<Stream>>(100);

    let mut user_map = UserMap::new();
    let username = "Test".to_string();

    register_new_user(&mut user_map, username.clone(), user_stream, (), user_map_updates_tx)
        .unwrap();
    deregister_user(&mut user_map, &username).unwrap();

    assert!(user_map.get("Test").is_none());
}

#[test]
fn register_twice() {
    let (_client, server) = duplex(1024);
    let (_client_2, server_2) = duplex(1024);

    let user_stream = Framed::new(server, LinesCodec::new());
    let user_stream_2 = Framed::new(server_2, LinesCodec::new());
    let (user_map_updates_tx, _user_map_updates_rx) = channel::<Update<Stream>>(100);

    let mut user_map = UserMap::new();
    let username = "Test".to_string();

    let user = register_new_user(
        &mut user_map,
        username.clone(),
        user_stream,
        (),
        user_map_updates_tx.clone(),
    )
    .unwrap();
    let refusal =
        register_new_user(&mut user_map, username, user_stream_2, (), user_map_updates_tx)
            .unwrap_err();

    assert_eq!(refusal.username, "Test");
    assert_eq!(
        refusal.reply,
        ClientServerMessages::Error(
            "Username Test already in use. Please use another username".to_string()
        )
    );

    // The first user keeps the place.
    let mut user_messages_rx = user.user_messages_rx;
    user_map.get("Test").unwrap().try_send(leave("x")).unwrap();
    assert_eq!(user_messages_rx.try_recv().unwrap(), leave("x"));
}

#[test]
fn deregister_without_registering() {
    let mut user_map: UserMap<u8> = UserMap::new();
    let username = "Test".to_string();

    let error = deregister_user(&mut user_map, &username).unwrap_err();

    assert_eq!(error, ServerError::UnknownUser("Test".to_string()));
    assert_eq!(error.text(), "Unable to find user Test in the user map");
}

#[test]
fn register_multiple_users() {
    let (_client, server) = duplex(1024);
    let (_client_2, server_2) = duplex(1024);

    let user_stream = Framed::new(server, LinesCodec::new());
    let user_stream_2 = Framed::new(server_2, LinesCodec::new());
    let (user_map_updates_tx, _user_map_updates_rx) = channel::<Update<Stream>>(CHANNEL_SIZE);

    let mut user_map = UserMap::new();
    let username = "Test".to_string();
    let username_2 = "Test_2".to_string();

    register_new_user(&mut user_map, username, user_stream, (), user_map_updates_tx.clone())
        .unwrap();
    register_new_user(&mut user_map, username_2, user_stream_2, (), user_map_updates_tx).unwrap();

    assert!(user_map.get("Test").is_some());
    assert!(user_map.get("Test_2").is_some());
    assert_eq!(user_map.entries().len(), 2);
}

#[test]
fn test_push_message() {
    let mut user_map: UserMap<Sender<ClientServerMessages>> = UserMap::new();

    let username_1 = "Test_User_1";
    let username_2 = "Test_User_2";
    let (user_messages_tx, mut user_messages_rx) = channel::<ClientServerMessages>(CHANNEL_SIZE);

    assert!(user_map.insert(username_1.to_string(), user_messages_tx).is_none());

    let message = ClientServerMessages::Message(
        username_2.to_string(),
        "This is a test message".to_string(),
    );

    let deliveries = push_message(&user_map, username_2, &message);
    let mut state = begin_push(&deliveries);
    while let PushState::Sending(position) = state {
        let delivery = &deliveries[position];
        let outcome = delivery
            .channel
            .try_send(delivery.message.clone())
            .map_err(|error| error.to_string());
        state = continue_push(username_2, &deliveries, position, outcome);
    }
    assert_eq!(state, PushState::Finished(Ok(())));

    let received_message = user_messages_rx.try_recv().unwrap();

    assert_eq!(message, received_message);
}

#[test]
fn message_channel_buffers_a_hundred_messages() {
    let (tx, mut rx) = message_channel();
    assert_eq!(tx.max_capacity(), 100);
    for i in 0..100 {
        tx.try_send(message("u", &i.to_string())).unwrap();
    }
    tx.try_send(message("u", "one too many")).unwrap_err();
    for i in 0..100 {
        assert_eq!(rx.try_recv().unwrap(), message("u", &i.to_string()));
    }
}

#[test]
fn new_user_is_made_of_what_it_was_registered_with() {
    let mut user_map: UserMap<u8> = UserMap::default();
    let user = register_with_channel(&mut user_map, (1, 2), "a".to_string(), 3, 4, 5).unwrap();
    assert_eq!(user.username, "a");
    assert_eq!(user.user_messages_rx, 2);
    assert_eq!(user.user_stream, 3);
    assert_eq!(user.user_map, 4);
    assert_eq!(user.user_map_updates_tx, 5);
    assert_eq!(user_map.get("a"), Some(&1));

    let refusal = register_with_channel(&mut user_map, (6, 7), "a".to_string(), 8, 9, 10)
        .unwrap_err();
    assert_eq!(refusal.user_stream, 8);
    assert_eq!(user_map.get("a"), Some(&1));
}

#[test]
fn user_map_keeps_one_channel_per_name() {
    let mut user_map: UserMap<u8> = UserMap::new();
    assert_eq!(user_map.insert("a".to_string(), 1), None);
    assert_eq!(user_map.insert("b".to_string(), 2), None);
    assert_eq!(user_map.insert("a".to_string(), 3), Some(1));
    assert_eq!(user_map.get("a"), Some(&3));
    assert_eq!(user_map.get("c"), None);
    assert_eq!(user_map.entries().len(), 2);
    assert_eq!(user_map.remove("a"), Some(3));
    assert_eq!(user_map.remove("a"), None);
    assert_eq!(user_map.get("b"), Some(&2));
}

#[test]
fn deregistering_undoes_registering() {
    let mut user_map: UserMap<u8> = UserMap::new();
    register_with_channel(&mut user_map, (1, ()), "a".to_string(), (), (), ()).unwrap();
    register_with_channel(&mut user_map, (2, ()), "b".to_string(), (), (), ()).unwrap();
    deregister_user(&mut user_map, "b").unwrap();
    assert_eq!(user_map.get("a"), Some(&1));
    assert_eq!(user_map.get("b"), None);
    register_with_channel(&mut user_map, (3, ()), "b".to_string(), (), (), ()).unwrap();
    assert_eq!(user_map.get("b"), Some(&3));
}

#[test]
fn push_reaches_every_user_but_the_sender_once() {
    let mut user_map: UserMap<u8> = UserMap::new();
    user_map.insert("a".to_string(), 1);
    user_map.insert("b".to_string(), 2);
    user_map.insert("c".to_string(), 3);

    let deliveries = push_message(&user_map, "b", &message("b", "hi"));
    let mut reached: Vec<(String, u8)> = Vec::new();
    for delivery in &deliveries {
        assert_eq!(delivery.message, message("b", "hi"));
        reached.push((delivery.username.clone(), *delivery.channel));
    }
    reached.sort();
    assert_eq!(reached, vec![("a".to_string(), 1), ("c".to_string(), 3)]);

    // Somebody who is not on the server reaches everybody.
    assert_eq!(push_message(&user_map, "x", &join("x")).len(), 3);
}

#[test]
fn push_to_nobody_is_finished_at_once() {
    let mut user_map: UserMap<u8> = UserMap::new();
    user_map.insert("a".to_string(), 1);
    let deliveries = push_message(&user_map, "a", &join("a"));
    assert_eq!(begin_push(&deliveries), PushState::Finished(Ok(())));
}

#[test]
fn first_failure_ends_a_push() {
    let mut user_map: UserMap<u8> = UserMap::new();
    user_map.insert("a".to_string(), 1);
    user_map.insert("b".to_string(), 2);
    user_map.insert("c".to_string(), 3);
    let deliveries = push_message(&user_map, "x", &join("x"));

    assert_eq!(begin_push(&deliveries), PushState::Sending(0));
    assert_eq!(continue_push("x", &deliveries, 0, Ok(())), PushState::Sending(1));
    let failed = continue_push("x", &deliveries, 1, Err("channel closed".to_string()));
    let username = deliveries[1].username.clone();
    let error = ServerError::SendFailed {
        error: "channel closed".to_string(),
        sending_username: "x".to_string(),
        username: username.clone(),
    };
    assert_eq!(
        error.text(),
        format!("Error channel closed sending message from user x to user {username}")
    );
    assert_eq!(failed, PushState::Finished(Err(error)));
    assert_eq!(continue_push("x", &deliveries, 2, Ok(())), PushState::Finished(Ok(())));
}

#[test]
fn refusal_ends_in_an_error() {
    let in_use = ServerError::UsernameInUse("a".to_string());
    assert_eq!(in_use.text(), "Username a already in use. Please use another username");
    assert_eq!(refusal_error("a", ReplyOutcome::Sent), in_use);
    assert_eq!(refusal_error("a", ReplyOutcome::NotEncoded), in_use);

    let failed = refusal_error("a", ReplyOutcome::Failed("broken pipe".to_string()));
    assert_eq!(
        failed,
        ServerError::ReplyFailed { error: "broken pipe".to_string(), username: "a".to_string() }
    );
    assert_eq!(failed.text(), "Error broken pipe sending username error message to user a");
}

#[test]
fn user_map_updates_are_decided_by_message_and_stream() {
    assert_eq!(
        process_user_map_updates(Some((join("a"), Some(7)))),
        UserMapAction::Register { username: "a".to_string(), user_stream: 7 }
    );
    assert_eq!(
        process_user_map_updates::<u8>(Some((leave("a"), None))),
        UserMapAction::Deregister("a".to_string())
    );
    assert_eq!(process_user_map_updates::<u8>(None), UserMapAction::Stop);
    for update in [
        (join("a"), None),
        (leave("a"), Some(7)),
        (message("a", "b"), None),
        (message("a", "b"), Some(7)),
        (ClientServerMessages::Error("e".to_string()), None),
    ] {
        assert_eq!(
            process_user_map_updates(Some(update.clone())),
            UserMapAction::Reject(update)
        );
    }
}

#[test]
fn only_a_join_message_lets_a_connection_in() {
    let connected = |first| ListenerEvent::Connected { first, user_stream: 7 };
    assert_eq!(
        accept_new_connections(connected(StreamEvent::Item(Some(join("a"))))),
        ListenerAction::Forward((join("a"), Some(7)))
    );
    for other in [leave("a"), message("a", "b"), ClientServerMessages::Error("e".to_string())] {
        assert_eq!(
            accept_new_connections(connected(StreamEvent::Item(Some(other.clone())))),
            ListenerAction::Reject(Rejection::NotJoin(other))
        );
    }
    assert_eq!(
        accept_new_connections(connected(StreamEvent::Item(None))),
        ListenerAction::Reject(Rejection::Undecodable)
    );
    assert_eq!(
        accept_new_connections(connected(StreamEvent::LineTooLong)),
        ListenerAction::Reject(Rejection::LineTooLong)
    );
    assert_eq!(
        accept_new_connections(connected(StreamEvent::IoError)),
        ListenerAction::Reject(Rejection::IoError)
    );
    assert_eq!(
        accept_new_connections(connected(StreamEvent::Ended)),
        ListenerAction::Reject(Rejection::Ended)
    );
    assert_eq!(
        accept_new_connections::<u8>(ListenerEvent::Failed),
        ListenerAction::Reject(Rejection::ConnectionFailed)
    );
    assert_eq!(accept_new_connections::<u8>(ListenerEvent::Ended), ListenerAction::Stop);
}

fn user(username: &str) -> User<(), (), (), ()> {
    User::new(username.to_string(), (), (), (), ())
}

fn steps(username: &str, event: UserEvent) -> (Vec<UserAction<()>>, bool) {
    let step = process_user_updates(&user(username), event);
    (step.actions, step.run_loop)
}

fn push(sending_username: &str, message: ClientServerMessages) -> UserAction<()> {
    UserAction::Push { sending_username: sending_username.to_string(), message }
}

fn line(message: ClientServerMessages) -> UserEvent {
    UserEvent::Incoming(StreamEvent::Item(Some(message)))
}

#[test]
fn session_announces_its_user() {
    assert_eq!(begin_user_session(&user("a")), push("a", join("a")));
}

#[test]
fn session_passes_on_what_the_client_says() {
    let said = message("a", "hi");
    assert_eq!(steps("a", line(said.clone())), (vec![push("a", said)], true));
    // The name in the message is passed on as it is, and is not the one that is left out.
    let said = message("b", "hi");
    assert_eq!(steps("a", line(said.clone())), (vec![push("a", said)], true));
}

#[test]
fn session_ends_when_the_client_leaves() {
    assert_eq!(
        steps("a", line(leave("a"))),
        (vec![push("a", leave("a")), UserAction::UpdateUserMap((leave("a"), None))], false)
    );
    // The name in the message is the one that is taken off the server.
    assert_eq!(
        steps("a", line(leave("b"))),
        (vec![push("a", leave("b")), UserAction::UpdateUserMap((leave("b"), None))], false)
    );
}

#[test]
fn session_ends_when_the_stream_is_gone() {
    for event in [StreamEvent::IoError, StreamEvent::Ended] {
        assert_eq!(
            steps("a", UserEvent::Incoming(event)),
            (vec![UserAction::Deregister("a".to_string())], false)
        );
    }
}

#[test]
fn session_goes_on_after_what_it_cannot_use() {
    for unexpected in [join("a"), ClientServerMessages::Error("e".to_string())] {
        assert_eq!(
            steps("a", line(unexpected.clone())),
            (vec![UserAction::ReportUnexpected(unexpected)], true)
        );
    }
    assert_eq!(
        steps("a", UserEvent::Incoming(StreamEvent::Item(None))),
        (vec![UserAction::ReportUndecodable], true)
    );
    assert_eq!(
        steps("a", UserEvent::Incoming(StreamEvent::LineTooLong)),
        (vec![UserAction::ReportLineTooLong], true)
    );
    assert_eq!(steps("a", UserEvent::Outgoing(None)), (vec![], true));
}

#[test]
fn session_sends_the_client_what_the_channel_brings() {
    assert_eq!(
        steps("a", UserEvent::Outgoing(Some(join("b")))),
        (vec![UserAction::SendToClient(join("b"))], true)
    );
}

#[test]
fn session_passes_on_to_all_but_its_own_user() {
    let mut user_map: UserMap<u8> = UserMap::new();
    user_map.insert("a".to_string(), 1);
    user_map.insert("b".to_string(), 2);
    user_map.insert("c".to_string(), 3);

    for said in [message("b", "hi"), message("a", "hi"), leave("c")] {
        let deliveries = pass_on(&user("a"), &user_map, &said);
        let mut reached: Vec<(String, u8)> = Vec::new();
        for delivery in &deliveries {
            assert_eq!(delivery.message, said);
            reached.push((delivery.username.clone(), *delivery.channel));
        }
        reached.sort();
        assert_eq!(reached, vec![("b".to_string(), 2), ("c".to_string(), 3)]);
    }
}

type Channels = UserMap<Sender<ClientServerMessages>>;

/// Makes all deliveries of a push.
fn push_all(user_map: &Channels, sending_username: &str, message: &ClientServerMessages) {
    for delivery in push_message(user_map, sending_username, message) {
        delivery.channel.try_send(delivery.message).unwrap();
    }
}

fn received(rx: &mut Receiver<ClientServerMessages>) -> Vec<ClientServerMessages> {
    let mut messages = Vec::new();
    while let Ok(message) = rx.try_recv() {
        messages.push(message);
    }
    messages
}

#[test]
fn two_pushes_arrive_in_order() {
    let mut user_map = Channels::new();
    let (tx_a, mut rx_a) = message_channel();
    let (tx_b, mut rx_b) = message_channel();
    let (tx_c, mut rx_c) = message_channel();
    user_map.insert("a".to_string(), tx_a);
    user_map.insert("b".to_string(), tx_b);
    user_map.insert("c".to_string(), tx_c);

    push_all(&user_map, "a", &message("a", "1"));
    push_all(&user_map, "b", &message("b", "2"));
    assert_eq!(received(&mut rx_a), vec![message("b", "2")]);
    assert_eq!(received(&mut rx_b), vec![message("a", "1")]);
    assert_eq!(received(&mut rx_c), vec![message("a", "1"), message("b", "2")]);

    push_all(&user_map, "a", &message("a", "3"));
    push_all(&user_map, "a", &message("a", "4"));
    assert_eq!(received(&mut rx_a), vec![]);
    assert_eq!(received(&mut rx_b), vec![message("a", "3"), message("a", "4")]);
}

#[test]
fn users_are_sent_what_is_pushed_while_they_are_on_the_server() {
    let mut user_map = Channels::new();
    let (tx_a, mut rx_a) = message_channel();
    let (tx_b, mut rx_b) = message_channel();
    let (tx_c, mut rx_c) = message_channel();

    user_map.insert("a".to_string(), tx_a);
    push_all(&user_map, "a", &join("a"));
    user_map.insert("b".to_string(), tx_b);
    push_all(&user_map, "b", &join("b"));
    push_all(&user_map, "a", &message("a", "1"));
    user_map.insert("c".to_string(), tx_c);
    push_all(&user_map, "a", &message("a", "2"));
    user_map.remove("b");
    push_all(&user_map, "a", &message("a", "3"));

    assert_eq!(received(&mut rx_a), vec![join("b")]);
    assert_eq!(received(&mut rx_b), vec![message("a", "1"), message("a", "2")]);
    assert_eq!(received(&mut rx_c), vec![message("a", "2"), message("a", "3")]);
}

#[test]
fn whole_session_is_heard_by_the_other_user_alone() {
    let mut user_map = Channels::new();
    let (tx_alice, mut rx_alice) = message_channel();
    let (tx_bob, mut rx_bob) = message_channel();
    user_map.insert("Alice".to_string(), tx_alice);
    user_map.insert("Bob".to_string(), tx_bob);

    let mut actions = vec![begin_user_session(&user("Alice"))];
    let mut run_loop = true;
    // The last line comes after the session has ended.
    for said in [message("Bob", "hi"), leave("Alice"), message("Alice", "still here")] {
        if run_loop {
            let step = process_user_updates(&user("Alice"), line(said));
            actions.extend(step.actions);
            run_loop = step.run_loop;
        }
    }
    assert!(!run_loop);

    let mut updates: Vec<Update<()>> = Vec::new();
    for action in actions {
        match action {
            UserAction::Push { sending_username, message } => {
                push_all(&user_map, &sending_username, &message)
            }
            UserAction::UpdateUserMap(update) => updates.push(update),
            action => panic!("{action:?}"),
        }
    }
    assert_eq!(
        received(&mut rx_bob),
        vec![join("Alice"), message("Bob", "hi"), leave("Alice")]
    );
    assert_eq!(received(&mut rx_alice), vec![]);
    assert_eq!(updates, vec![(leave("Alice"), None)]);
    assert!(user_map.get("Alice").is_some());
    assert!(user_map.get("Bob").is_some());
    assert_eq!(user_map.entries().len(), 2);
}

#[test]
fn addresses_have_an_ip_and_a_port() {
    assert_eq!(server_address(None, None), "127.0.0.1:10000");
    assert_eq!(server_address(Some("0.0.0.0".to_string()), None), "0.0.0.0:10000");
    assert_eq!(server_address(None, Some(80)), "127.0.0.1:80");
    assert_eq!(server_address(Some("10.0.0.1".to_string()), Some(65535)), "10.0.0.1:65535");
    assert_eq!(socket_address("10.0.0.1", 0), "10.0.0.1:0");
    assert_eq!(socket_address("::1", 10203), "::1:10203");
}
