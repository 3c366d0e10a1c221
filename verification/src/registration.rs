//! Adding users to the server and removing them.

use crate::channel::{channel_limit, is_fed_by, message_channel};
use crate::errors::{ServerError, ServerErrorView};
use crate::messages::{ClientServerMessages, MessageView, CHANNEL_SIZE};
use crate::user_map::UserMap;
use tokio::sync::mpsc::{Receiver, Sender};
use vstd::prelude::*;

verus! {

/// A user on the server, with what the session that serves this user works on: the stream `T` to
/// the client, the receiving half `R` of the user's channel, a handle `M` on the user map, and the
/// sending half `U` of the channel for updates to the user map.
#[derive(Debug)]
pub struct User<T, R, M, U> {
    pub username: String,
    pub user_stream: T,
    pub user_messages_rx: R,
    pub user_map: M,
    pub user_map_updates_tx: U,
}

impl<T, R, M, U> User<T, R, M, U> {
    /// A user made of these parts.
    pub fn new(
        username: String,
        user_stream: T,
        user_messages_rx: R,
        user_map: M,
        user_map_updates_tx: U,
    ) -> (user: Self)
        ensures
            user.username == username,
            user.user_stream == user_stream,
            user.user_messages_rx == user_messages_rx,
            user.user_map == user_map,
            user.user_map_updates_tx == user_map_updates_tx,
    {
        User { username, user_stream, user_messages_rx, user_map, user_map_updates_tx }
    }
}

/// A request for a username that is taken, with what to answer over the stream `T`.
#[derive(Debug)]
pub struct Refusal<T> {
    /// The username that is taken.
    pub username: String,
    /// The stream to the client who asked for it.
    pub user_stream: T,
    /// The answer to this client.
    pub reply: ClientServerMessages,
}

/// The answer to a client who asks for a username that is taken.
pub open spec fn refusal_reply(username: Seq<char>) -> MessageView {
    MessageView::Error(ServerErrorView::UsernameInUse(username).text())
}

/// The users after `username` asked to be registered with `channel`.
pub open spec fn registered<S>(
    users: Map<Seq<char>, S>,
    username: Seq<char>,
    channel: S,
) -> Map<Seq<char>, S> {
    if users.contains_key(username) {
        users
    } else {
        users.insert(username, channel)
    }
}

/// Adds a user, reached over `channel`, unless the username is taken.
pub fn register_with_channel<S, R, T, M, U>(
    user_map: &mut UserMap<S>,
    channel: (S, R),
    username: String,
    user_stream: T,
    user_map_handle: M,
    user_map_updates_tx: U,
) -> (result: Result<User<T, R, M, U>, Refusal<T>>)
    ensures
        final(user_map)@ == registered(old(user_map)@, username@, channel.0),
        match result {
            Ok(user) => {
                &&& !old(user_map)@.contains_key(username@)
                &&& user.username@ == username@
                &&& user.user_stream == user_stream
                &&& user.user_messages_rx == channel.1
                &&& user.user_map == user_map_handle
                &&& user.user_map_updates_tx == user_map_updates_tx
            },
            Err(refusal) => {
                &&& old(user_map)@.contains_key(username@)
                &&& refusal.username@ == username@
                &&& refusal.user_stream == user_stream
                &&& refusal.reply@ == refusal_reply(username@)
            },
        },
{
    let (sender, receiver) = channel;
    if user_map.get(username.as_str()).is_some() {
        let text = ServerError::UsernameInUse(username.clone()).text();
        return Err(Refusal { username, user_stream, reply: ClientServerMessages::Error(text) });
    }
    let replaced = user_map.insert(username.clone(), sender);
    assert(replaced is None);
    Ok(User::new(username, user_stream, receiver, user_map_handle, user_map_updates_tx))
}

/// Adds a user, reached over a new channel, if there is no user of the same name yet. The result
/// is the user whose messages are to be handled from now on, or the refusal to send back.
pub fn register_new_user<T, M, U>(
    user_map: &mut UserMap<Sender<ClientServerMessages>>,
    username: String,
    user_stream: T,
    user_map_handle: M,
    user_map_updates_tx: U,
) -> (result: Result<User<T, Receiver<ClientServerMessages>, M, U>, Refusal<T>>)
    ensures
        match result {
            Ok(user) => {
                let channel = final(user_map)@[username@];
                &&& !old(user_map)@.contains_key(username@)
                &&& final(user_map)@ == old(user_map)@.insert(username@, channel)
                &&& channel_limit(channel) == CHANNEL_SIZE
                &&& is_fed_by(user.user_messages_rx, channel)
                &&& user.username@ == username@
                &&& user.user_stream == user_stream
                &&& user.user_map == user_map_handle
                &&& user.user_map_updates_tx == user_map_updates_tx
            },
            Err(refusal) => {
                &&& old(user_map)@.contains_key(username@)
                &&& final(user_map)@ == old(user_map)@
                &&& refusal.username@ == username@
                &&& refusal.user_stream == user_stream
                &&& refusal.reply@ == refusal_reply(username@)
            },
        },
{
    let channel = message_channel();
    register_with_channel(
        user_map,
        channel,
        username,
        user_stream,
        user_map_handle,
        user_map_updates_tx,
    )
}

/// What became of the answer to a refused client.
#[derive(Debug, PartialEq, Eq)]
pub enum ReplyOutcome {
    /// The answer could not be put into a line, and was not sent.
    NotEncoded,
    /// The answer was sent.
    Sent,
    /// Sending the answer failed with an error of this text.
    Failed(String),
}

/// The error that a refused registration ends in.
pub fn refusal_error(username: &str, outcome: ReplyOutcome) -> (error: ServerError)
    ensures
        error@ == match outcome {
            ReplyOutcome::Failed(error) => ServerErrorView::ReplyFailed {
                error: error@,
                username: username@,
            },
            _ => ServerErrorView::UsernameInUse(username@),
        },
{
    match outcome {
        ReplyOutcome::Failed(error) => ServerError::ReplyFailed {
            error,
            username: username.to_owned(),
        },
        _ => ServerError::UsernameInUse(username.to_owned()),
    }
}

/// Removes an existing user. That there is no such user is an error.
pub fn deregister_user<S>(user_map: &mut UserMap<S>, username: &str) -> (result: Result<
    (),
    ServerError,
>)
    ensures
        final(user_map)@ == old(user_map)@.remove(username@),
        match result {
            Ok(_) => old(user_map)@.contains_key(username@),
            Err(error) => {
                &&& !old(user_map)@.contains_key(username@)
                &&& final(user_map)@ == old(user_map)@
                &&& error@ == ServerErrorView::UnknownUser(username@)
            },
        },
{
    match user_map.remove(username) {
        Some(_) => Ok(()),
        None => Err(ServerError::UnknownUser(username.to_owned())),
    }
}

} // verus!
