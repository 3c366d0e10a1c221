//! The channels over which messages reach a user's session.

use crate::messages::{ClientServerMessages, CHANNEL_SIZE};
use tokio::sync::mpsc::{Receiver, Sender};
use vstd::prelude::*;

verus! {

/// The sending half of a tokio channel. What is in the channel is not part of its value.
#[verifier::external_type_specification]
#[verifier::external_body]
#[verifier::reject_recursive_types(T)]
pub struct ExSender<T>(tokio::sync::mpsc::Sender<T>);

/// The receiving half of a tokio channel. What is in the channel is not part of its value.
#[verifier::external_type_specification]
#[verifier::external_body]
#[verifier::reject_recursive_types(T)]
pub struct ExReceiver<T>(tokio::sync::mpsc::Receiver<T>);

/// How many messages the channel of this half can buffer at most, which tokio's
/// `Sender::max_capacity` tells: the number that the channel was made with.
pub uninterp spec fn channel_limit(sender: Sender<ClientServerMessages>) -> nat;

/// Whether what goes into `sender` comes out of `receiver`: they are the halves of one channel.
pub uninterp spec fn is_fed_by(
    receiver: Receiver<ClientServerMessages>,
    sender: Sender<ClientServerMessages>,
) -> bool;

/// Calls `tokio::sync::mpsc::channel`, which makes a channel and returns its two halves. The
/// channel buffers up to `buffer` messages. The call panics on a buffer of 0 and on one above
/// `Semaphore::MAX_PERMITS`, which is an eighth of `usize::MAX`.
#[verifier::external_body]
fn bounded_channel(buffer: usize) -> (halves: (
    Sender<ClientServerMessages>,
    Receiver<ClientServerMessages>,
))
    requires
        0 < buffer <= usize::MAX / 8,
    ensures
        channel_limit(halves.0) == buffer,
        is_fed_by(halves.1, halves.0),
{
    tokio::sync::mpsc::channel(buffer)
}

/// A new channel for messages.
pub fn message_channel() -> (halves: (
    Sender<ClientServerMessages>,
    Receiver<ClientServerMessages>,
))
    ensures
        channel_limit(halves.0) == CHANNEL_SIZE,
        is_fed_by(halves.1, halves.0),
{
    bounded_channel(CHANNEL_SIZE)
}

} // verus!
