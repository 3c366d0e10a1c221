//! Passing a message on from one user to all the others.

use crate::errors::{ServerError, ServerErrorView};
use crate::messages::{ClientServerMessages, MessageView};
use crate::user_map::{lists, UserMap};
use vstd::prelude::*;

verus! {

/// A message that is due to a user.
#[derive(Debug)]
pub struct Delivery<'a, S> {
    /// The user it is for.
    pub username: &'a String,
    /// The channel that reaches this user.
    pub channel: &'a S,
    /// What to send.
    pub message: ClientServerMessages,
}

/// The mathematical value of a [`Delivery`].
pub struct DeliveryView<S> {
    pub username: Seq<char>,
    pub channel: S,
    pub message: MessageView,
}

impl<'a, S> DeepView for Delivery<'a, S> {
    type V = DeliveryView<S>;

    open spec fn deep_view(&self) -> DeliveryView<S> {
        DeliveryView {
            username: self.username@,
            channel: *self.channel,
            message: self.message@,
        }
    }
}

/// Whether `plan` brings `message` to each of the `users` but the one that sends it, once, over
/// that user's own channel, and to nobody else.
pub open spec fn reaches_all_others<S>(
    plan: Seq<DeliveryView<S>>,
    users: Map<Seq<char>, S>,
    sending_username: Seq<char>,
    message: MessageView,
) -> bool {
    &&& forall|i: int|
        0 <= i < plan.len() ==> {
            &&& (#[trigger] plan[i]).username != sending_username
            &&& users.contains_key(plan[i].username)
            &&& plan[i].channel == users[plan[i].username]
            &&& plan[i].message == message
        }
    &&& forall|i: int, j: int|
        0 <= i < j < plan.len() ==> (#[trigger] plan[i]).username != (#[trigger] plan[j]).username
    &&& forall|username: Seq<char>| #[trigger]
        users.contains_key(username) && username != sending_username ==> exists|i: int|
            0 <= i < plan.len() && (#[trigger] plan[i]).username == username
}

/// Plans how a message gets from one user to all other users on the server.
///
/// The deliveries are then made one after the other: [`begin_push`] and [`continue_push`] say
/// which one is next and when to stop.
pub fn push_message<'a, S>(
    user_map: &'a UserMap<S>,
    sending_username: &str,
    message: &ClientServerMessages,
) -> (deliveries: Vec<Delivery<'a, S>>)
    ensures
        reaches_all_others(deliveries.deep_view(), user_map@, sending_username@, message@),
{
    let sender: String = sending_username.to_owned();
    let entries = user_map.entries();
    let mut deliveries: Vec<Delivery<'a, S>> = Vec::new();
    let mut i: usize = 0;
    while i < entries.len()
        invariant
            i <= entries@.len(),
            sender@ == sending_username@,
            lists(entries@, user_map@),
            forall|k: int|
                0 <= k < deliveries@.len() ==> {
                    &&& (#[trigger] deliveries@[k]).username@ != sender@
                    &&& user_map@.contains_key(deliveries@[k].username@)
                    &&& *deliveries@[k].channel == user_map@[deliveries@[k].username@]
                    &&& deliveries@[k].message@ == message@
                },
            forall|k: int|
                0 <= k < deliveries@.len() ==> exists|j: int|
                    0 <= j < i && (#[trigger] entries@[j]).0@ == (
                    #[trigger] deliveries@[k]).username@,
            forall|k: int, l: int|
                0 <= k < l < deliveries@.len() ==> (#[trigger] deliveries@[k]).username@ != (
                #[trigger] deliveries@[l]).username@,
            forall|j: int|
                0 <= j < i && (#[trigger] entries@[j]).0@ != sender@ ==> exists|k: int|
                    0 <= k < deliveries@.len() && (#[trigger] deliveries@[k]).username@
                        == entries@[j].0@,
        decreases entries@.len() - i,
    {
        let ghost before = deliveries@;
        let (username, channel) = &entries[i];
        if *username != sender {
            deliveries.push(Delivery { username, channel, message: message.clone() });
            assert(deliveries@[before.len() as int].username@ == entries@[i as int].0@);
        }
        i = i + 1;
        assert forall|j: int| 0 <= j < i && (#[trigger] entries@[j]).0@ != sender@ implies exists|
            k: int,
        |
            0 <= k < deliveries@.len() && (#[trigger] deliveries@[k]).username@
                == entries@[j].0@ by {
            if j < i - 1 {
                let k = choose|k: int|
                    0 <= k < before.len() && (#[trigger] before[k]).username@ == entries@[j].0@;
                assert(deliveries@[k] == before[k]);
            }
        }
    }
    proof {
        let plan = deliveries.deep_view();
        assert forall|name: Seq<char>| #[trigger]
            user_map@.contains_key(name) && name != sending_username@ implies exists|k: int|
            0 <= k < plan.len() && (#[trigger] plan[k]).username == name by {
            let j = choose|j: int| 0 <= j < entries@.len() && (#[trigger] entries@[j]).0@ == name;
            let k = choose|k: int|
                0 <= k < deliveries@.len() && (#[trigger] deliveries@[k]).username@
                    == entries@[j].0@;
            assert(plan[k].username == name);
        }
    }
    deliveries
}

/// How far passing a message on has come.
#[derive(Debug, PartialEq, Eq)]
pub enum PushState {
    /// The delivery at this position is next.
    Sending(usize),
    /// There is nothing more to do.
    Finished(Result<(), ServerError>),
}

/// The mathematical value of a [`PushState`].
pub enum PushStateView {
    Sending(int),
    Finished(Result<(), ServerErrorView>),
}

impl View for PushState {
    type V = PushStateView;

    open spec fn view(&self) -> PushStateView {
        match *self {
            PushState::Sending(position) => PushStateView::Sending(position as int),
            PushState::Finished(Ok(_)) => PushStateView::Finished(Ok(())),
            PushState::Finished(Err(error)) => PushStateView::Finished(Err(error@)),
        }
    }
}

/// The state in which all deliveries before `position` have been made.
pub open spec fn push_state_at<S>(plan: Seq<DeliveryView<S>>, position: int) -> PushStateView {
    if position < plan.len() {
        PushStateView::Sending(position)
    } else {
        PushStateView::Finished(Ok(()))
    }
}

/// The state after the delivery at `position` ended in `outcome`: the first failure ends it all.
pub open spec fn push_state_after<S>(
    plan: Seq<DeliveryView<S>>,
    sending_username: Seq<char>,
    position: int,
    outcome: Result<(), Seq<char>>,
) -> PushStateView {
    match outcome {
        Ok(_) => push_state_at(plan, position + 1),
        Err(error) => PushStateView::Finished(
            Err(
                ServerErrorView::SendFailed {
                    error,
                    sending_username,
                    username: plan[position].username,
                },
            ),
        ),
    }
}

/// The mathematical value of how one delivery ended.
pub open spec fn outcome_view(outcome: Result<(), String>) -> Result<(), Seq<char>> {
    match outcome {
        Ok(_) => Ok(()),
        Err(error) => Err(error@),
    }
}

/// Where to begin with the deliveries.
pub fn begin_push<'a, S>(deliveries: &Vec<Delivery<'a, S>>) -> (state: PushState)
    ensures
        state@ == push_state_at(deliveries.deep_view(), 0),
{
    if deliveries.len() > 0 {
        PushState::Sending(0)
    } else {
        PushState::Finished(Ok(()))
    }
}

/// How to go on after the delivery at `position` ended in `outcome`, where an error is given by
/// its text.
pub fn continue_push<'a, S>(
    sending_username: &str,
    deliveries: &Vec<Delivery<'a, S>>,
    position: usize,
    outcome: Result<(), String>,
) -> (state: PushState)
    requires
        position < deliveries@.len(),
    ensures
        state@ == push_state_after(
            deliveries.deep_view(),
            sending_username@,
            position as int,
            outcome_view(outcome),
        ),
{
    let length: usize = deliveries.len();
    match outcome {
        Ok(_) => {
            if position + 1 < length {
                PushState::Sending(position + 1)
            } else {
                PushState::Finished(Ok(()))
            }
        },
        Err(error) => PushState::Finished(
            Err(
                ServerError::SendFailed {
                    error,
                    sending_username: sending_username.to_owned(),
                    username: deliveries[position].username.clone(),
                },
            ),
        ),
    }
}

} // verus!
