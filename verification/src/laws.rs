//! What holds of the chat service as a whole.

use crate::command::{after_first_word, command_of_line, first_word};
use crate::connection::{
    connection_action, connection_state_after, ConnectionActionView, ConnectionEventView,
    ConnectionState,
};
use crate::errors::{CommandErrorView, ServerErrorView};
use crate::messages::{MessageView, StreamEvent};
use crate::push::{
    push_state_after, push_state_at, reaches_all_others, DeliveryView, PushStateView,
};
use crate::registration::{refusal_reply, registered};
use crate::session::{ends_session, user_actions, UserActionView, UserEventView};
use crate::terminal::{
    display_line, terminal_action, terminal_state_after, TerminalActionView, TerminalEventView,
    TerminalState,
};
use crate::trace::{
    collect, lemma_collect_add, lemma_collect_all, lemma_collect_none, lemma_collect_one,
    lemma_collect_same,
};
use crate::updates::{listener_action, user_map_action, ListenerActionView, UserMapActionView};
use vstd::prelude::*;

verus! {

// ---- Commands ----
/// What a user types after `send` and a space is what is sent, whatever it is, unless it is empty.
pub proof fn send_command_carries_the_text(username: Seq<char>, text: Seq<char>)
    requires
        text.len() > 0,
    ensures
        command_of_line(username, "send "@ + text) == Ok::<MessageView, CommandErrorView>(
            MessageView::Message(username, text),
        ),
{
    let line = "send "@ + text;
    reveal_strlit("send ");
    reveal_strlit("send");
    line.index_of_first_ensures(' ');
    assert(line[4] == ' ');
    let at = line.index_of_first(' ')->0;
    assert(line[0] == 's' && line[1] == 'e' && line[2] == 'n' && line[3] == 'd');
    assert(at == 4);
    assert(first_word(line) =~= "send"@);
    assert(after_first_word(line) =~= text);
}

/// Every command that a user can give says something or leaves, in that user's own name; what is
/// said is not empty.
pub proof fn commands_speak_for_their_user(username: Seq<char>, line: Seq<char>)
    ensures
        match command_of_line(username, line) {
            Ok(MessageView::Message(sender, text)) => sender == username && text.len() > 0,
            Ok(MessageView::Leave(sender)) => sender == username,
            Ok(_) => false,
            Err(_) => true,
        },
{
}

/// The server expects every command that a user can give: it is passed on to all other users, and
/// never reported as unexpected.
pub proof fn commands_are_expected_by_the_server<T>(username: Seq<char>, line: Seq<char>)
    ensures
        command_of_line(username, line) matches Ok(message) ==> {
            let actions = user_actions::<T>(
                username,
                UserEventView::Incoming(StreamEvent::Item(Some(message))),
            );
            &&& actions[0] == (UserActionView::<T>::Push { sending_username: username, message })
            &&& !actions.contains(UserActionView::<T>::ReportUnexpected(message))
        },
{
    commands_speak_for_their_user(username, line);
}

// ---- Registration ----
/// A username is given to one user at a time: whoever asks for one that is taken changes nothing.
pub proof fn taken_username_stays<S>(
    users: Map<Seq<char>, S>,
    username: Seq<char>,
    first: S,
    second: S,
)
    requires
        !users.contains_key(username),
    ensures
        registered(users, username, first)[username] == first,
        registered(registered(users, username, first), username, second) == registered(
            users,
            username,
            first,
        ),
{
}

/// Deregistering a user undoes registering that user.
pub proof fn deregistering_undoes_registering<S>(
    users: Map<Seq<char>, S>,
    username: Seq<char>,
    channel: S,
)
    requires
        !users.contains_key(username),
    ensures
        registered(users, username, channel).contains_key(username),
        registered(users, username, channel).remove(username) == users,
{
    assert(registered(users, username, channel).remove(username) =~= users);
}

/// It does not matter in which order two users of different names are registered, and both are on
/// the server then.
pub proof fn different_users_register_independently<S>(
    users: Map<Seq<char>, S>,
    username_1: Seq<char>,
    channel_1: S,
    username_2: Seq<char>,
    channel_2: S,
)
    requires
        username_1 != username_2,
    ensures
        registered(registered(users, username_1, channel_1), username_2, channel_2) == registered(
            registered(users, username_2, channel_2),
            username_1,
            channel_1,
        ),
        registered(
            registered(users, username_1, channel_1),
            username_2,
            channel_2,
        ).contains_key(username_1),
        registered(
            registered(users, username_1, channel_1),
            username_2,
            channel_2,
        ).contains_key(username_2),
{
    assert(registered(registered(users, username_1, channel_1), username_2, channel_2)
        =~= registered(registered(users, username_2, channel_2), username_1, channel_1));
}

/// The users after an action on the user map, where `channel` is the one made for a new user.
pub open spec fn users_after<S, T>(
    users: Map<Seq<char>, S>,
    action: UserMapActionView<T>,
    channel: S,
) -> Map<Seq<char>, S> {
    match action {
        UserMapActionView::Register { username, user_stream: _ } => registered(
            users,
            username,
            channel,
        ),
        UserMapActionView::Deregister(username) => users.remove(username),
        _ => users,
    }
}

/// The users after a number of updates, each with the channel made for a new user.
pub open spec fn users_after_all<S, T>(
    users: Map<Seq<char>, S>,
    updates: Seq<((MessageView, Option<T>), S)>,
) -> Map<Seq<char>, S>
    decreases updates.len(),
{
    if updates.len() == 0 {
        users
    } else {
        users_after(
            users_after_all(users, updates.drop_last()),
            user_map_action(updates.last().0),
            updates.last().1,
        )
    }
}

/// A user stays on the server, with the same channel, until an update deregisters that user.
pub proof fn registration_lasts_until_deregistered<S, T>(
    users: Map<Seq<char>, S>,
    updates: Seq<((MessageView, Option<T>), S)>,
    username: Seq<char>,
)
    requires
        users.contains_key(username),
        forall|i: int|
            0 <= i < updates.len() ==> user_map_action((#[trigger] updates[i]).0)
                != UserMapActionView::<T>::Deregister(username),
    ensures
        users_after_all(users, updates).contains_key(username),
        users_after_all(users, updates)[username] == users[username],
    decreases updates.len(),
{
    if updates.len() > 0 {
        let earlier = updates.drop_last();
        assert forall|i: int| 0 <= i < earlier.len() implies user_map_action(
            (#[trigger] earlier[i]).0,
        ) != UserMapActionView::<T>::Deregister(username) by {
            assert(earlier[i] == updates[i]);
        }
        registration_lasts_until_deregistered(users, earlier, username);
        assert(updates.last() == updates[updates.len() - 1]);
    }
}

// ---- Passing messages on ----
/// The deliveries that are tried from `position` on, and how it ends, where `outcome` tells how
/// each delivery turns out.
pub open spec fn push_run<S>(
    plan: Seq<DeliveryView<S>>,
    sending_username: Seq<char>,
    outcome: spec_fn(int) -> Result<(), Seq<char>>,
    position: int,
) -> (Seq<DeliveryView<S>>, Result<(), ServerErrorView>)
    decreases plan.len() - position,
{
    match push_state_at(plan, position) {
        PushStateView::Finished(result) => (Seq::empty(), result),
        PushStateView::Sending(_) => {
            match push_state_after(plan, sending_username, position, outcome(position)) {
                PushStateView::Finished(result) => (seq![plan[position]], result),
                PushStateView::Sending(_) => {
                    let later = push_run(plan, sending_username, outcome, position + 1);
                    (seq![plan[position]] + later.0, later.1)
                },
            }
        },
    }
}

proof fn lemma_push_run_without_failure<S>(
    plan: Seq<DeliveryView<S>>,
    sending_username: Seq<char>,
    outcome: spec_fn(int) -> Result<(), Seq<char>>,
    position: int,
)
    requires
        0 <= position <= plan.len(),
        forall|i: int| position <= i < plan.len() ==> (#[trigger] outcome(i)) is Ok,
    ensures
        push_run(plan, sending_username, outcome, position) == (
            plan.skip(position),
            Ok::<(), ServerErrorView>(()),
        ),
    decreases plan.len() - position,
{
    if position < plan.len() {
        lemma_push_run_without_failure(plan, sending_username, outcome, position + 1);
        assert(outcome(position) is Ok);
        assert(plan.skip(position) =~= seq![plan[position]] + plan.skip(position + 1));
        if position + 1 == plan.len() {
            assert(plan.skip(position) =~= seq![plan[position]]);
        }
    } else {
        assert(plan.skip(position) =~= Seq::empty());
    }
}

proof fn lemma_push_run_to_failure<S>(
    plan: Seq<DeliveryView<S>>,
    sending_username: Seq<char>,
    outcome: spec_fn(int) -> Result<(), Seq<char>>,
    position: int,
    failing: int,
)
    requires
        0 <= position <= failing < plan.len(),
        forall|i: int| position <= i < failing ==> (#[trigger] outcome(i)) is Ok,
        outcome(failing) is Err,
    ensures
        push_run(plan, sending_username, outcome, position) == (
            plan.subrange(position, failing + 1),
            Err::<(), ServerErrorView>(
                ServerErrorView::SendFailed {
                    error: outcome(failing)->Err_0,
                    sending_username,
                    username: plan[failing].username,
                },
            ),
        ),
    decreases failing - position,
{
    if position < failing {
        lemma_push_run_to_failure(plan, sending_username, outcome, position + 1, failing);
        assert(outcome(position) is Ok);
        assert(plan.subrange(position, failing + 1) =~= seq![plan[position]] + plan.subrange(
            position + 1,
            failing + 1,
        ));
    } else {
        assert(plan.subrange(position, failing + 1) =~= seq![plan[position]]);
    }
}

/// Where no delivery fails, the message goes to each other user exactly once, over that user's own
/// channel, and not back to the user who sends it; and all is well.
pub proof fn message_goes_to_every_other_user_once<S>(
    plan: Seq<DeliveryView<S>>,
    users: Map<Seq<char>, S>,
    sending_username: Seq<char>,
    message: MessageView,
    outcome: spec_fn(int) -> Result<(), Seq<char>>,
)
    requires
        reaches_all_others(plan, users, sending_username, message),
        forall|i: int| 0 <= i < plan.len() ==> (#[trigger] outcome(i)) is Ok,
    ensures
        push_run(plan, sending_username, outcome, 0).1 is Ok,
        reaches_all_others(
            push_run(plan, sending_username, outcome, 0).0,
            users,
            sending_username,
            message,
        ),
{
    lemma_push_run_without_failure(plan, sending_username, outcome, 0);
    assert(plan.skip(0) == plan);
}

/// The first delivery that fails is the last one that is tried, and the error names its user.
pub proof fn first_failure_ends_the_push<S>(
    plan: Seq<DeliveryView<S>>,
    sending_username: Seq<char>,
    outcome: spec_fn(int) -> Result<(), Seq<char>>,
    failing: int,
)
    requires
        0 <= failing < plan.len(),
        forall|i: int| 0 <= i < failing ==> (#[trigger] outcome(i)) is Ok,
        outcome(failing) is Err,
    ensures
        push_run(plan, sending_username, outcome, 0).0 == plan.take(failing + 1),
        push_run(plan, sending_username, outcome, 0).1 == Err::<(), ServerErrorView>(
            ServerErrorView::SendFailed {
                error: outcome(failing)->Err_0,
                sending_username,
                username: plan[failing].username,
            },
        ),
{
    lemma_push_run_to_failure(plan, sending_username, outcome, 0, failing);
}

/// There are as many deliveries as there are users other than the one who sends.
pub proof fn one_delivery_per_other_user<S>(
    plan: Seq<DeliveryView<S>>,
    users: Map<Seq<char>, S>,
    sending_username: Seq<char>,
    message: MessageView,
)
    requires
        reaches_all_others(plan, users, sending_username, message),
    ensures
        users.remove(sending_username).dom().finite(),
        plan.len() == users.remove(sending_username).len(),
{
    let names = plan.map_values(|delivery: DeliveryView<S>| delivery.username);
    assert(names.no_duplicates());
    names.unique_seq_to_set();
    let others = users.remove(sending_username).dom();
    assert forall|username: Seq<char>| others.contains(username) == names.to_set().contains(
        username,
    ) by {
        if others.contains(username) {
            assert(users.contains_key(username));
            let i = choose|i: int| 0 <= i < plan.len() && (#[trigger] plan[i]).username == username;
            assert(names[i] == username);
        }
        if names.contains(username) {
            let i = choose|i: int| 0 <= i < names.len() && names[i] == username;
            assert(plan[i].username == username);
        }
    }
    assert(others =~= names.to_set());
}

// ---- What users are sent ----
/// A push ends well exactly when none of its deliveries fails; all that were planned have then been
/// made.
pub proof fn successful_push_makes_all_deliveries<S>(
    plan: Seq<DeliveryView<S>>,
    sending_username: Seq<char>,
    outcome: spec_fn(int) -> Result<(), Seq<char>>,
)
    ensures
        push_run(plan, sending_username, outcome, 0).1 is Ok <==> (forall|i: int|
            0 <= i < plan.len() ==> (#[trigger] outcome(i)) is Ok),
        push_run(plan, sending_username, outcome, 0).1 is Ok ==> push_run(
            plan,
            sending_username,
            outcome,
            0,
        ).0 == plan,
{
    if forall|i: int| 0 <= i < plan.len() ==> (#[trigger] outcome(i)) is Ok {
        lemma_push_run_without_failure(plan, sending_username, outcome, 0);
        assert(plan.skip(0) == plan);
    } else {
        let some = choose|i: int| 0 <= i < plan.len() && (#[trigger] outcome(i)) is Err;
        let failing = lemma_first_failure(outcome, some);
        lemma_push_run_to_failure(plan, sending_username, outcome, 0, failing);
    }
}

proof fn lemma_first_failure(
    outcome: spec_fn(int) -> Result<(), Seq<char>>,
    some: int,
) -> (failing: int)
    requires
        0 <= some,
        outcome(some) is Err,
    ensures
        0 <= failing <= some,
        outcome(failing) is Err,
        forall|i: int| 0 <= i < failing ==> (#[trigger] outcome(i)) is Ok,
    decreases some,
{
    if exists|i: int| 0 <= i < some && (#[trigger] outcome(i)) is Err {
        let earlier = choose|i: int| 0 <= i < some && (#[trigger] outcome(i)) is Err;
        lemma_first_failure(outcome, earlier)
    } else {
        some
    }
}

/// The message that a delivery brings to `username`.
pub open spec fn delivered_to<S>(username: Seq<char>, delivery: DeliveryView<S>) -> Option<
    MessageView,
> {
    if delivery.username == username {
        Some(delivery.message)
    } else {
        None
    }
}

/// What these deliveries bring to `username`, in their order.
pub open spec fn sent_to<S>(username: Seq<char>, deliveries: Seq<DeliveryView<S>>) -> Seq<
    MessageView,
> {
    collect(deliveries, |delivery: DeliveryView<S>| delivered_to(username, delivery))
}

proof fn lemma_nothing_is_sent_to<S>(username: Seq<char>, deliveries: Seq<DeliveryView<S>>)
    requires
        forall|i: int|
            0 <= i < deliveries.len() ==> (#[trigger] deliveries[i]).username != username,
    ensures
        sent_to(username, deliveries) == Seq::<MessageView>::empty(),
    decreases deliveries.len(),
{
    if deliveries.len() > 0 {
        let before = deliveries.drop_last();
        assert forall|i: int| 0 <= i < before.len() implies (#[trigger] before[i]).username
            != username by {
            assert(before[i] == deliveries[i]);
        }
        lemma_nothing_is_sent_to(username, before);
        assert(deliveries.last() == deliveries[deliveries.len() - 1]);
    }
}

/// What `sending_username` says with `message` brings to `username` on a server with these users:
/// the message once, unless `username` is the one who says it or is not on the server.
pub open spec fn due_to<S>(
    users: Map<Seq<char>, S>,
    username: Seq<char>,
    sending_username: Seq<char>,
    message: MessageView,
) -> Option<MessageView> {
    if users.contains_key(username) && username != sending_username {
        Some(message)
    } else {
        None
    }
}

/// A push sends each other user the message, once, and nothing to anybody else.
pub proof fn push_sends_what_is_due<S>(
    plan: Seq<DeliveryView<S>>,
    users: Map<Seq<char>, S>,
    sending_username: Seq<char>,
    message: MessageView,
    username: Seq<char>,
)
    requires
        reaches_all_others(plan, users, sending_username, message),
    ensures
        sent_to(username, plan) == match due_to(users, username, sending_username, message) {
            Some(message) => seq![message],
            None => Seq::empty(),
        },
{
    let pick = |delivery: DeliveryView<S>| delivered_to(username, delivery);
    if users.contains_key(username) && username != sending_username {
        let i = choose|i: int| 0 <= i < plan.len() && (#[trigger] plan[i]).username == username;
        let before = plan.take(i);
        let after = plan.skip(i + 1);
        assert(plan =~= before + seq![plan[i]] + after);
        lemma_collect_add(before + seq![plan[i]], after, pick);
        lemma_collect_add(before, seq![plan[i]], pick);
        lemma_collect_one(plan[i], pick);
        assert forall|j: int| 0 <= j < before.len() implies (#[trigger] before[j]).username
            != username by {
            assert(before[j] == plan[j]);
            assert(plan[i].username == username);
        }
        assert forall|j: int| 0 <= j < after.len() implies (#[trigger] after[j]).username
            != username by {
            assert(after[j] == plan[i + 1 + j]);
            assert(plan[i].username == username);
        }
        lemma_nothing_is_sent_to(username, before);
        lemma_nothing_is_sent_to(username, after);
        assert(sent_to(username, plan) =~= seq![message]);
    } else {
        assert forall|j: int| 0 <= j < plan.len() implies (#[trigger] plan[j]).username
            != username by {
            assert(users.contains_key(plan[j].username));
        }
        lemma_nothing_is_sent_to(username, plan);
    }
}

/// After two successful pushes, each user has been sent exactly the messages of the senders other
/// than itself, in the order of the pushes.
pub proof fn two_pushes_send_in_order<S>(
    users: Map<Seq<char>, S>,
    plan_1: Seq<DeliveryView<S>>,
    sending_username_1: Seq<char>,
    message_1: MessageView,
    outcome_1: spec_fn(int) -> Result<(), Seq<char>>,
    plan_2: Seq<DeliveryView<S>>,
    sending_username_2: Seq<char>,
    message_2: MessageView,
    outcome_2: spec_fn(int) -> Result<(), Seq<char>>,
    username: Seq<char>,
)
    requires
        reaches_all_others(plan_1, users, sending_username_1, message_1),
        reaches_all_others(plan_2, users, sending_username_2, message_2),
        push_run(plan_1, sending_username_1, outcome_1, 0).1 is Ok,
        push_run(plan_2, sending_username_2, outcome_2, 0).1 is Ok,
        users.contains_key(username),
    ensures
        sent_to(
            username,
            push_run(plan_1, sending_username_1, outcome_1, 0).0 + push_run(
                plan_2,
                sending_username_2,
                outcome_2,
                0,
            ).0,
        ) == (if username != sending_username_1 && username != sending_username_2 {
            seq![message_1, message_2]
        } else if username != sending_username_1 {
            seq![message_1]
        } else if username != sending_username_2 {
            seq![message_2]
        } else {
            Seq::empty()
        }),
{
    successful_push_makes_all_deliveries(plan_1, sending_username_1, outcome_1);
    successful_push_makes_all_deliveries(plan_2, sending_username_2, outcome_2);
    push_sends_what_is_due(plan_1, users, sending_username_1, message_1, username);
    push_sends_what_is_due(plan_2, users, sending_username_2, message_2, username);
    lemma_collect_add(
        plan_1,
        plan_2,
        |delivery: DeliveryView<S>| delivered_to(username, delivery),
    );
    let sent = sent_to(username, plan_1 + plan_2);
    if username != sending_username_1 && username != sending_username_2 {
        assert(sent =~= seq![message_1, message_2]);
    } else if username != sending_username_1 {
        assert(sent =~= seq![message_1]);
    } else if username != sending_username_2 {
        assert(sent =~= seq![message_2]);
    } else {
        assert(sent =~= Seq::empty());
    }
}

/// Whether these are the deliveries of pushes without failure, one plan for each push, where a push
/// is the users on the server at its moment, a sender and a message.
pub open spec fn made_by_pushes_among<S>(
    plans: Seq<Seq<DeliveryView<S>>>,
    pushes: Seq<(Map<Seq<char>, S>, Seq<char>, MessageView)>,
) -> bool {
    &&& plans.len() == pushes.len()
    &&& forall|i: int|
        0 <= i < plans.len() ==> reaches_all_others(
            #[trigger] plans[i],
            pushes[i].0,
            pushes[i].1,
            pushes[i].2,
        )
}

/// However many pushes are made one after the other, and whoever comes and goes between them, each
/// user has been sent exactly the messages of the senders other than itself that were pushed while
/// the user was on the server, in the order of the pushes.
pub proof fn pushes_among_changing_users_send_in_order<S>(
    plans: Seq<Seq<DeliveryView<S>>>,
    pushes: Seq<(Map<Seq<char>, S>, Seq<char>, MessageView)>,
    username: Seq<char>,
)
    requires
        made_by_pushes_among(plans, pushes),
    ensures
        sent_to(username, plans.flatten()) == collect(
            pushes,
            |push: (Map<Seq<char>, S>, Seq<char>, MessageView)|
                due_to(push.0, username, push.1, push.2),
        ),
    decreases pushes.len(),
{
    if pushes.len() > 0 {
        let earlier = plans.drop_last();
        let plan = plans.last();
        let push = pushes.last();
        assert forall|i: int| 0 <= i < earlier.len() implies reaches_all_others(
            #[trigger] earlier[i],
            pushes.drop_last()[i].0,
            pushes.drop_last()[i].1,
            pushes.drop_last()[i].2,
        ) by {
            assert(earlier[i] == plans[i]);
        }
        assert(plan == plans[plans.len() - 1]);
        pushes_among_changing_users_send_in_order(earlier, pushes.drop_last(), username);
        push_sends_what_is_due(plan, push.0, push.1, push.2, username);
        earlier.lemma_flatten_push(plan);
        assert(earlier.push(plan) =~= plans);
        lemma_collect_add(
            earlier.flatten(),
            plan,
            |delivery: DeliveryView<S>| delivered_to(username, delivery),
        );
        assert(sent_to(username, plans.flatten()) =~= collect(
            pushes,
            |push: (Map<Seq<char>, S>, Seq<char>, MessageView)|
                due_to(push.0, username, push.1, push.2),
        ));
    }
}

/// Pushes, each a sender and a message, that are all made among the same users.
pub open spec fn among<S>(
    users: Map<Seq<char>, S>,
    pushes: Seq<(Seq<char>, MessageView)>,
) -> Seq<(Map<Seq<char>, S>, Seq<char>, MessageView)> {
    pushes.map_values(|push: (Seq<char>, MessageView)| (users, push.0, push.1))
}

/// Where the users on the server stay the same, each of them has been sent exactly the messages of
/// the senders other than itself, in the order of the pushes.
pub proof fn pushes_send_in_order<S>(
    plans: Seq<Seq<DeliveryView<S>>>,
    users: Map<Seq<char>, S>,
    pushes: Seq<(Seq<char>, MessageView)>,
    username: Seq<char>,
)
    requires
        made_by_pushes_among(plans, among(users, pushes)),
    ensures
        sent_to(username, plans.flatten()) == collect(
            pushes,
            |push: (Seq<char>, MessageView)| due_to(users, username, push.0, push.1),
        ),
{
    pushes_among_changing_users_send_in_order(plans, among(users, pushes), username);
    lemma_collect_same(
        among(users, pushes),
        |push: (Map<Seq<char>, S>, Seq<char>, MessageView)|
            due_to(push.0, username, push.1, push.2),
        pushes,
        |push: (Seq<char>, MessageView)| due_to(users, username, push.0, push.1),
    );
}

// ---- Sessions on the server ----
/// Whether a session still runs after these events: none of them ended it.
pub open spec fn session_runs(events: Seq<UserEventView>) -> bool {
    forall|i: int| 0 <= i < events.len() ==> !ends_session(#[trigger] events[i])
}

/// The events that a session gets to see: those up to and with the one that ends it.
pub open spec fn until_end(events: Seq<UserEventView>) -> Seq<UserEventView>
    decreases events.len(),
{
    if events.len() == 0 || session_runs(events.drop_last()) {
        events
    } else {
        until_end(events.drop_last())
    }
}

/// All that the session of `username` does on these events, after it has announced the user.
pub open spec fn session_actions<T>(username: Seq<char>, events: Seq<UserEventView>) -> Seq<
    UserActionView<T>,
>
    decreases events.len(),
{
    if events.len() == 0 {
        Seq::empty()
    } else {
        let earlier = session_actions::<T>(username, events.drop_last());
        if session_runs(events.drop_last()) {
            earlier + user_actions::<T>(username, events.last())
        } else {
            earlier
        }
    }
}

/// Whom an action leaves out, and the message that it passes on to all others.
pub open spec fn pushed<T>(action: UserActionView<T>) -> Option<(Seq<char>, MessageView)> {
    match action {
        UserActionView::Push { sending_username, message } => Some((sending_username, message)),
        _ => None,
    }
}

/// The message that an action sends to the client.
pub open spec fn sent_to_client<T>(action: UserActionView<T>) -> Option<MessageView> {
    match action {
        UserActionView::SendToClient(message) => Some(message),
        _ => None,
    }
}

/// The user whom an action takes off the server.
pub open spec fn departed<T>(action: UserActionView<T>) -> Option<Seq<char>> {
    match action {
        UserActionView::UpdateUserMap(update) => match user_map_action(update) {
            UserMapActionView::Deregister(username) => Some(username),
            _ => None,
        },
        UserActionView::Deregister(username) => Some(username),
        _ => None,
    }
}

/// What the client has to tell the other users in an event: something said, or that a user leaves.
pub open spec fn told(event: UserEventView) -> Option<MessageView> {
    match event {
        UserEventView::Incoming(StreamEvent::Item(Some(message))) => {
            if message is Message || message is Leave {
                Some(message)
            } else {
                None
            }
        },
        _ => None,
    }
}

/// What the user's channel brings in an event.
pub open spec fn brought(event: UserEventView) -> Option<MessageView> {
    match event {
        UserEventView::Outgoing(message) => message,
        _ => None,
    }
}

/// Whom an event that ends a session takes off the server: the user whom a leave message names, or
/// the user of the session where the stream is gone.
pub open spec fn departs(username: Seq<char>, event: UserEventView) -> Seq<char> {
    match event {
        UserEventView::Incoming(StreamEvent::Item(Some(MessageView::Leave(named)))) => named,
        _ => username,
    }
}

/// The sequence of what is there.
spec fn at_most_one<A>(found: Option<A>) -> Seq<A> {
    match found {
        Some(found) => seq![found],
        None => Seq::empty(),
    }
}

/// What the session of `username` passes on in an event, and whom it leaves out: always its own
/// user.
pub open spec fn passed_on(username: Seq<char>, event: UserEventView) -> Option<
    (Seq<char>, MessageView),
> {
    match told(event) {
        Some(message) => Some((username, message)),
        None => None,
    }
}

proof fn lemma_collect_user_actions<T>(username: Seq<char>, event: UserEventView)
    ensures
        collect(user_actions::<T>(username, event), |a: UserActionView<T>| pushed(a))
            == at_most_one(passed_on(username, event)),
        collect(user_actions::<T>(username, event), |a: UserActionView<T>| sent_to_client(a))
            == at_most_one(brought(event)),
        collect(user_actions::<T>(username, event), |a: UserActionView<T>| departed(a)) == (
        if ends_session(event) {
            seq![departs(username, event)]
        } else {
            Seq::empty()
        }),
{
    let actions = user_actions::<T>(username, event);
    let picks_pushed = |a: UserActionView<T>| pushed(a);
    let picks_sent = |a: UserActionView<T>| sent_to_client(a);
    let picks_departed = |a: UserActionView<T>| departed(a);
    if actions.len() == 1 {
        assert(actions =~= seq![actions[0]]);
        lemma_collect_one(actions[0], picks_pushed);
        lemma_collect_one(actions[0], picks_sent);
        lemma_collect_one(actions[0], picks_departed);
    } else if actions.len() == 2 {
        assert(actions =~= seq![actions[0]] + seq![actions[1]]);
        lemma_collect_add(seq![actions[0]], seq![actions[1]], picks_pushed);
        lemma_collect_add(seq![actions[0]], seq![actions[1]], picks_sent);
        lemma_collect_add(seq![actions[0]], seq![actions[1]], picks_departed);
        lemma_collect_one(actions[0], picks_pushed);
        lemma_collect_one(actions[0], picks_sent);
        lemma_collect_one(actions[0], picks_departed);
        lemma_collect_one(actions[1], picks_pushed);
        lemma_collect_one(actions[1], picks_sent);
        lemma_collect_one(actions[1], picks_departed);
        assert(collect(actions, picks_pushed) =~= seq![pushed(actions[0])->0]);
        assert(collect(actions, picks_sent) =~= Seq::empty());
        assert(collect(actions, picks_departed) =~= seq![departs(username, event)]);
    }
}

/// What a session passes on goes to every other user on the server once, and never to the user of
/// the session, whatever name the message gives.
pub proof fn session_leaves_out_its_own_user<S, T>(
    username: Seq<char>,
    event: UserEventView,
    sending_username: Seq<char>,
    message: MessageView,
    plan: Seq<DeliveryView<S>>,
    users: Map<Seq<char>, S>,
    other: Seq<char>,
)
    requires
        user_actions::<T>(username, event).contains(
            UserActionView::Push { sending_username, message },
        ),
        reaches_all_others(plan, users, sending_username, message),
        users.contains_key(other),
        other != username,
    ensures
        sending_username == username,
        sent_to(other, plan) == seq![message],
        sent_to(username, plan) == Seq::<MessageView>::empty(),
{
    push_sends_what_is_due(plan, users, sending_username, message, other);
    push_sends_what_is_due(plan, users, sending_username, message, username);
}

/// Up to the event that ends it, and no further, a session passes on all that the client says, and
/// that the client leaves, and sends the client all that the user's channel brings: nothing is
/// lost, repeated, made up or put in another order.
pub proof fn session_relays_everything<T>(username: Seq<char>, events: Seq<UserEventView>)
    ensures
        collect(session_actions::<T>(username, events), |a: UserActionView<T>| pushed(a))
            == collect(until_end(events), |e: UserEventView| passed_on(username, e)),
        collect(session_actions::<T>(username, events), |a: UserActionView<T>| sent_to_client(a))
            == collect(until_end(events), |e: UserEventView| brought(e)),
    decreases events.len(),
{
    if events.len() > 0 {
        let before = events.drop_last();
        let event = events.last();
        session_relays_everything::<T>(username, before);
        if session_runs(before) {
            if before.len() > 0 {
                assert forall|i: int| 0 <= i < before.drop_last().len() implies !ends_session(
                    #[trigger] before.drop_last()[i],
                ) by {
                    assert(before.drop_last()[i] == before[i]);
                }
            }
            assert(until_end(before) == before);
            lemma_collect_user_actions::<T>(username, event);
            let earlier = session_actions::<T>(username, before);
            let now = user_actions::<T>(username, event);
            lemma_collect_add(earlier, now, |a: UserActionView<T>| pushed(a));
            lemma_collect_add(earlier, now, |a: UserActionView<T>| sent_to_client(a));
            let actions = session_actions::<T>(username, events);
            assert(collect(actions, |a: UserActionView<T>| pushed(a)) =~= collect(
                events,
                |e: UserEventView| passed_on(username, e),
            ));
            assert(collect(actions, |a: UserActionView<T>| sent_to_client(a)) =~= collect(
                events,
                |e: UserEventView| brought(e),
            ));
        }
    }
}

/// While a session runs, it takes nobody off the server.
pub proof fn running_session_takes_nobody_off<T>(username: Seq<char>, events: Seq<UserEventView>)
    requires
        session_runs(events),
    ensures
        collect(session_actions::<T>(username, events), |a: UserActionView<T>| departed(a)).len()
            == 0,
    decreases events.len(),
{
    if events.len() > 0 {
        let before = events.drop_last();
        assert(events.last() == events[events.len() - 1]);
        assert forall|i: int| 0 <= i < before.len() implies !ends_session(
            #[trigger] before[i],
        ) by {
            assert(before[i] == events[i]);
        }
        running_session_takes_nobody_off::<T>(username, before);
        lemma_collect_user_actions::<T>(username, events.last());
        lemma_collect_add(
            session_actions::<T>(username, before),
            user_actions::<T>(username, events.last()),
            |a: UserActionView<T>| departed(a),
        );
    }
}

/// A session that has ended has taken exactly one user off the server, and that is the last thing
/// it did: the user of the session, unless the client left in another name.
pub proof fn ended_session_takes_one_user_off<T>(
    username: Seq<char>,
    events: Seq<UserEventView>,
    ending: int,
)
    requires
        0 <= ending < events.len(),
        session_runs(events.take(ending)),
        ends_session(events[ending]),
    ensures
        ({
            let actions = session_actions::<T>(username, events);
            &&& collect(actions, |a: UserActionView<T>| departed(a)) == seq![
                departs(username, events[ending]),
            ]
            &&& departed(actions.last()) == Some(departs(username, events[ending]))
            &&& actions == session_actions::<T>(username, events.take(ending + 1))
        }),
    decreases events.len(),
{
    let before = events.drop_last();
    if ending == events.len() - 1 {
        assert(before =~= events.take(ending));
        assert(events.take(ending + 1) =~= events);
        running_session_takes_nobody_off::<T>(username, before);
        lemma_collect_user_actions::<T>(username, events.last());
        lemma_collect_add(
            session_actions::<T>(username, before),
            user_actions::<T>(username, events.last()),
            |a: UserActionView<T>| departed(a),
        );
        let actions = session_actions::<T>(username, events);
        assert(collect(actions, |a: UserActionView<T>| departed(a)) =~= seq![
            departs(username, events[ending]),
        ]);
        assert(actions.last() == user_actions::<T>(username, events.last()).last());
    } else {
        assert(before.take(ending) =~= events.take(ending));
        assert(before.take(ending + 1) =~= events.take(ending + 1));
        assert(before[ending] == events[ending]);
        ended_session_takes_one_user_off::<T>(username, before, ending);
        assert(!session_runs(before));
    }
}

/// All that the session of `username` passes on, with whom it leaves out: that the user has joined,
/// and what follows from these events.
pub open spec fn session_pushes<T>(username: Seq<char>, events: Seq<UserEventView>) -> Seq<
    (Seq<char>, MessageView),
> {
    seq![(username, MessageView::Join(username))] + collect(
        session_actions::<T>(username, events),
        |a: UserActionView<T>| pushed(a),
    )
}

proof fn lemma_passed_on_leaves_out(username: Seq<char>, events: Seq<UserEventView>, i: int)
    requires
        0 <= i < collect(events, |e: UserEventView| passed_on(username, e)).len(),
    ensures
        collect(events, |e: UserEventView| passed_on(username, e))[i].0 == username,
    decreases events.len(),
{
    let pushes = collect(events.drop_last(), |e: UserEventView| passed_on(username, e));
    if i < pushes.len() {
        lemma_passed_on_leaves_out(username, events.drop_last(), i);
    }
}

proof fn lemma_messages_passed_on(username: Seq<char>, events: Seq<UserEventView>)
    ensures
        collect(events, |e: UserEventView| passed_on(username, e)).map_values(
            |push: (Seq<char>, MessageView)| push.1,
        ) == collect(events, |e: UserEventView| told(e)),
    decreases events.len(),
{
    if events.len() > 0 {
        lemma_messages_passed_on(username, events.drop_last());
    }
    assert(collect(events, |e: UserEventView| passed_on(username, e)).map_values(
        |push: (Seq<char>, MessageView)| push.1,
    ) =~= collect(events, |e: UserEventView| told(e)));
}

/// All that a session has to tell the other users: that its user has joined, and then all that the
/// client says, up to and with a leave message.
pub open spec fn session_messages(username: Seq<char>, events: Seq<UserEventView>) -> Seq<
    MessageView,
> {
    seq![MessageView::Join(username)] + collect(until_end(events), |e: UserEventView| told(e))
}

/// What a session passes on are its messages, in order, and each of them leaves out the user of
/// the session.
pub proof fn session_pushes_its_messages<T>(username: Seq<char>, events: Seq<UserEventView>)
    ensures
        session_pushes::<T>(username, events) == session_messages(username, events).map_values(
            |message: MessageView| (username, message),
        ),
{
    session_relays_everything::<T>(username, events);
    lemma_messages_passed_on(username, until_end(events));
    let pushes = session_pushes::<T>(username, events);
    let later = collect(until_end(events), |e: UserEventView| passed_on(username, e));
    let messages = later.map_values(|push: (Seq<char>, MessageView)| push.1);
    assert forall|i: int| 0 <= i < pushes.len() implies #[trigger] pushes[i] == (
        username,
        session_messages(username, events)[i],
    ) by {
        if i > 0 {
            assert(pushes[i] == later[i - 1]);
            assert(messages[i - 1] == later[i - 1].1);
            lemma_passed_on_leaves_out(username, until_end(events), i - 1);
        }
    }
    assert(pushes =~= session_messages(username, events).map_values(
        |message: MessageView| (username, message),
    ));
}

/// Over a whole session, whoever comes and goes meanwhile, where no delivery fails: every other
/// user is sent those messages of the session that are pushed while that user is on the server,
/// word for word and in order, and so all of them where the user is there throughout. The user of
/// the session is sent nothing of this.
pub proof fn session_is_heard_by_those_on_the_server<S, T>(
    username: Seq<char>,
    events: Seq<UserEventView>,
    pushes: Seq<(Map<Seq<char>, S>, Seq<char>, MessageView)>,
    plans: Seq<Seq<DeliveryView<S>>>,
    other: Seq<char>,
)
    requires
        pushes.map_values(
            |push: (Map<Seq<char>, S>, Seq<char>, MessageView)| (push.1, push.2),
        ) == session_pushes::<T>(username, events),
        made_by_pushes_among(plans, pushes),
        other != username,
    ensures
        pushes.map_values(|push: (Map<Seq<char>, S>, Seq<char>, MessageView)| push.2)
            == session_messages(username, events),
        sent_to(other, plans.flatten()) == collect(
            pushes,
            |push: (Map<Seq<char>, S>, Seq<char>, MessageView)|
                if push.0.contains_key(other) {
                    Some(push.2)
                } else {
                    None
                },
        ),
        (forall|i: int| 0 <= i < pushes.len() ==> (#[trigger] pushes[i]).0.contains_key(other))
            ==> sent_to(other, plans.flatten()) == session_messages(username, events),
        sent_to(username, plans.flatten()) == Seq::<MessageView>::empty(),
{
    let messages = session_messages(username, events);
    let said = pushes.map_values(
        |push: (Map<Seq<char>, S>, Seq<char>, MessageView)| (push.1, push.2),
    );
    session_pushes_its_messages::<T>(username, events);
    assert(said.len() == messages.len());
    assert forall|i: int| 0 <= i < pushes.len() implies (#[trigger] pushes[i]).1 == username
        && pushes[i].2 == messages[i] by {
        assert(said[i] == (pushes[i].1, pushes[i].2));
    }
    assert(pushes.map_values(|push: (Map<Seq<char>, S>, Seq<char>, MessageView)| push.2)
        =~= messages);
    pushes_among_changing_users_send_in_order(plans, pushes, other);
    pushes_among_changing_users_send_in_order(plans, pushes, username);
    let to_other = |push: (Map<Seq<char>, S>, Seq<char>, MessageView)|
        due_to(push.0, other, push.1, push.2);
    let to_own = |push: (Map<Seq<char>, S>, Seq<char>, MessageView)|
        due_to(push.0, username, push.1, push.2);
    lemma_collect_same(
        pushes,
        to_other,
        pushes,
        |push: (Map<Seq<char>, S>, Seq<char>, MessageView)|
            if push.0.contains_key(other) {
                Some(push.2)
            } else {
                None
            },
    );
    if forall|i: int| 0 <= i < pushes.len() ==> (#[trigger] pushes[i]).0.contains_key(other) {
        lemma_collect_all(pushes, to_other, messages);
    }
    lemma_collect_none(pushes, to_own);
}

/// Over a whole session, where the users on the server stay the same and no delivery fails, every
/// other user is sent all messages of the session, word for word and in order. The user of the
/// session is sent nothing of this.
pub proof fn session_is_heard_by_all_others<S, T>(
    username: Seq<char>,
    events: Seq<UserEventView>,
    users: Map<Seq<char>, S>,
    plans: Seq<Seq<DeliveryView<S>>>,
    other: Seq<char>,
)
    requires
        made_by_pushes_among(plans, among(users, session_pushes::<T>(username, events))),
        users.contains_key(other),
        other != username,
    ensures
        sent_to(other, plans.flatten()) == session_messages(username, events),
        sent_to(username, plans.flatten()) == Seq::<MessageView>::empty(),
{
    let pushes = among(users, session_pushes::<T>(username, events));
    assert(pushes.map_values(
        |push: (Map<Seq<char>, S>, Seq<char>, MessageView)| (push.1, push.2),
    ) =~= session_pushes::<T>(username, events));
    session_is_heard_by_those_on_the_server::<S, T>(username, events, pushes, plans, other);
}

// ---- The client's connection ----
/// How a connection stands after these events.
pub open spec fn connection_state<E>(events: Seq<ConnectionEventView<E>>) -> ConnectionState<E>
    decreases events.len(),
{
    if events.len() == 0 {
        ConnectionState::Joining
    } else {
        connection_state_after(connection_state(events.drop_last()), events.last())
    }
}

/// All that a connection does on these events, after it has sent the join message.
pub open spec fn connection_actions<E>(events: Seq<ConnectionEventView<E>>) -> Seq<
    ConnectionActionView,
>
    decreases events.len(),
{
    if events.len() == 0 {
        Seq::empty()
    } else {
        connection_actions(events.drop_last()).push(
            connection_action(connection_state(events.drop_last()), events.last()),
        )
    }
}

/// The message that an action sends to the server.
pub open spec fn sent_to_server(action: ConnectionActionView) -> Option<MessageView> {
    match action {
        ConnectionActionView::Send(message) => Some(message),
        _ => None,
    }
}

/// The message that an action hands to the terminal.
pub open spec fn delivered(action: ConnectionActionView) -> Option<MessageView> {
    match action {
        ConnectionActionView::Deliver(message) => Some(message),
        _ => None,
    }
}

/// The message that comes from the terminal in an event.
pub open spec fn outgoing<E>(event: ConnectionEventView<E>) -> Option<MessageView> {
    match event {
        ConnectionEventView::Outgoing(message) => message,
        _ => None,
    }
}

/// The message that comes from the server in an event.
pub open spec fn incoming<E>(event: ConnectionEventView<E>) -> Option<MessageView> {
    match event {
        ConnectionEventView::Incoming(StreamEvent::Item(message)) => message,
        _ => None,
    }
}

/// Up to the event that ends it, a connection sends the server all that comes from the terminal,
/// and hands the terminal all that comes from the server: nothing is lost, repeated, made up or put
/// in another order.
pub proof fn connection_relays_everything<E>(events: Seq<ConnectionEventView<E>>)
    requires
        events.len() > 0 ==> !connection_state(events.drop_last()).ended(),
    ensures
        collect(connection_actions(events), |a: ConnectionActionView| sent_to_server(a))
            == collect(events, |e: ConnectionEventView<E>| outgoing(e)),
        collect(connection_actions(events), |a: ConnectionActionView| delivered(a)) == collect(
            events,
            |e: ConnectionEventView<E>| incoming(e),
        ),
    decreases events.len(),
{
    if events.len() > 0 {
        let before = events.drop_last();
        connection_relays_everything(before);
        let actions = connection_actions(events);
        assert(actions.drop_last() =~= connection_actions(before));
    }
}

/// A connection that has ended stays as it is, and does nothing more.
pub proof fn ended_connection_is_at_rest<E>(state: ConnectionState<E>, event: ConnectionEventView<E>)
    requires
        state.ended(),
    ensures
        connection_state_after(state, event) == state,
        connection_action(state, event) == ConnectionActionView::Wait,
{
}

/// A connection ends in good order if and only if one of its two sides closes.
pub proof fn connection_finishes_when_a_side_closes<E>(
    state: ConnectionState<E>,
    event: ConnectionEventView<E>,
)
    requires
        !state.ended(),
    ensures
        connection_state_after(state, event) is Finished <==> {
            ||| event == ConnectionEventView::<E>::Outgoing(None)
            ||| event == ConnectionEventView::<E>::Incoming(StreamEvent::Ended)
        },
{
}

// ---- The client's terminal ----
/// How the terminal stands after these events.
pub open spec fn terminal_state<E>(events: Seq<TerminalEventView<E>>) -> TerminalState<E>
    decreases events.len(),
{
    if events.len() == 0 {
        TerminalState::Running
    } else {
        terminal_state_after(terminal_state(events.drop_last()), events.last())
    }
}

/// All that the terminal of `username` does on these events.
pub open spec fn terminal_actions<E>(
    username: Seq<char>,
    events: Seq<TerminalEventView<E>>,
) -> Seq<TerminalActionView>
    decreases events.len(),
{
    if events.len() == 0 {
        Seq::empty()
    } else {
        terminal_actions(username, events.drop_last()).push(
            terminal_action(username, terminal_state(events.drop_last()), events.last()),
        )
    }
}

/// The message that an action hands to the connection.
pub open spec fn forwarded(action: TerminalActionView) -> Option<MessageView> {
    match action {
        TerminalActionView::Forward(message) => Some(message),
        _ => None,
    }
}

/// The line that an action prints.
pub open spec fn printed(action: TerminalActionView) -> Option<Seq<char>> {
    match action {
        TerminalActionView::Print(line) => Some(line),
        _ => None,
    }
}

/// The command that the user gives in an event.
pub open spec fn commanded<E>(username: Seq<char>, event: TerminalEventView<E>) -> Option<
    MessageView,
> {
    match event {
        TerminalEventView::Input(StreamEvent::Item(line)) => match command_of_line(username, line) {
            Ok(message) => Some(message),
            Err(_) => None,
        },
        _ => None,
    }
}

/// The line that an event gives the user to see.
pub open spec fn to_show<E>(event: TerminalEventView<E>) -> Option<Seq<char>> {
    match event {
        TerminalEventView::Output(Some(message)) => Some(display_line(message)),
        _ => None,
    }
}

/// Up to the event that ends it, the terminal hands every command of the user to the connection and
/// nothing else that the user types, and shows the user every message: nothing is lost, repeated,
/// made up or put in another order.
pub proof fn terminal_relays_everything<E>(username: Seq<char>, events: Seq<TerminalEventView<E>>)
    requires
        events.len() > 0 ==> terminal_state(events.drop_last()) is Running,
    ensures
        collect(terminal_actions(username, events), |a: TerminalActionView| forwarded(a))
            == collect(events, |e: TerminalEventView<E>| commanded(username, e)),
        collect(terminal_actions(username, events), |a: TerminalActionView| printed(a)) == collect(
            events,
            |e: TerminalEventView<E>| to_show(e),
        ),
    decreases events.len(),
{
    if events.len() > 0 {
        let before = events.drop_last();
        terminal_relays_everything(username, before);
        let actions = terminal_actions(username, events);
        assert(actions.drop_last() =~= terminal_actions(username, before));
    }
}

/// A terminal that has ended does nothing more, and all that it can still learn is that its last
/// action failed.
pub proof fn ended_terminal_is_at_rest<E>(
    username: Seq<char>,
    state: TerminalState<E>,
    event: TerminalEventView<E>,
)
    requires
        state !is Running,
    ensures
        terminal_action(username, state, event) == TerminalActionView::Wait,
        terminal_state_after(state, event) == match event {
            TerminalEventView::ActionFailed(error) if state is Finished => TerminalState::Failed(
                error,
            ),
            _ => state,
        },
{
}

// ---- From client to client ----
/// A client's join message gets that client registered, with the stream it came over, under the
/// username it gives.
pub proof fn joining_client_is_registered<T>(username: Seq<char>, user_stream: T)
    ensures
        ({
            let join = MessageView::Join(username);
            let admitted = listener_action(StreamEvent::Item(Some(join)), user_stream);
            &&& admitted is Forward
            &&& user_map_action(admitted->Forward_0) == UserMapActionView::Register {
                username,
                user_stream,
            }
        }),
{
}

/// Nobody is registered but by a join message that came first over a new connection.
pub proof fn only_joining_clients_are_registered<T>(
    first: StreamEvent<Option<MessageView>>,
    user_stream: T,
)
    ensures
        listener_action(first, user_stream) is Forward <==> (first matches StreamEvent::Item(
            Some(message),
        ) && message is Join),
{
}

/// All that the session of `speaker` passes on, the announcement included, is shown to every other
/// user, and never comes back to `speaker`.
pub proof fn pushed_message_is_shown_to_every_other_user<S, T, E>(
    users: Map<Seq<char>, S>,
    plan: Seq<DeliveryView<S>>,
    speaker: Seq<char>,
    events: Seq<UserEventView>,
    sending_username: Seq<char>,
    message: MessageView,
    username: Seq<char>,
    connection: ConnectionState<E>,
)
    requires
        session_pushes::<T>(speaker, events).contains((sending_username, message)),
        users.contains_key(username),
        username != speaker,
        reaches_all_others(plan, users, sending_username, message),
        !connection.ended(),
    ensures
        sent_to(speaker, plan) == Seq::<MessageView>::empty(),
        ({
            // It is due to the other user, over that user's channel.
            &&& exists|i: int|
                0 <= i < plan.len() && #[trigger] plan[i] == (DeliveryView {
                    username,
                    channel: users[username],
                    message,
                })
            // The other user's session sends it to the client.
            &&& user_actions::<T>(username, UserEventView::Outgoing(Some(message))) == seq![
                UserActionView::<T>::SendToClient(message),
            ]
            // The connection of that client hands it to the terminal.
            &&& connection_action(
                connection,
                ConnectionEventView::Incoming(StreamEvent::Item(Some(message))),
            ) == ConnectionActionView::Deliver(message)
            // The terminal shows it.
            &&& terminal_action(
                username,
                TerminalState::<E>::Running,
                TerminalEventView::Output(Some(message)),
            ) == TerminalActionView::Print(display_line(message))
        }),
{
    session_pushes_its_messages::<T>(speaker, events);
    push_sends_what_is_due(plan, users, sending_username, message, speaker);
    assert(users.contains_key(username) && username != sending_username);
    let i = choose|i: int| 0 <= i < plan.len() && (#[trigger] plan[i]).username == username;
    assert(plan[i] == (DeliveryView { username, channel: users[username], message }));
}

/// What a user types after `send` and a space gets to the user's session on the server, which
/// passes it on; it is shown after the name of the user who typed it.
pub proof fn typed_message_is_passed_on<T, E>(
    username: Seq<char>,
    text: Seq<char>,
    connection: ConnectionState<E>,
)
    requires
        text.len() > 0,
        !connection.ended(),
    ensures
        ({
            let message = MessageView::Message(username, text);
            // The user's terminal takes the line and hands the message on.
            &&& terminal_action(
                username,
                TerminalState::<E>::Running,
                TerminalEventView::Input(StreamEvent::Item("send "@ + text)),
            ) == TerminalActionView::Forward(message)
            // The connection of the client sends it to the server.
            &&& connection_action(
                connection,
                ConnectionEventView::Outgoing(Some(message)),
            ) == ConnectionActionView::Send(message)
            // The user's session passes it on, and goes on.
            &&& user_actions::<T>(
                username,
                UserEventView::Incoming(StreamEvent::Item(Some(message))),
            ) == seq![UserActionView::<T>::Push { sending_username: username, message }]
            &&& !ends_session(UserEventView::Incoming(StreamEvent::Item(Some(message))))
            // This is how it is shown.
            &&& display_line(message) == username + ": "@ + text
        }),
{
    send_command_carries_the_text(username, text);
}

/// A user who types `leave` is taken off the server, and the user's session ends; all others are
/// told.
pub proof fn leaving_user_is_deregistered<S, T, E>(
    users: Map<Seq<char>, S>,
    channel: S,
    username: Seq<char>,
    connection: ConnectionState<E>,
)
    requires
        !connection.ended(),
    ensures
        ({
            let leave = MessageView::Leave(username);
            let event = UserEventView::Incoming(StreamEvent::Item(Some(leave)));
            // The user's terminal takes the line and hands the message on.
            &&& terminal_action(
                username,
                TerminalState::<E>::Running,
                TerminalEventView::Input(StreamEvent::Item("leave"@)),
            ) == TerminalActionView::Forward(leave)
            // The connection of the client sends it to the server.
            &&& connection_action(
                connection,
                ConnectionEventView::Outgoing(Some(leave)),
            ) == ConnectionActionView::Send(leave)
            // The user's session passes it on, hands it to the user map, and ends.
            &&& user_actions::<T>(username, event) == seq![
                UserActionView::<T>::Push { sending_username: username, message: leave },
                UserActionView::<T>::UpdateUserMap((leave, None)),
            ]
            &&& ends_session(event)
            // The user is taken off the server.
            &&& users_after(users, user_map_action::<T>((leave, None)), channel) == users.remove(
                username,
            )
        }),
{
    let line = "leave"@;
    reveal_strlit("leave");
    reveal_strlit("send");
    line.index_of_first_ensures(' ');
    assert(!line.contains(' '));
    assert(line[0] != "send"@[0]);
}

/// A client who asks for a username that is taken is told so: the user sees the reason, after
/// which the terminal ends. The users on the server stay as they are.
pub proof fn refused_client_is_told<S, E>(
    users: Map<Seq<char>, S>,
    username: Seq<char>,
    channel: S,
    connection: ConnectionState<E>,
)
    requires
        users.contains_key(username),
        !connection.ended(),
    ensures
        ({
            let reply = refusal_reply(username);
            let shown = TerminalEventView::<E>::Output(Some(reply));
            &&& registered(users, username, channel) == users
            &&& connection_action(
                connection,
                ConnectionEventView::Incoming(StreamEvent::Item(Some(reply))),
            ) == ConnectionActionView::Deliver(reply)
            &&& terminal_action(username, TerminalState::Running, shown)
                == TerminalActionView::Print(
                "Error: "@ + ("Username "@ + username
                    + " already in use. Please use another username"@),
            )
            &&& terminal_state_after(TerminalState::Running, shown) == TerminalState::<E>::Finished
        }),
{
}

} // verus!
