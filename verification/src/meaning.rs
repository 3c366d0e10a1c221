//! What the mathematical values of the library's types tell: all that the values hold, so that what
//! is stated of the one holds of the other.

use crate::command::command_view;
use crate::connection::{
    ConnectionAction, ConnectionActionView, ConnectionEvent, ConnectionEventView,
};
use crate::errors::{CommandError, CommandErrorView, ServerError, ServerErrorView};
use crate::messages::{ClientServerMessages, MessageView, StreamEvent};
use crate::push::{outcome_view, Delivery, PushState, PushStateView};
use crate::session::{UserAction, UserActionView, UserEvent, UserEventView};
use crate::terminal::{TerminalAction, TerminalActionView, TerminalEvent, TerminalEventView};
use crate::updates::{
    update_view, ListenerAction, ListenerActionView, Rejection, RejectionView, UserMapAction,
    UserMapActionView,
};
use vstd::prelude::*;

verus! {

/// Messages of the same value are of the same kind and hold the same texts.
pub proof fn messages_tell_their_texts(
    message: ClientServerMessages,
    username: Seq<char>,
    text: Seq<char>,
)
    ensures
        message@ == MessageView::Join(username) <==> (message matches ClientServerMessages::Join(
            name,
        ) && name@ == username),
        message@ == MessageView::Leave(username) <==> (message
            matches ClientServerMessages::Leave(name) && name@ == username),
        message@ == MessageView::Message(username, text) <==> (message
            matches ClientServerMessages::Message(name, said) && name@ == username && said@
            == text),
        message@ == MessageView::Error(text) <==> (message matches ClientServerMessages::Error(
            reason,
        ) && reason@ == text),
        message.deep_view() == message@,
{
}

/// What a stream brings is the same in its value, a line that holds no message included.
pub proof fn stream_events_tell_what_came(
    event: StreamEvent<Option<ClientServerMessages>>,
    typed: StreamEvent<String>,
)
    ensures
        match event {
            StreamEvent::Item(Some(message)) => event.deep_view() == StreamEvent::Item(
                Some(message@),
            ),
            StreamEvent::Item(None) => event.deep_view() == StreamEvent::<
                Option<MessageView>,
            >::Item(None),
            _ => true,
        },
        event.deep_view() is LineTooLong <==> event is LineTooLong,
        event.deep_view() is IoError <==> event is IoError,
        event.deep_view() is Ended <==> event is Ended,
        typed matches StreamEvent::Item(line) ==> typed.deep_view() == StreamEvent::Item(line@),
        typed.deep_view() is LineTooLong <==> typed is LineTooLong,
        typed.deep_view() is IoError <==> typed is IoError,
        typed.deep_view() is Ended <==> typed is Ended,
{
}

/// The value of what a typed line is read as holds the message or the reason.
pub proof fn read_commands_tell_all(
    result: Result<ClientServerMessages, CommandError>,
)
    ensures
        result matches Ok(message) ==> command_view(result) == Ok::<MessageView, CommandErrorView>(
            message@,
        ),
        result matches Err(error) ==> command_view(result) == Err::<MessageView, CommandErrorView>(
            error@,
        ),
{
}

/// Errors of the same value are of the same kind and hold the same texts.
pub proof fn errors_tell_their_texts(
    command_error: CommandError,
    server_error: ServerError,
    word: Seq<char>,
    error: Seq<char>,
    sending_username: Seq<char>,
    username: Seq<char>,
)
    ensures
        command_error@ is NoCommand <==> command_error is NoCommand,
        command_error@ is NoMessage <==> command_error is NoMessage,
        command_error@ == CommandErrorView::InvalidCommand(word) <==> (command_error
            matches CommandError::InvalidCommand(first) && first@ == word),
        server_error@ == ServerErrorView::UsernameInUse(username) <==> (server_error
            matches ServerError::UsernameInUse(name) && name@ == username),
        server_error@ == ServerErrorView::UnknownUser(username) <==> (server_error
            matches ServerError::UnknownUser(name) && name@ == username),
        server_error@ == (ServerErrorView::ReplyFailed { error, username }) <==> (server_error
            matches ServerError::ReplyFailed { error: reason, username: name } && reason@ == error
            && name@ == username),
        server_error@ == (ServerErrorView::SendFailed { error, sending_username, username })
            <==> (server_error matches ServerError::SendFailed {
            error: reason,
            sending_username: sender,
            username: name,
        } && reason@ == error && sender@ == sending_username && name@ == username),
{
}

/// The events of a connection tell what they bring.
pub proof fn connection_events_tell_all<E>(event: ConnectionEvent<E>, message: MessageView)
    ensures
        event@ == ConnectionEventView::<E>::Outgoing(Some(message)) <==> (event
            matches ConnectionEvent::Outgoing(Some(sent)) && sent@ == message),
        event@ == ConnectionEventView::<E>::Outgoing(None) <==> (event
            matches ConnectionEvent::Outgoing(None)),
        event matches ConnectionEvent::Incoming(came) ==> event@
            == ConnectionEventView::<E>::Incoming(came.deep_view()),
        event matches ConnectionEvent::EncodeFailed(error) ==> event@
            == ConnectionEventView::EncodeFailed(error),
        event matches ConnectionEvent::ActionFailed(error) ==> event@
            == ConnectionEventView::ActionFailed(error),
{
}

/// The actions of a connection tell what is to be done.
pub proof fn connection_actions_tell_all(action: ConnectionAction, message: MessageView)
    ensures
        action@ == ConnectionActionView::Send(message) <==> (action matches ConnectionAction::Send(
            sent,
        ) && sent@ == message),
        action@ == ConnectionActionView::Deliver(message) <==> (action
            matches ConnectionAction::Deliver(handed) && handed@ == message),
        action@ is Wait <==> action is Wait,
        action@ is ReportUndecodable <==> action is ReportUndecodable,
{
}

/// The events of the terminal tell what they bring.
pub proof fn terminal_events_tell_all<E>(event: TerminalEvent<E>, message: MessageView)
    ensures
        event matches TerminalEvent::Input(typed) ==> event@ == TerminalEventView::<E>::Input(
            typed.deep_view(),
        ),
        event@ == TerminalEventView::<E>::Output(Some(message)) <==> (event
            matches TerminalEvent::Output(Some(shown)) && shown@ == message),
        event@ == TerminalEventView::<E>::Output(None) <==> (event matches TerminalEvent::Output(
            None,
        )),
        event matches TerminalEvent::ActionFailed(error) ==> event@
            == TerminalEventView::ActionFailed(error),
{
}

/// The actions of the terminal tell what is to be done.
pub proof fn terminal_actions_tell_all(
    action: TerminalAction,
    message: MessageView,
    line: Seq<char>,
    error: CommandErrorView,
)
    ensures
        action@ == TerminalActionView::Forward(message) <==> (action
            matches TerminalAction::Forward(handed) && handed@ == message),
        action@ == TerminalActionView::Print(line) <==> (action matches TerminalAction::Print(
            printed,
        ) && printed@ == line),
        action@ == TerminalActionView::ReportCommand(error) <==> (action
            matches TerminalAction::ReportCommand(reported) && reported@ == error),
        action@ is Wait <==> action is Wait,
        action@ is ReportLineTooLong <==> action is ReportLineTooLong,
{
}

/// The events of a session tell what they bring.
pub proof fn user_events_tell_all(event: UserEvent, message: MessageView)
    ensures
        event matches UserEvent::Incoming(came) ==> event@ == UserEventView::Incoming(
            came.deep_view(),
        ),
        event@ == UserEventView::Outgoing(Some(message)) <==> (event matches UserEvent::Outgoing(
            Some(brought),
        ) && brought@ == message),
        event@ == UserEventView::Outgoing(None) <==> (event matches UserEvent::Outgoing(None)),
{
}

/// The actions of a session tell what is to be done.
pub proof fn user_actions_tell_all<T>(
    action: UserAction<T>,
    username: Seq<char>,
    message: MessageView,
    stream: Option<T>,
)
    ensures
        action.deep_view() == (UserActionView::<T>::Push { sending_username: username, message })
            <==> (action matches UserAction::Push { sending_username: sender, message: said }
            && sender@ == username && said@ == message),
        action.deep_view() == UserActionView::UpdateUserMap((message, stream)) <==> (action
            matches UserAction::UpdateUserMap(update) && update.0@ == message && update.1
            == stream),
        action.deep_view() == UserActionView::<T>::Deregister(username) <==> (action
            matches UserAction::Deregister(name) && name@ == username),
        action.deep_view() == UserActionView::<T>::SendToClient(message) <==> (action
            matches UserAction::SendToClient(sent) && sent@ == message),
        action.deep_view() == UserActionView::<T>::ReportUnexpected(message) <==> (action
            matches UserAction::ReportUnexpected(sent) && sent@ == message),
        action.deep_view() is ReportUndecodable <==> action is ReportUndecodable,
        action.deep_view() is ReportLineTooLong <==> action is ReportLineTooLong,
{
}

/// The actions on the user map and the updates that they come from tell all that they hold.
pub proof fn user_map_actions_tell_all<T>(
    action: UserMapAction<T>,
    username: Seq<char>,
    user_stream: T,
    message: MessageView,
    stream: Option<T>,
)
    ensures
        action@ == (UserMapActionView::Register { username, user_stream }) <==> (action
            matches UserMapAction::Register { username: name, user_stream: given } && name@
            == username && given == user_stream),
        action@ == UserMapActionView::<T>::Deregister(username) <==> (action
            matches UserMapAction::Deregister(name) && name@ == username),
        action@ == UserMapActionView::Reject((message, stream)) <==> (action
            matches UserMapAction::Reject(update) && update.0@ == message && update.1 == stream),
        action@ is Stop <==> action is Stop,
        forall|sent: ClientServerMessages|
            update_view((sent, stream)) == (#[trigger] sent@, stream),
{
}

/// The actions of the listener tell what is to be done.
pub proof fn listener_actions_tell_all<T>(
    action: ListenerAction<T>,
    rejection: Rejection,
    message: MessageView,
    stream: Option<T>,
)
    ensures
        action@ == ListenerActionView::Forward((message, stream)) <==> (action
            matches ListenerAction::Forward(update) && update.0@ == message && update.1
            == stream),
        action matches ListenerAction::Reject(reason) ==> action@
            == ListenerActionView::<T>::Reject(reason@),
        action@ is Stop <==> action is Stop,
        rejection@ == RejectionView::NotJoin(message) <==> (rejection matches Rejection::NotJoin(
            sent,
        ) && sent@ == message),
        rejection@ is ConnectionFailed <==> rejection is ConnectionFailed,
        rejection@ is Undecodable <==> rejection is Undecodable,
        rejection@ is LineTooLong <==> rejection is LineTooLong,
        rejection@ is IoError <==> rejection is IoError,
        rejection@ is Ended <==> rejection is Ended,
{
}

/// The deliveries and the states of a push tell all that they hold.
pub proof fn pushes_tell_all<'a, S>(
    delivery: Delivery<'a, S>,
    state: PushState,
    position: int,
    error: ServerErrorView,
    outcome: Result<(), String>,
)
    ensures
        delivery.deep_view().username == delivery.username@,
        delivery.deep_view().channel == *delivery.channel,
        delivery.deep_view().message == delivery.message@,
        state@ == PushStateView::Sending(position) <==> (state matches PushState::Sending(at) && at
            == position),
        state@ == PushStateView::Finished(Ok(())) <==> (state matches PushState::Finished(Ok(_))),
        state@ == PushStateView::Finished(Err(error)) <==> (state matches PushState::Finished(
            Err(found),
        ) && found@ == error),
        outcome is Ok ==> outcome_view(outcome) is Ok,
        outcome matches Err(reason) ==> outcome_view(outcome) == Err::<(), Seq<char>>(reason@),
{
}

} // verus!
