//! What the operations of the multiplexer do, told of their calls: what goes in, what
//! comes out, and what the next call meets.

use crate::error::XsError;
use crate::token::{lemma_text_is_nul_free, spells, uuid_text, XsWatchToken};
use crate::wire::{
    lemma_joined_pair, lemma_pair_gives_back_texts, nul_free, payload_texts, texts_of, XsMessage,
    XsMessageType,
};
use crate::xs_async::interface::{
    find_suitable_token, lemma_occupied_bound, WatchSubscriberInfo, XsAsyncAction, XsAsyncError, XsAsyncInput,
    XsAsyncMessage, XsAsyncNote, XsAsyncPending, XsAsyncRefusal, XsAsyncReply, XsAsyncRequest,
    XsAsyncState, XsAsyncTask,
};
use futures::channel::{mpsc, oneshot};
use std::collections::HashMap;
use vstd::prelude::*;
use vstd::utf8::encode_utf8;

verus! {

/// A request goes to the daemon as its client handed it in: type, transaction and the
/// whole payload are those of the request, and the client's channel waits for the
/// answer. Only the request identifier is set, to the number of the slot.
pub proof fn law_request_goes_out_unchanged(
    before: XsAsyncState,
    turn: &mut XsAsyncState,
    request: XsAsyncRequest,
    command: XsMessage,
    pending: XsAsyncPending,
)
    requires
        before.wf(),
        *old(turn) == before,
        ({
            ||| call_ensures(
                XsAsyncState::process_request,
                (&before, request),
                Ok((command, pending)),
            )
            ||| call_ensures(
                XsAsyncState::process_message,
                (&before, XsAsyncMessage::Request(request)),
                Ok((command, pending)),
            )
            ||| call_ensures(
                XsAsyncState::run,
                (turn, Some(XsAsyncInput::Message(XsAsyncMessage::Request(request)))),
                Ok(XsAsyncAction::Send { command, pending }),
            )
        }),
    ensures
        command.msg_type == request.request.msg_type,
        command.transaction_id == request.request.transaction_id,
        command.payload@ == request.request.payload@,
        command.request_id == pending.slot,
        pending.task == XsAsyncTask::Request(request.response_sender),
        pending.slot < 32,
        before@.slots[pending.slot as int] is None,
        forall|i: int| 0 <= i < pending.slot ==> #[trigger] before@.slots[i] is Some,
{
}

/// The command of a subscription tells the daemon the path that the client handed in,
/// and behind it the text of the token: whoever reads the payload gets back these two.
/// The task that is left behind holds the path, both channels and that token.
pub proof fn law_watch_command_tells_path_and_token(
    before: XsAsyncState,
    turn: &mut XsAsyncState,
    path: Box<str>,
    event_sender: mpsc::Sender<Box<str>>,
    result_channel: oneshot::Sender<Result<XsWatchToken, XsError>>,
    token: XsWatchToken,
    text: String,
    command: XsMessage,
    pending: XsAsyncPending,
)
    requires
        before.wf(),
        *old(turn) == before,
        ({
            let message = XsAsyncMessage::WatchSubscribe { path, event_sender, result_channel };
            ||| call_ensures(
                XsAsyncState::process_subscription,
                (&before, path, event_sender, result_channel, token),
                Ok((command, pending)),
            )
            ||| {
                &&& pending.task matches XsAsyncTask::WatchSubscribe { token: t, .. }
                &&& t == token
                &&& {
                    ||| call_ensures(
                        XsAsyncState::process_message,
                        (&before, message),
                        Ok((command, pending)),
                    )
                    ||| call_ensures(
                        XsAsyncState::run,
                        (turn, Some(XsAsyncInput::Message(message))),
                        Ok(XsAsyncAction::Send { command, pending }),
                    )
                }
            }
        }),
        call_ensures(XsWatchToken::text, (&token,), text),
    ensures
        command.msg_type == XsMessageType::Watch,
        command.transaction_id == 0,
        command.request_id == pending.slot,
        command.payload@ == encode_utf8(path@) + seq![0u8] + encode_utf8(text@) + seq![0u8],
        nul_free(path@) ==> payload_texts(command.payload@) == Some(seq![path@, text@]),
        nul_free(path@) ==> payload_texts(command@.payload) == Some(
            seq![path@, uuid_text(token@)],
        ),
        pending.task == (XsAsyncTask::WatchSubscribe {
            subscriber_info: WatchSubscriberInfo { channel: event_sender, path },
            result_channel,
            token,
        }),
        pending.slot < 32,
        before@.slots[pending.slot as int] is None,
        forall|i: int| 0 <= i < pending.slot ==> #[trigger] before@.slots[i] is Some,
{
    lemma_joined_pair(path@, text@);
    lemma_text_is_nul_free(token@);
    if nul_free(path@) {
        lemma_pair_gives_back_texts(path@, text@);
    }
}

/// A new watch gets a token of its own: a version 4 UUID under which no watch is
/// registered.
pub proof fn law_new_watch_gets_a_free_token(
    before: XsAsyncState,
    turn: &mut XsAsyncState,
    path: Box<str>,
    event_sender: mpsc::Sender<Box<str>>,
    result_channel: oneshot::Sender<Result<XsWatchToken, XsError>>,
    token: XsWatchToken,
    command: XsMessage,
    pending: XsAsyncPending,
)
    requires
        before.wf(),
        *old(turn) == before,
        pending.task matches XsAsyncTask::WatchSubscribe { token: t, .. } && t == token,
        ({
            let message = XsAsyncMessage::WatchSubscribe { path, event_sender, result_channel };
            ||| call_ensures(
                XsAsyncState::process_message,
                (&before, message),
                Ok((command, pending)),
            )
            ||| call_ensures(
                XsAsyncState::run,
                (turn, Some(XsAsyncInput::Message(message))),
                Ok(XsAsyncAction::Send { command, pending }),
            )
        }),
    ensures
        !before@.subscribers.contains_key(token@),
        (token@ >> 76) & 0xf == 4,
        (token@ >> 62) & 0x3 == 2,
{
    let value = token@;
    assert((value >> 76) & 0xf == 4 && (value >> 62) & 0x3 == 2) by (bit_vector)
        requires
            value & 0xF000_C000_0000_0000_0000 == 0x4000_8000_0000_0000_0000,
    ;
}

/// The command that ends a watch tells the daemon the path of that watch, and behind it
/// the text of its token. The task that is left behind is about that very watch.
pub proof fn law_unwatch_command_tells_path_and_token(
    before: XsAsyncState,
    turn: &mut XsAsyncState,
    token: XsWatchToken,
    text: String,
    command: XsMessage,
    pending: XsAsyncPending,
)
    requires
        before.wf(),
        *old(turn) == before,
        ({
            ||| call_ensures(
                XsAsyncState::process_unsubscription,
                (&before, token),
                Ok((command, pending)),
            )
            ||| call_ensures(
                XsAsyncState::process_message,
                (&before, XsAsyncMessage::WatchUnsubscribe(token)),
                Ok((command, pending)),
            )
            ||| call_ensures(
                XsAsyncState::run,
                (turn, Some(XsAsyncInput::Message(XsAsyncMessage::WatchUnsubscribe(token)))),
                Ok(XsAsyncAction::Send { command, pending }),
            )
        }),
        call_ensures(XsWatchToken::text, (&token,), text),
    ensures
        before@.subscribers.contains_key(token@),
        ({
            let path = before@.subscribers[token@].path@;
            &&& command.msg_type == XsMessageType::Unwatch
            &&& command.transaction_id == 0
            &&& command.request_id == pending.slot
            &&& command.payload@ == encode_utf8(path) + seq![0u8] + encode_utf8(text@) + seq![0u8]
            &&& nul_free(path) ==> payload_texts(command.payload@) == Some(seq![path, text@])
        }),
        pending.task == XsAsyncTask::WatchUnsubscribe(token),
        pending.slot < 32,
        before@.slots[pending.slot as int] is None,
        forall|i: int| 0 <= i < pending.slot ==> #[trigger] before@.slots[i] is Some,
{
    let path = before@.subscribers[token@].path@;
    lemma_joined_pair(path, text@);
    lemma_text_is_nul_free(token@);
    if nul_free(path) {
        lemma_pair_gives_back_texts(path, text@);
    }
}

/// An operation is accepted exactly when a slot is free and, if it is to end a watch,
/// that watch is registered. It gets the first free slot. One that is turned down comes
/// back as it was, with the reason.
pub proof fn law_operation_is_accepted_or_comes_back(
    before: XsAsyncState,
    message: XsAsyncMessage,
    r: Result<(XsMessage, XsAsyncPending), XsAsyncRefusal>,
)
    requires
        before.wf(),
        call_ensures(XsAsyncState::process_message, (&before, message), r),
    ensures
        r is Ok <==> {
            &&& exists|i: int| 0 <= i < 32 && #[trigger] before@.slots[i] is None
            &&& message matches XsAsyncMessage::WatchUnsubscribe(token)
                ==> before@.subscribers.contains_key(token@)
        },
        r matches Ok((_, pending)) ==> {
            &&& pending.slot < 32
            &&& before@.slots[pending.slot as int] is None
            &&& forall|i: int| 0 <= i < pending.slot ==> #[trigger] before@.slots[i] is Some
        },
        r matches Err(refused) ==> {
            &&& refused.message == message
            &&& refused.error == XsAsyncError::NoAvailableSlot || refused.error
                == XsAsyncError::UnwatchWithoutWatch
            &&& refused.error == XsAsyncError::NoAvailableSlot <==> (forall|i: int|
                0 <= i < 32 ==> #[trigger] before@.slots[i] is Some)
        },
{
}

/// Each kind of operation, decided on alone, is accepted and turned down in the same
/// way, and comes back as it was in that case.
pub proof fn law_each_kind_is_accepted_or_comes_back(
    before: XsAsyncState,
    request: XsAsyncRequest,
    requested: Result<(XsMessage, XsAsyncPending), XsAsyncRefusal>,
    path: Box<str>,
    event_sender: mpsc::Sender<Box<str>>,
    result_channel: oneshot::Sender<Result<XsWatchToken, XsError>>,
    token: XsWatchToken,
    subscribed: Result<(XsMessage, XsAsyncPending), XsAsyncRefusal>,
    old_token: XsWatchToken,
    ended: Result<(XsMessage, XsAsyncPending), XsAsyncRefusal>,
)
    requires
        before.wf(),
        call_ensures(XsAsyncState::process_request, (&before, request), requested),
        call_ensures(
            XsAsyncState::process_subscription,
            (&before, path, event_sender, result_channel, token),
            subscribed,
        ),
        call_ensures(XsAsyncState::process_unsubscription, (&before, old_token), ended),
    ensures
        ({
            let free = exists|i: int| 0 <= i < 32 && #[trigger] before@.slots[i] is None;
            &&& requested is Ok <==> free
            &&& subscribed is Ok <==> free
            &&& ended is Ok <==> free && before@.subscribers.contains_key(old_token@)
            &&& ended matches Err(refused) ==> refused.error == if free {
                XsAsyncError::UnwatchWithoutWatch
            } else {
                XsAsyncError::NoAvailableSlot
            }
        }),
        requested matches Err(refused) ==> {
            &&& refused.error == XsAsyncError::NoAvailableSlot
            &&& refused.message == XsAsyncMessage::Request(request)
        },
        subscribed matches Err(refused) ==> {
            &&& refused.error == XsAsyncError::NoAvailableSlot
            &&& refused.message == (XsAsyncMessage::WatchSubscribe {
                path,
                event_sender,
                result_channel,
            })
        },
        ended matches Err(refused) ==> refused.message == XsAsyncMessage::WatchUnsubscribe(
            old_token,
        ),
{
}

/// What the main entry does with an operation is what deciding on it gives: a command
/// to send, or the operation back. The state does not change by that.
pub proof fn law_run_hands_operations_on(
    turn: &mut XsAsyncState,
    message: XsAsyncMessage,
    r: Result<XsAsyncAction, XsAsyncError>,
)
    requires
        old(turn).wf(),
        call_ensures(XsAsyncState::run, (turn, Some(XsAsyncInput::Message(message))), r),
    ensures
        final(turn)@ == old(turn)@,
        r matches Ok(action) && (action is Send || action is Refuse),
        r matches Ok(XsAsyncAction::Send { .. }) <==> {
            &&& exists|i: int| 0 <= i < 32 && #[trigger] old(turn)@.slots[i] is None
            &&& message matches XsAsyncMessage::WatchUnsubscribe(token)
                ==> old(turn)@.subscribers.contains_key(token@)
        },
        r matches Ok(XsAsyncAction::Send { pending, .. }) ==> {
            &&& pending.slot < 32
            &&& old(turn)@.slots[pending.slot as int] is None
            &&& forall|i: int| 0 <= i < pending.slot ==> #[trigger] old(turn)@.slots[i] is Some
        },
        r matches Ok(XsAsyncAction::Refuse(refused)) ==> {
            &&& refused.message == message
            &&& refused.error == if exists|i: int|
                0 <= i < 32 && #[trigger] old(turn)@.slots[i] is None {
                XsAsyncError::UnwatchWithoutWatch
            } else {
                XsAsyncError::NoAvailableSlot
            }
        },
{
}

/// When nothing comes in any more, the run stops and the state stays.
pub proof fn law_run_stops_when_nothing_comes(
    turn: &mut XsAsyncState,
    r: Result<XsAsyncAction, XsAsyncError>,
)
    requires
        old(turn).wf(),
        call_ensures(XsAsyncState::run, (turn, None), r),
    ensures
        r matches Ok(XsAsyncAction::Stop),
        final(turn)@ == old(turn)@,
{
}

/// A command that was sent leaves its task in its slot and touches nothing else. One
/// that was not leaves nothing, and its task comes back.
pub proof fn law_sent_command_takes_its_slot(
    turn: &mut XsAsyncState,
    pending: XsAsyncPending,
    sent: bool,
    given_up: Option<XsAsyncTask>,
)
    requires
        old(turn).wf(),
        pending.slot < 32,
        old(turn)@.slots[pending.slot as int] is None,
        call_ensures(XsAsyncState::command_sent, (turn, pending, sent), given_up),
    ensures
        final(turn)@.subscribers == old(turn)@.subscribers,
        final(turn)@.slots.len() == 32,
        forall|i: int|
            0 <= i < 32 && i != pending.slot ==> #[trigger] final(turn)@.slots[i] == old(
                turn,
            )@.slots[i],
        sent ==> given_up is None && final(turn)@.slots[pending.slot as int] == Some(pending.task),
        !sent ==> given_up == Some(pending.task) && final(turn)@.slots[pending.slot as int] is None,
{
}

/// Another operation is taken on exactly while a slot is free.
pub proof fn law_operations_are_taken_while_a_slot_is_free(state: XsAsyncState, takes: bool)
    requires
        state.wf(),
        call_ensures(XsAsyncState::takes_messages, (&state,), takes),
    ensures
        takes <==> exists|i: int| 0 <= i < 32 && #[trigger] state@.slots[i] is None,
{
    lemma_occupied_bound(state@.slots);
}

/// In the beginning all of the 32 slots are free and no watch is registered.
pub proof fn law_nothing_is_under_way_at_first(state: XsAsyncState)
    requires
        call_ensures(<XsAsyncState as Default>::default, (), state),
    ensures
        state.wf(),
        state@.slots.len() == 32,
        forall|i: int| 0 <= i < 32 ==> #[trigger] state@.slots[i] is None,
        forall|key: u128| !(#[trigger] state@.subscribers.contains_key(key)),
{
}

/// The answer to a request goes to the client that waits for it, as it came and
/// whatever it holds. The slot is free again, and nothing else changes.
pub proof fn law_answer_goes_to_its_client(
    turn: &mut XsAsyncState,
    sender: oneshot::Sender<XsMessage>,
    response: XsMessage,
    r: Result<XsAsyncAction, XsAsyncError>,
)
    requires
        old(turn).wf(),
        response.msg_type != XsMessageType::WatchEvent,
        response.request_id < 32,
        old(turn)@.slots[response.request_id as int] == Some(XsAsyncTask::Request(sender)),
        ({
            ||| call_ensures(XsAsyncState::process_response, (turn, response), r)
            ||| call_ensures(XsAsyncState::run, (turn, Some(XsAsyncInput::Response(response))), r)
        }),
    ensures
        exists|sent: Result<(), XsMessage>|
            call_ensures(oneshot::Sender::<XsMessage>::send, (sender, response), sent),
        r matches Ok(XsAsyncAction::Nothing),
        final(turn)@.subscribers == old(turn)@.subscribers,
        final(turn)@.slots == old(turn)@.slots.update(response.request_id as int, None),
{
}

/// A subscription ends as the daemon answers it. A confirmation registers the watch
/// under its token with its channel and path, and its client is told the token. An error
/// is handed on as it came. Anything else is an error too, for client and caller. The
/// slot is free again in any case.
pub proof fn law_subscription_ends_as_answered(
    turn: &mut XsAsyncState,
    subscriber_info: WatchSubscriberInfo,
    result_channel: oneshot::Sender<Result<XsWatchToken, XsError>>,
    token: XsWatchToken,
    response: XsMessage,
    r: Result<XsAsyncAction, XsAsyncError>,
)
    requires
        old(turn).wf(),
        response.msg_type != XsMessageType::WatchEvent,
        response.request_id < 32,
        old(turn)@.slots[response.request_id as int] == Some(
            (XsAsyncTask::WatchSubscribe { subscriber_info, result_channel, token }),
        ),
        ({
            ||| call_ensures(XsAsyncState::process_response, (turn, response), r)
            ||| call_ensures(XsAsyncState::run, (turn, Some(XsAsyncInput::Response(response))), r)
        }),
    ensures
        final(turn)@.slots == old(turn)@.slots.update(response.request_id as int, None),
        response.msg_type == XsMessageType::Watch ==> {
            &&& exists|sent: Result<(), Result<XsWatchToken, XsError>>|
                call_ensures(
                    oneshot::Sender::<Result<XsWatchToken, XsError>>::send,
                    (result_channel, Ok(token)),
                    sent,
                )
            &&& final(turn)@.subscribers == old(turn)@.subscribers.insert(token@, subscriber_info)
            &&& old(turn)@.subscribers.contains_key(token@) ==> (r matches Ok(
                XsAsyncAction::Note(note),
            ) && note == XsAsyncNote::OverriddenSubscriber(token))
            &&& !old(turn)@.subscribers.contains_key(token@) ==> (r matches Ok(
                XsAsyncAction::Nothing,
            ))
        },
        response.msg_type == XsMessageType::Error ==> {
            &&& exists|sent: Result<(), Result<XsWatchToken, XsError>>|
                call_ensures(
                    oneshot::Sender::<Result<XsWatchToken, XsError>>::send,
                    (result_channel, Err(XsError::Refused(response))),
                    sent,
                )
            &&& r matches Ok(XsAsyncAction::Nothing)
        },
        response.msg_type != XsMessageType::Watch ==> final(turn)@.subscribers == old(
            turn,
        )@.subscribers,
        response.msg_type != XsMessageType::Watch && response.msg_type != XsMessageType::Error
            ==> {
            &&& exists|sent: Result<(), Result<XsWatchToken, XsError>>|
                call_ensures(
                    oneshot::Sender::<Result<XsWatchToken, XsError>>::send,
                    (result_channel, Err(XsError::UnexpectedResponse(response.msg_type))),
                    sent,
                )
            &&& r matches Err(e)
            &&& e == XsAsyncError::InvalidWatchResponse
        },
{
}

/// A watch ends as the daemon answers: a confirmation removes the watch under that
/// token and no other, and anything else keeps all of them. The slot is free again in
/// any case.
pub proof fn law_watch_ends_as_answered(
    turn: &mut XsAsyncState,
    token: XsWatchToken,
    response: XsMessage,
    r: Result<XsAsyncAction, XsAsyncError>,
)
    requires
        old(turn).wf(),
        response.msg_type != XsMessageType::WatchEvent,
        response.request_id < 32,
        old(turn)@.slots[response.request_id as int] == Some(
            XsAsyncTask::WatchUnsubscribe(token),
        ),
        ({
            ||| call_ensures(XsAsyncState::process_response, (turn, response), r)
            ||| call_ensures(XsAsyncState::run, (turn, Some(XsAsyncInput::Response(response))), r)
        }),
    ensures
        final(turn)@.slots == old(turn)@.slots.update(response.request_id as int, None),
        response.msg_type == XsMessageType::Unwatch ==> {
            &&& !final(turn)@.subscribers.contains_key(token@)
            &&& final(turn)@.subscribers == old(turn)@.subscribers.remove(token@)
            &&& old(turn)@.subscribers.contains_key(token@) ==> (r matches Ok(
                XsAsyncAction::Nothing,
            ))
            &&& !old(turn)@.subscribers.contains_key(token@) ==> (r matches Ok(
                XsAsyncAction::Note(note),
            ) && note == XsAsyncNote::UnwatchedNothing(token))
        },
        response.msg_type != XsMessageType::Unwatch ==> {
            &&& final(turn)@.subscribers == old(turn)@.subscribers
            &&& r matches Err(e)
            &&& e == if response.msg_type == XsMessageType::Error {
                XsAsyncError::UnwatchFailure
            } else {
                XsAsyncError::InvalidWatchResponse
            }
        },
{
}

/// An answer that no task waits for is reported and changes nothing.
pub proof fn law_stray_answer_is_reported(
    turn: &mut XsAsyncState,
    response: XsMessage,
    r: Result<XsAsyncAction, XsAsyncError>,
)
    requires
        old(turn).wf(),
        response.msg_type != XsMessageType::WatchEvent,
        response.request_id < 32 ==> old(turn)@.slots[response.request_id as int] is None,
        ({
            ||| call_ensures(XsAsyncState::process_response, (turn, response), r)
            ||| call_ensures(XsAsyncState::run, (turn, Some(XsAsyncInput::Response(response))), r)
        }),
    ensures
        final(turn)@ == old(turn)@,
        r matches Err(e) && e == if response.request_id < 32 {
            XsAsyncError::NoRelatedRequest
        } else {
            XsAsyncError::InvalidRequestId
        },
{
}

/// Carrying out the task of an answer makes exactly the reply that is then sent: the
/// whole answer to the client of a request, the outcome to the client of a subscription,
/// and none otherwise.
pub proof fn law_reply_is_for_the_waiting_client(
    turn: &mut XsAsyncState,
    response: XsMessage,
    reply: XsAsyncReply,
    outcome: Result<Option<XsAsyncNote>, XsAsyncError>,
)
    requires
        old(turn).wf(),
        response.msg_type != XsMessageType::WatchEvent,
        response.request_id < 32,
        call_ensures(XsAsyncState::settle, (turn, response), (reply, outcome)),
    ensures
        match old(turn)@.slots[response.request_id as int] {
            Some(XsAsyncTask::Request(sender)) => {
                &&& reply == (XsAsyncReply::Respond { sender, response })
                &&& outcome matches Ok(None)
            },
            Some(XsAsyncTask::WatchSubscribe { result_channel, token, .. }) => {
                &&& reply matches XsAsyncReply::Conclude { result_channel: channel, result }
                &&& channel == result_channel
                &&& response.msg_type == XsMessageType::Watch <==> result == Ok::<_, XsError>(
                    token,
                )
                &&& response.msg_type == XsMessageType::Error <==> result == Err::<
                    XsWatchToken,
                    _,
                >(XsError::Refused(response))
                &&& response.msg_type != XsMessageType::Watch && response.msg_type
                    != XsMessageType::Error ==> {
                    &&& result == Err::<XsWatchToken, _>(
                        XsError::UnexpectedResponse(response.msg_type),
                    )
                    &&& outcome matches Err(e)
                    &&& e == XsAsyncError::InvalidWatchResponse
                }
            },
            _ => reply == XsAsyncReply::Nothing,
        },
        final(turn)@.slots == old(turn)@.slots.update(response.request_id as int, None),
{
    let slots = old(turn)@.slots;
    assert(slots[response.request_id as int] is None ==> slots.update(
        response.request_id as int,
        None,
    ) =~= slots);
}

/// An event is read as the daemon writes it: a path, and behind it the token. The
/// subscriber of the watch with that token is told that path, however the daemon spells
/// the token. An event of a watch that is not registered is noted.
pub proof fn law_event_tells_its_subscriber_the_path(
    state: XsAsyncState,
    turn: &mut XsAsyncState,
    event: XsMessage,
    path: Seq<char>,
    text: Seq<char>,
    key: u128,
    r: Result<XsAsyncAction, XsAsyncError>,
)
    requires
        state.wf(),
        *old(turn) == state,
        event.msg_type == XsMessageType::WatchEvent,
        ({
            ||| payload_texts(event.payload@) == Some(seq![path, text])
            ||| {
                &&& event.payload@ == encode_utf8(path) + seq![0u8] + encode_utf8(text) + seq![0u8]
                &&& nul_free(path)
                &&& nul_free(text)
            }
        }),
        spells(text, key),
        ({
            ||| call_ensures(XsAsyncState::process_watch_entry, (&state, &event), r)
            ||| call_ensures(XsAsyncState::process_response, (turn, event), r)
            ||| call_ensures(XsAsyncState::run, (turn, Some(XsAsyncInput::Response(event))), r)
        }),
    ensures
        state@.subscribers.contains_key(key) ==> {
            &&& r matches Ok(XsAsyncAction::Notify { token, value })
            &&& token@ == key
            &&& value@ == path
        },
        !state@.subscribers.contains_key(key) ==> {
            &&& r matches Ok(XsAsyncAction::Note(XsAsyncNote::UnregisteredWatch(token)))
            &&& token@ == key
        },
{
    if nul_free(path) && nul_free(text) {
        lemma_pair_gives_back_texts(path, text);
    }
    let read = choose|v: u128| spells(text, v);
    crate::token::lemma_text_stands_for_one_token(text, read, key);
}

/// An event that is made of a path and the text of a token is for the watch with that
/// token, and tells that path.
pub proof fn law_event_of_a_token_is_for_its_watch(
    state: XsAsyncState,
    turn: &mut XsAsyncState,
    event: XsMessage,
    path: Seq<char>,
    token: XsWatchToken,
    text: String,
    r: Result<XsAsyncAction, XsAsyncError>,
)
    requires
        state.wf(),
        *old(turn) == state,
        event.msg_type == XsMessageType::WatchEvent,
        nul_free(path),
        call_ensures(XsWatchToken::text, (&token,), text),
        event.payload@ == encode_utf8(path) + seq![0u8] + encode_utf8(text@) + seq![0u8],
        ({
            ||| call_ensures(XsAsyncState::process_watch_entry, (&state, &event), r)
            ||| call_ensures(XsAsyncState::process_response, (turn, event), r)
            ||| call_ensures(XsAsyncState::run, (turn, Some(XsAsyncInput::Response(event))), r)
        }),
    ensures
        state@.subscribers.contains_key(token@) ==> {
            &&& r matches Ok(XsAsyncAction::Notify { token: to, value })
            &&& to@ == token@
            &&& value@ == path
        },
        !state@.subscribers.contains_key(token@) ==> {
            &&& r matches Ok(XsAsyncAction::Note(XsAsyncNote::UnregisteredWatch(to)))
            &&& to@ == token@
        },
{
    lemma_text_is_nul_free(token@);
    crate::token::lemma_text_gives_back_token(token@);
    law_event_tells_its_subscriber_the_path(state, turn, event, path, text@, token@, r);
}

/// What comes of an event is known from reading its payload and then its second text:
/// the first text is what the subscriber of that token is told. A payload that is no
/// text, that does not hold two texts, or whose second text is no token, is an error of
/// its own.
pub proof fn law_event_is_read_by_its_texts(
    state: XsAsyncState,
    event: XsMessage,
    list: Result<Vec<&str>, XsError>,
    parsed: Option<XsWatchToken>,
    r: Result<XsAsyncAction, XsAsyncError>,
)
    requires
        call_ensures(XsAsyncState::process_watch_entry, (&state, &event), r),
        call_ensures(XsMessage::parse_payload_list, (&event,), list),
        list matches Ok(strings) ==> (strings@.len() == 2 ==> call_ensures(
            XsWatchToken::parse,
            (strings@[1],),
            parsed,
        )),
    ensures
        list is Err <==> (r matches Err(e) && e == XsAsyncError::InvalidText),
        list matches Ok(strings) ==> (strings@.len() != 2 ==> (r matches Err(e) && e
            == XsAsyncError::InvalidWatchEvent)),
        list matches Ok(strings) ==> (strings@.len() == 2 ==> match parsed {
            None => r matches Err(e) && e == XsAsyncError::NonUuidToken,
            Some(to) => if state@.subscribers.contains_key(to@) {
                r matches Ok(XsAsyncAction::Notify { token, value }) && token@ == to@ && value@
                    == strings@[0]@
            } else {
                r matches Ok(XsAsyncAction::Note(XsAsyncNote::UnregisteredWatch(token))) && token@
                    == to@
            },
        }),
{
    if let Ok(strings) = list {
        assert(texts_of(strings@).len() == strings@.len());
        if strings@.len() == 2 {
            assert(texts_of(strings@)[0] == strings@[0]@);
            assert(texts_of(strings@)[1] == strings@[1]@);
        }
    }
}

/// An event answers nothing: it leaves all slots and all watches as they are, and is
/// treated as looking at it alone shows.
pub proof fn law_event_changes_nothing(
    turn: &mut XsAsyncState,
    event: XsMessage,
    r: Result<XsAsyncAction, XsAsyncError>,
)
    requires
        old(turn).wf(),
        event.msg_type == XsMessageType::WatchEvent,
        ({
            ||| call_ensures(XsAsyncState::process_response, (turn, event), r)
            ||| call_ensures(XsAsyncState::run, (turn, Some(XsAsyncInput::Response(event))), r)
        }),
    ensures
        final(turn)@ == old(turn)@,
{
}

/// The channel of a subscriber is found exactly where its watch is registered, and
/// using it changes nothing but that channel.
pub proof fn law_channel_is_that_of_the_watch(
    turn: &mut XsAsyncState,
    token: XsWatchToken,
    found: Option<&mut mpsc::Sender<Box<str>>>,
    other: u128,
)
    requires
        old(turn).wf(),
        call_ensures(XsAsyncState::subscriber_channel, (turn, token), found),
    ensures
        found is Some <==> old(turn)@.subscribers.contains_key(token@),
        found matches Some(channel) ==> *channel == old(turn)@.subscribers[token@].channel,
        final(turn)@.slots == old(turn)@.slots,
        final(turn)@.subscribers.contains_key(other) == old(turn)@.subscribers.contains_key(other),
        old(turn)@.subscribers.contains_key(other) ==> final(turn)@.subscribers[other].path == old(
            turn,
        )@.subscribers[other].path,
        old(turn)@.subscribers.contains_key(other) && other != token@
            ==> final(turn)@.subscribers[other] == old(turn)@.subscribers[other],
{
}

/// A subscriber that could not be notified is dropped, and no other. One that could be
/// stays.
pub proof fn law_lost_subscriber_is_dropped(
    turn: &mut XsAsyncState,
    token: XsWatchToken,
    notified: bool,
    done: (),
    other: u128,
)
    requires
        old(turn).wf(),
        call_ensures(XsAsyncState::subscriber_notified, (turn, token, notified), done),
    ensures
        final(turn)@.slots == old(turn)@.slots,
        notified ==> final(turn)@ == old(turn)@,
        !notified ==> !final(turn)@.subscribers.contains_key(token@),
        other != token@ ==> final(turn)@.subscribers.contains_key(other) == old(
            turn,
        )@.subscribers.contains_key(other),
        other != token@ && old(turn)@.subscribers.contains_key(other)
            ==> final(turn)@.subscribers[other] == old(turn)@.subscribers[other],
{
}

/// A token that is found is free, whatever is registered, and is a UUID of version 4 and
/// the usual variant.
pub proof fn law_found_token_is_free<V>(watch_subscribers: &HashMap<u128, V>, token: XsWatchToken)
    requires
        call_ensures(find_suitable_token::<V>, (watch_subscribers,), token),
    ensures
        !watch_subscribers@.contains_key(token@),
        (token@ >> 76) & 0xf == 4,
        (token@ >> 62) & 0x3 == 2,
        watch_subscribers@.dom().len() == 0 ==> XsWatchToken::is_drawn(token@),
{
    let value = token@;
    assert((value >> 76) & 0xf == 4 && (value >> 62) & 0x3 == 2) by (bit_vector)
        requires
            value & 0xF000_C000_0000_0000_0000 == 0x4000_8000_0000_0000_0000,
    ;
    broadcast use vstd::std_specs::hash::group_hash_axioms;

    assert(watch_subscribers@.dom().finite());
    if watch_subscribers@.dom().len() == 0 {
        assert(watch_subscribers@.dom() =~= Set::<u128>::empty());
    }
}

} // verus!
