//! What holds of each step of the multiplexer.

use crate::error::XsError;
use crate::token::XsWatchToken;
use crate::wire::{nul_free, XsMessage, XsMessageType};
use crate::xs_async::interface::{
    lemma_event_is_for_its_watch, lemma_occupied_bound, task_of, watch_payload,
    WatchSubscriberInfo, XsAsyncAction, XsAsyncError, XsAsyncMessage, XsAsyncNote, XsAsyncReply,
    XsAsyncStateView, XsAsyncTask, MAX_REQUEST_COUNT,
};
use futures::channel::oneshot;
use vstd::prelude::*;

verus! {

/// There are never more tasks than slots, and an operation finds no slot exactly
/// when there are as many tasks as slots.
pub proof fn law_slots_run_out_at_the_limit(state: XsAsyncStateView, message: XsAsyncMessage)
    ensures
        state.task_count() <= state.slots.len(),
        state.refusal(message) == Some(XsAsyncError::NoAvailableSlot) <==> state.task_count()
            == state.slots.len(),
{
    lemma_occupied_bound(state.slots);
}

/// The command for an operation carries the number of its slot, so that the answer
/// to it is for the task in that slot, and frees that slot again.
pub proof fn law_answer_finds_its_task(
    state: XsAsyncStateView,
    message: XsAsyncMessage,
    token: XsWatchToken,
    slot: int,
    response: XsMessage,
)
    requires
        state.slots.len() == MAX_REQUEST_COUNT,
        state.first_free(slot),
        response.request_id == state.command(message, token, slot).request_id,
        response.msg_type != XsMessageType::WatchEvent,
    ensures
        ({
            let waiting = state.with_task(slot, task_of(message, token));
            &&& waiting.task_for(response) == Some(task_of(message, token))
            &&& waiting.answered(response).slots == state.slots
        }),
{
    let waiting = state.with_task(slot, task_of(message, token));
    assert(waiting.answered(response).slots =~= state.slots);
}

/// A task stays in its slot until it is answered: neither a new task nor a message
/// from the daemon with another identifier, nor the loss of a subscriber, drives it
/// out.
pub proof fn law_task_waits_for_its_answer(
    state: XsAsyncStateView,
    slot: int,
    new_slot: int,
    new_task: XsAsyncTask,
    response: XsMessage,
    lost: XsWatchToken,
)
    requires
        0 <= slot < state.slots.len(),
        state.slots[slot] is Some,
        state.first_free(new_slot),
        response.request_id != slot || response.msg_type == XsMessageType::WatchEvent,
    ensures
        state.with_task(new_slot, new_task).slots[slot] == state.slots[slot],
        state.answered(response).slots[slot] == state.slots[slot],
        state.without_subscriber(lost).slots[slot] == state.slots[slot],
{
}

/// A client whose request is under way gets the answer to it, be it an error or
/// not, and nothing changes but that its slot is free again.
pub proof fn law_request_gets_its_answer(
    state: XsAsyncStateView,
    sender: oneshot::Sender<XsMessage>,
    response: XsMessage,
)
    requires
        state.task_for(response) == Some(XsAsyncTask::Request(sender)),
    ensures
        state.answer(response) == (
            XsAsyncReply::Respond { sender, response },
            Ok::<Option<XsAsyncNote>, XsAsyncError>(None),
        ),
        state.answered(response) == (XsAsyncStateView {
            slots: state.slots.update(response.request_id as int, None),
            ..state
        }),
{
}

/// A watch is registered exactly when the daemon confirms it, and its subscriber is
/// told the token in that case and an error in any other.
pub proof fn law_watch_needs_confirmation(
    state: XsAsyncStateView,
    subscriber_info: WatchSubscriberInfo,
    result_channel: oneshot::Sender<Result<XsWatchToken, XsError>>,
    token: XsWatchToken,
    response: XsMessage,
)
    requires
        state.task_for(response) == Some(
            (XsAsyncTask::WatchSubscribe { subscriber_info, result_channel, token }),
        ),
    ensures
        state.answered(response).subscribers == if response.msg_type == XsMessageType::Watch {
            state.subscribers.insert(token@, subscriber_info)
        } else {
            state.subscribers
        },
        state.answer(response).0 == (XsAsyncReply::Conclude {
            result_channel,
            result: match response.msg_type {
                XsMessageType::Watch => Ok(token),
                XsMessageType::Error => Err(XsError::Refused(response)),
                other => Err(XsError::UnexpectedResponse(other)),
            },
        }),
{
}

/// A watch is removed exactly when the daemon confirms that. Nobody is told.
pub proof fn law_unwatch_needs_confirmation(
    state: XsAsyncStateView,
    token: XsWatchToken,
    response: XsMessage,
)
    requires
        state.task_for(response) == Some(XsAsyncTask::WatchUnsubscribe(token)),
    ensures
        state.answered(response).subscribers == if response.msg_type == XsMessageType::Unwatch {
            state.subscribers.remove(token@)
        } else {
            state.subscribers
        },
        state.answer(response).0 == XsAsyncReply::Nothing,
        state.answer(response).1 is Ok <==> response.msg_type == XsMessageType::Unwatch,
{
}

/// A watch event answers nothing: no task and no watch is touched by it, whatever
/// request identifier it carries.
pub proof fn law_watch_event_is_no_answer(state: XsAsyncStateView, response: XsMessage)
    requires
        response.msg_type == XsMessageType::WatchEvent,
    ensures
        state.task_for(response) is None,
        state.answered(response) == state,
{
}

/// An answer that no task waits for is reported, and changes nothing.
pub proof fn law_stray_answer_changes_nothing(state: XsAsyncStateView, response: XsMessage)
    requires
        response.msg_type != XsMessageType::WatchEvent,
        response.request_id < state.slots.len() ==> state.slots[response.request_id as int] is None,
    ensures
        state.answered(response) == state,
        state.answer(response).0 == XsAsyncReply::Nothing,
        state.answer(response).1 is Err,
{
}

/// An answer touches no slot but its own, and no watch but the one that its task is
/// about.
pub proof fn law_answer_leaves_the_rest_alone(
    state: XsAsyncStateView,
    response: XsMessage,
    slot: int,
    key: u128,
)
    requires
        match state.task_for(response) {
            Some(XsAsyncTask::WatchSubscribe { token: own, .. }) => own@ != key,
            Some(XsAsyncTask::WatchUnsubscribe(own)) => own@ != key,
            _ => true,
        },
    ensures
        state.answered(response).slots.len() == state.slots.len(),
        0 <= slot < state.slots.len() && slot != response.request_id
            ==> state.answered(response).slots[slot] == state.slots[slot],
        state.answered(response).subscribers.contains_key(key)
            == state.subscribers.contains_key(key),
        state.subscribers.contains_key(key) ==> state.answered(response).subscribers[key]
            == state.subscribers[key],
{
}

/// A subscriber that was dropped gets no more events.
pub proof fn law_dropped_subscriber_gets_no_events(
    state: XsAsyncStateView,
    token: XsWatchToken,
    payload: Seq<u8>,
    r: Result<XsAsyncAction, XsAsyncError>,
)
    requires
        state.without_subscriber(token).notifies(payload, r),
    ensures
        r matches Ok(XsAsyncAction::Notify { token: to, .. }) ==> to@ != token@,
{
}

/// An event goes only to the subscriber of a registered watch.
pub proof fn law_events_go_to_registered_watches(
    state: XsAsyncStateView,
    payload: Seq<u8>,
    r: Result<XsAsyncAction, XsAsyncError>,
)
    requires
        state.notifies(payload, r),
    ensures
        r matches Ok(XsAsyncAction::Notify { token, .. }) ==> state.subscribers.contains_key(token@),
{
}

/// An event that is made of a path and the token of a registered watch goes to the
/// subscriber of that watch, who is told that path.
pub proof fn law_event_reaches_its_watch(
    state: XsAsyncStateView,
    path: Seq<char>,
    token: XsWatchToken,
    r: Result<XsAsyncAction, XsAsyncError>,
)
    requires
        nul_free(path),
        state.subscribers.contains_key(token@),
        state.notifies(watch_payload(path, token), r),
    ensures
        r matches Ok(XsAsyncAction::Notify { token: to, value }) && to@ == token@ && value@ == path,
{
    lemma_event_is_for_its_watch(path, token);
}

} // verus!
