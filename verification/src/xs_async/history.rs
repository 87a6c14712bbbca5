//! What holds of the multiplexer over a whole run.
//!
//! A run is a sequence of turns. In each, something comes in, the state decides, and
//! what it asks for is done or fails.

use crate::error::XsError;
use crate::token::{uuid_text, XsWatchToken};
use crate::wire::{lemma_joined_pair, nul_free, XsMessage, XsMessageType};
use crate::xs_async::interface::{
    event_of, lemma_event_is_for_its_watch, lemma_occupied_bound, XsAsyncAction, XsAsyncError,
    XsAsyncInput, XsAsyncMessage, XsAsyncNote, XsAsyncReply, XsAsyncRequest,
    XsAsyncState, XsAsyncStateView, XsAsyncTask, MAX_REQUEST_COUNT,
};
use futures::channel::{mpsc, oneshot};
use vstd::prelude::*;
use vstd::set_lib::{lemma_int_range, lemma_len_subset, lemma_map_size, set_int_range};
use vstd::utf8::encode_utf8;

verus! {

/// One turn of a run.
pub struct XsAsyncTurn {
    /// What came in.
    pub input: Option<XsAsyncInput>,
    /// What came of it.
    pub result: Result<XsAsyncAction, XsAsyncError>,
    /// Whether the command could be sent, or the subscriber notified.
    pub done: bool,
}

impl XsAsyncTurn {
    /// An operation comes in.
    pub open spec fn takes_operation(self) -> bool {
        self.input matches Some(XsAsyncInput::Message(_))
    }

    /// A command goes out.
    pub open spec fn sends(self) -> bool {
        self.result matches Ok(XsAsyncAction::Send { .. })
    }

    /// A command has gone out.
    pub open spec fn sent(self) -> bool {
        self.sends() && self.done
    }

    /// The command that goes out.
    pub open spec fn command(self) -> XsMessage
        recommends
            self.sends(),
    {
        self.result->Ok_0->command
    }

    /// The task that the command leaves behind.
    pub open spec fn task(self) -> XsAsyncTask
        recommends
            self.sends(),
    {
        self.result->Ok_0->pending.task
    }

    /// A message from the daemon comes in that answers the command with this request
    /// identifier.
    pub open spec fn answers(self, request_id: u32) -> bool {
        &&& self.input matches Some(XsAsyncInput::Response(response))
        &&& response.msg_type != XsMessageType::WatchEvent
        &&& response.request_id == request_id
    }

    /// The watch with this token is registered anew, removed or lost: the daemon
    /// confirms that, or the subscriber cannot be notified.
    pub open spec fn touches(self, before: XsAsyncStateView, key: u128) -> bool {
        ||| {
            &&& self.input matches Some(XsAsyncInput::Response(response))
            &&& match before.task_for(response) {
                Some(XsAsyncTask::WatchSubscribe { token, .. }) => token@ == key
                    && response.msg_type == XsMessageType::Watch,
                Some(XsAsyncTask::WatchUnsubscribe(token)) => token@ == key && response.msg_type
                    == XsMessageType::Unwatch,
                _ => false,
            }
        }
        ||| {
            &&& self.result matches Ok(XsAsyncAction::Notify { token, .. })
            &&& token@ == key
            &&& !self.done
        }
    }

    /// The turn leads from one state to another: the task of a command that was sent
    /// is entered, a subscriber that was notified may have a changed channel, and one
    /// that could not be notified is dropped.
    pub open spec fn leads(self, before: XsAsyncStateView, after: XsAsyncStateView) -> bool {
        let decided = before.taken_in(self.input);
        &&& before.ran(self.input, self.result)
        &&& match self.result {
            Ok(XsAsyncAction::Send { pending, .. }) => after == if self.done {
                decided.with_task(pending.slot as int, pending.task)
            } else {
                decided
            },
            Ok(XsAsyncAction::Notify { token, .. }) => if self.done {
                exists|channel: mpsc::Sender<Box<str>>|
                    after == #[trigger] decided.with_channel(token, channel)
            } else {
                after == decided.without_subscriber(token)
            },
            _ => after == decided,
        }
    }
}

/// These are the states before, between and after the turns of a run.
pub open spec fn is_run(states: Seq<XsAsyncStateView>, turns: Seq<XsAsyncTurn>) -> bool {
    &&& states.len() == turns.len() + 1
    &&& states[0].slots.len() == MAX_REQUEST_COUNT
    &&& forall|i: int|
        0 <= i < turns.len() ==> (#[trigger] turns[i]).leads(states[i], states[i + 1])
}

/// A run in which an operation is taken on only while there are less tasks than slots.
pub open spec fn is_driven(states: Seq<XsAsyncStateView>, turns: Seq<XsAsyncTurn>) -> bool {
    &&& is_run(states, turns)
    &&& forall|i: int|
        0 <= i < turns.len() && (#[trigger] turns[i]).takes_operation() ==> states[i].task_count()
            < MAX_REQUEST_COUNT
}

/// The command of a turn has not been answered in the turns up to `end`.
pub open spec fn is_unanswered(turns: Seq<XsAsyncTurn>, i: int, end: int) -> bool {
    &&& 0 <= i < end
    &&& turns[i].sent()
    &&& forall|k: int|
        i < k < end ==> !(#[trigger] turns[k]).answers(turns[i].command().request_id)
}

/// The turns whose commands have not been answered.
pub open spec fn unanswered(turns: Seq<XsAsyncTurn>) -> Set<int> {
    Set::new(|i: int| is_unanswered(turns, i, turns.len() as int))
}

/// The commands that go out, in their order.
pub open spec fn commands(turns: Seq<XsAsyncTurn>) -> Seq<XsMessage>
    decreases turns.len(),
{
    if turns.len() == 0 {
        seq![]
    } else {
        let earlier = commands(turns.drop_last());
        if turns.last().sends() {
            earlier.push(turns.last().command())
        } else {
            earlier
        }
    }
}

/// The operations that come in, in their order, each with the state that it meets,
/// without those that are to end a watch that is not registered.
pub open spec fn operations(states: Seq<XsAsyncStateView>, turns: Seq<XsAsyncTurn>) -> Seq<
    (XsAsyncStateView, XsAsyncMessage),
>
    decreases turns.len(),
{
    if turns.len() == 0 {
        seq![]
    } else {
        let earlier = operations(states.drop_last(), turns.drop_last());
        let state = states[turns.len() - 1];
        match turns.last().input {
            Some(XsAsyncInput::Message(message)) => match message {
                XsAsyncMessage::WatchUnsubscribe(token) if !state.subscribers.contains_key(
                    token@,
                ) => earlier,
                _ => earlier.push((state, message)),
            },
            _ => earlier,
        }
    }
}

/// This command goes out for an operation that meets this state.
pub open spec fn is_command_for(
    state: XsAsyncStateView,
    message: XsAsyncMessage,
    command: XsMessage,
) -> bool {
    exists|token: XsWatchToken, slot: int|
        {
            &&& command@ == #[trigger] state.command(message, token, slot)
            &&& state.first_free(slot)
            &&& message is WatchSubscribe ==> state.suitable(token)
        }
}

/// What the subscriber of a watch is told, in its order.
pub open spec fn told(turns: Seq<XsAsyncTurn>, key: u128) -> Seq<Seq<char>>
    decreases turns.len(),
{
    if turns.len() == 0 {
        seq![]
    } else {
        let earlier = told(turns.drop_last(), key);
        match turns.last().result {
            Ok(XsAsyncAction::Notify { token, value }) if token@ == key => earlier.push(value@),
            _ => earlier,
        }
    }
}

/// What the events of a watch say, in their order.
pub open spec fn events(turns: Seq<XsAsyncTurn>, key: u128) -> Seq<Seq<char>>
    decreases turns.len(),
{
    if turns.len() == 0 {
        seq![]
    } else {
        let earlier = events(turns.drop_last(), key);
        match turns.last().input {
            Some(XsAsyncInput::Response(response)) if response.msg_type
                == XsMessageType::WatchEvent => match event_of(response@.payload) {
                Ok((to, text)) if to == key => earlier.push(text),
                _ => earlier,
            },
            _ => earlier,
        }
    }
}

/// An event is made of this path and the token of this watch.
pub open spec fn is_event(turn: XsAsyncTurn, path: Seq<char>, token: XsWatchToken) -> bool {
    &&& turn.input matches Some(XsAsyncInput::Response(response))
    &&& response.msg_type == XsMessageType::WatchEvent
    &&& response.payload@ == encode_utf8(path) + seq![0u8] + encode_utf8(uuid_text(token@))
        + seq![0u8]
    &&& nul_free(path)
}

/// Those of a sequence of paths that go with this watch, in their order.
pub open spec fn paths_of(made: Seq<(Seq<char>, XsWatchToken)>, key: u128) -> Seq<Seq<char>>
    decreases made.len(),
{
    if made.len() == 0 {
        seq![]
    } else {
        let earlier = paths_of(made.drop_last(), key);
        if made.last().1@ == key {
            earlier.push(made.last().0)
        } else {
            earlier
        }
    }
}

/// A turn is what the calls make of it: an input is processed, then the command that is
/// to be sent is entered or given up, or the subscriber that is to be notified is kept or
/// dropped.
pub proof fn law_calls_make_a_turn(
    run: &mut XsAsyncState,
    input: Option<XsAsyncInput>,
    result: Result<XsAsyncAction, XsAsyncError>,
    entry: &mut XsAsyncState,
    given_up: Option<XsAsyncTask>,
    use_of_channel: &mut XsAsyncState,
    channel: Option<&mut mpsc::Sender<Box<str>>>,
    notice: &mut XsAsyncState,
    noticed: (),
    done: bool,
)
    requires
        old(run).wf(),
        call_ensures(XsAsyncState::run, (run, input), result),
        result matches Ok(XsAsyncAction::Send { pending, .. }) ==> {
            &&& *old(entry) == *final(run)
            &&& call_ensures(XsAsyncState::command_sent, (entry, pending, done), given_up)
        },
        result matches Ok(XsAsyncAction::Notify { token, .. }) ==> {
            &&& *old(use_of_channel) == *final(run)
            &&& call_ensures(XsAsyncState::subscriber_channel, (use_of_channel, token), channel)
            &&& *old(notice) == *final(use_of_channel)
            &&& call_ensures(XsAsyncState::subscriber_notified, (notice, token, done), noticed)
        },
    ensures
        ({
            let turn = XsAsyncTurn { input, result, done };
            match result {
                Ok(XsAsyncAction::Send { .. }) => turn.leads(old(run)@, final(entry)@),
                Ok(XsAsyncAction::Notify { .. }) => turn.leads(old(run)@, final(notice)@),
                _ => turn.leads(old(run)@, final(run)@),
            }
        }),
{
    if let Ok(XsAsyncAction::Notify { token, .. }) = result {
        let before = old(run)@;
        let decided = before.taken_in(input);
        assert(decided.subscribers.contains_key(token@));
        if done {
            let sender = *final(channel->0);
            assert(final(notice)@ == decided.with_channel(token, sender));
        } else {
            assert(final(notice)@ =~= decided.without_subscriber(token));
        }
    }
}

/// The beginning of a run is a run.
proof fn lemma_beginning_of_run(states: Seq<XsAsyncStateView>, turns: Seq<XsAsyncTurn>)
    requires
        is_run(states, turns),
        turns.len() > 0,
    ensures
        is_run(states.drop_last(), turns.drop_last()),
        is_driven(states, turns) ==> is_driven(states.drop_last(), turns.drop_last()),
{
    let (fewer_states, fewer_turns) = (states.drop_last(), turns.drop_last());
    assert forall|i: int| 0 <= i < fewer_turns.len() implies (#[trigger] fewer_turns[i]).leads(
        fewer_states[i],
        fewer_states[i + 1],
    ) by {
        assert(turns[i].leads(states[i], states[i + 1]));
    }
    if is_driven(states, turns) {
        assert forall|i: int|
            0 <= i < fewer_turns.len() && (#[trigger] fewer_turns[i]).takes_operation() implies
            fewer_states[i].task_count() < MAX_REQUEST_COUNT by {
            assert(turns[i].takes_operation());
        }
    }
}

/// There are as many slots in each state of a run.
proof fn lemma_slots_stay(states: Seq<XsAsyncStateView>, turns: Seq<XsAsyncTurn>, k: int)
    requires
        is_run(states, turns),
        0 <= k < states.len(),
    ensures
        states[k].slots.len() == MAX_REQUEST_COUNT,
    decreases k,
{
    if k > 0 {
        lemma_slots_stay(states, turns, k - 1);
        assert(turns[k - 1].leads(states[k - 1], states[k]));
    }
}

/// The command of a turn carries the number of the first free slot.
proof fn lemma_command_has_slot_number(before: XsAsyncStateView, turn: XsAsyncTurn)
    requires
        before.slots.len() == MAX_REQUEST_COUNT,
        before.ran(turn.input, turn.result),
        turn.sends(),
    ensures
        turn.takes_operation(),
        turn.command().request_id == turn.result->Ok_0->pending.slot,
        before.first_free(turn.command().request_id as int),
        turn.command().request_id < MAX_REQUEST_COUNT,
{
    let message = turn.input->0->Message_0;
    let pending = turn.result->Ok_0->pending;
    assert(before.decided_by_chance(message, Ok((turn.command(), pending))));
}

/// The task of a command stays in its slot until the command is answered.
proof fn lemma_task_stays(
    states: Seq<XsAsyncStateView>,
    turns: Seq<XsAsyncTurn>,
    i: int,
    end: int,
)
    requires
        is_run(states, turns),
        0 <= i < end <= turns.len(),
        is_unanswered(turns, i, end),
    ensures
        turns[i].command().request_id < MAX_REQUEST_COUNT,
        states[end].slots[turns[i].command().request_id as int] == Some(turns[i].task()),
    decreases end,
{
    let n = turns[i].command().request_id;
    lemma_slots_stay(states, turns, i);
    lemma_slots_stay(states, turns, end - 1);
    assert(turns[i].leads(states[i], states[i + 1]));
    lemma_command_has_slot_number(states[i], turns[i]);
    if end > i + 1 {
        lemma_task_stays(states, turns, i, end - 1);
        let turn = turns[end - 1];
        assert(turn.leads(states[end - 1], states[end]));
        assert(!turn.answers(n));
        if turn.sends() {
            lemma_command_has_slot_number(states[end - 1], turn);
        }
    }
}

/// While a command has not been answered, no other goes out with its request
/// identifier, and every request identifier is the number of a slot.
pub proof fn law_unanswered_commands_differ(
    states: Seq<XsAsyncStateView>,
    turns: Seq<XsAsyncTurn>,
    i: int,
    j: int,
)
    requires
        is_run(states, turns),
        0 <= i < j < turns.len(),
        is_unanswered(turns, i, j),
        turns[j].sends(),
    ensures
        turns[i].command().request_id != turns[j].command().request_id,
        turns[i].command().request_id < MAX_REQUEST_COUNT,
        turns[j].command().request_id < MAX_REQUEST_COUNT,
{
    lemma_task_stays(states, turns, i, j);
    lemma_slots_stay(states, turns, j);
    assert(turns[j].leads(states[j], states[j + 1]));
    lemma_command_has_slot_number(states[j], turns[j]);
}

/// A client gets the answer to its own request: the first message from the daemon
/// that answers the command of that request is handed to that client, be it an error
/// or not, and nothing else comes of it.
pub proof fn law_client_gets_its_answer(
    states: Seq<XsAsyncStateView>,
    turns: Seq<XsAsyncTurn>,
    requested: int,
    answered: int,
    request: XsAsyncRequest,
    response: XsMessage,
)
    requires
        is_run(states, turns),
        0 <= requested < answered < turns.len(),
        turns[requested].input == Some(
            XsAsyncInput::Message(XsAsyncMessage::Request(request)),
        ),
        is_unanswered(turns, requested, answered),
        turns[answered].input == Some(XsAsyncInput::Response(response)),
        turns[answered].answers(turns[requested].command().request_id),
    ensures
        states[answered].answer(response) == (
            (XsAsyncReply::Respond { sender: request.response_sender, response }),
            Ok::<Option<XsAsyncNote>, XsAsyncError>(None),
        ),
        (XsAsyncReply::Respond { sender: request.response_sender, response }).sent(),
        exists|sent: Result<(), XsMessage>|
            call_ensures(
                oneshot::Sender::<XsMessage>::send,
                (request.response_sender, response),
                sent,
            ),
        turns[answered].result matches Ok(XsAsyncAction::Nothing),
        states[answered + 1].subscribers == states[answered].subscribers,
{
    assert(turns[requested].leads(states[requested], states[requested + 1]));
    assert(states[requested].decided_by_chance(
        XsAsyncMessage::Request(request),
        Ok((turns[requested].command(), turns[requested].result->Ok_0->pending)),
    ));
    lemma_task_stays(states, turns, requested, answered);
    lemma_slots_stay(states, turns, answered);
    assert(turns[answered].leads(states[answered], states[answered + 1]));
}

/// A subscriber is told how its own subscription ended: the first message from the
/// daemon that answers the command of that subscription brings it the token of its
/// watch, or an error if it does not confirm the watch.
pub proof fn law_subscriber_gets_its_result(
    states: Seq<XsAsyncStateView>,
    turns: Seq<XsAsyncTurn>,
    subscribed: int,
    answered: int,
    path: Box<str>,
    event_sender: mpsc::Sender<Box<str>>,
    result_channel: oneshot::Sender<Result<XsWatchToken, XsError>>,
    token: XsWatchToken,
    response: XsMessage,
)
    requires
        is_run(states, turns),
        0 <= subscribed < answered < turns.len(),
        turns[subscribed].input == Some(
            XsAsyncInput::Message(
                (XsAsyncMessage::WatchSubscribe { path, event_sender, result_channel }),
            ),
        ),
        is_unanswered(turns, subscribed, answered),
        turns[subscribed].task() matches XsAsyncTask::WatchSubscribe { token: t, .. } && t == token,
        turns[answered].input == Some(XsAsyncInput::Response(response)),
        turns[answered].answers(turns[subscribed].command().request_id),
    ensures
        ({
            let result = match response.msg_type {
                XsMessageType::Watch => Ok(token),
                XsMessageType::Error => Err(XsError::Refused(response)),
                other => Err(XsError::UnexpectedResponse(other)),
            };
            let reply = XsAsyncReply::Conclude { result_channel, result };
            &&& states[answered].answer(response).0 == reply
            &&& reply.sent()
        }),
        response.msg_type == XsMessageType::Watch ==> exists|
            sent: Result<(), Result<XsWatchToken, XsError>>,
        |
            call_ensures(
                oneshot::Sender::<Result<XsWatchToken, XsError>>::send,
                (result_channel, Ok(token)),
                sent,
            ),
        response.msg_type == XsMessageType::Error ==> exists|
            sent: Result<(), Result<XsWatchToken, XsError>>,
        |
            call_ensures(
                oneshot::Sender::<Result<XsWatchToken, XsError>>::send,
                (result_channel, Err(XsError::Refused(response))),
                sent,
            ),
        response.msg_type != XsMessageType::Watch && response.msg_type != XsMessageType::Error
            ==> exists|sent: Result<(), Result<XsWatchToken, XsError>>|
            call_ensures(
                oneshot::Sender::<Result<XsWatchToken, XsError>>::send,
                (result_channel, Err(XsError::UnexpectedResponse(response.msg_type))),
                sent,
            ),
        response.msg_type == XsMessageType::Watch ==> {
            &&& states[answered + 1].subscribers.contains_key(token@)
            &&& states[answered + 1].subscribers[token@].path == path
            &&& states[answered + 1].subscribers[token@].channel == event_sender
        },
        response.msg_type != XsMessageType::Watch ==> states[answered + 1].subscribers
            == states[answered].subscribers,
{
    assert(turns[subscribed].leads(states[subscribed], states[subscribed + 1]));
    assert(states[subscribed].decided_by_chance(
        turns[subscribed].input->0->Message_0,
        Ok((turns[subscribed].command(), turns[subscribed].result->Ok_0->pending)),
    ));
    lemma_task_stays(states, turns, subscribed, answered);
    lemma_slots_stay(states, turns, answered);
    assert(turns[answered].leads(states[answered], states[answered + 1]));
}

/// A watch that was ended is forgotten: when the command to end it was sent, and the
/// first message from the daemon that answers that command confirms it, then no
/// subscriber is registered under its token any more. Anything else keeps it.
pub proof fn law_confirmed_unwatch_forgets_the_watch(
    states: Seq<XsAsyncStateView>,
    turns: Seq<XsAsyncTurn>,
    ended: int,
    answered: int,
    token: XsWatchToken,
    response: XsMessage,
)
    requires
        is_run(states, turns),
        0 <= ended < answered < turns.len(),
        turns[ended].input == Some(
            XsAsyncInput::Message(XsAsyncMessage::WatchUnsubscribe(token)),
        ),
        is_unanswered(turns, ended, answered),
        turns[answered].input == Some(XsAsyncInput::Response(response)),
        turns[answered].answers(turns[ended].command().request_id),
    ensures
        response.msg_type == XsMessageType::Unwatch ==> {
            &&& !states[answered + 1].subscribers.contains_key(token@)
            &&& states[answered].subscribers.contains_key(token@) ==> (
            turns[answered].result matches Ok(XsAsyncAction::Nothing))
        },
        response.msg_type != XsMessageType::Unwatch ==> states[answered + 1].subscribers
            == states[answered].subscribers,
        forall|other: u128|
            other != token@ ==> #[trigger] states[answered + 1].subscribers.contains_key(other)
                == states[answered].subscribers.contains_key(other),
{
    assert(turns[ended].leads(states[ended], states[ended + 1]));
    assert(states[ended].decided_by_chance(
        XsAsyncMessage::WatchUnsubscribe(token),
        Ok((turns[ended].command(), turns[ended].result->Ok_0->pending)),
    ));
    lemma_task_stays(states, turns, ended, answered);
    lemma_slots_stay(states, turns, answered);
    assert(turns[answered].leads(states[answered], states[answered + 1]));
}

/// An operation that is given up leaves no trace: one that is turned down comes back
/// as it was, and neither that nor a command that could not be sent changes the state.
pub proof fn law_given_up_operation_leaves_no_trace(
    states: Seq<XsAsyncStateView>,
    turns: Seq<XsAsyncTurn>,
    i: int,
    message: XsAsyncMessage,
)
    requires
        is_run(states, turns),
        0 <= i < turns.len(),
        turns[i].input == Some(XsAsyncInput::Message(message)),
        !turns[i].sent(),
    ensures
        states[i + 1] == states[i],
        !turns[i].sends() ==> (turns[i].result matches Ok(XsAsyncAction::Refuse(refused))
            && refused.message == message),
{
    assert(turns[i].leads(states[i], states[i + 1]));
}

/// At no time are there more unanswered commands than slots.
pub proof fn law_unanswered_commands_are_limited(
    states: Seq<XsAsyncStateView>,
    turns: Seq<XsAsyncTurn>,
)
    requires
        is_run(states, turns),
    ensures
        unanswered(turns).finite(),
        unanswered(turns).len() <= MAX_REQUEST_COUNT,
{
    let end = turns.len() as int;
    let waiting = unanswered(turns);
    let number = |i: int| turns[i].command().request_id as int;
    lemma_int_range(0, end);
    lemma_len_subset(waiting, set_int_range(0, end));
    assert forall|i: int, j: int|
        #![trigger number(i), number(j)]
        waiting.contains(i) && waiting.contains(j) && number(i) == number(j) implies i == j by {
        if i < j {
            assert(is_unanswered(turns, i, j));
            law_unanswered_commands_differ(states, turns, i, j);
        } else if j < i {
            assert(is_unanswered(turns, j, i));
            law_unanswered_commands_differ(states, turns, j, i);
        }
    }
    let numbers = waiting.map(number);
    lemma_map_size(waiting, numbers, number);
    assert forall|n: int| numbers.contains(n) implies set_int_range(
        0,
        MAX_REQUEST_COUNT as int,
    ).contains(n) by {
        let i = choose|i: int| waiting.contains(i) && n == number(i);
        lemma_task_stays(states, turns, i, end);
    }
    lemma_int_range(0, MAX_REQUEST_COUNT as int);
    lemma_len_subset(numbers, set_int_range(0, MAX_REQUEST_COUNT as int));
}

/// As long as operations are taken on only while there are less tasks than slots, none
/// is ever turned down for want of a slot.
pub proof fn law_taken_operation_finds_a_slot(
    states: Seq<XsAsyncStateView>,
    turns: Seq<XsAsyncTurn>,
    i: int,
)
    requires
        is_driven(states, turns),
        0 <= i < turns.len(),
        turns[i].takes_operation(),
    ensures
        turns[i].result matches Ok(XsAsyncAction::Refuse(refused)) ==> refused.error
            != XsAsyncError::NoAvailableSlot,
{
    lemma_slots_stay(states, turns, i);
    lemma_occupied_bound(states[i].slots);
    assert(turns[i].leads(states[i], states[i + 1]));
}

/// Commands go out in the order of the operations, one for each request, each
/// subscription and each end of a registered watch, and no others.
pub proof fn law_commands_keep_the_order(states: Seq<XsAsyncStateView>, turns: Seq<XsAsyncTurn>)
    requires
        is_driven(states, turns),
    ensures
        commands(turns).len() == operations(states, turns).len(),
        forall|k: int|
            0 <= k < commands(turns).len() ==> is_command_for(
                operations(states, turns)[k].0,
                operations(states, turns)[k].1,
                #[trigger] commands(turns)[k],
            ),
    decreases turns.len(),
{
    if turns.len() > 0 {
        lemma_beginning_of_run(states, turns);
        law_commands_keep_the_order(states.drop_last(), turns.drop_last());
        let state = states[turns.len() - 1];
        let turn = turns.last();
        lemma_slots_stay(states, turns, turns.len() - 1);
        lemma_occupied_bound(state.slots);
        assert(turns[turns.len() - 1].leads(state, states[turns.len() as int]));
        if let Some(XsAsyncInput::Message(message)) = turn.input {
            assert(!state.full());
            if let Ok(XsAsyncAction::Send { command, pending }) = turn.result {
                assert(state.decided_by_chance(message, Ok((command, pending))));
                let token = choose|token: XsWatchToken|
                    {
                        &&& #[trigger] state.decided(message, token, Ok((command, pending)))
                        &&& message is WatchSubscribe ==> state.suitable(token)
                    };
                assert(command@ == state.command(message, token, pending.slot as int));
                assert(is_command_for(state, message, command));
            }
        }
    }
}

/// As long as a watch is registered, its subscriber is told what the events of that
/// watch say, in the order of the events, and nothing else.
pub proof fn law_subscriber_is_told_its_events(
    states: Seq<XsAsyncStateView>,
    turns: Seq<XsAsyncTurn>,
    key: u128,
)
    requires
        is_run(states, turns),
        forall|i: int|
            0 <= i < turns.len() ==> (#[trigger] states[i]).subscribers.contains_key(key),
    ensures
        told(turns, key) == events(turns, key),
    decreases turns.len(),
{
    if turns.len() > 0 {
        let fewer_states = states.drop_last();
        lemma_beginning_of_run(states, turns);
        assert forall|i: int| 0 <= i < turns.len() - 1 implies (
        #[trigger] fewer_states[i]).subscribers.contains_key(key) by {
            assert(states[i].subscribers.contains_key(key));
        }
        law_subscriber_is_told_its_events(fewer_states, turns.drop_last(), key);
        assert(turns[turns.len() - 1].leads(states[turns.len() - 1], states[turns.len() as int]));
    }
}

/// Events leave a watch registered whose subscriber can be notified.
proof fn lemma_events_leave_watch_registered(
    states: Seq<XsAsyncStateView>,
    turns: Seq<XsAsyncTurn>,
    made: Seq<(Seq<char>, XsWatchToken)>,
    key: u128,
    k: int,
)
    requires
        is_run(states, turns),
        made.len() == turns.len(),
        forall|i: int|
            0 <= i < turns.len() ==> is_event(#[trigger] turns[i], made[i].0, made[i].1)
                && turns[i].done,
        states[0].subscribers.contains_key(key),
        0 <= k <= turns.len(),
    ensures
        states[k].subscribers.contains_key(key),
    decreases k,
{
    if k > 0 {
        lemma_events_leave_watch_registered(states, turns, made, key, k - 1);
        assert(turns[k - 1].leads(states[k - 1], states[k]));
        assert(is_event(turns[k - 1], made[k - 1].0, made[k - 1].1));
    }
}

/// What events say of a watch are the paths that they were made of.
proof fn lemma_events_say_their_paths(
    turns: Seq<XsAsyncTurn>,
    made: Seq<(Seq<char>, XsWatchToken)>,
    key: u128,
)
    requires
        made.len() == turns.len(),
        forall|i: int|
            0 <= i < turns.len() ==> is_event(#[trigger] turns[i], made[i].0, made[i].1),
    ensures
        events(turns, key) == paths_of(made, key),
    decreases turns.len(),
{
    if turns.len() > 0 {
        let (fewer, fewer_made) = (turns.drop_last(), made.drop_last());
        assert forall|i: int| 0 <= i < fewer.len() implies is_event(
            #[trigger] fewer[i],
            fewer_made[i].0,
            fewer_made[i].1,
        ) by {
            assert(is_event(turns[i], made[i].0, made[i].1));
        }
        lemma_events_say_their_paths(fewer, fewer_made, key);
        assert(is_event(turns[turns.len() - 1], made.last().0, made.last().1));
        lemma_event_is_for_its_watch(made.last().0, made.last().1);
        lemma_joined_pair(made.last().0, uuid_text(made.last().1@));
    }
}

/// Watches do not mix: when events come in that are made of paths and tokens, and
/// subscribers can be notified, the subscriber of a registered watch is told exactly
/// the paths that came with its token, in their order.
pub proof fn law_watches_do_not_mix(
    states: Seq<XsAsyncStateView>,
    turns: Seq<XsAsyncTurn>,
    made: Seq<(Seq<char>, XsWatchToken)>,
    key: u128,
)
    requires
        is_run(states, turns),
        made.len() == turns.len(),
        forall|i: int|
            0 <= i < turns.len() ==> is_event(#[trigger] turns[i], made[i].0, made[i].1)
                && turns[i].done,
        states[0].subscribers.contains_key(key),
    ensures
        told(turns, key) == paths_of(made, key),
        states.last().subscribers.contains_key(key),
{
    assert forall|i: int| 0 <= i < turns.len() implies (
    #[trigger] states[i]).subscribers.contains_key(key) by {
        lemma_events_leave_watch_registered(states, turns, made, key, i);
    }
    lemma_events_leave_watch_registered(states, turns, made, key, turns.len() as int);
    law_subscriber_is_told_its_events(states, turns, key);
    lemma_events_say_their_paths(turns, made, key);
}

/// A watch stays registered with its path while no turn touches it.
proof fn lemma_untouched_watch_keeps_path(
    states: Seq<XsAsyncStateView>,
    turns: Seq<XsAsyncTurn>,
    key: u128,
    start: int,
    end: int,
)
    requires
        is_run(states, turns),
        0 <= start <= end <= turns.len(),
        states[start].subscribers.contains_key(key),
        forall|m: int| start <= m < end ==> !(#[trigger] turns[m]).touches(states[m], key),
    ensures
        states[end].subscribers.contains_key(key),
        states[end].subscribers[key].path == states[start].subscribers[key].path,
    decreases end,
{
    if end > start {
        lemma_untouched_watch_keeps_path(states, turns, key, start, end - 1);
        let turn = turns[end - 1];
        assert(turn.leads(states[end - 1], states[end]));
        assert(!turn.touches(states[end - 1], key));
    }
}

/// The command that ends a watch repeats the path and the token of the command that
/// registered it, whatever happens to other watches and requests in between, and
/// however often ending it has been refused: when a subscription was sent, its answer
/// confirmed it, and no later turn touched that watch, then ending it is turned down
/// only for want of a slot.
pub proof fn law_unwatch_repeats_the_watch(
    states: Seq<XsAsyncStateView>,
    turns: Seq<XsAsyncTurn>,
    subscribed: int,
    confirmed: int,
    ended: int,
    path: Box<str>,
    event_sender: mpsc::Sender<Box<str>>,
    result_channel: oneshot::Sender<Result<XsWatchToken, XsError>>,
    token: XsWatchToken,
)
    requires
        is_run(states, turns),
        0 <= subscribed < confirmed < ended < turns.len(),
        turns[subscribed].input == Some(
            XsAsyncInput::Message(
                (XsAsyncMessage::WatchSubscribe { path, event_sender, result_channel }),
            ),
        ),
        is_unanswered(turns, subscribed, confirmed),
        turns[subscribed].task() matches XsAsyncTask::WatchSubscribe { token: t, .. } && t == token,
        turns[confirmed].answers(turns[subscribed].command().request_id),
        turns[confirmed].input->0->Response_0.msg_type == XsMessageType::Watch,
        forall|m: int|
            confirmed < m < ended ==> !(#[trigger] turns[m]).touches(states[m], token@),
        turns[ended].input == Some(
            XsAsyncInput::Message(XsAsyncMessage::WatchUnsubscribe(token)),
        ),
    ensures
        turns[ended].sends() <==> !states[ended].full(),
        turns[ended].sends() ==> {
            &&& turns[subscribed].command()@.msg_type == XsMessageType::Watch
            &&& turns[ended].command()@.msg_type == XsMessageType::Unwatch
            &&& turns[ended].command()@.payload == turns[subscribed].command()@.payload
            &&& turns[ended].command().payload@ == encode_utf8(path@) + seq![0u8] + encode_utf8(
                uuid_text(token@),
            ) + seq![0u8]
        },
{
    let subscription = turns[subscribed];
    let end = turns[ended];
    lemma_joined_pair(path@, uuid_text(token@));
    assert(subscription.leads(states[subscribed], states[subscribed + 1]));
    assert(states[subscribed].decided_by_chance(
        subscription.input->0->Message_0,
        Ok((subscription.command(), subscription.result->Ok_0->pending)),
    ));
    lemma_task_stays(states, turns, subscribed, confirmed);
    lemma_slots_stay(states, turns, confirmed);
    assert(turns[confirmed].leads(states[confirmed], states[confirmed + 1]));
    assert(states[confirmed + 1].subscribers.contains_key(token@));
    assert(states[confirmed + 1].subscribers[token@].path == path);
    lemma_untouched_watch_keeps_path(states, turns, token@, confirmed + 1, ended);
    assert(end.leads(states[ended], states[ended + 1]));
    if end.sends() {
        assert(states[ended].decided_by_chance(
            XsAsyncMessage::WatchUnsubscribe(token),
            Ok((end.command(), end.result->Ok_0->pending)),
        ));
    }
}

} // verus!
