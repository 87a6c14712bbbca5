//! The multiplexer: which command goes out for which operation, who gets which
//! answer, and which watches there are.
//!
//! [`XsAsyncState`] decides and never waits. It is handed what came in, and
//! hands back an [`XsAsyncAction`] that says what has to go out.

use crate::error::XsError;
use crate::text::boxed;
use crate::token::{
    is_random_uuid, lemma_numbered_uuid, lemma_text_gives_back_token, lemma_text_is_nul_free,
    numbered_uuid, token_of, uuid_text, XsWatchToken,
};
use crate::wire::{
    joined, lemma_payload_gives_back_texts, nul_free, payload_texts, texts_of, XsMessage,
    XsMessageType, XsMessageView,
};
use futures::channel::{mpsc, oneshot};
use std::collections::hash_map::Entry;
use std::collections::HashMap;
use vstd::prelude::*;

verus! {

broadcast use vstd::std_specs::hash::group_hash_axioms;

/// Maximum number of pending requests.
pub const MAX_REQUEST_COUNT: usize = 32;

/// The sending half of a one-shot channel. Values of it are only passed on.
#[verifier::external_type_specification]
#[verifier::external_body]
#[verifier::reject_recursive_types(T)]
pub struct ExOneshotSender<T>(oneshot::Sender<T>);

/// The sending half of a bounded channel. Values of it are only passed on.
#[verifier::external_type_specification]
#[verifier::external_body]
#[verifier::reject_recursive_types(T)]
pub struct ExMpscSender<T>(mpsc::Sender<T>);

/// `futures::channel::oneshot::Sender::send` hands the value back when nobody is
/// left to receive it. Whether that is so depends on the other side.
pub assume_specification<T>[ oneshot::Sender::<T>::send ](
    sender: oneshot::Sender<T>,
    t: T,
) -> (r: Result<(), T>)
    ensures
        r matches Err(v) ==> v == t,
;

/// A request to the daemon, and where its answer goes.
pub struct XsAsyncRequest {
    pub request: XsMessage,
    pub response_sender: oneshot::Sender<XsMessage>,
}

/// An operation that a client asks for.
pub enum XsAsyncMessage {
    /// Send a request and hand its answer back.
    Request(XsAsyncRequest),
    /// Watch a path.
    WatchSubscribe {
        path: Box<str>,
        event_sender: mpsc::Sender<Box<str>>,
        result_channel: oneshot::Sender<Result<XsWatchToken, XsError>>,
    },
    /// Stop a watch.
    WatchUnsubscribe(XsWatchToken),
}

/// What is to be done once the answer to a command is there.
pub enum XsAsyncTask {
    /// Forward the answer.
    Request(oneshot::Sender<XsMessage>),
    /// Register the subscriber and tell it the token.
    WatchSubscribe {
        subscriber_info: WatchSubscriberInfo,
        result_channel: oneshot::Sender<Result<XsWatchToken, XsError>>,
        token: XsWatchToken,
    },
    /// Forget the subscriber.
    WatchUnsubscribe(XsWatchToken),
}

/// A subscriber of a watch.
pub struct WatchSubscriberInfo {
    pub channel: mpsc::Sender<Box<str>>,
    /// The watched path, which the command to remove the watch has to repeat.
    pub path: Box<str>,
}

/// Why a message from the daemon or an operation could not be processed.
#[derive(Clone, Copy, Debug, PartialEq, Eq, Structural)]
pub enum XsAsyncError {
    /// All slots are taken.
    NoAvailableSlot,
    /// The watch to remove is not registered.
    UnwatchWithoutWatch,
    /// The answer's request identifier is not one of a slot.
    InvalidRequestId,
    /// The answer's request identifier is one of a free slot.
    NoRelatedRequest,
    /// The answer to a watch or unwatch command is of a type that does not fit.
    InvalidWatchResponse,
    /// The daemon refused to remove a watch.
    UnwatchFailure,
    /// The payload of a watch event is not text.
    InvalidText,
    /// The payload of a watch event does not hold a path and a token.
    InvalidWatchEvent,
    /// The token of a watch event is not the text of a UUID.
    NonUuidToken,
}

impl XsAsyncError {
    /// A sentence for each error.
    pub open spec fn spec_message(self) -> &'static str {
        match self {
            XsAsyncError::NoAvailableSlot => "No available slot",
            XsAsyncError::UnwatchWithoutWatch => "Attempting unwatch without watch.",
            XsAsyncError::InvalidRequestId => "Invalid req_id received",
            XsAsyncError::NoRelatedRequest => "No related request to this req_id",
            XsAsyncError::InvalidWatchResponse => "Got invalid response to WATCH command",
            XsAsyncError::UnwatchFailure => "Unwatch failure",
            XsAsyncError::InvalidText => "Payload is not valid text",
            XsAsyncError::InvalidWatchEvent => "Invalid watch event payload received",
            XsAsyncError::NonUuidToken => "Got non-UUID token",
        }
    }

    /// A sentence that says what went wrong.
    pub fn message(&self) -> (text: &'static str)
        ensures
            text@ == self.spec_message()@,
    {
        match self {
            XsAsyncError::NoAvailableSlot => "No available slot",
            XsAsyncError::UnwatchWithoutWatch => "Attempting unwatch without watch.",
            XsAsyncError::InvalidRequestId => "Invalid req_id received",
            XsAsyncError::NoRelatedRequest => "No related request to this req_id",
            XsAsyncError::InvalidWatchResponse => "Got invalid response to WATCH command",
            XsAsyncError::UnwatchFailure => "Unwatch failure",
            XsAsyncError::InvalidText => "Payload is not valid text",
            XsAsyncError::InvalidWatchEvent => "Invalid watch event payload received",
            XsAsyncError::NonUuidToken => "Got non-UUID token",
        }
    }
}

/// A task that takes its slot once its command has been sent.
pub struct XsAsyncPending {
    pub slot: usize,
    pub task: XsAsyncTask,
}

/// An operation that is turned down. It is handed back with its channels, over which
/// nothing has been sent.
pub struct XsAsyncRefusal {
    pub error: XsAsyncError,
    pub message: XsAsyncMessage,
}

/// Something that came in.
pub enum XsAsyncInput {
    /// A message from the daemon.
    Response(XsMessage),
    /// An operation from a client.
    Message(XsAsyncMessage),
}

/// Something odd that an input has brought to light, which is no failure.
#[derive(Clone, Copy, Debug, PartialEq, Eq, Structural)]
pub enum XsAsyncNote {
    /// The token of a new watch was already that of a registered one.
    OverriddenSubscriber(XsWatchToken),
    /// A watch that was removed was not registered any more.
    UnwatchedNothing(XsWatchToken),
    /// A watch event is for a watch that is not registered.
    UnregisteredWatch(XsWatchToken),
}

/// What has to be done before the next input can be processed.
pub enum XsAsyncAction {
    /// Nothing.
    Nothing,
    /// Nothing, but something is worth noting.
    Note(XsAsyncNote),
    /// Stop: the other side of a channel is gone.
    Stop,
    /// Send a command to the daemon. If that succeeds, enter the task.
    Send { command: XsMessage, pending: XsAsyncPending },
    /// Give an operation up. Its client sees that once its channels are dropped.
    Refuse(XsAsyncRefusal),
    /// Send a changed path to the subscriber of a watch. If that fails, drop it.
    Notify { token: XsWatchToken, value: Box<str> },
}

/// An answer to a client, and the channel over which it goes.
pub enum XsAsyncReply {
    /// No client is waiting for one.
    Nothing,
    /// The daemon's answer to a request.
    Respond { sender: oneshot::Sender<XsMessage>, response: XsMessage },
    /// How a subscription ended.
    Conclude {
        result_channel: oneshot::Sender<Result<XsWatchToken, XsError>>,
        result: Result<XsWatchToken, XsError>,
    },
}

impl XsAsyncReply {
    /// Handing the answer to its channel has this as a possible outcome, which is
    /// known only once that was done. The channel is used up then, so that it is done
    /// once. Whether somebody is left to receive the answer is the other side's
    /// business. Which answer that is stands exactly in the contract of
    /// [`XsAsyncState::settle`].
    pub open spec fn sent(self) -> bool {
        match self {
            XsAsyncReply::Nothing => true,
            XsAsyncReply::Respond { sender, response } => exists|r: Result<(), XsMessage>|
                call_ensures(oneshot::Sender::<XsMessage>::send, (sender, response), r),
            XsAsyncReply::Conclude { result_channel, result } => exists|
                r: Result<(), Result<XsWatchToken, XsError>>,
            |
                call_ensures(
                    oneshot::Sender::<Result<XsWatchToken, XsError>>::send,
                    (result_channel, result),
                    r,
                ),
        }
    }

    /// Hands the answer to its channel.
    fn send(self)
        ensures
            self.sent(),
    {
        match self {
            XsAsyncReply::Nothing => {},
            XsAsyncReply::Respond { sender, response } => {
                let _ = sender.send(response);
            },
            XsAsyncReply::Conclude { result_channel, result } => {
                let _ = result_channel.send(result);
            },
        }
    }
}

/// How many slots are taken.
pub open spec fn occupied(slots: Seq<Option<XsAsyncTask>>) -> nat
    decreases slots.len(),
{
    if slots.len() == 0 {
        0
    } else {
        occupied(slots.drop_last()) + if slots.last() is Some {
            1nat
        } else {
            0nat
        }
    }
}

/// Mathematical content of an [`XsAsyncState`].
#[verifier::ext_equal]
pub struct XsAsyncStateView {
    /// The tasks that wait for an answer, by the request identifier.
    pub slots: Seq<Option<XsAsyncTask>>,
    /// The subscribers of the registered watches, by the token.
    pub subscribers: Map<u128, WatchSubscriberInfo>,
}

/// The payload of a command about a watch, and of an event of it: a path and the
/// token's text.
pub open spec fn watch_payload(path: Seq<char>, token: XsWatchToken) -> Seq<u8> {
    joined(seq![path, uuid_text(token@)])
}

/// The command that registers or removes a watch.
pub open spec fn watch_command(
    msg_type: XsMessageType,
    slot: int,
    path: Seq<char>,
    token: XsWatchToken,
) -> XsMessageView {
    XsMessageView {
        msg_type,
        request_id: slot as u32,
        transaction_id: 0,
        payload: watch_payload(path, token),
    }
}

/// The task that an operation leaves behind. A new watch gets `token`.
pub open spec fn task_of(message: XsAsyncMessage, token: XsWatchToken) -> XsAsyncTask {
    match message {
        XsAsyncMessage::Request(request) => XsAsyncTask::Request(request.response_sender),
        XsAsyncMessage::WatchSubscribe { path, event_sender, result_channel } =>
            XsAsyncTask::WatchSubscribe {
                subscriber_info: WatchSubscriberInfo { channel: event_sender, path },
                result_channel,
                token,
            },
        XsAsyncMessage::WatchUnsubscribe(old) => XsAsyncTask::WatchUnsubscribe(old),
    }
}

/// Which watch an event is for, and what its subscriber is told.
pub open spec fn event_of(payload: Seq<u8>) -> Result<(u128, Seq<char>), XsAsyncError> {
    match payload_texts(payload) {
        None => Err(XsAsyncError::InvalidText),
        Some(texts) => if texts.len() != 2 {
            Err(XsAsyncError::InvalidWatchEvent)
        } else {
            match token_of(texts[1]) {
                None => Err(XsAsyncError::NonUuidToken),
                Some(token) => Ok((token, texts[0])),
            }
        },
    }
}

impl XsAsyncStateView {
    /// How many tasks wait for an answer.
    pub open spec fn task_count(self) -> nat {
        occupied(self.slots)
    }

    /// No slot is free.
    pub open spec fn full(self) -> bool {
        forall|i: int| 0 <= i < self.slots.len() ==> #[trigger] self.slots[i] is Some
    }

    /// This slot is free, and no slot before it is.
    pub open spec fn first_free(self, slot: int) -> bool {
        &&& 0 <= slot < self.slots.len()
        &&& self.slots[slot] is None
        &&& forall|i: int| 0 <= i < slot ==> #[trigger] self.slots[i] is Some
    }

    /// Why an operation is turned down, if it is.
    pub open spec fn refusal(self, message: XsAsyncMessage) -> Option<XsAsyncError> {
        if self.full() {
            Some(XsAsyncError::NoAvailableSlot)
        } else {
            match message {
                XsAsyncMessage::WatchUnsubscribe(token) if !self.subscribers.contains_key(token@) =>
                    Some(XsAsyncError::UnwatchWithoutWatch),
                _ => None,
            }
        }
    }

    /// The command that goes out for an operation in a slot. A new watch gets
    /// `token`.
    pub open spec fn command(
        self,
        message: XsAsyncMessage,
        token: XsWatchToken,
        slot: int,
    ) -> XsMessageView {
        match message {
            XsAsyncMessage::Request(request) => XsMessageView {
                request_id: slot as u32,
                ..request.request@
            },
            XsAsyncMessage::WatchSubscribe { path, .. } =>
                watch_command(XsMessageType::Watch, slot, path@, token),
            XsAsyncMessage::WatchUnsubscribe(old) =>
                watch_command(XsMessageType::Unwatch, slot, self.subscribers[old@].path@, old),
        }
    }

    /// This is what is decided on an operation when a new watch gets `token`: why it
    /// is turned down, with the operation as it came, or the command and the task that
    /// it leaves behind in the first free slot.
    pub open spec fn decided(
        self,
        message: XsAsyncMessage,
        token: XsWatchToken,
        r: Result<(XsMessage, XsAsyncPending), XsAsyncRefusal>,
    ) -> bool {
        match r {
            Ok((command, pending)) => {
                &&& self.refusal(message) is None
                &&& self.first_free(pending.slot as int)
                &&& command@ == self.command(message, token, pending.slot as int)
                &&& pending.task == task_of(message, token)
            },
            Err(refused) => {
                &&& self.refusal(message) == Some(refused.error)
                &&& refused.message == message
            },
        }
    }

    /// A new watch can get this token: a random UUID that is not the token of a
    /// registered watch. It comes out of a draw, unless another draw came out as the
    /// token of a registered watch.
    pub open spec fn suitable(self, token: XsWatchToken) -> bool {
        &&& !self.subscribers.contains_key(token@)
        &&& is_random_uuid(token@)
        &&& XsWatchToken::is_drawn(token@) || exists|key: u128| #[trigger]
            self.subscribers.contains_key(key) && XsWatchToken::is_drawn(key)
    }

    /// This can be decided on an operation when a new watch gets a random token.
    pub open spec fn decided_by_chance(
        self,
        message: XsAsyncMessage,
        r: Result<(XsMessage, XsAsyncPending), XsAsyncRefusal>,
    ) -> bool {
        exists|token: XsWatchToken|
            {
                &&& #[trigger] self.decided(message, token, r)
                &&& message is WatchSubscribe && r is Ok ==> self.suitable(token)
            }
    }

    /// A task has taken a slot.
    pub open spec fn with_task(self, slot: int, task: XsAsyncTask) -> Self {
        XsAsyncStateView { slots: self.slots.update(slot, Some(task)), ..self }
    }

    /// The task that waits for a message from the daemon, if one does.
    pub open spec fn task_for(self, response: XsMessage) -> Option<XsAsyncTask> {
        if response.msg_type == XsMessageType::WatchEvent {
            None
        } else if response.request_id < self.slots.len() {
            self.slots[response.request_id as int]
        } else {
            None
        }
    }

    /// The state after a message from the daemon: the task that waited for it has
    /// left its slot, and the watch that it confirms is registered or removed.
    pub open spec fn answered(self, response: XsMessage) -> Self {
        match self.task_for(response) {
            None => self,
            Some(task) => XsAsyncStateView {
                slots: self.slots.update(response.request_id as int, None),
                subscribers: match task {
                    XsAsyncTask::WatchSubscribe { subscriber_info, token, .. }
                        if response.msg_type == XsMessageType::Watch =>
                        self.subscribers.insert(token@, subscriber_info),
                    XsAsyncTask::WatchUnsubscribe(token)
                        if response.msg_type == XsMessageType::Unwatch =>
                        self.subscribers.remove(token@),
                    _ => self.subscribers,
                },
            },
        }
    }

    /// What an answer from the daemon brings about, where it is no watch event:
    /// which client is told what, and what was odd or wrong with the answer.
    pub open spec fn answer(self, response: XsMessage) -> (
        XsAsyncReply,
        Result<Option<XsAsyncNote>, XsAsyncError>,
    ) {
        match self.task_for(response) {
            None => (
                XsAsyncReply::Nothing,
                Err(
                    if response.request_id < self.slots.len() {
                        XsAsyncError::NoRelatedRequest
                    } else {
                        XsAsyncError::InvalidRequestId
                    },
                ),
            ),
            Some(XsAsyncTask::Request(sender)) => (
                XsAsyncReply::Respond { sender, response },
                Ok(None),
            ),
            Some(XsAsyncTask::WatchSubscribe { result_channel, token, .. }) =>
                match response.msg_type {
                    XsMessageType::Watch => (
                        XsAsyncReply::Conclude { result_channel, result: Ok(token) },
                        Ok(
                            if self.subscribers.contains_key(token@) {
                                Some(XsAsyncNote::OverriddenSubscriber(token))
                            } else {
                                None
                            },
                        ),
                    ),
                    XsMessageType::Error => (
                        XsAsyncReply::Conclude {
                            result_channel,
                            result: Err(XsError::Refused(response)),
                        },
                        Ok(None),
                    ),
                    other => (
                        XsAsyncReply::Conclude {
                            result_channel,
                            result: Err(XsError::UnexpectedResponse(other)),
                        },
                        Err(XsAsyncError::InvalidWatchResponse),
                    ),
                },
            Some(XsAsyncTask::WatchUnsubscribe(token)) => (
                XsAsyncReply::Nothing,
                match response.msg_type {
                    XsMessageType::Unwatch => Ok(
                        if self.subscribers.contains_key(token@) {
                            None
                        } else {
                            Some(XsAsyncNote::UnwatchedNothing(token))
                        },
                    ),
                    XsMessageType::Error => Err(XsAsyncError::UnwatchFailure),
                    _ => Err(XsAsyncError::InvalidWatchResponse),
                },
            ),
        }
    }

    /// This is what a message from the daemon brings about: a watch event is for
    /// the subscriber in the result, and any other message is answered to the
    /// client that waits for it.
    pub open spec fn processed(
        self,
        response: XsMessage,
        r: Result<XsAsyncAction, XsAsyncError>,
    ) -> bool {
        if response.msg_type == XsMessageType::WatchEvent {
            self.notifies(response@.payload, r)
        } else {
            let (reply, outcome) = self.answer(response);
            &&& reply.sent()
            &&& match outcome {
                Ok(None) => r matches Ok(XsAsyncAction::Nothing),
                Ok(Some(note)) => r matches Ok(XsAsyncAction::Note(n)) && n == note,
                Err(e) => r matches Err(err) && err == e,
            }
        }
    }

    /// This is whom a watch event is for, and what that subscriber is told. An event
    /// for a watch that is not registered is noted.
    pub open spec fn notifies(
        self,
        payload: Seq<u8>,
        r: Result<XsAsyncAction, XsAsyncError>,
    ) -> bool {
        match event_of(payload) {
            Ok((to, text)) => if self.subscribers.contains_key(to) {
                r matches Ok(XsAsyncAction::Notify { token, value }) && token@ == to && value@
                    == text
            } else {
                r matches Ok(XsAsyncAction::Note(XsAsyncNote::UnregisteredWatch(token))) && token@
                    == to
            },
            Err(e) => r matches Err(err) && err == e,
        }
    }

    /// A watch is no longer registered.
    pub open spec fn without_subscriber(self, token: XsWatchToken) -> Self {
        XsAsyncStateView { subscribers: self.subscribers.remove(token@), ..self }
    }

    /// The subscriber of a watch has this channel, and nothing else is different.
    pub open spec fn with_channel(
        self,
        token: XsWatchToken,
        channel: mpsc::Sender<Box<str>>,
    ) -> Self {
        XsAsyncStateView {
            subscribers: self.subscribers.insert(
                token@,
                WatchSubscriberInfo { channel, path: self.subscribers[token@].path },
            ),
            ..self
        }
    }

    /// The state after an input. Only a message from the daemon changes it.
    pub open spec fn taken_in(self, input: Option<XsAsyncInput>) -> Self {
        match input {
            Some(XsAsyncInput::Response(response)) => self.answered(response),
            _ => self,
        }
    }

    /// This is what an input brings about.
    pub open spec fn ran(
        self,
        input: Option<XsAsyncInput>,
        r: Result<XsAsyncAction, XsAsyncError>,
    ) -> bool {
        match input {
            None => r matches Ok(XsAsyncAction::Stop),
            Some(XsAsyncInput::Response(response)) => self.processed(response, r),
            Some(XsAsyncInput::Message(message)) => match r {
                Ok(XsAsyncAction::Send { command, pending }) => self.decided_by_chance(
                    message,
                    Ok((command, pending)),
                ),
                Ok(XsAsyncAction::Refuse(refused)) => self.decided_by_chance(
                    message,
                    Err(refused),
                ),
                _ => false,
            },
        }
    }
}

/// The operations that are under way, and the watches that are registered.
pub struct XsAsyncState {
    pending_tasks: Vec<Option<XsAsyncTask>>,
    watch_subscribers: HashMap<u128, WatchSubscriberInfo>,
    task_count: usize,
}

impl View for XsAsyncState {
    type V = XsAsyncStateView;

    closed spec fn view(&self) -> XsAsyncStateView {
        XsAsyncStateView { slots: self.pending_tasks@, subscribers: self.watch_subscribers@ }
    }
}

/// Changing one slot changes the number of taken slots accordingly.
proof fn lemma_occupied_update(
    slots: Seq<Option<XsAsyncTask>>,
    slot: int,
    value: Option<XsAsyncTask>,
)
    requires
        0 <= slot < slots.len(),
    ensures
        occupied(slots.update(slot, value)) + (if slots[slot] is Some {
            1nat
        } else {
            0nat
        }) == occupied(slots) + (if value is Some {
            1nat
        } else {
            0nat
        }),
    decreases slots.len(),
{
    let updated = slots.update(slot, value);
    if slot == slots.len() - 1 {
        assert(updated.drop_last() =~= slots.drop_last());
    } else {
        assert(updated.drop_last() =~= slots.drop_last().update(slot, value));
        lemma_occupied_update(slots.drop_last(), slot, value);
    }
}

/// No more slots are taken than there are, and all are exactly when none is free.
pub(crate) proof fn lemma_occupied_bound(slots: Seq<Option<XsAsyncTask>>)
    ensures
        occupied(slots) <= slots.len(),
        occupied(slots) == slots.len() <==> (forall|i: int|
            0 <= i < slots.len() ==> #[trigger] slots[i] is Some),
    decreases slots.len(),
{
    if slots.len() > 0 {
        let rest = slots.drop_last();
        lemma_occupied_bound(rest);
        if occupied(slots) == slots.len() {
            assert forall|i: int| 0 <= i < slots.len() implies #[trigger] slots[i] is Some by {
                if i < rest.len() {
                    assert(rest[i] is Some);
                }
            }
        }
        if forall|i: int| 0 <= i < slots.len() ==> #[trigger] slots[i] is Some {
            assert forall|i: int| 0 <= i < rest.len() implies #[trigger] rest[i] is Some by {
                assert(slots[i] is Some);
            }
        }
    }
}

/// The event of a watch, made of a path and the token's text, is for that watch and
/// tells that path.
pub proof fn lemma_event_is_for_its_watch(path: Seq<char>, token: XsWatchToken)
    requires
        nul_free(path),
    ensures
        event_of(watch_payload(path, token)) == Ok::<(u128, Seq<char>), XsAsyncError>(
            (token@, path),
        ),
{
    let texts = seq![path, uuid_text(token@)];
    lemma_text_is_nul_free(token@);
    assert forall|i: int| 0 <= i < texts.len() implies #[trigger] nul_free(texts[i]) by {
        if i == 0 {
            assert(texts[i] == path);
        } else {
            assert(texts[i] == uuid_text(token@));
        }
    }
    lemma_payload_gives_back_texts(texts);
    lemma_text_gives_back_token(token@);
}

/// A finite map that holds this many numbered UUIDs is at least that large.
proof fn lemma_numbered_uuids_count<V>(map: Map<u128, V>, count: nat)
    requires
        map.dom().finite(),
        count <= u64::MAX + 1,
        forall|n: u128| n < count ==> map.contains_key(#[trigger] numbered_uuid(n)),
    ensures
        count <= map.dom().len(),
    decreases count,
{
    if count > 0 {
        let last = (count - 1) as u128;
        let rest = map.remove(numbered_uuid(last));
        assert(map.contains_key(numbered_uuid(last)));
        assert forall|n: u128| n < last implies rest.contains_key(#[trigger] numbered_uuid(n)) by {
            lemma_numbered_uuid(n, last);
        }
        lemma_numbered_uuids_count(rest, (count - 1) as nat);
    }
}

/// A token that is not among the registered ones.
///
/// Random tokens are drawn until one is free. So that the search ends whatever is
/// drawn, it goes on with numbered tokens after more draws than any program lives to
/// make, and one of these is free.
pub fn find_suitable_token<V>(watch_subscribers: &HashMap<u128, V>) -> (token: XsWatchToken)
    ensures
        !watch_subscribers@.contains_key(token@),
        is_random_uuid(token@),
        XsWatchToken::is_drawn(token@) || exists|key: u128| #[trigger]
            watch_subscribers@.contains_key(key) && XsWatchToken::is_drawn(key),
{
    let mut draws: u64 = 0;
    while draws < u64::MAX
        invariant
            draws > 0 ==> exists|key: u128| #[trigger]
                watch_subscribers@.contains_key(key) && XsWatchToken::is_drawn(key),
        decreases u64::MAX - draws,
    {
        let token = XsWatchToken::random();
        if !watch_subscribers.contains_key(&token.key()) {
            return token;
        }
        draws += 1;
    }

    let count: usize = watch_subscribers.len();
    let mut n: u128 = 0;
    loop
        invariant
            count == watch_subscribers@.dom().len(),
            n <= count,
            forall|m: u128| m < n ==> watch_subscribers@.contains_key(#[trigger] numbered_uuid(m)),
            exists|key: u128| #[trigger]
                watch_subscribers@.contains_key(key) && XsWatchToken::is_drawn(key),
        decreases count - n,
    {
        let token = XsWatchToken::numbered(n);
        if !watch_subscribers.contains_key(&token.key()) {
            proof {
                lemma_numbered_uuid(n, n);
            }
            return token;
        }
        proof {
            lemma_numbered_uuids_count(watch_subscribers@, (n + 1) as nat);
        }
        n += 1;
    }
}

impl XsAsyncState {
    /// As many slots as there may be requests, and the counter counts the taken ones.
    pub open spec fn wf(&self) -> bool {
        &&& self@.slots.len() == MAX_REQUEST_COUNT
        &&& self.counted()
    }

    /// The counter counts the taken slots.
    pub closed spec fn counted(&self) -> bool {
        self.task_count == self@.task_count()
    }

    /// The first free slot.
    fn find_slot(&self) -> (found: Option<usize>)
        ensures
            match found {
                Some(slot) => self@.first_free(slot as int),
                None => self@.full(),
            },
    {
        let mut slot: usize = 0;
        while slot < self.pending_tasks.len()
            invariant
                slot <= self.pending_tasks.len(),
                forall|i: int| 0 <= i < slot ==> #[trigger] self@.slots[i] is Some,
            decreases self.pending_tasks.len() - slot,
        {
            if self.pending_tasks[slot].is_none() {
                return Some(slot);
            }
            slot += 1;
        }
        None
    }

    /// Decides on a request.
    ///
    /// The state does not change before the command has been sent: see
    /// [`XsAsyncState::command_sent`].
    pub fn process_request(&self, request: XsAsyncRequest) -> (r: Result<
        (XsMessage, XsAsyncPending),
        XsAsyncRefusal,
    >)
        requires
            self.wf(),
        ensures
            forall|token: XsWatchToken| #[trigger]
                self@.decided(XsAsyncMessage::Request(request), token, r),
            match r {
                Ok((command, pending)) => {
                    &&& self@.first_free(pending.slot as int)
                    &&& command.msg_type == request.request.msg_type
                    &&& command.request_id == pending.slot
                    &&& command.transaction_id == request.request.transaction_id
                    &&& command.payload@ == request.request.payload@
                    &&& pending.task == XsAsyncTask::Request(request.response_sender)
                },
                Err(refused) => {
                    &&& self@.full()
                    &&& refused.error == XsAsyncError::NoAvailableSlot
                    &&& refused.message == XsAsyncMessage::Request(request)
                },
            },
    {
        match self.find_slot() {
            Some(slot) => {
                let XsAsyncRequest { mut request, response_sender } = request;
                request.request_id = slot as u32;
                let task = XsAsyncTask::Request(response_sender);
                Ok((request, XsAsyncPending { slot, task }))
            },
            None => Err(
                XsAsyncRefusal {
                    error: XsAsyncError::NoAvailableSlot,
                    message: XsAsyncMessage::Request(request),
                },
            ),
        }
    }

    /// Decides on a subscription. The watch gets `token`.
    ///
    /// The state does not change before the command has been sent: see
    /// [`XsAsyncState::command_sent`].
    pub fn process_subscription(
        &self,
        path: Box<str>,
        event_sender: mpsc::Sender<Box<str>>,
        result_channel: oneshot::Sender<Result<XsWatchToken, XsError>>,
        token: XsWatchToken,
    ) -> (r: Result<(XsMessage, XsAsyncPending), XsAsyncRefusal>)
        requires
            self.wf(),
        ensures
            self@.decided(
                (XsAsyncMessage::WatchSubscribe { path, event_sender, result_channel }),
                token,
                r,
            ),
            match r {
                Ok((command, pending)) => {
                    &&& self@.first_free(pending.slot as int)
                    &&& command.msg_type == XsMessageType::Watch
                    &&& command.request_id == pending.slot
                    &&& command.transaction_id == 0
                    &&& command.payload@ == joined(seq![path@, uuid_text(token@)])
                    &&& pending.task == (XsAsyncTask::WatchSubscribe {
                        subscriber_info: WatchSubscriberInfo { channel: event_sender, path },
                        result_channel,
                        token,
                    })
                },
                Err(refused) => {
                    &&& self@.full()
                    &&& refused.error == XsAsyncError::NoAvailableSlot
                    &&& refused.message == (XsAsyncMessage::WatchSubscribe {
                        path,
                        event_sender,
                        result_channel,
                    })
                },
            },
    {
        match self.find_slot() {
            Some(slot) => {
                let command = Self::make_watch_command(XsMessageType::Watch, slot, &path, token);
                let task = XsAsyncTask::WatchSubscribe {
                    subscriber_info: WatchSubscriberInfo { channel: event_sender, path },
                    result_channel,
                    token,
                };
                Ok((command, XsAsyncPending { slot, task }))
            },
            None => Err(
                XsAsyncRefusal {
                    error: XsAsyncError::NoAvailableSlot,
                    message: XsAsyncMessage::WatchSubscribe { path, event_sender, result_channel },
                },
            ),
        }
    }

    /// Decides on the end of a subscription.
    ///
    /// The state does not change before the command has been sent: see
    /// [`XsAsyncState::command_sent`].
    pub fn process_unsubscription(&self, old: XsWatchToken) -> (r: Result<
        (XsMessage, XsAsyncPending),
        XsAsyncRefusal,
    >)
        requires
            self.wf(),
        ensures
            forall|token: XsWatchToken| #[trigger]
                self@.decided(XsAsyncMessage::WatchUnsubscribe(old), token, r),
            match r {
                Ok((command, pending)) => {
                    &&& self@.first_free(pending.slot as int)
                    &&& self@.subscribers.contains_key(old@)
                    &&& command.msg_type == XsMessageType::Unwatch
                    &&& command.request_id == pending.slot
                    &&& command.transaction_id == 0
                    &&& command.payload@ == joined(
                        seq![self@.subscribers[old@].path@, uuid_text(old@)],
                    )
                    &&& pending.task == XsAsyncTask::WatchUnsubscribe(old)
                },
                Err(refused) => {
                    &&& refused.error == if self@.full() {
                        XsAsyncError::NoAvailableSlot
                    } else {
                        XsAsyncError::UnwatchWithoutWatch
                    }
                    &&& self@.full() || !self@.subscribers.contains_key(old@)
                    &&& refused.message == XsAsyncMessage::WatchUnsubscribe(old)
                },
            },
    {
        let message = XsAsyncMessage::WatchUnsubscribe(old);
        let slot = match self.find_slot() {
            Some(slot) => slot,
            None => {
                return Err(XsAsyncRefusal { error: XsAsyncError::NoAvailableSlot, message });
            },
        };
        assert(!self@.full());
        match self.watch_subscribers.get(&old.key()) {
            Some(subscriber) => {
                let command = Self::make_watch_command(
                    XsMessageType::Unwatch,
                    slot,
                    &subscriber.path,
                    old,
                );
                let task = XsAsyncTask::WatchUnsubscribe(old);
                Ok((command, XsAsyncPending { slot, task }))
            },
            None => Err(XsAsyncRefusal { error: XsAsyncError::UnwatchWithoutWatch, message }),
        }
    }

    /// Decides on an operation, with a random token for a new watch. It is turned
    /// down only if no slot is free, or if it is to end a watch that is not
    /// registered.
    ///
    /// The state does not change before the command has been sent: see
    /// [`XsAsyncState::command_sent`].
    pub fn process_message(&self, message: XsAsyncMessage) -> (r: Result<
        (XsMessage, XsAsyncPending),
        XsAsyncRefusal,
    >)
        requires
            self.wf(),
        ensures
            self@.decided_by_chance(message, r),
            r is Ok <==> self@.refusal(message) is None,
    {
        // No token is drawn for a subscription that finds no slot.
        if self.find_slot().is_none() {
            let r = Err(XsAsyncRefusal { error: XsAsyncError::NoAvailableSlot, message });
            assert(self@.decided(message, arbitrary(), r));
            return r;
        }
        match message {
            XsAsyncMessage::Request(request) => {
                let r = self.process_request(request);
                assert(self@.decided(message, arbitrary(), r));
                r
            },
            XsAsyncMessage::WatchSubscribe { path, event_sender, result_channel } => {
                let token = find_suitable_token(&self.watch_subscribers);
                let r = self.process_subscription(path, event_sender, result_channel, token);
                assert(self@.decided(message, token, r));
                r
            },
            XsAsyncMessage::WatchUnsubscribe(old) => {
                let r = self.process_unsubscription(old);
                assert(self@.decided(message, old, r));
                r
            },
        }
    }

    /// The command that registers or removes a watch.
    fn make_watch_command(
        msg_type: XsMessageType,
        slot: usize,
        path: &str,
        token: XsWatchToken,
    ) -> (command: XsMessage)
        ensures
            command@ == watch_command(msg_type, slot as int, path@, token),
    {
        let text = token.text();
        let strings: [&str; 2] = [path, text.as_str()];
        assert(texts_of(strings@) =~= seq![path@, uuid_text(token@)]);
        XsMessage::from_string_slice(msg_type, slot as u32, &strings)
    }

    /// Whether the slot of a task is still free.
    pub fn is_free(&self, pending: &XsAsyncPending) -> (free: bool)
        requires
            self.wf(),
        ensures
            free == (pending.slot < MAX_REQUEST_COUNT && self@.slots[pending.slot as int] is None),
    {
        pending.slot < self.pending_tasks.len() && self.pending_tasks[pending.slot].is_none()
    }

    /// Enters a task in its slot if its command could be sent. If not, the operation
    /// is given up: the task is handed back with its channel, over which nothing has
    /// been sent.
    pub fn command_sent(&mut self, pending: XsAsyncPending, sent: bool) -> (given_up: Option<
        XsAsyncTask,
    >)
        requires
            old(self).wf(),
            sent ==> pending.slot < MAX_REQUEST_COUNT,
            sent ==> old(self)@.slots[pending.slot as int] is None,
        ensures
            final(self).wf(),
            final(self)@ == if sent {
                old(self)@.with_task(pending.slot as int, pending.task)
            } else {
                old(self)@
            },
            given_up == if sent {
                None
            } else {
                Some(pending.task)
            },
    {
        let XsAsyncPending { slot, task } = pending;
        if sent {
            proof {
                lemma_occupied_update(self@.slots, slot as int, Some(task));
                lemma_occupied_bound(self@.slots.update(slot as int, Some(task)));
            }
            self.pending_tasks.set(slot, Some(task));
            self.task_count += 1;
            None
        } else {
            Some(task)
        }
    }

    /// Processes a message from the daemon: hands the answer to the client that
    /// waits for it, or finds the subscriber that a watch event is for.
    pub fn process_response(&mut self, response: XsMessage) -> (r: Result<
        XsAsyncAction,
        XsAsyncError,
    >)
        requires
            old(self).wf(),
        ensures
            final(self).wf(),
            final(self)@ == old(self)@.answered(response),
            old(self)@.processed(response, r),
            response.msg_type != XsMessageType::WatchEvent && response.request_id
                < old(self)@.slots.len() ==> match old(self)@.slots[response.request_id as int] {
                Some(XsAsyncTask::Request(sender)) => exists|sent: Result<(), XsMessage>|
                    call_ensures(oneshot::Sender::<XsMessage>::send, (sender, response), sent),
                Some(XsAsyncTask::WatchSubscribe { result_channel, token, .. }) =>
                    match response.msg_type {
                        XsMessageType::Watch => exists|
                            sent: Result<(), Result<XsWatchToken, XsError>>,
                        |
                            call_ensures(
                                oneshot::Sender::<Result<XsWatchToken, XsError>>::send,
                                (result_channel, Ok(token)),
                                sent,
                            ),
                        XsMessageType::Error => exists|
                            sent: Result<(), Result<XsWatchToken, XsError>>,
                        |
                            call_ensures(
                                oneshot::Sender::<Result<XsWatchToken, XsError>>::send,
                                (result_channel, Err(XsError::Refused(response))),
                                sent,
                            ),
                        other => exists|
                            sent: Result<(), Result<XsWatchToken, XsError>>,
                        |
                            call_ensures(
                                oneshot::Sender::<Result<XsWatchToken, XsError>>::send,
                                (result_channel, Err(XsError::UnexpectedResponse(other))),
                                sent,
                            ),
                    },
                _ => true,
            },
    {
        if response.msg_type == XsMessageType::WatchEvent {
            // A watch event is no answer to anything.
            return self.process_watch_entry(&response);
        }
        let (reply, outcome) = self.settle(response);
        reply.send();
        match outcome {
            Ok(None) => Ok(XsAsyncAction::Nothing),
            Ok(Some(note)) => Ok(XsAsyncAction::Note(note)),
            Err(e) => Err(e),
        }
    }

    /// Takes the task that an answer is for out of its slot and carries it out, up to
    /// the reply to the client. [`XsAsyncState::process_response`] sends that reply.
    pub fn settle(&mut self, response: XsMessage) -> (r: (
        XsAsyncReply,
        Result<Option<XsAsyncNote>, XsAsyncError>,
    ))
        requires
            old(self).wf(),
            response.msg_type != XsMessageType::WatchEvent,
        ensures
            final(self).wf(),
            final(self)@ == old(self)@.answered(response),
            r == old(self)@.answer(response),
    {
        let slot = response.request_id as usize;
        if slot >= self.pending_tasks.len() {
            return (XsAsyncReply::Nothing, Err(XsAsyncError::InvalidRequestId));
        }
        let taken = self.pending_tasks[slot].take();
        let task = match taken {
            Some(task) => task,
            None => {
                assert(self@.slots =~= old(self)@.slots);
                return (XsAsyncReply::Nothing, Err(XsAsyncError::NoRelatedRequest));
            },
        };
        proof {
            lemma_occupied_update(old(self)@.slots, slot as int, None);
        }
        self.task_count -= 1;

        match task {
            // The client gets the answer, even if that is an error.
            XsAsyncTask::Request(sender) => (XsAsyncReply::Respond { sender, response }, Ok(None)),
            XsAsyncTask::WatchSubscribe { subscriber_info, result_channel, token } => {
                match response.msg_type {
                    XsMessageType::Watch => {
                        let note = match self.watch_subscribers.insert(
                            token.key(),
                            subscriber_info,
                        ) {
                            Some(_) => Some(XsAsyncNote::OverriddenSubscriber(token)),
                            None => None,
                        };
                        (XsAsyncReply::Conclude { result_channel, result: Ok(token) }, Ok(note))
                    },
                    XsMessageType::Error => {
                        let result = Err(XsError::Refused(response));
                        (XsAsyncReply::Conclude { result_channel, result }, Ok(None))
                    },
                    other => {
                        let result = Err(XsError::UnexpectedResponse(other));
                        (
                            XsAsyncReply::Conclude { result_channel, result },
                            Err(XsAsyncError::InvalidWatchResponse),
                        )
                    },
                }
            },
            XsAsyncTask::WatchUnsubscribe(token) => {
                let outcome = match response.msg_type {
                    XsMessageType::Unwatch => match self.watch_subscribers.remove(&token.key()) {
                        Some(_) => Ok(None),
                        None => Ok(Some(XsAsyncNote::UnwatchedNothing(token))),
                    },
                    XsMessageType::Error => Err(XsAsyncError::UnwatchFailure),
                    _ => Err(XsAsyncError::InvalidWatchResponse),
                };
                (XsAsyncReply::Nothing, outcome)
            },
        }
    }

    /// Finds out which subscriber a watch event is for and what it is told.
    pub fn process_watch_entry(&self, message: &XsMessage) -> (r: Result<
        XsAsyncAction,
        XsAsyncError,
    >)
        ensures
            self@.notifies(message@.payload, r),
    {
        let list = match message.parse_payload_list() {
            Ok(list) => list,
            Err(_) => {
                return Err(XsAsyncError::InvalidText);
            },
        };
        if list.len() != 2 {
            return Err(XsAsyncError::InvalidWatchEvent);
        }
        let value = list[0];
        let text = list[1];
        let token = match XsWatchToken::parse(text) {
            Some(token) => token,
            None => {
                return Err(XsAsyncError::NonUuidToken);
            },
        };
        if self.watch_subscribers.contains_key(&token.key()) {
            Ok(XsAsyncAction::Notify { token, value: boxed(value) })
        } else {
            Ok(XsAsyncAction::Note(XsAsyncNote::UnregisteredWatch(token)))
        }
    }

    /// The channel of the subscriber of a watch.
    pub fn subscriber_channel(&mut self, token: XsWatchToken) -> (found: Option<
        &mut mpsc::Sender<Box<str>>,
    >)
        requires
            old(self).wf(),
        ensures
            final(self).wf(),
            match found {
                Some(channel) => {
                    &&& old(self)@.subscribers.contains_key(token@)
                    &&& *channel == old(self)@.subscribers[token@].channel
                    &&& final(self)@ == old(self)@.with_channel(token, *final(channel))
                },
                None => {
                    &&& !old(self)@.subscribers.contains_key(token@)
                    &&& final(self)@ == old(self)@
                },
            },
    {
        match self.watch_subscribers.entry(token.key()) {
            Entry::Occupied(entry) => Some(&mut entry.into_mut().channel),
            Entry::Vacant(_) => None,
        }
    }

    /// Drops the subscriber of a watch if it could not be notified.
    pub fn subscriber_notified(&mut self, token: XsWatchToken, notified: bool)
        requires
            old(self).wf(),
        ensures
            final(self).wf(),
            final(self)@ == if notified {
                old(self)@
            } else {
                old(self)@.without_subscriber(token)
            },
    {
        if !notified {
            self.watch_subscribers.remove(&token.key());
        }
    }

    /// Whether another operation can be taken on. If not, only messages from the
    /// daemon can be processed.
    pub fn takes_messages(&self) -> (takes: bool)
        requires
            self.wf(),
        ensures
            takes == (self@.task_count() < MAX_REQUEST_COUNT),
            takes == !self@.full(),
    {
        proof {
            lemma_occupied_bound(self@.slots);
        }
        self.task_count != MAX_REQUEST_COUNT
    }

    /// Processes what came in. Nothing coming in any more means to stop.
    pub fn run(&mut self, input: Option<XsAsyncInput>) -> (r: Result<XsAsyncAction, XsAsyncError>)
        requires
            old(self).wf(),
        ensures
            final(self).wf(),
            final(self)@ == old(self)@.taken_in(input),
            old(self)@.ran(input, r),
    {
        match input {
            None => Ok(XsAsyncAction::Stop),
            Some(XsAsyncInput::Response(response)) => self.process_response(response),
            Some(XsAsyncInput::Message(message)) => match self.process_message(message) {
                Ok((command, pending)) => Ok(XsAsyncAction::Send { command, pending }),
                Err(refused) => Ok(XsAsyncAction::Refuse(refused)),
            },
        }
    }
}

impl Default for XsAsyncState {
    fn default() -> (state: Self)
        ensures
            state.wf(),
            state@.subscribers == Map::<u128, WatchSubscriberInfo>::empty(),
            forall|i: int|
                0 <= i < MAX_REQUEST_COUNT ==> #[trigger] state@.slots[i] is None,
    {
        let mut pending_tasks: Vec<Option<XsAsyncTask>> = Vec::new();
        let mut i: usize = 0;
        while i < MAX_REQUEST_COUNT
            invariant
                i <= MAX_REQUEST_COUNT,
                pending_tasks.len() == i,
                occupied(pending_tasks@) == 0,
                forall|j: int| 0 <= j < i ==> #[trigger] pending_tasks@[j] is None,
            decreases MAX_REQUEST_COUNT - i,
        {
            let ghost before = pending_tasks@;
            pending_tasks.push(None);
            assert(pending_tasks@.drop_last() =~= before);
            i += 1;
        }
        XsAsyncState { pending_tasks, watch_subscribers: HashMap::new(), task_count: 0 }
    }
}

} // verus!
