use futures::channel::{mpsc, oneshot};
use futures::executor::block_on;
use futures::{SinkExt, StreamExt};
use xenstore::error::XsError;
use xenstore::token::XsWatchToken;
use xenstore::wire::{XsMessage, XsMessageType};
use xenstore::xs_async::interface::{
    XsAsyncAction, XsAsyncError, XsAsyncInput, XsAsyncMessage, XsAsyncNote, XsAsyncPending,
    XsAsyncReply, XsAsyncRequest, XsAsyncState, XsAsyncTask, MAX_REQUEST_COUNT,
};

type Subscription = oneshot::Receiver<Result<XsWatchToken, XsError>>;

const TEXT: &str = "67e55044-10b1-426f-9247-bb680e5fe0c8";

fn token() -> XsWatchToken {
    XsWatchToken::parse(TEXT).unwrap()
}

fn message(msg_type: XsMessageType, request_id: u32, payload: &[u8]) -> XsMessage {
    XsMessage { msg_type, request_id, transaction_id: 0, payload: payload.to_vec() }
}

fn request(payload: &[u8]) -> (XsAsyncMessage, oneshot::Receiver<XsMessage>) {
    let (response_sender, receiver) = oneshot::channel();
    let request = XsMessage {
        msg_type: XsMessageType::Other(2),
        request_id: 77,
        transaction_id: 5,
        payload: payload.to_vec(),
    };
    (XsAsyncMessage::Request(XsAsyncRequest { request, response_sender }), receiver)
}

fn subscribe(path: &str) -> (XsAsyncMessage, mpsc::Receiver<Box<str>>, Subscription) {
    let (event_sender, events) = mpsc::channel(4);
    let (result_channel, result) = oneshot::channel();
    let message = XsAsyncMessage::WatchSubscribe { path: path.into(), event_sender, result_channel };
    (message, events, result)
}

/// Runs an operation whose command is sent at once.
fn enter(state: &mut XsAsyncState, message: XsAsyncMessage) -> Result<XsMessage, XsAsyncError> {
    match state.run(Some(XsAsyncInput::Message(message))) {
        Ok(XsAsyncAction::Send { command, pending }) => {
            assert!(state.is_free(&pending));
            assert!(state.command_sent(pending, true).is_none());
            Ok(command)
        }
        Ok(XsAsyncAction::Refuse(refused)) => Err(refused.error),
        _ => panic!("not a command"),
    }
}

/// Runs a message from the daemon that is for no subscriber of a watch.
fn answer(state: &mut XsAsyncState, response: XsMessage) -> Result<(), XsAsyncError> {
    match state.run(Some(XsAsyncInput::Response(response))) {
        Ok(XsAsyncAction::Nothing) => Ok(()),
        Ok(_) => panic!("something left to do"),
        Err(e) => Err(e),
    }
}

/// Runs a message from the daemon that has something odd about it.
fn noted(state: &mut XsAsyncState, response: XsMessage) -> XsAsyncNote {
    match state.run(Some(XsAsyncInput::Response(response))) {
        Ok(XsAsyncAction::Note(note)) => note,
        _ => panic!("nothing noted"),
    }
}

/// Runs an event and gives the watch and the value that its subscriber is told.
fn notified(state: &mut XsAsyncState, event: XsMessage) -> (XsWatchToken, Box<str>) {
    match state.run(Some(XsAsyncInput::Response(event))) {
        Ok(XsAsyncAction::Notify { token, value }) => (token, value),
        _ => panic!("nobody to notify"),
    }
}

/// Registers a watch and gives its token.
fn watched(state: &mut XsAsyncState, path: &str) -> (XsWatchToken, mpsc::Receiver<Box<str>>) {
    let (message_, events, mut result) = subscribe(path);
    let command = enter(state, message_).unwrap();
    let confirmation = message(XsMessageType::Watch, command.request_id, b"OK\0");
    assert_eq!(answer(state, confirmation), Ok(()));
    let token = result.try_recv().unwrap().unwrap().unwrap();
    (token, events)
}

fn event(path: &str, token: &str) -> XsMessage {
    XsMessage::from_string_slice(XsMessageType::WatchEvent, 0, &[path, token])
}

#[test]
fn request_goes_out_with_the_number_of_its_slot() {
    let mut state = XsAsyncState::default();
    let (m, _receiver) = request(b"/a\0");
    let command = enter(&mut state, m).unwrap();
    assert_eq!(command.msg_type, XsMessageType::Other(2));
    assert_eq!(command.request_id, 0);
    assert_eq!(command.transaction_id, 5);
    assert_eq!(command.payload, b"/a\0".to_vec());

    let (m, _receiver) = request(b"/b\0");
    assert_eq!(enter(&mut state, m).unwrap().request_id, 1);
}

#[test]
fn request_gets_its_answer() {
    let mut state = XsAsyncState::default();
    let (first, mut first_receiver) = request(b"/a\0");
    let (second, mut second_receiver) = request(b"/b\0");
    enter(&mut state, first).unwrap();
    enter(&mut state, second).unwrap();

    assert_eq!(answer(&mut state, message(XsMessageType::Other(2), 1, b"b")), Ok(()));
    assert_eq!(first_receiver.try_recv(), Ok(None));
    let response = second_receiver.try_recv().unwrap().unwrap();
    assert_eq!(response, message(XsMessageType::Other(2), 1, b"b"));

    assert_eq!(answer(&mut state, message(XsMessageType::Other(2), 0, b"a")), Ok(()));
    let response = first_receiver.try_recv().unwrap().unwrap();
    assert_eq!(response, message(XsMessageType::Other(2), 0, b"a"));
}

#[test]
fn request_gets_an_error_as_its_answer() {
    let mut state = XsAsyncState::default();
    let (m, mut receiver) = request(b"/a\0");
    enter(&mut state, m).unwrap();
    assert_eq!(answer(&mut state, message(XsMessageType::Error, 0, b"ENOENT\0")), Ok(()));
    let response = receiver.try_recv().unwrap().unwrap();
    assert_eq!(response, message(XsMessageType::Error, 0, b"ENOENT\0"));
}

#[test]
fn client_that_is_gone_does_no_harm() {
    let mut state = XsAsyncState::default();
    let (m, receiver) = request(b"/a\0");
    enter(&mut state, m).unwrap();
    drop(receiver);
    assert_eq!(answer(&mut state, message(XsMessageType::Other(2), 0, b"a")), Ok(()));
}

#[test]
fn slot_is_used_again() {
    let mut state = XsAsyncState::default();
    for _ in 0..3 {
        let (m, _receiver) = request(b"/a\0");
        enter(&mut state, m).unwrap();
    }
    assert_eq!(answer(&mut state, message(XsMessageType::Other(2), 1, b"")), Ok(()));
    let (m, _receiver) = request(b"/a\0");
    assert_eq!(enter(&mut state, m).unwrap().request_id, 1);
}

#[test]
fn command_that_was_not_sent_takes_no_slot() {
    let mut state = XsAsyncState::default();
    let (m, mut receiver) = request(b"/a\0");
    let (_command, pending) = state.process_message(m).ok().unwrap();
    let given_up = state.command_sent(pending, false);
    assert!(matches!(given_up, Some(XsAsyncTask::Request(_))));
    assert_eq!(receiver.try_recv(), Ok(None));
    drop(given_up);
    assert!(receiver.try_recv().is_err());
    let (m, _receiver) = request(b"/b\0");
    assert_eq!(enter(&mut state, m).unwrap().request_id, 0);
}

#[test]
fn slots_run_out_at_the_limit() {
    let mut state = XsAsyncState::default();
    assert_eq!(MAX_REQUEST_COUNT, 32);
    for i in 0..32 {
        assert!(state.takes_messages());
        let (m, _receiver) = request(b"/a\0");
        assert_eq!(enter(&mut state, m).unwrap().request_id, i);
    }
    assert!(!state.takes_messages());
    let (m, _receiver) = request(b"/a\0");
    assert_eq!(enter(&mut state, m), Err(XsAsyncError::NoAvailableSlot));
    let (m, _events, _result) = subscribe("/a");
    assert_eq!(enter(&mut state, m), Err(XsAsyncError::NoAvailableSlot));
    let m = XsAsyncMessage::WatchUnsubscribe(token());
    assert_eq!(enter(&mut state, m), Err(XsAsyncError::NoAvailableSlot));

    assert_eq!(answer(&mut state, message(XsMessageType::Other(2), 31, b"")), Ok(()));
    assert!(state.takes_messages());
}

#[test]
fn refused_operation_comes_back() {
    let mut state = XsAsyncState::default();
    let mut waiting = Vec::new();
    for _ in 0..32 {
        let (m, receiver) = request(b"/a\0");
        enter(&mut state, m).unwrap();
        waiting.push(receiver);
    }

    let (m, mut receiver) = request(b"/x\0");
    let refused = state.process_message(m).err().unwrap();
    assert_eq!(refused.error, XsAsyncError::NoAvailableSlot);
    let XsAsyncMessage::Request(XsAsyncRequest { request, .. }) = &refused.message else {
        panic!("another operation");
    };
    assert_eq!(request.payload, b"/x\0".to_vec());
    assert_eq!(receiver.try_recv(), Ok(None));
    drop(refused);
    assert!(receiver.try_recv().is_err());

    let (m, _events, mut result) = subscribe("/y");
    let Ok(XsAsyncAction::Refuse(refused)) = state.run(Some(XsAsyncInput::Message(m))) else {
        panic!("not refused");
    };
    assert_eq!(refused.error, XsAsyncError::NoAvailableSlot);
    assert!(matches!(&refused.message, XsAsyncMessage::WatchSubscribe { path, .. } if &**path == "/y"));
    drop(refused);
    assert!(result.try_recv().is_err());

    for receiver in waiting.iter_mut() {
        assert_eq!(receiver.try_recv(), Ok(None));
    }
}

#[test]
fn subscription_that_was_not_sent_tells_nothing() {
    let mut state = XsAsyncState::default();
    let (m, _events, mut result) = subscribe("/a");
    let (_command, pending) = state.process_message(m).ok().unwrap();
    let given_up = state.command_sent(pending, false);
    assert!(matches!(given_up, Some(XsAsyncTask::WatchSubscribe { .. })));
    assert_eq!(result.try_recv(), Ok(None));
    drop(given_up);
    assert!(result.try_recv().is_err());
}

#[test]
fn reply_is_made_before_it_is_sent() {
    let mut state = XsAsyncState::default();
    let (m, mut receiver) = request(b"/a\0");
    enter(&mut state, m).unwrap();
    let (reply, outcome) = state.settle(message(XsMessageType::Other(2), 0, b"a"));
    assert_eq!(outcome, Ok(None));
    assert!(matches!(&reply, XsAsyncReply::Respond { response, .. } if response.payload == b"a"));
    assert_eq!(receiver.try_recv(), Ok(None));
}

#[test]
fn refused_unwatch_can_be_repeated() {
    let mut state = XsAsyncState::default();
    let (token, _events) = watched(&mut state, "/a");
    for _ in 0..3 {
        let command = enter(&mut state, XsAsyncMessage::WatchUnsubscribe(token)).unwrap();
        assert_eq!(command.parse_payload_list().unwrap(), vec!["/a", token.text().as_str()]);
        assert_eq!(
            answer(&mut state, message(XsMessageType::Error, 0, b"EBUSY\0")),
            Err(XsAsyncError::UnwatchFailure)
        );
    }
}

#[test]
fn free_slot_is_known() {
    let mut state = XsAsyncState::default();
    let (m, _receiver) = request(b"/a\0");
    let (_command, pending) = state.process_message(m).ok().unwrap();
    assert!(state.is_free(&pending));
    let (m, _receiver) = request(b"/b\0");
    enter(&mut state, m).unwrap();
    assert!(!state.is_free(&pending));
    let XsAsyncPending { task, .. } = pending;
    assert!(!state.is_free(&XsAsyncPending { slot: 32, task }));
}

#[test]
fn stray_answers_are_reported() {
    let mut state = XsAsyncState::default();
    assert_eq!(
        answer(&mut state, message(XsMessageType::Other(2), 32, b"")),
        Err(XsAsyncError::InvalidRequestId)
    );
    assert_eq!(
        answer(&mut state, message(XsMessageType::Other(2), 31, b"")),
        Err(XsAsyncError::NoRelatedRequest)
    );
    let (m, _receiver) = request(b"/a\0");
    enter(&mut state, m).unwrap();
    assert_eq!(answer(&mut state, message(XsMessageType::Other(2), 0, b"")), Ok(()));
    assert_eq!(
        answer(&mut state, message(XsMessageType::Other(2), 0, b"")),
        Err(XsAsyncError::NoRelatedRequest)
    );
}

#[test]
fn watch_command_carries_path_and_token() {
    let state = XsAsyncState::default();
    let (event_sender, _events) = mpsc::channel(4);
    let (result_channel, _result) = oneshot::channel();
    let path = "/local/domain".into();
    let (command, pending) =
        state.process_subscription(path, event_sender, result_channel, token()).ok().unwrap();
    assert_eq!(pending.slot, 0);
    assert_eq!(command.msg_type, XsMessageType::Watch);
    assert_eq!(command.request_id, 0);
    assert_eq!(command.transaction_id, 0);
    assert_eq!(
        command.payload,
        b"/local/domain\x0067e55044-10b1-426f-9247-bb680e5fe0c8\0".to_vec()
    );
}

#[test]
fn each_kind_of_operation_can_be_decided_alone() {
    let mut state = XsAsyncState::default();
    let (response_sender, _receiver) = oneshot::channel();
    let request = message(XsMessageType::Other(1), 9, b"/a\0");
    let (command, pending) =
        state.process_request(XsAsyncRequest { request, response_sender }).ok().unwrap();
    assert_eq!(command, message(XsMessageType::Other(1), 0, b"/a\0"));
    state.command_sent(pending, true);

    let refused = state.process_unsubscription(token()).err().unwrap();
    assert_eq!(refused.error, XsAsyncError::UnwatchWithoutWatch);
    assert!(matches!(refused.message, XsAsyncMessage::WatchUnsubscribe(t) if t == token()));
    let (token, _events) = watched(&mut state, "/b");
    let (command, pending) = state.process_unsubscription(token).ok().unwrap();
    assert_eq!(pending.slot, 1);
    assert_eq!(
        command,
        XsMessage::from_string_slice(XsMessageType::Unwatch, 1, &["/b", &token.text()])
    );
}

#[test]
fn overridden_subscriber_is_noted() {
    let mut state = XsAsyncState::default();
    for (slot, path) in ["/a", "/b"].into_iter().enumerate() {
        let (event_sender, _events) = mpsc::channel(4);
        let (result_channel, _result) = oneshot::channel();
        let (command, pending) = state
            .process_subscription(path.into(), event_sender, result_channel, token())
            .ok()
            .unwrap();
        assert_eq!(command.request_id, slot as u32);
        state.command_sent(pending, true);
    }
    assert_eq!(answer(&mut state, message(XsMessageType::Watch, 0, b"OK\0")), Ok(()));
    assert_eq!(
        noted(&mut state, message(XsMessageType::Watch, 1, b"OK\0")),
        XsAsyncNote::OverriddenSubscriber(token())
    );
    let command = enter(&mut state, XsAsyncMessage::WatchUnsubscribe(token())).unwrap();
    assert_eq!(command.parse_payload_list().unwrap(), vec!["/b", TEXT]);
}

#[test]
fn confirmed_watch_tells_its_token() {
    let mut state = XsAsyncState::default();
    let (m, _events, mut result) = subscribe("/a");
    let command = enter(&mut state, m).unwrap();
    assert_eq!(result.try_recv(), Ok(None));
    let confirmation = message(XsMessageType::Watch, command.request_id, b"OK\0");
    assert_eq!(answer(&mut state, confirmation), Ok(()));
    let token = result.try_recv().unwrap().unwrap().unwrap();
    let strings = command.parse_payload_list().unwrap();
    assert_eq!(strings, vec!["/a", token.text().as_str()]);
}

#[test]
fn refused_watch_is_not_registered() {
    let mut state = XsAsyncState::default();
    let (m, _events, mut result) = subscribe("/a");
    let command = enter(&mut state, m).unwrap();
    assert_eq!(answer(&mut state, message(XsMessageType::Error, 0, b"EACCES\0")), Ok(()));
    assert_eq!(
        result.try_recv().unwrap().unwrap(),
        Err(XsError::Refused(message(XsMessageType::Error, 0, b"EACCES\0")))
    );
    let text = command.parse_payload_list().unwrap()[1].to_string();
    let token = XsWatchToken::parse(&text).unwrap();
    assert_eq!(
        noted(&mut state, event("/a", &text)),
        XsAsyncNote::UnregisteredWatch(token)
    );
    let m = XsAsyncMessage::WatchUnsubscribe(token);
    assert_eq!(enter(&mut state, m), Err(XsAsyncError::UnwatchWithoutWatch));
}

#[test]
fn wrong_answer_to_a_watch_is_reported_twice() {
    let mut state = XsAsyncState::default();
    let (m, _events, mut result) = subscribe("/a");
    enter(&mut state, m).unwrap();
    assert_eq!(
        answer(&mut state, message(XsMessageType::Unwatch, 0, b"OK\0")),
        Err(XsAsyncError::InvalidWatchResponse)
    );
    assert_eq!(
        result.try_recv().unwrap().unwrap(),
        Err(XsError::UnexpectedResponse(XsMessageType::Unwatch))
    );
}

#[test]
fn event_goes_to_its_watch() {
    let mut state = XsAsyncState::default();
    let (first, _first_events) = watched(&mut state, "/a");
    let (second, mut second_events) = watched(&mut state, "/b");
    assert_ne!(first, second);

    let (token, value) = notified(&mut state, event("/b/c", &second.text()));
    assert_eq!(token, second);
    assert_eq!(&*value, "/b/c");

    let channel = state.subscriber_channel(token).unwrap();
    block_on(channel.send(value)).unwrap();
    assert_eq!(block_on(second_events.next()).as_deref(), Some("/b/c"));
}

#[test]
fn event_touches_no_request() {
    let mut state = XsAsyncState::default();
    let (m, mut receiver) = request(b"/a\0");
    enter(&mut state, m).unwrap();
    assert_eq!(
        noted(&mut state, event("/a", TEXT)),
        XsAsyncNote::UnregisteredWatch(token())
    );
    assert_eq!(receiver.try_recv(), Ok(None));
    assert_eq!(answer(&mut state, message(XsMessageType::Other(2), 0, b"")), Ok(()));
}

#[test]
fn event_without_a_watch_is_noted() {
    let mut state = XsAsyncState::default();
    assert_eq!(
        noted(&mut state, event("/a", TEXT)),
        XsAsyncNote::UnregisteredWatch(token())
    );
}

#[test]
fn event_may_spell_the_token_otherwise() {
    let mut state = XsAsyncState::default();
    let (token, _events) = watched(&mut state, "/a");
    let upper = token.text().to_uppercase();
    assert_eq!(notified(&mut state, event("/a/b", &upper)), (token, "/a/b".into()));
}

#[test]
fn watches_do_not_mix() {
    let mut state = XsAsyncState::default();
    let (a, mut a_events) = watched(&mut state, "/a");
    let (b, mut b_events) = watched(&mut state, "/b");
    for (path, watch) in [("/a/1", a), ("/b/1", b), ("/b/2", b), ("/a/2", a), ("/a/1", a)] {
        let (token, value) = notified(&mut state, event(path, &watch.text()));
        block_on(state.subscriber_channel(token).unwrap().send(value)).unwrap();
        state.subscriber_notified(token, true);
    }
    drop(state);
    let told: Vec<Box<str>> = block_on(a_events.by_ref().collect());
    assert_eq!(told, vec!["/a/1".into(), "/a/2".into(), Box::<str>::from("/a/1")]);
    let told: Vec<Box<str>> = block_on(b_events.by_ref().collect());
    assert_eq!(told, vec!["/b/1".into(), Box::<str>::from("/b/2")]);
}

#[test]
fn unanswered_commands_differ_and_are_limited() {
    let mut state = XsAsyncState::default();
    let mut waiting: Vec<u32> = Vec::new();
    for round in 0..200u32 {
        if state.takes_messages() && round % 5 != 4 {
            let (m, _receiver) = request(b"/a\0");
            let number = enter(&mut state, m).unwrap().request_id;
            assert!(number < 32);
            assert!(!waiting.contains(&number));
            waiting.push(number);
        } else {
            let number = waiting.remove((round as usize * 7) % waiting.len());
            assert_eq!(answer(&mut state, message(XsMessageType::Other(2), number, b"")), Ok(()));
        }
        assert!(waiting.len() <= 32);
    }
}

#[test]
fn commands_keep_the_order() {
    let mut state = XsAsyncState::default();
    let (m, _receiver) = request(b"/a\0");
    assert_eq!(enter(&mut state, m).unwrap().msg_type, XsMessageType::Other(2));
    let m = XsAsyncMessage::WatchUnsubscribe(token());
    assert_eq!(enter(&mut state, m), Err(XsAsyncError::UnwatchWithoutWatch));
    let (watch, _events) = watched(&mut state, "/b");
    let m = XsAsyncMessage::WatchUnsubscribe(watch);
    assert_eq!(enter(&mut state, m).unwrap().msg_type, XsMessageType::Unwatch);
    let (m, _receiver) = request(b"/c\0");
    assert_eq!(enter(&mut state, m).unwrap().payload, b"/c\0".to_vec());
}

#[test]
fn malformed_events_are_reported() {
    let mut state = XsAsyncState::default();
    let bad = message(XsMessageType::WatchEvent, 0, b"\xff\0x\0");
    assert_eq!(answer(&mut state, bad), Err(XsAsyncError::InvalidText));
    let bad = message(XsMessageType::WatchEvent, 0, b"");
    assert_eq!(answer(&mut state, bad), Err(XsAsyncError::InvalidWatchEvent));
    let bad = message(XsMessageType::WatchEvent, 0, b"/a\0");
    assert_eq!(answer(&mut state, bad), Err(XsAsyncError::InvalidWatchEvent));
    let bad = message(XsMessageType::WatchEvent, 0, b"/a\0b\0c\0");
    assert_eq!(answer(&mut state, bad), Err(XsAsyncError::InvalidWatchEvent));
    assert_eq!(answer(&mut state, event("/a", "not-a-uuid")), Err(XsAsyncError::NonUuidToken));
}

#[test]
fn lost_subscriber_gets_no_more_events() {
    let mut state = XsAsyncState::default();
    let (token, events) = watched(&mut state, "/a");
    drop(events);
    let channel = state.subscriber_channel(token).unwrap();
    assert!(block_on(channel.send("/a".into())).is_err());
    state.subscriber_notified(token, true);
    assert!(state.subscriber_channel(token).is_some());
    state.subscriber_notified(token, false);
    assert!(state.subscriber_channel(token).is_none());
    assert_eq!(
        noted(&mut state, event("/a", &token.text())),
        XsAsyncNote::UnregisteredWatch(token)
    );
}

#[test]
fn unwatch_repeats_the_watch() {
    let mut state = XsAsyncState::default();
    let (token, _events) = watched(&mut state, "/a");
    let (other, _other_events) = watched(&mut state, "/b");
    notified(&mut state, event("/a/c", &token.text()));
    state.subscriber_notified(other, false);
    let command = enter(&mut state, XsAsyncMessage::WatchUnsubscribe(token)).unwrap();
    assert_eq!(command.msg_type, XsMessageType::Unwatch);
    assert_eq!(command.request_id, 0);
    assert_eq!(
        command.parse_payload_list().unwrap(),
        vec!["/a", token.text().as_str()]
    );

    // The watch lasts until the daemon confirms its end.
    assert!(state.subscriber_channel(token).is_some());
    assert_eq!(answer(&mut state, message(XsMessageType::Unwatch, 0, b"OK\0")), Ok(()));
    assert!(state.subscriber_channel(token).is_none());
}

#[test]
fn unwatch_without_watch_is_refused() {
    let mut state = XsAsyncState::default();
    let m = XsAsyncMessage::WatchUnsubscribe(token());
    assert_eq!(enter(&mut state, m), Err(XsAsyncError::UnwatchWithoutWatch));
}

#[test]
fn failed_unwatch_keeps_the_watch() {
    let mut state = XsAsyncState::default();
    let (token, _events) = watched(&mut state, "/a");
    enter(&mut state, XsAsyncMessage::WatchUnsubscribe(token)).unwrap();
    assert_eq!(
        answer(&mut state, message(XsMessageType::Error, 0, b"ENOENT\0")),
        Err(XsAsyncError::UnwatchFailure)
    );
    enter(&mut state, XsAsyncMessage::WatchUnsubscribe(token)).unwrap();
    assert_eq!(
        answer(&mut state, message(XsMessageType::Watch, 0, b"OK\0")),
        Err(XsAsyncError::InvalidWatchResponse)
    );
    assert!(state.subscriber_channel(token).is_some());
}

#[test]
fn second_unwatch_of_a_watch_is_noted() {
    let mut state = XsAsyncState::default();
    let (token, _events) = watched(&mut state, "/a");
    enter(&mut state, XsAsyncMessage::WatchUnsubscribe(token)).unwrap();
    enter(&mut state, XsAsyncMessage::WatchUnsubscribe(token)).unwrap();
    assert_eq!(answer(&mut state, message(XsMessageType::Unwatch, 0, b"OK\0")), Ok(()));
    assert_eq!(
        noted(&mut state, message(XsMessageType::Unwatch, 1, b"OK\0")),
        XsAsyncNote::UnwatchedNothing(token)
    );
}

#[test]
fn nothing_coming_in_any_more_stops() {
    let mut state = XsAsyncState::default();
    assert!(matches!(state.run(None), Ok(XsAsyncAction::Stop)));
}

#[test]
fn errors_have_messages() {
    assert_eq!(XsAsyncError::NoAvailableSlot.message(), "No available slot");
    assert_eq!(
        XsAsyncError::UnwatchWithoutWatch.message(),
        "Attempting unwatch without watch."
    );
    assert_eq!(XsAsyncError::InvalidRequestId.message(), "Invalid req_id received");
    assert_eq!(
        XsAsyncError::NoRelatedRequest.message(),
        "No related request to this req_id"
    );
    assert_eq!(
        XsAsyncError::InvalidWatchResponse.message(),
        "Got invalid response to WATCH command"
    );
    assert_eq!(XsAsyncError::UnwatchFailure.message(), "Unwatch failure");
    assert_eq!(XsAsyncError::InvalidText.message(), "Payload is not valid text");
    assert_eq!(
        XsAsyncError::InvalidWatchEvent.message(),
        "Invalid watch event payload received"
    );
    assert_eq!(XsAsyncError::NonUuidToken.message(), "Got non-UUID token");
}
