use lastkey_ui::ipc_client::{
    Notice, PauseLength, PollWait, Reader, ReaderAction, ReaderEvent, Reason, Resume,
};

fn walk(events: Vec<ReaderEvent>) -> (Reader, ReaderAction) {
    let (mut state, mut action) = Reader::start();
    for event in events {
        assert!(state.answers(&event), "{event:?} must answer {action:?}");
        let next = state.step(event);
        state = next.0;
        action = next.1;
    }
    (state, action)
}

#[test]
fn the_reader_starts_by_opening_the_pipe() {
    let (state, action) = Reader::start();
    assert_eq!(state, Reader::Connecting);
    assert!(matches!(action, ReaderAction::Connect));
}

#[test]
fn a_failed_open_is_reported_then_retried_after_a_pause() {
    let (state, action) = walk(vec![ReaderEvent::OpenFailed("pipe busy".to_owned())]);
    assert_eq!(state, Reader::Publishing(Resume::Reconnect));
    match action {
        ReaderAction::Publish(Notice::Disconnected(Reason::Pipe(message))) => {
            assert_eq!(message, "pipe busy")
        }
        other => panic!("unexpected {other:?}"),
    }
    let (state, action) = walk(vec![
        ReaderEvent::OpenFailed("pipe busy".to_owned()),
        ReaderEvent::Published(true),
    ]);
    assert_eq!(state, Reader::PausingToReconnect);
    assert!(matches!(action, ReaderAction::Pause(PauseLength::Reconnect)));
    let (state, action) = walk(vec![
        ReaderEvent::OpenFailed("pipe busy".to_owned()),
        ReaderEvent::Published(true),
        ReaderEvent::Paused,
    ]);
    assert_eq!(state, Reader::Connecting);
    assert!(matches!(action, ReaderAction::Connect));
}

#[test]
fn a_session_announces_itself_then_reads_the_awake_flag() {
    let (state, action) = walk(vec![ReaderEvent::Opened]);
    assert_eq!(state, Reader::Publishing(Resume::Session));
    assert!(matches!(action, ReaderAction::Publish(Notice::Connected)));
    let (state, action) = walk(vec![ReaderEvent::Opened, ReaderEvent::Published(true)]);
    assert_eq!(state, Reader::ReadingAwake);
    assert!(matches!(action, ReaderAction::ReadAwake));
}

#[test]
fn the_awake_flag_picks_the_wait() {
    let awake = walk(vec![
        ReaderEvent::Opened,
        ReaderEvent::Published(true),
        ReaderEvent::Awake(true),
    ]);
    assert!(matches!(awake.1, ReaderAction::WaitForCommand(PollWait::Adaptive)));
    let asleep = walk(vec![
        ReaderEvent::Opened,
        ReaderEvent::Published(true),
        ReaderEvent::Awake(false),
    ]);
    assert_eq!(asleep.0, Reader::WaitingForCommand);
    assert!(matches!(asleep.1, ReaderAction::WaitForCommand(PollWait::Asleep)));
}

#[test]
fn queued_commands_drain_before_the_pipe_is_peeked() {
    let session = vec![
        ReaderEvent::Opened,
        ReaderEvent::Published(true),
        ReaderEvent::Awake(true),
        ReaderEvent::CommandArrived(false),
    ];
    let (state, action) = walk(session.clone());
    assert_eq!(state, Reader::Sending(false));
    assert!(matches!(action, ReaderAction::SendCommand));

    let mut more = session.clone();
    more.push(ReaderEvent::Sent);
    let (state, action) = walk(more.clone());
    assert_eq!(state, Reader::TakingQueued);
    assert!(matches!(action, ReaderAction::TakeQueued));

    more.push(ReaderEvent::CommandArrived(false));
    let (state, action) = walk(more.clone());
    assert_eq!(state, Reader::Sending(false));
    assert!(matches!(action, ReaderAction::SendCommand));

    more.push(ReaderEvent::Sent);
    more.push(ReaderEvent::QueueEmpty);
    let (state, action) = walk(more);
    assert_eq!(state, Reader::Peeking);
    assert!(matches!(action, ReaderAction::Peek));
}

#[test]
fn an_inbound_event_is_published_then_the_wait_resumes() {
    let events = vec![
        ReaderEvent::Opened,
        ReaderEvent::Published(true),
        ReaderEvent::Awake(true),
        ReaderEvent::TimedOut,
        ReaderEvent::Pending(true),
        ReaderEvent::Received,
    ];
    let (state, action) = walk(events.clone());
    assert_eq!(state, Reader::Publishing(Resume::Session));
    assert!(matches!(action, ReaderAction::Publish(Notice::Message)));
    let mut on = events;
    on.push(ReaderEvent::Published(true));
    let (state, action) = walk(on);
    assert_eq!(state, Reader::ReadingAwake);
    assert!(matches!(action, ReaderAction::ReadAwake));
}

#[test]
fn nothing_pending_goes_straight_back_to_the_wait() {
    let (state, action) = walk(vec![
        ReaderEvent::Opened,
        ReaderEvent::Published(true),
        ReaderEvent::Awake(false),
        ReaderEvent::TimedOut,
        ReaderEvent::Pending(false),
    ]);
    assert_eq!(state, Reader::ReadingAwake);
    assert!(matches!(action, ReaderAction::ReadAwake));
}

#[test]
fn a_closed_command_queue_pauses_then_peeks() {
    let events = vec![
        ReaderEvent::Opened,
        ReaderEvent::Published(true),
        ReaderEvent::Awake(true),
        ReaderEvent::QueueClosed,
    ];
    let (state, action) = walk(events.clone());
    assert_eq!(state, Reader::PausingAfterClosedQueue);
    assert!(matches!(action, ReaderAction::Pause(PauseLength::PollInterval)));
    let mut on = events;
    on.push(ReaderEvent::Paused);
    let (state, action) = walk(on);
    assert_eq!(state, Reader::Peeking);
    assert!(matches!(action, ReaderAction::Peek));
}

#[test]
fn the_closing_command_ends_the_reader_once_written() {
    let (state, action) = walk(vec![
        ReaderEvent::Opened,
        ReaderEvent::Published(true),
        ReaderEvent::Awake(true),
        ReaderEvent::CommandArrived(true),
        ReaderEvent::Sent,
    ]);
    assert_eq!(state, Reader::Stopped);
    assert!(matches!(action, ReaderAction::Stop));
    assert!(!state.answers(&ReaderEvent::Opened));
}

#[test]
fn a_dropped_receiver_stops_the_reader() {
    let (state, action) = walk(vec![ReaderEvent::Opened, ReaderEvent::Published(false)]);
    assert_eq!(state, Reader::Stopped);
    assert!(matches!(action, ReaderAction::Stop));
    let (state, _) = walk(vec![
        ReaderEvent::OpenFailed("gone".to_owned()),
        ReaderEvent::Published(false),
    ]);
    assert_eq!(state, Reader::Stopped);
}

#[test]
fn session_failures_are_reported_with_their_reason() {
    let base = vec![
        ReaderEvent::Opened,
        ReaderEvent::Published(true),
        ReaderEvent::Awake(true),
    ];
    let mut send = base.clone();
    send.push(ReaderEvent::CommandArrived(false));
    send.push(ReaderEvent::SendFailed);
    let (state, action) = walk(send);
    assert_eq!(state, Reader::Publishing(Resume::Reconnect));
    assert!(matches!(
        action,
        ReaderAction::Publish(Notice::Disconnected(Reason::CommandNotDelivered))
    ));

    let mut peek = base.clone();
    peek.push(ReaderEvent::TimedOut);
    peek.push(ReaderEvent::PeekFailed("broken pipe".to_owned()));
    match walk(peek).1 {
        ReaderAction::Publish(Notice::Disconnected(Reason::Pipe(message))) => {
            assert_eq!(message, "broken pipe")
        }
        other => panic!("unexpected {other:?}"),
    }

    let mut receive = base;
    receive.push(ReaderEvent::TimedOut);
    receive.push(ReaderEvent::Pending(true));
    receive.push(ReaderEvent::ReceiveFailed("bad frame".to_owned()));
    match walk(receive).1 {
        ReaderAction::Publish(Notice::Disconnected(Reason::Pipe(message))) => {
            assert_eq!(message, "bad frame")
        }
        other => panic!("unexpected {other:?}"),
    }
}

#[test]
fn an_event_that_answers_another_action_is_refused() {
    let (state, _) = Reader::start();
    assert!(!state.answers(&ReaderEvent::Sent));
    assert!(!state.answers(&ReaderEvent::Published(true)));
    assert!(state.answers(&ReaderEvent::OpenFailed(String::new())));
}

#[test]
fn a_reconnected_session_is_announced_again_before_its_messages() {
    let events = vec![
        ReaderEvent::Opened,
        ReaderEvent::Published(true),
        ReaderEvent::Awake(true),
        ReaderEvent::TimedOut,
        ReaderEvent::PeekFailed("broken pipe".to_owned()),
        ReaderEvent::Published(true),
        ReaderEvent::Paused,
        ReaderEvent::Opened,
        ReaderEvent::Published(true),
        ReaderEvent::Awake(true),
        ReaderEvent::TimedOut,
        ReaderEvent::Pending(true),
        ReaderEvent::Received,
    ];
    let (mut state, mut action) = Reader::start();
    let mut actions = vec![format!("{action:?}")];
    for event in events {
        assert!(state.answers(&event));
        let next = state.step(event);
        state = next.0;
        action = next.1;
        actions.push(format!("{action:?}"));
    }
    let message = actions.iter().rposition(|a| a == "Publish(Message)").unwrap();
    let connected = actions.iter().rposition(|a| a == "Publish(Connected)").unwrap();
    let connect = actions.iter().rposition(|a| a == "Connect").unwrap();
    assert_eq!(message, actions.len() - 1);
    assert!(connect < connected && connected < message);
    assert_eq!(state, Reader::Publishing(Resume::Session));
}
