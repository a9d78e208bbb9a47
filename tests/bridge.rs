use player_bridge::{BridgeError, Command, CommandBridge, HandleState, Message, SettleError};

fn run(b: &mut CommandBridge) -> (u64, Command) {
    match b.next_message() {
        Some(Message::Run { ticket, command }) => (ticket, command),
        other => panic!("expected a command, got {:?}", other),
    }
}

#[test]
fn load_track_reaches_worker_once() {
    let mut b = CommandBridge::new();
    let cmd = Command::load_track("track:123".to_string(), true, 0).unwrap();
    let ticket = b.send(cmd).unwrap();
    let (t, c) = run(&mut b);
    assert_eq!(t, ticket);
    assert_eq!(
        c,
        Command::LoadTrack { uri: "track:123".to_string(), auto_play: true, start_ms: 0 }
    );
    assert_eq!(b.next_message(), None);
    assert_eq!(b.handle_state(ticket), Some(HandleState::Pending));
    assert_eq!(b.settle(ticket, true), Ok(()));
    assert_eq!(b.handle_state(ticket), Some(HandleState::Fulfilled));
    assert_eq!(b.next_message(), None);
}

#[test]
fn commands_run_in_send_order() {
    let mut b = CommandBridge::new();
    let cmds = vec![
        Command::Play,
        Command::Seek { position_ms: 1000 },
        Command::Pause,
        Command::SetVolume { level: 12 },
        Command::GetToken { scopes: "streaming".to_string() },
        Command::Stop,
    ];
    for (i, c) in cmds.iter().enumerate() {
        assert_eq!(b.send(c.clone()), Ok(i as u64));
    }
    let mut seen = Vec::new();
    for i in 0..cmds.len() {
        let (t, c) = run(&mut b);
        assert_eq!(t, i as u64);
        seen.push(c);
        assert_eq!(b.settle(t, i % 2 == 0), Ok(()));
    }
    assert_eq!(seen, cmds);
    assert_eq!(b.next_message(), None);
}

#[test]
fn worker_waits_for_settlement_before_next_command() {
    let mut b = CommandBridge::new();
    b.send(Command::Play).unwrap();
    b.send(Command::Pause).unwrap();
    let (t, _) = run(&mut b);
    assert_eq!(b.next_message(), None);
    b.settle(t, true).unwrap();
    let (t2, c2) = run(&mut b);
    assert_eq!(t2, 1);
    assert_eq!(c2, Command::Pause);
}

#[test]
fn handle_settled_once_even_on_failure() {
    let mut b = CommandBridge::new();
    let t = b.send(Command::Seek { position_ms: 5 }).unwrap();
    run(&mut b);
    assert_eq!(b.settle(t, false), Ok(()));
    assert_eq!(b.handle_state(t), Some(HandleState::Rejected));
    assert_eq!(b.settle(t, true), Err(SettleError::AlreadySettled));
    assert_eq!(b.settle(t, false), Err(SettleError::AlreadySettled));
    assert_eq!(b.handle_state(t), Some(HandleState::Rejected));
}

#[test]
fn settle_refuses_unknown_and_queued_tickets() {
    let mut b = CommandBridge::new();
    assert_eq!(b.settle(0, true), Err(SettleError::UnknownTicket));
    let t = b.send(Command::Play).unwrap();
    assert_eq!(b.settle(t, true), Err(SettleError::NotStarted));
    assert_eq!(b.handle_state(t), Some(HandleState::Pending));
    assert_eq!(b.handle_state(7), None);
}

#[test]
fn close_twice_reports_queue_closed() {
    let mut b = CommandBridge::new();
    assert_eq!(b.close(), Ok(()));
    assert_eq!(b.close(), Err(BridgeError::QueueClosed));
    assert!(b.is_closed());
}

#[test]
fn send_after_close_is_refused() {
    let mut b = CommandBridge::new();
    b.close().unwrap();
    assert_eq!(b.send(Command::Play), Err(BridgeError::QueueClosed));
    assert_eq!(b.next_message(), Some(Message::Close));
    assert!(b.is_stopped());
    assert_eq!(b.send(Command::Pause), Err(BridgeError::QueueClosed));
    assert_eq!(b.next_message(), Some(Message::Close));
}

#[test]
fn commands_before_close_still_run() {
    let mut b = CommandBridge::new();
    let t0 = b.send(Command::Play).unwrap();
    let t1 = b.send(Command::Pause).unwrap();
    b.close().unwrap();
    assert_eq!(b.send(Command::Stop), Err(BridgeError::QueueClosed));
    let (a, ca) = run(&mut b);
    assert_eq!((a, ca), (t0, Command::Play));
    b.settle(a, true).unwrap();
    let (c, cc) = run(&mut b);
    assert_eq!((c, cc), (t1, Command::Pause));
    b.settle(c, false).unwrap();
    assert_eq!(b.next_message(), Some(Message::Close));
    assert!(b.is_stopped());
    assert_eq!(b.handle_state(t0), Some(HandleState::Fulfilled));
    assert_eq!(b.handle_state(t1), Some(HandleState::Rejected));
}

#[test]
fn abandon_rejects_pending_in_order() {
    let mut b = CommandBridge::new();
    let t0 = b.send(Command::Play).unwrap();
    let t1 = b.send(Command::Pause).unwrap();
    let t2 = b.send(Command::Stop).unwrap();
    let t3 = b.send(Command::Play).unwrap();
    run(&mut b);
    b.settle(t0, true).unwrap();
    run(&mut b);
    assert_eq!(b.abandon(), vec![t1, t2, t3]);
    assert_eq!(b.handle_state(t0), Some(HandleState::Fulfilled));
    assert_eq!(b.handle_state(t1), Some(HandleState::Rejected));
    assert_eq!(b.handle_state(t2), Some(HandleState::Rejected));
    assert_eq!(b.handle_state(t3), Some(HandleState::Rejected));
    assert_eq!(b.send(Command::Play), Err(BridgeError::WorkerGone));
    assert_eq!(b.close(), Err(BridgeError::QueueClosed));
    assert_eq!(b.next_message(), Some(Message::Close));
    assert_eq!(b.abandon(), Vec::<u64>::new());
}
