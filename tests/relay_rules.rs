use tcp_relay::{
    classify_bind_failure, classify_connect_failure, parse_port, port_argument, AcceptOutcome,
    ClientAction, ClientSession, ConnectionHandler, ExitReason, HandlerAction, IoFailure,
    Listener, ListenerAction, PortError, StartupError, EXIT_FAILURE, EXIT_OK,
};

#[test]
fn port_parses_decimal_text() {
    assert_eq!(parse_port(b"80"), Ok(80));
    assert_eq!(parse_port(b"0"), Ok(0));
    assert_eq!(parse_port(b"65535"), Ok(65535));
    assert_eq!(parse_port(b"007"), Ok(7));
}

#[test]
fn port_rejects_out_of_range() {
    assert_eq!(parse_port(b"65536"), Err(PortError::OutOfRange));
    assert_eq!(parse_port(b"99999999999999999999"), Err(PortError::OutOfRange));
}

#[test]
fn port_rejects_non_numeric() {
    assert_eq!(parse_port(b""), Err(PortError::NotNumeric));
    assert_eq!(parse_port(b"8a"), Err(PortError::NotNumeric));
    assert_eq!(parse_port(b"-1"), Err(PortError::NotNumeric));
    assert_eq!(parse_port(b" 80"), Err(PortError::NotNumeric));
}

#[test]
fn absent_port_argument_means_system_chosen() {
    assert_eq!(port_argument(None), Ok(0));
    assert_eq!(port_argument(Some(&b"8080"[..])), Ok(8080));
    assert_eq!(port_argument(Some(&b"x"[..])), Err(PortError::NotNumeric));
}

#[test]
fn identities_follow_acceptance_order() {
    let mut listener = Listener::new();
    let outcomes = [
        AcceptOutcome::Accepted,
        AcceptOutcome::Failed,
        AcceptOutcome::Accepted,
        AcceptOutcome::Failed,
        AcceptOutcome::Accepted,
    ];
    let mut ids = Vec::new();
    for o in outcomes {
        match listener.on_accept(o) {
            ListenerAction::Dispatch(id) => ids.push(id),
            ListenerAction::LogFailure => assert_eq!(o, AcceptOutcome::Failed),
            ListenerAction::Exhausted => panic!("identities exhausted"),
        }
    }
    assert_eq!(ids, vec![1, 2, 3]);
    assert_eq!(listener.issued(), 3);
}

#[test]
fn two_clients_get_ids_one_and_two() {
    let mut listener = Listener::new();
    let first = listener.on_accept(AcceptOutcome::Accepted);
    let second = listener.on_accept(AcceptOutcome::Accepted);
    assert_eq!(first, ListenerAction::Dispatch(1));
    assert_eq!(second, ListenerAction::Dispatch(2));

    let mut h1 = ConnectionHandler::new(1);
    let mut h2 = ConnectionHandler::new(2);
    match h1.on_read(Ok(b"from one\n".to_vec())) {
        HandlerAction::Report { id, data } => {
            assert_eq!(id, 1);
            assert_eq!(data, b"from one\n".to_vec());
        }
        other => panic!("unexpected {:?}", other),
    }
    match h2.on_read(Ok(b"from two\n".to_vec())) {
        HandlerAction::Report { id, data } => {
            assert_eq!(id, 2);
            assert_eq!(data, b"from two\n".to_vec());
        }
        other => panic!("unexpected {:?}", other),
    }
}

#[test]
fn hello_is_reported_under_first_identity() {
    let mut listener = Listener::new();
    let id = match listener.on_accept(AcceptOutcome::Accepted) {
        ListenerAction::Dispatch(id) => id,
        other => panic!("unexpected {:?}", other),
    };
    let mut session = ClientSession::new();
    let sent = match session.on_input(b"hello\n".to_vec()) {
        ClientAction::Send(bytes) => bytes,
        other => panic!("unexpected {:?}", other),
    };
    assert_eq!(sent, b"hello\n".to_vec());
    assert!(matches!(session.on_write(Ok(())), ClientAction::ReadLine));

    let mut handler = ConnectionHandler::new(id);
    match handler.on_read(Ok(sent)) {
        HandlerAction::Report { id, data } => {
            assert_eq!(id, 1);
            assert_eq!(data, b"hello\n".to_vec());
        }
        other => panic!("unexpected {:?}", other),
    }
    assert!(handler.is_open());
}

#[test]
fn clean_close_ends_only_that_handler() {
    let mut listener = Listener::new();
    let _ = listener.on_accept(AcceptOutcome::Accepted);
    let _ = listener.on_accept(AcceptOutcome::Accepted);
    let mut h1 = ConnectionHandler::new(1);
    let mut h2 = ConnectionHandler::new(2);
    assert!(matches!(h1.on_read(Ok(Vec::new())), HandlerAction::Finish));
    assert!(!h1.is_open());
    assert!(h2.is_open());
    assert!(matches!(h2.on_read(Ok(b"x".to_vec())), HandlerAction::Report { id: 2, .. }));
    assert_eq!(listener.on_accept(AcceptOutcome::Accepted), ListenerAction::Dispatch(3));
}

#[test]
fn reset_is_reported_as_lost() {
    let mut h1 = ConnectionHandler::new(4);
    let mut h2 = ConnectionHandler::new(5);
    assert!(matches!(
        h1.on_read(Err(IoFailure::ConnectionReset)),
        HandlerAction::Lost { id: 4 }
    ));
    assert!(!h1.is_open());
    assert_eq!(h1.id(), 4);
    assert!(h2.is_open());
    assert!(matches!(h2.on_read(Ok(b"still here".to_vec())), HandlerAction::Report { id: 5, .. }));
}

#[test]
fn other_read_error_ends_handler_with_report() {
    let mut h = ConnectionHandler::new(9);
    assert!(matches!(h.on_read(Err(IoFailure::Other)), HandlerAction::Fail { id: 9 }));
    assert!(!h.is_open());
}

#[test]
fn stopped_handler_is_never_resumed() {
    let mut h = ConnectionHandler::new(3);
    assert!(matches!(h.on_read(Ok(Vec::new())), HandlerAction::Finish));
    assert!(matches!(h.on_read(Ok(b"late".to_vec())), HandlerAction::Finish));
    assert!(matches!(h.on_read(Err(IoFailure::ConnectionReset)), HandlerAction::Finish));
    assert!(!h.is_open());
}

#[test]
fn chunks_are_reported_byte_for_byte() {
    let mut h = ConnectionHandler::new(1);
    let mut received = Vec::new();
    for chunk in [b"he".to_vec(), b"llo\nwor".to_vec(), b"ld\n".to_vec()] {
        match h.on_read(Ok(chunk)) {
            HandlerAction::Report { id, data } => {
                assert_eq!(id, 1);
                received.extend(data);
            }
            other => panic!("unexpected {:?}", other),
        }
    }
    assert_eq!(received, b"hello\nworld\n".to_vec());
}

#[test]
fn client_sends_each_line_as_typed() {
    let mut session = ClientSession::new();
    let lines = [b"one\n".to_vec(), b"two\n".to_vec(), b"three\n".to_vec()];
    let mut writes = Vec::new();
    for line in lines.iter() {
        match session.on_input(line.clone()) {
            ClientAction::Send(bytes) => writes.push(bytes),
            other => panic!("unexpected {:?}", other),
        }
        assert!(matches!(session.on_write(Ok(())), ClientAction::ReadLine));
    }
    assert_eq!(writes, lines.to_vec());
    assert_eq!(session.ended(), None);
}

#[test]
fn client_end_of_input_exits_cleanly() {
    let mut session = ClientSession::new();
    match session.on_input(Vec::new()) {
        ClientAction::Exit(reason) => {
            assert_eq!(reason, ExitReason::EndOfInput);
            assert_eq!(reason.exit_code(), EXIT_OK);
        }
        other => panic!("unexpected {:?}", other),
    }
    assert_eq!(session.ended(), Some(ExitReason::EndOfInput));
    assert!(matches!(
        session.on_input(b"after\n".to_vec()),
        ClientAction::Exit(ExitReason::EndOfInput)
    ));
}

#[test]
fn client_reset_is_connection_lost() {
    let mut session = ClientSession::new();
    let _ = session.on_input(b"hi\n".to_vec());
    match session.on_write(Err(IoFailure::ConnectionReset)) {
        ClientAction::Exit(reason) => {
            assert_eq!(reason, ExitReason::ConnectionLost);
            assert_eq!(reason.exit_code(), EXIT_FAILURE);
        }
        other => panic!("unexpected {:?}", other),
    }
}

#[test]
fn client_other_write_error_fails() {
    let mut session = ClientSession::new();
    let _ = session.on_input(b"hi\n".to_vec());
    match session.on_write(Err(IoFailure::Other)) {
        ClientAction::Exit(reason) => {
            assert_eq!(reason, ExitReason::WriteFailed);
            assert_eq!(reason.exit_code(), 1);
        }
        other => panic!("unexpected {:?}", other),
    }
    assert!(matches!(session.on_write(Ok(())), ClientAction::Exit(ExitReason::WriteFailed)));
}

#[test]
fn bind_failures_are_classified() {
    assert_eq!(classify_bind_failure(IoFailure::InvalidInput), StartupError::InvalidAddress);
    assert_eq!(classify_bind_failure(IoFailure::AddrInUse), StartupError::AddressInUse);
    assert_eq!(classify_bind_failure(IoFailure::Other), StartupError::Io);
    assert_eq!(classify_bind_failure(IoFailure::ConnectionReset), StartupError::Io);
    assert_eq!(StartupError::AddressInUse.exit_code(), 1);
}

#[test]
fn connect_failures_are_classified() {
    assert_eq!(classify_connect_failure(IoFailure::InvalidInput), StartupError::InvalidAddress);
    assert_eq!(classify_connect_failure(IoFailure::Other), StartupError::Io);
    assert_eq!(classify_connect_failure(IoFailure::AddrInUse), StartupError::Io);
    assert_eq!(StartupError::Io.exit_code(), 1);
}
