use firmware::restart::{Disconnected, EndpointFault, RestartHandler};
use firmware::types::WebSocketIncomingMessage;
use firmware::utils::{either_into_result, Either};
use firmware::web_socket::{next_action, SocketAction, SocketEvent, WEB_SOCKET_ERROR_REASON};
use firmware::net::captive_portal_url;

#[test]
fn restart_on_r_or_upper_r() {
    let h = RestartHandler::new();
    assert!(h.wants_restart(b"r"));
    assert!(h.wants_restart(b"R"));
    assert!(h.wants_restart(b"reset"));
    assert!(h.wants_restart(&[114]));
}

#[test]
fn no_restart_on_other_data() {
    let h = RestartHandler::new();
    assert!(!h.wants_restart(b""));
    assert!(!h.wants_restart(b"x"));
    assert!(!h.wants_restart(b" r"));
    assert!(!h.wants_restart(b"hello r"));
}

#[test]
fn disabled_endpoint_is_a_disconnect() {
    assert_eq!(Disconnected::from_endpoint_fault(EndpointFault::Disabled), Disconnected);
}

#[test]
fn either_gives_the_inner_result() {
    let a: Either<Result<u8, u8>, Result<u8, u8>> = Either::First(Ok(3));
    assert_eq!(either_into_result(a), Ok(3));
    let b: Either<Result<u8, u8>, Result<u8, u8>> = Either::Second(Err(7));
    assert_eq!(either_into_result(b), Err(7));
    let c: Either<Result<u8, u8>, Result<u8, u8>> = Either::Second(Ok(1));
    assert_eq!(either_into_result(c), Ok(1));
}

#[test]
fn note_requests_are_forwarded() {
    let m = WebSocketIncomingMessage::NoteOn(61);
    assert!(matches!(next_action(SocketEvent::Text(Some(m))), SocketAction::Forward(WebSocketIncomingMessage::NoteOn(61))));
    let m = WebSocketIncomingMessage::NoteOff(62);
    assert!(matches!(next_action(SocketEvent::Binary(Some(m))), SocketAction::Forward(WebSocketIncomingMessage::NoteOff(62))));
}

#[test]
fn undecodable_messages_idle_and_pongs_are_skipped() {
    assert!(matches!(next_action(SocketEvent::Text(None)), SocketAction::Continue));
    assert!(matches!(next_action(SocketEvent::Binary(None)), SocketAction::Continue));
    assert!(matches!(next_action(SocketEvent::Idle), SocketAction::Continue));
    assert!(matches!(next_action(SocketEvent::Pong), SocketAction::Continue));
}

#[test]
fn ping_is_answered_with_its_payload() {
    let payload = [1u8, 2, 3];
    match next_action(SocketEvent::Ping(&payload)) {
        SocketAction::SendPong(p) => assert_eq!(p, &[1u8, 2, 3]),
        _ => panic!("expected a pong"),
    }
}

#[test]
fn close_and_read_errors_end_the_session() {
    assert!(matches!(next_action(SocketEvent::Close), SocketAction::Close(None)));
    match next_action(SocketEvent::ReadFailed(1002)) {
        SocketAction::Close(Some((code, reason))) => {
            assert_eq!(code, 1002);
            assert_eq!(reason, "Websocket Error");
            assert_eq!(reason, WEB_SOCKET_ERROR_REASON);
        }
        _ => panic!("expected a close"),
    }
}

#[test]
fn captive_url_of_the_access_point() {
    assert_eq!(captive_portal_url([192, 168, 1, 1]), "http://192.168.1.1/");
    assert_eq!(captive_portal_url([10, 0, 0, 254]), "http://10.0.0.254/");
    assert_eq!(captive_portal_url([0, 0, 0, 0]), "http://0.0.0.0/");
}
