use bhbadge2024::commands::{Command, ReadErrorKind, WsAction, WsEvent, handle_ws_event};
use bhbadge2024::frame::Pixel;
use bhbadge2024::ws2812b::Ws2812b;

fn drained_store() -> Ws2812b {
    let mut ws = Ws2812b::new();
    assert!(ws.snapshot_if_changed().is_some());
    ws
}

#[test]
fn change_color_writes_pixel_and_requests_render() {
    let mut ws = drained_store();
    let event = WsEvent::Binary {
        command: Some(Command::ChangeColor { index: 3, rgb: (9, 8, 7) }),
        consumed: 20,
        len: 20,
    };
    assert_eq!(handle_ws_event(&mut ws, event), WsAction::Ignore);
    let mut snap = ws.snapshot_if_changed().expect("a render request");
    assert_eq!(snap.raw_mut()[3], Pixel { g: 8, r: 9, b: 7 });
}

#[test]
fn change_color_with_off_strip_index_is_only_logged() {
    let mut ws = drained_store();
    let event = WsEvent::Binary {
        command: Some(Command::ChangeColor { index: 16, rgb: (1, 2, 3) }),
        consumed: 20,
        len: 20,
    };
    assert_eq!(handle_ws_event(&mut ws, event), WsAction::LogUnexpected);
    assert!(ws.snapshot_if_changed().is_none());
}

#[test]
fn change_color_with_trailing_bytes_is_only_logged() {
    let mut ws = drained_store();
    let event = WsEvent::Binary {
        command: Some(Command::ChangeColor { index: 0, rgb: (1, 2, 3) }),
        consumed: 20,
        len: 21,
    };
    assert_eq!(handle_ws_event(&mut ws, event), WsAction::LogUnexpected);
    assert!(ws.snapshot_if_changed().is_none());
}

#[test]
fn query_colors_replies_in_caller_order() {
    let mut ws = drained_store();
    ws.set_pixel(5, (40, 100, 255));
    assert!(ws.snapshot_if_changed().is_some());
    let event = WsEvent::Binary {
        command: Some(Command::QueryColors),
        consumed: 4,
        len: 4,
    };
    match handle_ws_event(&mut ws, event) {
        WsAction::SendColors { colors } => {
            assert_eq!(colors[5], (40, 100, 255));
            assert_eq!(colors[0], (0, 0, 0));
        }
        other => panic!("expected SendColors, got {:?}", other),
    }
    // The query went through the same guarded access as edits, which raises
    // the notifier.
    assert!(ws.snapshot_if_changed().is_some());
}

#[test]
fn undecodable_binary_is_only_logged() {
    let mut ws = drained_store();
    let event = WsEvent::Binary { command: None, consumed: 0, len: 5 };
    assert_eq!(handle_ws_event(&mut ws, event), WsAction::LogParseError);
    assert!(ws.snapshot_if_changed().is_none());
}

#[test]
fn text_messages_close_the_session() {
    let mut ws = drained_store();
    assert_eq!(
        handle_ws_event(&mut ws, WsEvent::Text),
        WsAction::CloseConnection { code: Some(1003) }
    );
    assert!(ws.snapshot_if_changed().is_none());
}

#[test]
fn close_ping_pong() {
    let mut ws = drained_store();
    assert_eq!(
        handle_ws_event(&mut ws, WsEvent::Close),
        WsAction::CloseConnection { code: None }
    );
    assert_eq!(handle_ws_event(&mut ws, WsEvent::Ping), WsAction::SendPong);
    assert_eq!(handle_ws_event(&mut ws, WsEvent::Pong), WsAction::Ignore);
    assert!(ws.snapshot_if_changed().is_none());
}

#[test]
fn read_errors_map_to_protocol_codes() {
    let mut ws = drained_store();
    let cases = [
        (ReadErrorKind::Frame, WsAction::CloseConnection { code: Some(1002) }),
        (ReadErrorKind::StartsWithContinuation, WsAction::CloseConnection { code: Some(1002) }),
        (ReadErrorKind::UnexpectedStart, WsAction::CloseConnection { code: Some(1002) }),
        (ReadErrorKind::ReservedOpcode, WsAction::CloseConnection { code: Some(1003) }),
        (ReadErrorKind::NotUtf8, WsAction::CloseConnection { code: Some(1007) }),
        (ReadErrorKind::Io, WsAction::PropagateError),
    ];
    for (kind, expected) in cases {
        assert_eq!(handle_ws_event(&mut ws, WsEvent::ReadError { kind }), expected);
    }
    assert!(ws.snapshot_if_changed().is_none());
}
