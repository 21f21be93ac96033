use server::app_state::ContextMessage;
use server::app_state::MessageType;
use server::websocket_server::ConnectionRole;
use server::websocket_server::PairAction;
use server::websocket_server::PairEvent;
use server::websocket_server::SessionRegistry;
use server::websocket_server::choose_session_id;
use server::websocket_server::handle_cli_fe_pair_event;
use server::websocket_server::session_id_from_first_message;

fn is_v4(value: u128) -> bool {
    (value >> 76) & 0xf == 4 && (value >> 62) & 3 == 2
}

#[test]
fn session_id_read_from_first_message() {
    assert_eq!(
        session_id_from_first_message(Some("550e8400-e29b-41d4-a716-446655440000")),
        0x550e8400_e29b_41d4_a716_446655440000
    );
    assert_eq!(
        session_id_from_first_message(Some("550e8400e29b41d4a716446655440000")),
        0x550e8400_e29b_41d4_a716_446655440000
    );
}

#[test]
fn session_id_drawn_when_first_message_is_no_uuid() {
    let a = session_id_from_first_message(Some("hello"));
    let b = session_id_from_first_message(None);
    assert!(is_v4(a));
    assert!(is_v4(b));
    assert_ne!(a, b);
}

#[test]
fn session_id_choice() {
    assert_eq!(choose_session_id(Some(5), 9), 5);
    assert_eq!(choose_session_id(None, 9), 9);
}

#[test]
fn cli_then_frontend_are_paired() {
    let mut registry: SessionRegistry<&str> = SessionRegistry::new();
    let first = registry.connect(1, "cli");
    assert_eq!(first.role, ConnectionRole::Cli);
    assert!(first.paired.is_none());
    assert!(registry.is_pending(1));
    let second = registry.connect(1, "frontend");
    assert_eq!(second.role, ConnectionRole::Frontend);
    let pair = second.paired.unwrap();
    assert_eq!(pair.cli_ws, Some("cli"));
    assert_eq!(pair.fe_ws, Some("frontend"));
    assert!(!registry.is_pending(1));
}

#[test]
fn sessions_do_not_mix() {
    let mut registry: SessionRegistry<u32> = SessionRegistry::new();
    assert!(registry.connect(1, 10).paired.is_none());
    assert!(registry.connect(2, 20).paired.is_none());
    let pair = registry.connect(2, 21).paired.unwrap();
    assert_eq!((pair.cli_ws, pair.fe_ws), (Some(20), Some(21)));
    assert!(registry.is_pending(1));
    let pair = registry.connect(1, 11).paired.unwrap();
    assert_eq!((pair.cli_ws, pair.fe_ws), (Some(10), Some(11)));
    let again = registry.connect(1, 12);
    assert_eq!(again.role, ConnectionRole::Cli);
    assert!(again.paired.is_none());
}

fn message(kind: MessageType) -> ContextMessage {
    ContextMessage { message_type: kind, content: "text".to_string(), timestamp: None }
}

#[test]
fn cancel_stops_the_session() {
    assert!(matches!(
        handle_cli_fe_pair_event(PairEvent::<String>::FrontendMessage(message(MessageType::UserCancelCmd))),
        PairAction::StopSession
    ));
}

#[test]
fn other_frontend_messages_start_chat_actions() {
    match handle_cli_fe_pair_event(PairEvent::<String>::FrontendMessage(message(MessageType::UserPrompt))) {
        PairAction::StartChatAction(m) => {
            assert_eq!(m.message_type, MessageType::UserPrompt);
            assert_eq!(m.content, "text");
        }
        other => panic!("unexpected {:?}", other),
    }
}

#[test]
fn cli_messages_are_forwarded_and_errors_ignored() {
    match handle_cli_fe_pair_event(PairEvent::CliMessage("ls output".to_string())) {
        PairAction::ForwardToFrontend(m) => assert_eq!(m, "ls output"),
        other => panic!("unexpected {:?}", other),
    }
    assert!(matches!(handle_cli_fe_pair_event(PairEvent::<String>::CliUnreadable), PairAction::Ignore));
    assert!(matches!(
        handle_cli_fe_pair_event(PairEvent::<String>::FrontendUnreadable),
        PairAction::Ignore
    ));
}
