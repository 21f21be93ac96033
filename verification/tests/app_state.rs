use server::app_state::ChatState;
use server::app_state::CliCommandType;
use server::app_state::ContextMessage;
use server::app_state::MessageType;
use server::app_state::UserChatPreferences;
use server::app_state::render_context_line;
use server::timestamp::Timestamp;

fn instant() -> Timestamp {
    Timestamp::from_unix(1431648000, 0).unwrap()
}

#[test]
fn timestamp_prints_as_chrono_does() {
    assert_eq!(instant().to_text(), "2015-05-15 00:00:00 UTC");
    let half = Timestamp::from_unix(1431648000, 500_000_000).unwrap();
    assert_eq!(half.to_text(), "2015-05-15 00:00:00.500 UTC");
    assert_eq!(half.secs(), 1431648000);
    assert_eq!(half.nanos(), 500_000_000);
}

#[test]
fn timestamp_refuses_invalid_nanoseconds() {
    assert!(Timestamp::from_unix(1431648000, 2_000_000_000).is_none());
    assert!(Timestamp::from_unix(i64::MAX, 0).is_none());
}

#[test]
fn timestamp_now_is_printable() {
    let now = Timestamp::now();
    assert!(now.secs() > 1_600_000_000);
    assert!(now.to_text().ends_with(" UTC"));
}

#[test]
fn default_preferences() {
    let prefs = UserChatPreferences::default();
    assert_eq!(prefs.depth, 5);
    assert!(prefs.autorun);
}

#[test]
fn cli_command_types_become_message_types() {
    assert_eq!(MessageType::from(CliCommandType::ReadOnlyCliCommand), MessageType::ReadOnlyCliCommand);
    assert_eq!(
        MessageType::from(CliCommandType::WriteExecuteCliCommand),
        MessageType::WriteExecuteCliCommand
    );
}

#[test]
fn labels_of_message_types() {
    assert_eq!(MessageType::UserPrompt.label(), "User");
    assert_eq!(MessageType::AssistantResponse.label(), "Assistant");
    assert_eq!(MessageType::ReadOnlyCliCommand.label(), "ReadOnlyCliCommand");
    assert_eq!(MessageType::WriteExecuteCliCommand.label(), "WriteExecuteCliCommand");
    assert_eq!(MessageType::CliOutput.label(), "Output");
    assert_eq!(MessageType::UserCancelCmd.label(), "Cancel");
    assert_eq!(MessageType::UserAckCmd.label(), "Ack");
}

#[test]
fn new_chat_state_is_empty() {
    let state = ChatState::new(42);
    assert_eq!(state.chat_id, 42);
    assert!(state.chat_context.is_empty());
    assert_eq!(state.user_prefereces.depth, 5);
    assert!(state.user_prefereces.autorun);
    assert_eq!(state.get_full_context().unwrap(), "");
}

#[test]
fn rendered_line_without_timestamp() {
    let message = ContextMessage {
        message_type: MessageType::CliOutput,
        content: "total 0".to_string(),
        timestamp: None,
    };
    assert_eq!(render_context_line(&message), "[No timestamp] Output: total 0");
}

#[test]
fn full_context_joins_lines_in_order() {
    let mut state = ChatState::new(1);
    state.add_message_at(MessageType::UserPrompt, "list files".to_string(), instant());
    assert_eq!(state.get_full_context().unwrap(), "[2015-05-15 00:00:00 UTC] User: list files");
    state.add_message_at(MessageType::AssistantResponse, "run ls".to_string(), instant());
    state.chat_context.push(ContextMessage {
        message_type: MessageType::CliOutput,
        content: "a.txt".to_string(),
        timestamp: None,
    });
    assert_eq!(
        state.get_full_context().unwrap(),
        "[2015-05-15 00:00:00 UTC] User: list files\n\
         [2015-05-15 00:00:00 UTC] Assistant: run ls\n\
         [No timestamp] Output: a.txt"
    );
}

#[test]
fn adding_a_message_appends_its_line() {
    let mut state = ChatState::new(7);
    state.add_message_at(MessageType::UserPrompt, "hi".to_string(), instant());
    let before = state.get_full_context().unwrap();
    assert!(state.add_message_to_state(MessageType::UserAckCmd, "ok".to_string()).is_ok());
    assert_eq!(state.chat_context.len(), 2);
    assert_eq!(state.chat_context[0].content, "hi");
    let last = &state.chat_context[1];
    assert_eq!(last.message_type, MessageType::UserAckCmd);
    assert_eq!(last.content, "ok");
    let stamp = last.timestamp.expect("a timestamp");
    let after = state.get_full_context().unwrap();
    assert_eq!(after, format!("{}\n[{}] Ack: ok", before, stamp.to_text()));
    assert_eq!(state.chat_id, 7);
}

#[test]
fn a_run_of_appends_keeps_the_log_and_adds_in_order() {
    let mut state = ChatState::new(3);
    state.add_message_at(MessageType::UserPrompt, "first".to_string(), instant());
    let calls = [
        (MessageType::UserPrompt, "a"),
        (MessageType::AssistantResponse, "b"),
        (MessageType::CliOutput, "c"),
    ];
    for (kind, text) in calls.iter() {
        assert!(state.add_message_to_state(*kind, text.to_string()).is_ok());
    }
    assert_eq!(state.chat_context.len(), 4);
    assert_eq!(state.chat_context[0].content, "first");
    for (i, (kind, text)) in calls.iter().enumerate() {
        let m = &state.chat_context[i + 1];
        assert_eq!(m.message_type, *kind);
        assert_eq!(m.content, *text);
        assert!(m.timestamp.is_some());
    }
}

#[test]
fn a_model_call_records_prompt_then_completion() {
    let mut state = ChatState::new(9);
    let prompt = ContextMessage {
        message_type: MessageType::UserPrompt,
        content: "list files".to_string(),
        timestamp: None,
    };
    assert!(state.record_model_prompt(&prompt).is_ok());
    let reply = r#"{"choices":[{"message":{"content":"ls"}}]}"#;
    assert_eq!(state.record_model_reply(reply).unwrap(), "ls");
    assert_eq!(state.chat_context.len(), 2);
    assert_eq!(state.chat_context[0].message_type, MessageType::UserPrompt);
    assert_eq!(state.chat_context[0].content, "list files");
    assert!(state.chat_context[0].timestamp.is_some());
    assert_eq!(state.chat_context[1].message_type, MessageType::AssistantResponse);
    assert_eq!(state.chat_context[1].content, "ls");
}

#[test]
fn a_reply_that_is_not_json_records_nothing() {
    let mut state = ChatState::new(9);
    state.add_message_at(MessageType::UserPrompt, "hi".to_string(), instant());
    assert!(state.record_model_reply("oops").is_err());
    assert_eq!(state.chat_context.len(), 1);
    assert_eq!(state.record_model_reply("{}").unwrap(), "No response from OpenAI");
    assert_eq!(state.chat_context.len(), 2);
    assert_eq!(state.chat_context[1].content, "No response from OpenAI");
}
