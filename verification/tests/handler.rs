use server::app_state::ChatState;
use server::app_state::CliCommandType;
use server::app_state::ContextMessage;
use server::app_state::MessageType;
use server::handler::ChatActionCommand;
use server::handler::ChatActionEvent;
use server::handler::ChatActionPhase;
use server::handler::cli_command;
use server::handler::extract_command_from_frontend_message;
use server::handler::handle_chat_action;
use server::handler::is_success;
use server::handler::openai_message;

fn prompt(text: &str) -> ContextMessage {
    ContextMessage { message_type: MessageType::UserPrompt, content: text.to_string(), timestamp: None }
}

#[test]
fn assistant_reply_from_outcome() {
    let ok = openai_message(Ok("hello".to_string()));
    assert_eq!(ok.output, "hello");
    assert_eq!(ok.status, "success");
    let err = openai_message(Err("timeout".to_string()));
    assert_eq!(err.output, "timeout");
    assert_eq!(err.status, "error");
}

#[test]
fn cli_reply_from_outcome() {
    let ok = cli_command(Ok("a.txt".to_string()));
    assert_eq!(ok.output, "a.txt");
    assert_eq!(ok.status, "success");
    assert!(is_success(&ok));
    let err = cli_command(Err("not found".to_string()));
    assert_eq!(err.output, "not found");
    assert_eq!(err.status, "error");
    assert!(!is_success(&err));
}

#[test]
fn frontend_text_becomes_write_command() {
    let command = extract_command_from_frontend_message("rm -rf build".to_string()).unwrap();
    assert_eq!(command.command, "rm -rf build");
    assert_eq!(command.command_type, CliCommandType::WriteExecuteCliCommand);
}

fn reply(content: &str) -> Result<String, String> {
    Ok(format!(r#"{{"choices":[{{"message":{{"content":"{}"}}}}]}}"#, content))
}

#[test]
fn chat_action_with_successful_command_asks_twice() {
    let mut state = ChatState::new(1);
    let (mut action, first) = handle_chat_action(&prompt("ls"));
    match first {
        ChatActionCommand::AskAssistant(message) => {
            assert_eq!(message.content, "ls");
            assert_eq!(message.message_type, MessageType::UserPrompt);
        }
        other => panic!("unexpected {:?}", other),
    }
    assert_eq!(action.phase(), ChatActionPhase::AwaitingReply);
    let second = action.step(&mut state, ChatActionEvent::AssistantReplied(reply("run ls")));
    match second {
        ChatActionCommand::RunCli(command) => {
            assert_eq!(command.command, "ls");
            assert_eq!(command.command_type, CliCommandType::WriteExecuteCliCommand);
        }
        other => panic!("unexpected {:?}", other),
    }
    assert_eq!(state.chat_context.len(), 2);
    let third = action.step(&mut state, ChatActionEvent::CliFinished(cli_command(Ok("a.txt".to_string()))));
    match third {
        ChatActionCommand::AskAssistant(message) => {
            assert_eq!(message.message_type, MessageType::CliOutput);
            assert_eq!(message.content, "a.txt");
            assert!(message.timestamp.is_some());
        }
        other => panic!("unexpected {:?}", other),
    }
    assert_eq!(state.chat_context.len(), 2);
    assert_eq!(action.phase(), ChatActionPhase::AwaitingFollowUpReply);
    let fourth = action.step(&mut state, ChatActionEvent::AssistantReplied(reply("done")));
    assert!(matches!(fourth, ChatActionCommand::Finish));
    assert_eq!(action.phase(), ChatActionPhase::Finished);
    let log: Vec<(MessageType, &str)> =
        state.chat_context.iter().map(|m| (m.message_type, m.content.as_str())).collect();
    assert_eq!(
        log,
        vec![
            (MessageType::UserPrompt, "ls"),
            (MessageType::AssistantResponse, "run ls"),
            (MessageType::CliOutput, "a.txt"),
            (MessageType::AssistantResponse, "done"),
        ]
    );
    assert!(state.chat_context.iter().all(|m| m.timestamp.is_some()));
    let fifth = action.step(&mut state, ChatActionEvent::AssistantReplied(reply("again")));
    assert!(matches!(fifth, ChatActionCommand::Finish));
    assert_eq!(state.chat_context.len(), 4);
}

#[test]
fn chat_action_with_failed_call_and_command_keeps_only_the_prompt() {
    let mut state = ChatState::new(2);
    let (mut action, _) = handle_chat_action(&prompt("bogus"));
    let _ = action.step(&mut state, ChatActionEvent::AssistantReplied(Err("down".to_string())));
    assert_eq!(action.phase(), ChatActionPhase::AwaitingCliResult);
    let next = action.step(&mut state, ChatActionEvent::CliFinished(cli_command(Err("no such command".to_string()))));
    assert!(matches!(next, ChatActionCommand::Finish));
    assert_eq!(action.phase(), ChatActionPhase::Finished);
    assert_eq!(state.chat_context.len(), 1);
    assert_eq!(state.chat_context[0].message_type, MessageType::UserPrompt);
    assert_eq!(state.chat_context[0].content, "bogus");
}

#[test]
fn reply_that_is_not_json_records_only_the_prompt() {
    let mut state = ChatState::new(3);
    let (mut action, _) = handle_chat_action(&prompt("pwd"));
    let _ = action.step(&mut state, ChatActionEvent::AssistantReplied(Ok("<html>".to_string())));
    assert_eq!(state.chat_context.len(), 1);
    assert_eq!(action.phase(), ChatActionPhase::AwaitingCliResult);
}

#[test]
fn event_that_answers_nothing_ends_the_action() {
    let mut state = ChatState::new(4);
    let (mut action, _) = handle_chat_action(&prompt("ls"));
    let next = action.step(&mut state, ChatActionEvent::CliFinished(cli_command(Ok("x".to_string()))));
    assert!(matches!(next, ChatActionCommand::Finish));
    assert_eq!(action.phase(), ChatActionPhase::Finished);
    assert!(state.chat_context.is_empty());
}
