//! Replies from the assistant and the CLI, and the steps of a chat action.

use crate::app_state::appended_entries;
use crate::app_state::lemma_appended_entries_meaning;
use crate::app_state::lemma_appended_entries_compose;
use crate::app_state::ChatState;
use crate::app_state::CliCommandType;
use crate::app_state::ContextMessage;
use crate::app_state::MessageType;
use crate::chat::json_text_strings;
use crate::chat::reply_completion;
use crate::timestamp::Timestamp;
use vstd::prelude::*;

verus! {

/// What the assistant answered, with `status` either `success` or `error`.
#[derive(Debug)]
pub struct AssistantResponse {
    pub output: String,
    pub status: String,
}

/// What a CLI command printed, with `status` either `success` or `error`.
#[derive(Debug)]
pub struct CliResponse {
    pub output: String,
    pub status: String,
}

/// A command for the CLI to run, with the kind of access it needs.
#[derive(Debug)]
pub struct CliCommand {
    pub command_type: CliCommandType,
    pub command: String,
}

impl Clone for CliCommand {
    fn clone(&self) -> (r: CliCommand)
        ensures
            r == *self,
    {
        CliCommand { command_type: self.command_type, command: self.command.clone() }
    }
}

/// The status text of a reply that came back.
pub open spec fn success_status() -> Seq<char> {
    "success"@
}

/// The status text of a call that failed.
pub open spec fn error_status() -> Seq<char> {
    "error"@
}

/// The assistant's reply for the outcome of a call to the language model:
/// the completion with status `success`, or the error's text with status `error`.
pub fn openai_message(outcome: Result<String, String>) -> (r: AssistantResponse)
    ensures
        match outcome {
            Ok(output) => r.output == output && r.status@ == success_status(),
            Err(error) => r.output == error && r.status@ == error_status(),
        },
{
    match outcome {
        Ok(output) => AssistantResponse { output, status: String::from_str("success") },
        Err(error) => AssistantResponse { output: error, status: String::from_str("error") },
    }
}

/// The CLI's reply for the outcome of running a command: its output with
/// status `success`, or the error's text with status `error`.
pub fn cli_command(outcome: Result<String, String>) -> (r: CliResponse)
    ensures
        match outcome {
            Ok(output) => r.output == output && r.status@ == success_status(),
            Err(error) => r.output == error && r.status@ == error_status(),
        },
{
    match outcome {
        Ok(output) => CliResponse { output, status: String::from_str("success") },
        Err(error) => CliResponse { output: error, status: String::from_str("error") },
    }
}

/// The command that a frontend message asks for: the whole text, run as a
/// command that may write and execute.
pub fn extract_command_from_frontend_message(command: String) -> (r: Option<CliCommand>)
    ensures
        r == Some(CliCommand { command_type: CliCommandType::WriteExecuteCliCommand, command }),
{
    let cmd = CliCommand { command_type: CliCommandType::WriteExecuteCliCommand, command };
    Some(cmd)
}

/// Whether a CLI reply reports success.
pub fn is_success(response: &CliResponse) -> (r: bool)
    ensures
        r == (response.status@ == success_status()),
{
    response.status == String::from_str("success")
}

/// Where a chat action stands.
#[derive(Clone, Copy, Debug, PartialEq, Eq, Structural)]
pub enum ChatActionPhase {
    /// The assistant has been asked about the triggering message.
    AwaitingReply,
    /// The CLI has been asked to run the command of the triggering message.
    AwaitingCliResult,
    /// The assistant has been asked about the CLI's output.
    AwaitingFollowUpReply,
    /// Nothing is left to do.
    Finished,
}

/// What came back from the work that a chat action asked for.
#[derive(Debug)]
pub enum ChatActionEvent {
    /// The request to the language model came back with this reply body, or
    /// failed with this error.
    AssistantReplied(Result<String, String>),
    /// The CLI answered the command.
    CliFinished(CliResponse),
}

/// The work that a chat action asks for next.
#[derive(Debug)]
pub enum ChatActionCommand {
    /// Ask the assistant about this message.
    AskAssistant(ContextMessage),
    /// Have the CLI run this command.
    RunCli(CliCommand),
    /// The action is over.
    Finish,
}

/// How many more requests a chat action in this phase may still make.
pub open spec fn steps_left(phase: ChatActionPhase) -> nat {
    match phase {
        ChatActionPhase::AwaitingReply => 3,
        ChatActionPhase::AwaitingCliResult => 2,
        ChatActionPhase::AwaitingFollowUpReply => 1,
        ChatActionPhase::Finished => 0,
    }
}

/// The log entry that a reply of the language model leaves: the assistant's
/// completion where a reply body came back and is JSON, else none.
pub open spec fn reply_entries(outcome: Result<String, String>) -> Seq<(MessageType, Seq<char>)> {
    match outcome {
        Ok(body) => match json_text_strings(body@) {
            Some(strings) => seq![(MessageType::AssistantResponse, reply_completion(strings))],
            None => Seq::empty(),
        },
        Err(_) => Seq::empty(),
    }
}

/// The log entries that one exchange with the language model leaves: the
/// message that was asked, then the reply's entry, if any.
pub open spec fn exchange_entries(asked: ContextMessage, outcome: Result<String, String>) -> Seq<
    (MessageType, Seq<char>),
> {
    seq![(asked.message_type, asked.content@)] + reply_entries(outcome)
}

/// The log entries that a step leaves: those of the exchange where the event
/// is the reply that the action waits for, else none.
pub open spec fn step_entries(
    phase: ChatActionPhase,
    asked: ContextMessage,
    event: ChatActionEvent,
) -> Seq<(MessageType, Seq<char>)> {
    match event {
        ChatActionEvent::AssistantReplied(outcome) => if phase == ChatActionPhase::AwaitingReply
            || phase == ChatActionPhase::AwaitingFollowUpReply {
            exchange_entries(asked, outcome)
        } else {
            Seq::empty()
        },
        ChatActionEvent::CliFinished(_) => Seq::empty(),
    }
}

/// One chat action, started by a message from the frontend: ask the assistant
/// about it, run its text as a CLI command, and when that succeeds, ask the
/// assistant about the command's output. Each exchange with the assistant is
/// recorded in the chat log.
#[derive(Debug)]
pub struct ChatAction {
    trigger: ContextMessage,
    asked: ContextMessage,
    phase: ChatActionPhase,
}

impl ChatAction {
    /// The message that started the action.
    pub closed spec fn spec_trigger(self) -> ContextMessage {
        self.trigger
    }

    /// The message that the assistant was last asked about.
    pub closed spec fn spec_asked(self) -> ContextMessage {
        self.asked
    }

    /// Where the action stands.
    pub closed spec fn spec_phase(self) -> ChatActionPhase {
        self.phase
    }

    pub fn phase(&self) -> (r: ChatActionPhase)
        ensures
            r == self.spec_phase(),
    {
        self.phase
    }

    /// Takes in what came back from the last request, records it in the chat
    /// log, and gives the next request.
    ///
    /// A reply of the language model records the message that was asked and,
    /// where a JSON reply body came back, the assistant's completion, as a
    /// model call does. After the first reply the trigger's text runs as a CLI
    /// command; a CLI reply with status `success` is handed to the assistant as
    /// a `CliOutput` message stamped with the current time, any other ends the
    /// action; the assistant's reply to that ends it too. An event that does
    /// not answer the pending request ends the action and records nothing.
    pub fn step(&mut self, state: &mut ChatState, event: ChatActionEvent) -> (r: ChatActionCommand)
        ensures
            final(self).spec_trigger() == old(self).spec_trigger(),
            appended_entries(
                old(state).chat_context@,
                final(state).chat_context@,
                step_entries(old(self).spec_phase(), old(self).spec_asked(), event),
            ),
            step_entries(old(self).spec_phase(), old(self).spec_asked(), event).len() == 0
                ==> final(state).chat_context@ == old(state).chat_context@,
            (old(self).spec_phase() == ChatActionPhase::AwaitingReply || old(self).spec_phase()
                == ChatActionPhase::AwaitingFollowUpReply) && event is AssistantReplied ==> {
                let before = old(state).chat_context@;
                let after = final(state).chat_context@;
                let asked = old(self).spec_asked();
                &&& after.len() == before.len() + 1 || after.len() == before.len() + 2
                &&& after.subrange(0, before.len() as int) == before
                &&& after[before.len() as int].message_type == asked.message_type
                &&& after[before.len() as int].content == asked.content
                &&& after[before.len() as int].timestamp matches Some(t) && t.read_from_clock()
                &&& after.len() == before.len() + 2 ==> after[before.len() + 1int].message_type
                    == MessageType::AssistantResponse
            },
            final(state).chat_id == old(state).chat_id,
            final(state).user_prefereces == old(state).user_prefereces,
            old(self).spec_phase() != ChatActionPhase::Finished ==> steps_left(final(self).spec_phase())
                < steps_left(old(self).spec_phase()),
            (r is Finish) <==> (final(self).spec_phase() == ChatActionPhase::Finished),
            match (old(self).spec_phase(), event) {
                (ChatActionPhase::AwaitingReply, ChatActionEvent::AssistantReplied(_)) => {
                    &&& final(self).spec_phase() == ChatActionPhase::AwaitingCliResult
                    &&& r == ChatActionCommand::RunCli(
                        CliCommand {
                            command_type: CliCommandType::WriteExecuteCliCommand,
                            command: old(self).spec_trigger().content,
                        },
                    )
                },
                (ChatActionPhase::AwaitingCliResult, ChatActionEvent::CliFinished(response)) => if response.status@
                    == success_status() {
                    &&& final(self).spec_phase() == ChatActionPhase::AwaitingFollowUpReply
                    &&& r == ChatActionCommand::AskAssistant(final(self).spec_asked())
                    &&& final(self).spec_asked().message_type == MessageType::CliOutput
                    &&& final(self).spec_asked().content == response.output
                    &&& final(self).spec_asked().timestamp is Some
                } else {
                    final(self).spec_phase() == ChatActionPhase::Finished
                },
                _ => final(self).spec_phase() == ChatActionPhase::Finished,
            },
    {
        let ghost before = state.chat_context@;
        proof {
            assert(before.subrange(0, before.len() as int) =~= before);
        }
        match event {
            ChatActionEvent::AssistantReplied(outcome) => {
                let waiting = self.phase == ChatActionPhase::AwaitingReply || self.phase
                    == ChatActionPhase::AwaitingFollowUpReply;
                if !waiting {
                    self.phase = ChatActionPhase::Finished;
                    return ChatActionCommand::Finish;
                }
                let _ = state.record_model_prompt(&self.asked);
                let ghost middle = state.chat_context@;
                proof {
                    lemma_appended_entries_meaning(
                        before,
                        middle,
                        seq![(self.asked.message_type, self.asked.content@)],
                    );
                    assert(middle[before.len() as int] == middle.last());
                    assert(middle[before.len() + 0int] == middle[before.len() as int]);
                }
                match outcome {
                    Ok(body) => {
                        let _ = state.record_model_reply(body.as_str());
                        proof {
                            if json_text_strings(body@) is None {
                                assert(state.chat_context@.subrange(0, middle.len() as int)
                                    =~= middle);
                            }
                            lemma_appended_entries_compose(
                                before,
                                middle,
                                state.chat_context@,
                                seq![(self.asked.message_type, self.asked.content@)],
                                reply_entries(Ok(body)),
                            );
                            lemma_appended_entries_meaning(
                                middle,
                                state.chat_context@,
                                reply_entries(Ok(body)),
                            );
                            let after = state.chat_context@;
                            assert(after[before.len() as int] == middle[before.len() as int]);
                            assert(after.subrange(0, before.len() as int) =~= before);
                            if after.len() == before.len() + 2 {
                                assert(after[middle.len() + 0int] == after[before.len() + 1int]);
                            }
                        }
                    },
                    Err(_) => {
                        proof {
                            assert(middle.subrange(0, before.len() as int) =~= before);
                            assert(seq![(self.asked.message_type, self.asked.content@)]
                                + Seq::<(MessageType, Seq<char>)>::empty() =~= seq![
                                (self.asked.message_type, self.asked.content@)]);
                        }
                    },
                }
                if self.phase == ChatActionPhase::AwaitingReply {
                    let command = extract_command_from_frontend_message(self.trigger.content.clone());
                    match command {
                        Some(command) => {
                            self.phase = ChatActionPhase::AwaitingCliResult;
                            ChatActionCommand::RunCli(command)
                        },
                        None => {
                            self.phase = ChatActionPhase::Finished;
                            ChatActionCommand::Finish
                        },
                    }
                } else {
                    self.phase = ChatActionPhase::Finished;
                    ChatActionCommand::Finish
                }
            },
            ChatActionEvent::CliFinished(response) => {
                if self.phase != ChatActionPhase::AwaitingCliResult {
                    self.phase = ChatActionPhase::Finished;
                    return ChatActionCommand::Finish;
                }
                if is_success(&response) {
                    let cli_message = ContextMessage {
                        message_type: MessageType::CliOutput,
                        content: response.output,
                        timestamp: Some(Timestamp::now()),
                    };
                    self.asked = cli_message.clone();
                    self.phase = ChatActionPhase::AwaitingFollowUpReply;
                    ChatActionCommand::AskAssistant(cli_message)
                } else {
                    self.phase = ChatActionPhase::Finished;
                    ChatActionCommand::Finish
                }
            },
        }
    }
}

/// Starts the chat action for a message from the frontend: the first request
/// asks the assistant about that message.
pub fn handle_chat_action(typed_msg: &ContextMessage) -> (r: (ChatAction, ChatActionCommand))
    ensures
        r.0.spec_trigger() == *typed_msg,
        r.0.spec_asked() == *typed_msg,
        r.0.spec_phase() == ChatActionPhase::AwaitingReply,
        r.1 == ChatActionCommand::AskAssistant(*typed_msg),
{
    let action = ChatAction {
        trigger: typed_msg.clone(),
        asked: typed_msg.clone(),
        phase: ChatActionPhase::AwaitingReply,
    };
    (action, ChatActionCommand::AskAssistant(typed_msg.clone()))
}

/// When an action waiting for a reply (the first or the follow-up) gets the
/// model's reply, the log gains first the message that was asked, with its
/// type and its whole content, whatever its length; then, where a JSON reply
/// body came back, the assistant's completion; and nothing else.
pub proof fn lemma_reply_step_records_asked_message(
    phase: ChatActionPhase,
    asked: ContextMessage,
    outcome: Result<String, String>,
)
    requires
        phase == ChatActionPhase::AwaitingReply || phase == ChatActionPhase::AwaitingFollowUpReply,
    ensures
        ({
            let entries = step_entries(phase, asked, ChatActionEvent::AssistantReplied(outcome));
            &&& entries.len() >= 1
            &&& entries[0].0 == asked.message_type
            &&& entries[0].1 == asked.content@
            &&& entries[0].1.len() == asked.content@.len()
            &&& match outcome {
                Ok(body) => match json_text_strings(body@) {
                    Some(strings) => entries.len() == 2 && entries[1] == (
                        MessageType::AssistantResponse,
                        reply_completion(strings),
                    ),
                    None => entries.len() == 1,
                },
                Err(_) => entries.len() == 1,
            }
        }),
{
}

/// A complete chat action, whose two model calls both bring back JSON replies,
/// leaves in the log, after what was there: the triggering message, the
/// assistant's reply, the CLI output that the assistant was then asked about,
/// and the assistant's reply to that; the CLI step itself records nothing.
pub proof fn lemma_complete_chat_action_log(
    start: Seq<ContextMessage>,
    after_first: Seq<ContextMessage>,
    after_cli: Seq<ContextMessage>,
    after_second: Seq<ContextMessage>,
    trigger: ContextMessage,
    first_reply: String,
    cli_output: ContextMessage,
    second_reply: String,
)
    requires
        appended_entries(start, after_first, exchange_entries(trigger, Ok(first_reply))),
        after_cli == after_first,
        appended_entries(after_cli, after_second, exchange_entries(cli_output, Ok(second_reply))),
        json_text_strings(first_reply@) is Some,
        json_text_strings(second_reply@) is Some,
        cli_output.message_type == MessageType::CliOutput,
    ensures
        appended_entries(
            start,
            after_second,
            seq![
                (trigger.message_type, trigger.content@),
                (MessageType::AssistantResponse, reply_completion(json_text_strings(first_reply@)->0)),
                (MessageType::CliOutput, cli_output.content@),
                (MessageType::AssistantResponse, reply_completion(json_text_strings(second_reply@)->0)),
            ],
        ),
{
    lemma_appended_entries_compose(
        start,
        after_first,
        after_second,
        exchange_entries(trigger, Ok(first_reply)),
        exchange_entries(cli_output, Ok(second_reply)),
    );
    assert(exchange_entries(trigger, Ok(first_reply)) + exchange_entries(cli_output, Ok(second_reply))
        =~= seq![
        (trigger.message_type, trigger.content@),
        (MessageType::AssistantResponse, reply_completion(json_text_strings(first_reply@)->0)),
        (MessageType::CliOutput, cli_output.content@),
        (MessageType::AssistantResponse, reply_completion(json_text_strings(second_reply@)->0)),
    ]);
}

/// A chat action whose first model call fails leaves only the triggering
/// message in the log, after what was there.
pub proof fn lemma_failed_chat_action_log(
    start: Seq<ContextMessage>,
    after_first: Seq<ContextMessage>,
    trigger: ContextMessage,
    error: String,
)
    requires
        appended_entries(start, after_first, exchange_entries(trigger, Err(error))),
    ensures
        appended_entries(start, after_first, seq![(trigger.message_type, trigger.content@)]),
{
    assert(exchange_entries(trigger, Err(error)) =~= seq![(trigger.message_type, trigger.content@)]);
}

} // verus!
