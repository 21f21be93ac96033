//! The shared state of a chat: its message log and the user's preferences.

use crate::chat::completion_from_reply;
use crate::chat::json_text_strings;
use crate::chat::reply_completion;
use crate::timestamp::utc_instant_text;
use crate::timestamp::Timestamp;
use vstd::prelude::*;

verus! {

/// Who or what produced a message of the chat log.
#[derive(Clone, Copy, Debug, PartialEq, Eq, Structural)]
pub enum MessageType {
    UserPrompt,
    AssistantResponse,
    ReadOnlyCliCommand,
    WriteExecuteCliCommand,
    CliOutput,
    UserCancelCmd,
    UserAckCmd,
}

/// The kinds of CLI command; each has a message type of the same name.
#[derive(Clone, Copy, Debug, PartialEq, Eq, Structural)]
pub enum CliCommandType {
    ReadOnlyCliCommand,
    WriteExecuteCliCommand,
}

impl MessageType {
    /// The speaker label that a message of this type carries in the rendered context.
    pub open spec fn spec_label(self) -> Seq<char> {
        match self {
            MessageType::UserPrompt => "User"@,
            MessageType::AssistantResponse => "Assistant"@,
            MessageType::ReadOnlyCliCommand => "ReadOnlyCliCommand"@,
            MessageType::WriteExecuteCliCommand => "WriteExecuteCliCommand"@,
            MessageType::CliOutput => "Output"@,
            MessageType::UserCancelCmd => "Cancel"@,
            MessageType::UserAckCmd => "Ack"@,
        }
    }

    /// The speaker label of this message type.
    pub fn label(&self) -> (r: &'static str)
        ensures
            r@ == self.spec_label(),
    {
        match self {
            MessageType::UserPrompt => "User",
            MessageType::AssistantResponse => "Assistant",
            MessageType::ReadOnlyCliCommand => "ReadOnlyCliCommand",
            MessageType::WriteExecuteCliCommand => "WriteExecuteCliCommand",
            MessageType::CliOutput => "Output",
            MessageType::UserCancelCmd => "Cancel",
            MessageType::UserAckCmd => "Ack",
        }
    }
}

impl From<CliCommandType> for MessageType {
    fn from(value: CliCommandType) -> (r: MessageType) {
        match value {
            CliCommandType::ReadOnlyCliCommand => MessageType::ReadOnlyCliCommand,
            CliCommandType::WriteExecuteCliCommand => MessageType::WriteExecuteCliCommand,
        }
    }
}

impl vstd::std_specs::convert::FromSpecImpl<CliCommandType> for MessageType {
    open spec fn obeys_from_spec() -> bool {
        true
    }

    open spec fn from_spec(value: CliCommandType) -> MessageType {
        match value {
            CliCommandType::ReadOnlyCliCommand => MessageType::ReadOnlyCliCommand,
            CliCommandType::WriteExecuteCliCommand => MessageType::WriteExecuteCliCommand,
        }
    }
}

/// One entry of the chat log.
#[derive(Debug)]
pub struct ContextMessage {
    pub message_type: MessageType,
    pub content: String,
    pub timestamp: Option<Timestamp>,
}

impl Clone for ContextMessage {
    fn clone(&self) -> (r: ContextMessage)
        ensures
            r == *self,
    {
        ContextMessage {
            message_type: self.message_type,
            content: self.content.clone(),
            timestamp: self.timestamp,
        }
    }
}

/// How the user wants chat actions to run.
#[derive(Clone, Copy, Debug)]
pub struct UserChatPreferences {
    pub depth: u16,
    pub autorun: bool,
}

impl Default for UserChatPreferences {
    /// A depth of 5, with autorun on.
    fn default() -> (r: UserChatPreferences)
        ensures
            r.depth == 5,
            r.autorun,
    {
        UserChatPreferences { depth: 5, autorun: true }
    }
}

/// The text that stands for a message's timestamp in the rendered context.
pub open spec fn timestamp_label(timestamp: Option<Timestamp>) -> Seq<char> {
    match timestamp {
        Some(t) => t.text(),
        None => "No timestamp"@,
    }
}

/// One message as a line of the rendered context: `[<timestamp>] <label>: <content>`.
pub open spec fn context_line(message: ContextMessage) -> Seq<char> {
    "["@ + timestamp_label(message.timestamp) + "] "@ + message.message_type.spec_label() + ": "@
        + message.content@
}

/// The lines of all messages, in order, joined by a newline.
pub open spec fn rendered_context(messages: Seq<ContextMessage>) -> Seq<char>
    decreases messages.len(),
{
    if messages.len() == 0 {
        Seq::empty()
    } else if messages.len() == 1 {
        context_line(messages[0])
    } else {
        rendered_context(messages.drop_last()) + "\n"@ + context_line(messages.last())
    }
}

/// Renders one message as a line of the context.
pub fn render_context_line(message: &ContextMessage) -> (r: String)
    ensures
        r@ == context_line(*message),
{
    let mut line = String::new();
    line.append("[");
    match &message.timestamp {
        Some(t) => {
            let text = t.to_text();
            line.append(text.as_str());
        },
        None => {
            line.append("No timestamp");
        },
    }
    line.append("] ");
    line.append(message.message_type.label());
    line.append(": ");
    line.append(message.content.as_str());
    line
}

/// The state of one chat: its identifier, its message log and the user's preferences.
#[derive(Debug)]
pub struct ChatState {
    pub chat_id: u128,
    pub chat_context: Vec<ContextMessage>,
    pub user_prefereces: UserChatPreferences,
}

impl ChatState {
    /// A chat with the given identifier, an empty log and the default preferences.
    pub fn new(chat_id: u128) -> (r: ChatState)
        ensures
            r.chat_id == chat_id,
            r.chat_context@ == Seq::<ContextMessage>::empty(),
            r.user_prefereces.depth == 5,
            r.user_prefereces.autorun,
    {
        ChatState {
            chat_id,
            chat_context: Vec::new(),
            user_prefereces: UserChatPreferences::default(),
        }
    }

    /// Appends a message with the given type, content and timestamp to the log.
    pub fn add_message_at(&mut self, message_type: MessageType, content: String, timestamp: Timestamp)
        ensures
            final(self).chat_context@ == old(self).chat_context@.push(
                ContextMessage { message_type, content, timestamp: Some(timestamp) },
            ),
            final(self).chat_id == old(self).chat_id,
            final(self).user_prefereces == old(self).user_prefereces,
    {
        self.chat_context.push(ContextMessage { message_type, content, timestamp: Some(timestamp) });
    }

    /// Appends a message with the given type and content to the log, stamped
    /// with the current time. It always succeeds.
    pub fn add_message_to_state(&mut self, message_type: MessageType, content: String) -> (r: Result<
        (),
        String,
    >)
        ensures
            r is Ok,
            exists|t: Timestamp|
                final(self).chat_context@ == old(self).chat_context@.push(
                    ContextMessage { message_type, content, timestamp: Some(t) },
                ),
            appended_entries(
                old(self).chat_context@,
                final(self).chat_context@,
                seq![(message_type, content@)],
            ),
            final(self).chat_context@.last().timestamp matches Some(t) && t.read_from_clock(),
            final(self).chat_id == old(self).chat_id,
            final(self).user_prefereces == old(self).user_prefereces,
    {
        let ghost before = self.chat_context@;
        let now = Timestamp::now();
        self.add_message_at(message_type, content, now);
        proof {
            assert(self.chat_context@.subrange(0, before.len() as int) =~= before);
            assert(self.chat_context@[before.len() + 0int] == self.chat_context@.last());
        }
        Ok(())
    }

    /// Records a message that is about to go to the language model: its type
    /// and content are appended to the log, stamped with the current time.
    pub fn record_model_prompt(&mut self, message: &ContextMessage) -> (r: Result<(), String>)
        ensures
            r is Ok,
            appended_entries(
                old(self).chat_context@,
                final(self).chat_context@,
                seq![(message.message_type, message.content@)],
            ),
            final(self).chat_context@.last().message_type == message.message_type,
            final(self).chat_context@.last().content == message.content,
            final(self).chat_context@.last().timestamp matches Some(t) && t.read_from_clock(),
            final(self).chat_id == old(self).chat_id,
            final(self).user_prefereces == old(self).user_prefereces,
    {
        self.add_message_to_state(message.message_type, message.content.clone())
    }

    /// Records the language model's reply body: where it is JSON, its
    /// completion (`choices[0].message.content`, else the fixed text) is
    /// appended to the log as the assistant's message and returned; where it is
    /// not, the log stays as it was and an error comes back.
    pub fn record_model_reply(&mut self, reply_body: &str) -> (r: Result<String, String>)
        ensures
            match json_text_strings(reply_body@) {
                None => r is Err && final(self).chat_context@ == old(self).chat_context@,
                Some(strings) => {
                    &&& r matches Ok(completion) && completion@ == reply_completion(strings)
                    &&& appended_entries(
                        old(self).chat_context@,
                        final(self).chat_context@,
                        seq![(MessageType::AssistantResponse, reply_completion(strings))],
                    )
                },
            },
            final(self).chat_id == old(self).chat_id,
            final(self).user_prefereces == old(self).user_prefereces,
    {
        match completion_from_reply(reply_body) {
            Ok(completion) => {
                let recorded = self.add_message_to_state(
                    MessageType::AssistantResponse,
                    completion.clone(),
                );
                match recorded {
                    Ok(()) => Ok(completion),
                    Err(error) => Err(error),
                }
            },
            Err(error) => Err(error),
        }
    }

    /// The whole log rendered as context: one line per message, in order,
    /// joined by newlines. It always succeeds.
    pub fn get_full_context(&self) -> (r: Result<String, String>)
        ensures
            r matches Ok(text) && text@ == rendered_context(self.chat_context@),
    {
        let n = self.chat_context.len();
        let mut text = String::new();
        let mut i: usize = 0;
        while i < n
            invariant
                n == self.chat_context@.len(),
                i <= n,
                text@ == rendered_context(self.chat_context@.take(i as int)),
            decreases n - i,
        {
            let line = render_context_line(&self.chat_context[i]);
            if i > 0 {
                text.append("\n");
            }
            text.append(line.as_str());
            proof {
                let s = self.chat_context@;
                assert(s.take(i + 1).drop_last() =~= s.take(i as int));
            }
            i = i + 1;
        }
        proof {
            assert(self.chat_context@.take(n as int) =~= self.chat_context@);
        }
        Ok(text)
    }
}

/// Appending a message to the log appends its line to the rendered context:
/// the line alone when the log was empty, else after a newline.
pub proof fn lemma_rendered_context_push(messages: Seq<ContextMessage>, message: ContextMessage)
    ensures
        rendered_context(messages.push(message)) == if messages.len() == 0 {
            context_line(message)
        } else {
            rendered_context(messages) + "\n"@ + context_line(message)
        },
{
    assert(messages.push(message).drop_last() =~= messages);
}

/// Each kind of CLI command stands for a different message type, the one of
/// the same name, so that CLI command types form a part of the message types.
pub proof fn lemma_cli_command_types_embed(a: CliCommandType, b: CliCommandType)
    ensures
        <MessageType as vstd::std_specs::convert::FromSpec<CliCommandType>>::from_spec(a)
            == <MessageType as vstd::std_specs::convert::FromSpec<CliCommandType>>::from_spec(b)
            ==> a == b,
        <MessageType as vstd::std_specs::convert::FromSpec<CliCommandType>>::from_spec(a)
            == MessageType::ReadOnlyCliCommand
            || <MessageType as vstd::std_specs::convert::FromSpec<CliCommandType>>::from_spec(a)
            == MessageType::WriteExecuteCliCommand,
{
}

/// Whether the log `after` is the log `before` followed by one message for each
/// entry, in order, with the entry's type and content and with a timestamp.
pub open spec fn appended_entries(
    before: Seq<ContextMessage>,
    after: Seq<ContextMessage>,
    entries: Seq<(MessageType, Seq<char>)>,
) -> bool {
    &&& after.len() == before.len() + entries.len()
    &&& after.subrange(0, before.len() as int) == before
    &&& forall|i: int|
        0 <= i < entries.len() ==> {
            &&& (#[trigger] after[before.len() + i]).message_type == entries[i].0
            &&& after[before.len() + i].content@ == entries[i].1
            &&& after[before.len() + i].timestamp is Some
        }
}

/// A log with nothing appended is the log itself.
pub proof fn lemma_appended_nothing(log: Seq<ContextMessage>)
    ensures
        appended_entries(log, log, Seq::empty()),
{
    assert(log.subrange(0, log.len() as int) =~= log);
}

/// Appends compose: a run of appends leaves the log that was there followed by
/// exactly the appended messages, in the order of the calls, each with its type,
/// content and a timestamp; the log only ever grows at its end.
pub proof fn lemma_appended_entries_compose(
    first: Seq<ContextMessage>,
    second: Seq<ContextMessage>,
    third: Seq<ContextMessage>,
    earlier: Seq<(MessageType, Seq<char>)>,
    later: Seq<(MessageType, Seq<char>)>,
)
    requires
        appended_entries(first, second, earlier),
        appended_entries(second, third, later),
    ensures
        appended_entries(first, third, earlier + later),
{
    let entries = earlier + later;
    assert(third.subrange(0, first.len() as int) =~= first) by {
        assert forall|k: int| 0 <= k < first.len() implies third[k] == first[k] by {
            assert(third.subrange(0, second.len() as int)[k] == second[k]);
            assert(second.subrange(0, first.len() as int)[k] == first[k]);
        }
    }
    assert forall|i: int| 0 <= i < entries.len() implies {
        &&& (#[trigger] third[first.len() + i]).message_type == entries[i].0
        &&& third[first.len() + i].content@ == entries[i].1
        &&& third[first.len() + i].timestamp is Some
    } by {
        if i < earlier.len() {
            assert(third.subrange(0, second.len() as int)[first.len() + i] == second[first.len() + i]);
        } else {
            let j = i - earlier.len();
            assert(first.len() + i == second.len() + j);
            assert(later[j] == entries[i]);
        }
    }
}

/// What `appended_entries` promises: the old log stands unchanged at the
/// front, and after it come exactly the entries, in order, each as a message
/// with that type, that content (all of it) and a timestamp.
pub proof fn lemma_appended_entries_meaning(
    before: Seq<ContextMessage>,
    after: Seq<ContextMessage>,
    entries: Seq<(MessageType, Seq<char>)>,
)
    requires
        appended_entries(before, after, entries),
    ensures
        after.len() == before.len() + entries.len(),
        forall|k: int| 0 <= k < before.len() ==> after[k] == before[k],
        forall|i: int|
            0 <= i < entries.len() ==> {
                &&& (#[trigger] after[before.len() + i]).message_type == entries[i].0
                &&& after[before.len() + i].content@ == entries[i].1
                &&& after[before.len() + i].content@.len() == entries[i].1.len()
                &&& after[before.len() + i].timestamp is Some
            },
{
    assert forall|k: int| 0 <= k < before.len() implies after[k] == before[k] by {
        assert(after.subrange(0, before.len() as int)[k] == before[k]);
    }
}

/// The line of every message, of every type, with or without a timestamp:
/// `[`, the timestamp as chrono prints it or `No timestamp`, `] `, the label of
/// the message's own type (`User`, `Assistant`, `ReadOnlyCliCommand`,
/// `WriteExecuteCliCommand`, `Output`, `Cancel` or `Ack`), `: `, and the whole
/// content.
pub proof fn lemma_context_line_template(message: ContextMessage)
    ensures
        context_line(message) == "["@ + match message.timestamp {
            Some(t) => utc_instant_text(t.spec_secs(), t.spec_nanos())->0,
            None => "No timestamp"@,
        } + "] "@ + match message.message_type {
            MessageType::UserPrompt => "User"@,
            MessageType::AssistantResponse => "Assistant"@,
            MessageType::ReadOnlyCliCommand => "ReadOnlyCliCommand"@,
            MessageType::WriteExecuteCliCommand => "WriteExecuteCliCommand"@,
            MessageType::CliOutput => "Output"@,
            MessageType::UserCancelCmd => "Cancel"@,
            MessageType::UserAckCmd => "Ack"@,
        } + ": "@ + message.content@,
{
}

/// An empty log renders as the empty text.
pub proof fn lemma_rendered_context_empty()
    ensures
        rendered_context(Seq::<ContextMessage>::empty()) == Seq::<char>::empty(),
{
}

} // verus!
