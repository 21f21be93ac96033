//! The request sent to the language model and the reading of its reply.

use serde_json::Value;
use vstd::prelude::*;

verus! {

/// The digit of a value below 16 in lowercase hexadecimal.
pub open spec fn lower_hex_digit(n: int) -> char {
    if n < 10 {
        (n + 48) as char
    } else {
        (n + 87) as char
    }
}

/// How a JSON string writes one character: `"` and `\` behind a backslash, the
/// control characters with a short escape as `\b`, `\t`, `\n`, `\f`, `\r`, the
/// other characters below U+0020 as `\u00` and two lowercase hex digits, and
/// every other character as itself.
pub open spec fn json_escaped_char(c: char) -> Seq<char> {
    if c == '"' {
        seq!['\\', '"']
    } else if c == '\\' {
        seq!['\\', '\\']
    } else if c == '\u{8}' {
        seq!['\\', 'b']
    } else if c == '\t' {
        seq!['\\', 't']
    } else if c == '\n' {
        seq!['\\', 'n']
    } else if c == '\u{c}' {
        seq!['\\', 'f']
    } else if c == '\r' {
        seq!['\\', 'r']
    } else if (c as int) < 32 {
        seq!['\\', 'u', '0', '0', lower_hex_digit((c as int) / 16), lower_hex_digit((c as int) % 16)]
    } else {
        seq![c]
    }
}

/// The characters of `text`, each written as a JSON string writes it.
pub open spec fn json_escaped(text: Seq<char>) -> Seq<char>
    decreases text.len(),
{
    if text.len() == 0 {
        Seq::empty()
    } else {
        json_escaped(text.drop_last()) + json_escaped_char(text.last())
    }
}

/// The JSON string literal of `text`: its escaped characters in double quotes.
pub open spec fn json_string_literal(text: Seq<char>) -> Seq<char> {
    seq!['"'] + json_escaped(text) + seq!['"']
}

/// Encodes `text` as a JSON string with `serde_json::to_string`. The contract
/// claims that it succeeds with the literal that `json_string_literal` states:
/// serde_json's serializer writes `"`, then each run of plain characters and
/// the escape that its table gives each other character, then `"`, into a
/// `Vec<u8>`; its only errors are those of that writer, which never fails.
#[verifier::external_body]
fn quote_json_string(text: &str) -> (r: Result<String, String>)
    ensures
        r is Ok,
        r matches Ok(quoted) ==> quoted@ == json_string_literal(text@),
{
    match serde_json::to_string(text) {
        Ok(quoted) => Ok(quoted),
        Err(error) => Err(error.to_string()),
    }
}

#[verifier::external_type_specification]
#[verifier::external_body]
pub struct ExJsonValue(Value);

/// One step into a JSON value: the member under a key, or the element at a
/// position.
pub enum JsonPathStep {
    Key(Seq<char>),
    Position(usize),
}

/// What a `serde_json::Value` holds, as far as strings go: each path of steps
/// that, taken one by one with `Value`'s indexing (`value[key]`,
/// `value[position]`, which give `Null` where there is no such member or
/// element), reaches a `Value::String`, mapped to that string.
pub uninterp spec fn json_strings(value: Value) -> Map<Seq<JsonPathStep>, Seq<char>>;

/// The strings of the JSON text `body` as `serde_json::from_str::<Value>` reads
/// it, or `None` where it refuses the text.
pub uninterp spec fn json_text_strings(body: Seq<char>) -> Option<Map<Seq<JsonPathStep>, Seq<char>>>;

/// The strings below one step: those whose path begins with `step`, under the
/// rest of their path.
pub open spec fn strings_below(
    strings: Map<Seq<JsonPathStep>, Seq<char>>,
    step: JsonPathStep,
) -> Map<Seq<JsonPathStep>, Seq<char>> {
    Map::new(
        |path: Seq<JsonPathStep>| strings.contains_key(seq![step] + path),
        |path: Seq<JsonPathStep>| strings[seq![step] + path],
    )
}

/// Parses `body` with `serde_json::from_str::<serde_json::Value>`. The contract
/// claims that the value holds the named strings of `body`, and an error
/// exactly where the name is `None`; the text of the error is not stated.
#[verifier::external_body]
fn parse_json(body: &str) -> (r: Result<Value, String>)
    ensures
        match r {
            Ok(value) => json_text_strings(body@) == Some(json_strings(value)),
            Err(_) => json_text_strings(body@) is None,
        },
{
    match serde_json::from_str::<Value>(body) {
        Ok(value) => Ok(value),
        Err(error) => Err(error.to_string()),
    }
}

/// `value[key]` through `serde_json::Value`'s `Index<&str>`: the member under
/// `key` of an object, else `Null`. The contract claims that its strings are
/// those of `value` below the step `key`, which is how `json_strings` reads
/// paths.
#[verifier::external_body]
fn json_member<'a>(value: &'a Value, key: &str) -> (r: &'a Value)
    ensures
        json_strings(*r) == strings_below(json_strings(*value), JsonPathStep::Key(key@)),
{
    &value[key]
}

/// `value[position]` through `serde_json::Value`'s `Index<usize>`: the element
/// at `position` of an array, else `Null`. The contract claims that its strings
/// are those of `value` below the step `position`.
#[verifier::external_body]
fn json_element(value: &Value, position: usize) -> (r: &Value)
    ensures
        json_strings(*r) == strings_below(json_strings(*value), JsonPathStep::Position(position)),
{
    &value[position]
}

/// `Value::as_str`: the string that a `Value::String` holds, else `None`. The
/// contract claims that it is the string of `value` at the empty path.
#[verifier::external_body]
fn json_as_str(value: &Value) -> (r: Option<&str>)
    ensures
        r is Some <==> json_strings(*value).contains_key(Seq::empty()),
        r matches Some(text) ==> text@ == json_strings(*value)[Seq::empty()],
{
    value.as_str()
}

/// The model that answers the chat.
pub open spec fn model_name() -> Seq<char> {
    "gpt-4o-mini"@
}

/// The body of a chat completion request, given the JSON literals of the system
/// prompt and of the user's message: the two messages, the model, and storage
/// turned on, with the keys of each object in sorted order.
pub open spec fn request_body_text(quoted_prompt: Seq<char>, quoted_content: Seq<char>) -> Seq<
    char,
> {
    "{\"messages\":[{\"content\":"@ + quoted_prompt + ",\"role\":\"developer\"},{\"content\":"@
        + quoted_content + ",\"role\":\"user\"}],\"model\":\""@ + model_name()
        + "\",\"store\":true}"@
}

/// Assembles the request body from the JSON literals of the system prompt and
/// of the user's message.
pub fn assemble_request_body(quoted_prompt: &str, quoted_content: &str) -> (r: String)
    ensures
        r@ == request_body_text(quoted_prompt@, quoted_content@),
{
    let mut body = String::new();
    body.append("{\"messages\":[{\"content\":");
    body.append(quoted_prompt);
    body.append(",\"role\":\"developer\"},{\"content\":");
    body.append(quoted_content);
    body.append(",\"role\":\"user\"}],\"model\":\"");
    body.append("gpt-4o-mini");
    body.append("\",\"store\":true}");
    body
}

/// The body of the chat completion request that carries the system prompt and
/// the user's message, each encoded as a JSON string. It always succeeds.
pub fn openai_request_body(system_prompt: &str, user_content: &str) -> (r: Result<String, String>)
    ensures
        r matches Ok(body) && body@ == request_body_text(
            json_string_literal(system_prompt@),
            json_string_literal(user_content@),
        ),
{
    let quoted_prompt = match quote_json_string(system_prompt) {
        Ok(quoted) => quoted,
        Err(error) => {
            return Err(error);
        },
    };
    let quoted_content = match quote_json_string(user_content) {
        Ok(quoted) => quoted,
        Err(error) => {
            return Err(error);
        },
    };
    Ok(assemble_request_body(quoted_prompt.as_str(), quoted_content.as_str()))
}

/// The value of the `Authorization` header for the API key.
pub fn authorization_header(api_key: &str) -> (r: String)
    ensures
        r@ == "Bearer "@ + api_key@,
{
    let mut header = String::new();
    header.append("Bearer ");
    header.append(api_key);
    header
}

/// The text used when the reply holds no completion.
pub open spec fn missing_completion_text() -> Seq<char> {
    "No response from OpenAI"@
}

/// Where the reply holds the completion: `choices[0].message.content`.
pub open spec fn completion_path() -> Seq<JsonPathStep> {
    seq![
        JsonPathStep::Key("choices"@),
        JsonPathStep::Position(0),
        JsonPathStep::Key("message"@),
        JsonPathStep::Key("content"@),
    ]
}

/// The completion in a reply with these strings: the string at
/// `choices[0].message.content`, else the fixed text.
pub open spec fn reply_completion(strings: Map<Seq<JsonPathStep>, Seq<char>>) -> Seq<char> {
    if strings.contains_key(completion_path()) {
        strings[completion_path()]
    } else {
        missing_completion_text()
    }
}

/// The completion of a reply is the whole string at
/// `choices[0].message.content`, whatever its length, where the reply has one,
/// and `No response from OpenAI` where it does not.
pub proof fn lemma_reply_completion_reads_content(strings: Map<Seq<JsonPathStep>, Seq<char>>)
    ensures
        ({
            let path = seq![
                JsonPathStep::Key("choices"@),
                JsonPathStep::Position(0),
                JsonPathStep::Key("message"@),
                JsonPathStep::Key("content"@),
            ];
            &&& strings.contains_key(path) ==> reply_completion(strings) == strings[path]
            &&& strings.contains_key(path) ==> reply_completion(strings).len() == strings[path].len()
            &&& !strings.contains_key(path) ==> reply_completion(strings)
                == "No response from OpenAI"@
        }),
{
}

/// The request body, for every pair of JSON literals: the developer message
/// carries the first (the system prompt's) and the user message the second
/// (the user's message's), at fixed places of a fixed template, followed by the
/// model `gpt-4o-mini` and storage turned on.
pub proof fn lemma_request_body_template(quoted_prompt: Seq<char>, quoted_content: Seq<char>)
    ensures
        request_body_text(quoted_prompt, quoted_content) == "{\"messages\":[{\"content\":"@
            + quoted_prompt + ",\"role\":\"developer\"},{\"content\":"@ + quoted_content
            + ",\"role\":\"user\"}],\"model\":\"gpt-4o-mini\",\"store\":true}"@,
        ({
            let head = "{\"messages\":[{\"content\":"@;
            let middle = ",\"role\":\"developer\"},{\"content\":"@;
            let body = request_body_text(quoted_prompt, quoted_content);
            let user_start: int = (head.len() + quoted_prompt.len() + middle.len()) as int;
            &&& body.subrange(head.len() as int, head.len() + quoted_prompt.len() as int)
                == quoted_prompt
            &&& body.subrange(user_start, user_start + quoted_content.len() as int) == quoted_content
        }),
{
    let head = "{\"messages\":[{\"content\":"@;
    let middle = ",\"role\":\"developer\"},{\"content\":"@;
    let tail = ",\"role\":\"user\"}],\"model\":\"gpt-4o-mini\",\"store\":true}"@;
    let body = request_body_text(quoted_prompt, quoted_content);
    assert(body =~= head + quoted_prompt + middle + quoted_content + tail) by {
        reveal_strlit(",\"role\":\"user\"}],\"model\":\"");
        reveal_strlit("gpt-4o-mini");
        reveal_strlit("\",\"store\":true}");
        reveal_strlit(",\"role\":\"user\"}],\"model\":\"gpt-4o-mini\",\"store\":true}");
    }
    let user_start: int = (head.len() + quoted_prompt.len() + middle.len()) as int;
    assert(body.subrange(head.len() as int, head.len() + quoted_prompt.len() as int)
        =~= quoted_prompt);
    assert(body.subrange(user_start, user_start + quoted_content.len() as int) =~= quoted_content);
}

/// The completion, or the fixed text for a reply without one.
pub fn completion_or_default(content: Option<String>) -> (r: String)
    ensures
        r@ == match content {
            Some(text) => text@,
            None => missing_completion_text(),
        },
{
    match content {
        Some(text) => text,
        None => String::from_str("No response from OpenAI"),
    }
}

/// Reads the completion from the reply body: the string at
/// `choices[0].message.content`, the fixed text where there is none, and an
/// error where the body is not JSON.
pub fn completion_from_reply(body: &str) -> (r: Result<String, String>)
    ensures
        match json_text_strings(body@) {
            None => r is Err,
            Some(strings) => r matches Ok(completion) && completion@ == reply_completion(strings),
        },
{
    let root = match parse_json(body) {
        Ok(value) => value,
        Err(error) => {
            return Err(error);
        },
    };
    let choices = json_member(&root, "choices");
    let first = json_element(choices, 0);
    let message = json_member(first, "message");
    let content = json_member(message, "content");
    let text = match json_as_str(content) {
        Some(text) => Some(String::from_str(text)),
        None => None,
    };
    proof {
        let path = completion_path();
        let empty = Seq::<JsonPathStep>::empty();
        assert(seq![path[3]] + empty =~= seq![path[3]]);
        assert(seq![path[2]] + seq![path[3]] =~= path.subrange(2, 4));
        assert(seq![path[1]] + path.subrange(2, 4) =~= path.subrange(1, 4));
        assert(seq![path[0]] + path.subrange(1, 4) =~= path);
    }
    Ok(completion_or_default(text))
}

} // verus!
