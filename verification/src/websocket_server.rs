//! The decisions of the WebSocket server: which session a new connection
//! belongs to, how the CLI and frontend connections of a session are paired,
//! and what the server does with each message of a paired session.

use crate::app_state::ContextMessage;
use crate::app_state::MessageType;
use std::collections::HashMap;
use uuid::Uuid;
use vstd::prelude::*;

verus! {

broadcast use vstd::std_specs::hash::group_hash_axioms;

/// The 128-bit value of the UUID that `uuid::Uuid::parse_str` reads from
/// `text`, or `None` where it refuses the text.
pub uninterp spec fn uuid_text_value(text: Seq<char>) -> Option<u128>;

/// Whether a 128-bit value has the version and variant bits of a random
/// (version 4) UUID.
pub open spec fn is_random_uuid(value: u128) -> bool {
    &&& (value >> 76u128) & 15u128 == 4u128
    &&& (value >> 62u128) & 3u128 == 2u128
}

/// Reads a UUID with `uuid::Uuid::parse_str` and returns `Uuid::as_u128` of it.
/// The contract claims that the result is the named `uuid_text_value(text)`.
#[verifier::external_body]
fn parse_uuid(text: &str) -> (r: Option<u128>)
    ensures
        r == uuid_text_value(text@),
{
    match Uuid::parse_str(text) {
        Ok(id) => Some(id.as_u128()),
        Err(_) => None,
    }
}

/// Draws a random UUID with `uuid::Uuid::new_v4` and returns `Uuid::as_u128` of
/// it. The contract claims only the version and variant bits that `new_v4`
/// sets; the other bits are random and not stated.
#[verifier::external_body]
fn new_random_uuid() -> (r: u128)
    ensures
        is_random_uuid(r),
{
    Uuid::new_v4().as_u128()
}

/// The session of a connection, given what reading the first message's text as
/// a UUID gave and a freshly drawn UUID: the one read, else the fresh one.
pub fn choose_session_id(parsed: Option<u128>, fresh: u128) -> (r: u128)
    ensures
        r == match parsed {
            Some(id) => id,
            None => fresh,
        },
{
    match parsed {
        Some(id) => id,
        None => fresh,
    }
}

/// The session of a new connection: the UUID that the text of its first
/// message spells, else a fresh random one (also where the first message was
/// no text).
pub fn session_id_from_first_message(first_text: Option<&str>) -> (r: u128)
    ensures
        match first_text {
            Some(text) => match uuid_text_value(text@) {
                Some(id) => r == id,
                None => is_random_uuid(r),
            },
            None => is_random_uuid(r),
        },
{
    let parsed = match first_text {
        Some(text) => parse_uuid(text),
        None => None,
    };
    match parsed {
        Some(id) => choose_session_id(Some(id), 0),
        None => {
            let fresh = new_random_uuid();
            choose_session_id(None, fresh)
        },
    }
}

/// The two connections of a session, each present once it has connected.
#[derive(Debug)]
pub struct WebSocketPair<S> {
    pub cli_ws: Option<S>,
    pub fe_ws: Option<S>,
}

/// The part that a new connection took in its session.
#[derive(Clone, Copy, Debug, PartialEq, Eq, Structural)]
pub enum ConnectionRole {
    /// It became the session's CLI connection.
    Cli,
    /// It became the session's frontend connection.
    Frontend,
    /// The session had both already; the connection was dropped.
    Surplus,
}

/// What a new connection led to: its role and, once both connections of the
/// session are there, the complete pair, which leaves the registry.
#[derive(Debug)]
pub struct ConnectOutcome<S> {
    pub role: ConnectionRole,
    pub paired: Option<WebSocketPair<S>>,
}

/// The pair that a session has so far, empty where none is registered.
pub open spec fn pending_pair<S>(pending: Map<u128, WebSocketPair<S>>, id: u128) -> WebSocketPair<S> {
    if pending.contains_key(id) {
        pending[id]
    } else {
        WebSocketPair { cli_ws: None, fe_ws: None }
    }
}

/// A new connection fills the CLI place of its session when that is free, else
/// the frontend place when that is free, else it is dropped.
pub open spec fn attach<S>(pair: WebSocketPair<S>, stream: S) -> (ConnectionRole, WebSocketPair<S>) {
    if pair.cli_ws is None {
        (ConnectionRole::Cli, WebSocketPair { cli_ws: Some(stream), fe_ws: pair.fe_ws })
    } else if pair.fe_ws is None {
        (ConnectionRole::Frontend, WebSocketPair { cli_ws: pair.cli_ws, fe_ws: Some(stream) })
    } else {
        (ConnectionRole::Surplus, pair)
    }
}

/// Whether both connections of a pair are there.
pub open spec fn is_complete<S>(pair: WebSocketPair<S>) -> bool {
    pair.cli_ws is Some && pair.fe_ws is Some
}

/// The registry after a connection to session `id`, and the outcome: a
/// complete pair leaves the registry and is handed out, any other stays.
pub open spec fn spec_connect<S>(pending: Map<u128, WebSocketPair<S>>, id: u128, stream: S) -> (
    Map<u128, WebSocketPair<S>>,
    ConnectOutcome<S>,
) {
    let (role, pair) = attach(pending_pair(pending, id), stream);
    if is_complete(pair) {
        (pending.remove(id), ConnectOutcome { role, paired: Some(pair) })
    } else {
        (pending.insert(id, pair), ConnectOutcome { role, paired: None })
    }
}

/// Whether every session waiting in the registry has its CLI connection and
/// is waiting for its frontend.
pub open spec fn all_waiting_for_frontend<S>(pending: Map<u128, WebSocketPair<S>>) -> bool {
    forall|id: u128|
        #[trigger] pending.contains_key(id) ==> pending[id].cli_ws is Some && pending[id].fe_ws is None
}

/// The sessions whose connections are not yet both there, by session id.
pub struct SessionRegistry<S> {
    pending: HashMap<u128, WebSocketPair<S>>,
}

impl<S> View for SessionRegistry<S> {
    type V = Map<u128, WebSocketPair<S>>;

    closed spec fn view(&self) -> Map<u128, WebSocketPair<S>> {
        self.pending@
    }
}

impl<S> SessionRegistry<S> {
    /// A registry with no session waiting.
    pub fn new() -> (r: SessionRegistry<S>)
        ensures
            r@ == Map::<u128, WebSocketPair<S>>::empty(),
    {
        SessionRegistry { pending: HashMap::new() }
    }

    /// Whether session `id` is waiting for a connection.
    pub fn is_pending(&self, id: u128) -> (r: bool)
        ensures
            r == self@.contains_key(id),
    {
        self.pending.contains_key(&id)
    }

    /// Registers a new connection of session `id`: the first becomes the CLI
    /// connection, the second the frontend connection, and once both are there
    /// the pair leaves the registry and is handed out.
    pub fn connect(&mut self, id: u128, stream: S) -> (r: ConnectOutcome<S>)
        ensures
            (final(self)@, r) == spec_connect(old(self)@, id, stream),
    {
        let pair = match self.pending.remove(&id) {
            Some(pair) => pair,
            None => WebSocketPair { cli_ws: None, fe_ws: None },
        };
        let WebSocketPair { cli_ws, fe_ws } = pair;
        let (role, pair) = if cli_ws.is_none() {
            (ConnectionRole::Cli, WebSocketPair { cli_ws: Some(stream), fe_ws })
        } else if fe_ws.is_none() {
            (ConnectionRole::Frontend, WebSocketPair { cli_ws, fe_ws: Some(stream) })
        } else {
            (ConnectionRole::Surplus, WebSocketPair { cli_ws, fe_ws })
        };
        if pair.cli_ws.is_some() && pair.fe_ws.is_some() {
            ConnectOutcome { role, paired: Some(pair) }
        } else {
            self.pending.insert(id, pair);
            ConnectOutcome { role, paired: None }
        }
    }
}

/// A connection never disturbs the other sessions waiting in the registry.
pub proof fn lemma_connect_leaves_other_sessions<S>(
    pending: Map<u128, WebSocketPair<S>>,
    id: u128,
    stream: S,
    other: u128,
)
    requires
        other != id,
    ensures
        spec_connect(pending, id, stream).0.contains_key(other) == pending.contains_key(other),
        pending.contains_key(other) ==> spec_connect(pending, id, stream).0[other] == pending[other],
{
}

/// While every waiting session holds only its CLI connection, a new
/// connection is never dropped, and afterwards every waiting session still
/// holds only its CLI connection.
pub proof fn lemma_connect_keeps_sessions_waiting_for_frontend<S>(
    pending: Map<u128, WebSocketPair<S>>,
    id: u128,
    stream: S,
)
    requires
        all_waiting_for_frontend(pending),
    ensures
        all_waiting_for_frontend(spec_connect(pending, id, stream).0),
        spec_connect(pending, id, stream).1.role != ConnectionRole::Surplus,
        spec_connect(pending, id, stream).1.paired is Some <==> pending.contains_key(id),
{
    let after = spec_connect(pending, id, stream).0;
    assert forall|k: u128| #[trigger] after.contains_key(k) implies after[k].cli_ws is Some
        && after[k].fe_ws is None by {
        if k != id {
            assert(pending.contains_key(k));
        }
    }
}

/// For a session not yet waiting, the first connection becomes its CLI
/// connection and the second its frontend connection; the second hands out
/// the pair of the two, and the registry is as it was before the first.
pub proof fn lemma_cli_then_frontend_pairs<S>(
    pending: Map<u128, WebSocketPair<S>>,
    id: u128,
    cli: S,
    frontend: S,
)
    requires
        !pending.contains_key(id),
    ensures
        ({
            let (after_cli, first) = spec_connect(pending, id, cli);
            let (after_frontend, second) = spec_connect(after_cli, id, frontend);
            &&& first.role == ConnectionRole::Cli
            &&& first.paired is None
            &&& after_cli.contains_key(id)
            &&& second.role == ConnectionRole::Frontend
            &&& second.paired == Some(WebSocketPair { cli_ws: Some(cli), fe_ws: Some(frontend) })
            &&& after_frontend == pending
        }),
{
    let (after_cli, first) = spec_connect(pending, id, cli);
    let (after_frontend, second) = spec_connect(after_cli, id, frontend);
    assert(after_frontend =~= pending);
}

/// A message that reached a paired session; `M` is a message of the CLI.
#[derive(Debug)]
pub enum PairEvent<M> {
    /// The frontend sent a text that reads as a chat message.
    FrontendMessage(ContextMessage),
    /// The frontend sent something that is no readable chat message.
    FrontendUnreadable,
    /// The CLI sent this message.
    CliMessage(M),
    /// Reading from the CLI failed.
    CliUnreadable,
}

/// What the server does with a message of a paired session.
#[derive(Debug)]
pub enum PairAction<M> {
    /// Stop serving the session.
    StopSession,
    /// Start a chat action for this message.
    StartChatAction(ContextMessage),
    /// Pass this message of the CLI on to the frontend.
    ForwardToFrontend(M),
    /// Do nothing.
    Ignore,
}

/// The server's answer to a message of a paired session: a cancel from the
/// frontend stops the session, any other chat message from it starts a chat
/// action, CLI messages go on to the frontend unchanged, and whatever cannot
/// be read is passed over.
pub fn handle_cli_fe_pair_event<M>(event: PairEvent<M>) -> (r: PairAction<M>)
    ensures
        match event {
            PairEvent::FrontendMessage(message) => if message.message_type
                == MessageType::UserCancelCmd {
                r is StopSession
            } else {
                r == PairAction::<M>::StartChatAction(message)
            },
            PairEvent::FrontendUnreadable => r is Ignore,
            PairEvent::CliMessage(message) => r == PairAction::ForwardToFrontend(message),
            PairEvent::CliUnreadable => r is Ignore,
        },
{
    match event {
        PairEvent::FrontendMessage(message) => {
            if message.message_type == MessageType::UserCancelCmd {
                PairAction::StopSession
            } else {
                PairAction::StartChatAction(message)
            }
        },
        PairEvent::FrontendUnreadable => PairAction::Ignore,
        PairEvent::CliMessage(message) => PairAction::ForwardToFrontend(message),
        PairEvent::CliUnreadable => PairAction::Ignore,
    }
}

} // verus!
