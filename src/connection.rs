use vstd::prelude::*;

use crate::codec::{decode_message, event_for, event_from_pair, pair_from_document, MessageError};
use crate::events::ServerEvent;
use crate::json::json_parse;

verus! {

/// What a connection handler hands to its session: a frame that came in, or
/// what happened to the stream.
pub enum Incoming {
    /// The protocol upgrade finished.
    Upgraded,
    /// A text frame.
    Text(String),
    /// A ping, with its payload.
    Ping(Vec<u8>),
    /// Any other frame (binary, pong): ignored.
    Other,
    /// The peer sent a close frame.
    Close,
    /// The stream ended without a close frame.
    Ended,
    /// Reading from the stream failed.
    ReadError,
    /// Writing to the stream failed.
    WriteError,
}

/// A frame to write back to the peer.
pub enum Reply {
    Text(String),
    Pong(Vec<u8>),
}

/// A reply as plain values.
pub enum ReplyView {
    Text(Seq<char>),
    Pong(Seq<u8>),
}

impl View for Reply {
    type V = ReplyView;

    open spec fn view(&self) -> ReplyView {
        match self {
            Reply::Text(s) => ReplyView::Text(s@),
            Reply::Pong(p) => ReplyView::Pong(p@),
        }
    }
}

/// Where a connection stands.
#[derive(Debug, Clone, Copy, PartialEq, Eq, Structural)]
pub enum Phase {
    /// Accepted; the protocol upgrade is under way.
    Handshake,
    /// Reading and answering frames.
    Open,
    /// Done: nothing more is read, written or reported.
    Closed,
}

/// What the handler does after one input.
pub struct Step {
    /// A frame to write back, if any.
    pub reply: Option<Reply>,
    /// An event to queue for the game loop, if any.
    pub event: Option<ServerEvent>,
    /// Whether to go on reading.
    pub keep_open: bool,
}

/// The rules of one connection, from accept to close.
pub struct Connection {
    pub phase: Phase,
}

/// An input that ends the connection.
pub open spec fn is_terminal(i: Incoming) -> bool {
    match i {
        Incoming::Close | Incoming::Ended | Incoming::ReadError | Incoming::WriteError => true,
        _ => false,
    }
}

/// The phase after an input.
pub open spec fn next_phase(p: Phase, i: Incoming) -> Phase {
    if p is Closed || is_terminal(i) {
        Phase::Closed
    } else if i is Upgraded {
        Phase::Open
    } else {
        p
    }
}

/// The event that an input in a phase queues.
pub open spec fn event_on(p: Phase, i: Incoming) -> Option<ServerEvent> {
    if p is Closed {
        None
    } else if is_terminal(i) {
        Some(ServerEvent::ConnectionLost)
    } else {
        match i {
            Incoming::Text(t) => if p is Open {
                match event_from_pair(pair_from_document(json_parse(t@))) {
                    Ok(e) => Some(e),
                    Err(_) => None,
                }
            } else {
                None
            },
            _ => None,
        }
    }
}

/// The acknowledgment for a decoded frame: `OK`, `Unknown action`, or
/// `Parse error`.
pub open spec fn ack_for(r: Result<ServerEvent, MessageError>) -> Seq<char> {
    match r {
        Ok(_) => "OK"@,
        Err(MessageError::UnknownAction) => "Unknown action"@,
        Err(_) => "Parse error"@,
    }
}

/// The greeting sent once the upgrade is done.
pub open spec fn greeting() -> Seq<char> {
    "Connected to game server"@
}

/// The reply that an input in a phase calls for.
pub open spec fn reply_for(p: Phase, i: Incoming) -> Option<ReplyView> {
    match (p, i) {
        (Phase::Handshake, Incoming::Upgraded) => Some(ReplyView::Text(greeting())),
        (Phase::Open, Incoming::Text(t)) => Some(
            ReplyView::Text(ack_for(event_from_pair(pair_from_document(json_parse(t@))))),
        ),
        (Phase::Open, Incoming::Ping(payload)) => Some(ReplyView::Pong(payload@)),
        _ => None,
    }
}

/// A reply, if any, as plain values.
pub open spec fn reply_view(r: Option<Reply>) -> Option<ReplyView> {
    match r {
        Some(x) => Some(x@),
        None => None,
    }
}

/// The events that a run of inputs queues, from a phase on.
pub open spec fn session_events(p: Phase, inputs: Seq<Incoming>) -> Seq<ServerEvent>
    decreases inputs.len(),
{
    if inputs.len() == 0 {
        seq![]
    } else {
        let here = match event_on(p, inputs[0]) {
            Some(e) => seq![e],
            None => seq![],
        };
        here + session_events(next_phase(p, inputs[0]), inputs.drop_first())
    }
}

/// How many times an event occurs in a sequence.
pub open spec fn occurrences(es: Seq<ServerEvent>, e: ServerEvent) -> nat
    decreases es.len(),
{
    if es.len() == 0 {
        0
    } else {
        (if es[0] == e {
            1nat
        } else {
            0nat
        }) + occurrences(es.drop_first(), e)
    }
}

impl Connection {
    /// A connection just accepted; the game loop learns of it at once.
    pub fn accept() -> (r: (Connection, ServerEvent))
        ensures
            r.0.phase == Phase::Handshake,
            r.1 == ServerEvent::ConnectionEstablished,
    {
        (Connection { phase: Phase::Handshake }, ServerEvent::ConnectionEstablished)
    }

    /// Takes one input: says what to write back, what to queue, and whether
    /// to go on reading.
    pub fn step(&mut self, input: Incoming) -> (r: Step)
        ensures
            final(self).phase == next_phase(old(self).phase, input),
            r.event == event_on(old(self).phase, input),
            reply_view(r.reply) == reply_for(old(self).phase, input),
            r.keep_open == !(final(self).phase is Closed),
    {
        if self.phase == Phase::Closed {
            return Step { reply: None, event: None, keep_open: false };
        }
        match input {
            Incoming::Close | Incoming::Ended | Incoming::ReadError | Incoming::WriteError => {
                self.phase = Phase::Closed;
                Step { reply: None, event: Some(ServerEvent::ConnectionLost), keep_open: false }
            },
            Incoming::Upgraded => {
                if self.phase == Phase::Handshake {
                    self.phase = Phase::Open;
                    Step {
                        reply: Some(Reply::Text(String::from_str("Connected to game server"))),
                        event: None,
                        keep_open: true,
                    }
                } else {
                    self.phase = Phase::Open;
                    Step { reply: None, event: None, keep_open: true }
                }
            },
            Incoming::Text(t) => {
                if self.phase == Phase::Open {
                    let decoded = decode_message(t.as_str());
                    match decoded {
                        Ok(e) => Step {
                            reply: Some(Reply::Text(String::from_str("OK"))),
                            event: Some(e),
                            keep_open: true,
                        },
                        Err(MessageError::UnknownAction) => Step {
                            reply: Some(Reply::Text(String::from_str("Unknown action"))),
                            event: None,
                            keep_open: true,
                        },
                        Err(_) => Step {
                            reply: Some(Reply::Text(String::from_str("Parse error"))),
                            event: None,
                            keep_open: true,
                        },
                    }
                } else {
                    Step { reply: None, event: None, keep_open: true }
                }
            },
            Incoming::Ping(payload) => {
                if self.phase == Phase::Open {
                    Step { reply: Some(Reply::Pong(payload)), event: None, keep_open: true }
                } else {
                    Step { reply: None, event: None, keep_open: true }
                }
            },
            Incoming::Other => Step { reply: None, event: None, keep_open: true },
        }
    }
}

proof fn lemma_occurrences_concat(a: Seq<ServerEvent>, b: Seq<ServerEvent>, e: ServerEvent)
    ensures
        occurrences(a + b, e) == occurrences(a, e) + occurrences(b, e),
    decreases a.len(),
{
    if a.len() > 0 {
        assert((a + b).drop_first() =~= a.drop_first() + b);
        lemma_occurrences_concat(a.drop_first(), b, e);
    } else {
        assert(a + b =~= b);
    }
}

/// Over the whole life of a connection, from any phase on: the handler
/// reports `ConnectionLost` exactly once if the connection is still live and
/// the stream ends, closes or fails, and never otherwise; it never reports
/// `ConnectionEstablished` again after the accept.
pub proof fn lemma_connection_lost_once(p: Phase, inputs: Seq<Incoming>)
    ensures
        occurrences(session_events(p, inputs), ServerEvent::ConnectionLost) == (if !(p is Closed)
            && exists|i: int| 0 <= i < inputs.len() && is_terminal(#[trigger] inputs[i]) {
            1nat
        } else {
            0nat
        }),
        occurrences(session_events(p, inputs), ServerEvent::ConnectionEstablished) == 0,
    decreases inputs.len(),
{
    if inputs.len() == 0 {
        assert(session_events(p, inputs) =~= Seq::<ServerEvent>::empty());
    } else {
        let i0 = inputs[0];
        let rest = inputs.drop_first();
        let here = match event_on(p, i0) {
            Some(e) => seq![e],
            None => seq![],
        };
        lemma_connection_lost_once(next_phase(p, i0), rest);
        lemma_occurrences_concat(here, session_events(next_phase(p, i0), rest), ServerEvent::ConnectionLost);
        lemma_occurrences_concat(
            here,
            session_events(next_phase(p, i0), rest),
            ServerEvent::ConnectionEstablished,
        );
        assert(session_events(p, inputs) == here + session_events(next_phase(p, i0), rest));
        if here.len() > 0 {
            assert(here.drop_first() =~= Seq::<ServerEvent>::empty());
            assert(occurrences(here.drop_first(), ServerEvent::ConnectionLost) == 0);
            assert(occurrences(here.drop_first(), ServerEvent::ConnectionEstablished) == 0);
            assert(here[0] != ServerEvent::ConnectionEstablished);
            assert(here[0] == ServerEvent::ConnectionLost <==> (!(p is Closed) && is_terminal(i0)));
        }
        if !(p is Closed) && !is_terminal(i0) {
            assert((exists|i: int| 0 <= i < inputs.len() && is_terminal(#[trigger] inputs[i])) ==> (
            exists|i: int| 0 <= i < rest.len() && is_terminal(#[trigger] rest[i]))) by {
                if exists|i: int| 0 <= i < inputs.len() && is_terminal(#[trigger] inputs[i]) {
                    let i = choose|i: int| 0 <= i < inputs.len() && is_terminal(#[trigger] inputs[i]);
                    assert(i != 0);
                    assert(rest[i - 1] == inputs[i]);
                }
            }
            assert((exists|i: int| 0 <= i < rest.len() && is_terminal(#[trigger] rest[i])) ==> (
            exists|i: int| 0 <= i < inputs.len() && is_terminal(#[trigger] inputs[i]))) by {
                if exists|i: int| 0 <= i < rest.len() && is_terminal(#[trigger] rest[i]) {
                    let i = choose|i: int| 0 <= i < rest.len() && is_terminal(#[trigger] rest[i]);
                    assert(inputs[i + 1] == rest[i]);
                }
            }
        }
        if !(p is Closed) && is_terminal(i0) {
            assert(is_terminal(inputs[0]));
        }
    }
}

/// A text frame that does not parse (not a JSON object, a field missing or
/// of the wrong type) queues nothing, is answered with `Parse error`, and
/// leaves the connection open.
pub proof fn lemma_malformed_frame_rejected(t: String)
    ensures
        pair_from_document(json_parse(t@)) is Err ==> {
            &&& event_on(Phase::Open, Incoming::Text(t)) is None
            &&& reply_for(Phase::Open, Incoming::Text(t)) == Some(ReplyView::Text("Parse error"@))
            &&& next_phase(Phase::Open, Incoming::Text(t)) == Phase::Open
        },
{
}

/// A text frame that parses but names no known action queues nothing, is
/// answered with `Unknown action`, and leaves the connection open.
pub proof fn lemma_unknown_action_rejected(t: String)
    ensures
        ({
            let p = pair_from_document(json_parse(t@));
            p is Ok && event_for(p->Ok_0.0, p->Ok_0.1) is None
        }) ==> {
            &&& event_on(Phase::Open, Incoming::Text(t)) is None
            &&& reply_for(Phase::Open, Incoming::Text(t)) == Some(
                ReplyView::Text("Unknown action"@),
            )
            &&& next_phase(Phase::Open, Incoming::Text(t)) == Phase::Open
        },
{
}

} // verus!
