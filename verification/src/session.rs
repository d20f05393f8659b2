//! The per-connection relay session: a state machine from inbound message
//! through generation to recording, and back to receiving.
//!
//! The session owns the turn's stream buffer and decides everything that is
//! not I/O: which text to forward for each raw fragment, what to hand to
//! the recorder and when, and what to fall back to when generation produced
//! nothing. The surrounding connection loop performs the sends, the backend
//! calls and the store writes, and feeds their outcomes back in.
//!
//! Chosen policies, where the design allows either: a disconnect or send
//! failure during generation discards the partial assistant reply rather
//! than persisting it; in structured mode fragments are buffered and
//! nothing is surfaced mid-parse, while in free-text mode every normalized
//! fragment is forwarded live.

use vstd::prelude::*;
use vstd::string::*;
use crate::decode::Response;
use crate::decode::grammar_matches;
use crate::decode::parse_response;
use crate::decode::parses_to_do;
use crate::decode::parses_to_say;
use crate::normalize::norm_spec;
use crate::normalize::normalize_chunk;
use crate::turn::ChatMessage;
use crate::turn::assistant_role;
use crate::turn::spec_assistant_role;
use crate::turn::spec_user_role;
use crate::turn::user_role;

verus! {

/// How the session treats generated text; fixed when the session is built,
/// never switched mid-session.
#[derive(Clone, Copy, PartialEq, Eq, Structural, Debug)]
pub enum Mode {
    /// Fragments are normalized and streamed to the client as they arrive.
    FreeText,
    /// Fragments are buffered; the completed turn is parsed against the
    /// tagged grammar and only then surfaced.
    Structured,
}

/// Where the session stands in its lifecycle.
#[derive(Clone, Copy, PartialEq, Eq, Structural, Debug)]
pub enum SessionPhase {
    /// Waiting for the next inbound client message.
    Receiving,
    /// Pulling fragments for the current turn.
    Generating,
    /// Terminal: the connection is gone, nothing more is sent or recorded.
    Closed,
}

/// One turn as it was handed to the recorder: the session's append-only
/// history of recording requests, in order.
pub ghost struct TurnEntry {
    pub role: Seq<char>,
    pub content: Seq<char>,
    pub timestamp: int,
}

/// The fixed reply sent in place of streamed content when generation
/// failed outright and produced nothing.
pub open spec fn fallback_spec() -> Seq<char> {
    "Error generating text"@
}

/// The fallback reply text.
pub fn generation_fallback() -> (r: String)
    ensures
        r@ == fallback_spec(),
{
    String::from_str("Error generating text")
}

/// The fallback reply is never empty, so recording it never records an
/// empty assistant turn.
pub proof fn lemma_fallback_nonempty()
    ensures
        fallback_spec().len() > 0,
{
    reveal_strlit("Error generating text");
}

/// The text surfaced to the client for a completed structured turn: the
/// variant's payload when the completed text parses, the raw text itself
/// otherwise (the documented fall-back to prose).
pub open spec fn surfaced_text(s: Seq<char>) -> Seq<char> {
    if parses_to_do(s) {
        s.skip(3)
    } else if parses_to_say(s) {
        s.skip(4)
    } else {
        s
    }
}

/// Everything the connection loop must do when a turn's stream ends.
pub struct StreamEndOutcome {
    /// A message still owed to the client: the fallback reply, or in
    /// structured mode the surfaced text. `None` when streaming already
    /// delivered everything.
    pub to_send: Option<String>,
    /// The assistant turn to persist, exactly once.
    pub record: ChatMessage,
    /// The parsed action, in structured mode, when the completed text
    /// matched the grammar.
    pub action: Option<Response>,
}

/// One connection's relay session.
pub struct RelaySession {
    mode: Mode,
    phase: SessionPhase,
    buffer: String,
    log: Ghost<Seq<TurnEntry>>,
}

impl RelaySession {
    /// The session never sits waiting for a message with stale turn text:
    /// between turns the stream buffer is empty.
    pub closed spec fn wf(self) -> bool {
        self.phase == SessionPhase::Receiving ==> self.buffer@.len() == 0
    }

    /// The configured mode.
    pub closed spec fn mode_now(self) -> Mode {
        self.mode
    }

    /// The lifecycle phase.
    pub closed spec fn phase_now(self) -> SessionPhase {
        self.phase
    }

    /// The accumulated text of the in-progress assistant turn.
    pub closed spec fn buffer_now(self) -> Seq<char> {
        self.buffer@
    }

    /// Every turn handed to the recorder so far, in order.
    pub closed spec fn recorded(self) -> Seq<TurnEntry> {
        self.log@
    }

    /// A fresh session for one newly opened connection.
    pub fn new(mode: Mode) -> (s: RelaySession)
        ensures
            s.wf(),
            s.mode_now() == mode,
            s.phase_now() == SessionPhase::Receiving,
            s.buffer_now() == Seq::<char>::empty(),
            s.recorded() == Seq::<TurnEntry>::empty(),
    {
        RelaySession {
            mode,
            phase: SessionPhase::Receiving,
            buffer: String::new(),
            log: Ghost(Seq::empty()),
        }
    }

    /// Read the lifecycle phase.
    pub fn phase(&self) -> (p: SessionPhase)
        ensures
            p == self.phase_now(),
    {
        self.phase
    }

    /// Read the configured mode.
    pub fn mode(&self) -> (m: Mode)
        ensures
            m == self.mode_now(),
    {
        self.mode
    }

    /// One inbound client message: the user turn is handed out for
    /// recording before generation starts, and the session enters its
    /// generating phase with an empty stream buffer.
    pub fn on_client_message(&mut self, text: &str, timestamp: i64) -> (t: ChatMessage)
        requires
            old(self).wf(),
            old(self).phase_now() == SessionPhase::Receiving,
        ensures
            final(self).wf(),
            final(self).mode_now() == old(self).mode_now(),
            final(self).phase_now() == SessionPhase::Generating,
            final(self).buffer_now() == Seq::<char>::empty(),
            t.role@ == spec_user_role(),
            t.content@ == text@,
            t.timestamp == timestamp,
            t.id is None,
            final(self).recorded() == old(self).recorded().push(
                TurnEntry { role: spec_user_role(), content: text@, timestamp: timestamp as int },
            ),
    {
        self.phase = SessionPhase::Generating;
        let t = ChatMessage::new(user_role(), String::from_str(text), timestamp);
        self.log = Ghost(
            self.log@.push(
                TurnEntry { role: spec_user_role(), content: text@, timestamp: timestamp as int },
            ),
        );
        t
    }

    /// One raw fragment from the token source. In free-text mode the
    /// fragment is normalized against the buffer; whatever the normalizer
    /// kept is appended and returned for immediate delivery, and a fragment
    /// that was whitespace-only leaves the buffer untouched and sends
    /// nothing. In structured mode the raw fragment is buffered and nothing
    /// is surfaced. Nothing is ever recorded per fragment.
    pub fn on_fragment(&mut self, chunk: &str) -> (out: Option<String>)
        requires
            old(self).wf(),
            old(self).phase_now() == SessionPhase::Generating,
        ensures
            final(self).wf(),
            final(self).mode_now() == old(self).mode_now(),
            final(self).phase_now() == SessionPhase::Generating,
            final(self).recorded() == old(self).recorded(),
            old(self).mode_now() == Mode::Structured ==> out is None && final(self).buffer_now()
                == old(self).buffer_now() + chunk@,
            old(self).mode_now() == Mode::FreeText ==> ({
                let n = norm_spec(chunk@, old(self).buffer_now());
                &&& (n.len() == 0 ==> out is None && final(self).buffer_now() == old(
                    self,
                ).buffer_now())
                &&& (n.len() > 0 ==> (out matches Some(s) && s@ == n) && final(self).buffer_now()
                    == old(self).buffer_now() + n)
            }),
    {
        match self.mode {
            Mode::Structured => {
                self.buffer.append(chunk);
                None
            },
            Mode::FreeText => {
                let normalized = normalize_chunk(chunk, self.buffer.as_str());
                if normalized.unicode_len() == 0 {
                    None
                } else {
                    self.buffer.append(normalized.as_str());
                    Some(normalized)
                }
            },
        }
    }

    /// The turn's stream is over, normally or by a mid-stream backend
    /// failure. The accumulated text — or the fixed fallback, when nothing
    /// at all was accumulated — becomes the assistant turn, handed out for
    /// recording exactly once; the buffer is cleared and the session waits
    /// for the next message. In structured mode the completed text is
    /// parsed here, and an unparseable turn is surfaced as plain prose,
    /// never as an action.
    pub fn on_stream_end(&mut self, timestamp: i64) -> (r: StreamEndOutcome)
        requires
            old(self).wf(),
            old(self).phase_now() == SessionPhase::Generating,
        ensures
            final(self).wf(),
            final(self).mode_now() == old(self).mode_now(),
            final(self).phase_now() == SessionPhase::Receiving,
            final(self).buffer_now() == Seq::<char>::empty(),
            r.record.role@ == spec_assistant_role(),
            r.record.timestamp == timestamp,
            r.record.id is None,
            final(self).recorded() == old(self).recorded().push(
                TurnEntry {
                    role: spec_assistant_role(),
                    content: r.record.content@,
                    timestamp: timestamp as int,
                },
            ),
            old(self).buffer_now().len() == 0 ==> (r.to_send matches Some(s) && s@
                == fallback_spec()) && r.record.content@ == fallback_spec() && r.action is None,
            old(self).buffer_now().len() > 0 ==> r.record.content@ == old(self).buffer_now(),
            old(self).buffer_now().len() > 0 && old(self).mode_now() == Mode::FreeText
                ==> r.to_send is None && r.action is None,
            old(self).buffer_now().len() > 0 && old(self).mode_now() == Mode::Structured ==> ({
                let b = old(self).buffer_now();
                &&& (r.to_send matches Some(s) && s@ == surfaced_text(b))
                &&& (grammar_matches(b) ==> (r.action matches Some(a) && a.well_parsed_from(b)))
                &&& (!grammar_matches(b) ==> r.action is None)
            }),
    {
        let buffer_empty = self.buffer.unicode_len() == 0;
        let mut to_send: Option<String> = None;
        let mut action: Option<Response> = None;
        let content: String;
        if buffer_empty {
            let fb = generation_fallback();
            to_send = Some(fb.clone());
            content = fb;
        } else {
            if let Mode::Structured = self.mode {
                match parse_response(self.buffer.as_str()) {
                    Some(a) => {
                        let payload = match &a {
                            Response::Do(p) => p.clone(),
                            Response::Say(p) => p.clone(),
                        };
                        to_send = Some(payload);
                        action = Some(a);
                    },
                    None => {
                        to_send = Some(self.buffer.clone());
                    },
                }
            }
            content = self.buffer.clone();
        }
        self.buffer = String::new();
        self.phase = SessionPhase::Receiving;
        let record = ChatMessage::new(assistant_role(), content, timestamp);
        self.log = Ghost(
            self.log@.push(
                TurnEntry {
                    role: spec_assistant_role(),
                    content: record.content@,
                    timestamp: timestamp as int,
                },
            ),
        );
        StreamEndOutcome { to_send, record, action }
    }

    /// The connection is gone: the client closed it or a send failed.
    /// Terminal; a partial assistant reply still in the buffer is
    /// discarded, not persisted.
    pub fn close(&mut self)
        requires
            old(self).wf(),
        ensures
            final(self).wf(),
            final(self).mode_now() == old(self).mode_now(),
            final(self).phase_now() == SessionPhase::Closed,
            final(self).recorded() == old(self).recorded(),
    {
        self.phase = SessionPhase::Closed;
        self.buffer = String::new();
    }
}

} // verus!
