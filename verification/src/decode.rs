//! Constrained decoding of a completed generation into the two-variant
//! tagged grammar `Do <payload>` / `Say <payload>`.
//!
//! The decoder is a small explicit state machine. While fragments arrive it
//! only accumulates text and tracks how far the accumulated prefix has
//! committed to one of the two variant tags; nothing is surfaced mid-parse.
//! When the backend signals end of generation, [`ConstrainedDecoder::finish`]
//! either yields the parsed [`Response`] or reports that the turn must be
//! treated as raw prose — text that does not match the grammar is never
//! surfaced as an action.

use vstd::prelude::*;
use vstd::string::*;

verus! {

/// A parsed structured reply: an action to perform or an utterance to say.
#[derive(Clone)]
pub enum Response {
    Do(String),
    Say(String),
}

/// The completed text selects the `Do` variant: it starts with the tag
/// `Do` followed by one space; the payload is everything after the tag.
pub open spec fn parses_to_do(s: Seq<char>) -> bool {
    s.len() >= 3 && s[0] == 'D' && s[1] == 'o' && s[2] == ' '
}

/// The completed text selects the `Say` variant: it starts with the tag
/// `Say` followed by one space; the payload is everything after the tag.
pub open spec fn parses_to_say(s: Seq<char>) -> bool {
    s.len() >= 4 && s[0] == 'S' && s[1] == 'a' && s[2] == 'y' && s[3] == ' '
}

/// The completed text matches the grammar at all.
pub open spec fn grammar_matches(s: Seq<char>) -> bool {
    parses_to_do(s) || parses_to_say(s)
}

/// `s` is still a proper prefix of one of the two tags: the variant is not
/// yet decided, and more text could still make either tag.
pub open spec fn awaiting_tag(s: Seq<char>) -> bool {
    ||| s.len() == 0
    ||| (s.len() == 1 && (s[0] == 'D' || s[0] == 'S'))
    ||| (s.len() == 2 && (s =~= seq!['D', 'o'] || s =~= seq!['S', 'a']))
    ||| (s.len() == 3 && s =~= seq!['S', 'a', 'y'])
}

impl Response {
    /// This value is the one correct parse of the completed text `s`.
    pub open spec fn well_parsed_from(self, s: Seq<char>) -> bool {
        match self {
            Response::Do(p) => parses_to_do(s) && p@ == s.skip(3),
            Response::Say(p) => parses_to_say(s) && p@ == s.skip(4),
        }
    }

    /// The payload carried by the variant.
    pub open spec fn payload(self) -> Seq<char> {
        match self {
            Response::Do(p) => p@,
            Response::Say(p) => p@,
        }
    }
}

/// Where an in-progress generation stands with respect to the grammar.
#[derive(Clone, Copy, PartialEq, Eq, Structural, Debug)]
pub enum DecodePhase {
    /// Nothing has ruled either variant in or out yet.
    AwaitingVariantTag,
    /// One variant's tag has been read; the rest of the stream is payload.
    AccumulatingVariantPayload,
    /// The prefix diverged from both tags; the documented fallback policy
    /// treats the whole turn as raw prose.
    RawText,
}

/// The phase that a given accumulated text puts the decoder in.
pub open spec fn phase_of(s: Seq<char>) -> DecodePhase {
    if grammar_matches(s) {
        DecodePhase::AccumulatingVariantPayload
    } else if awaiting_tag(s) {
        DecodePhase::AwaitingVariantTag
    } else {
        DecodePhase::RawText
    }
}

/// Compute [`phase_of`] on the accumulated text.
fn classify_phase(s: &str) -> (p: DecodePhase)
    ensures
        p == phase_of(s@),
{
    let n = s.unicode_len();
    let is_do = n >= 3 && s.get_char(0) == 'D' && s.get_char(1) == 'o' && s.get_char(2) == ' ';
    let is_say = n >= 4 && s.get_char(0) == 'S' && s.get_char(1) == 'a' && s.get_char(2) == 'y'
        && s.get_char(3) == ' ';
    if is_do || is_say {
        DecodePhase::AccumulatingVariantPayload
    } else {
        let waiting = if n == 0 {
            true
        } else if n == 1 {
            let c = s.get_char(0);
            c == 'D' || c == 'S'
        } else if n == 2 {
            let a = s.get_char(0);
            let b = s.get_char(1);
            (a == 'D' && b == 'o') || (a == 'S' && b == 'a')
        } else if n == 3 {
            s.get_char(0) == 'S' && s.get_char(1) == 'a' && s.get_char(2) == 'y'
        } else {
            false
        };
        proof {
            if n == 2 {
                assert(s@ =~= seq![s@[0], s@[1]]);
            }
            if n == 3 {
                assert(s@ =~= seq![s@[0], s@[1], s@[2]]);
            }
        }
        if waiting {
            DecodePhase::AwaitingVariantTag
        } else {
            DecodePhase::RawText
        }
    }
}

/// Parse a completed generation against the grammar. Returns the parsed
/// action exactly when the text matches; unmatched text yields `None` and
/// is left to the raw-prose fallback.
pub fn parse_response(s: &str) -> (r: Option<Response>)
    ensures
        match r {
            Some(a) => a.well_parsed_from(s@),
            None => !grammar_matches(s@),
        },
{
    let n = s.unicode_len();
    if n >= 3 && s.get_char(0) == 'D' && s.get_char(1) == 'o' && s.get_char(2) == ' ' {
        let payload = s.substring_char(3, n);
        proof {
            assert(payload@ =~= s@.skip(3));
        }
        Some(Response::Do(String::from_str(payload)))
    } else if n >= 4 && s.get_char(0) == 'S' && s.get_char(1) == 'a' && s.get_char(2) == 'y'
        && s.get_char(3) == ' ' {
        let payload = s.substring_char(4, n);
        proof {
            assert(payload@ =~= s@.skip(4));
        }
        Some(Response::Say(String::from_str(payload)))
    } else {
        None
    }
}

/// The incremental decoder for one assistant turn: accumulates the raw
/// generated text and tracks the grammar phase. Nothing is surfaced until
/// the stream ends.
pub struct ConstrainedDecoder {
    phase: DecodePhase,
    acc: String,
}

impl ConstrainedDecoder {
    /// The phase always reflects the accumulated text.
    pub closed spec fn wf(self) -> bool {
        self.phase == phase_of(self.acc@)
    }

    /// Everything fed so far.
    pub closed spec fn accumulated(self) -> Seq<char> {
        self.acc@
    }

    /// A fresh decoder: nothing accumulated, no variant decided.
    pub fn new() -> (d: ConstrainedDecoder)
        ensures
            d.wf(),
            d.accumulated() == Seq::<char>::empty(),
            d.phase_now() == DecodePhase::AwaitingVariantTag,
    {
        let d = ConstrainedDecoder { phase: DecodePhase::AwaitingVariantTag, acc: String::new() };
        d
    }

    /// The current phase.
    pub closed spec fn phase_now(self) -> DecodePhase {
        self.phase
    }

    /// Read the current phase.
    pub fn phase(&self) -> (p: DecodePhase)
        ensures
            p == self.phase_now(),
    {
        self.phase
    }

    /// Take in one raw fragment. The fragment is buffered, never surfaced:
    /// mid-parse output is not part of structured mode.
    pub fn feed(&mut self, fragment: &str)
        requires
            old(self).wf(),
        ensures
            final(self).wf(),
            final(self).accumulated() == old(self).accumulated() + fragment@,
            final(self).phase_now() == phase_of(final(self).accumulated()),
    {
        self.acc.append(fragment);
        self.phase = classify_phase(self.acc.as_str());
    }

    /// End of generation: the turn is complete. Returns the parsed action
    /// exactly when the accumulated text matches the grammar, and the raw
    /// accumulated text otherwise, for the caller's raw-prose fallback.
    pub fn finish(self) -> (r: Result<Response, String>)
        requires
            self.wf(),
        ensures
            match r {
                Ok(a) => a.well_parsed_from(self.accumulated()),
                Err(raw) => !grammar_matches(self.accumulated()) && raw@ == self.accumulated(),
            },
    {
        match parse_response(self.acc.as_str()) {
            Some(a) => Ok(a),
            None => Err(self.acc),
        }
    }
}

/// Once one variant's tag has been read, no later fragment can unread it:
/// the payload-accumulating phase is absorbing.
pub proof fn lemma_tag_once_read_stays_read(s: Seq<char>, t: Seq<char>)
    requires
        phase_of(s) == DecodePhase::AccumulatingVariantPayload,
    ensures
        phase_of(s + t) == DecodePhase::AccumulatingVariantPayload,
{
    assert(forall|i: int| 0 <= i < s.len() ==> (s + t)[i] == s[i]);
}

/// Once the prefix has diverged from both tags, no later fragment can
/// repair it: the raw-prose fallback is absorbing, so a turn rejected by
/// the grammar stays rejected.
pub proof fn lemma_raw_text_is_absorbing(s: Seq<char>, t: Seq<char>)
    requires
        phase_of(s) == DecodePhase::RawText,
    ensures
        phase_of(s + t) == DecodePhase::RawText,
{
    assert(forall|i: int| 0 <= i < s.len() ==> (s + t)[i] == s[i]);
    assert(s.len() >= 1);
    if s.len() == 2 {
        assert(!(s =~= seq!['D', 'o']) ==> !(s[0] == 'D' && s[1] == 'o'));
        assert(!(s =~= seq!['S', 'a']) ==> !(s[0] == 'S' && s[1] == 'a'));
    }
    if s.len() == 3 {
        assert(!(s =~= seq!['S', 'a', 'y']) ==> !(s[0] == 'S' && s[1] == 'a' && s[2] == 'y'));
    }
    let u = s + t;
    assert(!grammar_matches(u));
    if u.len() == 2 {
        assert(u =~= seq![u[0], u[1]]);
    }
    if u.len() == 3 {
        assert(u =~= seq![u[0], u[1], u[2]]);
    }
    assert(!awaiting_tag(u));
}

/// No action can be the parse of text that does not match the grammar: an
/// unparseable completed generation is never surfaced as a `Response`.
pub proof fn lemma_no_action_without_match(a: Response, s: Seq<char>)
    requires
        a.well_parsed_from(s),
    ensures
        grammar_matches(s),
{
}

/// The parse is unambiguous: two actions parsed from the same completed
/// text agree on the variant and on the payload. At most one top-level
/// variant is produced per turn.
pub proof fn lemma_parse_unambiguous(a: Response, b: Response, s: Seq<char>)
    requires
        a.well_parsed_from(s),
        b.well_parsed_from(s),
    ensures
        a is Do <==> b is Do,
        a.payload() == b.payload(),
{
}

} // verus!
