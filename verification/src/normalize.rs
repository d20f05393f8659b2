//! Token-boundary repair between a buffered output and an incoming fragment.
//!
//! [`normalize_chunk`] trims the fragment, inserts one space where the
//! buffer ends in an alphanumeric character and the trimmed fragment starts
//! with one, and removes each space that stands immediately before one of
//! the punctuation marks `, . ! ? ; :`. The whole behaviour is pinned down
//! by [`norm_spec`].

use vstd::prelude::*;
use vstd::string::*;
use crate::text::char_alnum;
use crate::text::char_ws;
use crate::text::push_char;

verus! {

/// The punctuation marks that must not be preceded by a space.
pub open spec fn is_mark(c: char) -> bool {
    c == ',' || c == '.' || c == '!' || c == '?' || c == ';' || c == ':'
}

/// `s` with its leading whitespace removed.
pub open spec fn trim_front(s: Seq<char>) -> Seq<char>
    decreases s.len(),
{
    if s.len() == 0 {
        s
    } else if char_ws(s.first()) {
        trim_front(s.drop_first())
    } else {
        s
    }
}

/// `s` with its trailing whitespace removed.
pub open spec fn trim_back(s: Seq<char>) -> Seq<char>
    decreases s.len(),
{
    if s.len() == 0 {
        s
    } else if char_ws(s.last()) {
        trim_back(s.drop_last())
    } else {
        s
    }
}

/// `s` with leading and trailing whitespace removed.
pub open spec fn trim_spec(s: Seq<char>) -> Seq<char> {
    trim_back(trim_front(s))
}

/// `s` with every space dropped whose immediate successor is one of the
/// six punctuation marks.
pub open spec fn strip_spaces(s: Seq<char>) -> Seq<char>
    decreases s.len(),
{
    if s.len() == 0 {
        Seq::<char>::empty()
    } else if s.len() >= 2 && s.first() == ' ' && is_mark(s[1]) {
        strip_spaces(s.drop_first())
    } else {
        seq![s.first()] + strip_spaces(s.drop_first())
    }
}

/// Everything `normalize_chunk` returns, as a function of the fragment and
/// the prior buffer: the empty sequence for a fragment that is blank after
/// trimming; otherwise the trimmed fragment, preceded by one space exactly
/// when buffer and fragment meet alphanumeric-to-alphanumeric, with spaces
/// before punctuation marks removed.
pub open spec fn norm_spec(fragment: Seq<char>, prior: Seq<char>) -> Seq<char> {
    let t = trim_spec(fragment);
    if t.len() == 0 {
        Seq::<char>::empty()
    } else if prior.len() > 0 && char_alnum(prior.last()) && char_alnum(t.first()) {
        strip_spaces(seq![' '] + t)
    } else {
        strip_spaces(t)
    }
}

/// Whether a character is one of the six punctuation marks.
pub fn is_mark_char(c: char) -> (r: bool)
    ensures
        r == is_mark(c),
{
    c == ',' || c == '.' || c == '!' || c == '?' || c == ';' || c == ':'
}

/// Repair the boundary between `current_buffer` and `chunk` and return the
/// text to append and forward; the empty string when the chunk carries no
/// content.
pub fn normalize_chunk(chunk: &str, current_buffer: &str) -> (r: String)
    ensures
        r@ == norm_spec(chunk@, current_buffer@),
{
    let n = chunk.unicode_len();

    // Scan past the leading whitespace.
    proof {
        assert(chunk@.skip(0) =~= chunk@);
    }
    let mut lo: usize = 0;
    while lo < n && chunk.get_char(lo).is_whitespace()
        invariant
            0 <= lo <= n,
            n == chunk@.len(),
            trim_front(chunk@) == trim_front(chunk@.skip(lo as int)),
        decreases n - lo,
    {
        proof {
            let s = chunk@.skip(lo as int);
            assert(s.first() == chunk@[lo as int]);
            assert(s.drop_first() =~= chunk@.skip(lo as int + 1));
        }
        lo = lo + 1;
    }
    proof {
        assert(trim_front(chunk@) =~= chunk@.skip(lo as int));
    }

    // Scan back past the trailing whitespace.
    let mut hi: usize = n;
    while hi > lo && chunk.get_char(hi - 1).is_whitespace()
        invariant
            lo <= hi <= n,
            n == chunk@.len(),
            trim_front(chunk@) == chunk@.skip(lo as int),
            trim_back(chunk@.skip(lo as int)) == trim_back(chunk@.subrange(lo as int, hi as int)),
        decreases hi,
    {
        proof {
            let u = chunk@.subrange(lo as int, hi as int);
            assert(u.last() == chunk@[hi - 1]);
            assert(u.drop_last() =~= chunk@.subrange(lo as int, hi as int - 1));
        }
        hi = hi - 1;
    }
    proof {
        let u = chunk@.subrange(lo as int, hi as int);
        if u.len() > 0 {
            assert(u.last() == chunk@[hi - 1]);
        }
        assert(trim_back(u) =~= u);
        assert(trim_spec(chunk@) == chunk@.subrange(lo as int, hi as int));
    }

    let trimmed = chunk.substring_char(lo, hi);
    if hi == lo {
        return String::new();
    }

    // Decide whether the two sides meet alphanumeric-to-alphanumeric.
    let mut joined = String::new();
    let blen = current_buffer.unicode_len();
    if blen > 0 {
        let last = current_buffer.get_char(blen - 1);
        let first = trimmed.get_char(0);
        if last.is_alphanumeric() && first.is_alphanumeric() {
            push_char(&mut joined, ' ');
        }
    }
    joined.append(trimmed);
    let ghost j = joined@;
    proof {
        let t = trim_spec(chunk@);
        if current_buffer@.len() > 0 && char_alnum(current_buffer@.last()) && char_alnum(
            t.first(),
        ) {
            assert(j =~= seq![' '] + t);
        } else {
            assert(j =~= t);
        }
        assert(norm_spec(chunk@, current_buffer@) == strip_spaces(j));
    }

    // Drop each space that stands immediately before a punctuation mark.
    let jstr = joined.as_str();
    let jn = jstr.unicode_len();
    let mut out = String::new();
    proof {
        assert(j.skip(0) =~= j);
        assert(Seq::<char>::empty() + strip_spaces(j) =~= strip_spaces(j));
    }
    let mut i: usize = 0;
    while i < jn
        invariant
            0 <= i <= jn,
            jn == j.len(),
            jstr@ == j,
            strip_spaces(j) == out@ + strip_spaces(j.skip(i as int)),
        decreases jn - i,
    {
        let c = jstr.get_char(i);
        let dropped = c == ' ' && i + 1 < jn && is_mark_char(jstr.get_char(i + 1));
        proof {
            let s = j.skip(i as int);
            assert(s.first() == j[i as int]);
            if s.len() >= 2 {
                assert(s[1] == j[i as int + 1]);
            }
            assert(s.drop_first() =~= j.skip(i as int + 1));
        }
        if !dropped {
            push_char(&mut out, c);
            proof {
                assert(out@ + strip_spaces(j.skip(i as int + 1)) =~= strip_spaces(j));
            }
        }
        i = i + 1;
    }
    proof {
        assert(strip_spaces(j.skip(jn as int)) =~= Seq::<char>::empty());
        assert(out@ =~= strip_spaces(j));
    }
    out
}

/// No two adjacent spaces anywhere in `s`.
pub open spec fn no_double_space(s: Seq<char>) -> bool {
    forall|i: int| 0 <= i < s.len() - 1 ==> !(#[trigger] s[i] == ' ' && s[i + 1] == ' ')
}

/// No space immediately before one of the six punctuation marks anywhere
/// in `s`.
pub open spec fn no_space_before_mark(s: Seq<char>) -> bool {
    forall|i: int| 0 <= i < s.len() - 1 ==> !(#[trigger] s[i] == ' ' && is_mark(s[i + 1]))
}

/// A fragment that is whitespace-only after trimming contributes nothing.
pub proof fn lemma_blank_fragment_yields_nothing(fragment: Seq<char>, prior: Seq<char>)
    requires
        trim_spec(fragment).len() == 0,
    ensures
        norm_spec(fragment, prior) == Seq::<char>::empty(),
{
}

/// Re-normalizing an empty fragment against any already-merged buffer adds
/// nothing: the buffer stays exactly as it was.
pub proof fn lemma_renormalize_empty(prior: Seq<char>)
    ensures
        norm_spec(Seq::<char>::empty(), prior) == Seq::<char>::empty(),
{
    assert(trim_front(Seq::<char>::empty()).len() == 0);
    assert(trim_spec(Seq::<char>::empty()).len() == 0);
}

/// Exactly one space is inserted between buffer and fragment when the
/// buffer ends alphanumeric and the trimmed fragment starts alphanumeric;
/// otherwise none is.
pub proof fn lemma_boundary_space(fragment: Seq<char>, prior: Seq<char>)
    requires
        trim_spec(fragment).len() > 0,
    ensures
        (prior.len() > 0 && char_alnum(prior.last()) && char_alnum(trim_spec(fragment).first()))
            ==> norm_spec(fragment, prior) == seq![' '] + strip_spaces(trim_spec(fragment)),
        !(prior.len() > 0 && char_alnum(prior.last()) && char_alnum(trim_spec(fragment).first()))
            ==> norm_spec(fragment, prior) == strip_spaces(trim_spec(fragment)),
{
    let t = trim_spec(fragment);
    if prior.len() > 0 && char_alnum(prior.last()) && char_alnum(t.first()) {
        let j = seq![' '] + t;
        assert(j.first() == ' ');
        assert(j[1] == t.first());
        assert(!is_mark(t.first()));
        assert(j.drop_first() =~= t);
        assert(strip_spaces(j) == seq![' '] + strip_spaces(t));
    }
}

/// An alphanumeric character is not a space.
proof fn lemma_alnum_not_space(c: char)
    requires
        char_alnum(c),
    ensures
        c != ' ',
{
}

/// Dropping the flagged spaces leaves no space before a mark, provided the
/// input never carries two adjacent spaces.
proof fn lemma_strip_spaces_clean(s: Seq<char>)
    requires
        no_double_space(s),
    ensures
        no_space_before_mark(strip_spaces(s)),
    decreases s.len(),
{
    if s.len() == 0 {
    } else {
        let rest = s.drop_first();
        assert(no_double_space(rest)) by {
            assert(forall|i: int|
                0 <= i < rest.len() - 1 ==> #[trigger] rest[i] == s[i + 1] && rest[i + 1] == s[
                    i + 2
                ]);
        }
        lemma_strip_spaces_clean(rest);
        if s.len() >= 2 && s.first() == ' ' && is_mark(s[1]) {
        } else {
            let w = strip_spaces(rest);
            let r = seq![s.first()] + w;
            assert(strip_spaces(s) == r);
            assert forall|i: int| 0 <= i < r.len() - 1 implies !(#[trigger] r[i] == ' '
                && is_mark(r[i + 1])) by {
                if i == 0 {
                    if s.first() == ' ' && w.len() > 0 {
                        // The successor kept at the head of `w` is the
                        // second character of `s`, which is neither a
                        // space nor a mark here.
                        assert(s.len() >= 2);
                        assert(s[1] != ' ');
                        assert(rest.first() == s[1]);
                        assert(w.first() == rest.first());
                        assert(r[1] == w[0]);
                        assert(!is_mark(r[1]));
                    }
                } else {
                    assert(r[i] == w[i - 1]);
                    assert(r[i + 1] == w[i]);
                }
            }
        }
    }
}

/// The normalizer's output never keeps a space immediately before one of
/// the six punctuation marks, for any fragment whose trimmed text has no
/// two adjacent spaces.
pub proof fn lemma_no_space_before_mark(fragment: Seq<char>, prior: Seq<char>)
    requires
        no_double_space(trim_spec(fragment)),
    ensures
        no_space_before_mark(norm_spec(fragment, prior)),
{
    let t = trim_spec(fragment);
    if t.len() == 0 {
    } else if prior.len() > 0 && char_alnum(prior.last()) && char_alnum(t.first()) {
        let j = seq![' '] + t;
        lemma_alnum_not_space(t.first());
        assert(no_double_space(j)) by {
            assert(forall|i: int| 1 <= i < j.len() ==> j[i] == t[i - 1]);
            assert(j[1] == t.first());
        }
        lemma_strip_spaces_clean(j);
    } else {
        lemma_strip_spaces_clean(t);
    }
}

} // verus!
