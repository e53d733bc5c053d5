//! Transcript text handling.
//!
//! Backends hand back raw recognized text; the pipeline trims surrounding
//! whitespace, assembles segment lists into one transcript, and refuses to
//! inject text that is empty or whitespace-only. An [`InjectionRequest`]
//! can only be built from text with something in it, so the injector is
//! never invoked with a blank string.

use vstd::prelude::*;
use vstd::string::{StrSliceExecFns, StringExecFns};

verus! {

/// The whitespace characters the pipeline trims and screens for: blanks,
/// tabs and line breaks.
pub open spec fn is_space_char(c: char) -> bool {
    c == ' ' || c == '\t' || c == '\n' || c == '\r'
}

/// Whether every character of `s` is whitespace (vacuously true of the
/// empty text).
pub open spec fn all_space(s: Seq<char>) -> bool {
    forall|i: int| 0 <= i < s.len() ==> is_space_char(s[i])
}

/// `s` without leading whitespace.
pub open spec fn trim_front(s: Seq<char>) -> Seq<char>
    decreases s.len(),
{
    if s.len() > 0 && is_space_char(s.first()) {
        trim_front(s.drop_first())
    } else {
        s
    }
}

/// `s` without trailing whitespace.
pub open spec fn trim_back(s: Seq<char>) -> Seq<char>
    decreases s.len(),
{
    if s.len() > 0 && is_space_char(s.last()) {
        trim_back(s.drop_last())
    } else {
        s
    }
}

/// `s` without surrounding whitespace.
pub open spec fn trimmed(s: Seq<char>) -> Seq<char> {
    trim_back(trim_front(s))
}

/// Text that trims away to nothing: empty or whitespace-only.
pub open spec fn is_blank(s: Seq<char>) -> bool {
    trimmed(s).len() == 0
}

proof fn lemma_trim_front_at(s: Seq<char>, a: int)
    requires
        0 <= a <= s.len(),
        forall|j: int| 0 <= j < a ==> is_space_char(s[j]),
        a == s.len() || !is_space_char(s[a]),
    ensures
        trim_front(s) == s.subrange(a, s.len() as int),
    decreases s.len(),
{
    if a == 0 {
        assert(trim_front(s) =~= s.subrange(0, s.len() as int));
    } else {
        let rest = s.drop_first();
        lemma_trim_front_at(rest, a - 1);
        assert(rest.subrange(a - 1, rest.len() as int) =~= s.subrange(a, s.len() as int));
    }
}

proof fn lemma_trim_back_at(s: Seq<char>, b: int)
    requires
        0 <= b <= s.len(),
        forall|j: int| b <= j < s.len() ==> is_space_char(s[j]),
        b == 0 || !is_space_char(s[b - 1]),
    ensures
        trim_back(s) == s.subrange(0, b),
    decreases s.len(),
{
    if b == s.len() {
        assert(trim_back(s) =~= s.subrange(0, b));
    } else {
        let rest = s.drop_last();
        lemma_trim_back_at(rest, b);
        assert(rest.subrange(0, b) =~= s.subrange(0, b));
    }
}

/// Whitespace-only text trims away to nothing.
pub proof fn lemma_all_space_is_blank(s: Seq<char>)
    requires
        all_space(s),
    ensures
        is_blank(s),
{
    lemma_trim_front_at(s, s.len() as int);
    assert(trim_front(s) =~= Seq::<char>::empty());
}

proof fn lemma_trim_back_keeps_head(s: Seq<char>)
    requires
        s.len() > 0,
        !is_space_char(s.first()),
    ensures
        trim_back(s).len() > 0,
        trim_back(s).first() == s.first(),
    decreases s.len(),
{
    if s.len() > 0 && is_space_char(s.last()) {
        lemma_trim_back_keeps_head(s.drop_last());
    }
}

proof fn lemma_trim_front_head(s: Seq<char>)
    requires
        trim_front(s).len() > 0,
    ensures
        !is_space_char(trim_front(s).first()),
    decreases s.len(),
{
    if s.len() > 0 && is_space_char(s.first()) {
        lemma_trim_front_head(s.drop_first());
    }
}

/// Trimming keeps content: text that is not blank does not become blank
/// by trimming it, so a trimmed transcript still passes the injection
/// gate.
pub proof fn lemma_trimmed_keeps_content(s: Seq<char>)
    requires
        !is_blank(s),
    ensures
        !is_blank(trimmed(s)),
{
    let f = trim_front(s);
    let t = trimmed(s);
    assert(f.len() > 0);
    lemma_trim_front_head(s);
    lemma_trim_back_keeps_head(f);
    if is_blank(t) {
        lemma_blank_is_all_space(t);
        assert(is_space_char(t.first()));
    }
}

/// Text that trims away to nothing is whitespace-only.
pub proof fn lemma_blank_is_all_space(s: Seq<char>)
    requires
        is_blank(s),
    ensures
        all_space(s),
    decreases s.len(),
{
    if s.len() > 0 {
        if is_space_char(s.first()) {
            lemma_blank_is_all_space(s.drop_first());
            assert forall|i: int| 0 <= i < s.len() implies is_space_char(s[i]) by {
                if i > 0 {
                    assert(is_space_char(s.drop_first()[i - 1]));
                }
            }
        } else {
            lemma_trim_back_keeps_head(s);
        }
    }
}

/// Whether `c` counts as whitespace.
pub fn is_space(c: char) -> (r: bool)
    ensures
        r == is_space_char(c),
{
    c == ' ' || c == '\t' || c == '\n' || c == '\r'
}

/// Trims surrounding whitespace from `s`.
pub fn trim_text(s: &str) -> (r: String)
    ensures
        r@ == trimmed(s@),
{
    let n = s.unicode_len();
    let mut a: usize = 0;
    while a < n && is_space(s.get_char(a))
        invariant
            a <= n,
            n == s@.len(),
            forall|j: int| 0 <= j < a ==> is_space_char(s@[j]),
        decreases n - a,
    {
        a = a + 1;
    }
    let mut b: usize = n;
    while b > a && is_space(s.get_char(b - 1))
        invariant
            a <= b <= n,
            n == s@.len(),
            forall|j: int| b <= j < n ==> is_space_char(s@[j]),
        decreases b,
    {
        b = b - 1;
    }
    let t = s.substring_char(a, b);
    proof {
        lemma_trim_front_at(s@, a as int);
        let mid = s@.subrange(a as int, n as int);
        lemma_trim_back_at(mid, b - a);
        assert(mid.subrange(0, b - a) =~= s@.subrange(a as int, b as int));
    }
    t.to_owned()
}

/// The segments of a transcript, joined with one trailing blank each.
pub open spec fn joined_with_spaces(segs: Seq<Seq<char>>) -> Seq<char>
    decreases segs.len(),
{
    if segs.len() == 0 {
        Seq::empty()
    } else {
        joined_with_spaces(segs.drop_last()) + segs.last() + " "@
    }
}

/// Joins recognized segments into one transcript and trims the result,
/// the shape both backends return their text in.
pub fn assemble_segments(segments: &Vec<String>) -> (r: String)
    ensures
        r@ == trimmed(joined_with_spaces(segments@.map_values(|t: String| t@))),
{
    let ghost segs = segments@.map_values(|t: String| t@);
    let mut text = String::new();
    let mut i: usize = 0;
    while i < segments.len()
        invariant
            i <= segments@.len(),
            segs == segments@.map_values(|t: String| t@),
            text@ == joined_with_spaces(segs.take(i as int)),
        decreases segments@.len() - i,
    {
        text.append(segments[i].as_str());
        text.append(" ");
        proof {
            assert(segs.take(i + 1 as int).drop_last() =~= segs.take(i as int));
            assert(segs.take(i + 1 as int).last() == segments@[i as int]@);
        }
        i = i + 1;
    }
    proof {
        assert(segs.take(segments@.len() as int) =~= segs);
    }
    trim_text(text.as_str())
}

/// A request to type text into the focused application. Values of this
/// type can only be built from text with at least one non-whitespace
/// character, so the injector is never handed a blank string.
#[derive(Debug)]
pub struct InjectionRequest {
    text: String,
}

impl InjectionRequest {
    /// The text to inject.
    pub closed spec fn spec_text(self) -> Seq<char> {
        self.text@
    }

    #[verifier::type_invariant]
    closed spec fn inv(self) -> bool {
        self.text@.len() > 0 && !all_space(self.text@)
    }

    /// Screens transcript text for injection: accepted exactly when it is
    /// not blank, and passed through unchanged.
    pub fn new(text: String) -> (r: Option<InjectionRequest>)
        ensures
            r is Some <==> !is_blank(text@),
            (r matches Some(q) ==> q.spec_text() == text@),
    {
        let t = trim_text(text.as_str());
        if t.as_str().unicode_len() == 0 {
            None
        } else {
            proof {
                if all_space(text@) {
                    lemma_all_space_is_blank(text@);
                }
            }
            Some(InjectionRequest { text })
        }
    }

    /// The text to inject: never empty, never whitespace-only.
    pub fn text(&self) -> (r: &String)
        ensures
            r@ == self.spec_text(),
            r@.len() > 0,
            !all_space(r@),
    {
        proof {
            use_type_invariant(&*self);
        }
        &self.text
    }
}

/// Text trims away to nothing exactly when it is empty or whitespace-only,
/// so the injection gate refuses exactly the blank strings.
pub proof fn lemma_blank_iff_all_space(s: Seq<char>)
    ensures
        is_blank(s) <==> all_space(s),
{
    if is_blank(s) {
        lemma_blank_is_all_space(s);
    }
    if all_space(s) {
        lemma_all_space_is_blank(s);
    }
}

} // verus!
