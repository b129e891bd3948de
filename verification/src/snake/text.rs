//! Character-level helpers for the snake asset format: whitespace, trimming,
//! spans of a character buffer and ASCII case folding.
use vstd::prelude::*;
use vstd::string::StrSliceExecFns;

verus! {

broadcast use vstd::string::group_string_axioms;

/// A half-open range `start..end` of positions in a character buffer.
#[derive(Clone, Copy, Debug, PartialEq, Eq, Structural)]
pub struct Span {
    pub start: usize,
    pub end: usize,
}

impl Span {
    pub open spec fn wf_in(self, text: Seq<char>) -> bool {
        self.start <= self.end <= text.len()
    }

    /// The characters that the span covers.
    pub open spec fn of(self, text: Seq<char>) -> Seq<char> {
        text.subrange(self.start as int, self.end as int)
    }
}

/// Unicode `White_Space`, the set that `char::is_whitespace` tests.
pub open spec fn spec_is_whitespace(c: char) -> bool {
    let v = c as u32;
    ||| 0x9 <= v <= 0xd
    ||| v == 0x20
    ||| v == 0x85
    ||| v == 0xa0
    ||| v == 0x1680
    ||| 0x2000 <= v <= 0x200a
    ||| v == 0x2028
    ||| v == 0x2029
    ||| v == 0x202f
    ||| v == 0x205f
    ||| v == 0x3000
}

#[verifier::when_used_as_spec(spec_is_whitespace)]
pub fn is_whitespace(c: char) -> (r: bool)
    ensures
        r == spec_is_whitespace(c),
{
    let v = c as u32;
    (0x9 <= v && v <= 0xd) || v == 0x20 || v == 0x85 || v == 0xa0 || v == 0x1680 || (0x2000 <= v
        && v <= 0x200a) || v == 0x2028 || v == 0x2029 || v == 0x202f || v == 0x205f || v == 0x3000
}

/// `s` without its leading whitespace.
pub open spec fn trim_start(s: Seq<char>) -> Seq<char>
    decreases s.len(),
{
    if s.len() > 0 && spec_is_whitespace(s[0]) {
        trim_start(s.drop_first())
    } else {
        s
    }
}

/// `s` without its trailing whitespace.
pub open spec fn trim_end(s: Seq<char>) -> Seq<char>
    decreases s.len(),
{
    if s.len() > 0 && spec_is_whitespace(s.last()) {
        trim_end(s.drop_last())
    } else {
        s
    }
}

/// `s` without leading and trailing whitespace, as `str::trim` gives it.
pub open spec fn trim(s: Seq<char>) -> Seq<char> {
    trim_end(trim_start(s))
}

pub proof fn lemma_trim_start_len(s: Seq<char>)
    ensures
        trim_start(s).len() <= s.len(),
    decreases s.len(),
{
    if s.len() > 0 && spec_is_whitespace(s[0]) {
        lemma_trim_start_len(s.drop_first());
    }
}

pub proof fn lemma_trim_end_len(s: Seq<char>)
    ensures
        trim_end(s).len() <= s.len(),
    decreases s.len(),
{
    if s.len() > 0 && spec_is_whitespace(s.last()) {
        lemma_trim_end_len(s.drop_last());
    }
}

pub proof fn lemma_trim_len(s: Seq<char>)
    ensures
        trim(s).len() <= s.len(),
{
    lemma_trim_start_len(s);
    lemma_trim_end_len(trim_start(s));
}

/// The ASCII whitespace that text files use: tab, line feed, vertical tab,
/// form feed, carriage return and space.
pub open spec fn is_ascii_blank(c: char) -> bool {
    c == '\t' || c == '\n' || c == '\u{b}' || c == '\u{c}' || c == '\r' || c == ' '
}

/// Whether every character of `s` is ASCII whitespace.
pub open spec fn all_blank(s: Seq<char>) -> bool {
    forall|j: int| 0 <= j < s.len() ==> is_ascii_blank(#[trigger] s[j])
}

/// Every ASCII whitespace character, the carriage return of a CRLF line
/// end among them, is whitespace to the trimming functions.
pub proof fn lemma_ascii_blank_is_whitespace(c: char)
    requires
        is_ascii_blank(c),
    ensures
        spec_is_whitespace(c),
{
}

/// Leading ASCII whitespace is skipped.
pub proof fn lemma_trim_start_skips_blanks(w: Seq<char>, s: Seq<char>)
    requires
        all_blank(w),
    ensures
        trim_start(w + s) == trim_start(s),
    decreases w.len(),
{
    if w.len() == 0 {
        assert(w + s =~= s);
    } else {
        lemma_ascii_blank_is_whitespace(w[0]);
        assert((w + s)[0] == w[0]);
        assert((w + s).drop_first() =~= w.drop_first() + s);
        lemma_trim_start_skips_blanks(w.drop_first(), s);
    }
}

/// Trailing ASCII whitespace is dropped.
pub proof fn lemma_trim_end_skips_blanks(s: Seq<char>, w: Seq<char>)
    requires
        all_blank(w),
    ensures
        trim_end(s + w) == trim_end(s),
    decreases w.len(),
{
    if w.len() == 0 {
        assert(s + w =~= s);
    } else {
        lemma_ascii_blank_is_whitespace(w.last());
        assert((s + w).last() == w.last());
        assert((s + w).drop_last() =~= s + w.drop_last());
        lemma_trim_end_skips_blanks(s, w.drop_last());
    }
}

/// Trimming the start of a joined text trims the first part, and goes on
/// into the second only when the first was all whitespace.
pub proof fn lemma_trim_start_append(s: Seq<char>, t: Seq<char>)
    ensures
        trim_start(s + t) == if trim_start(s).len() > 0 {
            trim_start(s) + t
        } else {
            trim_start(t)
        },
    decreases s.len(),
{
    if s.len() == 0 {
        assert(s + t =~= t);
    } else {
        assert((s + t)[0] == s[0]);
        if spec_is_whitespace(s[0]) {
            assert((s + t).drop_first() =~= s.drop_first() + t);
            lemma_trim_start_append(s.drop_first(), t);
        }
    }
}

/// ASCII whitespace around a text, such as the line breaks (LF or CRLF)
/// and indentation of a text file, is trimmed away.
pub proof fn lemma_trim_ignores_blank_padding(pre: Seq<char>, s: Seq<char>, post: Seq<char>)
    requires
        all_blank(pre),
        all_blank(post),
    ensures
        trim(pre + s + post) == trim(s),
{
    assert(pre + s + post =~= pre + (s + post));
    lemma_trim_start_skips_blanks(pre, s + post);
    lemma_trim_start_append(s, post);
    if trim_start(s).len() > 0 {
        lemma_trim_end_skips_blanks(trim_start(s), post);
    } else {
        assert(post + Seq::<char>::empty() =~= post);
        lemma_trim_start_skips_blanks(post, Seq::<char>::empty());
        assert(trim_start(s) =~= Seq::<char>::empty());
    }
}

/// The span of `span`'s characters without leading and trailing whitespace.
pub fn trim_span(text: &[char], span: Span) -> (r: Span)
    requires
        span.wf_in(text@),
    ensures
        span.start <= r.start <= r.end <= span.end,
        r.of(text@) == trim(span.of(text@)),
{
    let mut a = span.start;
    while a < span.end && is_whitespace(text[a])
        invariant
            span.wf_in(text@),
            span.start <= a <= span.end,
            trim_start(span.of(text@)) == trim_start(text@.subrange(a as int, span.end as int)),
        decreases span.end - a,
    {
        assert(text@.subrange(a as int, span.end as int).drop_first() =~= text@.subrange(
            a + 1,
            span.end as int,
        ));
        a = a + 1;
    }
    let mut b = span.end;
    while b > a && is_whitespace(text[b - 1])
        invariant
            span.wf_in(text@),
            span.start <= a <= b <= span.end,
            trim_start(span.of(text@)) == text@.subrange(a as int, span.end as int),
            trim_end(text@.subrange(a as int, span.end as int)) == trim_end(
                text@.subrange(a as int, b as int),
            ),
        decreases b - a,
    {
        assert(text@.subrange(a as int, b as int).drop_last() =~= text@.subrange(
            a as int,
            b - 1,
        ));
        b = b - 1;
    }
    Span { start: a, end: b }
}

/// The characters of `s`, in order.
pub fn chars_of(s: &str) -> (v: Vec<char>)
    ensures
        v@ == s@,
{
    let mut v: Vec<char> = Vec::new();
    for c in iter: s.chars()
        invariant
            iter.seq() == s@,
            v@ == iter.seq().take(iter.index()),
    {
        v.push(c);
    }
    v
}

/// Collects the characters of `span` into a `String` (std's
/// `FromIterator<&char> for String`, which appends each character in turn).
#[verifier::external_body]
pub(crate) fn span_to_string(text: &[char], span: Span) -> (s: String)
    requires
        span.wf_in(text@),
    ensures
        s@ == span.of(text@),
{
    String::from_iter(text[span.start..span.end].iter())
}

/// Whether the characters of `span` are exactly those of `lit`.
pub fn span_is(text: &[char], span: Span, lit: &str) -> (r: bool)
    requires
        span.wf_in(text@),
    ensures
        r == (span.of(text@) == lit@),
{
    let n = lit.unicode_len();
    if span.end - span.start != n {
        return false;
    }
    let mut k: usize = 0;
    while k < n
        invariant
            span.wf_in(text@),
            n == lit@.len(),
            span.end - span.start == n,
            0 <= k <= n,
            forall|j: int| 0 <= j < k ==> text@[span.start + j] == lit@[j],
        decreases n - k,
    {
        if text[span.start + k] != lit.get_char(k) {
            assert(span.of(text@)[k as int] != lit@[k as int]);
            return false;
        }
        k = k + 1;
    }
    assert(span.of(text@) =~= lit@);
    true
}

/// The position of the first `c` in `s`, where `str::split_once` splits.
pub open spec fn first_index_of(s: Seq<char>, c: char) -> Option<int> {
    if exists|i: int| 0 <= i < s.len() && s[i] == c {
        Some(choose|i: int| 0 <= i < s.len() && s[i] == c && forall|j: int| 0 <= j < i ==> s[j] != c)
    } else {
        None
    }
}

/// The position of the first `c` in `span`; see `first_index_of`.
pub fn find_char(text: &[char], span: Span, c: char) -> (r: Option<usize>)
    requires
        span.wf_in(text@),
    ensures
        match r {
            Some(i) => span.start <= i < span.end && first_index_of(span.of(text@), c) == Some(
                i - span.start,
            ),
            None => first_index_of(span.of(text@), c) is None,
        },
{
    let mut i = span.start;
    while i < span.end
        invariant
            span.wf_in(text@),
            span.start <= i <= span.end,
            forall|j: int| span.start <= j < i ==> text@[j] != c,
        decreases span.end - i,
    {
        if text[i] == c {
            let ghost s = span.of(text@);
            let ghost k = i - span.start;
            assert(s[k] == c);
            assert(forall|j: int| 0 <= j < k ==> s[j] != c);
            assert(first_index_of(s, c) == Some(k)) by {
                let w = choose|x: int| 0 <= x < s.len() && s[x] == c && forall|j: int| 0 <= j < x ==> s[j] != c;
                assert(w == k);
            }
            return Some(i);
        }
        i = i + 1;
    }
    proof {
        let s = span.of(text@);
        assert(!exists|j: int| 0 <= j < s.len() && s[j] == c) by {
            assert forall|j: int| 0 <= j < s.len() implies s[j] != c by {
                assert(text@[span.start + j] != c);
            }
        }
    }
    None
}

/// ASCII letters folded to lower case; every other character unchanged.
pub open spec fn ascii_lower(c: char) -> char {
    if 'A' <= c <= 'Z' {
        ((c as u32) + 32) as char
    } else {
        c
    }
}

/// Equality up to ASCII case, as `str::eq_ignore_ascii_case` decides it for
/// strings of which one is all ASCII.
pub open spec fn eq_ignore_ascii_case(a: Seq<char>, b: Seq<char>) -> bool {
    &&& a.len() == b.len()
    &&& forall|i: int| 0 <= i < a.len() ==> ascii_lower(#[trigger] a[i]) == ascii_lower(b[i])
}

fn to_ascii_lower(c: char) -> (r: char)
    ensures
        r == ascii_lower(c),
{
    if 'A' <= c && c <= 'Z' {
        let v = (c as u8) + 32;
        v as char
    } else {
        c
    }
}

/// Whether `span`'s characters equal `lit` up to ASCII case.
pub fn span_eq_ignore_ascii_case(text: &[char], span: Span, lit: &str) -> (r: bool)
    requires
        span.wf_in(text@),
    ensures
        r == eq_ignore_ascii_case(lit@, span.of(text@)),
{
    let n = lit.unicode_len();
    if span.end - span.start != n {
        return false;
    }
    let mut k: usize = 0;
    while k < n
        invariant
            span.wf_in(text@),
            n == lit@.len(),
            span.end - span.start == n,
            0 <= k <= n,
            forall|j: int|
                0 <= j < k ==> ascii_lower(lit@[j]) == ascii_lower(#[trigger] text@[span.start + j]),
        decreases n - k,
    {
        if to_ascii_lower(text[span.start + k]) != to_ascii_lower(lit.get_char(k)) {
            assert(ascii_lower(lit@[k as int]) != ascii_lower(span.of(text@)[k as int]));
            return false;
        }
        k = k + 1;
    }
    assert forall|i: int| 0 <= i < lit@.len() implies ascii_lower(#[trigger] lit@[i])
        == ascii_lower(span.of(text@)[i]) by {
        assert(span.of(text@)[i] == text@[span.start + i]);
    }
    true
}

} // verus!
