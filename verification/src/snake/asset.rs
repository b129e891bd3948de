//! The `.snake` asset format.
//!
//! An asset is a comma separated list of `key: value` entries. The key `id`
//! names the skin; each `body` entry adds one frame, written as a braced
//! list of `head`, `straight`, `curve` and `tail` entries whose values are
//! quoted texture paths. Commas inside brackets or quotes do not separate
//! entries, and a backslash inside quotes escapes the next character.
use super::rendering::{SnakeBody, SnakeFrame};
use super::text::{
    all_blank, ascii_lower, chars_of, eq_ignore_ascii_case, find_char, first_index_of,
    lemma_trim_ignores_blank_padding, lemma_trim_len, span_eq_ignore_ascii_case, span_is,
    span_to_string, trim, trim_span, Span,
};
use super::SnakeId;
use vstd::prelude::*;

verus! {

/// Why a snake asset could not be read.
#[derive(Debug)]
pub enum SnakeAssetError {
    MalformedKeyValue,
    MissingFields(&'static str),
    InvalidValue(&'static str, String),
    UnknownKey(String, &'static str),
    IoError(String),
    MissingTrailingComma,
    MismatchedBrackets(char, char),
    UnmatchedClosingBracket(char),
    BlockNotWrappedIn(char, bool),
}

/// A `SnakeAssetError` with its texts taken as character sequences.
pub enum AssetErrorView {
    MalformedKeyValue,
    MissingFields(Seq<char>),
    InvalidValue(Seq<char>, Seq<char>),
    UnknownKey(Seq<char>, Seq<char>),
    IoError(Seq<char>),
    MissingTrailingComma,
    MismatchedBrackets(char, char),
    UnmatchedClosingBracket(char),
    BlockNotWrappedIn(char, bool),
}

impl View for SnakeAssetError {
    type V = AssetErrorView;

    open spec fn view(&self) -> AssetErrorView {
        match self {
            SnakeAssetError::MalformedKeyValue => AssetErrorView::MalformedKeyValue,
            SnakeAssetError::MissingFields(f) => AssetErrorView::MissingFields(f@),
            SnakeAssetError::InvalidValue(f, v) => AssetErrorView::InvalidValue(f@, v@),
            SnakeAssetError::UnknownKey(k, b) => AssetErrorView::UnknownKey(k@, b@),
            SnakeAssetError::IoError(m) => AssetErrorView::IoError(m@),
            SnakeAssetError::MissingTrailingComma => AssetErrorView::MissingTrailingComma,
            SnakeAssetError::MismatchedBrackets(a, b) => AssetErrorView::MismatchedBrackets(*a, *b),
            SnakeAssetError::UnmatchedClosingBracket(c) => AssetErrorView::UnmatchedClosingBracket(
                *c,
            ),
            SnakeAssetError::BlockNotWrappedIn(c, leading) => AssetErrorView::BlockNotWrappedIn(
                *c,
                *leading,
            ),
        }
    }
}

pub open spec fn spec_brack_recp(c: char) -> char {
    if c == '{' {
        '}'
    } else if c == '}' {
        '{'
    } else if c == '(' {
        ')'
    } else if c == ')' {
        '('
    } else if c == '[' {
        ']'
    } else if c == ']' {
        '['
    } else {
        c
    }
}

/// The bracket that pairs with `c`; any other character is its own pair.
#[verifier::when_used_as_spec(spec_brack_recp)]
pub fn brack_recp(c: char) -> (r: char)
    ensures
        r == spec_brack_recp(c),
{
    match c {
        '{' => '}',
        '}' => '{',
        '(' => ')',
        ')' => '(',
        '[' => ']',
        ']' => '[',
        _ => c,
    }
}

/// Pairing a bracket twice gives it back.
pub proof fn lemma_brack_recp_involution(c: char)
    ensures
        spec_brack_recp(spec_brack_recp(c)) == c,
{
}

pub open spec fn is_open_bracket(c: char) -> bool {
    c == '{' || c == '(' || c == '['
}

pub open spec fn is_close_bracket(c: char) -> bool {
    c == '}' || c == ')' || c == ']'
}

/// Where a scan for the end of an entry stopped.
pub enum ScanStop {
    /// At a separating comma, at this position.
    Comma(int),
    /// At the end of the text.
    End,
    /// At a closing bracket that does not fit.
    Fail(AssetErrorView),
}

/// Scans `s` from position `i` for the comma that ends the current entry,
/// tracking quotes, escapes inside quotes and open brackets; gives where it
/// stopped and the open brackets left.
pub open spec fn scan(s: Seq<char>, i: int, in_string: bool, stack: Seq<char>) -> (
    ScanStop,
    Seq<char>,
)
    decreases s.len() - i,
{
    if i < 0 || i >= s.len() {
        (ScanStop::End, stack)
    } else {
        let c = s[i];
        if c == '"' {
            scan(s, i + 1, !in_string, stack)
        } else if c == '\\' && in_string {
            if i + 1 < s.len() {
                scan(s, i + 2, in_string, stack)
            } else {
                (ScanStop::End, stack)
            }
        } else if is_open_bracket(c) && !in_string {
            scan(s, i + 1, in_string, stack.push(c))
        } else if c == ',' && !in_string && stack.len() == 0 {
            (ScanStop::Comma(i), stack)
        } else if is_close_bracket(c) && !in_string {
            if stack.len() == 0 {
                (ScanStop::Fail(AssetErrorView::UnmatchedClosingBracket(c)), stack)
            } else if stack.last() != spec_brack_recp(c) {
                (
                    ScanStop::Fail(
                        AssetErrorView::MismatchedBrackets(c, spec_brack_recp(stack.last())),
                    ),
                    stack.drop_last(),
                )
            } else {
                scan(s, i + 1, in_string, stack.drop_last())
            }
        } else {
            scan(s, i + 1, in_string, stack)
        }
    }
}

pub proof fn lemma_scan_comma_in_range(s: Seq<char>, i: int, in_string: bool, stack: Seq<char>)
    requires
        0 <= i,
    ensures
        scan(s, i, in_string, stack).0 matches ScanStop::Comma(j) ==> i <= j < s.len(),
    decreases s.len() - i,
{
    if i < s.len() {
        let c = s[i];
        if c == '"' {
            lemma_scan_comma_in_range(s, i + 1, !in_string, stack);
        } else if c == '\\' && in_string {
            if i + 1 < s.len() {
                lemma_scan_comma_in_range(s, i + 2, in_string, stack);
            }
        } else if is_open_bracket(c) && !in_string {
            lemma_scan_comma_in_range(s, i + 1, in_string, stack.push(c));
        } else if c == ',' && !in_string && stack.len() == 0 {
        } else if is_close_bracket(c) && !in_string {
            if stack.len() != 0 && stack.last() == spec_brack_recp(c) {
                lemma_scan_comma_in_range(s, i + 1, in_string, stack.drop_last());
            }
        } else {
            lemma_scan_comma_in_range(s, i + 1, in_string, stack);
        }
    }
}

/// One step of splitting text into entries: the entry read, the text left
/// after it, and the brackets still open.
pub struct BlockStep {
    pub result: Result<Seq<char>, AssetErrorView>,
    pub rest: Seq<char>,
    pub stack: Seq<char>,
}

/// The next entry of `s` given the brackets `stack` left open by earlier
/// entries: the trimmed text up to the separating comma (the rest of `s`
/// after it is left), or all of `s` trimmed when no comma separates it (and
/// nothing is left); a closing bracket that does not fit is an error and
/// leaves `s` as it was.
pub open spec fn next_block_spec(s: Seq<char>, stack: Seq<char>) -> BlockStep {
    let (stop, st) = scan(s, 0, false, stack);
    match stop {
        ScanStop::Comma(i) => BlockStep {
            result: Ok(trim(s.subrange(0, i))),
            rest: s.subrange(i + 1, s.len() as int),
            stack: st,
        },
        ScanStop::End => BlockStep { result: Ok(trim(s)), rest: Seq::empty(), stack: st },
        ScanStop::Fail(e) => BlockStep { result: Err(e), rest: s, stack: st },
    }
}

/// An entry that is not empty leaves less text behind.
pub proof fn lemma_next_block_progress(s: Seq<char>, stack: Seq<char>)
    ensures
        next_block_spec(s, stack).result matches Ok(b) && b.len() > 0 ==> next_block_spec(
            s,
            stack,
        ).rest.len() < s.len(),
{
    lemma_scan_comma_in_range(s, 0, false, stack);
    lemma_trim_len(s);
    let (stop, st) = scan(s, 0, false, stack);
    if let ScanStop::Comma(i) = stop {
        lemma_trim_len(s.subrange(0, i));
    }
}

/// A character that means nothing to the entry splitter.
pub open spec fn is_plain(c: char) -> bool {
    c != ',' && c != '"' && c != '\\' && !is_open_bracket(c) && !is_close_bracket(c)
}

proof fn lemma_scan_plain_to_comma(s: Seq<char>, i: int, k: int)
    requires
        0 <= i <= k < s.len(),
        s[k] == ',',
        forall|j: int| i <= j < k ==> is_plain(#[trigger] s[j]),
    ensures
        scan(s, i, false, Seq::empty()) == (ScanStop::Comma(k), Seq::<char>::empty()),
    decreases k - i,
{
    if i < k {
        lemma_scan_plain_to_comma(s, i + 1, k);
    }
}

proof fn lemma_scan_plain_to_end(s: Seq<char>, i: int)
    requires
        0 <= i <= s.len(),
        forall|j: int| i <= j < s.len() ==> is_plain(#[trigger] s[j]),
    ensures
        scan(s, i, false, Seq::empty()) == (ScanStop::End, Seq::<char>::empty()),
    decreases s.len() - i,
{
    if i < s.len() {
        lemma_scan_plain_to_end(s, i + 1);
    }
}

/// Entries made of plain characters and joined by a comma are split apart
/// again, each trimmed; the last one is read to the end of the text.
pub proof fn lemma_plain_entries_split(a: Seq<char>, b: Seq<char>)
    requires
        forall|j: int| 0 <= j < a.len() ==> is_plain(#[trigger] a[j]),
        forall|j: int| 0 <= j < b.len() ==> is_plain(#[trigger] b[j]),
    ensures
        next_block_spec(a + seq![','] + b, Seq::empty()) == (BlockStep {
            result: Ok(trim(a)),
            rest: b,
            stack: Seq::empty(),
        }),
        next_block_spec(b, Seq::empty()) == (BlockStep {
            result: Ok(trim(b)),
            rest: Seq::empty(),
            stack: Seq::empty(),
        }),
{
    let s = a + seq![','] + b;
    assert forall|j: int| 0 <= j < a.len() implies is_plain(#[trigger] s[j]) by {
        assert(s[j] == a[j]);
    }
    lemma_scan_plain_to_comma(s, 0, a.len() as int);
    assert(s.subrange(0, a.len() as int) =~= a);
    assert(s.subrange(a.len() as int + 1, s.len() as int) =~= b);
    lemma_scan_plain_to_end(b, 0);
}

/// A scan stop moved `k` positions further on.
pub open spec fn shift_stop(stop: ScanStop, k: int) -> ScanStop {
    match stop {
        ScanStop::Comma(j) => ScanStop::Comma(j + k),
        _ => stop,
    }
}

/// Scanning behind a prefix stops where scanning without it does, moved by
/// the prefix's length.
proof fn lemma_scan_shift(p: Seq<char>, s: Seq<char>, i: int, in_string: bool, stack: Seq<char>)
    requires
        0 <= i,
    ensures
        scan(p + s, i + p.len(), in_string, stack) == (
            shift_stop(scan(s, i, in_string, stack).0, p.len() as int),
            scan(s, i, in_string, stack).1,
        ),
    decreases s.len() - i,
{
    if i < s.len() {
        assert((p + s)[i + p.len()] == s[i]);
        let c = s[i];
        if c == '"' {
            lemma_scan_shift(p, s, i + 1, !in_string, stack);
        } else if c == '\\' && in_string {
            if i + 1 < s.len() {
                lemma_scan_shift(p, s, i + 2, in_string, stack);
            }
        } else if is_open_bracket(c) && !in_string {
            lemma_scan_shift(p, s, i + 1, in_string, stack.push(c));
        } else if c == ',' && !in_string && stack.len() == 0 {
        } else if is_close_bracket(c) && !in_string {
            if stack.len() != 0 && stack.last() == spec_brack_recp(c) {
                lemma_scan_shift(p, s, i + 1, in_string, stack.drop_last());
            }
        } else {
            lemma_scan_shift(p, s, i + 1, in_string, stack);
        }
    }
}

/// Outside quotes, a scan walks over ASCII whitespace unchanged.
proof fn lemma_scan_over_blanks(w: Seq<char>, s: Seq<char>, j: int, stack: Seq<char>)
    requires
        all_blank(w),
        0 <= j <= w.len(),
    ensures
        scan(w + s, j, false, stack) == scan(w + s, w.len() as int, false, stack),
    decreases w.len() - j,
{
    if j < w.len() {
        assert((w + s)[j] == w[j]);
        assert(super::text::is_ascii_blank(w[j]));
        lemma_scan_over_blanks(w, s, j + 1, stack);
    }
}

/// ASCII whitespace in front of the text, such as a line break after the
/// previous entry's comma (LF or CRLF), changes neither the next entry nor
/// the brackets left open; when that entry is read, the text left after it
/// is the same too.
pub proof fn lemma_next_block_skips_blanks(w: Seq<char>, s: Seq<char>, stack: Seq<char>)
    requires
        all_blank(w),
    ensures
        next_block_spec(w + s, stack).result == next_block_spec(s, stack).result,
        next_block_spec(w + s, stack).stack == next_block_spec(s, stack).stack,
        next_block_spec(s, stack).result is Ok ==> next_block_spec(w + s, stack).rest
            == next_block_spec(s, stack).rest,
{
    let t = w + s;
    lemma_scan_over_blanks(w, s, 0, stack);
    lemma_scan_shift(w, s, 0, false, stack);
    lemma_scan_comma_in_range(s, 0, false, stack);
    let (stop, st) = scan(s, 0, false, stack);
    match stop {
        ScanStop::Comma(i) => {
            assert(t.subrange(0, i + w.len()) =~= w + s.subrange(0, i) + Seq::<char>::empty());
            lemma_trim_ignores_blank_padding(w, s.subrange(0, i), Seq::<char>::empty());
            assert(t.subrange(i + w.len() + 1, t.len() as int) =~= s.subrange(i + 1, s.len() as int));
        },
        ScanStop::End => {
            assert(t =~= w + s + Seq::<char>::empty());
            lemma_trim_ignores_blank_padding(w, s, Seq::<char>::empty());
        },
        ScanStop::Fail(e) => {},
    }
}

/// Splits a text into the entries of the asset format, one at a time.
pub struct SnakeBlock<'a> {
    haystack: &'a [char],
    rest: Span,
    stack: Vec<char>,
}

impl<'a> SnakeBlock<'a> {
    /// The whole text that the entries are taken from.
    pub closed spec fn text(&self) -> Seq<char> {
        self.haystack@
    }

    /// The text not yet split off.
    pub closed spec fn remaining(&self) -> Seq<char> {
        self.rest.of(self.haystack@)
    }

    /// The brackets left open by the entries split off so far.
    pub closed spec fn open_brackets(&self) -> Seq<char> {
        self.stack@
    }

    pub closed spec fn wf(&self) -> bool {
        self.rest.wf_in(self.haystack@)
    }

    /// Starts splitting the characters of `span`, trimmed.
    pub fn new(haystack: &'a [char], span: Span) -> (r: SnakeBlock<'a>)
        requires
            span.wf_in(haystack@),
        ensures
            r.wf(),
            r.text() == haystack@,
            r.remaining() == trim(span.of(haystack@)),
            r.open_brackets() == Seq::<char>::empty(),
    {
        SnakeBlock { haystack, rest: trim_span(haystack, span), stack: Vec::new() }
    }

    /// Splits off the next entry; see `next_block_spec`.
    pub fn next_block(&mut self) -> (r: Result<Span, SnakeAssetError>)
        requires
            old(self).wf(),
        ensures
            final(self).wf(),
            final(self).text() == old(self).text(),
            final(self).remaining() == next_block_spec(
                old(self).remaining(),
                old(self).open_brackets(),
            ).rest,
            final(self).open_brackets() == next_block_spec(
                old(self).remaining(),
                old(self).open_brackets(),
            ).stack,
            match r {
                Ok(span) => span.wf_in(old(self).text()) && next_block_spec(
                    old(self).remaining(),
                    old(self).open_brackets(),
                ).result == Ok::<Seq<char>, AssetErrorView>(span.of(old(self).text())),
                Err(e) => next_block_spec(old(self).remaining(), old(self).open_brackets()).result
                    == Err::<Seq<char>, AssetErrorView>(e@),
            },
    {
        let ghost s = self.remaining();
        let ghost st0 = self.stack@;
        let start = self.rest.start;
        let end = self.rest.end;
        let mut i = start;
        let mut in_string = false;
        while i < end
            invariant
                self.haystack == old(self).haystack,
                self.rest == old(self).rest,
                start == self.rest.start,
                end == self.rest.end,
                self.rest.wf_in(self.haystack@),
                start <= i <= end,
                s == self.haystack@.subrange(start as int, end as int),
                s == old(self).remaining(),
                st0 == old(self).open_brackets(),
                scan(s, 0, false, st0) == scan(s, i - start, in_string, self.stack@),
            decreases end - i,
        {
            let c = self.haystack[i];
            assert(s[i - start] == c);
            if c == '"' {
                in_string = !in_string;
                i = i + 1;
            } else if c == '\\' && in_string {
                if i + 1 < end {
                    i = i + 2;
                } else {
                    i = end;
                }
            } else if (c == '{' || c == '(' || c == '[') && !in_string {
                self.stack.push(c);
                i = i + 1;
            } else if c == ',' && !in_string && self.stack.len() == 0 {
                let out = trim_span(self.haystack, Span { start, end: i });
                assert(scan(s, i - start, in_string, self.stack@) == (
                    ScanStop::Comma(i - start),
                    self.stack@,
                ));
                assert(s.subrange(0, i - start) =~= self.haystack@.subrange(
                    start as int,
                    i as int,
                ));
                assert(s.subrange(i - start + 1, s.len() as int) =~= self.haystack@.subrange(
                    i + 1,
                    end as int,
                ));
                self.rest = Span { start: i + 1, end };
                return Ok(out);
            } else if (c == '}' || c == ')' || c == ']') && !in_string {
                let open = brack_recp(c);
                match self.stack.pop() {
                    Some(last) => {
                        if last != open {
                            return Err(SnakeAssetError::MismatchedBrackets(c, brack_recp(last)));
                        }
                    },
                    None => {
                        return Err(SnakeAssetError::UnmatchedClosingBracket(c));
                    },
                }
                i = i + 1;
            } else {
                i = i + 1;
            }
        }
        let out = trim_span(self.haystack, self.rest);
        self.rest = Span { start: end, end };
        assert(self.remaining() =~= Seq::<char>::empty());
        Ok(out)
    }

    /// The next non-empty entry, or `None` once an empty entry (or the end
    /// of the text) is reached.
    pub fn next(&mut self) -> (r: Option<Result<Span, SnakeAssetError>>)
        requires
            old(self).wf(),
        ensures
            final(self).wf(),
            final(self).text() == old(self).text(),
            final(self).remaining() == next_block_spec(
                old(self).remaining(),
                old(self).open_brackets(),
            ).rest,
            final(self).open_brackets() == next_block_spec(
                old(self).remaining(),
                old(self).open_brackets(),
            ).stack,
            match r {
                None => next_block_spec(old(self).remaining(), old(self).open_brackets()).result
                    == Ok::<Seq<char>, AssetErrorView>(Seq::empty()),
                Some(Ok(span)) => span.wf_in(old(self).text()) && span.start < span.end
                    && next_block_spec(old(self).remaining(), old(self).open_brackets()).result
                    == Ok::<Seq<char>, AssetErrorView>(span.of(old(self).text())),
                Some(Err(e)) => next_block_spec(
                    old(self).remaining(),
                    old(self).open_brackets(),
                ).result == Err::<Seq<char>, AssetErrorView>(e@),
            },
    {
        match self.next_block() {
            Ok(span) => {
                if span.start == span.end {
                    assert(span.of(old(self).text()) =~= Seq::<char>::empty());
                    None
                } else {
                    Some(Ok(span))
                }
            },
            Err(e) => Some(Err(e)),
        }
    }
}


/// `s` trimmed and stripped of a leading `wrapping` and a trailing
/// `brack_recp(wrapping)`; a missing one is an error that names it.
pub open spec fn spec_peel(s: Seq<char>, wrapping: char) -> Result<Seq<char>, AssetErrorView> {
    let t = trim(s);
    let recp = spec_brack_recp(wrapping);
    if t.len() == 0 || t[0] != wrapping {
        Err(AssetErrorView::BlockNotWrappedIn(wrapping, true))
    } else if t.len() < 2 || t.last() != recp {
        Err(AssetErrorView::BlockNotWrappedIn(recp, false))
    } else {
        Ok(t.subrange(1, t.len() - 1))
    }
}

/// The inside of a block wrapped in `wrapping` and its pair; see `spec_peel`.
pub fn peel(text: &[char], span: Span, wrapping: char) -> (r: Result<Span, SnakeAssetError>)
    requires
        span.wf_in(text@),
    ensures
        match r {
            Ok(inner) => inner.wf_in(text@) && spec_peel(span.of(text@), wrapping) == Ok::<
                Seq<char>,
                AssetErrorView,
            >(inner.of(text@)),
            Err(e) => spec_peel(span.of(text@), wrapping) == Err::<Seq<char>, AssetErrorView>(e@),
        },
{
    let recp = brack_recp(wrapping);
    let t = trim_span(text, span);
    if t.start == t.end || text[t.start] != wrapping {
        return Err(SnakeAssetError::BlockNotWrappedIn(wrapping, true));
    }
    if t.end - t.start < 2 || text[t.end - 1] != recp {
        return Err(SnakeAssetError::BlockNotWrappedIn(recp, false));
    }
    let inner = Span { start: t.start + 1, end: t.end - 1 };
    assert(inner.of(text@) =~= t.of(text@).subrange(1, t.of(text@).len() - 1));
    Ok(inner)
}

/// The key and the value of an entry: the text before and after its first
/// colon.
pub open spec fn key_value(b: Seq<char>) -> Option<(Seq<char>, Seq<char>)> {
    match first_index_of(b, ':') {
        Some(k) => Some((b.subrange(0, k), b.subrange(k + 1, b.len() as int))),
        None => None,
    }
}

/// The skin that an `id` value names, compared without ASCII case after
/// trimming.
pub open spec fn spec_parse_snake_id(s: Seq<char>) -> Result<SnakeId, AssetErrorView> {
    if exists|id: SnakeId| eq_ignore_ascii_case(id.spec_name(), trim(s)) {
        Ok(choose|id: SnakeId| eq_ignore_ascii_case(id.spec_name(), trim(s)))
    } else {
        Err(AssetErrorView::MalformedKeyValue)
    }
}

/// A frame's textures as paths; `None` where the frame names none.
pub type FrameView = SnakeFrame<Option<Seq<char>>>;

pub open spec fn empty_frame() -> FrameView {
    SnakeFrame { head: None, body_straight: None, body_curve: None, tail: None }
}

/// One `key: "path"` entry of a frame applied to `f`.
pub open spec fn frame_entry(b: Seq<char>, f: FrameView) -> Result<FrameView, AssetErrorView> {
    match key_value(b) {
        None => Err(AssetErrorView::MalformedKeyValue),
        Some((k, v)) => match spec_peel(trim(v), '"') {
            Err(e) => Err(e),
            Ok(p) => {
                let key = trim(k);
                let path = Some(trim(p));
                if key == "head"@ {
                    Ok(SnakeFrame { head: path, ..f })
                } else if key == "straight"@ {
                    Ok(SnakeFrame { body_straight: path, ..f })
                } else if key == "curve"@ {
                    Ok(SnakeFrame { body_curve: path, ..f })
                } else if key == "tail"@ {
                    Ok(SnakeFrame { tail: path, ..f })
                } else {
                    Err(AssetErrorView::UnknownKey(key, "body"@))
                }
            },
        },
    }
}

/// The entries of `s` (with `stack` open) applied to `f` in order; the
/// first error stops it.
pub open spec fn frame_fold(s: Seq<char>, stack: Seq<char>, f: FrameView) -> Result<
    FrameView,
    AssetErrorView,
>
    decreases s.len(),
{
    let step = next_block_spec(s, stack);
    match step.result {
        Err(e) => Err(e),
        Ok(b) => if b.len() == 0 {
            Ok(f)
        } else {
            match frame_entry(b, f) {
                Err(e) => Err(e),
                Ok(f2) => {
                    proof {
                        lemma_next_block_progress(s, stack);
                    }
                    frame_fold(step.rest, step.stack, f2)
                },
            }
        },
    }
}

/// A frame written as a braced list of entries.
pub open spec fn spec_parse_frame(s: Seq<char>) -> Result<FrameView, AssetErrorView> {
    match spec_peel(s, '{') {
        Err(e) => Err(e),
        Ok(inner) => frame_fold(trim(inner), Seq::empty(), empty_frame()),
    }
}

/// What the top-level entries read so far have given.
pub struct RootAcc {
    pub id: Option<SnakeId>,
    pub frames: Seq<FrameView>,
}

/// One top-level entry applied to `acc`: `id` sets the skin, `body` adds a
/// frame.
pub open spec fn root_entry(b: Seq<char>, acc: RootAcc) -> Result<RootAcc, AssetErrorView> {
    match key_value(b) {
        None => Err(AssetErrorView::MalformedKeyValue),
        Some((k, v)) => {
            let key = trim(k);
            if key == "id"@ {
                match spec_parse_snake_id(trim(v)) {
                    Ok(id) => Ok(RootAcc { id: Some(id), frames: acc.frames }),
                    Err(e) => Err(e),
                }
            } else if key == "body"@ {
                match spec_parse_frame(trim(v)) {
                    Ok(f) => Ok(RootAcc { id: acc.id, frames: acc.frames.push(f) }),
                    Err(e) => Err(e),
                }
            } else {
                Err(AssetErrorView::UnknownKey(key, "root"@))
            }
        },
    }
}

pub open spec fn root_fold(s: Seq<char>, stack: Seq<char>, acc: RootAcc) -> Result<
    RootAcc,
    AssetErrorView,
>
    decreases s.len(),
{
    let step = next_block_spec(s, stack);
    match step.result {
        Err(e) => Err(e),
        Ok(b) => if b.len() == 0 {
            Ok(acc)
        } else {
            match root_entry(b, acc) {
                Err(e) => Err(e),
                Ok(acc2) => {
                    proof {
                        lemma_next_block_progress(s, stack);
                    }
                    root_fold(step.rest, step.stack, acc2)
                },
            }
        },
    }
}

/// ASCII whitespace in front of a list of top-level entries (a line break
/// after a comma, LF or CRLF, and indentation) changes nothing that the
/// entries give.
pub proof fn lemma_root_fold_skips_blanks(w: Seq<char>, s: Seq<char>, stack: Seq<char>, acc: RootAcc)
    requires
        all_blank(w),
    ensures
        root_fold(w + s, stack, acc) == root_fold(s, stack, acc),
{
    lemma_next_block_skips_blanks(w, s, stack);
}

/// ASCII whitespace in front of a frame's entries changes nothing that the
/// entries give.
pub proof fn lemma_frame_fold_skips_blanks(w: Seq<char>, s: Seq<char>, stack: Seq<char>, f: FrameView)
    requires
        all_blank(w),
    ensures
        frame_fold(w + s, stack, f) == frame_fold(s, stack, f),
{
    lemma_next_block_skips_blanks(w, s, stack);
}

/// Entries after a comma read the same whether the line breaks between
/// them are CRLF or LF.
pub proof fn lemma_crlf_reads_as_lf(s: Seq<char>, stack: Seq<char>, acc: RootAcc, f: FrameView)
    ensures
        root_fold(seq!['\r', '\n'] + s, stack, acc) == root_fold(seq!['\n'] + s, stack, acc),
        frame_fold(seq!['\r', '\n'] + s, stack, f) == frame_fold(seq!['\n'] + s, stack, f),
{
    let crlf = seq!['\r', '\n'];
    let lf = seq!['\n'];
    assert(all_blank(crlf));
    assert(all_blank(lf));
    lemma_root_fold_skips_blanks(crlf, s, stack, acc);
    lemma_root_fold_skips_blanks(lf, s, stack, acc);
    lemma_frame_fold_skips_blanks(crlf, s, stack, f);
    lemma_frame_fold_skips_blanks(lf, s, stack, f);
}

/// A parsed skin: its id and its frames, textures as paths.
pub struct SnakeTypeView {
    pub id: SnakeId,
    pub frames: Seq<FrameView>,
}

/// What a whole asset text describes; it must name the skin and give at
/// least one frame.
pub open spec fn spec_parse_snake_asset(data: Seq<char>) -> Result<SnakeTypeView, AssetErrorView> {
    match root_fold(trim(data), Seq::empty(), RootAcc { id: None, frames: Seq::empty() }) {
        Err(e) => Err(e),
        Ok(acc) => match acc.id {
            None => Err(AssetErrorView::MissingFields("id"@)),
            Some(id) => if acc.frames.len() == 0 {
                Err(AssetErrorView::MissingFields("body"@))
            } else {
                Ok(SnakeTypeView { id, frames: acc.frames })
            },
        },
    }
}

/// ASCII whitespace around a whole asset text, such as a trailing line
/// break (LF or CRLF), does not change what it describes.
pub proof fn lemma_parse_ignores_blank_padding(pre: Seq<char>, s: Seq<char>, post: Seq<char>)
    requires
        all_blank(pre),
        all_blank(post),
    ensures
        spec_parse_snake_asset(pre + s + post) == spec_parse_snake_asset(s),
{
    lemma_trim_ignores_blank_padding(pre, s, post);
}

/// Two skin names never agree up to ASCII case: no text names two skins.
pub proof fn lemma_skin_names_distinct(a: SnakeId, b: SnakeId, t: Seq<char>)
    requires
        eq_ignore_ascii_case(a.spec_name(), t),
        eq_ignore_ascii_case(b.spec_name(), t),
    ensures
        a == b,
{
    reveal_strlit("SpottedWhite");
    reveal_strlit("ArrowBlue");
    reveal_strlit("GearWindowA");
    reveal_strlit("GearRickA");
    reveal_strlit("GearPreWindowA");
    reveal_strlit("EyeballBlueA");
    reveal_strlit("EyeballYellowA");
    assert(a.spec_name().len() > 0);
    assert(ascii_lower(a.spec_name()[0]) == ascii_lower(t[0]));
    assert(ascii_lower(b.spec_name()[0]) == ascii_lower(t[0]));
}


/// Text that neither starts nor ends with whitespace is its own trim.
pub proof fn lemma_trim_unchanged(s: Seq<char>)
    requires
        s.len() > 0,
        !super::text::spec_is_whitespace(s[0]),
        !super::text::spec_is_whitespace(s.last()),
    ensures
        trim(s) == s,
{
}

/// A skin's own name, in any ASCII case, reads back as that skin.
pub proof fn lemma_parse_id_reads_names(id: SnakeId, s: Seq<char>)
    requires
        eq_ignore_ascii_case(id.spec_name(), trim(s)),
    ensures
        spec_parse_snake_id(s) == Ok::<SnakeId, AssetErrorView>(id),
{
    let c = choose|x: SnakeId| eq_ignore_ascii_case(x.spec_name(), trim(s));
    lemma_skin_names_distinct(c, id, trim(s));
}

/// Every skin's name reads back as that skin.
pub proof fn lemma_parse_id_round_trip(id: SnakeId)
    ensures
        spec_parse_snake_id(id.spec_name()) == Ok::<SnakeId, AssetErrorView>(id),
{
    reveal_strlit("SpottedWhite");
    reveal_strlit("ArrowBlue");
    reveal_strlit("GearWindowA");
    reveal_strlit("GearRickA");
    reveal_strlit("GearPreWindowA");
    reveal_strlit("EyeballBlueA");
    reveal_strlit("EyeballYellowA");
    let n = id.spec_name();
    lemma_trim_unchanged(n);
    lemma_parse_id_reads_names(id, n);
}

/// Wrapping text in a bracket (or quote) and its pair, and peeling that
/// bracket off again, gives the text back.
pub proof fn lemma_peel_unwraps(s: Seq<char>, wrapping: char)
    requires
        !super::text::spec_is_whitespace(wrapping),
        !super::text::spec_is_whitespace(spec_brack_recp(wrapping)),
    ensures
        spec_peel(seq![wrapping] + s + seq![spec_brack_recp(wrapping)], wrapping) == Ok::<
            Seq<char>,
            AssetErrorView,
        >(s),
{
    let w = seq![wrapping] + s + seq![spec_brack_recp(wrapping)];
    assert(w[0] == wrapping);
    assert(w.last() == spec_brack_recp(wrapping));
    lemma_trim_unchanged(w);
    assert(w.subrange(1, w.len() - 1) =~= s);
}

/// A skin as an asset describes it: its id and its frames.
pub struct SnakeType<I> {
    pub id: SnakeId,
    pub body: SnakeBody<I>,
}

impl<I> SnakeType<I> {
    /// The frame shown at animation step `index`: the frames repeat in
    /// order, and a still skin always shows its one frame.
    pub fn get_frame(&self, index: usize) -> (r: &SnakeFrame<I>)
        requires
            self.body.frames().len() > 0,
        ensures
            *r == self.body.frames()[(index as nat % self.body.frames().len()) as int],
    {
        match &self.body {
            SnakeBody::Single(frame) => frame,
            SnakeBody::Animated(frames) => &frames[index % frames.len()],
        }
    }
}

/// Animation steps `n` frames apart show the same frame.
pub proof fn lemma_get_frame_periodic<I>(t: SnakeType<I>, index: nat)
    requires
        t.body.frames().len() > 0,
    ensures
        ({
            let n = t.body.frames().len();
            t.body.frames()[(index % n) as int] == t.body.frames()[((index + n) % n) as int]
        }),
{
    let n = t.body.frames().len();
    assert((index + n) % n == index % n) by {
        vstd::arithmetic::div_mod::lemma_mod_add_multiples_vanish(index as int, n as int);
    }
}

/// The frames of a parsed body with their texture paths as character
/// sequences; no body has no frames.
pub open spec fn body_frames_view(body: Option<SnakeBody<Option<String>>>) -> Seq<FrameView> {
    match body {
        None => Seq::empty(),
        Some(b) => b.frames().map_values(|f: SnakeFrame<Option<String>>| f.deep_view()),
    }
}

/// Adds `f` as the last frame of `body`; see `SnakeBody::with_frame`.
fn append_frame(body: &mut Option<SnakeBody<Option<String>>>, f: SnakeFrame<Option<String>>)
    requires
        *old(body) matches Some(bd) ==> bd.frames().len() >= 1 && (bd is Single <==> bd.frames().len() == 1),
    ensures
        *final(body) matches Some(bd) && bd.frames().len() >= 1 && (bd is Single <==> bd.frames().len() == 1),
        body_frames_view(*final(body)) == body_frames_view(*old(body)).push(f.deep_view()),
{
    let ghost old_frames = match body {
        Some(bd) => bd.frames(),
        None => Seq::empty(),
    };
    let old_body = body.take();
    let nb = SnakeBody::with_frame(old_body, f);
    assert(old_frames.push(f).map_values(|g: SnakeFrame<Option<String>>| g.deep_view())
        =~= old_frames.map_values(|g: SnakeFrame<Option<String>>| g.deep_view()).push(
        f.deep_view(),
    ));
    *body = Some(nb);
}

/// Reads skin assets.
pub struct SnakeLoader;

impl SnakeLoader {
    /// Reads an asset text; see `spec_parse_snake_asset`. Texture paths are
    /// returned as text, for the caller to load. A skin with one frame is
    /// `Single`, one with more is `Animated`.
    pub fn parse_snake_asset(data: &str) -> (r: Result<SnakeType<Option<String>>, SnakeAssetError>)
        ensures
            match r {
                Ok(t) => spec_parse_snake_asset(data@) == Ok::<SnakeTypeView, AssetErrorView>(
                    SnakeTypeView { id: t.id, frames: body_frames_view(Some(t.body)) },
                ) && t.body.frames().len() > 0 && (t.body is Single <==> t.body.frames().len()
                    == 1),
                Err(e) => spec_parse_snake_asset(data@) == Err::<SnakeTypeView, AssetErrorView>(
                    e@,
                ),
            },
    {
        let text = chars_of(data);
        let whole = Span { start: 0, end: text.len() };
        assert(whole.of(text@) =~= data@);
        let mut blocks = SnakeBlock::new(text.as_slice(), whole);
        let mut id: Option<SnakeId> = None;
        let mut body: Option<SnakeBody<Option<String>>> = None;
        loop
            invariant
                blocks.wf(),
                blocks.text() == text@,
                root_fold(trim(data@), Seq::empty(), RootAcc { id: None, frames: Seq::empty() })
                    == root_fold(
                    blocks.remaining(),
                    blocks.open_brackets(),
                    RootAcc { id, frames: body_frames_view(body) },
                ),
                body matches Some(b) ==> b.frames().len() >= 1 && (b is Single <==> b.frames().len()
                    == 1),
            decreases blocks.remaining().len(),
        {
            let ghost s = blocks.remaining();
            let ghost st = blocks.open_brackets();
            match blocks.next() {
                None => {
                    return match (id, body) {
                        (None, _) => Err(SnakeAssetError::MissingFields("id")),
                        (Some(_), None) => Err(SnakeAssetError::MissingFields("body")),
                        (Some(i), Some(b)) => Ok(SnakeType { id: i, body: b }),
                    };
                },
                Some(Err(e)) => {
                    return Err(e);
                },
                Some(Ok(b)) => {
                    proof {
                        lemma_next_block_progress(s, st);
                    }
                    match Self::read_root_entry(text.as_slice(), b, &mut id, &mut body) {
                        Ok(()) => {},
                        Err(e) => {
                            return Err(e);
                        },
                    }
                },
            }
        }
    }

    /// Applies one top-level entry; see `root_entry`.
    #[verifier::spinoff_prover]
    #[verifier::rlimit(60)]
    fn read_root_entry(
        text: &[char],
        b: Span,
        id: &mut Option<SnakeId>,
        body: &mut Option<SnakeBody<Option<String>>>,
    ) -> (r: Result<(), SnakeAssetError>)
        requires
            b.wf_in(text@),
            *old(body) matches Some(bd) ==> bd.frames().len() >= 1 && (bd is Single <==> bd.frames().len() == 1),
        ensures
            *final(body) matches Some(bd) ==> bd.frames().len() >= 1 && (bd is Single <==> bd.frames().len() == 1),
            match r {
                Ok(()) => root_entry(b.of(text@), RootAcc { id: *old(id), frames: body_frames_view(*old(body)) })
                    == Ok::<RootAcc, AssetErrorView>(RootAcc { id: *final(id), frames: body_frames_view(*final(body)) }),
                Err(e) => root_entry(b.of(text@), RootAcc { id: *old(id), frames: body_frames_view(*old(body)) })
                    == Err::<RootAcc, AssetErrorView>(e@),
            },
    {
        let ghost bs = b.of(text@);
        let k = match find_char(text, b, ':') {
            None => {
                return Err(SnakeAssetError::MalformedKeyValue);
            },
            Some(k) => k,
        };
        let ghost kk = k - b.start;
        assert(bs.subrange(0, kk) =~= text@.subrange(b.start as int, k as int));
        assert(bs.subrange(kk + 1, bs.len() as int) =~= text@.subrange(k + 1, b.end as int));
        let key = trim_span(text, Span { start: b.start, end: k });
        let value = trim_span(text, Span { start: k + 1, end: b.end });
        if span_is(text, key, "id") {
            match Self::parse_snake_id(text, value) {
                Ok(x) => {
                    *id = Some(x);
                    assert(key_value(bs) == Some((
                        text@.subrange(b.start as int, k as int),
                        text@.subrange(k + 1, b.end as int),
                    )));
                    Ok(())
                },
                Err(e) => Err(e),
            }
        } else if span_is(text, key, "body") {
            match Self::parse_snake_frame(text, value) {
                Ok(f) => {
                    append_frame(body, f);
                    assert(key_value(bs) == Some((
                        text@.subrange(b.start as int, k as int),
                        text@.subrange(k + 1, b.end as int),
                    )));
                    Ok(())
                },
                Err(e) => Err(e),
            }
        } else {
            Err(SnakeAssetError::UnknownKey(span_to_string(text, key), "root"))
        }
    }

    /// Reads an `id` value; see `spec_parse_snake_id`.
    fn parse_snake_id(text: &[char], span: Span) -> (r: Result<SnakeId, SnakeAssetError>)
        requires
            span.wf_in(text@),
        ensures
            match r {
                Ok(id) => spec_parse_snake_id(span.of(text@)) == Ok::<SnakeId, AssetErrorView>(id),
                Err(e) => spec_parse_snake_id(span.of(text@)) == Err::<SnakeId, AssetErrorView>(e@),
            },
    {
        let t = trim_span(text, span);
        let ids = SnakeId::all();
        let mut i: usize = 0;
        while i < ids.len()
            invariant
                ids@ == SnakeId::spec_all(),
                span.wf_in(text@),
                t.wf_in(text@),
                t.of(text@) == trim(span.of(text@)),
                0 <= i <= ids.len(),
                forall|j: int|
                    0 <= j < i ==> !eq_ignore_ascii_case(ids@[j].spec_name(), t.of(text@)),
            decreases ids.len() - i,
        {
            let id = ids[i];
            if span_eq_ignore_ascii_case(text, t, id.name()) {
                proof {
                    let ts = trim(span.of(text@));
                    assert(eq_ignore_ascii_case(id.spec_name(), ts));
                    let c = choose|x: SnakeId| eq_ignore_ascii_case(x.spec_name(), ts);
                    lemma_skin_names_distinct(c, id, ts);
                }
                return Ok(id);
            }
            i = i + 1;
        }
        proof {
            let ts = trim(span.of(text@));
            assert forall|x: SnakeId| !eq_ignore_ascii_case(x.spec_name(), ts) by {
                assert(ids@[x.spec_index() as int] == x);
            }
        }
        Err(SnakeAssetError::MalformedKeyValue)
    }

    /// Reads a `body` value; see `spec_parse_frame`.
    fn parse_snake_frame(text: &[char], span: Span) -> (r: Result<
        SnakeFrame<Option<String>>,
        SnakeAssetError,
    >)
        requires
            span.wf_in(text@),
        ensures
            match r {
                Ok(f) => spec_parse_frame(span.of(text@)) == Ok::<FrameView, AssetErrorView>(
                    f.deep_view(),
                ),
                Err(e) => spec_parse_frame(span.of(text@)) == Err::<FrameView, AssetErrorView>(e@),
            },
    {
        let inner = match peel(text, span, '{') {
            Ok(inner) => inner,
            Err(e) => {
                return Err(e);
            },
        };
        let mut blocks = SnakeBlock::new(text, inner);
        let mut frame: SnakeFrame<Option<String>> = SnakeFrame {
            head: None,
            body_straight: None,
            body_curve: None,
            tail: None,
        };
        loop
            invariant
                blocks.wf(),
                blocks.text() == text@,
                span.wf_in(text@),
                spec_parse_frame(span.of(text@)) == frame_fold(
                    blocks.remaining(),
                    blocks.open_brackets(),
                    frame.deep_view(),
                ),
            decreases blocks.remaining().len(),
        {
            let ghost s = blocks.remaining();
            let ghost st = blocks.open_brackets();
            match blocks.next() {
                None => {
                    return Ok(frame);
                },
                Some(Err(e)) => {
                    return Err(e);
                },
                Some(Ok(b)) => {
                    proof {
                        lemma_next_block_progress(s, st);
                    }
                    match Self::read_frame_entry(text, b, &mut frame) {
                        Ok(()) => {},
                        Err(e) => {
                            return Err(e);
                        },
                    }
                },
            }
        }
    }

    /// Applies one entry of a frame; see `frame_entry`.
    #[verifier::spinoff_prover]
    #[verifier::rlimit(60)]
    fn read_frame_entry(text: &[char], b: Span, frame: &mut SnakeFrame<Option<String>>) -> (r:
        Result<(), SnakeAssetError>)
        requires
            b.wf_in(text@),
        ensures
            match r {
                Ok(()) => frame_entry(b.of(text@), old(frame).deep_view()) == Ok::<
                    FrameView,
                    AssetErrorView,
                >(final(frame).deep_view()),
                Err(e) => frame_entry(b.of(text@), old(frame).deep_view()) == Err::<
                    FrameView,
                    AssetErrorView,
                >(e@),
            },
    {
        let ghost bs = b.of(text@);
        let k = match find_char(text, b, ':') {
            None => {
                return Err(SnakeAssetError::MalformedKeyValue);
            },
            Some(k) => k,
        };
        let ghost kk = k - b.start;
        assert(bs.subrange(0, kk) =~= text@.subrange(b.start as int, k as int));
        assert(bs.subrange(kk + 1, bs.len() as int) =~= text@.subrange(k + 1, b.end as int));
        let key = trim_span(text, Span { start: b.start, end: k });
        let value = trim_span(text, Span { start: k + 1, end: b.end });
        let quoted = match peel(text, value, '"') {
            Ok(p) => p,
            Err(e) => {
                return Err(e);
            },
        };
        let path = trim_span(text, quoted);
        assert(key_value(bs) == Some((
            text@.subrange(b.start as int, k as int),
            text@.subrange(k + 1, b.end as int),
        )));
        if span_is(text, key, "head") {
            frame.head = Some(span_to_string(text, path));
        } else if span_is(text, key, "straight") {
            frame.body_straight = Some(span_to_string(text, path));
        } else if span_is(text, key, "curve") {
            frame.body_curve = Some(span_to_string(text, path));
        } else if span_is(text, key, "tail") {
            frame.tail = Some(span_to_string(text, path));
        } else {
            return Err(SnakeAssetError::UnknownKey(span_to_string(text, key), "body"));
        }
        Ok(())
    }
}
} // verus!
