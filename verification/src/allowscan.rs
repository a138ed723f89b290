//! Finds lint suppressions that carry no written justification.
//!
//! A suppression of one of the denied lints is accepted only when the nearest
//! line above it that is not blank is a `//` comment. Both the `allow` and the
//! `expect` attribute suppress a lint, so both are scanned.
//!
//! The scan reads lines of text. It does not understand `cfg`, macros or string
//! literals, and it does not judge what a comment says.

use vstd::prelude::*;

verus! {

/// How a suppression attribute begins.
pub const SUPPRESSION_PREFIXES: [&'static str; 4] = [
    "#[allow(",
    "#![allow(",
    "#[expect(",
    "#![expect(",
];

/// The lints whose suppression needs a justification.
pub const DENIED_LINTS: [&'static str; 4] = [
    "clippy::unwrap_used",
    "clippy::expect_used",
    "clippy::indexing_slicing",
    "clippy::arithmetic_side_effects",
];

/// How many lines one attribute may span.
pub const MAX_ATTRIBUTE_LINES: usize = 8;

/// What ends an attribute.
pub const ATTRIBUTE_END: &'static str = ")]";

/// What begins a comment line.
pub const COMMENT_START: &'static str = "//";

/// A suppression of a denied lint with no comment above it.
#[derive(Debug, PartialEq, Eq)]
pub struct Violation {
    /// The number of the attribute's first line, counted from one.
    pub line: usize,
    /// That line without the white space around it.
    pub text: String,
}

/// A [`Violation`] as values.
pub struct ViolationModel {
    pub line: int,
    pub text: Seq<char>,
}

impl View for Violation {
    type V = ViolationModel;

    open spec fn view(&self) -> ViolationModel {
        ViolationModel { line: self.line as int, text: self.text@ }
    }
}

/// The characters with the Unicode property `White_Space`.
pub open spec fn is_blank(c: char) -> bool {
    ||| '\u{9}' <= c <= '\u{d}'
    ||| c == '\u{20}'
    ||| c == '\u{85}'
    ||| c == '\u{a0}'
    ||| c == '\u{1680}'
    ||| '\u{2000}' <= c <= '\u{200a}'
    ||| c == '\u{2028}'
    ||| c == '\u{2029}'
    ||| c == '\u{202f}'
    ||| c == '\u{205f}'
    ||| c == '\u{3000}'
}

/// `text` without the white space it begins with.
pub open spec fn trim_start(text: Seq<char>) -> Seq<char>
    decreases text.len(),
{
    if text.len() > 0 && is_blank(text[0]) {
        trim_start(text.drop_first())
    } else {
        text
    }
}

/// `text` without the white space it ends with.
pub open spec fn trim_end(text: Seq<char>) -> Seq<char>
    decreases text.len(),
{
    if text.len() > 0 && is_blank(text.last()) {
        trim_end(text.drop_last())
    } else {
        text
    }
}

/// `text` without the white space around it.
pub open spec fn trimmed(text: Seq<char>) -> Seq<char> {
    trim_end(trim_start(text))
}

/// The position of the first newline in `text`, or its length.
pub open spec fn newline_in(text: Seq<char>) -> nat
    decreases text.len(),
{
    if text.len() == 0 || text[0] == '\n' {
        0
    } else {
        1 + newline_in(text.drop_first())
    }
}

/// The lines of `text`, without their newlines. A newline at the very end opens
/// no further line. A carriage return before a newline stays on its line, where
/// trimming drops it.
pub open spec fn lines(text: Seq<char>) -> Seq<Seq<char>>
    decreases text.len(),
{
    if text.len() == 0 {
        seq![]
    } else {
        let end = newline_in(text) as int;
        if end >= text.len() {
            seq![text]
        } else {
            seq![text.subrange(0, end)] + lines(text.subrange(end + 1, text.len() as int))
        }
    }
}

/// `needle` stands in `text` at position `at`.
pub open spec fn occurs_at(text: Seq<char>, needle: Seq<char>, at: int) -> bool {
    &&& 0 <= at <= text.len() - needle.len()
    &&& text.subrange(at, at + needle.len()) == needle
}

/// `needle` stands somewhere in `text`.
pub open spec fn occurs(text: Seq<char>, needle: Seq<char>) -> bool {
    exists|at: int| occurs_at(text, needle, at)
}

/// The trimmed line begins a suppression attribute.
pub open spec fn opens_suppression(line: Seq<char>) -> bool {
    exists|i: int|
        0 <= i < 4 && (#[trigger] SUPPRESSION_PREFIXES@[i])@.is_prefix_of(trimmed(line))
}

/// The attribute that begins at line `at`: its trimmed lines run together, up to
/// the line that ends it or to `limit` lines.
pub open spec fn attribute_at(all: Seq<Seq<char>>, at: int, limit: nat) -> Seq<char>
    decreases limit,
{
    if limit == 0 || at >= all.len() {
        seq![]
    } else if occurs(all[at], ATTRIBUTE_END@) {
        trimmed(all[at])
    } else {
        trimmed(all[at]) + attribute_at(all, at + 1, (limit - 1) as nat)
    }
}

/// The attribute names a denied lint.
pub open spec fn names_denied_lint(attribute: Seq<char>) -> bool {
    exists|i: int| 0 <= i < 4 && occurs(attribute, (#[trigger] DENIED_LINTS@[i])@)
}

/// Line `above` is the nearest line over `at` that is not blank.
pub open spec fn nearest_above(all: Seq<Seq<char>>, at: int, above: int) -> bool {
    &&& 0 <= above < at
    &&& trimmed(all[above]).len() > 0
    &&& forall|k: int| above < k < at ==> (#[trigger] trimmed(all[k])).len() == 0
}

/// The nearest line over `at` that is not blank is a comment.
pub open spec fn justified(all: Seq<Seq<char>>, at: int) -> bool {
    exists|above: int|
        #[trigger] nearest_above(all, at, above) && COMMENT_START@.is_prefix_of(trimmed(all[above]))
}

/// Line `at` suppresses a denied lint and is not justified.
pub open spec fn offends(all: Seq<Seq<char>>, at: int) -> bool {
    &&& opens_suppression(all[at])
    &&& names_denied_lint(attribute_at(all, at, MAX_ATTRIBUTE_LINES as nat))
    &&& !justified(all, at)
}

/// The violations among the first `count` lines, in order.
pub open spec fn violations(all: Seq<Seq<char>>, count: nat) -> Seq<ViolationModel>
    decreases count,
{
    if count == 0 {
        seq![]
    } else {
        let before = violations(all, (count - 1) as nat);
        if offends(all, count - 1) {
            before.push(ViolationModel { line: count as int, text: trimmed(all[count - 1]) })
        } else {
            before
        }
    }
}

/// Exactly the offending lines are reported, each once, from the top down.
pub proof fn law_offending_lines_are_reported(all: Seq<Seq<char>>, count: nat)
    requires
        count <= all.len(),
    ensures
        forall|at: int|
            #![trigger offends(all, at)]
            0 <= at < count ==> (offends(all, at) <==> exists|i: int|
                0 <= i < violations(all, count).len() && (#[trigger] violations(all, count)[i]).line
                    == at + 1),
        forall|i: int|
            0 <= i < violations(all, count).len() ==> {
                let found = #[trigger] violations(all, count)[i];
                &&& 1 <= found.line <= count
                &&& found.text == trimmed(all[found.line - 1])
            },
        forall|i: int, j: int|
            0 <= i < j < violations(all, count).len() ==> (#[trigger] violations(
                all,
                count,
            )[i]).line < (#[trigger] violations(all, count)[j]).line,
    decreases count,
{
    if count > 0 {
        let before = violations(all, (count - 1) as nat);
        let after = violations(all, count);
        law_offending_lines_are_reported(all, (count - 1) as nat);
        assert forall|at: int|
            #![trigger offends(all, at)]
            0 <= at < count implies (offends(all, at) <==> exists|i: int|
            0 <= i < after.len() && (#[trigger] after[i]).line == at + 1) by {
            if at == count - 1 {
                if offends(all, at) {
                    assert(after[before.len() as int].line == at + 1);
                }
            } else {
                if offends(all, at) {
                    let i = choose|i: int|
                        0 <= i < before.len() && (#[trigger] before[i]).line == at + 1;
                    assert(after[i].line == at + 1);
                }
                if exists|i: int| 0 <= i < after.len() && (#[trigger] after[i]).line == at + 1 {
                    let i = choose|i: int|
                        0 <= i < after.len() && (#[trigger] after[i]).line == at + 1;
                    assert(before[i].line == at + 1);
                }
            }
        }
    }
}

/// Is `c` white space?
fn blank(c: char) -> (answer: bool)
    ensures
        answer == is_blank(c),
{
    ('\u{9}' <= c && c <= '\u{d}') || c == '\u{20}' || c == '\u{85}' || c == '\u{a0}' || c
        == '\u{1680}' || ('\u{2000}' <= c && c <= '\u{200a}') || c == '\u{2028}' || c == '\u{2029}'
        || c == '\u{202f}' || c == '\u{205f}' || c == '\u{3000}'
}

/// The characters of `text`.
fn characters(text: &str) -> (out: Vec<char>)
    ensures
        out@ == text@,
{
    let mut out: Vec<char> = Vec::new();
    for c in it: text.chars()
        invariant
            it.seq() == text@,
            out@ == text@.subrange(0, it.index()),
    {
        out.push(c);
    }
    out
}

/// A stretch of the scanned text.
#[derive(Clone, Copy)]
struct Span {
    from: usize,
    to: usize,
}

impl Span {
    spec fn within(self, text: Seq<char>) -> bool {
        self.from <= self.to <= text.len()
    }

    spec fn of(self, text: Seq<char>) -> Seq<char> {
        text.subrange(self.from as int, self.to as int)
    }
}

/// The spans of the lines of `text`.
fn line_spans(text: &Vec<char>) -> (spans: Vec<Span>)
    ensures
        spans@.len() == lines(text@).len(),
        forall|i: int|
            0 <= i < spans@.len() ==> (#[trigger] spans@[i]).within(text@) && spans@[i].of(text@)
                == lines(text@)[i],
{
    let mut spans: Vec<Span> = Vec::new();
    let mut from: usize = 0;
    assert(text@.subrange(0, text@.len() as int) =~= text@);
    while from < text.len()
        invariant
            from <= text@.len(),
            forall|i: int| 0 <= i < spans@.len() ==> (#[trigger] spans@[i]).within(text@),
            lines(text@) == spans@.map_values(|span: Span| span.of(text@)) + lines(
                text@.subrange(from as int, text@.len() as int),
            ),
        decreases text@.len() - from,
    {
        let ghost rest = text@.subrange(from as int, text@.len() as int);
        let mut to: usize = from;
        while to < text.len() && text[to] != '\n'
            invariant
                from <= to <= text@.len(),
                rest == text@.subrange(from as int, text@.len() as int),
                newline_in(rest) == to - from + newline_in(
                    text@.subrange(to as int, text@.len() as int),
                ),
            decreases text@.len() - to,
        {
            let ghost tail = text@.subrange(to as int, text@.len() as int);
            assert(tail.drop_first() =~= text@.subrange(to + 1, text@.len() as int));
            to += 1;
        }
        let ghost before = spans@;
        let span = Span { from, to };
        spans.push(span);
        proof {
            assert(newline_in(rest) == to - from);
            let f = |span: Span| span.of(text@);
            assert(spans@.map_values(f) =~= before.map_values(f).push(span.of(text@)));
            if to < text@.len() {
                assert(rest.subrange(0, to - from) =~= span.of(text@));
                assert(rest.subrange(to - from + 1, rest.len() as int) =~= text@.subrange(
                    to + 1,
                    text@.len() as int,
                ));
                assert(lines(rest) == seq![span.of(text@)] + lines(
                    text@.subrange(to + 1, text@.len() as int),
                ));
            } else {
                assert(rest =~= span.of(text@));
                assert(lines(rest) == seq![span.of(text@)]);
                assert(lines(text@.subrange(to as int, text@.len() as int)) =~= seq![]);
            }
            assert(before.map_values(f) + lines(rest) =~= spans@.map_values(f) + lines(
                text@.subrange(
                    if to < text@.len() {
                        to + 1
                    } else {
                        to as int
                    },
                    text@.len() as int,
                ),
            ));
        }
        from = if to < text.len() {
            to + 1
        } else {
            to
        };
    }
    proof {
        assert(text@.subrange(from as int, text@.len() as int) =~= seq![]);
        let f = |span: Span| span.of(text@);
        assert(lines(text@) =~= spans@.map_values(f));
    }
    spans
}

/// The span without the white space around it.
fn trim(text: &Vec<char>, span: Span) -> (inner: Span)
    requires
        span.within(text@),
    ensures
        inner.within(text@),
        inner.of(text@) == trimmed(span.of(text@)),
{
    let mut from: usize = span.from;
    while from < span.to && blank(text[from])
        invariant
            span.within(text@),
            span.from <= from <= span.to,
            trim_start(span.of(text@)) == trim_start(text@.subrange(from as int, span.to as int)),
        decreases span.to - from,
    {
        assert(text@.subrange(from as int, span.to as int).drop_first() =~= text@.subrange(
            from + 1,
            span.to as int,
        ));
        from += 1;
    }
    let ghost start = text@.subrange(from as int, span.to as int);
    assert(trim_start(start) == start);
    let mut to: usize = span.to;
    while from < to && blank(text[to - 1])
        invariant
            span.within(text@),
            from <= to <= span.to,
            trim_end(start) == trim_end(text@.subrange(from as int, to as int)),
        decreases to - from,
    {
        assert(text@.subrange(from as int, to as int).drop_last() =~= text@.subrange(
            from as int,
            to - 1,
        ));
        to -= 1;
    }
    Span { from, to }
}

/// Does `needle` stand in `text` at position `at`?
fn stands_at(text: &Vec<char>, needle: &Vec<char>, at: usize) -> (answer: bool)
    requires
        at <= text@.len(),
    ensures
        answer == occurs_at(text@, needle@, at as int),
{
    if needle.len() > text.len() - at {
        return false;
    }
    let mut i: usize = 0;
    while i < needle.len()
        invariant
            i <= needle@.len(),
            at + needle.len() <= text.len(),
            forall|k: int| 0 <= k < i ==> text@[at + k] == #[trigger] needle@[k],
        decreases needle@.len() - i,
    {
        if text[at + i] != needle[i] {
            assert(text@.subrange(at as int, at + needle@.len())[i as int] != needle@[i as int]);
            return false;
        }
        i += 1;
    }
    assert(text@.subrange(at as int, at + needle@.len()) =~= needle@);
    true
}

/// Does `needle` stand somewhere in `text`?
fn contains(text: &Vec<char>, needle: &Vec<char>) -> (answer: bool)
    ensures
        answer == occurs(text@, needle@),
{
    let mut at: usize = 0;
    while at <= text.len()
        invariant
            at <= text@.len() + 1,
            forall|k: int| 0 <= k < at ==> !occurs_at(text@, needle@, k),
        decreases text@.len() + 1 - at,
    {
        if stands_at(text, needle, at) {
            return true;
        }
        if at == text.len() {
            return false;
        }
        at += 1;
    }
    false
}

/// The characters of one span.
fn copied(text: &Vec<char>, span: Span) -> (out: Vec<char>)
    requires
        span.within(text@),
    ensures
        out@ == span.of(text@),
{
    let mut out: Vec<char> = Vec::new();
    let mut i: usize = span.from;
    while i < span.to
        invariant
            span.within(text@),
            span.from <= i <= span.to,
            out@ == text@.subrange(span.from as int, i as int),
        decreases span.to - i,
    {
        out.push(text[i]);
        i += 1;
        assert(out@ =~= text@.subrange(span.from as int, i as int));
    }
    out
}

/// Does the trimmed line begin a suppression attribute?
fn is_suppression(line: &Vec<char>) -> (answer: bool)
    ensures
        answer == exists|i: int|
            0 <= i < 4 && (#[trigger] SUPPRESSION_PREFIXES@[i])@.is_prefix_of(line@),
{
    let mut i: usize = 0;
    while i < 4
        invariant
            i <= 4,
            forall|k: int|
                0 <= k < i ==> !(#[trigger] SUPPRESSION_PREFIXES@[k])@.is_prefix_of(line@),
        decreases 4 - i,
    {
        let prefix = characters(SUPPRESSION_PREFIXES[i]);
        if stands_at(line, &prefix, 0) {
            assert(SUPPRESSION_PREFIXES@[i as int]@.is_prefix_of(line@));
            return true;
        }
        i += 1;
    }
    false
}

/// Does the attribute name a denied lint?
fn is_denied(attribute: &Vec<char>) -> (answer: bool)
    ensures
        answer == names_denied_lint(attribute@),
{
    let mut i: usize = 0;
    while i < 4
        invariant
            i <= 4,
            forall|k: int| 0 <= k < i ==> !occurs(attribute@, (#[trigger] DENIED_LINTS@[k])@),
        decreases 4 - i,
    {
        let lint = characters(DENIED_LINTS[i]);
        if contains(attribute, &lint) {
            return true;
        }
        i += 1;
    }
    false
}

/// The attribute that begins at line `at`, its trimmed lines run together.
fn attribute(text: &Vec<char>, spans: &Vec<Span>, at: usize) -> (joined: Vec<char>)
    requires
        at < spans@.len(),
        spans@.len() == lines(text@).len(),
        forall|i: int|
            0 <= i < spans@.len() ==> (#[trigger] spans@[i]).within(text@) && spans@[i].of(text@)
                == lines(text@)[i],
    ensures
        joined@ == attribute_at(lines(text@), at as int, MAX_ATTRIBUTE_LINES as nat),
{
    let end = characters(ATTRIBUTE_END);
    let mut joined: Vec<char> = Vec::new();
    let mut left: usize = MAX_ATTRIBUTE_LINES;
    let mut i: usize = at;
    while left > 0 && i < spans.len()
        invariant
            at <= i <= spans@.len(),
            end@ == ATTRIBUTE_END@,
            spans@.len() == lines(text@).len(),
            forall|i: int|
                0 <= i < spans@.len() ==> (#[trigger] spans@[i]).within(text@) && spans@[i].of(
                    text@,
                ) == lines(text@)[i],
            attribute_at(lines(text@), at as int, MAX_ATTRIBUTE_LINES as nat) == joined@
                + attribute_at(lines(text@), i as int, left as nat),
        decreases left,
    {
        let ghost before = joined@;
        let mut part = copied(text, trim(text, spans[i]));
        let line = copied(text, spans[i]);
        joined.append(&mut part);
        if contains(&line, &end) {
            assert(joined@ =~= before + attribute_at(lines(text@), i as int, left as nat));
            return joined;
        }
        assert(joined@ + attribute_at(lines(text@), i + 1, (left - 1) as nat) =~= before
            + attribute_at(lines(text@), i as int, left as nat));
        left -= 1;
        i += 1;
    }
    assert(joined@ + seq![] =~= joined@);
    joined
}

/// Is the nearest line over `at` that is not blank a comment?
fn is_justified(text: &Vec<char>, spans: &Vec<Span>, at: usize) -> (answer: bool)
    requires
        at < spans@.len(),
        spans@.len() == lines(text@).len(),
        forall|i: int|
            0 <= i < spans@.len() ==> (#[trigger] spans@[i]).within(text@) && spans@[i].of(text@)
                == lines(text@)[i],
    ensures
        answer == justified(lines(text@), at as int),
{
    let start = characters(COMMENT_START);
    let mut above: usize = at;
    while above > 0
        invariant
            above <= at < spans@.len(),
            start@ == COMMENT_START@,
            spans@.len() == lines(text@).len(),
            forall|i: int|
                0 <= i < spans@.len() ==> (#[trigger] spans@[i]).within(text@) && spans@[i].of(
                    text@,
                ) == lines(text@)[i],
            forall|k: int|
                above <= k < at ==> (#[trigger] trimmed(lines(text@)[k])).len() == 0,
        decreases above,
    {
        above -= 1;
        let line = copied(text, trim(text, spans[above]));
        if line.len() > 0 {
            let answer = stands_at(&line, &start, 0);
            proof {
                assert(nearest_above(lines(text@), at as int, above as int));
                assert(answer == COMMENT_START@.is_prefix_of(line@));
                assert forall|other: int|
                    nearest_above(lines(text@), at as int, other) implies other == above by {
                    if other < above {
                        assert(trimmed(lines(text@)[above as int]).len() == 0);
                    } else if other > above {
                        assert(trimmed(lines(text@)[other]).len() > 0);
                    }
                }
            }
            return answer;
        }
    }
    false
}

/// Scan one source file: report each suppression of a denied lint, on one line
/// or over several, whose nearest line above that is not blank is no comment.
pub fn scan_source(text: &str) -> (found: Vec<Violation>)
    ensures
        found@.map_values(|violation: Violation| violation@) == violations(
            lines(text@),
            lines(text@).len(),
        ),
{
    let content = characters(text);
    let spans = line_spans(&content);
    let ghost all = lines(text@);
    let mut found: Vec<Violation> = Vec::new();
    let mut at: usize = 0;
    while at < spans.len()
        invariant
            at <= spans@.len(),
            content@ == text@,
            all == lines(text@),
            spans@.len() == lines(content@).len(),
            forall|i: int|
                0 <= i < spans@.len() ==> (#[trigger] spans@[i]).within(content@) && spans@[i].of(
                    content@,
                ) == lines(content@)[i],
            found@.map_values(|violation: Violation| violation@) == violations(all, at as nat),
        decreases spans@.len() - at,
    {
        let inner = trim(&content, spans[at]);
        let line = copied(&content, inner);
        let ghost before = found@;
        if is_suppression(&line) && is_denied(&attribute(&content, &spans, at)) && !is_justified(
            &content,
            &spans,
            at,
        ) {
            let violation = Violation {
                line: at + 1,
                text: text.substring_char(inner.from, inner.to).to_owned(),
            };
            found.push(violation);
            proof {
                let f = |violation: Violation| violation@;
                assert(found@.map_values(f) =~= before.map_values(f).push(violation@));
                assert(offends(all, at as int));
                assert(violation@ == (ViolationModel {
                    line: at + 1,
                    text: trimmed(all[at as int]),
                }));
            }
        }
        at += 1;
    }
    found
}

/// The twenty-five white-space characters, by their numbers.
pub proof fn law_white_space_is_these(c: char)
    ensures
        is_blank(c) <==> {
            let code = c as int;
            ||| 9 <= code <= 13
            ||| code == 32
            ||| code == 133
            ||| code == 160
            ||| code == 5760
            ||| 8192 <= code <= 8202
            ||| code == 8232
            ||| code == 8233
            ||| code == 8239
            ||| code == 8287
            ||| code == 12288
        },
{
}

/// Trimming takes white space off both ends and nothing else: what is left stands
/// in the text between two places, everything before and behind is white space, and
/// it neither begins nor ends with any.
pub proof fn law_trimming_takes_white_space_alone(text: Seq<char>) -> (places: (int, int))
    ensures
        0 <= places.0 <= places.1 <= text.len(),
        trimmed(text) == text.subrange(places.0, places.1),
        forall|i: int| 0 <= i < places.0 ==> is_blank(#[trigger] text[i]),
        forall|i: int| places.1 <= i < text.len() ==> is_blank(#[trigger] text[i]),
        trimmed(text).len() > 0 ==> !is_blank(trimmed(text)[0]) && !is_blank(trimmed(text).last()),
{
    let from = lemma_trim_start(text);
    let start = trim_start(text);
    let to = lemma_trim_end(start);
    assert(start == text.subrange(from, text.len() as int));
    assert(trimmed(text) =~= text.subrange(from, from + to));
    assert forall|i: int| from + to <= i < text.len() implies is_blank(#[trigger] text[i]) by {
        assert(start[i - from] == text[i]);
    }
    if trimmed(text).len() > 0 {
        assert(trimmed(text)[0] == start[0]);
    }
    (from, from + to)
}

proof fn lemma_trim_start(text: Seq<char>) -> (from: int)
    ensures
        0 <= from <= text.len(),
        trim_start(text) == text.subrange(from, text.len() as int),
        forall|i: int| 0 <= i < from ==> is_blank(#[trigger] text[i]),
        from < text.len() ==> !is_blank(text[from]),
    decreases text.len(),
{
    if text.len() > 0 && is_blank(text[0]) {
        let rest = text.drop_first();
        let from = lemma_trim_start(rest);
        assert(rest.subrange(from, rest.len() as int) =~= text.subrange(
            from + 1,
            text.len() as int,
        ));
        assert forall|i: int| 0 <= i < from + 1 implies is_blank(#[trigger] text[i]) by {
            if i > 0 {
                assert(rest[i - 1] == text[i]);
            }
        }
        if from < rest.len() {
            assert(rest[from] == text[from + 1]);
        }
        from + 1
    } else {
        assert(text.subrange(0, text.len() as int) =~= text);
        0
    }
}

proof fn lemma_trim_end(text: Seq<char>) -> (to: int)
    ensures
        0 <= to <= text.len(),
        trim_end(text) == text.subrange(0, to),
        forall|i: int| to <= i < text.len() ==> is_blank(#[trigger] text[i]),
        to > 0 ==> !is_blank(text[to - 1]),
    decreases text.len(),
{
    if text.len() > 0 && is_blank(text.last()) {
        let rest = text.drop_last();
        let to = lemma_trim_end(rest);
        assert(rest.subrange(0, to) =~= text.subrange(0, to));
        assert forall|i: int| to <= i < text.len() implies is_blank(#[trigger] text[i]) by {
            if i < rest.len() {
                assert(rest[i] == text[i]);
            }
        }
        if to > 0 {
            assert(rest[to - 1] == text[to - 1]);
        }
        to
    } else {
        assert(text.subrange(0, text.len() as int) =~= text);
        text.len() as int
    }
}

/// No text has no lines; text without a newline is one line; and a line, its newline
/// and the rest are that line and the lines of the rest. So a newline at the very
/// end opens no further line.
pub proof fn law_text_is_its_lines(line: Seq<char>, rest: Seq<char>)
    requires
        !line.contains('\n'),
    ensures
        lines(Seq::<char>::empty()).len() == 0,
        line.len() > 0 ==> lines(line) == seq![line],
        lines(line + seq!['\n'] + rest) == seq![line] + lines(rest),
        lines(line + seq!['\n']) == seq![line],
{
    lemma_newline_in(line, Seq::empty());
    lemma_newline_in(line, seq!['\n'] + rest);
    lemma_newline_in(line, seq!['\n']);
    let text = line + seq!['\n'] + rest;
    assert(text =~= line + (seq!['\n'] + rest));
    assert(text.subrange(0, line.len() as int) =~= line);
    assert(text.subrange(line.len() as int + 1, text.len() as int) =~= rest);
    let ended = line + seq!['\n'];
    assert(ended.subrange(0, line.len() as int) =~= line);
    assert(ended.subrange(line.len() as int + 1, ended.len() as int) =~= Seq::<char>::empty());
    assert(lines(Seq::<char>::empty()) =~= Seq::<Seq<char>>::empty());
    assert(lines(ended) == seq![line] + lines(Seq::<char>::empty()));
    assert(seq![line] + Seq::<Seq<char>>::empty() =~= seq![line]);
    assert(line + Seq::<char>::empty() =~= line);
}

proof fn lemma_newline_in(line: Seq<char>, tail: Seq<char>)
    requires
        !line.contains('\n'),
        tail.len() > 0 ==> tail[0] == '\n',
    ensures
        newline_in(line + tail) == line.len(),
    decreases line.len(),
{
    let text = line + tail;
    if line.len() > 0 {
        assert(line.contains(line[0]));
        assert(text[0] == line[0]);
        assert(text.drop_first() =~= line.drop_first() + tail);
        assert forall|i: int| 0 <= i < line.drop_first().len() implies line.drop_first()[i]
            != '\n' by {
            assert(line.contains(line[i + 1]));
        }
        lemma_newline_in(line.drop_first(), tail);
    } else {
        assert(text =~= tail);
    }
}

/// What stands in a text is found there wherever it stands, and what is found there
/// parts the text in what is before it, itself, and what is behind it.
pub proof fn law_found_text_stands_there(
    before: Seq<char>,
    needle: Seq<char>,
    behind: Seq<char>,
    text: Seq<char>,
)
    ensures
        occurs(before + needle + behind, needle),
        occurs(text, needle) <==> exists|at: int|
            #![trigger text.subrange(0, at)]
            0 <= at <= text.len() - needle.len() && text == text.subrange(0, at) + needle
                + text.subrange(at + needle.len(), text.len() as int),
{
    let whole = before + needle + behind;
    let at = before.len() as int;
    assert(whole.subrange(at, at + needle.len()) =~= needle);
    assert(occurs_at(whole, needle, at));
    if occurs(text, needle) {
        let at = choose|at: int| occurs_at(text, needle, at);
        assert(text =~= text.subrange(0, at) + needle + text.subrange(
            at + needle.len(),
            text.len() as int,
        )) by {
            assert(text =~= text.subrange(0, at) + text.subrange(at, at + needle.len())
                + text.subrange(at + needle.len(), text.len() as int));
        }
    }
    if exists|at: int|
        #![trigger text.subrange(0, at)]
        0 <= at <= text.len() - needle.len() && text == text.subrange(0, at) + needle
            + text.subrange(at + needle.len(), text.len() as int) {
        let at = choose|at: int|
            #![trigger text.subrange(0, at)]
            0 <= at <= text.len() - needle.len() && text == text.subrange(0, at) + needle
                + text.subrange(at + needle.len(), text.len() as int);
        assert(text.subrange(at, at + needle.len()) =~= needle);
        assert(occurs_at(text, needle, at));
    }
}

/// A line opens a suppression exactly if it begins, white space aside, with one of
/// four attributes: an `allow` or an `expect`, of an item or of a whole file.
pub proof fn law_suppressions_begin_like_this(line: Seq<char>)
    ensures
        opens_suppression(line) <==> {
            ||| "#[allow("@.is_prefix_of(trimmed(line))
            ||| "#![allow("@.is_prefix_of(trimmed(line))
            ||| "#[expect("@.is_prefix_of(trimmed(line))
            ||| "#![expect("@.is_prefix_of(trimmed(line))
        },
{
    assert(SUPPRESSION_PREFIXES@[0]@ == "#[allow("@);
    assert(SUPPRESSION_PREFIXES@[1]@ == "#![allow("@);
    assert(SUPPRESSION_PREFIXES@[2]@ == "#[expect("@);
    assert(SUPPRESSION_PREFIXES@[3]@ == "#![expect("@);
}

/// An attribute names a denied lint exactly if one of four names stands in it.
pub proof fn law_denied_lints_are_these(attribute: Seq<char>)
    ensures
        names_denied_lint(attribute) <==> {
            ||| occurs(attribute, "clippy::unwrap_used"@)
            ||| occurs(attribute, "clippy::expect_used"@)
            ||| occurs(attribute, "clippy::indexing_slicing"@)
            ||| occurs(attribute, "clippy::arithmetic_side_effects"@)
        },
{
    assert(DENIED_LINTS@[0]@ == "clippy::unwrap_used"@);
    assert(DENIED_LINTS@[1]@ == "clippy::expect_used"@);
    assert(DENIED_LINTS@[2]@ == "clippy::indexing_slicing"@);
    assert(DENIED_LINTS@[3]@ == "clippy::arithmetic_side_effects"@);
}

/// An attribute is read to the line that ends it and no further: it is that line
/// itself if it ends where it begins, and whatever follows its last line, or its
/// eighth, decides nothing.
pub proof fn law_attribute_is_read_to_its_end(
    all: Seq<Seq<char>>,
    other: Seq<Seq<char>>,
    at: int,
    last: int,
    limit: nat,
)
    requires
        0 <= at <= last < all.len(),
        last < other.len(),
        forall|i: int| at <= i <= last ==> all[i] == #[trigger] other[i],
        occurs(all[last], ")]"@) || last - at + 1 >= limit,
    ensures
        attribute_at(all, at, limit) == attribute_at(other, at, limit),
        limit > 0 && occurs(all[at], ")]"@) ==> attribute_at(all, at, limit) == trimmed(all[at]),
        limit > 0 && !occurs(all[at], ")]"@) ==> attribute_at(all, at, limit) == trimmed(all[at])
            + attribute_at(all, at + 1, (limit - 1) as nat),
        limit == 0 ==> attribute_at(all, at, limit).len() == 0,
        MAX_ATTRIBUTE_LINES == 8,
    decreases limit,
{
    assert(all[at] == other[at]);
    assert(ATTRIBUTE_END@ == ")]"@);
    if limit > 0 && !occurs(all[at], ATTRIBUTE_END@) {
        if at < last {
            law_attribute_is_read_to_its_end(all, other, at + 1, last, (limit - 1) as nat);
        }
    }
}

/// The first line is never justified. A line below a blank one is justified exactly
/// if that one is, and below any other exactly if that other is a comment.
pub proof fn law_justified_by_the_line_above(all: Seq<Seq<char>>, at: int)
    requires
        0 <= at,
    ensures
        at == 0 ==> !justified(all, at),
        at > 0 && trimmed(all[at - 1]).len() == 0 ==> (justified(all, at) <==> justified(
            all,
            at - 1,
        )),
        at > 0 && trimmed(all[at - 1]).len() > 0 ==> (justified(all, at) <==> "//"@.is_prefix_of(
            trimmed(all[at - 1]),
        )),
{
    assert(COMMENT_START@ == "//"@);
    if at > 0 {
        if trimmed(all[at - 1]).len() == 0 {
            if justified(all, at) {
                let above = choose|above: int|
                    #[trigger] nearest_above(all, at, above) && COMMENT_START@.is_prefix_of(
                        trimmed(all[above]),
                    );
                assert(nearest_above(all, at - 1, above));
            }
            if justified(all, at - 1) {
                let above = choose|above: int|
                    #[trigger] nearest_above(all, at - 1, above) && COMMENT_START@.is_prefix_of(
                        trimmed(all[above]),
                    );
                assert forall|k: int| above < k < at implies (#[trigger] trimmed(all[k])).len()
                    == 0 by {}
                assert(nearest_above(all, at, above));
            }
        } else {
            assert(nearest_above(all, at, at - 1));
            assert forall|above: int| nearest_above(all, at, above) implies above == at - 1 by {
                if above < at - 1 {
                    assert(trimmed(all[at - 1]).len() == 0);
                }
            }
        }
    }
}

/// A line offends exactly if it opens a suppression of a denied lint and is not
/// justified; and a scan finds exactly the offending lines of its text, each once
/// and from the top, by the number and the trimmed text of the line.
pub proof fn law_scan_finds_the_offending_lines(text: &str, found: Vec<Violation>, at: int)
    requires
        call_ensures(scan_source, (text,), found),
        0 <= at < lines(text@).len(),
    ensures
        ({
            let all = lines(text@);
            &&& (exists|i: int| 0 <= i < found@.len() && (#[trigger] found@[i]).line == at + 1)
                <==> opens_suppression(all[at]) && names_denied_lint(attribute_at(all, at, 8))
                && !justified(all, at)
            &&& forall|i: int|
                0 <= i < found@.len() ==> 1 <= (#[trigger] found@[i]).line <= all.len()
                    && found@[i].text@ == trimmed(all[found@[i].line - 1])
            &&& forall|i: int, j: int|
                0 <= i < j < found@.len() ==> (#[trigger] found@[i]).line < (
                #[trigger] found@[j]).line
        }),
{
    let all = lines(text@);
    let models = violations(all, all.len());
    let f = |violation: Violation| violation@;
    law_offending_lines_are_reported(all, all.len());
    assert(found@.map_values(f) == models);
    assert forall|i: int| 0 <= i < found@.len() implies (#[trigger] found@[i])@ == models[i] by {
        assert(found@.map_values(f)[i] == found@[i]@);
    }
    assert(found@.len() == models.len());
    assert(offends(all, at) <==> opens_suppression(all[at]) && names_denied_lint(
        attribute_at(all, at, 8),
    ) && !justified(all, at));
    if offends(all, at) {
        let i = choose|i: int| 0 <= i < models.len() && (#[trigger] models[i]).line == at + 1;
        assert(found@[i]@ == models[i]);
        assert(found@[i].line == at + 1);
    }
    if exists|i: int| 0 <= i < found@.len() && (#[trigger] found@[i]).line == at + 1 {
        let i = choose|i: int| 0 <= i < found@.len() && (#[trigger] found@[i]).line == at + 1;
        assert(found@[i]@ == models[i]);
        assert(models[i].line == at + 1);
    }
    assert forall|i: int| 0 <= i < found@.len() implies 1 <= (#[trigger] found@[i]).line
        <= all.len() && found@[i].text@ == trimmed(all[found@[i].line - 1]) by {
        assert(found@[i]@ == models[i]);
        assert(1 <= models[i].line <= all.len());
    }
    assert forall|i: int, j: int| 0 <= i < j < found@.len() implies (#[trigger] found@[i]).line < (
    #[trigger] found@[j]).line by {
        assert(found@[i]@ == models[i] && found@[j]@ == models[j]);
        assert(models[i].line < models[j].line);
    }
}

} // verus!
