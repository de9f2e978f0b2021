//! Recognising a text by the markers at its two ends.

use vstd::prelude::*;

verus! {

/// `c` has the Unicode property White_Space.
pub open spec fn is_white_space(c: char) -> bool {
    ||| '\u{9}' <= c <= '\u{d}'
    ||| c == ' '
    ||| c == '\u{85}'
    ||| c == '\u{a0}'
    ||| c == '\u{1680}'
    ||| '\u{2000}' <= c <= '\u{200a}'
    ||| c == '\u{2028}'
    ||| c == '\u{2029}'
    ||| c == '\u{202f}'
    ||| c == '\u{205f}'
    ||| c == '\u{3000}'
}

/// `text` without the white space that it starts with.
pub open spec fn trim_start(text: Seq<char>) -> Seq<char>
    decreases text.len(),
{
    if text.len() > 0 && is_white_space(text[0]) {
        trim_start(text.skip(1))
    } else {
        text
    }
}

/// `text` without the white space that it ends with.
pub open spec fn trim_end(text: Seq<char>) -> Seq<char>
    decreases text.len(),
{
    if text.len() > 0 && is_white_space(text.last()) {
        trim_end(text.drop_last())
    } else {
        text
    }
}

/// `text` without the white space at either end.
pub open spec fn trim(text: Seq<char>) -> Seq<char> {
    trim_end(trim_start(text))
}

/// The code of `c`, an upper-case ASCII letter taken for its lower-case form.
pub open spec fn fold_case(c: char) -> int {
    if 'A' <= c <= 'Z' {
        c as int + 32
    } else {
        c as int
    }
}

/// The two texts differ at most in the case of ASCII letters.
pub open spec fn same_ignoring_case(a: Seq<char>, b: Seq<char>) -> bool {
    &&& a.len() == b.len()
    &&& forall|i: int| 0 <= i < a.len() ==> fold_case(#[trigger] a[i]) == fold_case(b[i])
}

/// `text` starts with `marker`, up to the case of ASCII letters.
pub open spec fn starts_with_marker(text: Seq<char>, marker: Seq<char>) -> bool {
    &&& marker.len() <= text.len()
    &&& same_ignoring_case(text.take(marker.len() as int), marker)
}

/// `text` ends with `marker`, up to the case of ASCII letters.
pub open spec fn ends_with_marker(text: Seq<char>, marker: Seq<char>) -> bool {
    &&& marker.len() <= text.len()
    &&& same_ignoring_case(text.skip(text.len() - marker.len()), marker)
}

/// Between the white space at its ends, `text` starts with the one marker and ends with the
/// other, up to the case of ASCII letters. An empty marker marks nothing.
pub open spec fn is_marked(text: Seq<char>, start: Seq<char>, end: Seq<char>) -> bool {
    &&& start.len() > 0
    &&& end.len() > 0
    &&& starts_with_marker(trim(text), start)
    &&& ends_with_marker(trim(text), end)
}

/// The characters of a text.
fn chars_of(text: &str) -> (chars: Vec<char>)
    ensures
        chars@ == text@,
{
    let mut chars: Vec<char> = Vec::new();
    for c in it: text.chars()
        invariant
            chars@ == text@.take(it.index()),
            it.seq() == text@,
    {
        chars.push(c);
    }
    chars
}

/// Whether a character is white space.
fn white_space(c: char) -> (white: bool)
    ensures
        white == is_white_space(c),
{
    ('\u{9}' <= c && c <= '\u{d}') || c == ' ' || c == '\u{85}' || c == '\u{a0}' || c == '\u{1680}'
        || ('\u{2000}' <= c && c <= '\u{200a}') || c == '\u{2028}' || c == '\u{2029}' || c
        == '\u{202f}' || c == '\u{205f}' || c == '\u{3000}'
}

/// The code of a character, an upper-case ASCII letter taken for its lower-case form.
fn folded(c: char) -> (code: u32)
    ensures
        code == fold_case(c),
{
    if 'A' <= c && c <= 'Z' {
        c as u32 + 32
    } else {
        c as u32
    }
}

/// Where a text starts and ends between the white space at its ends.
fn trim_bounds(chars: &Vec<char>) -> (bounds: (usize, usize))
    ensures
        bounds.0 <= bounds.1 <= chars@.len(),
        chars@.subrange(bounds.0 as int, bounds.1 as int) == trim(chars@),
{
    let mut from: usize = 0;
    assert(chars@.skip(0) =~= chars@);
    while from < chars.len() && white_space(chars[from])
        invariant
            from <= chars@.len(),
            trim_start(chars@) == trim_start(chars@.skip(from as int)),
        decreases chars@.len() - from,
    {
        assert(chars@.skip(from as int).skip(1) =~= chars@.skip(from + 1));
        from = from + 1;
    }
    assert(trim_start(chars@) == chars@.skip(from as int));
    let mut to: usize = chars.len();
    assert(chars@.subrange(from as int, to as int) =~= chars@.skip(from as int));
    while from < to && white_space(chars[to - 1])
        invariant
            from <= to <= chars@.len(),
            trim(chars@) == trim_end(chars@.subrange(from as int, to as int)),
        decreases to - from,
    {
        assert(chars@.subrange(from as int, to as int).drop_last() =~= chars@.subrange(
            from as int,
            to - 1,
        ));
        to = to - 1;
    }
    (from, to)
}

/// Whether `marker` stands in the text at `at`, up to the case of ASCII letters.
fn marker_at(chars: &Vec<char>, at: usize, marker: &Vec<char>) -> (found: bool)
    requires
        at + marker@.len() <= chars@.len(),
    ensures
        found == same_ignoring_case(chars@.subrange(at as int, at + marker@.len()), marker@),
{
    let ghost part = chars@.subrange(at as int, at + marker@.len());
    let mut i: usize = 0;
    while i < marker.len()
        invariant
            i <= marker@.len(),
            at + marker@.len() <= chars.len() == chars@.len(),
            part == chars@.subrange(at as int, at + marker@.len()),
            forall|j: int| 0 <= j < i ==> fold_case(#[trigger] part[j]) == fold_case(marker@[j]),
        decreases marker@.len() - i,
    {
        if folded(chars[at + i]) != folded(marker[i]) {
            assert(fold_case(part[i as int]) != fold_case(marker@[i as int]));
            return false;
        }
        i = i + 1;
    }
    true
}

/// Whether a text carries the two markers; see [`is_marked`].
pub fn text_is_marked(text: &str, start: &str, end: &str) -> (marked: bool)
    ensures
        marked == is_marked(text@, start@, end@),
{
    let start = chars_of(start);
    let end = chars_of(end);
    if start.len() == 0 || end.len() == 0 {
        return false;
    }
    let chars = chars_of(text);
    let (from, to) = trim_bounds(&chars);
    let ghost trimmed = trim(text@);
    if start.len() > to - from || end.len() > to - from {
        return false;
    }
    assert(trimmed.take(start@.len() as int) =~= chars@.subrange(
        from as int,
        from + start@.len(),
    ));
    assert(trimmed.skip(trimmed.len() - end@.len()) =~= chars@.subrange(
        to - end@.len(),
        to as int,
    ));
    marker_at(&chars, from, &start) && marker_at(&chars, to - end.len(), &end)
}

proof fn lemma_trim_start_ignores_case(a: Seq<char>, b: Seq<char>)
    requires
        same_ignoring_case(a, b),
    ensures
        same_ignoring_case(trim_start(a), trim_start(b)),
    decreases a.len(),
{
    if a.len() > 0 {
        assert(fold_case(a[0]) == fold_case(b[0]));
        if is_white_space(a[0]) {
            assert(same_ignoring_case(a.skip(1), b.skip(1)));
            lemma_trim_start_ignores_case(a.skip(1), b.skip(1));
        }
    }
}

proof fn lemma_trim_end_ignores_case(a: Seq<char>, b: Seq<char>)
    requires
        same_ignoring_case(a, b),
    ensures
        same_ignoring_case(trim_end(a), trim_end(b)),
    decreases a.len(),
{
    if a.len() > 0 {
        assert(fold_case(a[a.len() - 1]) == fold_case(b[b.len() - 1]));
        if is_white_space(a.last()) {
            assert(same_ignoring_case(a.drop_last(), b.drop_last()));
            lemma_trim_end_ignores_case(a.drop_last(), b.drop_last());
        }
    }
}

/// Two texts that differ only in the case of ASCII letters carry the same markers.
pub proof fn law_markers_ignore_case(a: Seq<char>, b: Seq<char>, start: Seq<char>, end: Seq<char>)
    requires
        same_ignoring_case(a, b),
    ensures
        is_marked(a, start, end) == is_marked(b, start, end),
{
    lemma_trim_start_ignores_case(a, b);
    lemma_trim_end_ignores_case(trim_start(a), trim_start(b));
    let ta = trim(a);
    let tb = trim(b);
    lemma_markers_follow(ta, tb, start, end);
    lemma_markers_follow(tb, ta, start, end);
}

proof fn lemma_markers_follow(a: Seq<char>, b: Seq<char>, start: Seq<char>, end: Seq<char>)
    requires
        same_ignoring_case(a, b),
    ensures
        starts_with_marker(a, start) ==> starts_with_marker(b, start),
        ends_with_marker(a, end) ==> ends_with_marker(b, end),
{
    if starts_with_marker(a, start) {
        let n = start.len() as int;
        assert forall|i: int| 0 <= i < n implies fold_case(#[trigger] b.take(n)[i]) == fold_case(
            start[i],
        ) by {
            assert(fold_case(a[i]) == fold_case(b[i]));
            assert(fold_case(a.take(n)[i]) == fold_case(start[i]));
        }
    }
    if ends_with_marker(a, end) {
        let at = a.len() - end.len();
        assert forall|i: int| 0 <= i < end.len() implies fold_case(#[trigger] b.skip(at)[i])
            == fold_case(end[i]) by {
            assert(fold_case(a[at + i]) == fold_case(b[at + i]));
            assert(fold_case(a.skip(at)[i]) == fold_case(end[i]));
        }
    }
}

/// A text that starts and ends with the markers themselves, neither of them with white space at
/// the outer end, carries them, whatever stands between.
pub proof fn law_framed_text_is_marked(start: Seq<char>, body: Seq<char>, end: Seq<char>)
    requires
        start.len() > 0,
        end.len() > 0,
        !is_white_space(start[0]),
        !is_white_space(end.last()),
    ensures
        is_marked(start + body + end, start, end),
        trim(start + body + end) == start + body + end,
{
    let text = start + body + end;
    assert(text[0] == start[0]);
    assert(text.last() == end.last());
    assert(text.take(start.len() as int) =~= start);
    assert(text.skip(text.len() - end.len()) =~= end);
}

/// A text that carries one start marker does not carry another that differs from it, at some
/// position that both have, by more than case.
pub proof fn law_markers_exclude(
    text: Seq<char>,
    start: Seq<char>,
    end: Seq<char>,
    other_start: Seq<char>,
    other_end: Seq<char>,
    at: int,
)
    requires
        is_marked(text, start, end),
        0 <= at < start.len(),
        at < other_start.len(),
        fold_case(start[at]) != fold_case(other_start[at]),
    ensures
        !is_marked(text, other_start, other_end),
{
    let t = trim(text);
    assert(fold_case(t.take(start.len() as int)[at]) == fold_case(start[at]));
    if other_start.len() <= t.len() {
        assert(t.take(other_start.len() as int)[at] == t[at]);
    }
}

/// White space is what Unicode says it is: the controls from tab to carriage return, the next line,
/// the spaces, and the separators of lines and paragraphs.
pub proof fn law_white_space(c: char)
    ensures
        is_white_space(c) <==> {
            let code = c as int;
            ||| 0x9 <= code <= 0xd
            ||| code == 0x20 || code == 0x85 || code == 0xa0 || code == 0x1680
            ||| 0x2000 <= code <= 0x200a
            ||| code == 0x2028 || code == 0x2029 || code == 0x202f || code == 0x205f
            ||| code == 0x3000
        },
{
}

/// Two characters are taken for the same exactly if they are the same, or one is an upper-case
/// ASCII letter and the other its lower-case form.
pub proof fn law_same_but_for_case(a: char, b: char)
    ensures
        fold_case(a) == fold_case(b) <==> {
            ||| a == b
            ||| 'A' <= a <= 'Z' && b as int == a as int + 32
            ||| 'A' <= b <= 'Z' && a as int == b as int + 32
        },
{
}

proof fn lemma_trim_start_skips(text: Seq<char>, from: int)
    requires
        0 <= from <= text.len(),
        forall|i: int| 0 <= i < from ==> is_white_space(#[trigger] text[i]),
        from < text.len() ==> !is_white_space(text[from]),
    ensures
        trim_start(text) == text.skip(from),
    decreases from,
{
    if from > 0 {
        assert(is_white_space(text[0]));
        lemma_trim_start_skips(text.skip(1), from - 1);
        assert(text.skip(1).skip(from - 1) =~= text.skip(from));
    } else {
        assert(text.skip(0) =~= text);
    }
}

proof fn lemma_trim_end_takes(text: Seq<char>, to: int)
    requires
        0 <= to <= text.len(),
        forall|i: int| to <= i < text.len() ==> is_white_space(#[trigger] text[i]),
        to > 0 ==> !is_white_space(text[to - 1]),
    ensures
        trim_end(text) == text.take(to),
    decreases text.len() - to,
{
    if to < text.len() {
        assert(is_white_space(text[text.len() - 1]));
        lemma_trim_end_takes(text.drop_last(), to);
        assert(text.drop_last().take(to) =~= text.take(to));
    } else {
        assert(text.take(to) =~= text);
    }
}

/// Given where a text begins and ends between the white space around it, it is marked exactly if
/// both markers have characters, one stands at the beginning and the other at the end, character by
/// character, up to the case of ASCII letters.
pub proof fn law_marked_at_both_ends(
    text: Seq<char>,
    start: Seq<char>,
    end: Seq<char>,
    from: int,
    to: int,
)
    requires
        0 <= from <= to <= text.len(),
        forall|i: int| 0 <= i < from ==> is_white_space(#[trigger] text[i]),
        forall|i: int| to <= i < text.len() ==> is_white_space(#[trigger] text[i]),
        from < to ==> !is_white_space(text[from]) && !is_white_space(text[to - 1]),
    ensures
        is_marked(text, start, end) <==> {
            &&& 0 < start.len() <= to - from
            &&& 0 < end.len() <= to - from
            &&& forall|i: int|
                0 <= i < start.len() ==> {
                    ||| text[from + i] == #[trigger] start[i]
                    ||| 'A' <= start[i] <= 'Z' && text[from + i] as int == start[i] as int + 32
                    ||| 'A' <= text[from + i] <= 'Z' && start[i] as int == text[from + i] as int
                        + 32
                }
            &&& forall|i: int|
                0 <= i < end.len() ==> {
                    ||| text[to - end.len() + i] == #[trigger] end[i]
                    ||| 'A' <= end[i] <= 'Z' && text[to - end.len() + i] as int == end[i] as int
                        + 32
                    ||| 'A' <= text[to - end.len() + i] <= 'Z' && end[i] as int == text[to
                        - end.len() + i] as int + 32
                }
        },
{
    let trimmed = trim(text);
    if from < to {
        lemma_trim_start_skips(text, from);
        lemma_trim_end_takes(text.skip(from), to - from);
    } else {
        assert forall|i: int| 0 <= i < text.len() implies is_white_space(#[trigger] text[i]) by {}
        lemma_trim_start_skips(text, text.len() as int);
    }
    assert(trimmed =~= text.subrange(from, to));
    if start.len() <= to - from {
        let part = trimmed.take(start.len() as int);
        assert forall|i: int| 0 <= i < start.len() implies part[i] == text[from + i]
            && #[trigger] start[i] == start[i] by {}
        if same_ignoring_case(part, start) {
            assert forall|i: int| 0 <= i < start.len() implies fold_case(text[from + i])
                == fold_case(#[trigger] start[i]) by {
                assert(fold_case(part[i]) == fold_case(start[i]));
            }
        }
    }
    if end.len() <= to - from {
        let part = trimmed.skip(trimmed.len() - end.len());
        assert forall|i: int| 0 <= i < end.len() implies part[i] == text[to - end.len() + i]
            && #[trigger] end[i] == end[i] by {}
        if same_ignoring_case(part, end) {
            assert forall|i: int| 0 <= i < end.len() implies fold_case(text[to - end.len() + i])
                == fold_case(#[trigger] end[i]) by {
                assert(fold_case(part[i]) == fold_case(end[i]));
            }
        }
    }
}

} // verus!
