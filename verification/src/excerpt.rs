//! Lines of a document, and the section of the master document that every
//! new project's README repeats.

use vstd::prelude::*;
use crate::text::{chars_of, copy_range, same_chars, text_of};

verus! {

/// Number of characters before the first line feed of `s`.
pub open spec fn line_len(s: Seq<char>) -> nat
    decreases s.len(),
{
    if s.len() == 0 || s[0] == '\n' {
        0
    } else {
        1 + line_len(s.skip(1))
    }
}

/// A line without the carriage return that may stand before its line feed.
pub open spec fn strip_cr(line: Seq<char>) -> Seq<char> {
    if line.len() > 0 && line.last() == '\r' {
        line.drop_last()
    } else {
        line
    }
}

/// The lines of a document. A line ends with a line feed, or with a carriage
/// return and a line feed; neither belongs to the line. What follows the last
/// line feed is a line too unless it is empty, and keeps a carriage return at
/// its end.
pub open spec fn lines(s: Seq<char>) -> Seq<Seq<char>>
    decreases s.len(),
{
    let k = line_len(s) as int;
    if s.len() == 0 {
        Seq::<Seq<char>>::empty()
    } else if 0 <= k < s.len() {
        seq![strip_cr(s.take(k))] + lines(s.skip(k + 1))
    } else {
        seq![s]
    }
}

/// Each line followed by a line feed.
pub open spec fn unlines(ls: Seq<Seq<char>>) -> Seq<char>
    decreases ls.len(),
{
    if ls.len() == 0 {
        Seq::<char>::empty()
    } else {
        unlines(ls.drop_last()) + ls.last().push('\n')
    }
}

/// The heading that opens the section on the directory structure.
pub open spec fn heading() -> Seq<char> {
    "## Directory structure"@
}

/// Whether a line opens a section: it starts with `## `.
pub open spec fn opens_section(line: Seq<char>) -> bool {
    line.len() >= 3 && line[0] == '#' && line[1] == '#' && line[2] == ' '
}

/// Number of lines before the first that equals the heading.
pub open spec fn heading_index(ls: Seq<Seq<char>>) -> nat
    decreases ls.len(),
{
    if ls.len() == 0 || ls[0] == heading() {
        0
    } else {
        1 + heading_index(ls.skip(1))
    }
}

/// Number of lines before the first that opens a section.
pub open spec fn body_len(ls: Seq<Seq<char>>) -> nat
    decreases ls.len(),
{
    if ls.len() == 0 || opens_section(ls[0]) {
        0
    } else {
        1 + body_len(ls.skip(1))
    }
}

/// The lines of the section on the directory structure: from the first line
/// that equals the heading up to, and without, the next line that opens a
/// section, or up to the end. No line without the heading.
pub open spec fn section_lines(ls: Seq<Seq<char>>) -> Seq<Seq<char>> {
    let i = heading_index(ls) as int;
    if 0 <= i < ls.len() {
        let body = ls.skip(i + 1);
        seq![ls[i]] + body.take(body_len(body) as int)
    } else {
        Seq::<Seq<char>>::empty()
    }
}

/// The section on the directory structure of a master document, as text.
pub open spec fn directory_section(master: Seq<char>) -> Seq<char> {
    unlines(section_lines(lines(master)))
}

/// The views of the lines held in `v`.
pub open spec fn line_views(v: Seq<Vec<char>>) -> Seq<Seq<char>> {
    Seq::new(v.len(), |i: int| v[i]@)
}

/// `line_len` is the place of the first line feed, or the length.
pub proof fn lemma_line_len(s: Seq<char>, k: int)
    requires
        0 <= k <= s.len(),
        forall|i: int| 0 <= i < k ==> #[trigger] s[i] != '\n',
        k < s.len() ==> s[k] == '\n',
    ensures
        line_len(s) == k,
    decreases s.len(),
{
    if k > 0 {
        let t = s.skip(1);
        assert forall|i: int| 0 <= i < k - 1 implies #[trigger] t[i] != '\n' by {
            assert(t[i] == s[i + 1]);
        }
        lemma_line_len(t, k - 1);
    }
}

/// `heading_index` is the place of the first line that equals the heading, or
/// the number of lines.
pub proof fn lemma_heading_index(ls: Seq<Seq<char>>, k: int)
    requires
        0 <= k <= ls.len(),
        forall|i: int| 0 <= i < k ==> #[trigger] ls[i] != heading(),
        k < ls.len() ==> ls[k] == heading(),
    ensures
        heading_index(ls) == k,
    decreases ls.len(),
{
    if k > 0 {
        let t = ls.skip(1);
        assert forall|i: int| 0 <= i < k - 1 implies #[trigger] t[i] != heading() by {
            assert(t[i] == ls[i + 1]);
        }
        lemma_heading_index(t, k - 1);
    }
}

/// `body_len` is the place of the first line that opens a section, or the
/// number of lines.
pub proof fn lemma_body_len(ls: Seq<Seq<char>>, k: int)
    requires
        0 <= k <= ls.len(),
        forall|i: int| 0 <= i < k ==> !opens_section(#[trigger] ls[i]),
        k < ls.len() ==> opens_section(ls[k]),
    ensures
        body_len(ls) == k,
    decreases ls.len(),
{
    if k > 0 {
        let t = ls.skip(1);
        assert forall|i: int| 0 <= i < k - 1 implies !opens_section(#[trigger] t[i]) by {
            assert(t[i] == ls[i + 1]);
        }
        lemma_body_len(t, k - 1);
    }
}

/// Where the heading stands on line `i`, no earlier line equals it, and `j` is
/// the first later line that opens a section (or the number of lines, where
/// none does), the section is made of the lines from `i` up to, and without,
/// `j`.
pub proof fn lemma_section_between(ls: Seq<Seq<char>>, i: int, j: int)
    requires
        0 <= i < j <= ls.len(),
        ls[i] == heading(),
        forall|k: int| 0 <= k < i ==> #[trigger] ls[k] != heading(),
        forall|k: int| i < k < j ==> !opens_section(#[trigger] ls[k]),
        j < ls.len() ==> opens_section(ls[j]),
    ensures
        section_lines(ls) == ls.subrange(i, j),
{
    lemma_heading_index(ls, i);
    let body = ls.skip(i + 1);
    assert forall|k: int| 0 <= k < j - i - 1 implies !opens_section(#[trigger] body[k]) by {
        assert(body[k] == ls[i + 1 + k]);
    }
    lemma_body_len(body, j - i - 1);
    assert(seq![ls[i]] + body.take(j - i - 1) =~= ls.subrange(i, j));
}

/// A document in which no line equals the heading has no such section.
pub proof fn lemma_section_absent(ls: Seq<Seq<char>>)
    requires
        forall|k: int| 0 <= k < ls.len() ==> #[trigger] ls[k] != heading(),
    ensures
        section_lines(ls) == Seq::<Seq<char>>::empty(),
{
    lemma_heading_index(ls, ls.len() as int);
}

/// Whether a line can stand in a document as it is: it holds no line feed and
/// does not end in a carriage return.
pub open spec fn is_plain_line(line: Seq<char>) -> bool {
    &&& forall|i: int| 0 <= i < line.len() ==> #[trigger] line[i] != '\n'
    &&& strip_cr(line) == line
}

/// `unlines` taken from the front.
pub proof fn lemma_unlines_front(ls: Seq<Seq<char>>)
    requires
        ls.len() > 0,
    ensures
        unlines(ls) == ls[0].push('\n') + unlines(ls.skip(1)),
    decreases ls.len(),
{
    if ls.len() == 1 {
        assert(ls.drop_last() =~= Seq::<Seq<char>>::empty());
        assert(ls.skip(1) =~= Seq::<Seq<char>>::empty());
        assert(unlines(Seq::<Seq<char>>::empty()) =~= Seq::<char>::empty());
        assert(unlines(ls) =~= ls[0].push('\n') + unlines(ls.skip(1)));
    } else {
        let init = ls.drop_last();
        lemma_unlines_front(init);
        assert(init.skip(1) =~= ls.skip(1).drop_last());
        assert(ls.skip(1).last() == ls.last());
        assert(init[0] == ls[0]);
        assert(unlines(ls) =~= ls[0].push('\n') + unlines(ls.skip(1)));
    }
}

/// `unlines` of two runs of lines, one after the other.
pub proof fn lemma_unlines_concat(a: Seq<Seq<char>>, b: Seq<Seq<char>>)
    ensures
        unlines(a + b) == unlines(a) + unlines(b),
    decreases b.len(),
{
    if b.len() == 0 {
        assert(a + b =~= a);
        assert(unlines(a) + unlines(b) =~= unlines(a));
    } else {
        lemma_unlines_concat(a, b.drop_last());
        assert((a + b).drop_last() =~= a + b.drop_last());
        assert((a + b).last() == b.last());
        assert(unlines(a + b) =~= unlines(a) + unlines(b));
    }
}

/// Plain lines written out one after the other are read back as they were.
pub proof fn lemma_lines_of_unlines(ls: Seq<Seq<char>>)
    requires
        forall|i: int| 0 <= i < ls.len() ==> is_plain_line(#[trigger] ls[i]),
    ensures
        lines(unlines(ls)) == ls,
    decreases ls.len(),
{
    if ls.len() == 0 {
    } else {
        let first = ls[0];
        let rest = ls.skip(1);
        lemma_unlines_front(ls);
        let s = unlines(ls);
        let k = first.len() as int;
        assert(is_plain_line(first));
        assert forall|i: int| 0 <= i < k implies #[trigger] s[i] != '\n' by {
            assert(s[i] == first[i]);
        }
        assert(s[k] == '\n');
        lemma_line_len(s, k);
        assert(s.take(k) =~= first);
        assert(s.skip(k + 1) =~= unlines(rest));
        assert forall|i: int| 0 <= i < rest.len() implies is_plain_line(#[trigger] rest[i]) by {
            assert(rest[i] == ls[i + 1]);
        }
        lemma_lines_of_unlines(rest);
        assert(seq![first] + rest =~= ls);
    }
}

/// Whether a line opens a section.
fn starts_section(line: &Vec<char>) -> (out: bool)
    ensures
        out == opens_section(line@),
{
    line.len() >= 3 && line[0] == '#' && line[1] == '#' && line[2] == ' '
}

/// Appends a line and its line feed.
fn append_line(out: &mut Vec<char>, line: &Vec<char>)
    ensures
        final(out)@ == old(out)@ + line@.push('\n'),
{
    let ghost before = out@;
    let mut i: usize = 0;
    while i < line.len()
        invariant
            i <= line.len(),
            out@ == before + line@.take(i as int),
        decreases line.len() - i,
    {
        out.push(line[i]);
        i += 1;
        assert(before + line@.take(i as int) =~= (before + line@.take(i - 1)).push(line@[i - 1]));
    }
    out.push('\n');
    assert(line@.take(line.len() as int) =~= line@);
    assert((before + line@).push('\n') =~= before + line@.push('\n'));
}

/// The lines of a document.
pub fn split_lines(text: &str) -> (out: Vec<Vec<char>>)
    ensures
        line_views(out@) == lines(text@),
{
    let chars = chars_of(text);
    let ghost s = chars@;
    let mut out: Vec<Vec<char>> = Vec::new();
    let mut start: usize = 0;
    let mut i: usize = 0;
    assert(s.skip(0) =~= s);
    assert(line_views(out@) + lines(s) =~= lines(s));
    while i < chars.len()
        invariant
            start <= i <= chars.len(),
            s == chars@,
            s == text@,
            forall|j: int| start <= j < i ==> #[trigger] s[j] != '\n',
            line_views(out@) + lines(s.skip(start as int)) == lines(s),
        decreases chars.len() - i,
    {
        if chars[i] == '\n' {
            let ghost t = s.skip(start as int);
            let ghost k = i - start;
            proof {
                assert forall|j: int| 0 <= j < k implies #[trigger] t[j] != '\n' by {
                    assert(t[j] == s[start + j]);
                }
                lemma_line_len(t, k);
                assert(t.skip(k + 1) =~= s.skip(i + 1));
                assert(t.take(k) =~= s.subrange(start as int, i as int));
            }
            let mut end: usize = i;
            if end > start && chars[end - 1] == '\r' {
                end = end - 1;
            }
            let line = copy_range(&chars, start, end);
            assert(line@ =~= strip_cr(t.take(k)));
            let ghost before = out@;
            out.push(line);
            assert(line_views(out@) =~= line_views(before) + seq![line@]);
            assert(line_views(out@) + lines(s.skip(i + 1)) =~= line_views(before) + (seq![
                strip_cr(t.take(k)),
            ] + lines(t.skip(k + 1))));
            start = i + 1;
        }
        i += 1;
    }
    let ghost t = s.skip(start as int);
    if start < chars.len() {
        proof {
            assert forall|j: int| 0 <= j < t.len() implies #[trigger] t[j] != '\n' by {
                assert(t[j] == s[start + j]);
            }
            lemma_line_len(t, t.len() as int);
        }
        let line = copy_range(&chars, start, chars.len());
        assert(line@ =~= t);
        let ghost before = out@;
        out.push(line);
        assert(line_views(out@) =~= line_views(before) + seq![t]);
    } else {
        assert(line_views(out@) + Seq::<Seq<char>>::empty() =~= line_views(out@));
    }
    out
}

/// The section on the directory structure of a master document: the first
/// line that equals `## Directory structure` and the lines after it, up to
/// the next line that starts with `## ` or to the end of the document, each
/// followed by a line feed. Empty where no line equals the heading.
pub fn excerpt_directory_section(master: &str) -> (out: String)
    ensures
        out@ == directory_section(master@),
{
    let ls = split_lines(master);
    let ghost views = line_views(ls@);
    let wanted = chars_of("## Directory structure");
    let mut i: usize = 0;
    while i < ls.len() && !same_chars(&ls[i], &wanted)
        invariant
            i <= ls.len(),
            views == line_views(ls@),
            wanted@ == heading(),
            forall|k: int| 0 <= k < i ==> #[trigger] views[k] != heading(),
        decreases ls.len() - i,
    {
        i += 1;
    }
    let mut out: Vec<char> = Vec::new();
    if i == ls.len() {
        proof {
            lemma_section_absent(views);
        }
        return text_of(&out);
    }
    assert(views[i as int] == heading());
    append_line(&mut out, &ls[i]);
    let mut j: usize = i + 1;
    assert(views.subrange(i as int, j as int).drop_last() =~= Seq::<Seq<char>>::empty());
    assert(unlines(Seq::<Seq<char>>::empty()) =~= Seq::<char>::empty());
    assert(views.subrange(i as int, j as int).last() == views[i as int]);
    assert(unlines(views.subrange(i as int, j as int)) =~= views[i as int].push('\n'));
    while j < ls.len() && !starts_section(&ls[j])
        invariant
            i < j <= ls.len(),
            views == line_views(ls@),
            forall|k: int| i < k < j ==> !opens_section(#[trigger] views[k]),
            out@ == unlines(views.subrange(i as int, j as int)),
        decreases ls.len() - j,
    {
        append_line(&mut out, &ls[j]);
        j += 1;
        assert(views.subrange(i as int, j as int).drop_last() =~= views.subrange(
            i as int,
            j - 1,
        ));
    }
    proof {
        lemma_section_between(views, i as int, j as int);
    }
    text_of(&out)
}

} // verus!
