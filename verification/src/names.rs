//! Names derived from a project name: the capitalised display form and the
//! module identifier.

use vstd::prelude::*;
use crate::text::{chars_of, text_of};

verus! {

/// The uppercase mapping of a character, as the Unicode character database
/// gives it: one character for most, two or three for a few (the German
/// sharp s becomes `SS`).
pub uninterp spec fn uppercase_of(c: char) -> Seq<char>;

/// `char::to_uppercase`, collected. The standard library documents that the
/// mapping yields one or more characters and depends on the character alone;
/// nothing else is claimed of it here.
#[verifier::external_body]
fn uppercase(c: char) -> (out: Vec<char>)
    ensures
        out@ == uppercase_of(c),
        out@.len() >= 1,
{
    c.to_uppercase().collect()
}

/// `s` with its first character replaced by `initial`; the empty sequence
/// stays empty.
pub open spec fn with_initial(initial: Seq<char>, s: Seq<char>) -> Seq<char> {
    if s.len() == 0 {
        Seq::<char>::empty()
    } else {
        initial + s.skip(1)
    }
}

/// `s` with its first character in upper case and the rest unchanged.
pub open spec fn capitalized(s: Seq<char>) -> Seq<char> {
    if s.len() == 0 {
        Seq::<char>::empty()
    } else {
        with_initial(uppercase_of(s[0]), s)
    }
}

/// `-` and `_` separate the segments of a project name.
pub open spec fn is_separator(c: char) -> bool {
    c == '-' || c == '_'
}

/// Number of characters before the first separator of `s`.
pub open spec fn segment_len(s: Seq<char>) -> nat
    decreases s.len(),
{
    if s.len() == 0 || is_separator(s[0]) {
        0
    } else {
        1 + segment_len(s.skip(1))
    }
}

/// The segments of `s` between separators. A separator at either end, or two
/// in a row, give an empty segment; a name without separators is its own
/// single segment.
pub open spec fn split_segments(s: Seq<char>) -> Seq<Seq<char>>
    decreases s.len(),
{
    let k = segment_len(s) as int;
    if 0 <= k < s.len() {
        seq![s.take(k)] + split_segments(s.skip(k + 1))
    } else {
        seq![s]
    }
}

/// Number of characters in all the parts together.
pub open spec fn total_len(parts: Seq<Seq<char>>) -> nat
    decreases parts.len(),
{
    if parts.len() == 0 {
        0
    } else {
        parts[0].len() + total_len(parts.skip(1))
    }
}

/// Each part capitalised, all of them concatenated without a separator.
pub open spec fn join_capitalized(parts: Seq<Seq<char>>) -> Seq<char>
    decreases parts.len(),
{
    if parts.len() == 0 {
        Seq::<char>::empty()
    } else {
        capitalized(parts[0]) + join_capitalized(parts.skip(1))
    }
}

/// The module identifier of a project name: split on separators, capitalise
/// each segment, concatenate.
pub open spec fn module_name(s: Seq<char>) -> Seq<char> {
    join_capitalized(split_segments(s))
}

/// The module identifier read off character by character: a separator is
/// dropped, a character that opens a segment (`fresh`) is replaced by its
/// uppercase mapping, any other is kept.
pub open spec fn scan(s: Seq<char>, fresh: bool) -> Seq<char>
    decreases s.len(),
{
    if s.len() == 0 {
        Seq::<char>::empty()
    } else if is_separator(s[0]) {
        scan(s.skip(1), true)
    } else if fresh {
        uppercase_of(s[0]) + scan(s.skip(1), false)
    } else {
        seq![s[0]] + scan(s.skip(1), false)
    }
}

/// `segment_len` never runs past the end, and stops on a separator.
pub proof fn lemma_segment_len(s: Seq<char>)
    ensures
        segment_len(s) <= s.len(),
        segment_len(s) < s.len() ==> is_separator(s[segment_len(s) as int]),
        forall|i: int| 0 <= i < segment_len(s) ==> !is_separator(#[trigger] s[i]),
    decreases s.len(),
{
    if s.len() == 0 || is_separator(s[0]) {
    } else {
        let t = s.skip(1);
        lemma_segment_len(t);
        assert forall|i: int| 0 <= i < segment_len(s) implies !is_separator(#[trigger] s[i]) by {
            if i > 0 {
                assert(s[i] == t[i - 1]);
            }
        }
    }
}

/// Inside a segment the scan copies up to the next separator and starts
/// afresh behind it.
proof fn lemma_scan_inside(s: Seq<char>)
    ensures
        scan(s, false) == s.take(segment_len(s) as int) + (if segment_len(s) < s.len() {
            scan(s.skip(segment_len(s) as int + 1), true)
        } else {
            Seq::<char>::empty()
        }),
    decreases s.len(),
{
    lemma_segment_len(s);
    let k = segment_len(s) as int;
    if s.len() == 0 {
        assert(s.take(0) + Seq::<char>::empty() =~= Seq::<char>::empty());
    } else if is_separator(s[0]) {
        assert(s.take(0) + scan(s.skip(1), true) =~= scan(s.skip(1), true));
    } else {
        let t = s.skip(1);
        lemma_scan_inside(t);
        lemma_segment_len(t);
        let tail = if k < s.len() {
            scan(s.skip(k + 1), true)
        } else {
            Seq::<char>::empty()
        };
        assert(s.take(k) =~= seq![s[0]] + t.take(k - 1));
        if k < s.len() {
            assert(t.skip(k - 1 + 1) =~= s.skip(k + 1));
        }
        assert(seq![s[0]] + (t.take(k - 1) + tail) =~= s.take(k) + tail);
    }
}

/// Splitting, capitalising and joining gives what the scan reads off.
pub proof fn lemma_module_name_is_scan(s: Seq<char>)
    ensures
        module_name(s) == scan(s, true),
    decreases s.len(),
{
    lemma_segment_len(s);
    let k = segment_len(s) as int;
    let part = s.take(k);
    let tail = if k < s.len() {
        scan(s.skip(k + 1), true)
    } else {
        Seq::<char>::empty()
    };
    // what the scan yields on the first segment and what follows it
    assert(scan(s, true) == capitalized(part) + tail) by {
        if s.len() == 0 {
            assert(capitalized(part) + tail =~= Seq::<char>::empty());
        } else if is_separator(s[0]) {
            assert(capitalized(part) + tail =~= tail);
        } else {
            let t = s.skip(1);
            lemma_scan_inside(t);
            lemma_segment_len(t);
            assert(part.skip(1) =~= t.take(k - 1));
            if k < s.len() {
                assert(t.skip(k - 1 + 1) =~= s.skip(k + 1));
            }
            assert(uppercase_of(s[0]) + (t.take(k - 1) + tail) =~= (uppercase_of(s[0])
                + part.skip(1)) + tail);
        }
    }
    if k < s.len() {
        let rest = s.skip(k + 1);
        lemma_module_name_is_scan(rest);
        let parts = split_segments(s);
        assert(parts == seq![part] + split_segments(rest));
        assert(parts[0] == part);
        assert(parts.skip(1) =~= split_segments(rest));
    } else {
        let parts = split_segments(s);
        assert(parts == seq![s]);
        assert(part =~= s);
        assert(parts.skip(1) =~= Seq::<Seq<char>>::empty());
        assert(join_capitalized(parts.skip(1)) == Seq::<char>::empty());
        assert(capitalized(s) + Seq::<char>::empty() =~= capitalized(s));
    }
}

/// A name without a separator is one segment, and its module identifier is
/// the name capitalised.
pub proof fn lemma_module_name_plain(s: Seq<char>)
    requires
        forall|i: int| 0 <= i < s.len() ==> !is_separator(#[trigger] s[i]),
    ensures
        split_segments(s) == seq![s],
        module_name(s) == capitalized(s),
{
    lemma_segment_len(s);
    let parts = split_segments(s);
    assert(parts == seq![s]);
    assert(parts.skip(1) =~= Seq::<Seq<char>>::empty());
    assert(join_capitalized(parts.skip(1)) == Seq::<char>::empty());
    assert(capitalized(s) + Seq::<char>::empty() =~= capitalized(s));
}

/// No segment holds a separator, and a name with `n` separators has `n + 1`
/// segments, which together hold every other character of the name.
pub proof fn lemma_split_segments(s: Seq<char>)
    ensures
        split_segments(s).len() >= 1,
        forall|k: int, i: int|
            0 <= k < split_segments(s).len() && 0 <= i < split_segments(s)[k].len()
                ==> !is_separator(#[trigger] split_segments(s)[k][i]),
        total_len(split_segments(s)) + split_segments(s).len() == s.len() + 1,
    decreases s.len(),
{
    lemma_segment_len(s);
    let k = segment_len(s) as int;
    let parts = split_segments(s);
    if k < s.len() {
        let rest = s.skip(k + 1);
        lemma_split_segments(rest);
        let tail = split_segments(rest);
        assert(parts == seq![s.take(k)] + tail);
        assert(parts.skip(1) =~= tail);
        assert forall|j: int, i: int|
            0 <= j < parts.len() && 0 <= i < parts[j].len() implies !is_separator(
            #[trigger] parts[j][i],
        ) by {
            if j == 0 {
                assert(parts[0][i] == s[i]);
            } else {
                assert(parts[j] == tail[j - 1]);
            }
        }
    } else {
        assert(parts == seq![s]);
        assert(parts.skip(1) =~= Seq::<Seq<char>>::empty());
        assert(total_len(parts.skip(1)) == 0);
    }
}

/// Replaces the first character of `s` by `initial`; the empty string stays
/// empty.
pub fn replace_initial(initial: &Vec<char>, s: &str) -> (out: String)
    ensures
        out@ == with_initial(initial@, s@),
{
    let chars = chars_of(s);
    let mut out: Vec<char> = Vec::new();
    if chars.len() == 0 {
        return text_of(&out);
    }
    let mut j: usize = 0;
    while j < initial.len()
        invariant
            j <= initial.len(),
            out@ == initial@.take(j as int),
        decreases initial.len() - j,
    {
        out.push(initial[j]);
        j += 1;
        assert(initial@.take(j as int) =~= initial@.take(j - 1).push(initial@[j - 1]));
    }
    assert(initial@.take(initial.len() as int) =~= initial@);
    let mut i: usize = 1;
    while i < chars.len()
        invariant
            1 <= i <= chars.len(),
            chars@ == s@,
            out@ == initial@ + s@.subrange(1, i as int),
        decreases chars.len() - i,
    {
        out.push(chars[i]);
        i += 1;
        assert(initial@ + s@.subrange(1, i as int) =~= (initial@ + s@.subrange(1, i - 1)).push(
            s@[i - 1],
        ));
    }
    assert(s@.subrange(1, chars.len() as int) =~= s@.skip(1));
    text_of(&out)
}

/// Upper-cases the first character of `s` by its Unicode case mapping and
/// leaves the rest as it is.
pub fn capitalize(s: &str) -> (out: String)
    ensures
        out@ == capitalized(s@),
        out@.len() >= s@.len(),
        out@.len() == 0 <==> s@.len() == 0,
{
    let n = s.unicode_len();
    if n == 0 {
        return String::new();
    }
    let initial = uppercase(s.get_char(0));
    replace_initial(&initial, s)
}

/// The module identifier of a project name: the name is split on every `-`
/// and `_`, each segment is capitalised, and the segments are concatenated
/// without a separator. Nothing checks that the outcome is a valid
/// identifier.
pub fn convert_name_to_module(project_name: &str) -> (out: String)
    ensures
        out@ == module_name(project_name@),
{
    let chars = chars_of(project_name);
    let mut out: Vec<char> = Vec::new();
    let mut fresh = true;
    let mut i: usize = 0;
    assert(chars@.skip(0) =~= chars@);
    assert(out@ + scan(chars@, true) =~= scan(chars@, true));
    while i < chars.len()
        invariant
            i <= chars.len(),
            chars@ == project_name@,
            out@ + scan(chars@.skip(i as int), fresh) == scan(chars@, true),
        decreases chars.len() - i,
    {
        let c = chars[i];
        let ghost rest = chars@.skip(i as int);
        let ghost before = out@;
        assert(rest[0] == c);
        assert(rest.skip(1) =~= chars@.skip(i + 1));
        if c == '-' || c == '_' {
            fresh = true;
        } else if fresh {
            let upper = uppercase(c);
            let mut j: usize = 0;
            while j < upper.len()
                invariant
                    j <= upper.len(),
                    out@ == before + upper@.take(j as int),
                decreases upper.len() - j,
            {
                out.push(upper[j]);
                j += 1;
                assert(before + upper@.take(j as int) =~= (before + upper@.take(j - 1)).push(
                    upper@[j - 1],
                ));
            }
            assert(upper@.take(upper.len() as int) =~= upper@);
            fresh = false;
            assert((before + upper@) + scan(rest.skip(1), false) =~= before + (upper@ + scan(
                rest.skip(1),
                false,
            )));
        } else {
            out.push(c);
            assert(before.push(c) + scan(rest.skip(1), false) =~= before + (seq![c] + scan(
                rest.skip(1),
                false,
            )));
        }
        i += 1;
    }
    assert(chars@.skip(chars.len() as int) =~= Seq::<char>::empty());
    assert(out@ + Seq::<char>::empty() =~= out@);
    proof {
        lemma_module_name_is_scan(project_name@);
    }
    text_of(&out)
}

} // verus!
