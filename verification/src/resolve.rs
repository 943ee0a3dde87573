//! The project name: given outright, or read off the target path.

use vstd::prelude::*;
use crate::project::{Language, ProjectSpec};
use crate::text::{chars_of, str_view, text_of};

verus! {

/// Why no project name could be settled.
#[derive(Clone, Copy, Debug, PartialEq, Eq, Structural)]
pub enum NameError {
    /// No name was given and the target path is not Unicode text.
    NotUnicode,
    /// The name that was given, or the one read off the path, is empty.
    Empty,
}

/// Length of `s` without the `/` characters at its end.
pub open spec fn trimmed_len(s: Seq<char>) -> nat
    decreases s.len(),
{
    if s.len() > 0 && s.last() == '/' {
        trimmed_len(s.drop_last())
    } else {
        s.len()
    }
}

/// Where the last run of characters other than `/` begins, for an `s` that is
/// cut off behind that run.
pub open spec fn segment_start(s: Seq<char>) -> nat
    decreases s.len(),
{
    if s.len() > 0 && s.last() != '/' {
        segment_start(s.drop_last())
    } else {
        s.len()
    }
}

/// The final segment of a path: what stands between the last `/` that has
/// something other than `/` behind it and the `/` characters at the end, if
/// any. The path is read as text; `.` and `..` are segments like any other.
pub open spec fn final_segment(path: Seq<char>) -> Seq<char> {
    let body = path.take(trimmed_len(path) as int);
    body.skip(segment_start(body) as int)
}

/// The name a project gets: the override where one is given, else the final
/// segment of the target path. An empty name is refused either way, and so is
/// a path that is not Unicode text (`dirname` is `None`) when nothing
/// overrides it.
pub open spec fn resolved_name(dirname: Option<Seq<char>>, name: Option<Seq<char>>) -> Result<
    Seq<char>,
    NameError,
> {
    match name {
        Some(n) => if n.len() == 0 {
            Err(NameError::Empty)
        } else {
            Ok(n)
        },
        None => match dirname {
            None => Err(NameError::NotUnicode),
            Some(d) => if final_segment(d).len() == 0 {
                Err(NameError::Empty)
            } else {
                Ok(final_segment(d))
            },
        },
    }
}

/// `trimmed_len` cuts exactly the run of `/` at the end.
pub proof fn lemma_trimmed_len(s: Seq<char>)
    ensures
        trimmed_len(s) <= s.len(),
        trimmed_len(s) > 0 ==> s[trimmed_len(s) - 1] != '/',
        forall|i: int| trimmed_len(s) <= i < s.len() ==> #[trigger] s[i] == '/',
    decreases s.len(),
{
    if s.len() > 0 && s.last() == '/' {
        let t = s.drop_last();
        lemma_trimmed_len(t);
        assert forall|i: int| trimmed_len(s) <= i < s.len() implies #[trigger] s[i] == '/' by {
            if i < t.len() {
                assert(s[i] == t[i]);
            }
        }
        if trimmed_len(s) > 0 {
            assert(s[trimmed_len(s) - 1] == t[trimmed_len(t) - 1]);
        }
    }
}

/// `segment_start` is preceded by a `/` or by nothing, and no `/` follows it.
pub proof fn lemma_segment_start(s: Seq<char>)
    ensures
        segment_start(s) <= s.len(),
        segment_start(s) > 0 ==> s[segment_start(s) - 1] == '/',
        forall|i: int| segment_start(s) <= i < s.len() ==> #[trigger] s[i] != '/',
    decreases s.len(),
{
    if s.len() > 0 && s.last() != '/' {
        let t = s.drop_last();
        lemma_segment_start(t);
        assert forall|i: int| segment_start(s) <= i < s.len() implies #[trigger] s[i] != '/' by {
            if i < t.len() {
                assert(s[i] == t[i]);
            }
        }
        if segment_start(s) > 0 {
            assert(s[segment_start(s) - 1] == t[segment_start(t) - 1]);
        }
    }
}

/// The final segment holds no `/`, and the path is made of what leads to it
/// (nothing, or text that ends in `/`), the segment, and a run of `/`. A
/// segment that is empty means that the path holds nothing but `/`.
pub proof fn lemma_final_segment(path: Seq<char>)
    ensures
        forall|i: int| 0 <= i < final_segment(path).len() ==> #[trigger] final_segment(path)[i] != '/',
        ({
            let end = trimmed_len(path) as int;
            let start = segment_start(path.take(end)) as int;
            &&& 0 <= start <= end <= path.len()
            &&& final_segment(path) == path.subrange(start, end)
            &&& start > 0 ==> path[start - 1] == '/'
            &&& forall|i: int| end <= i < path.len() ==> #[trigger] path[i] == '/'
            &&& start == end ==> start == 0
        }),
{
    lemma_trimmed_len(path);
    let end = trimmed_len(path) as int;
    let body = path.take(end);
    lemma_segment_start(body);
    let start = segment_start(body) as int;
    assert(body.skip(start) =~= path.subrange(start, end));
    if start > 0 {
        assert(body[start - 1] == path[start - 1]);
    }
    if start == end && end > 0 {
        assert(body[end - 1] == path[end - 1]);
    }
    assert forall|i: int| 0 <= i < final_segment(path).len() implies #[trigger] final_segment(
        path,
    )[i] != '/' by {
        assert(final_segment(path)[i] == body[start + i]);
    }
}

/// The final segment of a path given as text.
pub fn path_final_segment(path: &str) -> (out: String)
    ensures
        out@ == final_segment(path@),
{
    let chars = chars_of(path);
    let mut end: usize = chars.len();
    assert(chars@.take(end as int) =~= chars@);
    while end > 0 && chars[end - 1] == '/'
        invariant
            end <= chars.len(),
            trimmed_len(chars@.take(end as int)) == trimmed_len(chars@),
        decreases end,
    {
        assert(chars@.take(end as int).drop_last() =~= chars@.take(end - 1));
        end -= 1;
    }
    let ghost body = chars@.take(end as int);
    assert(trimmed_len(body) == end);
    let mut start: usize = end;
    assert(body.take(start as int) =~= body);
    while start > 0 && chars[start - 1] != '/'
        invariant
            start <= end <= chars.len(),
            body == chars@.take(end as int),
            segment_start(body.take(start as int)) == segment_start(body),
        decreases start,
    {
        assert(body.take(start as int).drop_last() =~= body.take(start - 1));
        start -= 1;
    }
    assert(segment_start(body) == start);
    let mut out: Vec<char> = Vec::new();
    let mut i: usize = start;
    while i < end
        invariant
            start <= i <= end <= chars.len(),
            out@ == chars@.subrange(start as int, i as int),
        decreases end - i,
    {
        out.push(chars[i]);
        i += 1;
        assert(chars@.subrange(start as int, i as int) =~= chars@.subrange(start as int, i - 1).push(
            chars@[i - 1],
        ));
    }
    assert(chars@.subrange(start as int, end as int) =~= body.skip(start as int));
    text_of(&out)
}

/// Settles the project name from the target path, as text where it is
/// Unicode, and the name given in its place, if any.
pub fn resolve_project_name(dirname: Option<&str>, name: Option<&str>) -> (out: Result<
    String,
    NameError,
>)
    ensures
        match resolved_name(str_view(dirname), str_view(name)) {
            Ok(text) => out is Ok && out->Ok_0@ == text,
            Err(e) => out is Err && out->Err_0 == e,
        },
{
    match name {
        Some(n) => {
            if n.unicode_len() == 0 {
                Err(NameError::Empty)
            } else {
                Ok(n.to_owned())
            }
        },
        None => match dirname {
            None => Err(NameError::NotUnicode),
            Some(d) => {
                let segment = path_final_segment(d);
                if segment.as_str().unicode_len() == 0 {
                    Err(NameError::Empty)
                } else {
                    Ok(segment)
                }
            },
        },
    }
}

/// The project that a run is asked for: its name settled from the target
/// path and the name given in its place, if any, and its language.
pub fn resolve_project(dirname: Option<&str>, name: Option<&str>, language: Option<Language>) -> (out:
    Result<ProjectSpec, NameError>)
    ensures
        match resolved_name(str_view(dirname), str_view(name)) {
            Ok(text) => out is Ok && out->Ok_0.name_view() == text && out->Ok_0.language_view()
                == language,
            Err(e) => out is Err && out->Err_0 == e,
        },
{
    match resolve_project_name(dirname, name) {
        Ok(text) => match ProjectSpec::new(text.as_str(), language) {
            Some(project) => Ok(project),
            None => Err(NameError::Empty),
        },
        Err(e) => Err(e),
    }
}

} // verus!
