//! The texts written into a new project. Each is a fixed run of lines with
//! the values of its placeholders put in.

use vstd::prelude::*;
use vstd::string::*;
use crate::excerpt::{directory_section, excerpt_directory_section, is_plain_line, lines, unlines};
use crate::project::{AuthorInfo, Language};
use crate::text::{join2, join3, text_views, view_of};

verus! {

/// Writes the lines out one after the other, each followed by a line feed.
pub fn render_lines(ls: &Vec<String>) -> (out: String)
    ensures
        out@ == unlines(text_views(ls@)),
{
    let ghost views = text_views(ls@);
    let mut out = String::new();
    let mut i: usize = 0;
    assert(views.take(0) =~= Seq::<Seq<char>>::empty());
    while i < ls.len()
        invariant
            i <= ls.len(),
            views == text_views(ls@),
            out@ == unlines(views.take(i as int)),
        decreases ls.len() - i,
    {
        let ghost before = out@;
        out.append(ls[i].as_str());
        out.append("\n");
        proof {
            reveal_strlit("\n");
            assert("\n"@ =~= seq!['\n']);
            assert(views.take(i + 1).drop_last() =~= views.take(i as int));
            assert(views.take(i + 1).last() == ls[i as int]@);
            assert(before + ls[i as int]@ + seq!['\n'] =~= before + ls[i as int]@.push('\n'));
        }
        i += 1;
    }
    assert(views.take(ls.len() as int) =~= views);
    out
}

/// The line that keeps Python's byte-code cache out of version control, or
/// the empty line for any other language and for none.
pub open spec fn python_line(language: Option<Language>) -> Seq<char> {
    if language == Some(Language::Python) {
        "__pycache__"@
    } else {
        Seq::<char>::empty()
    }
}

/// The lines of `.gitignore`.
pub open spec fn gitignore_lines(language: Option<Language>) -> Seq<Seq<char>> {
    seq!["/tmp/"@, "/cache/"@, python_line(language)]
}

/// The text of `.gitignore`.
pub open spec fn gitignore(language: Option<Language>) -> Seq<char> {
    unlines(gitignore_lines(language))
}

/// The text of `.gitignore`: scratch space and cache stay out of version
/// control, and so does Python's byte-code cache in a Python project.
pub fn gitignore_text(language: Option<Language>) -> (out: String)
    ensures
        out@ == gitignore(language),
{
    let python = match language {
        Some(Language::Python) => "__pycache__",
        _ => "",
    };
    proof {
        reveal_strlit("");
        assert(""@ =~= Seq::<char>::empty());
    }
    let mut ls: Vec<String> = Vec::new();
    ls.push("/tmp/".to_owned());
    ls.push("/cache/".to_owned());
    ls.push(python.to_owned());
    assert(text_views(ls@) =~= gitignore_lines(language));
    render_lines(&ls)
}

/// A Python project's `.gitignore` holds the line `__pycache__`; that of a
/// Julia project, or of one without a language, holds no such line.
pub proof fn lemma_gitignore_python_line(language: Option<Language>)
    ensures
        lines(gitignore(language)).contains("__pycache__"@) <==> language == Some(
            Language::Python,
        ),
{
    reveal_strlit("/tmp/");
    reveal_strlit("/cache/");
    reveal_strlit("__pycache__");
    let ls = gitignore_lines(language);
    assert(is_plain_line("/tmp/"@));
    assert(is_plain_line("/cache/"@));
    assert(is_plain_line("__pycache__"@));
    assert(is_plain_line(Seq::<char>::empty()));
    crate::excerpt::lemma_lines_of_unlines(ls);
    if language == Some(Language::Python) {
        assert(ls[2] == "__pycache__"@);
    } else {
        assert forall|i: int| 0 <= i < ls.len() implies ls[i] != "__pycache__"@ by {
            assert(ls[i].len() != "__pycache__"@.len());
        }
    }
}

/// The line of the README that names the author, where one is known.
pub open spec fn author_lines(author: Option<Seq<char>>) -> Seq<Seq<char>> {
    match author {
        Some(name) => seq!["Author: "@ + name],
        None => Seq::<Seq<char>>::empty(),
    }
}

/// The lines that open the README: the title, the author where one is known,
/// and the date.
pub open spec fn readme_header_lines(
    project_name: Seq<char>,
    author: Option<Seq<char>>,
    date: Seq<char>,
) -> Seq<Seq<char>> {
    seq!["# "@ + project_name, Seq::<char>::empty()] + author_lines(author) + seq![
        "Date: "@ + date,
        Seq::<char>::empty(),
    ]
}

/// The text of the README: its opening lines, then the section on the
/// directory structure as the master document has it.
pub open spec fn readme(
    project_name: Seq<char>,
    author: Option<Seq<char>>,
    date: Seq<char>,
    master: Seq<char>,
) -> Seq<char> {
    unlines(readme_header_lines(project_name, author, date)) + directory_section(master)
}

/// The text of the README for a project of the given display name, made on
/// `date`, with the section on the directory structure taken from `master`.
pub fn readme_text(project_name: &str, author: &Option<String>, date: &str, master: &str) -> (out:
    String)
    ensures
        out@ == readme(project_name@, view_of(*author), date@, master@),
{
    let ghost header = readme_header_lines(project_name@, view_of(*author), date@);
    let mut ls: Vec<String> = Vec::new();
    ls.push(join2("# ", project_name));
    ls.push(String::new());
    match author {
        Some(name) => {
            ls.push(join2("Author: ", name.as_str()));
        },
        None => {},
    }
    ls.push(join2("Date: ", date));
    ls.push(String::new());
    assert(text_views(ls@) =~= header);
    let mut out = render_lines(&ls);
    let section = excerpt_directory_section(master);
    out.append(section.as_str());
    out
}

/// Where the master document has the heading on line `i` and no earlier, and
/// `j` is the first later line that opens a section (or the number of lines,
/// where none does), the README is its opening lines followed by the lines of
/// the master document from `i` up to, and without, `j`.
pub proof fn lemma_readme_section(
    project_name: Seq<char>,
    author: Option<Seq<char>>,
    date: Seq<char>,
    master: Seq<char>,
    i: int,
    j: int,
)
    requires
        0 <= i < j <= lines(master).len(),
        lines(master)[i] == crate::excerpt::heading(),
        forall|k: int| 0 <= k < i ==> #[trigger] lines(master)[k] != crate::excerpt::heading(),
        forall|k: int| i < k < j ==> !crate::excerpt::opens_section(#[trigger] lines(master)[k]),
        j < lines(master).len() ==> crate::excerpt::opens_section(lines(master)[j]),
    ensures
        readme(project_name, author, date, master) == unlines(
            readme_header_lines(project_name, author, date) + lines(master).subrange(i, j),
        ),
{
    crate::excerpt::lemma_section_between(lines(master), i, j);
    crate::excerpt::lemma_unlines_concat(
        readme_header_lines(project_name, author, date),
        lines(master).subrange(i, j),
    );
}

/// How a manifest names the author: name and address, or a stand-in where
/// they are not known.
pub open spec fn author_entry(author: Option<(Seq<char>, Seq<char>)>) -> Seq<char> {
    match author {
        Some((name, email)) => name + " <"@ + email + ">"@,
        None => "Unknown author"@,
    }
}

/// The lines of a Julia project manifest.
pub open spec fn julia_project_lines(
    module_name: Seq<char>,
    identifier: Seq<char>,
    author: Option<(Seq<char>, Seq<char>)>,
) -> Seq<Seq<char>> {
    seq![
        "name = \""@ + module_name + "\""@,
        "uuid = \""@ + identifier + "\""@,
        "authors = [\""@ + author_entry(author) + "\"]"@,
        "version = \"0.1.0\""@,
    ]
}

/// The text of a Julia project manifest.
pub open spec fn julia_project(
    module_name: Seq<char>,
    identifier: Seq<char>,
    author: Option<(Seq<char>, Seq<char>)>,
) -> Seq<char> {
    unlines(julia_project_lines(module_name, identifier, author))
}

/// Name and address of an author, if there is one.
pub open spec fn author_view(author: Option<AuthorInfo>) -> Option<(Seq<char>, Seq<char>)> {
    match author {
        Some(info) => Some((info.name@, info.email@)),
        None => None,
    }
}

/// The text of the manifest of a Julia project with the given module name
/// and identifier.
pub fn julia_project_text(module_name: &str, identifier: &str, author: &Option<AuthorInfo>) -> (out:
    String)
    ensures
        out@ == julia_project(module_name@, identifier@, author_view(*author)),
{
    let entry = match author {
        Some(info) => {
            let mut entry = join3(info.name.as_str(), " <", info.email.as_str());
            entry.append(">");
            entry
        },
        None => "Unknown author".to_owned(),
    };
    assert(entry@ == author_entry(author_view(*author)));
    let mut ls: Vec<String> = Vec::new();
    ls.push(join3("name = \"", module_name, "\""));
    ls.push(join3("uuid = \"", identifier, "\""));
    ls.push(join3("authors = [\"", entry.as_str(), "\"]"));
    ls.push("version = \"0.1.0\"".to_owned());
    assert(text_views(ls@) =~= julia_project_lines(
        module_name@,
        identifier@,
        author_view(*author),
    ));
    render_lines(&ls)
}

/// Where the environment of a project lives under the environment manager's
/// installation prefix.
pub open spec fn environment_path(prefix: Seq<char>, project_name: Seq<char>) -> Seq<char> {
    prefix + "/envs/"@ + project_name
}

/// The lines of the environment definition.
pub open spec fn environment_lines(project_name: Seq<char>, prefix: Seq<char>) -> Seq<Seq<char>> {
    seq![
        "name: "@ + project_name,
        "channels:"@,
        "  - defaults"@,
        "dependencies:"@,
        "  - python"@,
        "prefix: "@ + environment_path(prefix, project_name),
    ]
}

/// The text of the environment definition.
pub open spec fn environment(project_name: Seq<char>, prefix: Seq<char>) -> Seq<char> {
    unlines(environment_lines(project_name, prefix))
}

/// The text of the environment definition of a project, for an environment
/// manager installed under `prefix`.
pub fn environment_text(project_name: &str, prefix: &str) -> (out: String)
    ensures
        out@ == environment(project_name@, prefix@),
{
    let path = join3(prefix, "/envs/", project_name);
    let mut ls: Vec<String> = Vec::new();
    ls.push(join2("name: ", project_name));
    ls.push("channels:".to_owned());
    ls.push("  - defaults".to_owned());
    ls.push("dependencies:".to_owned());
    ls.push("  - python".to_owned());
    ls.push(join2("prefix: ", path.as_str()));
    assert(text_views(ls@) =~= environment_lines(project_name@, prefix@));
    render_lines(&ls)
}

/// The lines of the starter source file, the same for either language.
pub open spec fn main_lines() -> Seq<Seq<char>> {
    seq!["# Entry point of the project."@]
}

/// The text of the starter source file.
pub fn main_text() -> (out: String)
    ensures
        out@ == unlines(main_lines()),
{
    let mut ls: Vec<String> = Vec::new();
    ls.push("# Entry point of the project.".to_owned());
    assert(text_views(ls@) =~= main_lines());
    render_lines(&ls)
}

} // verus!
