//! The steps that set a project up, in the order in which they are taken, and
//! what becomes of a run when one of them fails.

use vstd::prelude::*;
use crate::excerpt::unlines;
use crate::master::{master_document, master_lines};
use crate::names::{capitalize, capitalized, convert_name_to_module, module_name};
use crate::project::{AuthorInfo, Language, ProjectSpec};
use crate::stamp::{fresh_identifier, is_random_identifier, today};
use crate::templates::{
    author_view, environment, environment_text, gitignore, gitignore_text, julia_project,
    julia_project_text, main_lines, main_text, readme, readme_text,
};
use crate::text::{join3, text_views, view_of};

verus! {

/// One step of setting a project up. Paths are relative to the project's
/// root and use `/` between their parts.
#[derive(Clone, Debug)]
pub enum Step {
    /// Create the project's root directory.
    CreateRoot,
    /// Create a directory directly under the root.
    CreateDir { name: String },
    /// Make the root a version-control repository.
    InitRepository,
    /// Tell the user something that does not stop the run.
    Warn { message: String },
    /// Write a file.
    WriteFile { path: String, content: String },
    /// Have the environment manager create an environment of this name.
    CreateEnvironment { name: String },
}

/// A step, with its texts as sequences of characters.
pub enum StepView {
    CreateRoot,
    CreateDir { name: Seq<char> },
    InitRepository,
    Warn { message: Seq<char> },
    WriteFile { path: Seq<char>, content: Seq<char> },
    CreateEnvironment { name: Seq<char> },
}

impl View for Step {
    type V = StepView;

    open spec fn view(&self) -> StepView {
        match *self {
            Step::CreateRoot => StepView::CreateRoot,
            Step::CreateDir { name } => StepView::CreateDir { name: name@ },
            Step::InitRepository => StepView::InitRepository,
            Step::Warn { message } => StepView::Warn { message: message@ },
            Step::WriteFile { path, content } => StepView::WriteFile {
                path: path@,
                content: content@,
            },
            Step::CreateEnvironment { name } => StepView::CreateEnvironment { name: name@ },
        }
    }
}

/// The views of the steps held in `v`.
pub open spec fn step_views(v: Seq<Step>) -> Seq<StepView> {
    Seq::new(v.len(), |i: int| v[i]@)
}

/// Whether a step creates a directory.
pub open spec fn creates_directory(step: StepView) -> bool {
    step is CreateRoot || step is CreateDir
}

/// The names of the directories under the root, in the order in which they
/// are created.
pub open spec fn directory_names() -> Seq<Seq<char>> {
    seq!["src"@, "raw"@, "results"@, "paper"@, "tmp"@, "cache"@, "choices"@]
}

/// The steps that create the directories: the root, then each directory
/// under it.
pub open spec fn directory_steps() -> Seq<StepView> {
    seq![StepView::CreateRoot] + Seq::new(
        directory_names().len(),
        |i: int| StepView::CreateDir { name: directory_names()[i] },
    )
}

/// What the user is told when the configuration does not name the author.
pub open spec fn author_warning() -> Seq<char> {
    "Warning: Could not extract author name and email from global git config.\nSet name and mail with:\ngit config --global user.name \"FIRST_NAME LAST_NAME\"\ngit config --global user.email \"EXAMPLE@EMAIL.COM\"\n"@
}

/// What the user is told when the environment manager's prefix is not known.
pub open spec fn prefix_warning() -> Seq<char> {
    "Warning: Could not get env variable $CONDA_PREFIX. Not writing \"environment.yml\" file."@
}

/// The warning on a missing author, or nothing where the author is known.
pub open spec fn author_steps(author: Option<(Seq<char>, Seq<char>)>) -> Seq<StepView> {
    match author {
        Some(_) => Seq::<StepView>::empty(),
        None => seq![StepView::Warn { message: author_warning() }],
    }
}

/// The author's name alone.
pub open spec fn author_name(author: Option<(Seq<char>, Seq<char>)>) -> Option<Seq<char>> {
    match author {
        Some((name, _)) => Some(name),
        None => None,
    }
}

/// The two files that every project gets: `.gitignore` and the README, which
/// bears the capitalised project name.
pub open spec fn common_steps(
    name: Seq<char>,
    language: Option<Language>,
    author: Option<(Seq<char>, Seq<char>)>,
    date: Seq<char>,
) -> Seq<StepView> {
    seq![
        StepView::WriteFile { path: ".gitignore"@, content: gitignore(language) },
        StepView::WriteFile {
            path: "README.md"@,
            content: readme(capitalized(name), author_name(author), date, unlines(master_lines())),
        },
    ]
}

/// The steps of a Julia project: the starter file, named after the module,
/// and the manifest.
pub open spec fn julia_steps(
    name: Seq<char>,
    author: Option<(Seq<char>, Seq<char>)>,
    identifier: Seq<char>,
) -> Seq<StepView> {
    seq![
        StepView::WriteFile {
            path: "src/"@ + module_name(name) + ".jl"@,
            content: unlines(main_lines()),
        },
        StepView::WriteFile {
            path: "Project.toml"@,
            content: julia_project(module_name(name), identifier, author),
        },
    ]
}

/// The last step of a Python project: the environment definition where the
/// environment manager's prefix is known, a warning where it is not.
pub open spec fn definition_step(name: Seq<char>, prefix: Option<Seq<char>>) -> StepView {
    match prefix {
        Some(p) => StepView::WriteFile { path: "environment.yml"@, content: environment(name, p) },
        None => StepView::Warn { message: prefix_warning() },
    }
}

/// The steps of a Python project: the starter file, the environment, and the
/// environment definition or the warning in its place.
pub open spec fn python_steps(name: Seq<char>, prefix: Option<Seq<char>>) -> Seq<StepView> {
    seq![
        StepView::WriteFile { path: "src/main.py"@, content: unlines(main_lines()) },
        StepView::CreateEnvironment { name: name },
        definition_step(name, prefix),
    ]
}

/// The steps that depend on the language; none without one.
pub open spec fn language_steps(
    name: Seq<char>,
    language: Option<Language>,
    author: Option<(Seq<char>, Seq<char>)>,
    prefix: Option<Seq<char>>,
    identifier: Seq<char>,
) -> Seq<StepView> {
    match language {
        Some(Language::Julia) => julia_steps(name, author, identifier),
        Some(Language::Python) => python_steps(name, prefix),
        None => Seq::<StepView>::empty(),
    }
}

/// All the steps of setting a project up: the directories, the repository,
/// the warning on a missing author, the files of every project, and what the
/// language asks for.
pub open spec fn plan(
    name: Seq<char>,
    language: Option<Language>,
    author: Option<(Seq<char>, Seq<char>)>,
    prefix: Option<Seq<char>>,
    date: Seq<char>,
    identifier: Seq<char>,
) -> Seq<StepView> {
    directory_steps() + seq![StepView::InitRepository] + author_steps(author) + common_steps(
        name,
        language,
        author,
        date,
    ) + language_steps(name, language, author, prefix, identifier)
}

/// The steps that create the directories of a project: the root, then `src`,
/// `raw`, `results`, `paper`, `tmp`, `cache` and `choices` under it.
pub fn make_dirs() -> (out: Vec<Step>)
    ensures
        step_views(out@) == directory_steps(),
{
    let mut out: Vec<Step> = Vec::new();
    out.push(Step::CreateRoot);
    out.push(Step::CreateDir { name: "src".to_owned() });
    out.push(Step::CreateDir { name: "raw".to_owned() });
    out.push(Step::CreateDir { name: "results".to_owned() });
    out.push(Step::CreateDir { name: "paper".to_owned() });
    out.push(Step::CreateDir { name: "tmp".to_owned() });
    out.push(Step::CreateDir { name: "cache".to_owned() });
    out.push(Step::CreateDir { name: "choices".to_owned() });
    assert(step_views(out@) =~= directory_steps());
    out
}

/// The author's name alone.
pub fn name_of(author: &Option<AuthorInfo>) -> (out: Option<String>)
    ensures
        view_of(out) == author_name(author_view(*author)),
{
    match author {
        Some(info) => Some(info.name.clone()),
        None => None,
    }
}

/// The step that closes a Python project: it writes the environment
/// definition, with the environment's path under `prefix`, or warns that
/// nothing is written where the prefix is not known.
pub fn make_conda_yml(project_name: &str, prefix: &Option<String>) -> (out: Step)
    ensures
        out@ == definition_step(project_name@, view_of(*prefix)),
{
    match prefix {
        Some(p) => Step::WriteFile {
            path: "environment.yml".to_owned(),
            content: environment_text(project_name, p.as_str()),
        },
        None => Step::Warn {
            message:
                "Warning: Could not get env variable $CONDA_PREFIX. Not writing \"environment.yml\" file.".to_owned(),
        },
    }
}

/// The command line that has the environment manager create the project's
/// environment without asking.
pub open spec fn environment_command(project_name: Seq<char>) -> Seq<Seq<char>> {
    seq!["conda"@, "create"@, "-n"@, project_name, "-y"@]
}

/// The command line that creates the environment of a project: the program,
/// then its arguments.
pub fn conda_create(project_name: &str) -> (out: Vec<String>)
    ensures
        text_views(out@) == environment_command(project_name@),
{
    let mut out: Vec<String> = Vec::new();
    out.push("conda".to_owned());
    out.push("create".to_owned());
    out.push("-n".to_owned());
    out.push(project_name.to_owned());
    out.push("-y".to_owned());
    assert(text_views(out@) =~= environment_command(project_name@));
    out
}

/// The README of a project with the given display name, dated today. The
/// date is whatever the machine's clock and time zone give.
pub fn make_readme(project_name: &str, author: &Option<String>) -> (out: String)
    ensures
        exists|date: Seq<char>|
            out@ == #[trigger] readme(
                project_name@,
                view_of(*author),
                date,
                unlines(master_lines()),
            ),
{
    let date = today();
    let master = master_document();
    let out = readme_text(project_name, author, date.as_str(), master.as_str());
    assert(out@ == readme(project_name@, view_of(*author), date@, unlines(master_lines())));
    out
}

/// The manifest of a Julia project with the given module name, under a fresh
/// random identifier.
pub fn make_julia_project(module_name: &str, author_email: &Option<AuthorInfo>) -> (out: String)
    ensures
        exists|identifier: Seq<char>|
            is_random_identifier(identifier) && out@ == #[trigger] julia_project(
                module_name@,
                identifier,
                author_view(*author_email),
            ),
{
    let identifier = fresh_identifier();
    let out = julia_project_text(module_name, identifier.as_str(), author_email);
    assert(out@ == julia_project(module_name@, identifier@, author_view(*author_email)));
    out
}

/// All the steps of setting the project up, in order, for a run that found
/// the given author and environment-manager prefix, takes place on `date`
/// and, for a Julia project, gives it `identifier`.
pub fn plan_steps(
    project: &ProjectSpec,
    author: &Option<AuthorInfo>,
    prefix: &Option<String>,
    date: &str,
    identifier: &str,
) -> (out: Vec<Step>)
    ensures
        step_views(out@) == plan(
            project.name_view(),
            project.language_view(),
            author_view(*author),
            view_of(*prefix),
            date@,
            identifier@,
        ),
{
    let name = project.name();
    let language = project.language();
    let mut out = make_dirs();
    out.push(Step::InitRepository);
    if author.is_none() {
        out.push(
            Step::Warn {
                message:
                    "Warning: Could not extract author name and email from global git config.\nSet name and mail with:\ngit config --global user.name \"FIRST_NAME LAST_NAME\"\ngit config --global user.email \"EXAMPLE@EMAIL.COM\"\n".to_owned(),
            },
        );
    }
    assert(step_views(out@) =~= directory_steps() + seq![StepView::InitRepository] + author_steps(
        author_view(*author),
    ));
    let title = capitalize(name);
    let master = master_document();
    let readme_author = name_of(author);
    let ghost before = out@;
    out.push(Step::WriteFile { path: ".gitignore".to_owned(), content: gitignore_text(language) });
    out.push(
        Step::WriteFile {
            path: "README.md".to_owned(),
            content: readme_text(title.as_str(), &readme_author, date, master.as_str()),
        },
    );
    assert(step_views(out@) =~= step_views(before) + common_steps(
        name@,
        language,
        author_view(*author),
        date@,
    ));
    let ghost before = out@;
    match language {
        Some(Language::Julia) => {
            let module = convert_name_to_module(name);
            out.push(
                Step::WriteFile {
                    path: join3("src/", module.as_str(), ".jl"),
                    content: main_text(),
                },
            );
            out.push(
                Step::WriteFile {
                    path: "Project.toml".to_owned(),
                    content: julia_project_text(module.as_str(), identifier, author),
                },
            );
        },
        Some(Language::Python) => {
            out.push(Step::WriteFile { path: "src/main.py".to_owned(), content: main_text() });
            out.push(Step::CreateEnvironment { name: name.to_owned() });
            out.push(make_conda_yml(name, prefix));
        },
        None => {},
    }
    assert(step_views(out@) =~= step_views(before) + language_steps(
        name@,
        language,
        author_view(*author),
        view_of(*prefix),
        identifier@,
    ));
    out
}

/// All the steps of setting the project up, for a run that takes place
/// today. A Julia project gets a fresh random identifier; the date is
/// whatever the machine's clock and time zone give.
pub fn plan_project(project: &ProjectSpec, author: &Option<AuthorInfo>, prefix: &Option<String>) -> (out:
    Vec<Step>)
    ensures
        exists|date: Seq<char>, identifier: Seq<char>|
            (project.language_view() == Some(Language::Julia) ==> is_random_identifier(identifier))
                && step_views(out@) == #[trigger] plan(
                project.name_view(),
                project.language_view(),
                author_view(*author),
                view_of(*prefix),
                date,
                identifier,
            ),
{
    let date = today();
    let identifier = match project.language() {
        Some(Language::Julia) => fresh_identifier(),
        _ => String::new(),
    };
    let out = plan_steps(project, author, prefix, date.as_str(), identifier.as_str());
    assert(step_views(out@) == plan(
        project.name_view(),
        project.language_view(),
        author_view(*author),
        view_of(*prefix),
        date@,
        identifier@,
    ));
    out
}

/// Whatever the language, a plan opens with the eight steps that create the
/// root and the seven directories under it, and creates no other directory.
pub proof fn lemma_plan_directories(
    name: Seq<char>,
    language: Option<Language>,
    author: Option<(Seq<char>, Seq<char>)>,
    prefix: Option<Seq<char>>,
    date: Seq<char>,
    identifier: Seq<char>,
)
    ensures
        directory_steps().len() == 8,
        directory_steps()[0] == StepView::CreateRoot,
        forall|i: int|
            1 <= i < 8 ==> #[trigger] directory_steps()[i] == (StepView::CreateDir {
                name: directory_names()[i - 1],
            }),
        plan(name, language, author, prefix, date, identifier).len() >= 8,
        plan(name, language, author, prefix, date, identifier).take(8) == directory_steps(),
        forall|i: int|
            8 <= i < plan(name, language, author, prefix, date, identifier).len()
                ==> !creates_directory(
                #[trigger] plan(name, language, author, prefix, date, identifier)[i],
            ),
{
    let steps = plan(name, language, author, prefix, date, identifier);
    assert(steps.take(8) =~= directory_steps());
}

/// A Python project is planned alike with and without the environment
/// manager's prefix, up to the last step: with the prefix that step writes
/// the environment definition, without it the step is a warning and no step
/// at all writes that file.
pub proof fn lemma_python_without_prefix(
    name: Seq<char>,
    author: Option<(Seq<char>, Seq<char>)>,
    prefix: Seq<char>,
    date: Seq<char>,
    identifier: Seq<char>,
)
    ensures
        ({
            let without = plan(name, Some(Language::Python), author, None, date, identifier);
            let with = plan(name, Some(Language::Python), author, Some(prefix), date, identifier);
            &&& without.len() == with.len()
            &&& without.drop_last() == with.drop_last()
            &&& without.last() == definition_step(name, None)
            &&& without.last() is Warn
            &&& with.last() == definition_step(name, Some(prefix))
            &&& forall|i: int|
                0 <= i < without.len() && (#[trigger] without[i]) is WriteFile
                    ==> without[i]->path != "environment.yml"@
        }),
{
    let without = plan(name, Some(Language::Python), author, None, date, identifier);
    let with = plan(name, Some(Language::Python), author, Some(prefix), date, identifier);
    assert(without.drop_last() =~= with.drop_last());
    reveal_strlit("environment.yml");
    reveal_strlit(".gitignore");
    reveal_strlit("README.md");
    reveal_strlit("src/main.py");
    assert forall|i: int|
        0 <= i < without.len() && (#[trigger] without[i]) is WriteFile implies without[i]->path
        != "environment.yml"@ by {
        assert(without[i]->path.len() != "environment.yml"@.len());
    }
}

/// A Julia project closes with its two files: the starter file, named after
/// the module identifier of the project name, and the manifest, which bears
/// the same identifier as its name.
pub proof fn lemma_julia_files(
    name: Seq<char>,
    author: Option<(Seq<char>, Seq<char>)>,
    prefix: Option<Seq<char>>,
    date: Seq<char>,
    identifier: Seq<char>,
)
    ensures
        ({
            let steps = plan(name, Some(Language::Julia), author, prefix, date, identifier);
            let n = steps.len() as int;
            &&& n >= 13
            &&& steps[n - 2] == (StepView::WriteFile {
                path: "src/"@ + module_name(name) + ".jl"@,
                content: unlines(main_lines()),
            })
            &&& steps[n - 1] == (StepView::WriteFile {
                path: "Project.toml"@,
                content: julia_project(
                    module_name(name),
                    identifier,
                    author,
                ),
            })
        }),
{
}

} // verus!
