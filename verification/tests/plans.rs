use scaffold::master::master_document;
use scaffold::names::{capitalize, convert_name_to_module};
use scaffold::plan::{
    conda_create, make_conda_yml, make_dirs, make_julia_project, make_readme, plan_project,
    plan_steps, Step,
};
use scaffold::project::{AuthorInfo, Language, ProjectSpec};
use scaffold::run::{decide, steps_attempted, Verdict};
use scaffold::stamp::looks_like_identifier;
use scaffold::templates::{
    environment_text, gitignore_text, julia_project_text, main_text, readme_text,
};

const ID: &str = "67e55044-10b1-426f-9247-bb680e5fe0c8";

fn ada() -> Option<AuthorInfo> {
    Some(AuthorInfo { name: "Ada".to_string(), email: "ada@example.org".to_string() })
}

fn project(name: &str, language: Option<Language>) -> ProjectSpec {
    ProjectSpec::new(name, language).unwrap()
}

fn directories(steps: &[Step]) -> Vec<String> {
    let mut out = Vec::new();
    for step in steps {
        match step {
            Step::CreateRoot => out.push(".".to_string()),
            Step::CreateDir { name } => out.push(name.clone()),
            _ => {}
        }
    }
    out
}

fn written(steps: &[Step]) -> Vec<(String, String)> {
    let mut out = Vec::new();
    for step in steps {
        if let Step::WriteFile { path, content } = step {
            out.push((path.clone(), content.clone()));
        }
    }
    out
}

fn kinds(steps: &[Step]) -> String {
    steps
        .iter()
        .map(|s| match s {
            Step::CreateRoot => 'R',
            Step::CreateDir { .. } => 'D',
            Step::InitRepository => 'I',
            Step::Warn { .. } => 'W',
            Step::WriteFile { .. } => 'F',
            Step::CreateEnvironment { .. } => 'E',
        })
        .collect()
}

#[test]
fn project_needs_a_name() {
    assert!(ProjectSpec::new("", None).is_none());
    assert!(ProjectSpec::new("", Some(Language::Julia)).is_none());
    let spec = ProjectSpec::new("p", Some(Language::Python)).unwrap();
    assert_eq!(spec.name(), "p");
    assert_eq!(spec.language(), Some(Language::Python));
    let copy = spec.clone();
    assert_eq!(copy.name(), "p");
    assert_eq!(copy.language(), Some(Language::Python));
}

#[test]
fn directories_are_root_and_seven() {
    let steps = make_dirs();
    assert_eq!(steps.len(), 8);
    assert_eq!(
        directories(&steps),
        vec![".", "src", "raw", "results", "paper", "tmp", "cache", "choices"]
    );
}

#[test]
fn every_plan_creates_the_same_eight_directories() {
    for language in [None, Some(Language::Python), Some(Language::Julia)] {
        for prefix in [None, Some("/opt/conda".to_string())] {
            for author in [None, ada()] {
                let steps = plan_steps(&project("p", language), &author, &prefix, "2024-01-01", ID);
                assert_eq!(
                    directories(&steps),
                    vec![".", "src", "raw", "results", "paper", "tmp", "cache", "choices"]
                );
                assert!(kinds(&steps).starts_with("RDDDDDDDI"));
            }
        }
    }
}

#[test]
fn plan_without_language() {
    let steps = plan_steps(&project("bar-baz", None), &ada(), &None, "2024-01-01", ID);
    assert_eq!(kinds(&steps), "RDDDDDDDIFF");
    let files = written(&steps);
    assert_eq!(files[0], (".gitignore".to_string(), gitignore_text(None)));
    assert_eq!(
        files[1],
        (
            "README.md".to_string(),
            readme_text("Bar-baz", &Some("Ada".to_string()), "2024-01-01", &master_document())
        )
    );
    assert!(files[1].1.starts_with("# Bar-baz\n\nAuthor: Ada\nDate: 2024-01-01\n\n## Directory"));
}

#[test]
fn plan_warns_about_missing_author() {
    let steps = plan_steps(&project("p", None), &None, &None, "2024-01-01", ID);
    assert_eq!(kinds(&steps), "RDDDDDDDIWFF");
    match &steps[9] {
        Step::Warn { message } => {
            assert!(message.starts_with("Warning: Could not extract author name and email"));
            assert!(message.contains("git config --global user.name"));
            assert!(message.contains("git config --global user.email"));
        }
        _ => panic!("no warning"),
    }
    let files = written(&steps);
    assert_eq!(files[1].1, readme_text("P", &None, "2024-01-01", &master_document()));
}

#[test]
fn plan_for_julia() {
    let steps =
        plan_steps(&project("my-cool_project", Some(Language::Julia)), &ada(), &None, "d", ID);
    assert_eq!(kinds(&steps), "RDDDDDDDIFFFF");
    let files = written(&steps);
    assert_eq!(files[0], (".gitignore".to_string(), "/tmp/\n/cache/\n\n".to_string()));
    assert_eq!(files[1].0, "README.md");
    assert!(files[1].1.starts_with("# My-cool_project\n"));
    assert_eq!(files[2], ("src/MyCoolProject.jl".to_string(), main_text()));
    assert_eq!(
        files[3],
        ("Project.toml".to_string(), julia_project_text("MyCoolProject", ID, &ada()))
    );
    assert_eq!(
        files[2].0,
        format!("src/{}.jl", convert_name_to_module("my-cool_project"))
    );
}

#[test]
fn plan_for_python_with_prefix() {
    let prefix = Some("/opt/conda".to_string());
    let steps = plan_steps(&project("proj", Some(Language::Python)), &ada(), &prefix, "d", ID);
    assert_eq!(kinds(&steps), "RDDDDDDDIFFFEF");
    let files = written(&steps);
    assert_eq!(files[0].1, "/tmp/\n/cache/\n__pycache__\n");
    assert_eq!(files[2], ("src/main.py".to_string(), main_text()));
    assert_eq!(
        files[3],
        ("environment.yml".to_string(), environment_text("proj", "/opt/conda"))
    );
    match &steps[12] {
        Step::CreateEnvironment { name } => assert_eq!(name, "proj"),
        _ => panic!("no environment"),
    }
}

#[test]
fn plan_for_python_without_prefix() {
    let with =
        plan_steps(&project("proj", Some(Language::Python)), &ada(), &Some("/c".to_string()), "d", ID);
    let without = plan_steps(&project("proj", Some(Language::Python)), &ada(), &None, "d", ID);
    assert_eq!(kinds(&without), "RDDDDDDDIFFFEW");
    assert_eq!(without.len(), with.len());
    assert!(written(&without).iter().all(|(path, _)| path != "environment.yml"));
    assert_eq!(written(&without), written(&with)[..3].to_vec());
    match without.last() {
        Some(Step::Warn { message }) => assert_eq!(
            message,
            "Warning: Could not get env variable $CONDA_PREFIX. Not writing \"environment.yml\" file."
        ),
        _ => panic!("no warning"),
    }
    let all_fine = vec![true; without.len()];
    assert_eq!(steps_attempted(&without, &all_fine), without.len());
}

#[test]
fn environment_definition_step() {
    match make_conda_yml("p", &Some("/x".to_string())) {
        Step::WriteFile { path, content } => {
            assert_eq!(path, "environment.yml");
            assert!(content.ends_with("prefix: /x/envs/p\n"));
        }
        _ => panic!("no file"),
    }
    assert!(matches!(make_conda_yml("p", &None), Step::Warn { .. }));
}

#[test]
fn environment_command_line() {
    assert_eq!(conda_create("my proj"), vec!["conda", "create", "-n", "my proj", "-y"]);
}

#[test]
fn readme_is_dated() {
    let text = make_readme("Title", &Some("Ada".to_string()));
    let lines: Vec<&str> = text.lines().collect();
    assert_eq!(lines[0], "# Title");
    assert_eq!(lines[2], "Author: Ada");
    let date = lines[3].strip_prefix("Date: ").unwrap();
    assert_eq!(text, readme_text("Title", &Some("Ada".to_string()), date, &master_document()));
    let parts: Vec<&str> = date.split('-').collect();
    assert_eq!(parts.len(), 3);
    assert!(parts[0].len() >= 4 && parts[0].chars().all(|c| c.is_ascii_digit()));
    let month: u32 = parts[1].parse().unwrap();
    let day: u32 = parts[2].parse().unwrap();
    assert!(parts[1].len() == 2 && (1..=12).contains(&month));
    assert!(parts[2].len() == 2 && (1..=31).contains(&day));
}

fn identifier_of(manifest: &str) -> String {
    let line = manifest.lines().nth(1).unwrap();
    line.strip_prefix("uuid = \"").unwrap().strip_suffix('"').unwrap().to_string()
}

#[test]
fn julia_manifest_gets_fresh_identifier() {
    let first = make_julia_project("Mod", &ada());
    let second = make_julia_project("Mod", &ada());
    let a = identifier_of(&first);
    let b = identifier_of(&second);
    assert!(looks_like_identifier(&a), "{}", a);
    assert!(looks_like_identifier(&b), "{}", b);
    assert_ne!(a, b);
    assert_eq!(first, julia_project_text("Mod", &a, &ada()));
    assert_eq!(first.lines().next().unwrap(), "name = \"Mod\"");
}

#[test]
fn planned_julia_project() {
    let spec = project("my-cool_project", Some(Language::Julia));
    let steps = plan_project(&spec, &None, &None);
    assert_eq!(kinds(&steps), "RDDDDDDDIWFFFF");
    let files = written(&steps);
    assert_eq!(files[2].0, "src/MyCoolProject.jl");
    assert_eq!(files[3].0, "Project.toml");
    let id = identifier_of(&files[3].1);
    assert!(looks_like_identifier(&id));
    assert_eq!(files[3].1, julia_project_text("MyCoolProject", &id, &None));
    let again = plan_project(&spec, &None, &None);
    assert_ne!(identifier_of(&written(&again)[3].1), id);
}

#[test]
fn planned_python_project_without_prefix() {
    let spec = project("proj", Some(Language::Python));
    let steps = plan_project(&spec, &ada(), &None);
    assert_eq!(kinds(&steps), "RDDDDDDDIFFFEW");
    assert!(written(&steps).iter().all(|(path, _)| path != "environment.yml"));
    assert_eq!(written(&steps)[1].1.lines().next().unwrap(), format!("# {}", capitalize("proj")));
}

#[test]
fn existing_root_stops_the_run_before_any_file() {
    for language in [None, Some(Language::Python), Some(Language::Julia)] {
        let steps = plan_steps(&project("p", language), &ada(), &None, "d", ID);
        let mut outcomes = vec![true; steps.len()];
        outcomes[0] = false;
        let n = steps_attempted(&steps, &outcomes);
        assert_eq!(n, 1);
        assert!(matches!(steps[0], Step::CreateRoot));
        assert!(written(&steps[..n]).is_empty());
        assert_eq!(steps_attempted(&steps, &vec![false]), 1);
    }
}

#[test]
fn run_stops_at_first_fatal_failure() {
    let steps =
        plan_steps(&project("p", Some(Language::Python)), &None, &Some("/c".to_string()), "d", ID);
    assert_eq!(kinds(&steps), "RDDDDDDDIWFFFEF");
    let n = steps.len();
    assert_eq!(steps_attempted(&steps, &vec![]), n);
    assert_eq!(steps_attempted(&steps, &vec![true; n]), n);
    for k in 0..n {
        let mut outcomes = vec![true; n];
        outcomes[k] = false;
        let fatal = steps[k].fatal();
        assert_eq!(steps_attempted(&steps, &outcomes), if fatal { k + 1 } else { n }, "{}", k);
    }
    let mut outcomes = vec![true; n];
    outcomes[3] = false;
    outcomes[5] = false;
    assert_eq!(steps_attempted(&steps, &outcomes), 4);
    assert_eq!(steps_attempted(&vec![], &vec![false]), 0);
}

#[test]
fn failed_environment_does_not_stop_the_run() {
    let steps =
        plan_steps(&project("p", Some(Language::Python)), &ada(), &Some("/c".to_string()), "d", ID);
    let mut outcomes = vec![true; steps.len()];
    outcomes[12] = false;
    assert!(matches!(steps[12], Step::CreateEnvironment { .. }));
    assert_eq!(steps_attempted(&steps, &outcomes), steps.len());
    assert_eq!(decide(&steps[12], false), Verdict::Proceed);
}

#[test]
fn verdicts() {
    let file = Step::WriteFile { path: "a".to_string(), content: "b".to_string() };
    let dir = Step::CreateDir { name: "src".to_string() };
    let env = Step::CreateEnvironment { name: "p".to_string() };
    let warn = Step::Warn { message: "w".to_string() };
    for step in [&Step::CreateRoot, &dir, &Step::InitRepository, &file] {
        assert!(step.fatal());
        assert_eq!(decide(step, false), Verdict::Abort);
        assert_eq!(decide(step, true), Verdict::Proceed);
    }
    for step in [&env, &warn] {
        assert!(!step.fatal());
        assert_eq!(decide(step, false), Verdict::Proceed);
        assert_eq!(decide(step, true), Verdict::Proceed);
    }
}

#[test]
fn messages() {
    let file = Step::WriteFile { path: "a".to_string(), content: "b".to_string() };
    let dir = Step::CreateDir { name: "src".to_string() };
    let env = Step::CreateEnvironment { name: "p".to_string() };
    let warn = Step::Warn { message: "w".to_string() };
    assert_eq!(Step::CreateRoot.failure_message(), "Error when creating main project directory:");
    assert_eq!(dir.failure_message(), "Error when creating sub-directory:");
    assert_eq!(Step::InitRepository.failure_message(), "Error when initializing git repo:");
    assert_eq!(file.failure_message(), "Error when creating file");
    assert_eq!(env.failure_message(), "Warning: Could not create Conda environment \"p\"");
    assert_eq!(warn.failure_message(), "");
    assert_eq!(env.success_message(), Some("Created Conda environment \"p\"".to_string()));
    for step in [&Step::CreateRoot, &dir, &Step::InitRepository, &file, &warn] {
        assert_eq!(step.success_message(), None);
    }
}
