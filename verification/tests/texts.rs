use scaffold::excerpt::{excerpt_directory_section, split_lines};
use scaffold::master::master_document;
use scaffold::project::{AuthorInfo, Language};
use scaffold::stamp::looks_like_identifier;
use scaffold::templates::{
    environment_text, gitignore_text, julia_project_text, main_text, readme_text, render_lines,
};

fn text_lines(doc: &str) -> Vec<String> {
    split_lines(doc).into_iter().map(|l| l.into_iter().collect()).collect()
}

#[test]
fn lines_split_at_line_feeds() {
    assert_eq!(text_lines("a\nb\n"), vec!["a", "b"]);
    assert_eq!(text_lines("a\nb"), vec!["a", "b"]);
    assert_eq!(text_lines(""), Vec::<String>::new());
    assert_eq!(text_lines("\n"), vec![""]);
    assert_eq!(text_lines("\n\nx"), vec!["", "", "x"]);
}

#[test]
fn lines_drop_carriage_return_before_line_feed() {
    assert_eq!(text_lines("a\r\nb\r\n"), vec!["a", "b"]);
    assert_eq!(text_lines("a\r\r\nb"), vec!["a\r", "b"]);
    assert_eq!(text_lines("a\rb\n"), vec!["a\rb"]);
    assert_eq!(text_lines("a\nb\r"), vec!["a", "b\r"]);
}

#[test]
fn lines_agree_with_std() {
    for doc in ["", "x", "x\n", "\r\n", "a\r\nb\nc\r", "\n\n", "one\ntwo\n\nthree", "\r"] {
        let expected: Vec<String> = doc.lines().map(|l| l.to_string()).collect();
        assert_eq!(text_lines(doc), expected, "{:?}", doc);
    }
}

#[test]
fn rendered_lines_end_in_line_feeds() {
    assert_eq!(render_lines(&vec!["a".to_string(), "".to_string(), "b".to_string()]), "a\n\nb\n");
    assert_eq!(render_lines(&vec![]), "");
}

#[test]
fn rendered_lines_are_read_back() {
    let ls = vec!["# t".to_string(), "".to_string(), "x y".to_string()];
    assert_eq!(text_lines(&render_lines(&ls)), ls);
}

#[test]
fn excerpt_stops_before_next_section() {
    let doc = "# Tool\n\nintro\n## Directory structure\n\n- a\n- b\n## Next\nmore\n";
    assert_eq!(excerpt_directory_section(doc), "## Directory structure\n\n- a\n- b\n");
}

#[test]
fn excerpt_runs_to_end_of_document() {
    let doc = "# Tool\n## Usage\nuse it\n## Directory structure\n- a\n\n- b";
    assert_eq!(excerpt_directory_section(doc), "## Directory structure\n- a\n\n- b\n");
}

#[test]
fn excerpt_of_document_without_heading_is_empty() {
    assert_eq!(excerpt_directory_section("# Tool\n## Usage\nuse it\n"), "");
    assert_eq!(excerpt_directory_section(""), "");
    assert_eq!(excerpt_directory_section("## Directory structures\nx\n"), "");
    assert_eq!(excerpt_directory_section("### Directory structure\nx\n"), "");
}

#[test]
fn excerpt_starts_at_first_heading() {
    let doc = "## Directory structure\none\n## Directory structure\ntwo\n";
    assert_eq!(excerpt_directory_section(doc), "## Directory structure\none\n");
}

#[test]
fn excerpt_keeps_deeper_headings_and_near_misses() {
    let doc = "## Directory structure\n### Sub\n##\n##x\n # y\n## z\nafter\n";
    assert_eq!(excerpt_directory_section(doc), "## Directory structure\n### Sub\n##\n##x\n # y\n");
}

#[test]
fn excerpt_heading_alone() {
    assert_eq!(excerpt_directory_section("## Directory structure"), "## Directory structure\n");
    assert_eq!(
        excerpt_directory_section("## Directory structure\n## Next\n"),
        "## Directory structure\n"
    );
}

#[test]
fn excerpt_reads_crlf_documents() {
    let doc = "# T\r\n## Directory structure\r\n- a\r\n## Next\r\n";
    assert_eq!(excerpt_directory_section(doc), "## Directory structure\n- a\n");
}

const STRUCTURE: &str = "## Directory structure\n\n- `src`: source code\n- `raw`: raw data, never edited by hand\n- `results`: figures and tables\n- `paper`: the manuscript\n- `tmp`: scratch space\n- `cache`: intermediate results that can be rebuilt\n- `choices`: notes on the decisions taken\n\n";

#[test]
fn master_document_has_the_section() {
    let master = master_document();
    assert!(master.starts_with("# scaffold\n"));
    assert!(master.ends_with("## License\n\nMIT\n"));
    assert_eq!(excerpt_directory_section(&master), STRUCTURE);
}

#[test]
fn master_section_names_every_directory() {
    let section = excerpt_directory_section(&master_document());
    for dir in ["src", "raw", "results", "paper", "tmp", "cache", "choices"] {
        assert!(section.contains(&format!("- `{}`: ", dir)), "{}", dir);
    }
}

#[test]
fn gitignore_for_python_has_pycache_line() {
    let text = gitignore_text(Some(Language::Python));
    assert_eq!(text, "/tmp/\n/cache/\n__pycache__\n");
    assert!(text.lines().any(|l| l == "__pycache__"));
}

#[test]
fn gitignore_for_others_has_no_pycache_line() {
    for language in [None, Some(Language::Julia)] {
        let text = gitignore_text(language);
        assert_eq!(text, "/tmp/\n/cache/\n\n");
        assert!(!text.lines().any(|l| l == "__pycache__"));
        assert!(!text.contains("__pycache__"));
    }
}

#[test]
fn readme_with_author() {
    let master = "intro\n## Directory structure\n- a\n## End\n";
    let text = readme_text("Bar-baz", &Some("Ada Lovelace".to_string()), "2024-02-29", master);
    assert_eq!(
        text,
        "# Bar-baz\n\nAuthor: Ada Lovelace\nDate: 2024-02-29\n\n## Directory structure\n- a\n"
    );
}

#[test]
fn readme_without_author() {
    let master = "## Directory structure\nlast section";
    let text = readme_text("P", &None, "1999-12-31", master);
    assert_eq!(text, "# P\n\nDate: 1999-12-31\n\n## Directory structure\nlast section\n");
}

#[test]
fn readme_from_master_document() {
    let text = readme_text("Demo", &None, "2020-01-02", &master_document());
    assert_eq!(text, format!("# Demo\n\nDate: 2020-01-02\n\n{}", STRUCTURE));
}

#[test]
fn julia_manifest_with_author() {
    let author =
        Some(AuthorInfo { name: "Ada Lovelace".to_string(), email: "ada@example.org".to_string() });
    let text = julia_project_text("MyCoolProject", "67e55044-10b1-426f-9247-bb680e5fe0c8", &author);
    assert_eq!(
        text,
        "name = \"MyCoolProject\"\nuuid = \"67e55044-10b1-426f-9247-bb680e5fe0c8\"\nauthors = [\"Ada Lovelace <ada@example.org>\"]\nversion = \"0.1.0\"\n"
    );
}

#[test]
fn julia_manifest_without_author() {
    let text = julia_project_text("M", "id", &None);
    assert_eq!(text, "name = \"M\"\nuuid = \"id\"\nauthors = [\"Unknown author\"]\nversion = \"0.1.0\"\n");
}

#[test]
fn environment_definition() {
    let text = environment_text("proj", "/opt/conda");
    assert_eq!(
        text,
        "name: proj\nchannels:\n  - defaults\ndependencies:\n  - python\nprefix: /opt/conda/envs/proj\n"
    );
}

#[test]
fn starter_file_is_a_comment() {
    assert_eq!(main_text(), "# Entry point of the project.\n");
}

#[test]
fn identifier_shape_is_recognised() {
    assert!(looks_like_identifier("67e55044-10b1-426f-9247-bb680e5fe0c8"));
    assert!(looks_like_identifier("00000000-0000-4000-8000-000000000000"));
    assert!(looks_like_identifier("ffffffff-ffff-4fff-bfff-ffffffffffff"));
}

#[test]
fn identifier_shape_is_refused() {
    assert!(!looks_like_identifier(""));
    assert!(!looks_like_identifier("67e55044-10b1-426f-9247-bb680e5fe0c"));
    assert!(!looks_like_identifier("67e55044-10b1-426f-9247-bb680e5fe0c8a"));
    assert!(!looks_like_identifier("67E55044-10B1-426F-9247-BB680E5FE0C8"));
    assert!(!looks_like_identifier("67e55044-10b1-126f-9247-bb680e5fe0c8"));
    assert!(!looks_like_identifier("67e55044-10b1-426f-c247-bb680e5fe0c8"));
    assert!(!looks_like_identifier("67e55044-10b1-426f-7247-bb680e5fe0c8"));
    assert!(!looks_like_identifier("67e55044010b1-426f-9247-bb680e5fe0c8"));
    assert!(!looks_like_identifier("67e55044-10b1-426f-9247-bb680e5fe0g8"));
    assert!(!looks_like_identifier("67e5504-410b1-426f-9247-bb680e5fe0c8"));
    assert!(!looks_like_identifier("67e55044-10b1-426f-9247-bb680e5fe0c\u{e9}"));
}
