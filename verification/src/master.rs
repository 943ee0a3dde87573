//! The master document: the tool's own description, of which every new
//! project's README repeats the section on the directory structure.

use vstd::prelude::*;
use crate::excerpt::{
    directory_section, heading, is_plain_line, lemma_lines_of_unlines, lemma_section_between,
    opens_section, unlines,
};
use crate::templates::render_lines;
use crate::text::text_views;

verus! {

/// The lines that open the master document, up to the section on the
/// directory structure.
pub open spec fn opening_lines() -> Seq<Seq<char>> {
    seq![
        "# scaffold"@,
        ""@,
        "Sets up the directory of a new research project."@,
        ""@,
        "## Usage"@,
        ""@,
        "    scaffold [-l <python|julia>] [-n <NAME>] <DIRNAME>"@,
        ""@,
    ]
}

/// The section on the directory structure.
pub open spec fn structure_lines() -> Seq<Seq<char>> {
    seq![
        "## Directory structure"@,
        ""@,
        "- `src`: source code"@,
        "- `raw`: raw data, never edited by hand"@,
        "- `results`: figures and tables"@,
        "- `paper`: the manuscript"@,
        "- `tmp`: scratch space"@,
        "- `cache`: intermediate results that can be rebuilt"@,
        "- `choices`: notes on the decisions taken"@,
        ""@,
    ]
}

/// The lines that close the master document.
pub open spec fn closing_lines() -> Seq<Seq<char>> {
    seq!["## License"@, ""@, "MIT"@]
}

/// The lines of the master document.
pub open spec fn master_lines() -> Seq<Seq<char>> {
    opening_lines() + structure_lines() + closing_lines()
}

/// The master document.
pub fn master_document() -> (out: String)
    ensures
        out@ == unlines(master_lines()),
{
    let mut ls: Vec<String> = Vec::new();
    ls.push("# scaffold".to_owned());
    ls.push("".to_owned());
    ls.push("Sets up the directory of a new research project.".to_owned());
    ls.push("".to_owned());
    ls.push("## Usage".to_owned());
    ls.push("".to_owned());
    ls.push("    scaffold [-l <python|julia>] [-n <NAME>] <DIRNAME>".to_owned());
    ls.push("".to_owned());
    ls.push("## Directory structure".to_owned());
    ls.push("".to_owned());
    ls.push("- `src`: source code".to_owned());
    ls.push("- `raw`: raw data, never edited by hand".to_owned());
    ls.push("- `results`: figures and tables".to_owned());
    ls.push("- `paper`: the manuscript".to_owned());
    ls.push("- `tmp`: scratch space".to_owned());
    ls.push("- `cache`: intermediate results that can be rebuilt".to_owned());
    ls.push("- `choices`: notes on the decisions taken".to_owned());
    ls.push("".to_owned());
    ls.push("## License".to_owned());
    ls.push("".to_owned());
    ls.push("MIT".to_owned());
    assert(text_views(ls@) =~= master_lines());
    render_lines(&ls)
}

/// The lines that open the master document can stand in it as they are, and
/// none of them is the heading of the section on the directory structure.
proof fn lemma_opening_lines()
    ensures
        forall|i: int|
            0 <= i < opening_lines().len() ==> is_plain_line(#[trigger] opening_lines()[i])
                && opening_lines()[i] != heading(),
{
    reveal_strlit("# scaffold");
    reveal_strlit("");
    reveal_strlit("Sets up the directory of a new research project.");
    reveal_strlit("## Usage");
    reveal_strlit("    scaffold [-l <python|julia>] [-n <NAME>] <DIRNAME>");
    reveal_strlit("## Directory structure");
    assert(is_plain_line("# scaffold"@));
    assert(is_plain_line(""@));
    assert(is_plain_line("Sets up the directory of a new research project."@));
    assert(is_plain_line("## Usage"@));
    assert(is_plain_line("    scaffold [-l <python|julia>] [-n <NAME>] <DIRNAME>"@));
    assert forall|i: int| 0 <= i < opening_lines().len() implies opening_lines()[i]
        != heading() by {
        assert(opening_lines()[i].len() != heading().len());
    }
}

/// The lines of the section can stand in the master document as they are, and
/// none but the first opens a section.
proof fn lemma_structure_lines()
    ensures
        structure_lines()[0] == heading(),
        forall|i: int|
            0 <= i < structure_lines().len() ==> is_plain_line(#[trigger] structure_lines()[i]),
        forall|i: int|
            1 <= i < structure_lines().len() ==> !opens_section(#[trigger] structure_lines()[i]),
{
    reveal_strlit("## Directory structure");
    reveal_strlit("");
    reveal_strlit("- `src`: source code");
    reveal_strlit("- `raw`: raw data, never edited by hand");
    reveal_strlit("- `results`: figures and tables");
    reveal_strlit("- `paper`: the manuscript");
    reveal_strlit("- `tmp`: scratch space");
    reveal_strlit("- `cache`: intermediate results that can be rebuilt");
    reveal_strlit("- `choices`: notes on the decisions taken");
    assert(is_plain_line("## Directory structure"@));
    assert(is_plain_line(""@));
    assert(is_plain_line("- `src`: source code"@));
    assert(is_plain_line("- `raw`: raw data, never edited by hand"@));
    assert(is_plain_line("- `results`: figures and tables"@));
    assert(is_plain_line("- `paper`: the manuscript"@));
    assert(is_plain_line("- `tmp`: scratch space"@));
    assert(is_plain_line("- `cache`: intermediate results that can be rebuilt"@));
    assert(is_plain_line("- `choices`: notes on the decisions taken"@));
}

/// The lines that close the master document can stand in it as they are, and
/// the first of them opens a section.
proof fn lemma_closing_lines()
    ensures
        opens_section(closing_lines()[0]),
        forall|i: int|
            0 <= i < closing_lines().len() ==> is_plain_line(#[trigger] closing_lines()[i]),
{
    reveal_strlit("## License");
    reveal_strlit("");
    reveal_strlit("MIT");
    assert(is_plain_line("## License"@));
    assert(is_plain_line(""@));
    assert(is_plain_line("MIT"@));
}

/// The section that a README takes from the master document is the one on
/// the directory structure, whole and nothing else.
pub proof fn lemma_master_section()
    ensures
        directory_section(unlines(master_lines())) == unlines(structure_lines()),
{
    lemma_opening_lines();
    lemma_structure_lines();
    lemma_closing_lines();
    let ls = master_lines();
    assert forall|i: int| 0 <= i < ls.len() implies is_plain_line(#[trigger] ls[i]) by {
        if i < 8 {
            assert(ls[i] == opening_lines()[i]);
        } else if i < 18 {
            assert(ls[i] == structure_lines()[i - 8]);
        } else {
            assert(ls[i] == closing_lines()[i - 18]);
        }
    }
    lemma_lines_of_unlines(ls);
    assert(ls[8] == structure_lines()[0]);
    assert forall|k: int| 0 <= k < 8 implies #[trigger] ls[k] != heading() by {
        assert(ls[k] == opening_lines()[k]);
    }
    assert forall|k: int| 8 < k < 18 implies !opens_section(#[trigger] ls[k]) by {
        assert(ls[k] == structure_lines()[k - 8]);
    }
    assert(ls[18] == closing_lines()[0]);
    lemma_section_between(ls, 8, 18);
    assert(ls.subrange(8, 18) =~= structure_lines());
}

} // verus!
