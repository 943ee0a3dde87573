//! What a new project is made from.

use vstd::prelude::*;

verus! {

/// The programming language a project is set up for.
#[derive(Clone, Copy, Debug, PartialEq, Eq, Hash, Structural)]
pub enum Language {
    Python,
    Julia,
}

/// The author as the user's global version-control configuration names them.
#[derive(Clone, Debug)]
pub struct AuthorInfo {
    pub name: String,
    pub email: String,
}

/// A project to set up: its name, which is never empty, and the language it
/// is written in, if one was chosen.
#[derive(Debug)]
pub struct ProjectSpec {
    name: String,
    language: Option<Language>,
}

impl Clone for ProjectSpec {
    fn clone(&self) -> (out: Self)
        ensures
            out.name_view() == self.name_view(),
            out.language_view() == self.language_view(),
    {
        proof {
            use_type_invariant(self);
        }
        ProjectSpec { name: self.name.clone(), language: self.language }
    }
}

impl ProjectSpec {
    #[verifier::type_invariant]
    spec fn well_formed(&self) -> bool {
        self.name@.len() > 0
    }

    /// The project's name.
    pub closed spec fn name_view(&self) -> Seq<char> {
        self.name@
    }

    /// The project's language.
    pub closed spec fn language_view(&self) -> Option<Language> {
        self.language
    }

    /// A project of the given name, unless the name is empty.
    pub fn new(name: &str, language: Option<Language>) -> (out: Option<ProjectSpec>)
        ensures
            out is Some <==> name@.len() > 0,
            out is Some ==> out->Some_0.name_view() == name@ && out->Some_0.language_view()
                == language,
    {
        if name.unicode_len() == 0 {
            None
        } else {
            Some(ProjectSpec { name: name.to_owned(), language })
        }
    }

    /// The project's name.
    pub fn name(&self) -> (out: &str)
        ensures
            out@ == self.name_view(),
            out@.len() > 0,
    {
        proof {
            use_type_invariant(self);
        }
        self.name.as_str()
    }

    /// The project's language.
    pub fn language(&self) -> (out: Option<Language>)
        ensures
            out == self.language_view(),
    {
        self.language
    }
}

} // verus!
