//! What becomes of a run when a step fails, and what holds of every run.

use vstd::prelude::*;
use crate::plan::{creates_directory, lemma_plan_directories, plan, step_views, Step, StepView};
use crate::project::Language;
use crate::text::{join3, view_of};

verus! {

/// Whether the failure of a step ends the run. Directories, the repository
/// and every file are needed; a warning cannot fail, and a run goes on
/// without the environment.
pub open spec fn is_fatal(step: StepView) -> bool {
    step is CreateRoot || step is CreateDir || step is InitRepository || step is WriteFile
}

/// What to do once a step has been attempted.
#[derive(Clone, Copy, Debug, PartialEq, Eq, Structural)]
pub enum Verdict {
    /// Go on with the next step.
    Proceed,
    /// Stop at once; nothing that was done is undone.
    Abort,
}

/// Whether the step at `i` succeeds, where `outcomes[i]` says so for the step
/// at `i`. A step without an outcome succeeds.
pub open spec fn succeeds(outcomes: Seq<bool>, i: int) -> bool {
    !(0 <= i < outcomes.len()) || outcomes[i]
}

/// Whether the run ends with the step at `i`: the step fails and its failure
/// is fatal.
pub open spec fn stops_at(steps: Seq<StepView>, outcomes: Seq<bool>, i: int) -> bool {
    0 <= i < steps.len() && is_fatal(steps[i]) && !succeeds(outcomes, i)
}

/// Number of steps attempted by a run that has reached the step at `from`.
pub open spec fn attempted_from(steps: Seq<StepView>, outcomes: Seq<bool>, from: nat) -> nat
    decreases steps.len() - from,
{
    if from >= steps.len() {
        steps.len()
    } else if stops_at(steps, outcomes, from as int) {
        from + 1
    } else {
        attempted_from(steps, outcomes, from + 1)
    }
}

/// Number of steps that a run attempts: all of them, or those up to the
/// first whose failure is fatal.
pub open spec fn attempted(steps: Seq<StepView>, outcomes: Seq<bool>) -> nat {
    attempted_from(steps, outcomes, 0)
}

/// What the user is told when a step fails. For a step on a path the text
/// is followed by that path.
pub open spec fn failure_text(step: StepView) -> Seq<char> {
    match step {
        StepView::CreateRoot => "Error when creating main project directory:"@,
        StepView::CreateDir { .. } => "Error when creating sub-directory:"@,
        StepView::InitRepository => "Error when initializing git repo:"@,
        StepView::WriteFile { .. } => "Error when creating file"@,
        StepView::CreateEnvironment { name } => "Warning: Could not create Conda environment \""@
            + name + "\""@,
        StepView::Warn { .. } => Seq::<char>::empty(),
    }
}

/// What the user is told when a step succeeds, for the one kind of step of
/// which anything is said.
pub open spec fn success_text(step: StepView) -> Option<Seq<char>> {
    match step {
        StepView::CreateEnvironment { name } => Some(
            "Created Conda environment \""@ + name + "\""@,
        ),
        _ => None,
    }
}

impl Step {
    /// Whether the failure of this step ends the run.
    pub fn fatal(&self) -> (out: bool)
        ensures
            out == is_fatal(self@),
    {
        match self {
            Step::CreateRoot => true,
            Step::CreateDir { .. } => true,
            Step::InitRepository => true,
            Step::WriteFile { .. } => true,
            Step::Warn { .. } => false,
            Step::CreateEnvironment { .. } => false,
        }
    }

    /// What the user is told when this step fails.
    pub fn failure_message(&self) -> (out: String)
        ensures
            out@ == failure_text(self@),
    {
        match self {
            Step::CreateRoot => "Error when creating main project directory:".to_owned(),
            Step::CreateDir { .. } => "Error when creating sub-directory:".to_owned(),
            Step::InitRepository => "Error when initializing git repo:".to_owned(),
            Step::WriteFile { .. } => "Error when creating file".to_owned(),
            Step::CreateEnvironment { name } => join3(
                "Warning: Could not create Conda environment \"",
                name.as_str(),
                "\"",
            ),
            Step::Warn { .. } => String::new(),
        }
    }

    /// What the user is told when this step succeeds, if anything.
    pub fn success_message(&self) -> (out: Option<String>)
        ensures
            view_of(out) == success_text(self@),
    {
        match self {
            Step::CreateEnvironment { name } => Some(
                join3("Created Conda environment \"", name.as_str(), "\""),
            ),
            _ => None,
        }
    }
}

/// What to do after `step` was attempted: stop where it failed and its
/// failure is fatal, go on otherwise.
pub fn decide(step: &Step, succeeded: bool) -> (out: Verdict)
    ensures
        out == Verdict::Abort <==> (!succeeded && is_fatal(step@)),
{
    if !succeeded && step.fatal() {
        Verdict::Abort
    } else {
        Verdict::Proceed
    }
}

/// Number of steps that a run with the given outcomes attempts.
pub fn steps_attempted(steps: &Vec<Step>, outcomes: &Vec<bool>) -> (out: usize)
    ensures
        out == attempted(step_views(steps@), outcomes@),
{
    let ghost views = step_views(steps@);
    let mut i: usize = 0;
    while i < steps.len()
        invariant
            i <= steps.len(),
            views == step_views(steps@),
            attempted(views, outcomes@) == attempted_from(views, outcomes@, i as nat),
        decreases steps.len() - i,
    {
        let succeeded = i >= outcomes.len() || outcomes[i];
        assert(views[i as int] == steps[i as int]@);
        match decide(&steps[i], succeeded) {
            Verdict::Abort => {
                return i + 1;
            },
            Verdict::Proceed => {},
        }
        i += 1;
    }
    i
}

/// A run attempts at least one step of a plan that has any, never more than
/// there are, stops behind the first fatal failure and nowhere else.
pub proof fn lemma_attempted(steps: Seq<StepView>, outcomes: Seq<bool>, from: nat)
    requires
        from <= steps.len(),
    ensures
        from <= attempted_from(steps, outcomes, from) <= steps.len(),
        from < steps.len() ==> from < attempted_from(steps, outcomes, from),
        forall|i: int|
            from <= i < attempted_from(steps, outcomes, from) - 1 ==> !stops_at(steps, outcomes, i),
        attempted_from(steps, outcomes, from) < steps.len() ==> stops_at(
            steps,
            outcomes,
            attempted_from(steps, outcomes, from) - 1,
        ),
    decreases steps.len() - from,
{
    if from < steps.len() && !stops_at(steps, outcomes, from as int) {
        lemma_attempted(steps, outcomes, from + 1);
    }
}

/// A run that cannot create the root, as when the target path exists
/// already, ends with that step: it attempts nothing else and writes no
/// file.
pub proof fn lemma_existing_root_stops_run(
    name: Seq<char>,
    language: Option<Language>,
    author: Option<(Seq<char>, Seq<char>)>,
    prefix: Option<Seq<char>>,
    date: Seq<char>,
    identifier: Seq<char>,
    outcomes: Seq<bool>,
)
    requires
        !succeeds(outcomes, 0),
    ensures
        plan(name, language, author, prefix, date, identifier)[0] == StepView::CreateRoot,
        stops_at(plan(name, language, author, prefix, date, identifier), outcomes, 0),
        attempted(plan(name, language, author, prefix, date, identifier), outcomes) == 1,
{
}

/// A run writes a file only after it has created the root and every
/// directory under it.
pub proof fn lemma_files_follow_directories(
    name: Seq<char>,
    language: Option<Language>,
    author: Option<(Seq<char>, Seq<char>)>,
    prefix: Option<Seq<char>>,
    date: Seq<char>,
    identifier: Seq<char>,
    outcomes: Seq<bool>,
    i: int,
)
    requires
        0 <= i < attempted(plan(name, language, author, prefix, date, identifier), outcomes),
        plan(name, language, author, prefix, date, identifier)[i] is WriteFile,
    ensures
        i >= 8,
        forall|k: int| 0 <= k < 8 ==> succeeds(outcomes, k),
{
    let steps = plan(name, language, author, prefix, date, identifier);
    lemma_plan_directories(name, language, author, prefix, date, identifier);
    lemma_attempted(steps, outcomes, 0);
    assert forall|k: int| 0 <= k < 8 implies succeeds(outcomes, k) by {
        assert(steps[k] == steps.take(8)[k]);
        assert(creates_directory(steps[k]));
        assert(!stops_at(steps, outcomes, k));
    }
    if i < 8 {
        assert(steps[i] == steps.take(8)[i]);
    }
}

/// Only a failure that is fatal cuts a run short: where no step fails, or
/// none but the creation of the environment, all steps are attempted.
pub proof fn lemma_minor_failures(steps: Seq<StepView>, outcomes: Seq<bool>)
    requires
        forall|i: int| 0 <= i < steps.len() && !succeeds(outcomes, i) ==> !is_fatal(steps[i]),
    ensures
        attempted(steps, outcomes) == steps.len(),
{
    lemma_attempted(steps, outcomes, 0);
}

} // verus!
