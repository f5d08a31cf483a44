//! The assembly engine's decisions. The caller performs each action (create the
//! staging directory, create one link, run the metadata generator, swap the export
//! link) and reports what happened; the engine answers with the next action.
use vstd::prelude::*;

use crate::errors::RepoError;
use crate::keys::last_component;
use crate::package::RpmModel;
use crate::db::{available_in, packages_wf};
use crate::tag::{lemma_link_names_distinct, link_name_of, plan_matches, AssemblyPlan};
use crate::config::Config;

verus! {

/// Where an assembly stands.
#[derive(Clone, Copy, Debug, PartialEq, Eq, Structural)]
pub enum AssemblyStep {
    /// Waiting for the staging directory to be created.
    Staging,
    /// Waiting for the link of the package at this index.
    Linking(usize),
    /// Waiting for the metadata generator.
    Generating,
    /// Waiting for the export link to be swapped.
    Installing,
    /// Finished successfully.
    Done,
    /// Finished with this error.
    Failed(RepoError),
}

/// What the caller observed after performing an action.
#[derive(Clone, Copy, Debug, PartialEq, Eq, Structural)]
pub enum AssemblyEvent {
    /// The staging directory was created.
    StagingCreated,
    /// The staging directory already existed.
    StagingExists,
    /// The requested link was created.
    Linked,
    /// The generator exited; `true` when it succeeded.
    GeneratorExited(bool),
    /// The export link now points at the staging directory.
    Installed,
    /// A filesystem or process operation failed.
    IoFailed,
}

/// What the caller is to do next.
#[derive(Clone, Copy, Debug, PartialEq, Eq, Structural)]
pub enum AssemblyAction {
    /// Create the staging directory, failing if it exists.
    CreateStaging,
    /// Link the package at this index of the plan into the staging directory.
    Link(usize),
    /// Run the metadata generator on the staging directory.
    RunGenerator,
    /// Replace the export path by a link to the staging directory.
    InstallExport,
    /// Stop: the assembly succeeded.
    Succeed,
    /// Stop: the assembly failed with this error.
    Fail(RepoError),
}

/// The next step and action, from step `step` of an assembly of `n` packages, on
/// event `ev`.
pub open spec fn transition(step: AssemblyStep, n: nat, ev: AssemblyEvent) -> (AssemblyStep, AssemblyAction) {
    match step {
        AssemblyStep::Done => (AssemblyStep::Done, AssemblyAction::Succeed),
        AssemblyStep::Failed(e) => (AssemblyStep::Failed(e), AssemblyAction::Fail(e)),
        AssemblyStep::Staging => match ev {
            AssemblyEvent::StagingCreated => if n == 0 {
                (AssemblyStep::Generating, AssemblyAction::RunGenerator)
            } else {
                (AssemblyStep::Linking(0), AssemblyAction::Link(0))
            },
            AssemblyEvent::StagingExists => (
                AssemblyStep::Failed(RepoError::Conflict),
                AssemblyAction::Fail(RepoError::Conflict),
            ),
            _ => (AssemblyStep::Failed(RepoError::Io), AssemblyAction::Fail(RepoError::Io)),
        },
        AssemblyStep::Linking(i) => match ev {
            AssemblyEvent::Linked => if i + 1 < n {
                (AssemblyStep::Linking((i + 1) as usize), AssemblyAction::Link((i + 1) as usize))
            } else {
                (AssemblyStep::Generating, AssemblyAction::RunGenerator)
            },
            _ => (AssemblyStep::Failed(RepoError::Io), AssemblyAction::Fail(RepoError::Io)),
        },
        AssemblyStep::Generating => match ev {
            AssemblyEvent::GeneratorExited(true) => (
                AssemblyStep::Installing,
                AssemblyAction::InstallExport,
            ),
            AssemblyEvent::GeneratorExited(false) => (
                AssemblyStep::Failed(RepoError::GeneratorFailed),
                AssemblyAction::Fail(RepoError::GeneratorFailed),
            ),
            _ => (AssemblyStep::Failed(RepoError::Io), AssemblyAction::Fail(RepoError::Io)),
        },
        AssemblyStep::Installing => match ev {
            AssemblyEvent::Installed => (AssemblyStep::Done, AssemblyAction::Succeed),
            _ => (AssemblyStep::Failed(RepoError::Io), AssemblyAction::Fail(RepoError::Io)),
        },
    }
}

/// An assembly in progress.
pub struct Assembly {
    pub plan: AssemblyPlan,
    pub step: AssemblyStep,
}

impl Assembly {
    /// The assembly of `plan`, and its first action: create the staging directory.
    pub fn start(plan: AssemblyPlan) -> (r: (Assembly, AssemblyAction))
        ensures
            r.0.plan == plan,
            r.0.step == AssemblyStep::Staging,
            r.1 == AssemblyAction::CreateStaging,
    {
        (Assembly { plan, step: AssemblyStep::Staging }, AssemblyAction::CreateStaging)
    }

    /// Takes in what happened, and answers with the next action.
    pub fn on_event(&mut self, ev: AssemblyEvent) -> (r: AssemblyAction)
        requires
            old(self).step matches AssemblyStep::Linking(i) ==> i < old(self).plan.links@.len(),
        ensures
            final(self).plan == old(self).plan,
            (final(self).step, r) == transition(old(self).step, old(self).plan.links@.len(), ev),
            final(self).step matches AssemblyStep::Linking(i) ==> i < final(self).plan.links@.len(),
    {
        let n = self.plan.links.len();
        let (step, action) = match self.step {
            AssemblyStep::Done => (AssemblyStep::Done, AssemblyAction::Succeed),
            AssemblyStep::Failed(e) => (AssemblyStep::Failed(e), AssemblyAction::Fail(e)),
            AssemblyStep::Staging => match ev {
                AssemblyEvent::StagingCreated => if n == 0 {
                    (AssemblyStep::Generating, AssemblyAction::RunGenerator)
                } else {
                    (AssemblyStep::Linking(0), AssemblyAction::Link(0))
                },
                AssemblyEvent::StagingExists => (
                    AssemblyStep::Failed(RepoError::Conflict),
                    AssemblyAction::Fail(RepoError::Conflict),
                ),
                _ => (AssemblyStep::Failed(RepoError::Io), AssemblyAction::Fail(RepoError::Io)),
            },
            AssemblyStep::Linking(i) => match ev {
                AssemblyEvent::Linked => if i + 1 < n {
                    (AssemblyStep::Linking(i + 1), AssemblyAction::Link(i + 1))
                } else {
                    (AssemblyStep::Generating, AssemblyAction::RunGenerator)
                },
                _ => (AssemblyStep::Failed(RepoError::Io), AssemblyAction::Fail(RepoError::Io)),
            },
            AssemblyStep::Generating => match ev {
                AssemblyEvent::GeneratorExited(true) => (
                    AssemblyStep::Installing,
                    AssemblyAction::InstallExport,
                ),
                AssemblyEvent::GeneratorExited(false) => (
                    AssemblyStep::Failed(RepoError::GeneratorFailed),
                    AssemblyAction::Fail(RepoError::GeneratorFailed),
                ),
                _ => (AssemblyStep::Failed(RepoError::Io), AssemblyAction::Fail(RepoError::Io)),
            },
            AssemblyStep::Installing => match ev {
                AssemblyEvent::Installed => (AssemblyStep::Done, AssemblyAction::Succeed),
                _ => (AssemblyStep::Failed(RepoError::Io), AssemblyAction::Fail(RepoError::Io)),
            },
        };
        self.step = step;
        action
    }
}

/// The generator runs only once every link is in place, and the export link is
/// swapped only after the generator succeeded.
pub proof fn lemma_assembly_order(step: AssemblyStep, n: nat, ev: AssemblyEvent)
    ensures
        transition(step, n, ev).1 == AssemblyAction::RunGenerator ==> (step
            == AssemblyStep::Staging && ev == AssemblyEvent::StagingCreated && n == 0) || (
        step matches AssemblyStep::Linking(i) && i + 1 >= n && ev == AssemblyEvent::Linked),
        transition(step, n, ev).1 == AssemblyAction::InstallExport ==> step
            == AssemblyStep::Generating && ev == AssemblyEvent::GeneratorExited(true),
        transition(step, n, ev).1 == AssemblyAction::Succeed ==> step
            == AssemblyStep::Done || (step == AssemblyStep::Installing && ev
            == AssemblyEvent::Installed),
        transition(step, n, ev).1 matches AssemblyAction::Link(j) ==> (j == 0 && step
            == AssemblyStep::Staging) || (step matches AssemblyStep::Linking(i) && j == (i + 1) as usize),
{
}

/// An assembly materializes exactly one file per package available in its tag when
/// it starts: one link per package, and no two links with the same name.
pub proof fn lemma_one_file_per_package(
    plan: AssemblyPlan,
    tag: Seq<char>,
    s: Seq<RpmModel>,
    config: Config,
)
    requires
        packages_wf(s),
        plan_matches(plan, tag, available_in(s, tag), config),
    ensures
        plan.links@.len() == available_in(s, tag).len(),
        forall|i: int, j: int|
            0 <= i < plan.links@.len() && 0 <= j < plan.links@.len() && i != j
                ==> (#[trigger] plan.links@[i]).link_name@ != (#[trigger] plan.links@[j]).link_name@,
{
    lemma_link_names_distinct(s, tag);
    let f = available_in(s, tag);
    assert forall|i: int, j: int|
        0 <= i < plan.links@.len() && 0 <= j < plan.links@.len() && i != j implies (
        #[trigger] plan.links@[i]).link_name@ != (#[trigger] plan.links@[j]).link_name@ by {
        assert(plan.links@[i].link_name@ == link_name_of(f[i]));
        assert(plan.links@[j].link_name@ == link_name_of(f[j]));
    }
}

/// The compose logged by an assembly lists exactly the packages linked into its
/// staging directory: the `i`-th compose entry and the `i`-th link name the same
/// package, and the link is `<id>-<file name of the object key>`.
pub proof fn lemma_compose_matches_staging(
    plan: AssemblyPlan,
    tag: Seq<char>,
    pkgs: Seq<RpmModel>,
    config: Config,
)
    requires
        plan_matches(plan, tag, pkgs, config),
    ensures
        plan.compose@.packages.len() == plan.links@.len(),
        forall|i: int|
            0 <= i < plan.links@.len() ==> (#[trigger] plan.links@[i]).link_name@
                == plan.compose@.packages[i].id + seq!['-'] + last_component(
                plan.compose@.packages[i].object_key,
            ) && plan.links@[i].object_key@ == plan.compose@.packages[i].object_key,
{
    assert forall|i: int| 0 <= i < plan.links@.len() implies (#[trigger] plan.links@[i]).link_name@
        == plan.compose@.packages[i].id + seq!['-'] + last_component(
        plan.compose@.packages[i].object_key,
    ) && plan.links@[i].object_key@ == plan.compose@.packages[i].object_key by {
        assert(plan.links@[i].link_name@ == link_name_of(pkgs[i]));
    }
}

} // verus!
