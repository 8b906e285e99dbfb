//! What has to be done to create a project, and in which order. The steps
//! themselves (running a command, writing a file) are the caller's work.

use crate::categories::texts;
use crate::config::ConfigAggregate;
use vstd::prelude::*;
use vstd::string::StringExecFns;

verus! {

/// The command line that creates the bare project: a library crate under
/// version control.
pub open spec fn skeleton_command(project_name: Seq<char>) -> Seq<Seq<char>> {
    seq!["cargo"@, "new"@, "--lib"@, project_name, "--vcs"@, "git"@]
}

/// The command that creates the bare project, as a program followed by its
/// arguments. The project name is one argument whatever it holds.
pub fn cargo_new(project_name: &str) -> (command: Vec<String>)
    ensures
        texts(command@) == skeleton_command(project_name@),
{
    let mut command: Vec<String> = Vec::new();
    command.push(String::from_str("cargo"));
    command.push(String::from_str("new"));
    command.push(String::from_str("--lib"));
    command.push(String::from_str(project_name));
    command.push(String::from_str("--vcs"));
    command.push(String::from_str("git"));
    assert(texts(command@) =~= skeleton_command(project_name@));
    command
}

/// The arguments handed to the build and to the bundling of a new project.
pub open spec fn release_arguments() -> Seq<Seq<char>> {
    seq!["--release"@]
}

/// The arguments handed to the build and to the bundling of a new project.
pub fn build_arguments() -> (arguments: Vec<String>)
    ensures
        texts(arguments@) == release_arguments(),
{
    let mut arguments: Vec<String> = Vec::new();
    arguments.push(String::from_str("--release"));
    assert(texts(arguments@) =~= release_arguments());
    arguments
}

/// One step in the creation of a project.
#[derive(Clone, Copy, Debug, PartialEq, Eq, Structural)]
pub enum Step {
    /// Create the directory, its repository and the stub files.
    CreateSkeleton,
    /// Declare the framework and the library type in the manifest.
    UpdateManifest,
    /// Replace the stub library source by the generated one.
    WriteLibrary,
    /// Write the entry point of the standalone application.
    WriteEntryPoint,
    /// Compile the project.
    Build,
    /// Package what was compiled.
    Bundle,
}

/// The steps that create a project, in order: the entry point is written only
/// for a standalone export, and nothing is built where the first build is
/// skipped.
pub open spec fn steps(standalone: bool, skip_first_build: bool) -> Seq<Step> {
    seq![Step::CreateSkeleton, Step::UpdateManifest, Step::WriteLibrary] + (if standalone {
        seq![Step::WriteEntryPoint]
    } else {
        Seq::empty()
    }) + (if skip_first_build {
        Seq::empty()
    } else {
        seq![Step::Build, Step::Bundle]
    })
}

/// Lists the steps that create the configured project. They are taken one
/// after the other; the first that fails ends the work, and what was made up
/// to then stays.
pub fn create_project(config: &ConfigAggregate, skip_first_build: bool) -> (plan: Vec<Step>)
    ensures
        plan@ == steps(config@.standalone is Some, skip_first_build),
{
    let mut plan: Vec<Step> = Vec::new();
    plan.push(Step::CreateSkeleton);
    plan.push(Step::UpdateManifest);
    plan.push(Step::WriteLibrary);
    if config.standalone.is_some() {
        plan.push(Step::WriteEntryPoint);
    }
    if !skip_first_build {
        plan.push(Step::Build);
        plan.push(Step::Bundle);
    }
    assert(plan@ =~= steps(config@.standalone is Some, skip_first_build));
    plan
}

/// The skeleton is made first and the manifest is edited next, whatever was
/// configured; the library source is always written; the entry point is
/// written exactly for a standalone export; and the project is built and then
/// bundled, last of all, exactly where the first build is not skipped.
pub proof fn lemma_steps(standalone: bool, skip_first_build: bool)
    ensures
        steps(standalone, skip_first_build)[0] == Step::CreateSkeleton,
        steps(standalone, skip_first_build)[1] == Step::UpdateManifest,
        steps(standalone, skip_first_build)[2] == Step::WriteLibrary,
        steps(standalone, skip_first_build).contains(Step::WriteEntryPoint) <==> standalone,
        steps(standalone, skip_first_build).contains(Step::Build) <==> !skip_first_build,
        steps(standalone, skip_first_build).contains(Step::Bundle) <==> !skip_first_build,
        !skip_first_build ==> steps(standalone, skip_first_build).last() == Step::Bundle,
{
    let plan = steps(standalone, skip_first_build);
    let head = seq![Step::CreateSkeleton, Step::UpdateManifest, Step::WriteLibrary];
    assert(plan.len() >= 3);
    assert(plan[0] == head[0] && plan[1] == head[1] && plan[2] == head[2]);
    if standalone {
        assert(plan[3] == Step::WriteEntryPoint);
    }
    if !skip_first_build {
        let n = plan.len() as int;
        assert(plan[n - 2] == Step::Build);
        assert(plan[n - 1] == Step::Bundle);
    }
}

} // verus!
