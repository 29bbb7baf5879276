//! Building and running the post-build script.
//!
//! The engine does not run anything itself. This file holds what it decides:
//! whether a command of the build tool calls for the script at all, how the
//! package of the script is built, where the built script is, what follows
//! each step, and with which code the whole run ends.

use vstd::prelude::*;
use crate::context::{ContextView, ResolvedContext, Target};
use crate::environment::{environment_of, EnvironmentContract};
use crate::manifest::{
    dependencies_model, ephemeral_manifest_of, ephemeral_package, script_manifest_path_of,
    script_package_dir_of, script_path, script_path_of, EphemeralPackage, ManifestError,
    ManifestFault,
};
use crate::paths::{join_path, path_join};
use crate::text::same_text;

verus! {

/// When the post-build script runs for a command of the build tool.
#[derive(Clone, Copy, Debug, PartialEq, Eq, Structural)]
pub enum BuildScriptCall {
    /// Not at all: the command builds nothing.
    NoCall,
    /// After the command: the command builds and does nothing more.
    AfterCommand,
    /// Between the two halves of the command: the command builds and then
    /// runs what it built, and the script runs after the one and before the
    /// other.
    InBetween,
}

/// Why a command of the build tool is refused.
#[derive(Clone, Copy, Debug, PartialEq, Eq, Structural)]
pub enum CommandError {
    /// The command is known, but the engine cannot wrap it.
    Unsupported,
    /// The command is not known.
    Unknown,
}

/// When the script runs for `command`; without a command it does not run.
pub open spec fn call_for(command: Option<Seq<char>>) -> Result<BuildScriptCall, CommandError> {
    match command {
        None => Ok(BuildScriptCall::NoCall),
        Some(name) => if name == "b"@ || name == "build"@ || name == "xbuild"@ {
            Ok(BuildScriptCall::AfterCommand)
        } else if name == "c"@ || name == "check"@ || name == "clean"@ || name == "doc"@ || name
            == "new"@ || name == "init"@ || name == "update"@ || name == "search"@ || name
            == "uninstall"@ {
            Ok(BuildScriptCall::NoCall)
        } else if name == "run"@ || name == "test"@ {
            Ok(BuildScriptCall::InBetween)
        } else if name == "bench"@ || name == "publish"@ || name == "install"@ {
            Err(CommandError::Unsupported)
        } else {
            Err(CommandError::Unknown)
        },
    }
}

/// Decides when the script runs for a command of the build tool.
pub fn classify_command(command: Option<&str>) -> (call: Result<BuildScriptCall, CommandError>)
    ensures
        call == call_for(
            match command {
                Some(name) => Some(name@),
                None => None,
            },
        ),
{
    let name: &str = match command {
        Some(name) => name,
        None => {
            return Ok(BuildScriptCall::NoCall);
        },
    };
    if same_text(name, "b") || same_text(name, "build") || same_text(name, "xbuild") {
        Ok(BuildScriptCall::AfterCommand)
    } else if same_text(name, "c") || same_text(name, "check") || same_text(name, "clean")
        || same_text(name, "doc") || same_text(name, "new") || same_text(name, "init")
        || same_text(name, "update") || same_text(name, "search") || same_text(
        name,
        "uninstall",
    ) {
        Ok(BuildScriptCall::NoCall)
    } else if same_text(name, "run") || same_text(name, "test") {
        Ok(BuildScriptCall::InBetween)
    } else if same_text(name, "bench") || same_text(name, "publish") || same_text(
        name,
        "install",
    ) {
        Err(CommandError::Unsupported)
    } else {
        Err(CommandError::Unknown)
    }
}

/// Whether a build is for another target than the host, so that the script,
/// which runs on the host, must be built for the host by name.
pub open spec fn target_mismatch(triple: Option<Seq<char>>, host: Seq<char>) -> bool {
    match triple {
        Some(triple) => triple != host,
        None => false,
    }
}

/// Tells whether a build is for another target than the host.
pub fn is_target_mismatch(triple: Option<&str>, host: &str) -> (mismatch: bool)
    ensures
        mismatch == target_mismatch(
            match triple {
                Some(name) => Some(name@),
                None => None,
            },
            host@,
        ),
{
    match triple {
        Some(triple) => !same_text(triple, host),
        None => false,
    }
}

/// The arguments with which the build tool builds the package of the script:
/// a build of the manifest at `manifest_path`, for the host by name if
/// `mismatch` says that the outer build was for another target.
pub open spec fn script_build_arguments_of(
    manifest_path: Seq<char>,
    host: Seq<char>,
    mismatch: bool,
) -> Seq<Seq<char>> {
    if mismatch {
        seq!["build"@, "--manifest-path"@, manifest_path, "--target"@, host]
    } else {
        seq!["build"@, "--manifest-path"@, manifest_path]
    }
}

/// Lists the arguments with which the build tool builds the package of the
/// script.
pub fn script_build_arguments(manifest_path: &str, host: &str, mismatch: bool) -> (arguments:
    Vec<String>)
    ensures
        arguments.deep_view() == script_build_arguments_of(manifest_path@, host@, mismatch),
{
    let mut arguments: Vec<String> = Vec::new();
    arguments.push("build".to_owned());
    arguments.push("--manifest-path".to_owned());
    arguments.push(manifest_path.to_owned());
    if mismatch {
        arguments.push("--target".to_owned());
        arguments.push(host.to_owned());
    }
    assert(arguments.deep_view() =~= script_build_arguments_of(manifest_path@, host@, mismatch));
    arguments
}

/// Where the built script is: in the target directory of its package, under
/// the host if it was built for the host by name, in the debug profile.
pub open spec fn script_binary_of(package_dir: Seq<char>, host: Seq<char>, mismatch: bool) -> Seq<
    char,
> {
    let target = path_join(package_dir, "target"@);
    let platform = if mismatch {
        path_join(target, host)
    } else {
        target
    };
    path_join(path_join(platform, "debug"@), "post-build-script"@)
}

/// Gives the place of the built script.
pub fn script_binary(package_dir: &str, host: &str, mismatch: bool) -> (binary: String)
    ensures
        binary@ == script_binary_of(package_dir@, host@, mismatch),
{
    let target: String = join_path(package_dir, "target");
    let platform: String = if mismatch {
        join_path(target.as_str(), host)
    } else {
        target
    };
    let profile: String = join_path(platform.as_str(), "debug");
    join_path(profile.as_str(), "post-build-script")
}

/// How a process ended.
#[derive(Clone, Copy, Debug, PartialEq, Eq, Structural)]
pub struct Status {
    /// Whether it succeeded.
    pub success: bool,
    /// Its exit code, if it ended with one.
    pub code: Option<i32>,
}

impl Status {
    /// The code with which the run ends because of this process: none if it
    /// succeeded, else its own code, or 1 if it has none.
    pub open spec fn failure(self) -> Option<i32> {
        if self.success {
            None
        } else {
            match self.code {
                Some(code) => Some(code),
                None => Some(1i32),
            }
        }
    }

    /// The code with which the run ends because of this process, if it does.
    pub fn failure_code(self) -> (code: Option<i32>)
        ensures
            code == self.failure(),
    {
        if self.success {
            None
        } else {
            match self.code {
                Some(code) => Some(code),
                None => Some(1),
            }
        }
    }
}

/// The exit code of a run whose processes ended as `steps` say, from the
/// place `from` on: the code of the first that failed, or 0 if none did.
pub open spec fn exit_code_from(steps: Seq<Status>, from: int) -> i32
    decreases steps.len() - from,
{
    if from < 0 || from >= steps.len() {
        0
    } else {
        match steps[from].failure() {
            Some(code) => code,
            None => exit_code_from(steps, from + 1),
        }
    }
}

/// The exit code of a run whose processes ended as `steps` say, in order.
pub open spec fn exit_code_of(steps: Seq<Status>) -> i32 {
    exit_code_from(steps, 0)
}

/// Works out the exit code of a run from how its processes ended, in order.
pub fn exit_code(steps: &Vec<Status>) -> (code: i32)
    ensures
        code == exit_code_of(steps@),
{
    let mut place: usize = 0;
    while place < steps.len()
        invariant
            place <= steps.len(),
            exit_code_from(steps@, 0) == exit_code_from(steps@, place as int),
        decreases steps.len() - place,
    {
        match steps[place].failure_code() {
            Some(code) => {
                return code;
            },
            None => {},
        }
        place = place + 1;
    }
    0
}

/// What has just happened in a run.
#[derive(Clone, Copy, Debug, PartialEq, Eq, Structural)]
pub enum Event {
    /// The build tool has run the command, or its building half.
    Built(Status),
    /// The post-build script was looked for, and was there or not.
    ScriptLocated(bool),
    /// The package of the script was built.
    ScriptBuilt(Status),
    /// The script has run.
    ScriptExited(Status),
    /// What the command built has run.
    ArtifactExited(Status),
}

/// What a run does next.
#[derive(Clone, Copy, Debug, PartialEq, Eq, Structural)]
pub enum Action {
    /// Resolve the context and look for the post-build script.
    LocateScript,
    /// Write the manifest of the package of the script and build it.
    BuildScript,
    /// Run the built script.
    RunScript,
    /// Run what the command built.
    RunArtifact,
    /// End with this exit code.
    Exit(i32),
}

/// What a run does after a process that succeeded, if it goes on `then`, and
/// the exit with the code of a process that failed.
pub open spec fn unless_failed(status: Status, then: Action) -> Action {
    match status.failure() {
        Some(code) => Action::Exit(code),
        None => then,
    }
}

/// What a run for a command with the call `call` does after `event`.
///
/// A process that fails ends the run with its code. After a build the script
/// is looked for, unless the command calls for none. A script that is there
/// is built and run. Where the command runs what it built, that follows the
/// script, or the search if there is no script. Everything else ends the run
/// with 0.
pub open spec fn reaction(call: BuildScriptCall, event: Event) -> Action {
    match event {
        Event::Built(status) => unless_failed(
            status,
            if call == BuildScriptCall::NoCall {
                Action::Exit(0)
            } else {
                Action::LocateScript
            },
        ),
        Event::ScriptLocated(found) => if call == BuildScriptCall::NoCall {
            Action::Exit(0)
        } else if found {
            Action::BuildScript
        } else if call == BuildScriptCall::InBetween {
            Action::RunArtifact
        } else {
            Action::Exit(0)
        },
        Event::ScriptBuilt(status) => unless_failed(status, Action::RunScript),
        Event::ScriptExited(status) => unless_failed(
            status,
            if call == BuildScriptCall::InBetween {
                Action::RunArtifact
            } else {
                Action::Exit(0)
            },
        ),
        Event::ArtifactExited(status) => unless_failed(status, Action::Exit(0)),
    }
}

/// Decides what a run for a command with the call `call` does after `event`.
pub fn react(call: BuildScriptCall, event: Event) -> (action: Action)
    ensures
        action == reaction(call, event),
{
    match event {
        Event::Built(status) => match status.failure_code() {
            Some(code) => Action::Exit(code),
            None => match call {
                BuildScriptCall::NoCall => Action::Exit(0),
                _ => Action::LocateScript,
            },
        },
        Event::ScriptLocated(found) => match call {
            BuildScriptCall::NoCall => Action::Exit(0),
            BuildScriptCall::AfterCommand => if found {
                Action::BuildScript
            } else {
                Action::Exit(0)
            },
            BuildScriptCall::InBetween => if found {
                Action::BuildScript
            } else {
                Action::RunArtifact
            },
        },
        Event::ScriptBuilt(status) => match status.failure_code() {
            Some(code) => Action::Exit(code),
            None => Action::RunScript,
        },
        Event::ScriptExited(status) => match status.failure_code() {
            Some(code) => Action::Exit(code),
            None => match call {
                BuildScriptCall::InBetween => Action::RunArtifact,
                _ => Action::Exit(0),
            },
        },
        Event::ArtifactExited(status) => match status.failure_code() {
            Some(code) => Action::Exit(code),
            None => Action::Exit(0),
        },
    }
}

/// The status that an event reports, if it reports one.
pub open spec fn status_of(event: Event) -> Option<Status> {
    match event {
        Event::Built(status) => Some(status),
        Event::ScriptLocated(_) => None,
        Event::ScriptBuilt(status) => Some(status),
        Event::ScriptExited(status) => Some(status),
        Event::ArtifactExited(status) => Some(status),
    }
}

/// A run ends at the first process that fails, with the code of that process,
/// or with 1 if it has none; no process that succeeds ends a run with another
/// code than 0.
pub proof fn lemma_first_failure_ends_the_run(call: BuildScriptCall, event: Event)
    ensures
        match status_of(event) {
            Some(status) => match status.failure() {
                Some(code) => reaction(call, event) == Action::Exit(code),
                None => reaction(call, event) matches Action::Exit(code) ==> code == 0,
            },
            None => reaction(call, event) matches Action::Exit(code) ==> code == 0,
        },
{
}

/// The place of the first `--` among `arguments` at or after `from`, or the
/// number of arguments if there is none.
pub open spec fn separator_from(arguments: Seq<Seq<char>>, from: int) -> int
    decreases arguments.len() - from,
{
    if from < 0 || from >= arguments.len() {
        arguments.len() as int
    } else if arguments[from] == "--"@ {
        from
    } else {
        separator_from(arguments, from + 1)
    }
}

/// The arguments of a command for its building half: those after the command
/// itself and before the first `--`.
pub open spec fn before_separator(forwarded: Seq<Seq<char>>) -> Seq<Seq<char>> {
    if forwarded.len() == 0 {
        Seq::empty()
    } else {
        forwarded.subrange(1, separator_from(forwarded, 1))
    }
}

/// The arguments of a command for what it built: those after the first `--`
/// that follows the command.
pub open spec fn after_separator(forwarded: Seq<Seq<char>>) -> Seq<Seq<char>> {
    if separator_from(forwarded, 1) < forwarded.len() {
        forwarded.subrange(separator_from(forwarded, 1) + 1, forwarded.len() as int)
    } else {
        Seq::empty()
    }
}

/// The arguments with which the build tool does the building half of a
/// command that runs what it built: a build, or for `test` a test that does
/// not run, with the arguments of the command before `--`, and with the
/// request to report what was built as JSON.
pub open spec fn building_arguments_of(forwarded: Seq<Seq<char>>) -> Seq<Seq<char>> {
    let command = if forwarded.len() > 0 && forwarded[0] == "test"@ {
        seq!["test"@, "--no-run"@]
    } else {
        seq!["build"@]
    };
    command + before_separator(forwarded) + seq!["--message-format=json-render-diagnostics"@]
}

/// Finds the first `--` after the command.
fn find_separator(forwarded: &Vec<String>) -> (place: usize)
    ensures
        place == separator_from(forwarded.deep_view(), 1),
        forwarded.len() > 0 ==> 1 <= place <= forwarded.len(),
        forwarded.len() == 0 ==> place == 0,
{
    let ghost all = forwarded.deep_view();
    if forwarded.len() == 0 {
        return 0;
    }
    let mut place: usize = 1;
    while place < forwarded.len()
        invariant
            1 <= place <= forwarded.len(),
            all == forwarded.deep_view(),
            separator_from(all, 1) == separator_from(all, place as int),
        decreases forwarded.len() - place,
    {
        assert(all[place as int] == forwarded@[place as int]@);
        if same_text(forwarded[place].as_str(), "--") {
            return place;
        }
        place = place + 1;
    }
    place
}

/// Copies the arguments from the place `from` up to the place `to`.
fn copy_range(arguments: &Vec<String>, from: usize, to: usize, into: &mut Vec<String>)
    requires
        from <= to <= arguments.len(),
    ensures
        final(into).deep_view() == old(into).deep_view() + arguments.deep_view().subrange(
            from as int,
            to as int,
        ),
{
    let ghost all = arguments.deep_view();
    let ghost before = into.deep_view();
    let mut place: usize = from;
    while place < to
        invariant
            from <= place <= to <= arguments.len(),
            all == arguments.deep_view(),
            into.deep_view() == before + all.subrange(from as int, place as int),
        decreases to - place,
    {
        let ghost sofar = into.deep_view();
        assert(all[place as int] == arguments@[place as int]@);
        into.push(arguments[place].clone());
        assert(into.deep_view() =~= sofar.push(all[place as int]));
        assert(all.subrange(from as int, place + 1) =~= all.subrange(
            from as int,
            place as int,
        ).push(all[place as int]));
        place = place + 1;
    }
}

/// Lists the arguments with which the build tool does the building half of a
/// command that runs what it built.
pub fn building_arguments(forwarded: &Vec<String>) -> (arguments: Vec<String>)
    ensures
        arguments.deep_view() == building_arguments_of(forwarded.deep_view()),
{
    let ghost all = forwarded.deep_view();
    let mut arguments: Vec<String> = Vec::new();
    let tests: bool = if forwarded.len() > 0 {
        assert(all[0] == forwarded@[0]@);
        same_text(forwarded[0].as_str(), "test")
    } else {
        false
    };
    if tests {
        arguments.push("test".to_owned());
        arguments.push("--no-run".to_owned());
    } else {
        arguments.push("build".to_owned());
    }
    let ghost command = arguments.deep_view();
    assert(command =~= if tests {
        seq!["test"@, "--no-run"@]
    } else {
        seq!["build"@]
    });
    let separator: usize = find_separator(forwarded);
    if forwarded.len() > 0 {
        copy_range(forwarded, 1, separator, &mut arguments);
    }
    let ghost middle = arguments.deep_view();
    assert(middle =~= command + before_separator(all));
    arguments.push("--message-format=json-render-diagnostics".to_owned());
    assert(arguments.deep_view() =~= middle + seq!["--message-format=json-render-diagnostics"@]);
    arguments
}

/// Lists the arguments with which what a command built is run: those after
/// the first `--` that follows the command.
pub fn artifact_arguments(forwarded: &Vec<String>) -> (arguments: Vec<String>)
    ensures
        arguments.deep_view() == after_separator(forwarded.deep_view()),
{
    let mut arguments: Vec<String> = Vec::new();
    let separator: usize = find_separator(forwarded);
    if separator < forwarded.len() {
        copy_range(forwarded, separator + 1, forwarded.len(), &mut arguments);
        assert(arguments.deep_view() =~= after_separator(forwarded.deep_view()));
    }
    arguments
}

/// All that is needed to build and run the post-build script of one build.
#[derive(Debug)]
pub struct ScriptPlan {
    /// The package that builds the script.
    pub package: EphemeralPackage,
    /// The directory from which the build tool builds that package: its own
    /// home directory, so that no configuration file around the package of
    /// the user reaches the build of the script.
    pub working_directory: String,
    /// The arguments with which the build tool builds that package.
    pub build_arguments: Vec<String>,
    /// The place of the built script.
    pub binary: String,
    /// The variables with which the script runs.
    pub environment: EnvironmentContract,
}

/// Whether `plan` is the plan for the script of the build with the context
/// `context`, on the host `host`, with `home` as the home directory of the
/// build tool, `target_dir` as the canonical target directory and `manifest`
/// as the text of the manifest of its package.
pub open spec fn is_plan(
    context: ContextView,
    host: Seq<char>,
    home: Seq<char>,
    target_dir: Seq<char>,
    manifest: Seq<char>,
    plan: ScriptPlan,
) -> bool {
    let mismatch = target_mismatch(context.triple(), host);
    &&& plan.working_directory@ == home
    &&& plan.package.directory@ == script_package_dir_of(target_dir)
    &&& plan.package.manifest_path@ == script_manifest_path_of(plan.package.directory@)
    &&& plan.package.manifest@ == manifest
    &&& plan.build_arguments.deep_view() == script_build_arguments_of(
        plan.package.manifest_path@,
        host,
        mismatch,
    )
    &&& plan.binary@ == script_binary_of(plan.package.directory@, host, mismatch)
    &&& plan.environment@ == environment_of(context)
}

/// Plans the build and the run of the post-build script of a build.
///
/// `host` is the triple of the host, `home` the home directory of the build
/// tool and `target_dir` the canonical form of the target directory of the
/// workspace. `dependencies` are the dependencies that are declared for the
/// script, and `moves` gives the canonical path of each of them that has a
/// path. The script itself is the file `post_build.rs` beside the manifest of
/// the package. The package of the script is built from `home`, whatever the
/// directory of the build.
pub fn plan_post_build_script(
    context: &ResolvedContext,
    host: &str,
    home: &str,
    target_dir: &str,
    dependencies: &Option<toml::Value>,
    moves: &Vec<(String, String)>,
) -> (plan: Result<ScriptPlan, ManifestError>)
    ensures
        match plan {
            Ok(made) => ephemeral_manifest_of(
                script_path_of(context@.manifest_dir),
                dependencies_model(*dependencies),
                moves.deep_view(),
            ) == Ok::<Seq<char>, ManifestFault>(made.package.manifest@) && is_plan(
                context@,
                host@,
                home@,
                target_dir@,
                made.package.manifest@,
                made,
            ),
            Err(error) => ephemeral_manifest_of(
                script_path_of(context@.manifest_dir),
                dependencies_model(*dependencies),
                moves.deep_view(),
            ) == Err::<Seq<char>, ManifestFault>(error.deep_view()),
        },
{
    let script: String = script_path(context.manifest_dir());
    let package: EphemeralPackage = match ephemeral_package(
        target_dir,
        script.as_str(),
        dependencies,
        moves,
    ) {
        Ok(package) => package,
        Err(error) => {
            return Err(error);
        },
    };
    let target: &Option<Target> = context.target();
    let mismatch: bool = match target {
        Some(target) => is_target_mismatch(Some(target.triple.as_str()), host),
        None => is_target_mismatch(None, host),
    };
    let build_arguments: Vec<String> = script_build_arguments(
        package.manifest_path.as_str(),
        host,
        mismatch,
    );
    let binary: String = script_binary(package.directory.as_str(), host, mismatch);
    let environment = EnvironmentContract::from_context(context);
    Ok(
        ScriptPlan {
            package,
            working_directory: home.to_owned(),
            build_arguments,
            binary,
            environment,
        },
    )
}

} // verus!
