//! The build: manifest, toolchain, compiler, bindings, loader page.
//!
//! The build is a state machine.  Each state has one action that the
//! driver is asked for ([`pending`]), and the event that reports on it
//! moves the machine on ([`next`]).  A failure ends the build where it
//! happens: nothing is retried and nothing is cleaned up.

use crate::artifact::{artifact_path, resolve, BuildProfile, TARGET_TRIPLE};
use crate::command::{Command, CommandView};
use crate::html::{render, rendered};
use crate::manifest::{manifest_name, name_view, read_project_name, text_of, ManifestError};
use crate::runner::{Action, ActionView, Event, EventView, Failure, RunOutcome};
use crate::text::{join, joined};
use crate::toolchain::{
    available,
    install_command,
    install_failure,
    install_failure_of,
    install_notice,
    install_notice_of,
    install_of,
    is_available,
    probe_command,
    probe_of,
};
use vstd::prelude::*;

verus! {

/// The project's root, as the build names it.
pub const PROJECT_ROOT: &'static str = ".";

/// The manifest, below the project root.
pub const MANIFEST_FILE: &'static str = "Cargo.toml";

/// The directory that holds what is served, below the project root.
pub const OUTPUT_DIR: &'static str = "dist";

/// The loader page, below the output directory.
pub const INDEX_FILE: &'static str = "index.html";

/// The compiler driver.
pub const COMPILER: &'static str = "cargo";

/// The program that generates the bindings.
pub const BINDGEN: &'static str = "wasm-bindgen";

/// The package that brings [`BINDGEN`].
pub const BINDGEN_PACKAGE: &'static str = "wasm-bindgen-cli";

/// The step at which a build failed.
#[derive(Clone, Copy, Debug, PartialEq, Eq, Structural)]
pub enum Stage {
    Manifest,
    ToolchainInstall,
    Compile,
    PostProcess,
    WriteHtml,
}

/// How far a build has come.
#[derive(Clone, Copy, Debug, PartialEq, Eq, Structural)]
pub enum BuildState {
    /// Nothing is known yet; the manifest is being read.
    Start,
    /// The project's name is known; the bindings generator is probed for.
    ManifestLoaded,
    /// The bindings generator was missing and is being installed.
    Installing,
    /// The bindings generator is there; the compiler runs.
    ToolchainReady,
    /// The binary module is compiled; the bindings generator runs.
    Compiled,
    /// The bindings are generated; the output directory is looked for.
    PostProcessed,
    /// The output directory is there; the loader page is being written.
    Writing,
    /// The build has ended well.
    Finalized,
    /// The build has failed at `stage`.
    Failed { stage: Stage, failure: Failure },
}

impl BuildState {
    /// Whether the build has ended, well or not.
    pub open spec fn is_terminal(self) -> bool {
        self is Finalized || self is Failed
    }
}

/// What a [`BuildPipeline`] holds.
pub struct BuildView {
    pub state: BuildState,
    pub profile: BuildProfile,
    /// The project's name; empty until the manifest is loaded.
    pub name: Seq<char>,
}

/// A build with the given profile, before anything is done.
pub open spec fn initial(profile: BuildProfile) -> BuildView {
    BuildView { state: BuildState::Start, profile, name: Seq::empty() }
}

/// The command that compiles the project.
pub open spec fn compile_of(profile: BuildProfile) -> CommandView {
    CommandView {
        name: COMPILER@,
        args: match profile {
            BuildProfile::Debug => seq!["build"@, "--target"@, TARGET_TRIPLE@],
            BuildProfile::Release => seq!["build"@, "--target"@, TARGET_TRIPLE@, "--release"@],
        },
    }
}

/// The command that generates the bindings for the module at `artifact`.
pub open spec fn bindgen_of(artifact: Seq<char>) -> CommandView {
    CommandView {
        name: BINDGEN@,
        args: seq![artifact, "--out-dir"@, OUTPUT_DIR@, "--target"@, "web"@, "--weak-refs"@],
    }
}

/// What the user is told when the build has failed.
pub open spec fn failure_message(stage: Stage, failure: Failure) -> Seq<char> {
    match stage {
        Stage::Manifest => match failure {
            Failure::Manifest(ManifestError::ParseError) => "Failed to parse Cargo.toml!"@,
            Failure::Manifest(ManifestError::MissingField) => "Cargo.toml names no package!"@,
            _ => "Failed to find a Cargo.toml!"@,
        },
        Stage::ToolchainInstall => install_failure_of(BINDGEN@),
        Stage::Compile => "Failed to build for target wasm32-unknown-unknown!"@,
        Stage::PostProcess => "Failed to run wasm-bindgen on the generated wasm binary"@,
        Stage::WriteHtml => "Failed to write the index.html!"@,
    }
}

/// The state after `event` has come in.
///
/// An event that does not report on the state's pending action changes
/// nothing, and neither does any event once the build has ended.
pub open spec fn next(build: BuildView, event: EventView) -> BuildView {
    match (build.state, event) {
        (BuildState::Start, EventView::FileRead(contents)) => match manifest_name(contents) {
            Ok(name) => BuildView { state: BuildState::ManifestLoaded, name, ..build },
            Err(error) => BuildView {
                state: BuildState::Failed {
                    stage: Stage::Manifest,
                    failure: Failure::Manifest(error),
                },
                ..build
            },
        },
        (BuildState::ManifestLoaded, EventView::Ran(probe)) => BuildView {
            state: if available(probe) {
                BuildState::ToolchainReady
            } else {
                BuildState::Installing
            },
            ..build
        },
        (BuildState::Installing, EventView::Ran(outcome)) => BuildView {
            state: if outcome is Success {
                BuildState::ToolchainReady
            } else {
                BuildState::Failed {
                    stage: Stage::ToolchainInstall,
                    failure: Failure::ToolInstallFailed,
                }
            },
            ..build
        },
        (BuildState::ToolchainReady, EventView::Ran(outcome)) => BuildView {
            state: match outcome.failure() {
                None => BuildState::Compiled,
                Some(failure) => BuildState::Failed { stage: Stage::Compile, failure },
            },
            ..build
        },
        (BuildState::Compiled, EventView::Ran(outcome)) => BuildView {
            state: match outcome.failure() {
                None => BuildState::PostProcessed,
                Some(failure) => BuildState::Failed { stage: Stage::PostProcess, failure },
            },
            ..build
        },
        (BuildState::PostProcessed, EventView::DirChecked(exists)) => BuildView {
            state: if exists {
                BuildState::Writing
            } else {
                BuildState::Finalized
            },
            ..build
        },
        (BuildState::Writing, EventView::Written(done)) => BuildView {
            state: if done {
                BuildState::Finalized
            } else {
                BuildState::Failed { stage: Stage::WriteHtml, failure: Failure::Filesystem }
            },
            ..build
        },
        _ => build,
    }
}

/// The action that the build waits for in its state.
pub open spec fn pending(build: BuildView) -> ActionView {
    match build.state {
        BuildState::Start => ActionView::ReadFile { path: MANIFEST_FILE@ },
        BuildState::ManifestLoaded => ActionView::Probe { command: probe_of(BINDGEN@) },
        BuildState::Installing => ActionView::Run {
            command: install_of(BINDGEN_PACKAGE@),
            notice: Some(install_notice_of(BINDGEN_PACKAGE@)),
        },
        BuildState::ToolchainReady => ActionView::Run {
            command: compile_of(build.profile),
            notice: None,
        },
        BuildState::Compiled => ActionView::Run {
            command: bindgen_of(artifact_path(PROJECT_ROOT@, build.profile, build.name)),
            notice: None,
        },
        BuildState::PostProcessed => ActionView::CheckDir { path: OUTPUT_DIR@ },
        BuildState::Writing => ActionView::WriteFile {
            path: joined(OUTPUT_DIR@, INDEX_FILE@),
            content: rendered(build.name),
        },
        BuildState::Finalized => ActionView::Stop,
        BuildState::Failed { stage, failure } => ActionView::Abort {
            failure,
            message: failure_message(stage, failure),
        },
    }
}

/// The command that compiles the project.
pub fn compile_command(profile: BuildProfile) -> (command: Command)
    ensures
        command@ == compile_of(profile),
{
    let mut command = Command::new(COMPILER);
    match profile {
        BuildProfile::Debug => {
            command.args(&["build", "--target", TARGET_TRIPLE]);
            assert(command@.args =~= seq!["build"@, "--target"@, TARGET_TRIPLE@]);
        },
        BuildProfile::Release => {
            command.args(&["build", "--target", TARGET_TRIPLE, "--release"]);
            assert(command@.args =~= seq!["build"@, "--target"@, TARGET_TRIPLE@, "--release"@]);
        },
    }
    command
}

/// The command that generates the bindings for the module at `artifact`.
pub fn bindgen_command(artifact: &str) -> (command: Command)
    ensures
        command@ == bindgen_of(artifact@),
{
    let mut command = Command::new(BINDGEN);
    command.args(&[artifact, "--out-dir", OUTPUT_DIR, "--target", "web", "--weak-refs"]);
    assert(command@.args =~= seq![
        artifact@,
        "--out-dir"@,
        OUTPUT_DIR@,
        "--target"@,
        "web"@,
        "--weak-refs"@,
    ]);
    command
}

/// What the user is told when the build has failed.
pub fn message_for(stage: Stage, failure: Failure) -> (message: String)
    ensures
        message@ == failure_message(stage, failure),
{
    match stage {
        Stage::Manifest => match failure {
            Failure::Manifest(ManifestError::ParseError) => "Failed to parse Cargo.toml!".to_owned(),
            Failure::Manifest(ManifestError::MissingField) => "Cargo.toml names no package!".to_owned(),
            _ => "Failed to find a Cargo.toml!".to_owned(),
        },
        Stage::ToolchainInstall => install_failure(BINDGEN),
        Stage::Compile => "Failed to build for target wasm32-unknown-unknown!".to_owned(),
        Stage::PostProcess => "Failed to run wasm-bindgen on the generated wasm binary".to_owned(),
        Stage::WriteHtml => "Failed to write the index.html!".to_owned(),
    }
}

/// A build of the project in the current directory.
#[derive(Clone, Debug, PartialEq, Eq)]
pub struct BuildPipeline {
    state: BuildState,
    profile: BuildProfile,
    name: String,
}

impl View for BuildPipeline {
    type V = BuildView;

    closed spec fn view(&self) -> BuildView {
        BuildView { state: self.state, profile: self.profile, name: self.name@ }
    }
}

impl BuildPipeline {
    /// A build with the given profile, before anything is done.
    pub fn start(profile: BuildProfile) -> (build: BuildPipeline)
        ensures
            build@ == initial(profile),
    {
        BuildPipeline { state: BuildState::Start, profile, name: String::new() }
    }

    /// How far the build has come.
    pub fn state(&self) -> (state: BuildState)
        ensures
            state == self@.state,
    {
        self.state
    }

    /// The profile that the build was started with.
    pub fn profile(&self) -> (profile: BuildProfile)
        ensures
            profile == self@.profile,
    {
        self.profile
    }

    /// The project's name; empty until the manifest is loaded.
    pub fn project_name(&self) -> (name: &str)
        ensures
            name@ == self@.name,
    {
        self.name.as_str()
    }

    /// The action that the build waits for.
    pub fn action(&self) -> (action: Action)
        ensures
            action@ == pending(self@),
    {
        match self.state {
            BuildState::Start => Action::ReadFile { path: MANIFEST_FILE.to_owned() },
            BuildState::ManifestLoaded => Action::Probe { command: probe_command(BINDGEN) },
            BuildState::Installing => Action::Run {
                command: install_command(BINDGEN_PACKAGE),
                notice: Some(install_notice(BINDGEN_PACKAGE)),
            },
            BuildState::ToolchainReady => Action::Run {
                command: compile_command(self.profile),
                notice: None,
            },
            BuildState::Compiled => {
                let artifact = resolve(PROJECT_ROOT, self.profile, self.name.as_str());
                Action::Run { command: bindgen_command(artifact.as_str()), notice: None }
            },
            BuildState::PostProcessed => Action::CheckDir { path: OUTPUT_DIR.to_owned() },
            BuildState::Writing => Action::WriteFile {
                path: join(OUTPUT_DIR, INDEX_FILE),
                content: render(self.name.as_str()),
            },
            BuildState::Finalized => Action::Stop,
            BuildState::Failed { stage, failure } => Action::Abort {
                failure,
                message: message_for(stage, failure),
            },
        }
    }

    /// Takes in `event` and says what is to be done next.
    pub fn step(&mut self, event: Event) -> (action: Action)
        ensures
            final(self)@ == next(old(self)@, event@),
            action@ == pending(final(self)@),
    {
        match (self.state, event) {
            (BuildState::Start, Event::FileRead(contents)) => {
                let name = match &contents {
                    Some(text) => read_project_name(Some(text.as_str())),
                    None => read_project_name(None),
                };
                match name {
                    Ok(name) => {
                        self.name = name;
                        self.state = BuildState::ManifestLoaded;
                    },
                    Err(error) => {
                        self.state =
                        BuildState::Failed {
                            stage: Stage::Manifest,
                            failure: Failure::Manifest(error),
                        };
                    },
                }
            },
            (BuildState::ManifestLoaded, Event::Ran(probe)) => {
                self.state =
                if is_available(probe) {
                    BuildState::ToolchainReady
                } else {
                    BuildState::Installing
                };
            },
            (BuildState::Installing, Event::Ran(outcome)) => {
                self.state =
                match outcome {
                    RunOutcome::Success => BuildState::ToolchainReady,
                    _ => BuildState::Failed {
                        stage: Stage::ToolchainInstall,
                        failure: Failure::ToolInstallFailed,
                    },
                };
            },
            (BuildState::ToolchainReady, Event::Ran(outcome)) => {
                self.state =
                match outcome.as_failure() {
                    None => BuildState::Compiled,
                    Some(failure) => BuildState::Failed { stage: Stage::Compile, failure },
                };
            },
            (BuildState::Compiled, Event::Ran(outcome)) => {
                self.state =
                match outcome.as_failure() {
                    None => BuildState::PostProcessed,
                    Some(failure) => BuildState::Failed { stage: Stage::PostProcess, failure },
                };
            },
            (BuildState::PostProcessed, Event::DirChecked(exists)) => {
                self.state =
                if exists {
                    BuildState::Writing
                } else {
                    BuildState::Finalized
                };
            },
            (BuildState::Writing, Event::Written(done)) => {
                self.state =
                if done {
                    BuildState::Finalized
                } else {
                    BuildState::Failed { stage: Stage::WriteHtml, failure: Failure::Filesystem }
                };
            },
            _ => {},
        }
        self.action()
    }
}

/// The state after the events of `events` have come in, one after the
/// other.
pub open spec fn run(build: BuildView, events: Seq<EventView>) -> BuildView
    decreases events.len(),
{
    if events.len() == 0 {
        build
    } else {
        next(run(build, events.drop_last()), events.last())
    }
}

/// A build that has ended stays as it is, whatever is reported to it.
pub proof fn lemma_ended_build_stays(build: BuildView, events: Seq<EventView>)
    requires
        build.state.is_terminal(),
    ensures
        run(build, events) == build,
    decreases events.len(),
{
    if events.len() > 0 {
        lemma_ended_build_stays(build, events.drop_last());
    }
}

/// A build that has failed asks for nothing but to give up: whatever is
/// reported to it, it starts no program and changes no file.
pub proof fn lemma_failed_build_does_nothing(build: BuildView, events: Seq<EventView>)
    requires
        build.state is Failed,
    ensures
        pending(run(build, events)) is Abort,
        !pending(run(build, events)).starts_program(),
        !pending(run(build, events)).changes_files(),
{
    lemma_ended_build_stays(build, events);
}

/// A compiler that does not succeed ends the build at the compile stage,
/// with the compiler's failure.  Whatever is reported afterwards, the
/// bindings generator is not run and no page is written.
pub proof fn lemma_failed_compile_ends_build(
    build: BuildView,
    outcome: RunOutcome,
    later: Seq<EventView>,
)
    requires
        build.state == BuildState::ToolchainReady,
        !(outcome is Success),
    ensures
        outcome.failure() is Some,
        next(build, EventView::Ran(outcome)).state == (BuildState::Failed {
            stage: Stage::Compile,
            failure: outcome.failure()->0,
        }),
        run(next(build, EventView::Ran(outcome)), later) == next(build, EventView::Ran(outcome)),
        pending(run(next(build, EventView::Ran(outcome)), later)) is Abort,
        !pending(run(next(build, EventView::Ran(outcome)), later)).starts_program(),
        !pending(run(next(build, EventView::Ran(outcome)), later)).changes_files(),
{
    lemma_failed_build_does_nothing(next(build, EventView::Ran(outcome)), later);
    lemma_ended_build_stays(next(build, EventView::Ran(outcome)), later);
}

/// The reports of a build in which nothing goes wrong: the manifest, the
/// probe, the installation where the probe found nothing, the compiler,
/// the bindings generator, and an output directory that is there.
pub open spec fn good_reports(manifest: Seq<char>, probe: RunOutcome) -> Seq<EventView> {
    let before = seq![EventView::FileRead(Some(manifest)), EventView::Ran(probe)];
    let install = if available(probe) {
        Seq::<EventView>::empty()
    } else {
        seq![EventView::Ran(RunOutcome::Success)]
    };
    let after = seq![
        EventView::Ran(RunOutcome::Success),
        EventView::Ran(RunOutcome::Success),
        EventView::DirChecked(true),
    ];
    before + install + after
}

/// A build in which nothing goes wrong, and whose output directory is
/// there, ends by asking for the loader page to be written: the index
/// file in the output directory, holding exactly the page rendered for
/// the manifest's project name.
pub proof fn lemma_good_build_writes_rendered_page(
    profile: BuildProfile,
    manifest: Seq<char>,
    name: Seq<char>,
    probe: RunOutcome,
)
    requires
        manifest_name(Some(manifest)) == Ok::<Seq<char>, ManifestError>(name),
    ensures
        run(initial(profile), good_reports(manifest, probe)).state == BuildState::Writing,
        pending(run(initial(profile), good_reports(manifest, probe))) == (ActionView::WriteFile {
            path: joined(OUTPUT_DIR@, INDEX_FILE@),
            content: rendered(name),
        }),
        run(
            initial(profile),
            good_reports(manifest, probe).push(EventView::Written(true)),
        ).state == BuildState::Finalized,
{
    let events = good_reports(manifest, probe);
    let start = initial(profile);
    lemma_run_step(start, events, 0);
    lemma_run_step(start, events, 1);
    lemma_run_step(start, events, 2);
    lemma_run_step(start, events, 3);
    lemma_run_step(start, events, 4);
    if !available(probe) {
        lemma_run_step(start, events, 5);
    }
    assert(events.take(events.len() as int) == events);
    let all = events.push(EventView::Written(true));
    assert(all.drop_last() == events);
}

/// One more event moves the run one step on.
proof fn lemma_run_step(build: BuildView, events: Seq<EventView>, done: int)
    requires
        0 <= done < events.len(),
    ensures
        run(build, events.take(done + 1)) == next(run(build, events.take(done)), events[done]),
{
    assert(events.take(done + 1).drop_last() == events.take(done));
}

/// An output directory that is missing after the bindings generator has
/// run is no fault: the build ends well, and no page is written.
pub proof fn lemma_missing_output_skips_page(build: BuildView)
    requires
        build.state == BuildState::PostProcessed,
    ensures
        next(build, EventView::DirChecked(false)).state == BuildState::Finalized,
        pending(next(build, EventView::DirChecked(false))) == ActionView::Stop,
{
}

} // verus!
