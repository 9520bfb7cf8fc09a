use dister::artifact::BuildProfile;
use dister::clean::CleanRoutine;
use dister::dispatch::USAGE;
use dister::pipeline::BuildPipeline;
use dister::runner::{Action, Event, RunOutcome};
use dister::serve::ServeRoutine;
use dister::session::Session;

fn args(words: &[&str]) -> Vec<String> {
    words.iter().map(|word| word.to_string()).collect()
}

#[test]
fn session_without_subcommand_prints_usage_and_ends_well() {
    for words in [vec!["prog"], vec!["prog", "bogus"]] {
        let mut session = Session::open(&args(&words));
        assert_eq!(session, Session::Usage { shown: false });
        assert_eq!(session.action(), Action::Print { text: USAGE.to_string() });
        assert_eq!(session.step(Event::Printed), Action::Stop);
        assert_eq!(session, Session::Usage { shown: true });
        assert_eq!(session.step(Event::Printed), Action::Stop);
    }
}

#[test]
fn session_keeps_asking_until_usage_is_printed() {
    let mut session = Session::open(&args(&["prog"]));
    let action = session.step(Event::Ran(RunOutcome::Success));
    assert_eq!(action, Action::Print { text: USAGE.to_string() });
    assert_eq!(session, Session::Usage { shown: false });
}

#[test]
fn session_opens_the_build_with_its_profile() {
    assert_eq!(
        Session::open(&args(&["prog", "build", "--release"])),
        Session::Build(BuildPipeline::start(BuildProfile::Release))
    );
    assert_eq!(
        Session::open(&args(&["prog", "build"])),
        Session::Build(BuildPipeline::start(BuildProfile::Debug))
    );
}

#[test]
fn session_opens_serve_and_clean() {
    assert_eq!(Session::open(&args(&["prog", "serve"])), Session::Serve(ServeRoutine::Probing));
    assert_eq!(Session::open(&args(&["prog", "clean"])), Session::Clean(CleanRoutine::Cleaning));
}

#[test]
fn session_follows_its_routine() {
    let mut session = Session::open(&args(&["prog", "build"]));
    let mut build = BuildPipeline::start(BuildProfile::Debug);
    assert_eq!(session.action(), build.action());
    let manifest = "[package]\nname = \"demo\"\n";
    for event in [
        Event::FileRead(Some(manifest.to_string())),
        Event::Ran(RunOutcome::Success),
        Event::Ran(RunOutcome::Success),
        Event::Ran(RunOutcome::Success),
        Event::DirChecked(true),
        Event::Written(true),
    ] {
        assert_eq!(session.step(event.clone()), build.step(event));
        assert_eq!(session, Session::Build(build.clone()));
    }
    assert_eq!(session.action(), Action::Stop);

    let mut session = Session::open(&args(&["prog", "clean"]));
    session.step(Event::Ran(RunOutcome::Success));
    assert_eq!(session.step(Event::DirChecked(false)), Action::Stop);
    assert_eq!(session, Session::Clean(CleanRoutine::Finished));

    let mut session = Session::open(&args(&["prog", "serve"]));
    session.step(Event::Ran(RunOutcome::Success));
    assert_eq!(session, Session::Serve(ServeRoutine::Serving));
}
