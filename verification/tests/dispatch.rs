use dister::artifact::BuildProfile;
use dister::dispatch::{dispatch, usage, Subcommand, USAGE};

fn args(words: &[&str]) -> Vec<String> {
    words.iter().map(|word| word.to_string()).collect()
}

#[test]
fn no_subcommand_asks_for_usage() {
    assert_eq!(dispatch(&args(&["prog"])), Subcommand::Usage);
}

#[test]
fn unknown_subcommand_asks_for_usage() {
    assert_eq!(dispatch(&args(&["prog", "bogus"])), Subcommand::Usage);
    assert_eq!(dispatch(&args(&["prog", "--help"])), Subcommand::Usage);
    assert_eq!(dispatch(&args(&["prog", "Build"])), Subcommand::Usage);
    assert_eq!(dispatch(&args(&["prog", ""])), Subcommand::Usage);
    assert_eq!(dispatch(&args(&["prog", "--release", "build"])), Subcommand::Usage);
}

#[test]
fn no_arguments_at_all_ask_for_usage() {
    assert_eq!(dispatch(&args(&[])), Subcommand::Usage);
}

#[test]
fn build_with_release_flag_selects_release() {
    assert_eq!(
        dispatch(&args(&["prog", "build", "--release"])),
        Subcommand::Build(BuildProfile::Release)
    );
    assert_eq!(
        dispatch(&args(&["prog", "build", "--release", "more"])),
        Subcommand::Build(BuildProfile::Release)
    );
}

#[test]
fn build_alone_selects_debug() {
    assert_eq!(dispatch(&args(&["prog", "build"])), Subcommand::Build(BuildProfile::Debug));
}

#[test]
fn build_passes_over_another_second_word() {
    assert_eq!(
        dispatch(&args(&["prog", "build", "--debug"])),
        Subcommand::Build(BuildProfile::Debug)
    );
    assert_eq!(
        dispatch(&args(&["prog", "build", "x", "--release"])),
        Subcommand::Build(BuildProfile::Debug)
    );
}

#[test]
fn serve_and_clean_are_known() {
    assert_eq!(dispatch(&args(&["prog", "serve"])), Subcommand::Serve);
    assert_eq!(dispatch(&args(&["prog", "clean"])), Subcommand::Clean);
    assert_eq!(dispatch(&args(&["prog", "clean", "--release"])), Subcommand::Clean);
}

#[test]
fn usage_text() {
    assert_eq!(usage(), USAGE);
    assert!(USAGE.starts_with("\ndister 0.1.0\nBuilds and bundles your wasm web app.\n"));
    assert!(USAGE.contains("    build     Build your wasm web app\n"));
    assert!(USAGE.contains("    clean     Clean output artifacts\n"));
    assert!(USAGE.contains("    serve     Serve the generated index.html\n"));
    assert!(USAGE.ends_with("    --help    Prints this message or the help of the given subcommand(s)\n"));
}
