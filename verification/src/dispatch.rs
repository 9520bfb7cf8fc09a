//! From the command line to the routine to run.

use crate::artifact::BuildProfile;
use crate::text::same_text;
use vstd::prelude::*;

verus! {

/// What is printed when no routine was asked for.
pub const USAGE: &'static str = r#"
dister 0.1.0
Builds and bundles your wasm web app.

USAGE:
    dister <SUBCOMMAND>

SUBCOMMANDS:
    build     Build your wasm web app
    clean     Clean output artifacts
    serve     Serve the generated index.html
    --help    Prints this message or the help of the given subcommand(s)
"#;

/// The routine that a command line asks for.
#[derive(Clone, Copy, Debug, PartialEq, Eq)]
pub enum Subcommand {
    /// Build the project with the given profile.
    Build(BuildProfile),
    /// Remove what builds have left.
    Clean,
    /// Serve the output directory.
    Serve,
    /// Print [`USAGE`] and end successfully.
    Usage,
}

/// The texts of a list of strings.
pub open spec fn owned_texts(list: Seq<String>) -> Seq<Seq<char>> {
    list.map_values(|s: String| s@)
}

/// The routine for the arguments `args`, the program's own name first.
///
/// The word after the program's name selects the routine.  A missing or
/// unknown word asks for the usage text.  `build` takes the release
/// profile when the word after it is `--release`; any other word there is
/// passed over.
pub open spec fn subcommand_of(args: Seq<Seq<char>>) -> Subcommand {
    if args.len() < 2 {
        Subcommand::Usage
    } else if args[1] == "build"@ {
        if args.len() > 2 && args[2] == "--release"@ {
            Subcommand::Build(BuildProfile::Release)
        } else {
            Subcommand::Build(BuildProfile::Debug)
        }
    } else if args[1] == "serve"@ {
        Subcommand::Serve
    } else if args[1] == "clean"@ {
        Subcommand::Clean
    } else {
        Subcommand::Usage
    }
}

/// Picks the routine for the arguments `args`, the program's own name
/// first.
pub fn dispatch(args: &[String]) -> (command: Subcommand)
    ensures
        command == subcommand_of(owned_texts(args@)),
{
    if args.len() < 2 {
        return Subcommand::Usage;
    }
    let word = args[1].as_str();
    if same_text(word, "build") {
        if args.len() > 2 && same_text(args[2].as_str(), "--release") {
            Subcommand::Build(BuildProfile::Release)
        } else {
            Subcommand::Build(BuildProfile::Debug)
        }
    } else if same_text(word, "serve") {
        Subcommand::Serve
    } else if same_text(word, "clean") {
        Subcommand::Clean
    } else {
        Subcommand::Usage
    }
}

/// The usage text.
pub fn usage() -> (text: &'static str)
    ensures
        text@ == USAGE@,
{
    USAGE
}

} // verus!
