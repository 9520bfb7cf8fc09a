//! Where the compiler leaves the binary module.

use crate::text::{join, joined};
use vstd::prelude::*;
use vstd::string::StringExecFns;

verus! {

/// The target that every build is compiled for.
pub const TARGET_TRIPLE: &'static str = "wasm32-unknown-unknown";

/// The compiler's output directory, below the project root.
pub const TARGET_DIR: &'static str = "target";

/// The ending of a binary module's file name.
pub const MODULE_SUFFIX: &'static str = ".wasm";

/// How the project is compiled.
#[derive(Clone, Copy, Debug, PartialEq, Eq, Structural)]
pub enum BuildProfile {
    Debug,
    Release,
}

impl BuildProfile {
    /// The directory that the compiler keeps for this profile.
    pub open spec fn directory(self) -> Seq<char> {
        match self {
            BuildProfile::Debug => "debug"@,
            BuildProfile::Release => "release"@,
        }
    }

    /// Computes [`BuildProfile::directory`].
    pub fn dir(self) -> (name: &'static str)
        ensures
            name@ == self.directory(),
    {
        match self {
            BuildProfile::Debug => "debug",
            BuildProfile::Release => "release",
        }
    }
}

/// The path of the binary module of the project `name` below `root`:
/// the output directory, the target, the profile's directory, and the
/// project's name with the module suffix.
pub open spec fn artifact_path(root: Seq<char>, profile: BuildProfile, name: Seq<char>) -> Seq<
    char,
> {
    joined(
        joined(joined(joined(root, TARGET_DIR@), TARGET_TRIPLE@), profile.directory()),
        name + MODULE_SUFFIX@,
    )
}

/// The path of the compiled binary module.  Nothing is looked up on disk:
/// whether the file exists is for the caller to find out.
pub fn resolve(project_root: &str, profile: BuildProfile, project_name: &str) -> (path: String)
    ensures
        path@ == artifact_path(project_root@, profile, project_name@),
{
    let output = join(project_root, TARGET_DIR);
    let target = join(output.as_str(), TARGET_TRIPLE);
    let directory = join(target.as_str(), profile.dir());
    let mut file = project_name.to_owned();
    file.append(MODULE_SUFFIX);
    join(directory.as_str(), file.as_str())
}

/// The path is a function of the root, the profile and the name alone:
/// equal arguments give equal paths.
pub proof fn lemma_resolve_is_deterministic(
    root: Seq<char>,
    profile: BuildProfile,
    name: Seq<char>,
    other_root: Seq<char>,
    other_profile: BuildProfile,
    other_name: Seq<char>,
)
    requires
        root == other_root,
        profile == other_profile,
        name == other_name,
    ensures
        artifact_path(root, profile, name) == artifact_path(other_root, other_profile, other_name),
{
}

} // verus!
