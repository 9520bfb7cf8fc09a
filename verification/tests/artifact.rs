use dister::artifact::{resolve, BuildProfile, MODULE_SUFFIX, TARGET_DIR, TARGET_TRIPLE};
use dister::text::join;

#[test]
fn debug_artifact_path() {
    assert_eq!(
        resolve(".", BuildProfile::Debug, "demo"),
        "./target/wasm32-unknown-unknown/debug/demo.wasm"
    );
}

#[test]
fn release_artifact_path() {
    assert_eq!(
        resolve(".", BuildProfile::Release, "demo"),
        "./target/wasm32-unknown-unknown/release/demo.wasm"
    );
}

#[test]
fn artifact_path_below_another_root() {
    assert_eq!(
        resolve("/home/me/proj", BuildProfile::Debug, "my-app"),
        "/home/me/proj/target/wasm32-unknown-unknown/debug/my-app.wasm"
    );
    assert_eq!(
        resolve("proj/", BuildProfile::Release, "x"),
        "proj/target/wasm32-unknown-unknown/release/x.wasm"
    );
    assert_eq!(
        resolve("", BuildProfile::Debug, "x"),
        "target/wasm32-unknown-unknown/debug/x.wasm"
    );
}

#[test]
fn resolve_gives_the_same_path_for_the_same_input() {
    for profile in [BuildProfile::Debug, BuildProfile::Release] {
        let first = resolve("root", profile, "demo");
        let second = resolve("root", profile, "demo");
        assert_eq!(first, second);
    }
    assert_ne!(
        resolve("root", BuildProfile::Debug, "demo"),
        resolve("root", BuildProfile::Release, "demo")
    );
}

#[test]
fn profile_directories() {
    assert_eq!(BuildProfile::Debug.dir(), "debug");
    assert_eq!(BuildProfile::Release.dir(), "release");
}

#[test]
fn artifact_constants() {
    assert_eq!(TARGET_TRIPLE, "wasm32-unknown-unknown");
    assert_eq!(TARGET_DIR, "target");
    assert_eq!(MODULE_SUFFIX, ".wasm");
}

#[test]
fn join_puts_one_separator_between() {
    assert_eq!(join("dist", "index.html"), "dist/index.html");
    assert_eq!(join("dist/", "index.html"), "dist/index.html");
    assert_eq!(join("", "index.html"), "index.html");
    assert_eq!(join("/", "x"), "/x");
    assert_eq!(join("a", ""), "a/");
}
