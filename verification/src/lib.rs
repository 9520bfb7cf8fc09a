//! Build orchestration for wasm web apps.
//!
//! The crate decides what a `build`, `serve` or `clean` run has to do and in
//! which order: which programs to start with which arguments, where the
//! compiled module lies, what the loader page holds, and when a run has
//! failed.  It starts no process and touches no file itself.  A driver
//! performs each [`runner::Action`] and reports back with a
//! [`runner::Event`].

pub mod text;
pub mod command;
pub mod artifact;
pub mod html;
pub mod dispatch;
pub mod manifest;
pub mod runner;
pub mod toolchain;
pub mod pipeline;
pub mod serve;
pub mod clean;
pub mod session;
