//! Decision core of a Mach-O / application-bundle patching tool.
//!
//! The tool locates a macOS application bundle (or a bare Mach-O executable),
//! strips its code signature and re-signs it ad hoc. Everything that touches
//! the filesystem or spawns the external signer lives outside this crate; the
//! crate holds the decision logic: walking a path's ancestry for a `.app`
//! bundle, resolving the output location and overwrite policy, and planning
//! the exact sequence of copy / strip / sign steps for the chosen branch.

pub mod errors;
pub mod locate;
pub mod paths;
pub mod plan;
