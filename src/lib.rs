//! The build side of a LaTeX editor: finding the compiler, running a build
//! from source to PDF, and reading the compiler's output as diagnostics.
//!
//! The modules that meet the machine (`locator`, `compile`) decide and let
//! the caller act: they hand out actions to perform (run a probe, create a
//! directory, run the compiler, copy a file) and take back what came of
//! them. Everything else is computation on values.

pub mod compile;
pub mod diagnostics;
pub mod file_ops;
pub mod locator;
pub mod paths;
pub mod pdf;
pub mod report;
pub mod state;
pub mod text;
pub mod workspace;
