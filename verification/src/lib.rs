//! Build planning for the bundled Lua interpreters.
//!
//! Given an interpreter release and a target triple, this crate decides how
//! the C sources of that release are compiled into a static library: which
//! source tree, which preprocessor symbols, which compiler flags, which
//! files, and where the results go. Every decision is stated as a
//! specification function and proved of the code that makes it.

pub mod artifacts;
pub mod builder;
pub mod compiler;
pub mod headers;
pub mod paths;
pub mod platform;
pub mod settings;
pub mod sources;
pub mod steps;
pub mod text;
pub mod version;

pub use crate::artifacts::Artifacts;
pub use crate::builder::{Build, BuildError, BuildPlan, Environment};
pub use crate::platform::Platform;
pub use crate::steps::Step;
pub use crate::version::Version;
pub use crate::version::Version::{Lua51, Lua52, Lua53, Lua54};
