//! Configuration helper for driving a native build of the bundled LLVM
//! source tree and exposing the produced artifacts to a calling build script.
//!
//! The library holds the pure side of that job: collecting the four required
//! build parameters, validating them into an invocation plan, deriving the
//! artifact paths and library names from a directory listing, and rendering
//! the metadata lines for the calling build orchestrator. Running the native
//! build tool and touching the filesystem are left to the surrounding binary.

pub mod artifacts;
pub mod config;
pub mod paths;

pub use artifacts::Artifacts;
pub use artifacts::FsEntry;
pub use config::Build;
pub use config::BuildError;
pub use config::BuildPlan;
