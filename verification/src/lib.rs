//! Assembly of an installable Android package from cross-compiled artifacts:
//! templating of the platform project skeleton, placement of per-architecture
//! libraries, build-task selection, and the align-then-sign release pipeline.
//!
//! Everything that computes — name mapping, text substitution, manifest
//! mutation, placement and signing plans — lives here, verified. The
//! surrounding process and filesystem work is left to the binary around it.

pub mod arch;
pub mod manifest;
pub mod metadata;
pub mod paths;
pub mod project;
pub mod placer;
pub mod profile;
pub mod signing;
pub mod text;
pub mod toolchain;
