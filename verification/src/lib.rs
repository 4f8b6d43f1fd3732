//! Launch-configuration core for starting digital-content-creation
//! applications (Blender, Houdini, usdview) with tool-specific environment
//! overlays and bootstrap steps.
//!
//! The crate computes *what* to run: which interpreter a vendored
//! installation provides, which environment variables each application
//! family needs, and the exact sequence of child processes to spawn.
//! Actually reading directories, spawning processes and creating symlinks
//! is left to a thin host layer around this crate.

pub mod driver;
pub mod environment;
pub mod plan;
pub mod resolver;
