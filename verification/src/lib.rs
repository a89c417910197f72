//! Verified planning core of a small build-and-package command line tool.
//!
//! The tool has two jobs: building a workspace's main package with the
//! system's build tool, and packaging the built binary into a platform
//! installer. Everything that decides *what* to do is here and verified:
//! modelling the project manifest, extracting the packaging metadata out of
//! its loosely typed metadata block, resolving resource and icon paths
//! against the package directory, assembling the packaging configuration,
//! and interpreting the build tool's exit status. Reading files, spawning
//! the build tool and invoking the packaging backend are left to a thin
//! unverified shell that hands this library plain values.

pub mod build_task;
pub mod config;
pub mod error;
pub mod manifest;
pub mod metadata;
pub mod pack;
pub mod paths;
pub mod single_instance;
