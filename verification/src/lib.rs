//! A declarative package-environment core: manifest and lockfile models, a
//! resolver facade over two backends, and a transaction engine that replaces
//! an environment directory atomically or not at all.

pub mod error;
pub mod manifest;
pub mod catalog;
pub mod lockfile;
pub mod vfs;
pub mod core_environment;
pub mod pkgdb;
pub mod substituter;
