//! Expansion of a filesystem glob pattern into the list of matching paths.
//!
//! The single operation, [`load_files_by_glob`], compiles the pattern with
//! fixed options (case-insensitive, wildcards free to match hidden names)
//! and walks the filesystem for matches. A pattern that does not parse
//! yields the matcher's message; entries that fail to resolve during the
//! walk are skipped silently.

pub mod expand;
pub mod matcher;

pub use expand::load_files_by_glob;
pub use expand::GlobResult;
