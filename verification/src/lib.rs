//! Deterministic filesystem scan summaries.
//!
//! The library holds the traversal policy of a breadth-first directory
//! scanner: how entries are classified and rendered, when a file's content
//! hash is computed or suppressed, how owner and group names are cached and
//! truncated, and which subdirectories a level hands to the next one. The
//! surrounding binary only performs the filesystem reads and prints the
//! lines the library produces.

pub mod entry;
pub mod hashing;
pub mod laws;
pub mod scan;
pub mod sys;
pub mod text;
