//! Batch repository status checking: a search step lists directories that end
//! in the version-control metadata marker, each one is resolved to an absolute
//! path under the user's projects directory, and a status utility is run in
//! every resolved path in turn.
//!
//! The resolver, the parsing of the search output and the per-entry decisions
//! are verified; running the two external utilities is left to a thin binary
//! around this library.

pub mod entries;
pub mod resolver;
pub mod run;
