//! Recursive repository status: finds version-controlled working trees under a
//! root directory and decides, from what the version-control tool reported for
//! each, which of them need attention.
//!
//! Nothing here touches the file system or starts a program. The caller walks
//! the tree and runs the tool; this library says what to run, takes in what
//! came of it, and decides what is shown.

pub mod filter;
pub mod marker;
pub mod options;
pub mod probe;
pub mod record;
pub mod root;
pub mod text;
pub mod walk;
