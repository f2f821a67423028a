//! An interactive, read-only terminal browser for a versioned content-object
//! graph: it walks from named references to commits, into trees, down to
//! individual file contents.
//!
//! This crate is the navigation core: the mode state machine that tracks where
//! the user is, the page abstraction shared by the reference list, the tree
//! listing and the file viewer, the pagination and scrolling arithmetic, and
//! the incremental syntax-highlighting pipeline. Opening the repository,
//! resolving references and reading objects are left to the host, which hands
//! the core plain values.

pub mod app;
pub mod errors;
pub mod highlight;
pub mod objects;
pub mod style;
pub mod text;
