//! A verified navigation-and-search core for a local filesystem browser.
//!
//! The library works over an in-memory snapshot of a directory tree
//! ([`tree::FsTree`]): the caller enumerates the real filesystem (or any
//! other source) into a snapshot of plain values, and every operation on
//! it — listing a directory's children, recursive substring search over a
//! subtree, and the stateful navigation controller — is verified against
//! that snapshot.

pub mod explorer;
pub mod host;
pub mod lister;
pub mod path;
pub mod search;
pub mod text;
pub mod tree;
