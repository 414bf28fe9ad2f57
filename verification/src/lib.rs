//! Scoped temporary files for test code: the identity of such a file.
//!
//! A temporary file is known by the name its owner chose and lives on disk
//! under a physical name that carries a random suffix, so that two files made
//! for the same purpose do not meet. This crate computes and states those
//! names and the decisions taken when a file is opened and when it is cleaned
//! up; the handle on the file system belongs to the caller.

pub mod error;
pub mod naming;
pub mod random;
pub mod temp_file;
