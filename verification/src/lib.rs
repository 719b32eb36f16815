//! A small project tracker: the list of projects, the form that adds one,
//! and the scenes between which the application moves.
//!
//! The crate holds the state and the decisions only. Whoever embeds it draws
//! the scenes, asks the user for confirmation and carries out the storage
//! operation that each update names.
//!
//! - [`project`]: the record, and when it may be committed.
//! - [`add_project`]: the form that edits a draft and hands it over.
//! - [`model`]: the collection, the active scene, and what each message does
//!   to them.
//! - [`storage`]: the operations on the stored entry, and that entry held in
//!   memory.

pub mod add_project;
pub mod model;
pub mod project;
pub mod storage;
