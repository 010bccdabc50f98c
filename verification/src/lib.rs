//! The decisions behind a "spawn a task" modal: which tasks it lists and in
//! which order, what a row and the footer show, and what running, completing
//! or deleting an entry does.

pub mod footer;
pub mod laws;
pub mod matching;
pub mod modal;
pub mod row;
pub mod state;
pub mod task;
pub mod text;
