//! A single-user task list: an ordered store of short text tasks that can be
//! added, viewed, completed and deleted, with the input policies of its
//! interactive front end.

pub mod task;
pub mod store;
pub mod laws;
pub mod input;
pub mod persist;
