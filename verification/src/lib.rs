//! A positional to-do list: an ordered sequence of tasks, each pending, done
//! or a legacy line without a marker, together with the flat text format the
//! list is stored in and the listing shown to the user.
//!
//! Nothing here touches a file or a terminal. Callers hand in what they read
//! and write out what they are given back.

pub mod command;
pub mod format;
pub mod render;
pub mod store;
pub mod task;
pub mod text;
