//! The queue of upcoming tracks that an operator can look at and edit.

pub mod queue;
