//! Decision logic of a chat bot command that re-posts a replied-to message
//! with every attachment marked as a spoiler, then removes that message.
//!
//! The crate holds no network code. A host feeds platform events into
//! [`handler::step`] and performs the actions it hands back.

pub mod model;
pub mod markup;
pub mod spoiler;
pub mod body;
pub mod handler;
