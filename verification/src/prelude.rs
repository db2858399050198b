//! The names that most programs need.

pub use crate::tags::body::BodyNode;
pub use crate::tags::noscript::{noscript, NoScript};
