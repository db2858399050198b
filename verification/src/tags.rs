//! The elements, one module each, and the union that gathers them.

pub mod body;
pub mod noscript;
