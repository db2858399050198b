//! Typed HTML nodes that render to their own markup.
//!
//! The crate holds the `<noscript>` element, a leaf that carries text and
//! nothing else, together with the union through which it takes its place
//! among the children of a document body. Every function is verified against
//! the model in [`markup`]: the markup of an element as a sequence of
//! characters.

pub mod markup;
pub mod prelude;
pub mod tags;
pub mod text;
