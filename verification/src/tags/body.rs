//! What may stand among the children of a document body.

use crate::tags::noscript::NoScript;
use vstd::prelude::*;
use vstd::std_specs::convert::FromSpec;

verus! {

/// A node of a document body: one variant for each element that may stand
/// there. An element becomes a body node by `From`, which wraps it and
/// changes nothing in it.
#[derive(Debug)]
#[non_exhaustive]
pub enum BodyNode {
    /// A `<noscript>` tag.
    NoScript(NoScript),
}

impl BodyNode {
    /// The `<noscript>` tag that the node wraps, if it wraps one.
    pub open spec fn noscript(self) -> Option<NoScript> {
        match self {
            BodyNode::NoScript(tag) => Some(tag),
        }
    }

    /// Takes the `<noscript>` tag out of the node, if the node wraps one.
    pub fn into_noscript(self) -> (tag: Option<NoScript>)
        ensures
            tag == self.noscript(),
    {
        match self {
            BodyNode::NoScript(tag) => Some(tag),
        }
    }
}

impl From<NoScript> for BodyNode {
    /// Wraps the tag.
    fn from(tag: NoScript) -> (node: BodyNode)
        ensures
            node == BodyNode::NoScript(tag),
    {
        BodyNode::NoScript(tag)
    }
}

impl vstd::std_specs::convert::FromSpecImpl<NoScript> for BodyNode {
    open spec fn obeys_from_spec() -> bool {
        true
    }

    open spec fn from_spec(tag: NoScript) -> BodyNode {
        BodyNode::NoScript(tag)
    }
}

/// Wrapping loses nothing: the tag that comes out of a node is the tag that
/// went into it, with the text it had.
pub proof fn lemma_wrap_is_lossless(tag: NoScript)
    ensures
        BodyNode::from_spec(tag).noscript() == Some(tag),
        BodyNode::from_spec(tag).noscript().unwrap()@ == tag@,
{
}

} // verus!
