//! The factory role: the sole way to create nodes, so that every node
//! carries a closing policy resolved from the catalog for its tag name.

use vstd::prelude::*;
use crate::catalog::policy_of;
use crate::catalog::resolve_closing;
use crate::node::ChildView;
use crate::node::Node;

verus! {

/// The root of the element tree's construction. It only serves the purpose
/// of creating new nodes.
pub struct Document;

impl Document {
    /// Creates a new, empty node with the given tag, its closing policy
    /// resolved once from the catalog and cached for the node's lifetime.
    pub fn create_element(element_tag: &str) -> (r: Node)
        ensures
            r@.tag == element_tag@,
            r@.attrs == Seq::<Seq<char>>::empty(),
            r@.children == Seq::<ChildView>::empty(),
            r@.closing == policy_of(element_tag@),
    {
        let closing_type = resolve_closing(element_tag);
        Node::new(element_tag.to_owned(), closing_type)
    }
}

} // verus!
