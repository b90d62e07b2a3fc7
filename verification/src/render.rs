//! The rendering model: what `render` emits for a node tree, defined
//! recursively over the node model, together with the laws the emitted
//! markup obeys.
//!
//! The canonical format: a single separating space before each attribute
//! token and nothing before an empty attribute list; children concatenated
//! in insertion order with no inserted whitespace or indentation.

use vstd::prelude::*;
use crate::catalog::Closing;
use crate::catalog::is_void_tag;
use crate::catalog::policy_of;
use crate::node::ChildView;
use crate::node::NodeView;

verus! {

/// The attribute segment of a rendered tag: one space before each token,
/// in insertion order; empty when there are no tokens.
pub open spec fn attrs_segment(attrs: Seq<Seq<char>>) -> Seq<char>
    decreases attrs,
{
    if attrs.len() == 0 {
        Seq::empty()
    } else {
        attrs_segment(attrs.subrange(0, attrs.len() - 1)) + " "@ + attrs[attrs.len() - 1]
    }
}

/// What one child contributes to its parent's rendering: a text child its
/// raw characters, a node child its own full rendering.
pub open spec fn render_child(c: ChildView) -> Seq<char>
    decreases c,
{
    match c {
        ChildView::Text(t) => t,
        ChildView::Elem(n) => render_spec(n),
    }
}

/// The children segment: each child's contribution, concatenated in
/// insertion order.
pub open spec fn render_children(cs: Seq<ChildView>) -> Seq<char>
    decreases cs,
{
    if cs.len() == 0 {
        Seq::empty()
    } else {
        render_children(cs.subrange(0, cs.len() - 1)) + render_child(cs[cs.len() - 1])
    }
}

/// The rendering of a node: tag name, attribute segment and children
/// combined according to the closing policy. A paired node renders as
/// `<tag attrs>children</tag>`; a self-closing node as `<tag attrs/>` and a
/// void node as `<tag attrs>`, both ignoring any children.
pub open spec fn render_spec(n: NodeView) -> Seq<char>
    decreases n,
{
    match n.closing {
        Closing::Paired => "<"@ + n.tag + attrs_segment(n.attrs) + ">"@ + render_children(
            n.children,
        ) + "</"@ + n.tag + ">"@,
        Closing::SelfClosing => "<"@ + n.tag + attrs_segment(n.attrs) + "/>"@,
        Closing::Void => "<"@ + n.tag + attrs_segment(n.attrs) + ">"@,
    }
}

/// Appending an attribute token extends the attribute segment on the
/// right: a space, then the token.
pub proof fn lemma_attrs_segment_push(s: Seq<Seq<char>>, x: Seq<char>)
    ensures
        attrs_segment(s.push(x)) == attrs_segment(s) + " "@ + x,
{
    assert(s.push(x).subrange(0, s.push(x).len() - 1) =~= s);
    assert(s.push(x)[s.push(x).len() - 1] == x);
}

/// Appending a child extends the children segment on the right by exactly
/// that child's contribution.
pub proof fn lemma_render_children_push(s: Seq<ChildView>, c: ChildView)
    ensures
        render_children(s.push(c)) == render_children(s) + render_child(c),
{
    assert(s.push(c).subrange(0, s.push(c).len() - 1) =~= s);
    assert(s.push(c)[s.push(c).len() - 1] == c);
}

/// A childless, attribute-less node renders as `<tag></tag>` under the
/// paired policy, as `<tag/>` under the self-closing policy, and as
/// `<tag>` under the void policy.
pub proof fn lemma_render_childless(n: NodeView)
    requires
        n.attrs.len() == 0,
        n.children.len() == 0,
    ensures
        n.closing is Paired ==> render_spec(n) == "<"@ + n.tag + ">"@ + "</"@ + n.tag + ">"@,
        n.closing is SelfClosing ==> render_spec(n) == "<"@ + n.tag + "/>"@,
        n.closing is Void ==> render_spec(n) == "<"@ + n.tag + ">"@,
{
    match n.closing {
        Closing::Paired => {
            assert(render_spec(n) =~= "<"@ + n.tag + ">"@ + "</"@ + n.tag + ">"@);
        },
        Closing::SelfClosing => {
            assert(render_spec(n) =~= "<"@ + n.tag + "/>"@);
        },
        Closing::Void => {
            assert(render_spec(n) =~= "<"@ + n.tag + ">"@);
        },
    }
}

/// A freshly created element, childless and attribute-less, its policy
/// resolved from the catalog, renders as `<tag>` when its tag is in the
/// void table and as `<tag></tag>` otherwise.
pub proof fn lemma_render_new_element(n: NodeView)
    requires
        n.attrs.len() == 0,
        n.children.len() == 0,
        n.closing == policy_of(n.tag),
    ensures
        is_void_tag(n.tag) ==> render_spec(n) == "<"@ + n.tag + ">"@,
        !is_void_tag(n.tag) ==> render_spec(n) == "<"@ + n.tag + ">"@ + "</"@ + n.tag + ">"@,
{
    lemma_render_childless(n);
}

/// Appending one child and then another preserves insertion order: in the
/// children segment, the first child's contribution stands before the
/// second's, after everything already there.
pub proof fn lemma_append_order(cs: Seq<ChildView>, a: ChildView, b: ChildView)
    ensures
        render_children(cs.push(a).push(b)) == render_children(cs) + render_child(a)
            + render_child(b),
{
    lemma_render_children_push(cs, a);
    lemma_render_children_push(cs.push(a), b);
}

/// A node whose policy is void or self-closing renders exactly as it would
/// with any other children list: children never reach the output.
pub proof fn lemma_unpaired_render_ignores_children(n: NodeView, m: NodeView)
    requires
        !(n.closing is Paired),
        m.tag == n.tag,
        m.attrs == n.attrs,
        m.closing == n.closing,
    ensures
        render_spec(n) == render_spec(m),
{
}

/// Rendering is a pure function of the node model: two nodes with equal
/// models, such as a node and its fresh clone, render to the same string.
pub proof fn lemma_equal_models_render_alike(n: NodeView, m: NodeView)
    requires
        n == m,
    ensures
        render_spec(n) == render_spec(m),
{
}

} // verus!
