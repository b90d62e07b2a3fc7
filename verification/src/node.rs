//! The node tree: one element instance with its tag name, attribute tokens,
//! children and cached closing policy, together with the mathematical model
//! that the contracts speak of.

use vstd::prelude::*;
use crate::catalog::Closing;
use crate::render::attrs_segment;
use crate::render::lemma_attrs_segment_push;
use crate::render::lemma_render_children_push;
use crate::render::render_children;
use crate::render::render_spec;

verus! {

/// A child of a node: literal text, or a nested element.
enum Children {
    Text(String),
    Node(Node),
}

/// One element in the tree. The tag name and the closing policy are fixed
/// at creation; attributes and children grow through the mutator methods
/// and keep their insertion order. Absent lists and empty lists render the
/// same, so the model does not distinguish them.
pub struct Node {
    tag: String,
    attributes: Option<Vec<String>>,
    children: Option<Vec<Children>>,
    closing_type: Closing,
}

/// The model of a child: its text, or the model of the nested element.
#[verifier::ext_equal]
pub ghost enum ChildView {
    Text(Seq<char>),
    Elem(NodeView),
}

/// The model of a node: tag name, attribute tokens and children in
/// insertion order, and the closing policy.
#[verifier::ext_equal]
pub ghost struct NodeView {
    pub tag: Seq<char>,
    pub attrs: Seq<Seq<char>>,
    pub children: Seq<ChildView>,
    pub closing: Closing,
}

spec fn attrs_view(a: Option<Vec<String>>) -> Seq<Seq<char>> {
    match a {
        Some(v) => v@.map_values(|s: String| s@),
        None => Seq::empty(),
    }
}

/// The attribute tokens that `set_attribute_list` appends for the given
/// name/value pairs, in order.
pub open spec fn attr_tokens_of(pairs: Seq<(&str, &str)>) -> Seq<Seq<char>> {
    pairs.map_values(|p: (&str, &str)| attr_token(p.0@, p.1@))
}

/// The models of the given nodes, in order.
pub open spec fn node_views_of(nodes: Seq<Node>) -> Seq<ChildView> {
    nodes.map_values(|n: Node| ChildView::Elem(n@))
}

spec fn child_view(c: Children) -> ChildView
    decreases c,
{
    match c {
        Children::Text(t) => ChildView::Text(t@),
        Children::Node(n) => ChildView::Elem(n.view()),
    }
}

spec fn children_view(s: Seq<Children>) -> Seq<ChildView>
    decreases s,
{
    if s.len() == 0 {
        Seq::empty()
    } else {
        children_view(s.subrange(0, s.len() - 1)).push(child_view(s[s.len() - 1]))
    }
}

/// The attribute token `name="value"` that `set_attribute` appends.
pub open spec fn attr_token(name: Seq<char>, value: Seq<char>) -> Seq<char> {
    name + "=\""@ + value + "\""@
}

fn format_attr(name: &str, value: &str) -> (r: String)
    ensures
        r@ == attr_token(name@, value@),
{
    let mut out = String::new();
    out.push_str(name);
    out.push_str("=\"");
    out.push_str(value);
    out.push_str("\"");
    proof {
        assert(out@ =~= attr_token(name@, value@));
    }
    out
}

proof fn lemma_children_view_index(s: Seq<Children>)
    ensures
        children_view(s).len() == s.len(),
        forall|i: int| 0 <= i < s.len() ==> #[trigger] children_view(s)[i] == child_view(s[i]),
    decreases s,
{
    if s.len() > 0 {
        let pre = s.subrange(0, s.len() - 1);
        lemma_children_view_index(pre);
        assert forall|i: int| 0 <= i < s.len() implies #[trigger] children_view(s)[i]
            == child_view(s[i]) by {
            if i < s.len() - 1 {
                assert(children_view(s)[i] == children_view(pre)[i]);
                assert(pre[i] == s[i]);
            }
        }
    }
}

proof fn lemma_children_view_push(s: Seq<Children>, c: Children)
    ensures
        children_view(s.push(c)) == children_view(s).push(child_view(c)),
{
    assert(s.push(c).subrange(0, s.push(c).len() - 1) =~= s);
    assert(s.push(c)[s.push(c).len() - 1] == c);
}

fn clone_tokens(tokens: &Vec<String>) -> (r: Vec<String>)
    ensures
        r@ == tokens@,
{
    let mut out: Vec<String> = Vec::new();
    let mut i: usize = 0;
    while i < tokens.len()
        invariant
            i <= tokens.len(),
            out@.len() == i,
            forall|j: int| 0 <= j < i ==> out@[j] == tokens@[j],
        decreases tokens.len() - i,
    {
        out.push(tokens[i].clone());
        i += 1;
    }
    proof {
        assert(out@ =~= tokens@);
    }
    out
}

fn clone_children(children: &Vec<Children>) -> (r: Vec<Children>)
    ensures
        children_view(r@) == children_view(children@),
    decreases children,
{
    let mut out: Vec<Children> = Vec::new();
    let mut i: usize = 0;
    while i < children.len()
        invariant
            i <= children.len(),
            out@.len() == i,
            forall|j: int| 0 <= j < i ==> #[trigger] child_view(out@[j]) == child_view(
                children@[j],
            ),
        decreases children.len() - i,
    {
        let c: Children = match &children[i] {
            Children::Text(text) => Children::Text(text.clone()),
            Children::Node(node) => Children::Node(node.clone_node()),
        };
        out.push(c);
        i += 1;
    }
    proof {
        lemma_children_view_index(out@);
        lemma_children_view_index(children@);
        assert(children_view(out@) =~= children_view(children@));
    }
    out
}

impl Node {
    /// A new, empty node with the given tag name and closing policy. Only
    /// the `Document` factory calls this, after resolving the policy from
    /// the catalog, so every node's policy agrees with its tag name.
    pub(crate) fn new(tag: String, closing_type: Closing) -> (r: Node)
        ensures
            r@.tag == tag@,
            r@.attrs == Seq::<Seq<char>>::empty(),
            r@.children == Seq::<ChildView>::empty(),
            r@.closing == closing_type,
    {
        Node { tag, attributes: None, children: None, closing_type }
    }

    /// The model of this node and its whole subtree.
    pub closed spec fn view(&self) -> NodeView
        decreases self,
    {
        NodeView {
            tag: self.tag@,
            attrs: attrs_view(self.attributes),
            children: match self.children {
                Some(cs) => children_view(cs@),
                None => Seq::empty(),
            },
            closing: self.closing_type,
        }
    }

    /// Appends the formatted token `name="value"` to the node's attribute
    /// list, creating the list if absent. Names are not deduplicated and
    /// no character of either argument is escaped or rejected.
    pub fn set_attribute(&mut self, name: &str, value: &str)
        ensures
            final(self)@.tag == old(self)@.tag,
            final(self)@.attrs == old(self)@.attrs.push(attr_token(name@, value@)),
            final(self)@.children == old(self)@.children,
            final(self)@.closing == old(self)@.closing,
    {
        let token = format_attr(name, value);
        let mut attrs: Vec<String> = match self.attributes.take() {
            Some(v) => v,
            None => Vec::new(),
        };
        attrs.push(token);
        self.attributes = Some(attrs);
        proof {
            assert(self@.attrs =~= old(self)@.attrs.push(attr_token(name@, value@)));
        }
    }

    /// Applies `set_attribute` to each name/value pair, in the given order.
    pub fn set_attribute_list(&mut self, attributes: Vec<(&str, &str)>)
        ensures
            final(self)@.tag == old(self)@.tag,
            final(self)@.attrs == old(self)@.attrs + attr_tokens_of(attributes@),
            final(self)@.children == old(self)@.children,
            final(self)@.closing == old(self)@.closing,
    {
        proof {
            assert(self@.attrs =~= old(self)@.attrs + attr_tokens_of(attributes@.take(0)));
        }
        let mut i: usize = 0;
        while i < attributes.len()
            invariant
                i <= attributes.len(),
                self@.tag == old(self)@.tag,
                self@.attrs == old(self)@.attrs + attr_tokens_of(attributes@.take(i as int)),
                self@.children == old(self)@.children,
                self@.closing == old(self)@.closing,
            decreases attributes.len() - i,
        {
            let pair = attributes[i];
            self.set_attribute(pair.0, pair.1);
            i += 1;
            proof {
                assert(attributes@.take(i as int) =~= attributes@.take(i - 1).push(
                    attributes@[i - 1],
                ));
                assert(attr_tokens_of(attributes@.take(i - 1).push(attributes@[i - 1])) =~= (
                attr_tokens_of(attributes@.take(i - 1)).push(
                    attr_token(attributes@[i - 1].0@, attributes@[i - 1].1@),
                )));
                assert(self@.attrs =~= old(self)@.attrs + attr_tokens_of(
                    attributes@.take(i as int),
                ));
            }
        }
        proof {
            assert(attributes@.take(attributes@.len() as int) =~= attributes@);
        }
    }

    /// Appends a text child holding `value` verbatim, creating the children
    /// list if absent. Repeated calls append further text children; nothing
    /// is replaced, and no character is escaped.
    pub fn inner_text(&mut self, value: &str)
        ensures
            final(self)@.tag == old(self)@.tag,
            final(self)@.attrs == old(self)@.attrs,
            final(self)@.children == old(self)@.children.push(ChildView::Text(value@)),
            final(self)@.closing == old(self)@.closing,
    {
        let mut children: Vec<Children> = match self.children.take() {
            Some(v) => v,
            None => Vec::new(),
        };
        children.push(Children::Text(value.to_owned()));
        self.children = Some(children);
        proof {
            let prev: Seq<Children> = match old(self).children {
                Some(v) => v@,
                None => Seq::empty(),
            };
            let c = self.children->Some_0@.last();
            assert(self.children->Some_0@ == prev.push(c));
            lemma_children_view_push(prev, c);
        }
    }

    /// Appends a node child, creating the children list if absent. The
    /// parent's closing policy is not consulted: a child appended to a void
    /// or self-closing node is kept in the tree and ignored by `render`.
    pub fn append_child(&mut self, node: Node)
        ensures
            final(self)@.tag == old(self)@.tag,
            final(self)@.attrs == old(self)@.attrs,
            final(self)@.children == old(self)@.children.push(ChildView::Elem(node@)),
            final(self)@.closing == old(self)@.closing,
    {
        let mut children: Vec<Children> = match self.children.take() {
            Some(v) => v,
            None => Vec::new(),
        };
        children.push(Children::Node(node));
        self.children = Some(children);
        proof {
            let prev: Seq<Children> = match old(self).children {
                Some(v) => v@,
                None => Seq::empty(),
            };
            let c = self.children->Some_0@.last();
            assert(self.children->Some_0@ == prev.push(c));
            lemma_children_view_push(prev, c);
        }
    }

    /// Appends each node in the given order, via `append_child`.
    pub fn append_child_list(&mut self, children: Vec<Node>)
        ensures
            final(self)@.tag == old(self)@.tag,
            final(self)@.attrs == old(self)@.attrs,
            final(self)@.children == old(self)@.children + node_views_of(children@),
            final(self)@.closing == old(self)@.closing,
    {
        let ghost orig: Seq<Node> = children@;
        let mut rest = children;
        proof {
            assert(self@.children =~= old(self)@.children + node_views_of(orig.take(0)));
            assert(rest@ =~= orig.skip(0));
        }
        while rest.len() > 0
            invariant
                rest@.len() <= orig.len(),
                rest@ == orig.skip(orig.len() - rest@.len()),
                self@.tag == old(self)@.tag,
                self@.attrs == old(self)@.attrs,
                self@.children == old(self)@.children + node_views_of(
                    orig.take(orig.len() - rest@.len()),
                ),
                self@.closing == old(self)@.closing,
            decreases rest@.len(),
        {
            let ghost k = orig.len() - rest@.len();
            let node = rest.remove(0);
            proof {
                assert(node == orig[k]);
                assert(rest@ =~= orig.skip(k + 1));
            }
            self.append_child(node);
            proof {
                assert(orig.take(k + 1) =~= orig.take(k).push(orig[k]));
                assert(node_views_of(orig.take(k).push(orig[k])) =~= node_views_of(
                    orig.take(k),
                ).push(ChildView::Elem(orig[k]@)));
                assert(self@.children =~= old(self)@.children + node_views_of(orig.take(k + 1)));
            }
        }
        proof {
            assert(orig.take(orig.len() as int) =~= orig);
        }
    }

    /// Returns a deep, independent copy of this node: the attribute list is
    /// copied element-wise, text children by value and node children by a
    /// recursive copy; the tag name and the closing policy are copied. The
    /// copy shares no mutable state with the original, so mutating either
    /// afterwards leaves the other unchanged.
    pub fn clone_node(&self) -> (r: Node)
        ensures
            r@ == self@,
        decreases self,
    {
        let cloned_attributes: Option<Vec<String>> = match &self.attributes {
            Some(attrs) => Some(clone_tokens(attrs)),
            None => None,
        };
        let cloned_children: Option<Vec<Children>> = match &self.children {
            Some(children) => Some(clone_children(children)),
            None => None,
        };
        let r = Node {
            tag: self.tag.clone(),
            attributes: cloned_attributes,
            children: cloned_children,
            closing_type: self.closing_type,
        };
        proof {
            assert(r@ =~= self@);
        }
        r
    }

    /// Serializes the node and its subtree: a pure, read-only, depth-first
    /// walk producing the markup string that `render_spec` defines. It can
    /// be called repeatedly and never fails.
    pub fn render(&self) -> (r: String)
        ensures
            r@ == render_spec(self@),
        decreases self,
    {
        let mut out = String::new();
        out.push_str("<");
        out.push_str(self.tag.as_str());
        proof {
            assert(out@ =~= "<"@ + self@.tag);
        }
        match &self.attributes {
            Some(attrs) => {
                proof {
                    assert(self@.attrs.take(0) =~= Seq::<Seq<char>>::empty());
                    assert(out@ =~= "<"@ + self@.tag + attrs_segment(self@.attrs.take(0)));
                }
                let mut i: usize = 0;
                while i < attrs.len()
                    invariant
                        i <= attrs.len(),
                        self@.attrs == attrs@.map_values(|s: String| s@),
                        out@ == "<"@ + self@.tag + attrs_segment(self@.attrs.take(i as int)),
                    decreases attrs.len() - i,
                {
                    out.push_str(" ");
                    out.push_str(attrs[i].as_str());
                    i += 1;
                    proof {
                        assert(self@.attrs.take(i as int) =~= self@.attrs.take(i - 1).push(
                            self@.attrs[i - 1],
                        ));
                        lemma_attrs_segment_push(self@.attrs.take(i - 1), self@.attrs[i - 1]);
                        assert(out@ =~= "<"@ + self@.tag + attrs_segment(
                            self@.attrs.take(i as int),
                        ));
                    }
                }
                proof {
                    assert(self@.attrs.take(self@.attrs.len() as int) =~= self@.attrs);
                }
            },
            None => {
                proof {
                    assert(out@ =~= "<"@ + self@.tag + attrs_segment(self@.attrs));
                }
            },
        }
        match self.closing_type {
            Closing::Paired => {
                out.push_str(">");
                match &self.children {
                    Some(children) => {
                        proof {
                            assert(self@.children.take(0) =~= Seq::<ChildView>::empty());
                            assert(out@ =~= "<"@ + self@.tag + attrs_segment(self@.attrs) + ">"@
                                + render_children(self@.children.take(0)));
                        }
                        let mut i: usize = 0;
                        while i < children.len()
                            invariant
                                i <= children.len(),
                                *children == self.children->Some_0,
                                self@.children == children_view(children@),
                                out@ == "<"@ + self@.tag + attrs_segment(self@.attrs) + ">"@
                                    + render_children(self@.children.take(i as int)),
                            decreases children.len() - i,
                        {
                            match &children[i] {
                                Children::Text(text) => {
                                    out.push_str(text.as_str());
                                },
                                Children::Node(node) => {
                                    proof {
                                        assert(decreases_to!(*self => self.children));
                                        assert(decreases_to!(self.children => self.children->Some_0));
                                        assert(*children == self.children->Some_0);
                                        assert(decreases_to!(*children => children@));
                                        assert(decreases_to!(children@ => children@[i as int]));
                                        assert(decreases_to!(children@[i as int] => *node));
                                    }
                                    let rendered = node.render();
                                    out.push_str(rendered.as_str());
                                },
                            }
                            i += 1;
                            proof {
                                lemma_children_view_index(children@);
                                assert(self@.children.take(i as int) =~= self@.children.take(
                                    i - 1,
                                ).push(self@.children[i - 1]));
                                lemma_render_children_push(
                                    self@.children.take(i - 1),
                                    self@.children[i - 1],
                                );
                                assert(out@ =~= "<"@ + self@.tag + attrs_segment(self@.attrs)
                                    + ">"@ + render_children(self@.children.take(i as int)));
                            }
                        }
                        proof {
                            lemma_children_view_index(children@);
                            assert(self@.children.len() == children@.len());
                            assert(self@.children.take(self@.children.len() as int)
                                =~= self@.children);
                        }
                    },
                    None => {
                        proof {
                            assert(out@ =~= "<"@ + self@.tag + attrs_segment(self@.attrs) + ">"@
                                + render_children(self@.children));
                        }
                    },
                }
                out.push_str("</");
                out.push_str(self.tag.as_str());
                out.push_str(">");
                proof {
                    assert(out@ =~= render_spec(self@));
                }
            },
            Closing::SelfClosing => {
                out.push_str("/>");
                proof {
                    assert(out@ =~= render_spec(self@));
                }
            },
            Closing::Void => {
                out.push_str(">");
                proof {
                    assert(out@ =~= render_spec(self@));
                }
            },
        }
        out
    }
}

} // verus!
