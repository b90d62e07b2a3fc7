//! A typed, method-driven builder for markup element trees.
//!
//! A `Document` factory creates `Node` values from a tag name; the node's
//! closing policy is resolved once, at creation, from a fixed catalog of
//! known tags. Callers then attach attributes, text and child nodes through
//! the node's own methods, and finally serialize the tree with `render`,
//! a pure depth-first walk that emits the markup string.

mod catalog;
mod document;
mod node;
mod render;
mod strutil;

pub use catalog::Closing;
pub use catalog::is_void_tag;
pub use catalog::lemma_policy_resolution_deterministic;
pub use catalog::lemma_policy_resolution_total;
pub use catalog::policy_of;
pub use catalog::resolve_closing;

pub use document::Document;

pub use node::ChildView;
pub use node::Node;
pub use node::NodeView;
pub use node::attr_token;
pub use node::attr_tokens_of;
pub use node::node_views_of;

pub use render::attrs_segment;
pub use render::lemma_append_order;
pub use render::lemma_attrs_segment_push;
pub use render::lemma_equal_models_render_alike;
pub use render::lemma_render_children_push;
pub use render::lemma_render_childless;
pub use render::lemma_render_new_element;
pub use render::lemma_unpaired_render_ignores_children;
pub use render::render_child;
pub use render::render_children;
pub use render::render_spec;
