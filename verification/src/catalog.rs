//! The element catalog: a total mapping from tag names to closing policies.
//!
//! The catalog is a fixed table of the tag names that take no closing
//! counterpart; matching is case-sensitive, and every name not in the table
//! defaults to the paired policy. The mapping is resolved once per node, at
//! creation time, and cached on the node.

use vstd::prelude::*;

verus! {

/// How an element's start and end markup is emitted: as a matched pair of
/// open and close tags, as one self-closing tag, or as a lone tag with no
/// closing counterpart.
#[derive(Clone, Copy, Debug, PartialEq, Eq, Structural)]
pub enum Closing {
    Paired,
    SelfClosing,
    Void,
}

/// Whether a tag name is in the fixed table of void elements, the ones
/// rendered with no closing counterpart.
pub open spec fn is_void_tag(tag: Seq<char>) -> bool {
    ||| tag == "area"@
    ||| tag == "base"@
    ||| tag == "br"@
    ||| tag == "command"@
    ||| tag == "col"@
    ||| tag == "embed"@
    ||| tag == "hr"@
    ||| tag == "img"@
    ||| tag == "input"@
    ||| tag == "link"@
    ||| tag == "meta"@
    ||| tag == "param"@
    ||| tag == "source"@
}

/// The catalog mapping: void tags resolve to `Closing::Void`; every other
/// tag name, known or not, defaults to `Closing::Paired`. The catalog
/// currently assigns `Closing::SelfClosing` to no tag name, but the
/// rendering contract covers all three policies.
pub open spec fn policy_of(tag: Seq<char>) -> Closing {
    if is_void_tag(tag) {
        Closing::Void
    } else {
        Closing::Paired
    }
}

/// Relies on str's `PartialEq`: two string slices compare equal exactly
/// when their character sequences are equal.
#[verifier::external_body]
fn str_eq(a: &str, b: &str) -> (r: bool)
    ensures
        r == (a@ == b@),
{
    a == b
}

/// Resolves a tag name to its closing policy. Total and pure: every tag
/// name yields exactly one policy.
pub fn resolve_closing(tag: &str) -> (r: Closing)
    ensures
        r == policy_of(tag@),
{
    if str_eq(tag, "area") || str_eq(tag, "base") || str_eq(tag, "br") || str_eq(tag, "command")
        || str_eq(tag, "col") || str_eq(tag, "embed") || str_eq(tag, "hr") || str_eq(tag, "img")
        || str_eq(tag, "input") || str_eq(tag, "link") || str_eq(tag, "meta")
        || str_eq(tag, "param") || str_eq(tag, "source") {
        Closing::Void
    } else {
        Closing::Paired
    }
}

/// Resolving a closing policy is deterministic: the same tag name resolves
/// to the same policy, on every call.
pub proof fn lemma_policy_resolution_deterministic(t1: Seq<char>, t2: Seq<char>)
    requires
        t1 == t2,
    ensures
        policy_of(t1) == policy_of(t2),
{
}

/// Resolving a closing policy is total: every tag name resolves to one of
/// the three policies.
pub proof fn lemma_policy_resolution_total(t: Seq<char>)
    ensures
        policy_of(t) is Paired || policy_of(t) is SelfClosing || policy_of(t) is Void,
{
}

} // verus!
