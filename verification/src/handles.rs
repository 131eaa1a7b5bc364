//! The two handles of `yew` that a size observer carries: the consumer's
//! callback and the reference to the rendered frame.
//!
//! Both are shared pointers. Nothing here looks inside one: a handle is
//! handed on, shared, and, for a callback, told apart from another. In
//! contracts two handles are equal when they are one and the same shared
//! pointer, whatever it points at holds at the time. What this module
//! states of `yew` is believed, not proved.

use vstd::prelude::*;
use yew::{Callback, NodeRef};
use crate::size::ComponentSize;

verus! {

/// `yew::Callback`, carried as an opaque value.
#[verifier::external_type_specification]
#[verifier::external_body]
#[verifier::reject_recursive_types(IN)]
pub struct ExCallback<IN>(Callback<IN>);

/// `yew::NodeRef`, carried as an opaque value.
#[verifier::external_type_specification]
#[verifier::external_body]
pub struct ExNodeRef(NodeRef);

/// Calls `PartialEq::eq` of `yew::Callback`, which compares the two shared
/// pointers with `Rc::ptr_eq`: it answers whether both handles point at one
/// and the same closure. Two callbacks are equal here exactly when they do,
/// so the answer is their equality.
#[verifier::external_body]
pub(crate) fn same_callback(
    a: &Callback<ComponentSize>,
    b: &Callback<ComponentSize>,
) -> (same: bool)
    ensures
        same == (*a == *b),
{
    a.eq(b)
}

/// Calls `Clone::clone` of `yew::Callback`, which clones the shared pointer:
/// the result points at the closure that `callback` points at, and is
/// therefore equal to it.
#[verifier::external_body]
pub(crate) fn share_callback(callback: &Callback<ComponentSize>) -> (shared: Callback<
    ComponentSize,
>)
    ensures
        shared == *callback,
{
    callback.clone()
}

/// Calls `Default::default` of `yew::NodeRef`, which makes a reference that
/// holds no node yet. Nothing is stated of it: each call gives a reference
/// of its own.
#[verifier::external_body]
pub(crate) fn fresh_node_ref() -> (node_ref: NodeRef) {
    NodeRef::default()
}

/// Calls `Clone::clone` of `yew::NodeRef`, which clones the shared pointer:
/// the result refers to the cell that `node_ref` refers to, and is therefore
/// equal to it. What node the cell holds is not spoken of.
#[verifier::external_body]
pub(crate) fn share_node_ref(node_ref: &NodeRef) -> (shared: NodeRef)
    ensures
        shared == *node_ref,
{
    node_ref.clone()
}

} // verus!
