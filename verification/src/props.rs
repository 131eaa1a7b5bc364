//! The configuration of a size observer.

use vstd::prelude::*;
use yew::Callback;
use crate::handles::{same_callback, share_callback};
use crate::size::ComponentSize;

verus! {

/// The configuration of a `ComponentSizeObserver`.
///
/// Two configurations are equal when their callbacks are one and the same
/// shared closure; what the closure does is not compared.
#[derive(Debug)]
pub struct Props {
    /// A callback that is fired when the component size changes for any reason.
    pub onsize: Callback<ComponentSize>,
}

impl Props {
    /// The configuration that reports to `onsize`.
    pub fn new(onsize: Callback<ComponentSize>) -> (props: Self)
        ensures
            props.onsize == onsize,
    {
        Props { onsize }
    }
}

impl Clone for Props {
    /// A configuration with the same callback.
    fn clone(&self) -> (props: Self)
        ensures
            props == *self,
    {
        Props { onsize: share_callback(&self.onsize) }
    }
}

impl PartialEq for Props {
    fn eq(&self, other: &Self) -> (same: bool) {
        same_callback(&self.onsize, &other.onsize)
    }
}

impl vstd::std_specs::cmp::PartialEqSpecImpl for Props {
    open spec fn obeys_eq_spec() -> bool {
        true
    }

    open spec fn eq_spec(&self, other: &Self) -> bool {
        self.onsize == other.onsize
    }
}

} // verus!
