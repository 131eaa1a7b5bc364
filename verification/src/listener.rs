//! The values that pass between a size observer and its host.

use vstd::prelude::*;
use yew::{Callback, NodeRef};
use crate::handles::{share_callback, share_node_ref};
use crate::size::ComponentSize;

verus! {

/// What the host found when it looked for the frame's window.
#[derive(Clone, Copy, Debug, PartialEq, Eq, Structural)]
pub enum FrameAccess {
    /// The frame is rendered and its window can be reached.
    Ready,
    /// The frame reference holds no frame element.
    NoFrame,
    /// The frame is there, but it has no window of its own.
    NoWindow,
}

/// Why an observer refused to go on.
///
/// Each of these is a fault in the order of the host's calls. None is
/// retried, and none is passed over in silence.
#[derive(Clone, Copy, Debug, PartialEq, Eq, Structural)]
pub enum ObserverError {
    /// The frame was asked for and was not there.
    FrameUnavailable,
    /// A listener was to be bound and the frame had no window.
    WindowUnavailable,
    /// A listener was to be bound for an observer that was destroyed.
    Unmounted,
}

/// Where an observer stands in its life.
#[derive(Clone, Copy, Debug, PartialEq, Eq, Structural)]
pub enum Lifecycle {
    /// Created, and no listener bound yet.
    MountedNoListener,
    /// A listener is bound to the frame's window.
    MountedListening,
    /// Destroyed; the listener, if there was one, is released.
    Unmounted,
}

/// A subscription to the `resize` events of the frame's window.
///
/// It holds what the event will need: the callback to report to, and the
/// reference through which the frame is found when the event fires.
#[derive(Debug)]
pub struct ResizeListener {
    /// Tells this listener from the one it replaced.
    pub id: u64,
    /// The callback that sizes measured for this listener go to.
    pub callback: Callback<ComponentSize>,
    /// The reference to the frame that is measured.
    pub frame: NodeRef,
}

impl Clone for ResizeListener {
    /// A second handle on the same subscription.
    fn clone(&self) -> (listener: Self)
        ensures
            listener == *self,
    {
        ResizeListener {
            id: self.id,
            callback: share_callback(&self.callback),
            frame: share_node_ref(&self.frame),
        }
    }
}

/// The order to the host to replace the listener on the frame's window.
#[derive(Debug)]
pub struct Binding {
    /// The listener to release, if one was bound.
    pub released: Option<u64>,
    /// The listener to install in its place.
    pub acquired: ResizeListener,
}

/// What a change of configuration asks of the host.
#[derive(Debug)]
pub struct Reaction {
    /// Whether the component has to be rendered again.
    pub should_render: bool,
    /// The listener to replace, if the configuration differed.
    pub binding: Option<Binding>,
}

/// One call of the consumer's callback that the host has to make.
#[derive(Debug)]
pub struct Emission {
    /// The callback to call.
    pub callback: Callback<ComponentSize>,
    /// The size to call it with.
    pub size: ComponentSize,
}

/// The identifier of the listener that follows the one with `id`.
pub open spec fn next_listener_id(id: u64) -> u64 {
    if id == u64::MAX {
        0
    } else {
        (id + 1) as u64
    }
}

} // verus!
