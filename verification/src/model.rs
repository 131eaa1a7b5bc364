//! The life of a size observer as a state machine, and the window it binds to.

use vstd::prelude::*;
use yew::NodeRef;
use crate::listener::{
    next_listener_id, Binding, Emission, FrameAccess, Lifecycle, ObserverError, Reaction,
    ResizeListener,
};
use crate::props::Props;
use crate::size::ComponentSize;

verus! {

/// The state of a size observer.
pub struct ObserverModel {
    /// The configuration in force.
    pub props: Props,
    /// The reference to the rendered frame.
    pub frame: NodeRef,
    /// The listener that is bound, if any.
    pub listener: Option<ResizeListener>,
    /// The identifier that the next listener gets.
    pub next_id: u64,
    /// Whether the observer has not been destroyed.
    pub mounted: bool,
}

impl ObserverModel {
    /// An observer as it is created: configured, nothing bound.
    pub open spec fn created(props: Props, frame: NodeRef) -> ObserverModel {
        ObserverModel { props, frame, listener: None, next_id: 0, mounted: true }
    }

    /// What every observer keeps: a bound listener reports to the callback of
    /// the configuration in force, finds the frame through the observer's own
    /// reference, is the last one that was made, and belongs to an observer
    /// that is still mounted.
    pub open spec fn inv(self) -> bool {
        self.listener matches Some(l) ==> {
            &&& l.callback == self.props.onsize
            &&& l.frame == self.frame
            &&& next_listener_id(l.id) == self.next_id
            &&& self.mounted
        }
    }

    /// Where the observer stands in its life.
    pub open spec fn phase(self) -> Lifecycle {
        if !self.mounted {
            Lifecycle::Unmounted
        } else if self.listener is Some {
            Lifecycle::MountedListening
        } else {
            Lifecycle::MountedNoListener
        }
    }

    /// The listener that a binding would make now.
    pub open spec fn fresh_listener(self) -> ResizeListener {
        ResizeListener { id: self.next_id, callback: self.props.onsize, frame: self.frame }
    }

    /// The identifier of the bound listener, if any.
    pub open spec fn listener_id(self) -> Option<u64> {
        match self.listener {
            Some(l) => Some(l.id),
            None => None,
        }
    }

    /// Binds a fresh listener in place of the one that is bound.
    ///
    /// It fails, and changes nothing, on an observer that was destroyed and
    /// where the frame's window cannot be reached.
    pub open spec fn add_resize_listener(self, access: FrameAccess) -> (
        ObserverModel,
        Result<Binding, ObserverError>,
    ) {
        if !self.mounted {
            (self, Err(ObserverError::Unmounted))
        } else {
            match access {
                FrameAccess::NoFrame => (self, Err(ObserverError::FrameUnavailable)),
                FrameAccess::NoWindow => (self, Err(ObserverError::WindowUnavailable)),
                FrameAccess::Ready => (
                    ObserverModel {
                        listener: Some(self.fresh_listener()),
                        next_id: next_listener_id(self.next_id),
                        ..self
                    },
                    Ok(Binding { released: self.listener_id(), acquired: self.fresh_listener() }),
                ),
            }
        }
    }

    /// The host has rendered the component: the first time a listener is bound.
    pub open spec fn rendered(self, first_render: bool, access: FrameAccess) -> (
        ObserverModel,
        Result<Option<Binding>, ObserverError>,
    ) {
        if first_render {
            match self.add_resize_listener(access).1 {
                Ok(binding) => (self.add_resize_listener(access).0, Ok(Some(binding))),
                Err(error) => (self, Err(error)),
            }
        } else {
            (self, Ok(None))
        }
    }

    /// The host supplies a configuration: one that differs from the one in
    /// force takes its place, and a listener for it replaces the bound one. If
    /// that listener cannot be bound, the change is refused as a whole.
    pub open spec fn change(self, props: Props, access: FrameAccess) -> (
        ObserverModel,
        Result<Reaction, ObserverError>,
    ) {
        if props == self.props {
            (self, Ok(Reaction { should_render: false, binding: None }))
        } else {
            let configured = ObserverModel { props, ..self };
            match configured.add_resize_listener(access).1 {
                Ok(binding) => (
                    configured.add_resize_listener(access).0,
                    Ok(Reaction { should_render: false, binding: Some(binding) }),
                ),
                Err(error) => (self, Err(error)),
            }
        }
    }

    /// The host destroys the component: the listener is released.
    pub open spec fn destroy(self) -> (ObserverModel, Option<u64>) {
        (ObserverModel { listener: None, mounted: false, ..self }, self.listener_id())
    }

    /// The listener with identifier `id` has fired, and the host has measured
    /// the frame, if it found it.
    ///
    /// Only the bound listener delivers: its callback gets the size as it was
    /// measured. An event of any other listener is dropped. A frame that is
    /// gone when the bound listener fires is a fault.
    pub open spec fn resized(self, id: u64, measured: Option<ComponentSize>) -> Result<
        Option<Emission>,
        ObserverError,
    > {
        match self.listener {
            Some(l) if l.id == id => match measured {
                Some(size) => Ok(Some(Emission { callback: l.callback, size })),
                None => Err(ObserverError::FrameUnavailable),
            },
            _ => Ok(None),
        }
    }
}

} // verus!
