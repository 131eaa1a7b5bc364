//! The size observer itself.

use vstd::prelude::*;
use yew::NodeRef;
use crate::handles::{fresh_node_ref, same_callback, share_callback, share_node_ref};
use crate::listener::{
    Binding, Emission, FrameAccess, Lifecycle, ObserverError, Reaction, ResizeListener,
};
use crate::markup::{
    fills_parent, frame_style_fills_parent_unseen, imperceptible, Frame, IFRAME_STYLE,
};
use crate::model::ObserverModel;
use crate::props::Props;
use crate::size::ComponentSize;

verus! {

/// Observes changes to the size of the parent element.
///
/// The observer decides; the host acts. Each hook takes what the host found
/// on the document and returns what the host has to do there: install a
/// listener in place of the last one, or call the consumer's callback.
#[derive(Debug)]
pub struct ComponentSizeObserver {
    props: Props,
    iframe_ref: NodeRef,
    on_resize: Option<ResizeListener>,
    next_id: u64,
    mounted: bool,
}

impl ComponentSizeObserver {
    /// The state of the observer.
    pub closed spec fn model(&self) -> ObserverModel {
        ObserverModel {
            props: self.props,
            frame: self.iframe_ref,
            listener: self.on_resize,
            next_id: self.next_id,
            mounted: self.mounted,
        }
    }

    #[verifier::type_invariant]
    spec fn holds_inv(self) -> bool {
        self.model().inv()
    }

    /// The observer for a component that the host has just created: it has its
    /// configuration and a frame reference of its own, and no listener yet.
    pub fn create(props: Props) -> (observer: Self)
        ensures
            observer.model() == ObserverModel::created(props, observer.model().frame),
            observer.model().inv(),
    {
        ComponentSizeObserver {
            props,
            iframe_ref: fresh_node_ref(),
            on_resize: None,
            next_id: 0,
            mounted: true,
        }
    }

    /// A message has arrived. The component has none of its own: nothing
    /// changes, and nothing has to be rendered again.
    pub fn update(&mut self, _msg: ()) -> (should_render: bool)
        ensures
            !should_render,
            final(self).model() == old(self).model(),
    {
        false
    }

    /// The host supplies a configuration.
    ///
    /// One with the callback that is in force changes nothing. Any other
    /// takes its place, and a listener for it replaces the bound one. Where
    /// that listener cannot be bound the change is refused as a whole. The
    /// component never has to be rendered again.
    pub fn change(&mut self, props: Props, access: FrameAccess) -> (res: Result<
        Reaction,
        ObserverError,
    >)
        ensures
            final(self).model() == old(self).model().change(props, access).0,
            res == old(self).model().change(props, access).1,
            final(self).model().inv(),
    {
        proof {
            use_type_invariant(&*self);
        }
        if same_callback(&props.onsize, &self.props.onsize) {
            return Ok(Reaction { should_render: false, binding: None });
        }
        match self.bind(props, access) {
            Ok(binding) => Ok(Reaction { should_render: false, binding: Some(binding) }),
            Err(error) => Err(error),
        }
    }

    /// Binds a fresh listener for the configuration in force and releases the
    /// one that was bound.
    ///
    /// The host hands the returned listener to the frame's window. Where the
    /// window cannot be reached, or the observer was destroyed, nothing is
    /// bound and nothing changes.
    pub fn add_resize_listener(&mut self, access: FrameAccess) -> (res: Result<
        Binding,
        ObserverError,
    >)
        ensures
            final(self).model() == old(self).model().add_resize_listener(access).0,
            res == old(self).model().add_resize_listener(access).1,
            final(self).model().inv(),
    {
        proof {
            use_type_invariant(&*self);
        }
        let props = self.props.clone();
        self.bind(props, access)
    }

    /// The frame to render: styled to fill the parent unseen, and tied to the
    /// observer's own frame reference.
    pub fn view(&self) -> (frame: Frame)
        ensures
            frame.style@ == IFRAME_STYLE@,
            fills_parent(frame.style@),
            imperceptible(frame.style@),
            frame.node_ref == self.model().frame,
    {
        proof {
            frame_style_fills_parent_unseen();
        }
        Frame { style: IFRAME_STYLE, node_ref: share_node_ref(&self.iframe_ref) }
    }

    /// The host has rendered the component. After the first rendering a
    /// listener is bound; after a later one nothing is done.
    pub fn rendered(&mut self, first_render: bool, access: FrameAccess) -> (res: Result<
        Option<Binding>,
        ObserverError,
    >)
        ensures
            final(self).model() == old(self).model().rendered(first_render, access).0,
            res == old(self).model().rendered(first_render, access).1,
            final(self).model().inv(),
    {
        proof {
            use_type_invariant(&*self);
        }
        if first_render {
            match self.add_resize_listener(access) {
                Ok(binding) => Ok(Some(binding)),
                Err(error) => Err(error),
            }
        } else {
            Ok(None)
        }
    }

    /// The host destroys the component. The bound listener is released: its
    /// identifier is returned for the host to take it off the window, and no
    /// event delivers from now on.
    pub fn destroy(&mut self) -> (released: Option<u64>)
        ensures
            final(self).model() == old(self).model().destroy().0,
            released == old(self).model().destroy().1,
            final(self).model().inv(),
    {
        let released = match &self.on_resize {
            Some(listener) => Some(listener.id),
            None => None,
        };
        self.on_resize = None;
        self.mounted = false;
        released
    }

    /// The listener with identifier `id` has fired; `measured` is the box of
    /// the frame as the host has just read it, or `None` where the frame was
    /// not to be found.
    ///
    /// The bound listener delivers the size, as measured, to the callback in
    /// force. An event of a listener that was replaced or released delivers
    /// nothing. A frame that is gone when the bound listener fires is a fault.
    pub fn resized(&self, id: u64, measured: Option<ComponentSize>) -> (res: Result<
        Option<Emission>,
        ObserverError,
    >)
        ensures
            res == self.model().resized(id, measured),
    {
        match &self.on_resize {
            Some(listener) => {
                if listener.id == id {
                    match measured {
                        Some(size) => Ok(
                            Some(Emission { callback: share_callback(&listener.callback), size }),
                        ),
                        None => Err(ObserverError::FrameUnavailable),
                    }
                } else {
                    Ok(None)
                }
            },
            None => Ok(None),
        }
    }

    /// Where the observer stands in its life.
    pub fn phase(&self) -> (phase: Lifecycle)
        ensures
            phase == self.model().phase(),
    {
        if !self.mounted {
            Lifecycle::Unmounted
        } else if self.on_resize.is_some() {
            Lifecycle::MountedListening
        } else {
            Lifecycle::MountedNoListener
        }
    }

    /// Makes `props` the configuration and a fresh listener for it the bound
    /// one, or fails and leaves the observer as it was.
    fn bind(&mut self, props: Props, access: FrameAccess) -> (res: Result<Binding, ObserverError>)
        ensures
            res == (ObserverModel { props, ..old(self).model() }).add_resize_listener(access).1,
            res is Ok ==> final(self).model() == (ObserverModel {
                props,
                ..old(self).model()
            }).add_resize_listener(access).0,
            res is Err ==> final(self).model() == old(self).model(),
            final(self).model().inv(),
    {
        proof {
            use_type_invariant(&*self);
        }
        if !self.mounted {
            return Err(ObserverError::Unmounted);
        }
        match access {
            FrameAccess::NoFrame => Err(ObserverError::FrameUnavailable),
            FrameAccess::NoWindow => Err(ObserverError::WindowUnavailable),
            FrameAccess::Ready => {
                let released = match &self.on_resize {
                    Some(listener) => Some(listener.id),
                    None => None,
                };
                let id: u64 = self.next_id;
                let bound = ResizeListener {
                    id,
                    callback: share_callback(&props.onsize),
                    frame: share_node_ref(&self.iframe_ref),
                };
                let acquired = bound.clone();
                self.on_resize = None;
                self.props = props;
                self.next_id = if id == u64::MAX {
                    0
                } else {
                    id + 1
                };
                self.on_resize = Some(bound);
                Ok(Binding { released, acquired })
            },
        }
    }
}

} // verus!
