//! The decisions of a component that watches the size of its parent element.
//!
//! The component renders a hidden frame that fills its parent and listens for
//! the `resize` events of that frame's own window. This crate holds the part
//! that decides: which listener is bound, when it is replaced, and what a
//! resize event delivers to whom. The host performs what is decided here on
//! the document and reports back what it found there.

pub mod handles;
pub mod listener;
pub mod markup;
pub mod model;
pub mod observer;
pub mod props;
pub mod size;
pub mod window;

pub use listener::{
    Binding, Emission, FrameAccess, Lifecycle, ObserverError, Reaction, ResizeListener,
};
pub use markup::{Frame, IFRAME_STYLE};
pub use observer::ComponentSizeObserver;
pub use props::Props;
pub use size::ComponentSize;
