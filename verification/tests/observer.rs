use std::cell::RefCell;
use std::rc::Rc;

use yew::Callback;
use yew_component_size::listener::{FrameAccess, Lifecycle, ObserverError};
use yew_component_size::markup::IFRAME_STYLE;
use yew_component_size::{ComponentSize, ComponentSizeObserver, Props};

type Seen = Rc<RefCell<Vec<(f64, f64)>>>;

fn recorder() -> (Seen, Props) {
    let seen: Seen = Rc::new(RefCell::new(Vec::new()));
    let sink = Rc::clone(&seen);
    let onsize = Callback::from(move |size: ComponentSize| {
        sink.borrow_mut().push((f64::from_bits(size.width_bits), f64::from_bits(size.height_bits)));
    });
    (seen, Props::new(onsize))
}

fn measured(width: f64, height: f64) -> Option<ComponentSize> {
    Some(ComponentSize::new(width.to_bits(), height.to_bits()))
}

/// Fires the listener `id` and makes the call that the observer asks for.
fn fire(observer: &ComponentSizeObserver, id: u64, size: Option<ComponentSize>) -> usize {
    match observer.resized(id, size).unwrap() {
        Some(emission) => {
            emission.callback.emit(emission.size);
            1
        }
        None => 0,
    }
}

#[test]
fn created_observer_has_no_listener() {
    let (seen, props) = recorder();
    let observer = ComponentSizeObserver::create(props);
    assert_eq!(observer.phase(), Lifecycle::MountedNoListener);
    assert_eq!(fire(&observer, 0, measured(200.0, 100.0)), 0);
    assert!(seen.borrow().is_empty());
}

#[test]
fn first_render_binds_exactly_one_listener() {
    let (_, props) = recorder();
    let mut observer = ComponentSizeObserver::create(props.clone());
    let binding = observer.rendered(true, FrameAccess::Ready).unwrap().unwrap();
    assert_eq!(binding.released, None);
    assert_eq!(binding.acquired.id, 0);
    assert!(binding.acquired.callback == props.onsize);
    assert!(binding.acquired.frame == observer.view().node_ref);
    assert_eq!(observer.phase(), Lifecycle::MountedListening);
}

#[test]
fn later_render_binds_nothing() {
    let (_, props) = recorder();
    let mut observer = ComponentSizeObserver::create(props);
    assert!(observer.rendered(false, FrameAccess::Ready).unwrap().is_none());
    assert_eq!(observer.phase(), Lifecycle::MountedNoListener);
    observer.rendered(true, FrameAccess::Ready).unwrap();
    assert!(observer.rendered(false, FrameAccess::Ready).unwrap().is_none());
    assert!(observer.rendered(false, FrameAccess::NoFrame).unwrap().is_none());
    assert!(observer.rendered(false, FrameAccess::NoWindow).unwrap().is_none());
    assert_eq!(observer.phase(), Lifecycle::MountedListening);
}

#[test]
fn first_render_without_frame_fails() {
    let (_, props) = recorder();
    let mut observer = ComponentSizeObserver::create(props);
    assert_eq!(observer.rendered(true, FrameAccess::NoFrame).unwrap_err(), ObserverError::FrameUnavailable);
    assert_eq!(observer.phase(), Lifecycle::MountedNoListener);
}

#[test]
fn first_render_without_window_fails() {
    let (_, props) = recorder();
    let mut observer = ComponentSizeObserver::create(props);
    assert_eq!(observer.rendered(true, FrameAccess::NoWindow).unwrap_err(), ObserverError::WindowUnavailable);
    assert_eq!(observer.phase(), Lifecycle::MountedNoListener);
    let binding = observer.rendered(true, FrameAccess::Ready).unwrap().unwrap();
    assert_eq!(binding.acquired.id, 0);
}

#[test]
fn add_resize_listener_replaces_the_bound_listener() {
    let (seen, props) = recorder();
    let mut observer = ComponentSizeObserver::create(props.clone());
    let first = observer.add_resize_listener(FrameAccess::Ready).unwrap();
    assert_eq!((first.released, first.acquired.id), (None, 0));
    let second = observer.add_resize_listener(FrameAccess::Ready).unwrap();
    assert_eq!((second.released, second.acquired.id), (Some(0), 1));
    assert!(second.acquired.callback == props.onsize);
    let third = observer.add_resize_listener(FrameAccess::Ready).unwrap();
    assert_eq!((third.released, third.acquired.id), (Some(1), 2));
    assert_eq!(fire(&observer, 0, measured(1.0, 1.0)), 0);
    assert_eq!(fire(&observer, 1, measured(1.0, 1.0)), 0);
    assert_eq!(fire(&observer, 2, measured(3.0, 4.0)), 1);
    assert_eq!(*seen.borrow(), vec![(3.0, 4.0)]);
}

#[test]
fn add_resize_listener_fails_where_the_window_is_out_of_reach() {
    let (_, props) = recorder();
    let mut observer = ComponentSizeObserver::create(props);
    assert_eq!(observer.add_resize_listener(FrameAccess::NoFrame).unwrap_err(), ObserverError::FrameUnavailable);
    assert_eq!(observer.add_resize_listener(FrameAccess::NoWindow).unwrap_err(), ObserverError::WindowUnavailable);
    assert_eq!(observer.phase(), Lifecycle::MountedNoListener);
    let binding = observer.add_resize_listener(FrameAccess::Ready).unwrap();
    assert_eq!((binding.released, binding.acquired.id), (None, 0));
    assert_eq!(observer.add_resize_listener(FrameAccess::NoWindow).unwrap_err(), ObserverError::WindowUnavailable);
    assert_eq!(observer.phase(), Lifecycle::MountedListening);
    let binding = observer.add_resize_listener(FrameAccess::Ready).unwrap();
    assert_eq!((binding.released, binding.acquired.id), (Some(0), 1));
}

#[test]
fn update_changes_nothing() {
    let (seen, props) = recorder();
    let mut observer = ComponentSizeObserver::create(props);
    assert!(!observer.update(()));
    assert_eq!(observer.phase(), Lifecycle::MountedNoListener);
    observer.rendered(true, FrameAccess::Ready).unwrap();
    assert!(!observer.update(()));
    assert_eq!(observer.phase(), Lifecycle::MountedListening);
    assert_eq!(fire(&observer, 0, measured(10.0, 20.0)), 1);
    assert_eq!(*seen.borrow(), vec![(10.0, 20.0)]);
}

#[test]
fn change_to_new_callback_rebinds() {
    let (old_seen, old_props) = recorder();
    let (new_seen, new_props) = recorder();
    let mut observer = ComponentSizeObserver::create(old_props);
    observer.rendered(true, FrameAccess::Ready).unwrap();
    let reaction = observer.change(new_props.clone(), FrameAccess::Ready).unwrap();
    assert!(!reaction.should_render);
    let binding = reaction.binding.unwrap();
    assert_eq!(binding.released, Some(0));
    assert_eq!(binding.acquired.id, 1);
    assert!(binding.acquired.callback == new_props.onsize);
    assert_eq!(fire(&observer, 1, measured(400.0, 100.0)), 1);
    assert!(old_seen.borrow().is_empty());
    assert_eq!(*new_seen.borrow(), vec![(400.0, 100.0)]);
}

#[test]
fn replaced_listener_delivers_nothing() {
    let (old_seen, old_props) = recorder();
    let (new_seen, new_props) = recorder();
    let mut observer = ComponentSizeObserver::create(old_props);
    observer.rendered(true, FrameAccess::Ready).unwrap();
    observer.change(new_props, FrameAccess::Ready).unwrap();
    assert_eq!(fire(&observer, 0, measured(400.0, 100.0)), 0);
    assert_eq!(fire(&observer, 0, None), 0);
    assert!(old_seen.borrow().is_empty());
    assert!(new_seen.borrow().is_empty());
}

#[test]
fn every_change_reports_to_the_callback_supplied_last() {
    let (first_seen, first_props) = recorder();
    let mut observer = ComponentSizeObserver::create(first_props);
    observer.rendered(true, FrameAccess::Ready).unwrap();
    let mut earlier: Vec<Seen> = vec![first_seen];
    let mut released: Vec<u64> = Vec::new();
    for round in 1..=8u64 {
        let (seen, props) = recorder();
        let binding = observer.change(props, FrameAccess::Ready).unwrap().binding.unwrap();
        assert_eq!(binding.released, Some(round - 1));
        assert_eq!(binding.acquired.id, round);
        released.push(round - 1);
        for id in &released {
            assert_eq!(fire(&observer, *id, measured(1.0, 1.0)), 0);
        }
        assert_eq!(fire(&observer, round, measured(round as f64, 2.0 * round as f64)), 1);
        assert_eq!(*seen.borrow(), vec![(round as f64, 2.0 * round as f64)]);
        for stale in &earlier {
            assert!(stale.borrow().len() <= 1);
        }
        assert!(earlier[0].borrow().is_empty());
        assert_eq!(observer.phase(), Lifecycle::MountedListening);
        earlier.push(seen);
    }
    for (round, seen) in earlier.iter().enumerate().skip(1) {
        assert_eq!(*seen.borrow(), vec![(round as f64, 2.0 * round as f64)]);
    }
}

#[test]
fn change_to_same_callback_changes_nothing() {
    let (seen, props) = recorder();
    let mut observer = ComponentSizeObserver::create(props.clone());
    observer.rendered(true, FrameAccess::Ready).unwrap();
    for access in [FrameAccess::Ready, FrameAccess::NoFrame, FrameAccess::NoWindow] {
        let reaction = observer.change(props.clone(), access).unwrap();
        assert!(!reaction.should_render);
        assert!(reaction.binding.is_none());
    }
    assert_eq!(observer.phase(), Lifecycle::MountedListening);
    assert_eq!(fire(&observer, 1, measured(400.0, 100.0)), 0);
    assert_eq!(fire(&observer, 0, measured(400.0, 100.0)), 1);
    assert_eq!(*seen.borrow(), vec![(400.0, 100.0)]);
}

#[test]
fn change_to_same_callback_before_first_render_binds_nothing() {
    let (_, props) = recorder();
    let mut observer = ComponentSizeObserver::create(props.clone());
    let reaction = observer.change(props, FrameAccess::Ready).unwrap();
    assert!(!reaction.should_render);
    assert!(reaction.binding.is_none());
    assert_eq!(observer.phase(), Lifecycle::MountedNoListener);
}

#[test]
fn change_before_first_render_binds_for_the_new_callback() {
    let (old_seen, old_props) = recorder();
    let (new_seen, new_props) = recorder();
    let mut observer = ComponentSizeObserver::create(old_props);
    let binding = observer.change(new_props, FrameAccess::Ready).unwrap().binding.unwrap();
    assert_eq!((binding.released, binding.acquired.id), (None, 0));
    assert_eq!(observer.phase(), Lifecycle::MountedListening);
    assert_eq!(fire(&observer, 0, measured(5.0, 6.0)), 1);
    assert!(old_seen.borrow().is_empty());
    assert_eq!(*new_seen.borrow(), vec![(5.0, 6.0)]);
}

#[test]
fn refused_change_keeps_the_old_configuration() {
    let (old_seen, old_props) = recorder();
    let (new_seen, new_props) = recorder();
    let mut observer = ComponentSizeObserver::create(old_props.clone());
    observer.rendered(true, FrameAccess::Ready).unwrap();
    assert_eq!(observer.change(new_props.clone(), FrameAccess::NoWindow).unwrap_err(), ObserverError::WindowUnavailable);
    assert_eq!(observer.change(new_props.clone(), FrameAccess::NoFrame).unwrap_err(), ObserverError::FrameUnavailable);
    assert_eq!(fire(&observer, 0, measured(7.0, 8.0)), 1);
    assert_eq!(*old_seen.borrow(), vec![(7.0, 8.0)]);
    assert!(new_seen.borrow().is_empty());
    assert!(observer.change(old_props, FrameAccess::NoFrame).unwrap().binding.is_none());
    let binding = observer.change(new_props, FrameAccess::Ready).unwrap().binding.unwrap();
    assert_eq!((binding.released, binding.acquired.id), (Some(0), 1));
}

#[test]
fn destroy_releases_the_listener() {
    let (seen, props) = recorder();
    let mut observer = ComponentSizeObserver::create(props);
    observer.rendered(true, FrameAccess::Ready).unwrap();
    assert_eq!(observer.destroy(), Some(0));
    assert_eq!(observer.phase(), Lifecycle::Unmounted);
    assert_eq!(fire(&observer, 0, measured(400.0, 100.0)), 0);
    assert_eq!(fire(&observer, 1, measured(400.0, 100.0)), 0);
    assert_eq!(fire(&observer, 0, None), 0);
    assert!(seen.borrow().is_empty());
    assert_eq!(observer.destroy(), None);
}

#[test]
fn destroy_before_first_render_releases_nothing() {
    let (_, props) = recorder();
    let mut observer = ComponentSizeObserver::create(props);
    assert_eq!(observer.destroy(), None);
    assert_eq!(observer.phase(), Lifecycle::Unmounted);
}

#[test]
fn destroyed_observer_binds_no_more() {
    let (seen, props) = recorder();
    let (new_seen, new_props) = recorder();
    let mut observer = ComponentSizeObserver::create(props.clone());
    observer.rendered(true, FrameAccess::Ready).unwrap();
    observer.destroy();
    assert_eq!(observer.rendered(true, FrameAccess::Ready).unwrap_err(), ObserverError::Unmounted);
    assert_eq!(observer.rendered(true, FrameAccess::NoFrame).unwrap_err(), ObserverError::Unmounted);
    assert_eq!(observer.add_resize_listener(FrameAccess::Ready).unwrap_err(), ObserverError::Unmounted);
    assert_eq!(observer.change(new_props, FrameAccess::Ready).unwrap_err(), ObserverError::Unmounted);
    assert!(observer.change(props, FrameAccess::Ready).unwrap().binding.is_none());
    assert!(observer.rendered(false, FrameAccess::Ready).unwrap().is_none());
    assert!(!observer.update(()));
    assert_eq!(observer.phase(), Lifecycle::Unmounted);
    for id in 0..4 {
        assert_eq!(fire(&observer, id, measured(400.0, 100.0)), 0);
    }
    assert!(seen.borrow().is_empty());
    assert!(new_seen.borrow().is_empty());
}

#[test]
fn resize_of_parent_is_reported_once() {
    let (seen, props) = recorder();
    let mut observer = ComponentSizeObserver::create(props);
    let listener = observer.rendered(true, FrameAccess::Ready).unwrap().unwrap().acquired;
    // The parent goes from 200 by 100 to 400 by 100: the frame's window fires once.
    assert_eq!(fire(&observer, listener.id, measured(400.0, 100.0)), 1);
    // A resize elsewhere fires some other listener.
    assert_eq!(fire(&observer, listener.id + 1, measured(640.0, 480.0)), 0);
    assert_eq!(fire(&observer, u64::MAX, measured(640.0, 480.0)), 0);
    let seen = seen.borrow();
    assert_eq!(seen.len(), 1);
    assert!((seen[0].0 - 400.0).abs() < 1.0);
    assert!((seen[0].1 - 100.0).abs() < 1.0);
}

#[test]
fn every_resize_event_is_reported() {
    let (seen, props) = recorder();
    let mut observer = ComponentSizeObserver::create(props);
    observer.rendered(true, FrameAccess::Ready).unwrap();
    assert_eq!(fire(&observer, 0, measured(200.0, 100.0)), 1);
    assert_eq!(fire(&observer, 0, measured(200.0, 100.0)), 1);
    assert_eq!(fire(&observer, 0, measured(400.0, 100.0)), 1);
    assert_eq!(*seen.borrow(), vec![(200.0, 100.0), (200.0, 100.0), (400.0, 100.0)]);
}

#[test]
fn frame_in_unpositioned_parent_reports_the_box_it_fills() {
    let (seen, props) = recorder();
    let mut observer = ComponentSizeObserver::create(props);
    observer.rendered(true, FrameAccess::Ready).unwrap();
    // The parent is 200 by 100, but the frame fills the viewport instead.
    let emission = observer.resized(0, measured(1280.0, 720.5)).unwrap().unwrap();
    assert_eq!(emission.size, ComponentSize::new(1280.0f64.to_bits(), 720.5f64.to_bits()));
    emission.callback.emit(emission.size);
    assert_eq!(*seen.borrow(), vec![(1280.0, 720.5)]);
}

#[test]
fn resize_without_frame_is_a_fault() {
    let (seen, props) = recorder();
    let mut observer = ComponentSizeObserver::create(props);
    observer.rendered(true, FrameAccess::Ready).unwrap();
    assert_eq!(observer.resized(0, None).unwrap_err(), ObserverError::FrameUnavailable);
    assert!(observer.resized(1, None).unwrap().is_none());
    assert!(seen.borrow().is_empty());
    assert_eq!(fire(&observer, 0, measured(1.5, 2.5)), 1);
    assert_eq!(*seen.borrow(), vec![(1.5, 2.5)]);
}

#[test]
fn emission_goes_to_the_configured_callback() {
    let (_, props) = recorder();
    let (_, other) = recorder();
    let mut observer = ComponentSizeObserver::create(props.clone());
    observer.rendered(true, FrameAccess::Ready).unwrap();
    let emission = observer.resized(0, measured(3.0, 4.0)).unwrap().unwrap();
    assert!(emission.callback == props.onsize);
    assert!(emission.callback != other.onsize);
}

#[test]
fn view_renders_the_hidden_frame() {
    let (_, props) = recorder();
    let mut observer = ComponentSizeObserver::create(props);
    let frame = observer.view();
    assert_eq!(frame.style, IFRAME_STYLE);
    assert_eq!(
        frame.style,
        "display: block; position: absolute; top: 0; left: 0; width: 100%; height: 100%; overflow: hidden; border: 0; opacity: 0; pointer-events: none; z-index: -1;"
    );
    assert!(frame.node_ref == observer.view().node_ref);
    let listener = observer.rendered(true, FrameAccess::Ready).unwrap().unwrap().acquired;
    assert!(listener.frame == frame.node_ref);
    assert!(listener.clone().frame == frame.node_ref);
    assert_eq!(listener.clone().id, listener.id);
}

#[test]
fn observers_have_frames_of_their_own() {
    let (_, props) = recorder();
    let first = ComponentSizeObserver::create(props.clone());
    let second = ComponentSizeObserver::create(props);
    assert!(first.view().node_ref != second.view().node_ref);
}
