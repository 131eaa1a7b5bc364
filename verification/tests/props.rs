use yew::Callback;
use yew_component_size::{ComponentSize, Props};

#[test]
fn props_hold_the_callback_they_were_made_with() {
    let onsize: Callback<ComponentSize> = Callback::from(|_: ComponentSize| {});
    let props = Props::new(onsize.clone());
    assert!(props.onsize == onsize);
}

#[test]
fn props_are_equal_to_their_clone() {
    let props = Props::new(Callback::from(|_: ComponentSize| {}));
    let clone = props.clone();
    assert!(props == clone);
    assert!(clone == props);
    assert!(props.onsize == clone.onsize);
}

#[test]
fn props_with_callbacks_of_their_own_differ() {
    let first = Props::new(Callback::from(|_: ComponentSize| {}));
    let second = Props::new(Callback::from(|_: ComponentSize| {}));
    assert!(first != second);
    assert!(first == first.clone());
    assert!(second == second.clone());
}
