//! An observer together with the window of its frame, and what holds of the
//! two however the host calls the hooks.
//!
//! The window is taken to hold the listeners that the host was told to
//! install and not yet told to release.

use vstd::multiset::Multiset;
use vstd::prelude::*;
use yew::{Callback, NodeRef};
use crate::listener::{Binding, Emission, FrameAccess, Lifecycle, ObserverError};
use crate::model::ObserverModel;
use crate::props::Props;
use crate::size::ComponentSize;

verus! {

/// One call of the host into the observer.
pub enum Hook {
    /// The component was rendered.
    Rendered { first_render: bool, access: FrameAccess },
    /// A configuration was supplied.
    Change { props: Props, access: FrameAccess },
    /// A message arrived.
    Update,
    /// The component was destroyed.
    Destroy,
}

/// An observer and the listeners on the window of its frame.
pub struct Page {
    /// The observer.
    pub observer: ObserverModel,
    /// The identifiers of the listeners that the window holds.
    pub installed: Multiset<u64>,
}

/// The listeners on the window after the host has released `listener`.
pub open spec fn released(installed: Multiset<u64>, listener: Option<u64>) -> Multiset<u64> {
    match listener {
        Some(id) => installed.remove(id),
        None => installed,
    }
}

/// The listeners on the window after the host has carried out `binding`.
pub open spec fn rebound(installed: Multiset<u64>, binding: Binding) -> Multiset<u64> {
    released(installed, binding.released).insert(binding.acquired.id)
}

/// The listeners that `observer` counts as bound: one or none.
pub open spec fn bound(observer: ObserverModel) -> Multiset<u64> {
    match observer.listener_id() {
        Some(id) => Multiset::empty().insert(id),
        None => Multiset::empty(),
    }
}

/// The hooks that supply `changes` one after the other, each with the
/// frame's window in reach.
pub open spec fn supplying(changes: Seq<Props>) -> Seq<Hook> {
    Seq::new(changes.len(), |i: int| Hook::Change { props: changes[i], access: FrameAccess::Ready })
}

impl Page {
    /// The page of a component that was just created: nothing is installed.
    pub open spec fn mounted(props: Props, frame: NodeRef) -> Page {
        Page { observer: ObserverModel::created(props, frame), installed: Multiset::empty() }
    }

    /// The window holds the observer's listener and no other.
    pub open spec fn consistent(self) -> bool {
        &&& self.observer.inv()
        &&& self.installed == bound(self.observer)
    }

    /// The page after `hook`, the host having done what the observer asked.
    pub open spec fn step(self, hook: Hook) -> Page {
        match hook {
            Hook::Rendered { first_render, access } => {
                let (observer, res) = self.observer.rendered(first_render, access);
                match res {
                    Ok(Some(binding)) => Page {
                        observer,
                        installed: rebound(self.installed, binding),
                    },
                    _ => Page { observer, installed: self.installed },
                }
            },
            Hook::Change { props, access } => {
                let (observer, res) = self.observer.change(props, access);
                match res {
                    Ok(reaction) => match reaction.binding {
                        Some(binding) => Page {
                            observer,
                            installed: rebound(self.installed, binding),
                        },
                        None => Page { observer, installed: self.installed },
                    },
                    Err(_) => Page { observer, installed: self.installed },
                }
            },
            Hook::Update => self,
            Hook::Destroy => {
                let (observer, listener) = self.observer.destroy();
                Page { observer, installed: released(self.installed, listener) }
            },
        }
    }

    /// The page after all of `hooks`, in their order.
    pub open spec fn run(self, hooks: Seq<Hook>) -> Page
        decreases hooks.len(),
    {
        if hooks.len() == 0 {
            self
        } else {
            self.run(hooks.drop_last()).step(hooks.last())
        }
    }

    /// Exactly one listener is installed; a resize event from it ends in one
    /// call of `callback` with the size as it was measured, and a resize
    /// event from any other listener ends in no call.
    pub open spec fn reports_to(self, callback: Callback<ComponentSize>) -> bool {
        &&& self.installed.len() == 1
        &&& forall|id: u64, size: ComponentSize|
            self.installed.contains(id) ==> #[trigger] self.observer.resized(id, Some(size))
                == Ok::<Option<Emission>, ObserverError>(Some(Emission { callback, size }))
        &&& forall|id: u64, measured: Option<ComponentSize>|
            !self.installed.contains(id) ==> #[trigger] self.observer.resized(id, measured)
                == Ok::<Option<Emission>, ObserverError>(None)
    }

    /// No resize event ends in a call of any callback but `callback`.
    pub open spec fn reports_only_to(self, callback: Callback<ComponentSize>) -> bool {
        forall|id: u64, measured: Option<ComponentSize>|
            (#[trigger] self.observer.resized(id, measured) matches Ok(Some(emission))
                ==> emission.callback == callback)
    }

    /// Nothing is installed, and no resize event ends in a call.
    pub open spec fn silent(self) -> bool {
        &&& self.installed == Multiset::<u64>::empty()
        &&& forall|id: u64, measured: Option<ComponentSize>| #[trigger]
            self.observer.resized(id, measured) == Ok::<Option<Emission>, ObserverError>(None)
    }
}

/// A window that holds the observer's listener and no other holds at most one
/// listener, and holds one exactly while the observer is listening.
pub proof fn consistent_page_holds_at_most_one_listener(page: Page)
    requires
        page.consistent(),
    ensures
        page.installed.len() <= 1,
        page.installed.len() == 1 <==> page.observer.phase() == Lifecycle::MountedListening,
{
}

/// Whatever hook the host calls, the window goes on holding the observer's
/// listener and no other.
pub proof fn step_keeps_page_consistent(page: Page, hook: Hook)
    requires
        page.consistent(),
    ensures
        page.step(hook).consistent(),
{
    let after = page.step(hook);
    assert(after.installed =~= bound(after.observer));
}

/// After any hooks, the window still holds the observer's listener and no
/// other.
proof fn run_keeps_page_consistent(page: Page, hooks: Seq<Hook>)
    requires
        page.consistent(),
    ensures
        page.run(hooks).consistent(),
    decreases hooks.len(),
{
    if hooks.len() > 0 {
        run_keeps_page_consistent(page, hooks.drop_last());
        step_keeps_page_consistent(page.run(hooks.drop_last()), hooks.last());
    }
}

/// However many hooks the host calls, and in whatever order, after each of
/// them the window holds at most one listener, which is the observer's.
pub proof fn run_keeps_at_most_one_listener(page: Page, hooks: Seq<Hook>)
    requires
        page.consistent(),
    ensures
        forall|k: int|
            0 <= k <= hooks.len() ==> {
                let after = #[trigger] page.run(hooks.take(k));
                after.consistent() && after.installed.len() <= 1
            },
{
    assert forall|k: int| 0 <= k <= hooks.len() implies {
        let after = #[trigger] page.run(hooks.take(k));
        after.consistent() && after.installed.len() <= 1
    } by {
        run_keeps_page_consistent(page, hooks.take(k));
        consistent_page_holds_at_most_one_listener(page.run(hooks.take(k)));
    }
}

/// A window that holds the listener of a listening observer reports to the
/// callback of the configuration in force.
pub proof fn listening_page_reports_to_callback_in_force(page: Page)
    requires
        page.consistent(),
        page.observer.phase() == Lifecycle::MountedListening,
    ensures
        page.reports_to(page.observer.props.onsize),
{
}

/// Once the component was created, the first rendering with the frame's
/// window in reach installs exactly one listener where there was none, and
/// that listener reports to the configured callback.
pub proof fn first_render_installs_one_listener(props: Props, frame: NodeRef)
    ensures
        Page::mounted(props, frame).consistent(),
        Page::mounted(props, frame).installed.len() == 0,
        Page::mounted(props, frame).step(
            Hook::Rendered { first_render: true, access: FrameAccess::Ready },
        ).reports_to(props.onsize),
{
    let page = Page::mounted(props, frame);
    let hook = Hook::Rendered { first_render: true, access: FrameAccess::Ready };
    assert(page.installed =~= bound(page.observer));
    step_keeps_page_consistent(page, hook);
    listening_page_reports_to_callback_in_force(page.step(hook));
}

/// After any hooks but `Destroy`, a mounted observer is still mounted, and
/// one that was listening is still listening.
proof fn run_keeps_mounted(page: Page, hooks: Seq<Hook>)
    requires
        page.consistent(),
        page.observer.mounted,
        forall|i: int| 0 <= i < hooks.len() ==> !(#[trigger] hooks[i] is Destroy),
    ensures
        page.run(hooks).consistent(),
        page.run(hooks).observer.mounted,
        page.observer.listener is Some ==> page.run(hooks).observer.listener is Some,
    decreases hooks.len(),
{
    if hooks.len() > 0 {
        run_keeps_mounted(page, hooks.drop_last());
        step_keeps_page_consistent(page.run(hooks.drop_last()), hooks.last());
    }
}

/// From the first binding until the component is destroyed there is never no
/// listener and never more than one: after each hook the window holds
/// exactly one, and it reports to the callback of the configuration that is
/// then in force.
pub proof fn listening_page_keeps_exactly_one_listener(page: Page, hooks: Seq<Hook>)
    requires
        page.consistent(),
        page.observer.phase() == Lifecycle::MountedListening,
        forall|i: int| 0 <= i < hooks.len() ==> !(#[trigger] hooks[i] is Destroy),
    ensures
        forall|k: int|
            0 <= k <= hooks.len() ==> {
                let after = #[trigger] page.run(hooks.take(k));
                after.reports_to(after.observer.props.onsize)
            },
{
    assert forall|k: int| 0 <= k <= hooks.len() implies {
        let after = #[trigger] page.run(hooks.take(k));
        after.reports_to(after.observer.props.onsize)
    } by {
        run_keeps_mounted(page, hooks.take(k));
        listening_page_reports_to_callback_in_force(page.run(hooks.take(k)));
    }
}

/// After a run of changes of configuration, the last of them is in force.
proof fn last_change_is_in_force(page: Page, changes: Seq<Props>)
    requires
        page.consistent(),
        page.observer.mounted,
        changes.len() > 0,
    ensures
        page.run(supplying(changes)).consistent(),
        page.run(supplying(changes)).observer.props == changes.last(),
        page.observer.listener is Some ==> page.run(supplying(changes)).observer.phase()
            == Lifecycle::MountedListening,
{
    let hooks = supplying(changes);
    run_keeps_mounted(page, hooks.drop_last());
    step_keeps_page_consistent(page.run(hooks.drop_last()), hooks.last());
}

/// Of any number of configurations supplied one after the other, with the
/// frame's window in reach, each is in force as soon as it was supplied. The
/// window then holds at most one listener, and no resize event ends in a
/// call of a callback that was supplied earlier. Where the observer was
/// listening before, the window holds exactly one listener, a resize event
/// from it goes to the callback supplied last, and a resize event from a
/// listener that was replaced goes nowhere.
pub proof fn changes_report_to_callback_supplied_last(page: Page, changes: Seq<Props>)
    requires
        page.consistent(),
        page.observer.mounted,
    ensures
        forall|k: int|
            0 < k <= changes.len() ==> {
                let after = #[trigger] page.run(supplying(changes.take(k)));
                &&& after.observer.props == changes[k - 1]
                &&& after.installed.len() <= 1
                &&& after.reports_only_to(changes[k - 1].onsize)
                &&& page.observer.listener is Some ==> after.reports_to(changes[k - 1].onsize)
            },
{
    assert forall|k: int| 0 < k <= changes.len() implies {
        let after = #[trigger] page.run(supplying(changes.take(k)));
        &&& after.observer.props == changes[k - 1]
        &&& after.installed.len() <= 1
        &&& after.reports_only_to(changes[k - 1].onsize)
        &&& page.observer.listener is Some ==> after.reports_to(changes[k - 1].onsize)
    } by {
        let after = page.run(supplying(changes.take(k)));
        last_change_is_in_force(page, changes.take(k));
        consistent_page_holds_at_most_one_listener(after);
        if page.observer.listener is Some {
            listening_page_reports_to_callback_in_force(after);
        }
    }
}

/// A change that replaces the configuration takes the replaced listener off
/// the window: a resize event from it is no longer delivered.
pub proof fn replaced_listener_no_longer_delivers(
    page: Page,
    props: Props,
    id: u64,
    measured: Option<ComponentSize>,
)
    requires
        page.consistent(),
        page.installed.contains(id),
        props != page.observer.props,
    ensures
        ({
            let after = page.step(Hook::Change { props, access: FrameAccess::Ready });
            &&& !after.installed.contains(id)
            &&& after.observer.resized(id, measured) == Ok::<Option<Emission>, ObserverError>(None)
        }),
{
}

/// Supplying the configuration that is in force changes nothing: no listener
/// is bound or released, and a resize event ends as it would have before.
pub proof fn same_configuration_changes_nothing(page: Page, access: FrameAccess)
    ensures
        page.observer.change(page.observer.props, access).0 == page.observer,
        page.observer.change(page.observer.props, access).1 matches Ok(reaction)
            && reaction.binding is None,
        page.step(Hook::Change { props: page.observer.props, access }) == page,
{
}

/// After any hooks, a destroyed observer is still destroyed and silent.
proof fn run_keeps_silent(page: Page, hooks: Seq<Hook>)
    requires
        page.silent(),
        page.observer.phase() == Lifecycle::Unmounted,
        page.observer.listener is None,
    ensures
        page.run(hooks).silent(),
        page.run(hooks).observer.phase() == Lifecycle::Unmounted,
        page.run(hooks).observer.listener is None,
    decreases hooks.len(),
{
    if hooks.len() > 0 {
        run_keeps_silent(page, hooks.drop_last());
        let before = page.run(hooks.drop_last());
        let after = before.step(hooks.last());
        assert(after.installed =~= Multiset::<u64>::empty());
    }
}

/// Once the component is destroyed nothing is installed, and whatever hooks
/// follow and whatever listener fires, no callback is called again.
pub proof fn destroyed_page_stays_silent(page: Page, hooks: Seq<Hook>)
    requires
        page.consistent(),
    ensures
        forall|k: int|
            0 <= k <= hooks.len() ==> (#[trigger] page.step(Hook::Destroy).run(
                hooks.take(k),
            )).silent(),
{
    let destroyed = page.step(Hook::Destroy);
    assert(destroyed.installed =~= Multiset::<u64>::empty());
    assert forall|k: int| 0 <= k <= hooks.len() implies (#[trigger] destroyed.run(
        hooks.take(k),
    )).silent() by {
        run_keeps_silent(destroyed, hooks.take(k));
    }
}

} // verus!
