//! The decisions of the event loop.
//!
//! The loop itself waits: for the device, for a navigation request from a
//! view, for a trigger from outside. What it does with whatever arrived is
//! decided here, as a list of operations on the display manager that the
//! loop carries out in order. A failed operation ends the loop.

use crate::navigation::NavigationEntry;
use vstd::prelude::*;
use vstd::std_specs::cmp::PartialEqSpec;

verus! {

/// For how many seconds at most the loop waits for the device before it
/// looks at its other sources again.
pub const POLL_TIMEOUT_SECONDS: u8 = 10;

/// What a device reports.
#[derive(Clone, Copy, Debug, PartialEq, Eq, Structural)]
pub enum DeviceStateUpdate {
    /// The key with this index went down.
    ButtonDown(u8),
    /// The key with this index came up.
    ButtonUp(u8),
    /// Anything else: a dial, a touch, a swipe.
    Other,
}

/// What the loop can wake up to.
#[derive(Debug, PartialEq, Eq)]
pub enum Event<N> {
    /// The device reported something.
    Device(DeviceStateUpdate),
    /// A view asked to move to another screen.
    Navigation(N),
}

/// One operation on the display manager.
#[derive(Debug, PartialEq, Eq)]
pub enum Operation<N> {
    /// Paint the key with this index as pressed.
    Press(u8),
    /// Route a click on the key with this index, then paint the view.
    Release(u8),
    /// Build the view of this entry and move to it.
    NavigateTo(N),
    /// Refresh the widgets of the view.
    FetchAll,
    /// Paint the view.
    Render,
}

/// What moving to `navigation` takes: the move itself, then a refresh of the
/// new view's widgets, then painting it.
pub open spec fn navigation_to<N>(navigation: N) -> Seq<Operation<N>> {
    seq![Operation::NavigateTo(navigation), Operation::FetchAll, Operation::Render]
}

/// What the loop does before it waits for the first time: it refreshes the
/// widgets of the first view and paints it.
pub fn startup<N>() -> (operations: Vec<Operation<N>>)
    ensures
        operations@ == seq![Operation::<N>::FetchAll, Operation::<N>::Render],
{
    let mut operations: Vec<Operation<N>> = Vec::new();
    operations.push(Operation::FetchAll);
    operations.push(Operation::Render);
    assert(operations@ =~= seq![Operation::<N>::FetchAll, Operation::<N>::Render]);
    operations
}

/// What `event` asks for. A key that goes down is painted as pressed; a key
/// that comes up is clicked; other reports of the device are passed over. A
/// navigation request is followed, and the new view refreshed and painted.
pub open spec fn spec_run<N>(event: Event<N>) -> Seq<Operation<N>> {
    match event {
        Event::Device(DeviceStateUpdate::ButtonDown(id)) => seq![Operation::Press(id)],
        Event::Device(DeviceStateUpdate::ButtonUp(id)) => seq![Operation::Release(id)],
        Event::Device(DeviceStateUpdate::Other) => Seq::empty(),
        Event::Navigation(navigation) => navigation_to(navigation),
    }
}

/// Moves to `navigation`, then refreshes and paints.
fn navigate<N>(navigation: N) -> (operations: Vec<Operation<N>>)
    ensures
        operations@ == navigation_to(navigation),
{
    let mut operations: Vec<Operation<N>> = Vec::new();
    operations.push(Operation::NavigateTo(navigation));
    operations.push(Operation::FetchAll);
    operations.push(Operation::Render);
    assert(operations@ =~= navigation_to(navigation));
    operations
}

/// The operations that one turn of the loop carries out for `event`.
pub fn run<N>(event: Event<N>) -> (operations: Vec<Operation<N>>)
    ensures
        operations@ == spec_run(event),
{
    let mut operations: Vec<Operation<N>> = Vec::new();
    match event {
        Event::Device(DeviceStateUpdate::ButtonDown(id)) => {
            operations.push(Operation::Press(id));
        },
        Event::Device(DeviceStateUpdate::ButtonUp(id)) => {
            operations.push(Operation::Release(id));
        },
        Event::Device(DeviceStateUpdate::Other) => {},
        Event::Navigation(navigation) => {
            return navigate(navigation);
        },
    }
    assert(operations@ =~= spec_run(event));
    operations
}

/// A request from outside the loop to show a screen.
#[derive(Debug)]
pub struct ExternalTrigger<N> {
    navigation: N,
    switch_view: bool,
}

/// What the loop with triggers can wake up to.
#[derive(Debug)]
pub enum TriggeredEvent<N> {
    /// What the plain loop wakes up to.
    Event(Event<N>),
    /// A trigger arrived.
    Trigger(ExternalTrigger<N>),
}

impl<N> ExternalTrigger<N> {
    /// The screen that the trigger asks for.
    pub closed spec fn navigation(&self) -> N {
        self.navigation
    }

    /// Whether the trigger is to be followed whatever is shown.
    pub closed spec fn switch_view(&self) -> bool {
        self.switch_view
    }

    /// A trigger that asks for the screen of `navigation`. With `switch_view`
    /// it is followed whatever is shown; without, only while the screen it
    /// names is the one that is shown.
    pub fn new(navigation: N, switch_view: bool) -> (trigger: Self)
        ensures
            trigger.navigation() == navigation,
            trigger.switch_view() == switch_view,
    {
        Self { navigation, switch_view }
    }

    /// What following the trigger comes to, given whether the screen it names
    /// is the one that is shown: the trigger is followed if it is forced or if
    /// it names the present screen, and passed over otherwise.
    pub open spec fn spec_apply(self, same_screen: bool) -> Seq<Operation<N>> {
        if self.switch_view() || same_screen {
            navigation_to(self.navigation())
        } else {
            Seq::empty()
        }
    }

    /// The operations that the trigger asks for, given whether the screen it
    /// names is the one that is shown.
    pub fn apply(self, same_screen: bool) -> (operations: Vec<Operation<N>>)
        ensures
            operations@ == self.spec_apply(same_screen),
    {
        if self.switch_view || same_screen {
            navigate(self.navigation)
        } else {
            Vec::new()
        }
    }
}

/// The operations that one turn of the loop with triggers carries out for
/// `event` while the screen of `current` is shown. A trigger is compared with
/// `current` only where it is not forced.
pub fn run_with_external_triggers<N: NavigationEntry>(event: TriggeredEvent<N>, current: &N) -> (operations:
    Vec<Operation<N>>)
    ensures
        match event {
            TriggeredEvent::Event(plain) => operations@ == spec_run(plain),
            TriggeredEvent::Trigger(trigger) => {
                &&& trigger.switch_view() ==> operations@ == trigger.spec_apply(true)
                &&& N::obeys_eq_spec() ==> operations@ == trigger.spec_apply(
                    trigger.navigation().eq_spec(current),
                )
                &&& operations@ == trigger.spec_apply(true) || operations@ == trigger.spec_apply(
                    false,
                )
            },
        },
{
    match event {
        TriggeredEvent::Event(plain) => run(plain),
        TriggeredEvent::Trigger(trigger) => {
            let same_screen = trigger.switch_view || trigger.navigation == *current;
            trigger.apply(same_screen)
        },
    }
}

} // verus!
