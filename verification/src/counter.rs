//! The counter component: one unsigned 64-bit field that starts at zero and
//! is moved only by `increment`.

use vstd::prelude::*;

use crate::call::ComponentAddress;
use crate::component::{Component, ComponentView};
use crate::registry::Registry;

verus! {

/// Private state of one counter component.
///
/// The field is not reachable from outside this module: the count is read
/// with [`DemoBlueprint::get`] and moved with [`DemoBlueprint::increment`].
pub struct DemoBlueprint {
    counter: u64,
}

impl View for DemoBlueprint {
    type V = nat;

    /// The count the component holds.
    closed spec fn view(&self) -> nat {
        self.counter as nat
    }
}

impl DemoBlueprint {
    /// Creates a counter that holds zero, publishes it in `registry`, and
    /// returns the address it is bound to. The address was not live before,
    /// and no other binding changes.
    pub fn new(registry: &mut Registry) -> (address: ComponentAddress)
        ensures
            !old(registry)@.dom().contains(address),
            final(registry)@ == old(registry)@.insert(address, ComponentView::Counter(0)),
    {
        registry.globalize(DemoBlueprint::default().instantiate())
    }

    /// Wraps this state into a component that has no address yet.
    pub fn instantiate(self) -> (component: Component)
        ensures
            component@ == ComponentView::Counter(self@),
    {
        Component::Counter(self)
    }

    /// Adds one to the count.
    ///
    /// Taking `&mut self` gives the call exclusive access to the state for
    /// its whole duration.
    ///
    /// Overflow policy: a counter that holds `u64::MAX` cannot be
    /// incremented. The precondition rules that call out, so the count never
    /// wraps and never saturates silently; callers that cannot rule it out
    /// go through [`Component::invoke`], which refuses the call with
    /// `DispatchError::CounterOverflow` and leaves the count as it was.
    pub fn increment(&mut self)
        requires
            old(self)@ < u64::MAX,
        ensures
            final(self)@ == old(self)@ + 1,
    {
        self.counter += 1;
    }

    /// Reads the count; the state is left as it is.
    pub fn get(&self) -> (value: u64)
        ensures
            value == self@,
    {
        self.counter
    }

    /// The state of a counter that holds `count`. This is how a host that
    /// keeps the count between calls hands it back to the component.
    pub fn with_count(count: u64) -> (state: Self)
        ensures
            state@ == count,
    {
        DemoBlueprint { counter: count }
    }
}

impl Default for DemoBlueprint {
    /// The state every counter starts from: a count of zero.
    fn default() -> (state: Self)
        ensures
            state@ == 0,
    {
        DemoBlueprint { counter: 0 }
    }
}

} // verus!
