//! The greeter component: no state, one read-only method.

use vstd::prelude::*;

use crate::call::ComponentAddress;
use crate::component::{Component, ComponentView};
use crate::registry::Registry;

verus! {

/// What every greeter answers.
pub const GREETING: &'static str = "hello from trivial blueprint";

/// Private state of one greeter component: there is none.
pub struct Trivial {}

impl Trivial {
    /// Creates a greeter, publishes it in `registry`, and returns the
    /// address it is bound to. The address was not live before, and no
    /// other binding changes.
    pub fn new(registry: &mut Registry) -> (address: ComponentAddress)
        ensures
            !old(registry)@.dom().contains(address),
            final(registry)@ == old(registry)@.insert(address, ComponentView::Greeter),
    {
        registry.globalize(Trivial {}.instantiate())
    }

    /// Wraps this state into a component that has no address yet.
    pub fn instantiate(self) -> (component: Component)
        ensures
            component@ == ComponentView::Greeter,
    {
        Component::Greeter(self)
    }

    /// Returns the greeting. The answer depends on nothing, so it is the
    /// same on every call, and the state is left as it is.
    pub fn hello(&self) -> (greeting: String)
        ensures
            greeting@ == GREETING@,
    {
        GREETING.to_string()
    }
}

} // verus!
