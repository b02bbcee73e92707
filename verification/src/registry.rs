//! The table that binds addresses to component state, and dispatch of calls
//! through it.

use vstd::prelude::*;

use crate::call::{
    outcome_of, ComponentAddress, DispatchError, DispatchErrorView, Outcome, Value,
};
use crate::component::{Component, ComponentView};

verus! {

/// Mathematical content of a [`Registry`]: which addresses are live, and the
/// component that each is bound to.
pub type Table = Map<ComponentAddress, ComponentView>;

/// One call through a table: the table it leaves and what the caller gets
/// back.
///
/// A call to an address that is not live is refused under that address and
/// the table stays. Otherwise the component bound to the address takes one
/// step by name, and the table is rebound to the state that step leaves;
/// every other binding stays.
pub open spec fn dispatch(table: Table, address: ComponentAddress, name: Seq<char>) -> (Table, Outcome) {
    if table.dom().contains(address) {
        let (next, outcome) = table[address].call(name);
        (table.insert(address, next), outcome)
    } else {
        (table, Err(DispatchErrorView::UnknownAddress(address)))
    }
}

/// Owner of the state of every published component.
///
/// Callers hold addresses, never state: state goes in through
/// [`Registry::globalize`] and is reached afterwards only through
/// [`Registry::call_method`]. A binding, once made, is never moved or
/// dropped. An address means something only to the registry that issued it.
///
/// Invocation is fully public: the registry keeps no owner and asks nothing
/// about the caller, so whoever holds an address may call every method of
/// the component behind it. Calls are taken one at a time, in the order in
/// which they are made; `&mut self` gives each the table to itself.
pub struct Registry {
    components: Vec<Component>,
}

impl View for Registry {
    type V = Table;

    closed spec fn view(&self) -> Table {
        Map::new(
            |address: ComponentAddress| address.index < self.components@.len(),
            |address: ComponentAddress| self.components@[address.index as int]@,
        )
    }
}

impl Registry {
    /// A registry with no component in it.
    pub fn new() -> (registry: Registry)
        ensures
            registry@ == Table::empty(),
    {
        let registry = Registry { components: Vec::new() };
        assert(registry@ =~= Table::empty());
        registry
    }

    /// Publishes `component` under an address that was not live before, and
    /// returns that address. Every binding made earlier stays as it was.
    pub fn globalize(&mut self, component: Component) -> (address: ComponentAddress)
        ensures
            !old(self)@.dom().contains(address),
            final(self)@ == old(self)@.insert(address, component@),
    {
        let address = ComponentAddress { index: self.components.len() };
        self.components.push(component);
        assert(self@ =~= old(self)@.insert(address, component@));
        address
    }

    /// Invokes the method called `method_name` on the component bound to
    /// `address`. No method takes an argument, so an address and a name
    /// make a call.
    ///
    /// A call that cannot run is refused with an error that names what was
    /// not found, and leaves the registry as it was; it never yields a
    /// made-up value.
    pub fn call_method(&mut self, address: ComponentAddress, method_name: &str) -> (result: Result<Value, DispatchError>)
        ensures
            (final(self)@, outcome_of(result)) == dispatch(old(self)@, address, method_name@),
    {
        if address.index >= self.components.len() {
            return Err(DispatchError::UnknownAddress(address));
        }
        let result = self.components[address.index].call_method(method_name);
        assert(self@ =~= dispatch(old(self)@, address, method_name@).0);
        result
    }
}

} // verus!
