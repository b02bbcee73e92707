//! A component: private state together with the methods that its kind
//! exposes, and the step it takes when one of them is invoked.

use vstd::prelude::*;

use crate::call::{
    lemma_method_names_differ, outcome_of, same_text, DispatchError, DispatchErrorView, Method,
    Outcome, Value, ValueView,
};
use crate::counter::DemoBlueprint;
use crate::greeter::{Trivial, GREETING};

verus! {

/// An instantiated component that has no address yet.
pub enum Component {
    /// A greeter.
    Greeter(Trivial),
    /// A counter.
    Counter(DemoBlueprint),
}

/// Mathematical content of a [`Component`]: its kind, and for a counter the
/// count it holds.
pub enum ComponentView {
    Greeter,
    Counter(nat),
}

impl View for Component {
    type V = ComponentView;

    open spec fn view(&self) -> ComponentView {
        match self {
            Component::Greeter(_) => ComponentView::Greeter,
            Component::Counter(counter) => ComponentView::Counter(counter@),
        }
    }
}

impl ComponentView {
    /// The method table: whether components of this kind expose `method`.
    pub open spec fn exposes(self, method: Method) -> bool {
        match self {
            ComponentView::Greeter => method is Hello,
            ComponentView::Counter(_) => method is Increment || method is Get,
        }
    }

    /// The method that `name` asks for, if the table has one of that name.
    pub open spec fn resolve(self, name: Seq<char>) -> Option<Method> {
        if self.exposes(Method::Hello) && name == Method::Hello.spec_name() {
            Some(Method::Hello)
        } else if self.exposes(Method::Increment) && name == Method::Increment.spec_name() {
            Some(Method::Increment)
        } else if self.exposes(Method::Get) && name == Method::Get.spec_name() {
            Some(Method::Get)
        } else {
            None
        }
    }

    /// One step of the component: the state it is left in and what the
    /// caller gets back.
    ///
    /// A greeter answers `Hello` with the greeting. A counter answers `Get`
    /// with its count and `Increment` by moving to the next count, unless
    /// it already holds `u64::MAX`, in which case the call is refused. A
    /// method that the kind does not expose is refused under its name.
    /// Only a successful `Increment` changes the state.
    pub open spec fn invoke(self, method: Method) -> (ComponentView, Outcome) {
        match (self, method) {
            (ComponentView::Greeter, Method::Hello) => (self, Ok(ValueView::Text(GREETING@))),
            (ComponentView::Counter(count), Method::Increment) => if count < u64::MAX {
                (ComponentView::Counter(count + 1), Ok(ValueView::Unit))
            } else {
                (self, Err(DispatchErrorView::CounterOverflow))
            },
            (ComponentView::Counter(count), Method::Get) => (self, Ok(ValueView::Number(count))),
            _ => (self, Err(DispatchErrorView::UnknownMethod(method.spec_name()))),
        }
    }

    /// One call by name: the name is looked up in the method table and the
    /// method found is invoked. A name that the table does not hold is
    /// refused and the state stays.
    pub open spec fn call(self, name: Seq<char>) -> (ComponentView, Outcome) {
        match self.resolve(name) {
            Some(method) => self.invoke(method),
            None => (self, Err(DispatchErrorView::UnknownMethod(name))),
        }
    }
}

/// A name resolves to a method exactly when the component's kind exposes
/// that method and the method goes by that name.
pub proof fn lemma_resolve_by_name(component: ComponentView, name: Seq<char>, method: Method)
    ensures
        component.resolve(name) == Some(method) <==> component.exposes(method) && name
            == method.spec_name(),
{
    lemma_method_names_differ(Method::Hello, Method::Increment);
    lemma_method_names_differ(Method::Hello, Method::Get);
    lemma_method_names_differ(Method::Increment, Method::Get);
}

/// Only a mutating method changes the state, and only where the call
/// succeeds: read-only methods and refused calls leave it as it was.
pub proof fn lemma_state_changes_only_by_mutation(component: ComponentView, method: Method)
    ensures
        component.invoke(method).0 != component ==> method.is_mutating() && component.invoke(
            method,
        ).1 is Ok,
{
}

impl Component {
    /// Looks `name` up in the method table of this component's kind.
    pub fn resolve(&self, name: &str) -> (method: Option<Method>)
        ensures
            method == self@.resolve(name@),
    {
        match self {
            Component::Greeter(_) => {
                if same_text(name, Method::Hello.name()) {
                    Some(Method::Hello)
                } else {
                    None
                }
            },
            Component::Counter(_) => {
                if same_text(name, Method::Increment.name()) {
                    Some(Method::Increment)
                } else if same_text(name, Method::Get.name()) {
                    Some(Method::Get)
                } else {
                    None
                }
            },
        }
    }

    /// Runs `method` on this component, with exclusive access to its state
    /// for the duration of the call.
    pub fn invoke(&mut self, method: Method) -> (result: Result<Value, DispatchError>)
        ensures
            (final(self)@, outcome_of(result)) == old(self)@.invoke(method),
    {
        match self {
            Component::Greeter(greeter) => match method {
                Method::Hello => Ok(Value::Text(greeter.hello())),
                Method::Increment | Method::Get => Err(
                    DispatchError::UnknownMethod(method.name().to_string()),
                ),
            },
            Component::Counter(counter) => match method {
                Method::Increment => {
                    if counter.get() < u64::MAX {
                        counter.increment();
                        Ok(Value::Unit)
                    } else {
                        Err(DispatchError::CounterOverflow)
                    }
                },
                Method::Get => Ok(Value::Number(counter.get())),
                Method::Hello => Err(DispatchError::UnknownMethod(method.name().to_string())),
            },
        }
    }

    /// Runs the method that `name` asks for.
    pub fn call_method(&mut self, name: &str) -> (result: Result<Value, DispatchError>)
        ensures
            (final(self)@, outcome_of(result)) == old(self)@.call(name@),
    {
        match self.resolve(name) {
            Some(method) => self.invoke(method),
            None => Err(DispatchError::UnknownMethod(name.to_string())),
        }
    }
}

} // verus!
