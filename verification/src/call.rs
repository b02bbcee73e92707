//! The vocabulary of a call: the address it goes to, the method it names,
//! and what comes back.

use vstd::prelude::*;
use vstd::string::StringSliceAdditionalSpecFns;
use vstd::utf8::encode_utf8_decode_utf8;

verus! {

/// Handle of a published component.
///
/// A handle is a plain copyable value; the state it stands for stays with
/// the registry that issued it. Outside this crate a handle can be passed
/// around and compared, and nothing else.
#[derive(Clone, Copy, Debug, PartialEq, Eq, Hash)]
pub struct ComponentAddress {
    pub(crate) index: usize,
}

/// The operations that components expose. The set is fixed: nothing adds
/// or removes a method at run time.
#[derive(Clone, Copy, Debug, PartialEq, Eq)]
pub enum Method {
    /// The greeter's only method.
    Hello,
    /// Moves a counter forward by one.
    Increment,
    /// Reads a counter.
    Get,
}

impl Method {
    /// The name under which callers ask for the method.
    pub open spec fn spec_name(&self) -> Seq<char> {
        match self {
            Method::Hello => "hello"@,
            Method::Increment => "increment"@,
            Method::Get => "get"@,
        }
    }

    /// The name under which callers ask for the method.
    pub fn name(&self) -> (name: &'static str)
        ensures
            name@ == self.spec_name(),
    {
        match self {
            Method::Hello => "hello",
            Method::Increment => "increment",
            Method::Get => "get",
        }
    }

    /// Whether the method may change the state it runs on. A mutating
    /// method needs the state to itself while it runs; read-only methods
    /// may share it.
    pub open spec fn spec_is_mutating(&self) -> bool {
        self is Increment
    }

    /// Whether the method may change the state it runs on.
    #[verifier::when_used_as_spec(spec_is_mutating)]
    pub fn is_mutating(&self) -> (mutating: bool)
        ensures
            mutating == self.spec_is_mutating(),
    {
        match self {
            Method::Increment => true,
            Method::Hello | Method::Get => false,
        }
    }
}

/// No two methods go by the same name.
pub proof fn lemma_method_names_differ(a: Method, b: Method)
    ensures
        a.spec_name() == b.spec_name() <==> a == b,
{
    reveal_strlit("hello");
    reveal_strlit("increment");
    reveal_strlit("get");
    if a != b {
        assert(a.spec_name().len() != b.spec_name().len());
    }
}

/// What a method hands back.
#[derive(Debug, PartialEq, Eq)]
pub enum Value {
    /// Nothing: the method was called for its effect.
    Unit,
    /// An unsigned 64-bit number.
    Number(u64),
    /// A string.
    Text(String),
}

/// Mathematical content of a [`Value`].
pub enum ValueView {
    Unit,
    Number(nat),
    Text(Seq<char>),
}

impl View for Value {
    type V = ValueView;

    open spec fn view(&self) -> ValueView {
        match self {
            Value::Unit => ValueView::Unit,
            Value::Number(n) => ValueView::Number(*n as nat),
            Value::Text(s) => ValueView::Text(s@),
        }
    }
}

/// Why a call did not run. A refused call changes nothing, and it never
/// stands in for a result: the caller gets the error and no value.
#[derive(Debug, PartialEq, Eq)]
pub enum DispatchError {
    /// No live component is bound to this address.
    UnknownAddress(ComponentAddress),
    /// The component has no method of this name.
    UnknownMethod(String),
    /// The counter holds `u64::MAX` and cannot move forward.
    CounterOverflow,
}

/// Mathematical content of a [`DispatchError`].
pub enum DispatchErrorView {
    UnknownAddress(ComponentAddress),
    UnknownMethod(Seq<char>),
    CounterOverflow,
}

impl View for DispatchError {
    type V = DispatchErrorView;

    open spec fn view(&self) -> DispatchErrorView {
        match self {
            DispatchError::UnknownAddress(address) => DispatchErrorView::UnknownAddress(*address),
            DispatchError::UnknownMethod(name) => DispatchErrorView::UnknownMethod(name@),
            DispatchError::CounterOverflow => DispatchErrorView::CounterOverflow,
        }
    }
}

/// Mathematical content of what a call returns.
pub type Outcome = Result<ValueView, DispatchErrorView>;

/// The [`Outcome`] that an executable result stands for.
pub open spec fn outcome_of(result: Result<Value, DispatchError>) -> Outcome {
    match result {
        Ok(value) => Ok(value@),
        Err(error) => Err(error@),
    }
}

/// Whether two string slices hold the same characters.
pub(crate) fn same_text(left: &str, right: &str) -> (same: bool)
    ensures
        same == (left@ == right@),
{
    let a = left.as_bytes();
    let b = right.as_bytes();
    proof {
        // Equal encodings decode to equal texts.
        encode_utf8_decode_utf8(left@);
        encode_utf8_decode_utf8(right@);
    }
    if a.len() != b.len() {
        return false;
    }
    let mut i: usize = 0;
    while i < a.len()
        invariant
            a@ == left.spec_bytes(),
            b@ == right.spec_bytes(),
            a@.len() == b@.len(),
            i <= a@.len(),
            forall|j: int| 0 <= j < i ==> a@[j] == b@[j],
        decreases a@.len() - i,
    {
        if a[i] != b[i] {
            return false;
        }
        i += 1;
    }
    assert(a@ =~= b@);
    true
}

} // verus!
