//! Runs of calls through a table, and what holds of every run.

use vstd::prelude::*;

use crate::call::{lemma_method_names_differ, ComponentAddress, Method, Outcome, ValueView};
use crate::component::{
    lemma_resolve_by_name, lemma_state_changes_only_by_mutation, ComponentView,
};
use crate::greeter::GREETING;
use crate::registry::{dispatch, Table};

verus! {

/// One call as a registry receives it.
pub struct Call {
    pub address: ComponentAddress,
    pub name: Seq<char>,
}

/// The call that asks `address` for `method`.
pub open spec fn call_of(address: ComponentAddress, method: Method) -> Call {
    Call { address, name: method.spec_name() }
}

/// The table that a run of calls leaves, the calls taken in order. Calls
/// that are refused are part of the run like any other.
pub open spec fn run(table: Table, calls: Seq<Call>) -> Table
    decreases calls.len(),
{
    if calls.len() == 0 {
        table
    } else {
        dispatch(run(table, calls.drop_last()), calls.last().address, calls.last().name).0
    }
}

/// How many calls of the run ask `address` for an increment.
pub open spec fn increments_issued(calls: Seq<Call>, address: ComponentAddress) -> nat
    decreases calls.len(),
{
    if calls.len() == 0 {
        0
    } else {
        let earlier = increments_issued(calls.drop_last(), address);
        if calls.last() == call_of(address, Method::Increment) {
            earlier + 1
        } else {
            earlier
        }
    }
}

/// The run that asks `address` for an increment `k` times and for nothing
/// else.
pub open spec fn increments(address: ComponentAddress, k: nat) -> Seq<Call> {
    Seq::new(k, |i: int| call_of(address, Method::Increment))
}

/// A call changes the table only if it reaches a live component, names a
/// mutating method of it, and succeeds. Refused calls and read-only methods
/// leave every binding as it was.
pub proof fn lemma_table_changes_only_by_mutation(
    table: Table,
    address: ComponentAddress,
    name: Seq<char>,
)
    ensures
        dispatch(table, address, name).0 != table ==> table.dom().contains(address),
        dispatch(table, address, name).0 != table ==> (table[address].resolve(name) matches Some(
            method,
        ) && method.is_mutating()),
        dispatch(table, address, name).0 != table ==> dispatch(table, address, name).1 is Ok,
{
    if table.dom().contains(address) {
        let component = table[address];
        if component.call(name).0 == component {
            // Rebinding an address to the state it already has changes nothing.
            assert(table.insert(address, component) =~= table);
        } else {
            lemma_state_changes_only_by_mutation(component, component.resolve(name).unwrap());
        }
    }
}

/// Reading a counter twice in a row, with no call in between, gives the
/// same answer both times: the first read leaves the table as it found it.
pub proof fn lemma_get_is_idempotent(table: Table, address: ComponentAddress)
    ensures
        dispatch(table, address, Method::Get.spec_name()).0 == table,
        dispatch(
            dispatch(table, address, Method::Get.spec_name()).0,
            address,
            Method::Get.spec_name(),
        ).1 == dispatch(table, address, Method::Get.spec_name()).1,
{
    // The name is not that of the one mutating method.
    lemma_method_names_differ(Method::Get, Method::Increment);
    lemma_table_changes_only_by_mutation(table, address, Method::Get.spec_name());
}

/// A call to one address leaves every other address as it was: the same
/// addresses are live, each bound to the same state, so whatever is asked
/// of another component next is answered as it would have been before.
/// Incrementing one counter therefore never shows in what another returns.
pub proof fn lemma_instances_are_independent(
    table: Table,
    address: ComponentAddress,
    name: Seq<char>,
    other: ComponentAddress,
    probe: Seq<char>,
)
    requires
        other != address,
    ensures
        dispatch(table, address, name).0.dom() == table.dom(),
        dispatch(table, address, name).0[other] == table[other],
        dispatch(dispatch(table, address, name).0, other, probe).1 == dispatch(
            table,
            other,
            probe,
        ).1,
{
}

/// A run never unbinds an address and never changes the kind of the
/// component bound to it.
pub proof fn lemma_bindings_are_stable(table: Table, calls: Seq<Call>, address: ComponentAddress)
    ensures
        run(table, calls).dom() == table.dom(),
        table[address] is Greeter ==> run(table, calls)[address] is Greeter,
        table[address] is Counter ==> run(table, calls)[address] is Counter,
    decreases calls.len(),
{
    if calls.len() > 0 {
        lemma_bindings_are_stable(table, calls.drop_last(), address);
    }
}

/// A greeter answers `hello` with the greeting, whatever calls went before
/// and however many of them: the answer depends on no state.
pub proof fn lemma_hello_is_constant(table: Table, calls: Seq<Call>, address: ComponentAddress)
    requires
        table.dom().contains(address),
        table[address] is Greeter,
    ensures
        dispatch(run(table, calls), address, Method::Hello.spec_name()).1 == Outcome::Ok(
            ValueView::Text(GREETING@),
        ),
{
    lemma_bindings_are_stable(table, calls, address);
}

/// A counter counts the increments issued to it, each exactly once.
///
/// Whatever else the run holds (reads, calls to other addresses, calls that
/// are refused), the counter ends at the count it started from plus the
/// number of increments addressed to it, and `get` then returns that
/// number. The bound keeps the run within what a counter can hold.
pub proof fn lemma_counter_counts_increments(
    table: Table,
    calls: Seq<Call>,
    address: ComponentAddress,
    start: nat,
)
    requires
        table.dom().contains(address),
        table[address] == ComponentView::Counter(start),
        start + increments_issued(calls, address) <= u64::MAX,
    ensures
        run(table, calls)[address] == ComponentView::Counter(
            start + increments_issued(calls, address),
        ),
        dispatch(run(table, calls), address, Method::Get.spec_name()).1 == Outcome::Ok(
            ValueView::Number(start + increments_issued(calls, address)),
        ),
    decreases calls.len(),
{
    if calls.len() > 0 {
        let last = calls.last();
        let before = run(table, calls.drop_last());
        lemma_counter_counts_increments(table, calls.drop_last(), address, start);
        if last.address == address && last != call_of(address, Method::Increment) {
            // Any other call to the counter leaves its count where it was.
            lemma_table_changes_only_by_mutation(before, address, last.name);
        }
    }
    // On a counter, "get" names the read.
    lemma_resolve_by_name(run(table, calls)[address], Method::Get.spec_name(), Method::Get);
}

/// A counter that starts at zero reads zero, and after `k` increments in a
/// row it reads exactly `k`.
pub proof fn lemma_fresh_counter_reads_its_increments(
    table: Table,
    address: ComponentAddress,
    k: nat,
)
    requires
        table.dom().contains(address),
        table[address] == ComponentView::Counter(0),
        k <= u64::MAX,
    ensures
        dispatch(table, address, Method::Get.spec_name()).1 == Outcome::Ok(ValueView::Number(0)),
        dispatch(run(table, increments(address, k)), address, Method::Get.spec_name()).1
            == Outcome::Ok(ValueView::Number(k)),
{
    lemma_resolve_by_name(table[address], Method::Get.spec_name(), Method::Get);
    lemma_increments_are_all_issued(address, k);
    lemma_counter_counts_increments(table, increments(address, k), address, 0);
}

/// Every call of `increments(address, k)` is an increment issued to
/// `address`.
proof fn lemma_increments_are_all_issued(address: ComponentAddress, k: nat)
    ensures
        increments_issued(increments(address, k), address) == k,
    decreases k,
{
    if k > 0 {
        lemma_increments_are_all_issued(address, (k - 1) as nat);
        assert(increments(address, k).drop_last() =~= increments(address, (k - 1) as nat));
    }
}

} // verus!
