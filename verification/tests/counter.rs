use demo_blueprint::call::{DispatchError, Method, Value};
use demo_blueprint::component::Component;
use demo_blueprint::counter::DemoBlueprint;
use demo_blueprint::registry::Registry;

#[test]
fn test_counter_increment() {
    let mut test_env = Registry::new();
    let component = DemoBlueprint::new(&mut test_env);

    assert_eq!(test_env.call_method(component, "increment"), Ok(Value::Unit));

    let result = test_env.call_method(component, "get");

    assert_eq!(result, Ok(Value::Number(1)));
}

#[test]
fn fresh_counter_reads_zero() {
    let mut registry = Registry::new();
    let counter = DemoBlueprint::new(&mut registry);
    assert_eq!(registry.call_method(counter, "get"), Ok(Value::Number(0)));
}

#[test]
fn counter_scenario_zero_one_three() {
    let mut registry = Registry::new();
    let counter = DemoBlueprint::new(&mut registry);
    assert_eq!(registry.call_method(counter, "get"), Ok(Value::Number(0)));
    assert_eq!(registry.call_method(counter, "increment"), Ok(Value::Unit));
    assert_eq!(registry.call_method(counter, "get"), Ok(Value::Number(1)));
    assert_eq!(registry.call_method(counter, "increment"), Ok(Value::Unit));
    assert_eq!(registry.call_method(counter, "increment"), Ok(Value::Unit));
    assert_eq!(registry.call_method(counter, "get"), Ok(Value::Number(3)));
}

#[test]
fn get_after_k_increments_is_k() {
    for k in 0..50u64 {
        let mut registry = Registry::new();
        let counter = DemoBlueprint::new(&mut registry);
        for _ in 0..k {
            assert_eq!(registry.call_method(counter, "increment"), Ok(Value::Unit));
        }
        assert_eq!(registry.call_method(counter, "get"), Ok(Value::Number(k)));
    }
}

#[test]
fn reads_between_increments_lose_nothing() {
    let mut registry = Registry::new();
    let counter = DemoBlueprint::new(&mut registry);
    let mut issued = 0u64;
    for round in 0..200u64 {
        if round % 3 == 0 {
            assert_eq!(registry.call_method(counter, "get"), Ok(Value::Number(issued)));
        } else {
            assert_eq!(registry.call_method(counter, "increment"), Ok(Value::Unit));
            issued += 1;
        }
    }
    assert_eq!(issued, 133);
    assert_eq!(registry.call_method(counter, "get"), Ok(Value::Number(133)));
}

#[test]
fn two_reads_in_a_row_agree() {
    let mut registry = Registry::new();
    let counter = DemoBlueprint::new(&mut registry);
    registry.call_method(counter, "increment").unwrap();
    registry.call_method(counter, "increment").unwrap();
    let first = registry.call_method(counter, "get");
    let second = registry.call_method(counter, "get");
    assert_eq!(first, Ok(Value::Number(2)));
    assert_eq!(second, first);
}

#[test]
fn two_counters_are_independent() {
    let mut registry = Registry::new();
    let left = DemoBlueprint::new(&mut registry);
    let right = DemoBlueprint::new(&mut registry);
    assert_ne!(left, right);

    registry.call_method(left, "increment").unwrap();
    registry.call_method(left, "increment").unwrap();
    assert_eq!(registry.call_method(right, "get"), Ok(Value::Number(0)));

    registry.call_method(right, "increment").unwrap();
    assert_eq!(registry.call_method(left, "get"), Ok(Value::Number(2)));
    assert_eq!(registry.call_method(right, "get"), Ok(Value::Number(1)));
}

#[test]
fn state_starts_at_zero_and_steps_by_one() {
    let mut state = DemoBlueprint::default();
    assert_eq!(state.get(), 0);
    state.increment();
    assert_eq!(state.get(), 1);
    state.increment();
    state.increment();
    assert_eq!(state.get(), 3);
}

#[test]
fn with_count_holds_the_count_given() {
    assert_eq!(DemoBlueprint::with_count(0).get(), 0);
    assert_eq!(DemoBlueprint::with_count(41).get(), 41);
    assert_eq!(DemoBlueprint::with_count(u64::MAX).get(), u64::MAX);

    let mut state = DemoBlueprint::with_count(41);
    state.increment();
    assert_eq!(state.get(), 42);
}

#[test]
fn last_step_reaches_the_maximum() {
    let mut state = DemoBlueprint::with_count(u64::MAX - 1);
    state.increment();
    assert_eq!(state.get(), u64::MAX);
}

#[test]
fn instantiate_keeps_the_count() {
    let mut component = DemoBlueprint::with_count(7).instantiate();
    assert!(matches!(component, Component::Counter(_)));
    assert_eq!(component.invoke(Method::Get), Ok(Value::Number(7)));
}

#[test]
fn full_counter_refuses_increment_and_keeps_its_count() {
    let mut registry = Registry::new();
    let counter = registry.globalize(DemoBlueprint::with_count(u64::MAX).instantiate());
    assert_eq!(
        registry.call_method(counter, "increment"),
        Err(DispatchError::CounterOverflow)
    );
    assert_eq!(registry.call_method(counter, "get"), Ok(Value::Number(u64::MAX)));
    assert_eq!(
        registry.call_method(counter, "increment"),
        Err(DispatchError::CounterOverflow)
    );
    assert_eq!(registry.call_method(counter, "get"), Ok(Value::Number(u64::MAX)));
}

#[test]
fn counter_one_short_of_full_takes_one_increment() {
    let mut component = DemoBlueprint::with_count(u64::MAX - 1).instantiate();
    assert_eq!(component.invoke(Method::Increment), Ok(Value::Unit));
    assert_eq!(component.invoke(Method::Get), Ok(Value::Number(u64::MAX)));
    assert_eq!(component.invoke(Method::Increment), Err(DispatchError::CounterOverflow));
    assert_eq!(component.invoke(Method::Get), Ok(Value::Number(u64::MAX)));
}
