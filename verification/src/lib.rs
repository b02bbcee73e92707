//! Components with private state, published under an address and driven
//! through a fixed table of named methods.
//!
//! There are two kinds of component. A greeter ([`greeter::Trivial`]) has no
//! state and answers `hello` with a fixed string. A counter
//! ([`counter::DemoBlueprint`]) holds one unsigned 64-bit count that starts
//! at zero, moves forward by one on `increment` and is read by `get`.
//!
//! A component comes to life in three steps: its state is built, wrapped
//! into a [`component::Component`], and published in a
//! [`registry::Registry`], which hands back a
//! [`call::ComponentAddress`]. From then on the state is reached only by
//! address and method name, through [`registry::Registry::call_method`].
//!
//! The contracts are stated over a mathematical model: a registry is a map
//! from addresses to component states, and [`registry::dispatch`] says what
//! one call does to that map and what it returns. [`trace`] proves what
//! holds of every sequence of calls.

pub mod call;
pub mod component;
pub mod counter;
pub mod greeter;
pub mod registry;
pub mod trace;
