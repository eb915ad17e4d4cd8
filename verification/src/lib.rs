//! Core of a desktop application's native shell: a command bridge exposing a
//! small set of callable operations to an embedded frontend, and a declarative
//! menu whose leaf activations are routed back to the frontend as named
//! actions.

pub mod actions;
pub mod bridge;
pub mod greet;
pub mod menu;
pub mod persist;
pub mod router;
pub mod text;
