//! A native-extension bridge: a small library that registers callable entry
//! points with a host scripting runtime and marshals values across the
//! native/managed boundary.
//!
//! The verified core has two parts:
//! - the function adapter ([`adapter`]): converts host-shaped values to the
//!   native types the wrapped logic expects, runs it, and converts the result
//!   back, turning every failure into a catchable error value;
//! - the module registry ([`registry`]): the one-time initialization that
//!   attaches each adapter to the module namespace under its fixed name,
//!   modelled as a state machine that is guarded against re-entry.
//!
//! The host-side glue that actually hands the module to the scripting runtime
//! lives outside the verified library.

pub mod adapter;
pub mod registry;
pub mod value;
