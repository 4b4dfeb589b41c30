//! A transformation engine for interface-based dependency injection.
//!
//! From a decorated function, a group of functions, an existing interface or
//! a hand-written implementation block, the engine derives the interface, the
//! forwarding implementation that lets a generic wrapper satisfy it by one of
//! three delegation strategies, and the request for a mock surface. Every
//! step works on plain models of the declarations and states its result in
//! its contract; `laws` collects the properties that relate several steps.

pub mod config;
pub mod delegation;
pub mod error;
pub mod expand;
pub mod interface;
pub mod laws;
pub mod mock;
pub mod signature;
pub mod split;
