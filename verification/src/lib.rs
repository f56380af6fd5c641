//! Typed request contexts.
//!
//! A context is a nest of [`Context`] nodes around an [`EmpContext`], one node
//! for each item that has been pushed. A service names the items it needs by
//! their types, through the bounds [`Has`], [`Pop`] and [`Push`] on the context
//! type it accepts, and the compiler checks that every service in a chain is
//! handed a context that holds them.
use vstd::prelude::*;

pub mod auth;
pub mod context;

pub use auth::{AuthData, Authorization, Scopes};
pub use context::{Context, ContextWrapper, ContextWrapperExt, EmpContext, Has, Pop, Push};

verus! {

/// Identifier that follows one request through every service it touches.
#[derive(Debug, Clone, PartialEq, Eq)]
pub struct XSpanIdString(pub String);

} // verus!
