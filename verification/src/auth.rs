//! What a request carries about who sent it and what they may do.
//!
//! A context only stores these values and hands them back: nothing in this
//! crate looks inside them.
use std::collections::BTreeSet;
use vstd::prelude::*;

verus! {

/// The scopes that an authorization covers.
#[derive(Debug, Clone, PartialEq, Eq)]
pub enum Scopes {
    /// These scopes and no others.
    Listed(BTreeSet<String>),
    /// Every scope.
    All,
}

/// What the sender of a request has been granted.
#[derive(Debug, Clone, PartialEq, Eq)]
pub struct Authorization {
    /// For whom the grant was made.
    pub subject: String,
    /// What the grant covers.
    pub scopes: Scopes,
    /// Who asked for the grant on the subject's behalf, where that is known.
    pub issuer: Option<String>,
}

/// The credentials that came with a request, as they were presented.
#[derive(Debug, Clone, PartialEq, Eq)]
pub enum AuthData {
    /// HTTP basic authentication.
    Basic { username: String, password: Option<String> },
    /// A bearer token.
    Bearer { token: String },
    /// An API key, from a header or from the query.
    ApiKey(String),
}

} // verus!
