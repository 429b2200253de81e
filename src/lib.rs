//! Authentication and authorization core of a blog backend: request-body rules, password
//! hashing, session tokens, the route classifier and token check that run before handlers,
//! and the ownership rule that guards every update and delete.

use vstd::prelude::*;

pub mod config;
pub mod errors;
pub mod flow;
pub mod handlers;
pub mod middleware;
pub mod models;
pub mod token;
pub mod utils;
pub mod validation;

pub use config::Config;

verus! {

} // verus!
