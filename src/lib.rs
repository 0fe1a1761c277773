use vstd::prelude::*;

pub mod cookies;
pub mod crypto;
pub mod errors;
pub mod extractors;
pub mod laws;
pub mod middleware;
pub mod models;
pub mod router;
pub mod service;
pub mod store;
pub mod token;
pub mod text;

verus! {

} // verus!
