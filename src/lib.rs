use vstd::prelude::*;

pub mod form;
pub mod handlers;
pub mod laws;
pub mod log;
pub mod reply;
pub mod store;

verus! {

/// The fixed text served on the sample API route.
pub fn api_sample() -> (r: String)
    ensures
        r@ == "Hello from Axum backend!"@,
{
    String::from_str("Hello from Axum backend!")
}

} // verus!
