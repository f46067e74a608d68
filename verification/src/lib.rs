//! A typed client library for a document store's HTTP REST interface.
//!
//! The library covers the request-shaping and response-classification logic:
//! URL assembly for each operation family, the choice of HTTP verb, and the
//! mapping from status codes and body text to typed success or error
//! payloads. The network transport itself lives outside the library; callers
//! perform each planned request and hand the status code and body text back
//! to the classifiers here.

pub mod cat;
pub mod client;
pub mod doc;
pub mod errors;
pub mod index;
pub mod info;
pub mod json;
pub mod search;
pub mod text;

use vstd::prelude::*;

verus! {

/// A `Result` with both sides replaced by their views.
pub open spec fn result_view<T: View, E: View>(r: Result<T, E>) -> Result<T::V, E::V> {
    match r {
        Ok(v) => Ok(v@),
        Err(e) => Err(e@),
    }
}

} // verus!
