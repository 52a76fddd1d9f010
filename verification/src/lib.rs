//! A transparent forwarding proxy core: rewrites inbound requests to a fixed
//! upstream origin, strips headers the outbound transport re-adds, and keeps a
//! concurrency-safe count of proxied requests.

pub mod headers;
pub mod pipeline;
pub mod render;
pub mod request;
pub mod stats;
pub mod target;
pub mod text;
pub mod uri;

use vstd::prelude::*;

verus! {

} // verus!
