//! Decision logic of a pull-through cache in front of a container-image
//! registry: request keys, authentication scopes, the cached manifest
//! record, and the step functions that decide what to do next while a
//! manifest or a blob is served from the cache or fetched from upstream.
use vstd::prelude::*;

pub mod blob_flow;
pub mod config;
pub mod error;
pub mod fan_out;
pub mod image;
pub mod manifest;
pub mod manifest_flow;
pub mod request;

verus! {

} // verus!
