//! A small service library that lists the object keys of a storage bucket.
//!
//! `models` holds the response model and its textual forms, `files` the
//! request logic from configuration to response, and `server` the transport
//! choice and the life of one connection.
use vstd::prelude::*;

pub mod files;
pub mod models;
pub mod server;

verus! {

} // verus!
