//! Client library for managing one remote playlist over an HTTP JSON API:
//! searching for candidate entries, appending an entry to a configured
//! playlist, and retrieving one page of the playlist's contents.
//!
//! The library owns the data model, the JSON wire codec, authenticated
//! request construction, and response classification. The network transport
//! itself is left to the embedding application: it sends the requests this
//! library builds and hands the raw status and body back for interpretation.

use vstd::prelude::*;

pub mod client;
pub mod codec;
pub mod decode;
pub mod model;
pub mod roundtrip;
pub mod routes;
