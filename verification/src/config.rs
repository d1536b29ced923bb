//! What the exporter is started with.

use vstd::prelude::*;

verus! {

/// The key for the provider and the place whose weather is asked for. The three values
/// are set once, when the process starts, and are taken as they come: nothing checks
/// that a latitude is a number or that a key has the shape of one.
#[derive(Clone, Debug)]
pub struct Config {
    pub token: String,
    pub lat: String,
    pub lon: String,
}

} // verus!
