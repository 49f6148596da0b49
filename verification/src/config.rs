//! The single configuration value shared by both components: the base domain
//! every absolute asset and action URL is built from.

use vstd::prelude::*;

verus! {

/// Immutable configuration, read once at process start and passed explicitly
/// into every component so each stays a pure function of its inputs.
#[derive(Clone)]
pub struct Config {
    pub domain: String,
}

} // verus!
