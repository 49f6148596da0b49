//! Absolute URLs are always the configured domain followed by a fixed path;
//! this is the one place the concatenation is performed.

use vstd::prelude::*;
use vstd::string::StringExecFns;

verus! {

/// Concatenate the base domain and a fixed path into one absolute URL.
pub fn build_url(domain: &str, path: &str) -> (r: String)
    ensures
        r@ == domain@ + path@,
{
    let mut s = domain.to_owned();
    s.append(path);
    s
}

} // verus!
