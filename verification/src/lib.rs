//! A stateless responder for a frame protocol: an entry card (image plus up
//! to four labeled buttons) and a deterministic transition from a pressed
//! button's index to the next card.

pub mod config;
pub mod errors;
pub mod frame_logic;
pub mod renderer;
pub mod urls;

use vstd::prelude::*;

verus! {

} // verus!
