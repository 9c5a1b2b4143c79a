//! The part of the restaurant that guests see.
use vstd::prelude::*;

pub mod hosting;
mod serving;

verus! {

/// Visible to this module's children, not to the rest of the crate.
fn look_at_the_personal() {
}

} // verus!
