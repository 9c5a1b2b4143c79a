//! Serving guests once they are seated.
use vstd::prelude::*;

verus! {

#[allow(dead_code)]
fn take_order() {
    super::look_at_the_personal()
}

#[allow(dead_code)]
fn serve_order() {
}

#[allow(dead_code)]
fn take_payment() {
}

} // verus!
