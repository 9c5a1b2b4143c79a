//! Receiving and seating guests.
use vstd::prelude::*;

verus! {

/// Puts a guest on the waiting list.
pub fn add_to_waitlist() {
}

/// Shows a guest to a table.
pub fn seat_at_table() {
}

/// Gets a table ready; private to this module.
#[allow(dead_code)]
fn prepare() {
    add_to_waitlist();
    self::seat_at_table();
    self::super::look_at_the_personal();
}

} // verus!
