//! Small verified building blocks: a memoizing function cache (`memo`), string
//! and list exercises, a quota tracker, a counter, and a restaurant-shaped
//! module tree showing how paths and visibility work.
use vstd::prelude::*;

pub mod back_of_house;
pub mod counter;
pub mod exercises;
pub mod front_of_house;
pub mod functions;
pub mod generics;
pub mod limit_tracker;
pub mod memo;
pub mod polymorphism;
pub mod prompt;
pub mod rc_list;
pub mod statistics;
pub mod summary;

pub use back_of_house::{Appetizer, Breakfast};
pub use front_of_house::hosting::{add_to_waitlist, seat_at_table};
pub use memo::Catcher;

verus! {

fn server_order() {
}

/// Seats a guest and takes a summer breakfast order, with the toast changed
/// to wheat; the order is returned for the caller to announce.
pub fn eat_at_restaurant() -> (meal: Breakfast)
    ensures
        meal.toast() == "Wheat"@,
        meal.fruit() == "peaches"@,
{
    crate::front_of_house::hosting::add_to_waitlist();
    front_of_house::hosting::seat_at_table();
    let mut meal = back_of_house::Breakfast::summer("Rye");
    meal.toasts = "Wheat".to_owned();
    meal
}

/// The same visit, with the hosting functions named directly.
#[allow(dead_code)]
fn eat_at_restaurant_2() {
    add_to_waitlist();
    seat_at_table();
}

} // verus!
