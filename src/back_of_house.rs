//! The kitchen.
use vstd::prelude::*;

verus! {

/// A breakfast order: the guest picks the toast, the kitchen picks the fruit.
#[derive(Debug)]
pub struct Breakfast {
    pub toasts: String,
    pub(crate) seasonal_fruit: String,
}

impl Breakfast {
    /// The toast the guest chose.
    pub open(crate) spec fn toast(&self) -> Seq<char> {
        self.toasts@
    }

    /// The fruit the kitchen chose.
    pub open(crate) spec fn fruit(&self) -> Seq<char> {
        self.seasonal_fruit@
    }

    /// A summer breakfast with the given toast, served with peaches.
    pub fn summer(toast: &str) -> (r: Breakfast)
        ensures
            r.toast() == toast@,
            r.fruit() == "peaches"@,
    {
        Breakfast { toasts: toast.to_owned(), seasonal_fruit: "peaches".to_owned() }
    }
}

/// The starters on offer.
#[allow(dead_code)]
pub enum Appetizer {
    Soup,
    Salad,
}

#[allow(dead_code)]
fn fix_incorrect_order() {
    super::server_order();
    cook_order();
}

fn cook_order() {
}

} // verus!
