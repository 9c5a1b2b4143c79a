//! A collection of animals of one kind, each able to make its sound.
use vstd::prelude::*;

verus! {

/// An animal; implemented by the library's users.
pub trait Animal {
    fn make_sound(&self);
}

/// Animals kept together, all of the same kind.
pub struct Zoo<T: Animal> {
    pub animals: Vec<Box<T>>,
}

impl<T: Animal> Zoo<T> {
    /// Has every animal make its sound, in order.
    pub fn make_sound(&self) {
        let mut i: usize = 0;
        while i < self.animals.len()
            invariant
                i <= self.animals.len(),
            decreases self.animals.len() - i,
        {
            self.animals[i].make_sound();
            i = i + 1;
        }
    }
}

} // verus!
