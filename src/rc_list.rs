//! A cons list whose tails can be shared between lists.
use std::rc::Rc;
use vstd::prelude::*;

verus! {

/// A list of integers; a tail may belong to several lists at once.
pub enum List {
    Nil,
    Cons(i32, Rc<List>),
}

impl List {
    /// The elements, head first.
    pub open spec fn elems(&self) -> Seq<i32>
        decreases self,
    {
        match self {
            List::Nil => Seq::empty(),
            List::Cons(v, tail) => seq![*v] + tail.elems(),
        }
    }

    /// Calls `function` on each element in turn, head first.
    pub fn iterate_over<F: Fn(&i32)>(&self, function: &F)
        requires
            forall|x: &i32| call_requires(*function, (x,)),
    {
        let mut i = self;
        loop
            invariant
                forall|x: &i32| call_requires(*function, (x,)),
            decreases i.elems().len(),
        {
            match i {
                List::Nil => break,
                List::Cons(value, tail) => {
                    assert(call_requires(*function, (value,)));
                    function(value);
                    proof {
                        assert(i.elems() == seq![*value] + tail.elems());
                    }
                    i = tail;
                },
            }
        }
    }
}

} // verus!
