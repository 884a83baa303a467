use vstd::prelude::*;

verus! {

/// Moving any value onto the heap with method syntax.
pub trait Boxable: Sized {
    fn boxed(self) -> (r: Box<Self>)
        ensures
            *r == self,
    ;
}

impl<T> Boxable for T {
    fn boxed(self) -> (r: Box<Self>) {
        Box::new(self)
    }
}

} // verus!
