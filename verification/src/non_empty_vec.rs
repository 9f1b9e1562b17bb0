use vstd::prelude::*;

verus! {

/// An ordered list of values with a distinguished first element.
///
/// A submission's file list always has a main file (the first one), so the
/// resolver takes this type and never re-checks emptiness.
pub struct NonEmptyVec<T> {
    head: T,
    tail: Vec<T>,
}

impl<T> NonEmptyVec<T> {
    /// The first element.
    pub closed spec fn spec_head(&self) -> T {
        self.head
    }

    /// The elements after the first, in order.
    pub closed spec fn spec_tail(&self) -> Seq<T> {
        self.tail@
    }

    /// All elements, in order, starting with the head.
    pub open spec fn spec_items(&self) -> Seq<T> {
        seq![self.spec_head()] + self.spec_tail()
    }

    /// Splits into the head and the remaining elements.
    pub fn parts(self) -> (r: (T, Vec<T>))
        ensures
            r.0 == self.spec_head(),
            r.1@ == self.spec_tail(),
    {
        (self.head, self.tail)
    }

    /// Borrows the first element.
    pub fn head(&self) -> (r: &T)
        ensures
            *r == self.spec_head(),
    {
        &self.head
    }

    /// Borrows the elements after the first.
    pub fn tail(&self) -> (r: &Vec<T>)
        ensures
            r@ == self.spec_tail(),
    {
        &self.tail
    }
}

/// Builds a [`NonEmptyVec`] from a plain vector; fails exactly when the
/// vector is empty.
pub fn from_vec<T>(vec: Vec<T>) -> (r: Option<NonEmptyVec<T>>)
    ensures
        match r {
            Some(nev) => vec@.len() > 0 && nev.spec_items() == vec@,
            None => vec@.len() == 0,
        },
{
    let mut rest = vec;
    if rest.len() == 0 {
        None
    } else {
        let head = rest.remove(0);
        let nev = NonEmptyVec { head, tail: rest };
        proof {
            assert(nev.spec_items() =~= vec@);
        }
        Some(nev)
    }
}

} // verus!
