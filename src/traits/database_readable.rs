use vstd::prelude::*;

verus! {

/// A source from which a value of type `T` can be read for a filter of type `F`.
pub trait DatabaseReadable<T, F> {
    fn read(&self, filter: &F) -> T;
}

} // verus!
