use crate::database::{Answer, Database, DatabaseView, Status};
use vstd::prelude::*;

verus! {

/// An entity that can be filled from one row of the local store.
///
/// The query to run depends on the filter; the engine's answer to it is then
/// handed to `read`, which fills the entity or says why it could not.
pub trait DatabaseRead<T>: View + Sized {
    /// The entity after reading `answer`, and the outcome, for a store in state `db`.
    spec fn read_spec(before: Self::V, db: DatabaseView, filter: T, answer: Answer) -> (Self::V, Status);

    /// The statement that selects the row for `filter`.
    fn query(filter: &T) -> &'static str;

    fn read(&mut self, database: &Database, filter: &T, answer: Answer) -> (r: Status)
        ensures
            (final(self)@, r) == Self::read_spec(old(self)@, database@, *filter, answer),
    ;
}

} // verus!
