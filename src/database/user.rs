use crate::database::{Answer, Database, DatabaseView, Stage, Status};
use crate::pods::user::{User, UserView};
use crate::traits::database_read::DatabaseRead;
use vstd::prelude::*;

verus! {

/// Selects the single user row.
pub const USER_QUERY: &'static str = "SELECT * FROM user;";

/// Column of the `user` table that holds the uuid.
pub const UUID_COLUMN: usize = 1;

/// Reading the user row: the uuid comes from its second column. A closed store
/// or a failed statement is an error; no row leaves the user as it was.
pub open spec fn user_read(before: UserView, db: DatabaseView, answer: Answer) -> (UserView, Status) {
    if db.stage != Stage::Open {
        (before, Status::Error)
    } else {
        match answer {
            Answer::Row(cols) => if cols@.len() > UUID_COLUMN {
                (UserView { uuid: cols@[UUID_COLUMN as int]@, ..before }, Status::Found)
            } else {
                (before, Status::Error)
            },
            Answer::NoRow => (before, Status::Empty),
            Answer::Failed => (before, Status::Error),
        }
    }
}

impl DatabaseRead<()> for User {
    open spec fn read_spec(before: UserView, db: DatabaseView, filter: (), answer: Answer) -> (UserView, Status) {
        user_read(before, db, answer)
    }

    fn query(filter: &()) -> &'static str {
        USER_QUERY
    }

    fn read(&mut self, database: &Database, filter: &(), answer: Answer) -> (r: Status) {
        if !database.is_open() {
            return Status::Error;
        }
        match answer {
            Answer::Row(mut cols) => {
                if cols.len() > UUID_COLUMN {
                    self.uuid = cols.remove(UUID_COLUMN);
                    Status::Found
                } else {
                    Status::Error
                }
            },
            Answer::NoRow => Status::Empty,
            Answer::Failed => Status::Error,
        }
    }
}

} // verus!
