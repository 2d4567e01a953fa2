use vstd::prelude::*;

verus! {

/// Lifecycle of the local user.
#[derive(Clone, Copy, Debug, PartialEq, Eq, Structural)]
pub enum Status {
    Active,
    Unactive,
    Deleted,
}

/// The device's own user, as held in the `user` table.
#[derive(Clone, Debug)]
pub struct User {
    pub id: u64,
    pub uuid: String,
    pub status: Status,
}

pub struct UserView {
    pub id: u64,
    pub uuid: Seq<char>,
    pub status: Status,
}

impl View for User {
    type V = UserView;

    open spec fn view(&self) -> UserView {
        UserView { id: self.id, uuid: self.uuid@, status: self.status }
    }
}

pub open spec fn is_blank(u: UserView) -> bool {
    u.id == 0 && u.uuid.len() == 0
}

impl User {
    /// A blank user: no id, no uuid, active.
    pub fn new() -> (r: User)
        ensures
            r.id == 0,
            r.uuid@.len() == 0,
            r.status == Status::Active,
    {
        User { id: 0, uuid: String::new(), status: Status::Active }
    }

    /// Whether nothing has been read into this user yet.
    pub fn is_empty(&self) -> (r: bool)
        ensures
            r == is_blank(self@),
    {
        self.id == 0 && self.uuid.as_str().is_empty()
    }
}

} // verus!
