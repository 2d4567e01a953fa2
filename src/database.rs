pub mod user;

use vstd::prelude::*;

verus! {

/// The full schema, applied in one script to a store that lacks it.
pub const CREATION_SQL: &'static str = "
CREATE TABLE `user` ( `id` INTEGER NOT NULL PRIMARY KEY AUTOINCREMENT, user_uuid TEXT NOT NULL DEFAULT '', status integer NOT NULL DEFAULT '0');
CREATE TABLE `properties` ( `id` INTEGER NOT NULL PRIMARY KEY AUTOINCREMENT, user_id integer NOT NULL DEFAULT 0, server_id integer NOT NULL DEFAULT 0, `_key` TEXT NOT NULL DEFAULT '', `_value` TEXT NOT NULL DEFAULT '');
CREATE TABLE fields ( `id` integer PRIMARY KEY AUTOINCREMENT, user_id integer NOT NULL DEFAULT 0, server_id integer NOT NULL DEFAULT 0, `group_id` integer NOT NULL DEFAULT 0, `group_field_id` integer NOT NULL DEFAULT 0, `title` text NOT NULL, `value` text NOT NULL, `is_hidden` integer NOT NULL, synchronized integer NOT NULL DEFAULT 0, deleted integer NOT NULL DEFAULT '0', FOREIGN KEY (user_id) REFERENCES user (id));
CREATE TABLE group_fields (id integer primary key autoincrement, user_id integer NOT NULL DEFAULT 0, server_id integer NOT NULL DEFAULT 0, `group_id` integer NOT NULL DEFAULT 0, title text not null, is_hidden integer not null, synchronized integer NOT NULL DEFAULT 0, deleted integer NOT NULL DEFAULT '0', is_temporary integer, FOREIGN KEY (user_id) REFERENCES user (id));
CREATE TABLE groups ( `id` integer PRIMARY KEY AUTOINCREMENT, user_id integer NOT NULL DEFAULT 0, server_id integer NOT NULL DEFAULT 0, group_id integer, server_group_id integer, `title` text NOT NULL, `icon` text NOT NULL DEFAULT 'UNUSED', `_note` text, synchronized integer NOT NULL DEFAULT 0, deleted integer NOT NULL DEFAULT '0', shared integer, FOREIGN KEY (user_id) REFERENCES user (id));
CREATE INDEX `groups_title` ON `groups` (title);
CREATE INDEX `group_fields_group_id` ON `group_fields` (`group_id`);
CREATE INDEX groups_group_id ON groups (group_id);
CREATE INDEX fields_group_id ON fields (group_id);
CREATE INDEX fields_group_field_id ON fields (group_field_id);
CREATE INDEX groups_server_id ON groups (server_id);
CREATE INDEX group_fields_server_id ON group_fields (server_id);
CREATE INDEX fields_server_id ON fields (server_id);
CREATE INDEX groups_user_id ON groups (user_id);
CREATE INDEX group_fields_user_id ON group_fields (user_id);
CREATE INDEX fields_user_id ON fields (user_id);
CREATE INDEX groups_deleted ON groups (deleted);
CREATE INDEX group_fields_deleted ON group_fields (deleted);
CREATE INDEX fields_deleted ON fields (deleted);
";

/// Succeeds exactly when the schema is already in place.
pub const PROBE_SQL: &'static str = "SELECT * FROM user";

/// Suffix of a database file.
pub const DB_EXTENSION: &'static str = ".db";

/// Outcome of reading one entity from the store.
#[derive(Clone, Copy, Debug, PartialEq, Eq, Structural)]
pub enum Status {
    /// A row was read into the entity.
    Found,
    /// The statement failed or the store is not open.
    Error,
    /// The query ran and returned no row.
    Empty,
}

/// What the storage engine answered to a row-returning query.
#[derive(Clone, Debug)]
pub enum Answer {
    /// The first row, each column read as text.
    Row(Vec<String>),
    /// The query ran and returned no row.
    NoRow,
    /// The statement could not be prepared or run.
    Failed,
}

/// What the storage engine reports back after an action.
#[derive(Clone, Debug)]
pub enum Event {
    /// The database file is open.
    Opened,
    /// The database file could not be opened or created.
    OpenFailed,
    /// Whether the schema probe succeeded.
    Probed(bool),
    /// Whether the schema script succeeded.
    Created(bool),
    /// The answer to a read query.
    Read(Answer),
}

/// What the caller must do next with the storage engine.
#[derive(Clone, Copy, Debug, PartialEq, Eq, Structural)]
pub enum Action {
    /// Open (or create) the database file at the store's path.
    Open,
    /// Run `PROBE_SQL` and report whether it succeeded.
    Probe,
    /// Run `CREATION_SQL` as one script and report whether it succeeded.
    Create,
    /// Run the user query and report its first row.
    Read,
    /// The store is open with its schema in place.
    Done,
    /// The session is ready.
    Ready,
    /// The work stopped with this error.
    Fail(crate::utils::Error),
    /// The event did not apply to the current state; nothing to do.
    Idle,
}

/// Where the store stands in opening its file and checking its schema.
#[derive(Clone, Copy, Debug, PartialEq, Eq, Structural)]
pub enum Stage {
    Closed,
    Opening,
    Probing,
    Creating,
    Open,
    Failed,
}

pub struct DatabaseView {
    pub path: Seq<char>,
    pub stage: Stage,
    /// Whether the schema was created during this opening.
    pub created: bool,
}

pub open spec fn closed_store() -> DatabaseView {
    DatabaseView { path: Seq::empty(), stage: Stage::Closed, created: false }
}

/// One step of opening a store: the state after `e` and what to do next.
pub open spec fn store_step(d: DatabaseView, e: Event) -> (DatabaseView, Action) {
    match (d.stage, e) {
        (Stage::Opening, Event::Opened) => (DatabaseView { stage: Stage::Probing, ..d }, Action::Probe),
        (Stage::Opening, Event::OpenFailed) => (
            DatabaseView { stage: Stage::Failed, ..d },
            Action::Fail(crate::utils::Error::StoreOpenFailed),
        ),
        (Stage::Probing, Event::Probed(true)) => (DatabaseView { stage: Stage::Open, ..d }, Action::Done),
        (Stage::Probing, Event::Probed(false)) => (DatabaseView { stage: Stage::Creating, ..d }, Action::Create),
        (Stage::Creating, Event::Created(true)) => (
            DatabaseView { stage: Stage::Open, created: true, ..d },
            Action::Done,
        ),
        (Stage::Creating, Event::Created(false)) => (
            DatabaseView { stage: Stage::Failed, ..d },
            Action::Fail(crate::utils::Error::SchemaCreateFailed),
        ),
        _ => (d, Action::Idle),
    }
}

/// The local store: the bookkeeping of one database file and its schema.
/// The connection itself is held by whoever performs the actions.
#[derive(Debug)]
pub struct Database {
    path: String,
    stage: Stage,
    init: bool,
}

impl View for Database {
    type V = DatabaseView;

    closed spec fn view(&self) -> DatabaseView {
        DatabaseView { path: self.path@, stage: self.stage, created: self.init }
    }
}

impl Database {
    /// A store with no file.
    pub fn new() -> (r: Database)
        ensures
            r@ == closed_store(),
    {
        Database { path: String::new(), stage: Stage::Closed, init: false }
    }

    /// Starts opening the file at `file_db_path`; the caller opens it next.
    pub fn init(&mut self, file_db_path: String) -> (a: Action)
        ensures
            final(self)@ == (DatabaseView { path: file_db_path@, stage: Stage::Opening, created: false }),
            a == Action::Open,
    {
        self.path = file_db_path;
        self.stage = Stage::Opening;
        self.init = false;
        Action::Open
    }

    /// Takes in what the engine reported and says what to do next.
    pub fn on_event(&mut self, e: &Event) -> (a: Action)
        ensures
            (final(self)@, a) == store_step(old(self)@, *e),
    {
        match (self.stage, e) {
            (Stage::Opening, Event::Opened) => {
                self.stage = Stage::Probing;
                Action::Probe
            },
            (Stage::Opening, Event::OpenFailed) => {
                self.stage = Stage::Failed;
                Action::Fail(crate::utils::Error::StoreOpenFailed)
            },
            (Stage::Probing, Event::Probed(found)) => {
                if *found {
                    self.stage = Stage::Open;
                    Action::Done
                } else {
                    self.stage = Stage::Creating;
                    Action::Create
                }
            },
            (Stage::Creating, Event::Created(ok)) => {
                if *ok {
                    self.stage = Stage::Open;
                    self.init = true;
                    Action::Done
                } else {
                    self.stage = Stage::Failed;
                    Action::Fail(crate::utils::Error::SchemaCreateFailed)
                }
            },
            _ => Action::Idle,
        }
    }

    /// Whether the file is open with its schema in place.
    pub fn is_open(&self) -> (r: bool)
        ensures
            r == (self@.stage == Stage::Open),
    {
        self.stage == Stage::Open
    }

    /// Whether the file is open and the schema probe found the `user` relation,
    /// or the schema has since been created.
    pub fn is_created(&self) -> (r: bool)
        ensures
            r == (self@.stage == Stage::Open),
    {
        self.stage == Stage::Open
    }

    /// Whether the schema script ran, and succeeded, when the file was last opened.
    pub fn schema_was_created(&self) -> (r: bool)
        ensures
            r == self@.created,
    {
        self.init
    }

    /// The database file.
    pub fn path(&self) -> (r: &String)
        ensures
            r@ == self@.path,
    {
        &self.path
    }
}

} // verus!
