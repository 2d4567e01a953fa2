use crate::config::{join, opt_view, parse_outcome, storage_dir, Config};
use crate::database::user::user_read;
use crate::database::{closed_store, store_step, Action, Answer, Database, DatabaseView, Event, Status, DB_EXTENSION};
use crate::pods::device::{Device, DeviceView};
use crate::pods::user::{Status as UserStatus, User, UserView};
use crate::traits::database_read::DatabaseRead;
use crate::utils::{Error, Result};
use vstd::prelude::*;

verus! {

/// Where a session stands in its bootstrap.
#[derive(Clone, Copy, Debug, PartialEq, Eq, Structural)]
pub enum Phase {
    /// Payload parsed and storage directory resolved; waiting to hear that the directory exists.
    AwaitingDirectory,
    /// Device parsed and its directory in place; `init` may open the store.
    DeviceParsed,
    /// The store is being opened and its schema checked.
    OpeningStore,
    /// The store is open; the user row is being read.
    StoreOpened,
    /// Bootstrap is complete.
    Ready,
    /// Bootstrap stopped; the session cannot be used.
    Failed,
}

pub struct SessionView {
    pub phase: Phase,
    pub store: DatabaseView,
    pub config_path: Seq<char>,
    pub device: DeviceView,
    pub user: Option<UserView>,
}

pub open spec fn blank_user() -> UserView {
    UserView { id: 0, uuid: Seq::empty(), status: UserStatus::Active }
}

/// The database file of a device: `<dir>/<uuid>.db`.
pub open spec fn db_path(dir: Seq<char>, uuid: Seq<char>) -> Seq<char> {
    join(dir, uuid + DB_EXTENSION@)
}

/// What `Session::new` yields for a payload, an explicit path and a home directory.
pub open spec fn new_outcome(
    json: Option<Seq<char>>,
    path: Option<Seq<char>>,
    home: Option<Seq<char>>,
) -> std::result::Result<SessionView, Error> {
    if json is None || json->Some_0.len() == 0 {
        Err(Error::ConfigNotDefined)
    } else if storage_dir(path, home) is None {
        Err(Error::DirectoryUnavailable)
    } else if let Err(e) = parse_outcome(json->Some_0) {
        Err(e)
    } else {
        Ok(
            SessionView {
                phase: Phase::AwaitingDirectory,
                store: closed_store(),
                config_path: storage_dir(path, home)->Some_0,
                device: parse_outcome(json->Some_0)->Ok_0,
                user: None,
            },
        )
    }
}

/// The session once the caller has tried to create the storage directory.
pub open spec fn directory_step(s: SessionView, created: bool) -> (SessionView, Result<()>) {
    if s.phase != Phase::AwaitingDirectory {
        (s, Err(Error::NotBootstrapped))
    } else if created {
        (SessionView { phase: Phase::DeviceParsed, ..s }, Ok(()))
    } else {
        (SessionView { phase: Phase::Failed, ..s }, Err(Error::DirectoryUnavailable))
    }
}

/// The session once `init` has started opening the store.
pub open spec fn init_step(s: SessionView) -> (SessionView, Action) {
    if s.phase != Phase::DeviceParsed {
        (s, Action::Fail(Error::NotBootstrapped))
    } else {
        (
            SessionView {
                phase: Phase::OpeningStore,
                store: DatabaseView {
                    path: db_path(s.config_path, s.device.uuid),
                    stage: crate::database::Stage::Opening,
                    created: false,
                },
                ..s
            },
            Action::Open,
        )
    }
}

/// One step of the bootstrap: the session after event `e`, and what to do next.
pub open spec fn session_step(s: SessionView, e: Event) -> (SessionView, Action) {
    if s.phase == Phase::OpeningStore {
        let (store, a) = store_step(s.store, e);
        if a == Action::Done {
            (SessionView { phase: Phase::StoreOpened, store, ..s }, Action::Read)
        } else if a is Fail {
            (SessionView { phase: Phase::Failed, store, ..s }, a)
        } else {
            (SessionView { store, ..s }, a)
        }
    } else if s.phase == Phase::StoreOpened && e is Read {
        let (u, st) = user_read(blank_user(), s.store, e->Read_0);
        if st == Status::Found {
            (SessionView { phase: Phase::Ready, user: Some(u), ..s }, Action::Ready)
        } else if st == Status::Empty {
            (SessionView { phase: Phase::Ready, user: None, ..s }, Action::Ready)
        } else {
            (SessionView { phase: Phase::Failed, user: None, ..s }, Action::Fail(Error::QueryFailed))
        }
    } else {
        (s, Action::Idle)
    }
}

/// A bootstrapping or bootstrapped session: the device, where its data lives,
/// its local store and the signed-in user, if any.
#[derive(Debug)]
pub struct Session {
    database: Database,
    config: Config,
    device: Device,
    user: Option<User>,
    phase: Phase,
}

pub open spec fn user_view(u: Option<User>) -> Option<UserView> {
    match u {
        Some(x) => Some(x@),
        None => None,
    }
}

impl View for Session {
    type V = SessionView;

    closed spec fn view(&self) -> SessionView {
        SessionView {
            phase: self.phase,
            store: self.database@,
            config_path: self.config@,
            device: self.device@,
            user: user_view(self.user),
        }
    }
}

impl Session {
    /// Starts a session from a registration payload and a storage location:
    /// the explicit path if given, else `home`. The caller then creates the
    /// directory and reports it with `directory_ready`.
    pub fn new(config_json: Option<String>, config_path: Option<String>, home: Option<String>) -> (r: Result<Session>)
        ensures
            match new_outcome(opt_view(config_json), opt_view(config_path), opt_view(home)) {
                Ok(v) => r matches Ok(s) && s@ == v,
                Err(e) => r matches Err(x) && x == e,
            },
            (config_json is None || config_json->Some_0@.len() == 0) ==> (r matches Err(x) && x == Error::ConfigNotDefined),
    {
        let json = match config_json {
            None => return Err(Error::ConfigNotDefined),
            Some(j) => j,
        };
        if json.as_str().is_empty() {
            return Err(Error::ConfigNotDefined);
        }
        let config = match Config::new(config_path, home) {
            Ok(c) => c,
            Err(e) => return Err(e),
        };
        let device = match config.parse(&json) {
            Ok(d) => d,
            Err(e) => return Err(e),
        };
        Ok(Session { database: Database::new(), config, device, user: None, phase: Phase::AwaitingDirectory })
    }

    /// Records whether the storage directory could be created.
    pub fn directory_ready(&mut self, created: bool) -> (r: Result<()>)
        ensures
            (final(self)@, r) == directory_step(old(self)@, created),
    {
        if self.phase != Phase::AwaitingDirectory {
            return Err(Error::NotBootstrapped);
        }
        if created {
            self.phase = Phase::DeviceParsed;
            Ok(())
        } else {
            self.phase = Phase::Failed;
            Err(Error::DirectoryUnavailable)
        }
    }

    /// Starts opening the device's database file, `<dir>/<uuid>.db`.
    pub fn init(&mut self) -> (a: Action)
        ensures
            (final(self)@, a) == init_step(old(self)@),
    {
        if self.phase != Phase::DeviceParsed {
            return Action::Fail(Error::NotBootstrapped);
        }
        let mut name = self.device.uuid.clone();
        name.append(DB_EXTENSION);
        let file_db_path = crate::config::join_path(self.config.get_config_path().as_str(), name.as_str());
        let a = self.database.init(file_db_path);
        self.phase = Phase::OpeningStore;
        a
    }

    /// Takes in what the storage engine reported and says what to do next.
    pub fn on_event(&mut self, e: Event) -> (a: Action)
        ensures
            (final(self)@, a) == session_step(old(self)@, e),
    {
        if self.phase == Phase::OpeningStore {
            let a = self.database.on_event(&e);
            if a == Action::Done {
                self.phase = Phase::StoreOpened;
                Action::Read
            } else {
                if let Action::Fail(_) = a {
                    self.phase = Phase::Failed;
                }
                a
            }
        } else if self.phase == Phase::StoreOpened {
            match e {
                Event::Read(answer) => {
                    let mut user = User::new();
                    let st = user.read(&self.database, &(), answer);
                    if st == Status::Found {
                        self.user = Some(user);
                        self.phase = Phase::Ready;
                        Action::Ready
                    } else if st == Status::Empty {
                        self.user = None;
                        self.phase = Phase::Ready;
                        Action::Ready
                    } else {
                        self.user = None;
                        self.phase = Phase::Failed;
                        Action::Fail(Error::QueryFailed)
                    }
                },
                _ => Action::Idle,
            }
        } else {
            Action::Idle
        }
    }

    /// Registration with the remote server happens elsewhere; nothing changes here.
    pub fn register_device(&mut self, _email: &String, _passwd: &String, _config_json: &String) -> (r: Result<()>)
        ensures
            final(self)@ == old(self)@,
            r == Ok::<(), Error>(()),
    {
        Ok(())
    }

    /// The local store.
    pub fn database(&self) -> (r: &Database)
        ensures
            r@ == self@.store,
    {
        &self.database
    }

    /// Where the vault keeps its files.
    pub fn config(&self) -> (r: &Config)
        ensures
            r@ == self@.config_path,
    {
        &self.config
    }

    /// The registered device.
    pub fn device(&self) -> (r: &Device)
        ensures
            r@ == self@.device,
    {
        &self.device
    }

    /// The signed-in user; `None` when no user row exists yet.
    pub fn user(&self) -> (r: &Option<User>)
        ensures
            user_view(*r) == self@.user,
    {
        &self.user
    }

    /// The bootstrap phase.
    pub fn phase(&self) -> (r: Phase)
        ensures
            r == self@.phase,
    {
        self.phase
    }
}

} // verus!

verus! {

/// The session after `new` with these inputs, the directory confirmed, and `init`.
pub open spec fn bootstrapped(
    json: Option<Seq<char>>,
    path: Option<Seq<char>>,
    home: Option<Seq<char>>,
) -> SessionView {
    init_step(directory_step(new_outcome(json, path, home)->Ok_0, true).0).0
}

/// Opening a file that has no schema yet: it is created, then the user row is read.
pub open spec fn open_fresh(s: SessionView, answer: Answer) -> SessionView {
    let s1 = session_step(s, Event::Opened).0;
    let s2 = session_step(s1, Event::Probed(false)).0;
    let s3 = session_step(s2, Event::Created(true)).0;
    session_step(s3, Event::Read(answer)).0
}

/// Opening a file whose schema is in place: the user row is read at once.
pub open spec fn open_existing(s: SessionView, answer: Answer) -> SessionView {
    let s1 = session_step(s, Event::Opened).0;
    let s2 = session_step(s1, Event::Probed(true)).0;
    session_step(s2, Event::Read(answer)).0
}

/// A user row the session accepts: none at all, or one that holds a uuid column.
pub open spec fn readable(answer: Answer) -> bool {
    match answer {
        Answer::Row(cols) => cols@.len() > crate::database::user::UUID_COLUMN,
        Answer::NoRow => true,
        Answer::Failed => false,
    }
}

/// Bootstrapping twice from the same payload and location, against a store
/// that answers the user query the same way both times, ends both times in
/// `Ready` with the same device, the same user and the same database file,
/// whether the schema had to be created or was already there.
pub proof fn law_bootstrap_repeatable(
    json: Option<Seq<char>>,
    path: Option<Seq<char>>,
    home: Option<Seq<char>>,
    answer: Answer,
)
    requires
        new_outcome(json, path, home) is Ok,
        readable(answer),
    ensures
        open_fresh(bootstrapped(json, path, home), answer).phase == Phase::Ready,
        open_existing(bootstrapped(json, path, home), answer).phase == Phase::Ready,
        open_fresh(bootstrapped(json, path, home), answer).device == open_existing(
            bootstrapped(json, path, home),
            answer,
        ).device,
        open_fresh(bootstrapped(json, path, home), answer).user == open_existing(
            bootstrapped(json, path, home),
            answer,
        ).user,
        open_fresh(bootstrapped(json, path, home), answer).store.path == open_existing(
            bootstrapped(json, path, home),
            answer,
        ).store.path,
{
}

/// A freshly created store holds no user: reading it ends in `Ready` with no
/// user, never in a failure.
pub proof fn law_fresh_store_has_no_user(
    json: Option<Seq<char>>,
    path: Option<Seq<char>>,
    home: Option<Seq<char>>,
)
    requires
        new_outcome(json, path, home) is Ok,
    ensures
        open_fresh(bootstrapped(json, path, home), Answer::NoRow).phase == Phase::Ready,
        open_fresh(bootstrapped(json, path, home), Answer::NoRow).user is None,
        open_fresh(bootstrapped(json, path, home), Answer::NoRow).store.created,
{
}

/// The database file is `<dir>/<uuid>.db` for the resolved directory and the
/// parsed device, so reopening with the same payload and location reaches the
/// same file, with the same device, without creating the schema again.
pub proof fn law_same_database_file(
    json: Option<Seq<char>>,
    path: Option<Seq<char>>,
    home: Option<Seq<char>>,
    answer: Answer,
)
    requires
        new_outcome(json, path, home) is Ok,
    ensures
        bootstrapped(json, path, home).store.path == db_path(
            storage_dir(path, home)->Some_0,
            parse_outcome(json->Some_0)->Ok_0.uuid,
        ),
        open_existing(bootstrapped(json, path, home), answer).store.path == bootstrapped(
            json,
            path,
            home,
        ).store.path,
        open_existing(bootstrapped(json, path, home), answer).device == parse_outcome(
            json->Some_0,
        )->Ok_0,
        !open_existing(bootstrapped(json, path, home), answer).store.created,
{
}

/// When the probe finds the schema, the next step reads the user: the creation
/// script is not run again.
pub proof fn law_reopen_skips_creation(s: SessionView)
    requires
        s.phase == Phase::OpeningStore,
        s.store.stage == crate::database::Stage::Probing,
    ensures
        session_step(s, Event::Probed(true)).1 == Action::Read,
        session_step(s, Event::Probed(true)).0.store.created == s.store.created,
{
}

/// An absent or empty payload fails with `ConfigNotDefined` before the storage
/// location is looked at: the outcome is the same whatever path and home are
/// given, and no session exists whose directory could be created.
pub proof fn law_no_payload_no_storage(
    json: Option<Seq<char>>,
    path: Option<Seq<char>>,
    home: Option<Seq<char>>,
    other_path: Option<Seq<char>>,
    other_home: Option<Seq<char>>,
)
    requires
        json is None || json->Some_0.len() == 0,
    ensures
        new_outcome(json, path, home) == Err::<SessionView, Error>(Error::ConfigNotDefined),
        new_outcome(json, path, home) == new_outcome(json, other_path, other_home),
{
}

/// A payload that cannot be parsed into a device yields that parse error and no
/// session, so the storage directory is never confirmed or created for it.
pub proof fn law_bad_payload_no_session(
    json: Seq<char>,
    path: Option<Seq<char>>,
    home: Option<Seq<char>>,
)
    requires
        json.len() > 0,
        storage_dir(path, home) is Some,
        parse_outcome(json) is Err,
    ensures
        new_outcome(Some(json), path, home) == Err::<SessionView, Error>(parse_outcome(json)->Err_0),
{
}

} // verus!
