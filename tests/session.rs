use pocket::config::{device_from_members, exponent_fits_in, Config};
use pocket::database::user::USER_QUERY;
use pocket::database::{Action, Answer, Database, Event, Status, CREATION_SQL, PROBE_SQL};
use pocket::pods::device::{Device, Status as DeviceStatus};
use pocket::pods::user::{Status as UserStatus, User};
use pocket::session::{Phase, Session};
use pocket::traits::database_read::DatabaseRead;
use pocket::utils::{Error, Field};

const REGISTRATION: &str = r#"
    {
        "uuid": "de10b648-9e9c-4b63-96df-2aa662fe20ba",
        "user_uuid": "1281d20e-4e6f-43d8-9aa5-099039f36206",
        "host": "127.0.0.1",
        "host_pub_key": "fookey"
    }
    "#;

const NO_PUB_KEY: &str = r#"
    {
        "uuid": "de10b648-9e9c-4b63-96df-2aa662fe20ba",
        "user_uuid": "1281d20e-4e6f-43d8-9aa5-099039f36206",
        "host": "127.0.0.1"
    }
    "#;

fn started(path: Option<&str>) -> Session {
    let mut s = Session::new(
        Some(REGISTRATION.to_string()),
        path.map(|p| p.to_string()),
        Some("/home/tester".to_string()),
    )
    .unwrap();
    assert_eq!(s.directory_ready(true), Ok(()));
    s
}

fn row(cols: &[&str]) -> Answer {
    Answer::Row(cols.iter().map(|c| c.to_string()).collect())
}

#[test]
fn it_works() {
    let s = Session::new(Some(REGISTRATION.to_string()), None, Some("/tmp".to_string()));

    assert!(s.is_ok());

    if let Ok(mut session) = s {
        assert_eq!(session.directory_ready(true), Ok(()));
        assert_eq!(session.init(), Action::Open);
        assert_eq!(session.on_event(Event::Opened), Action::Probe);
        assert_eq!(session.on_event(Event::Probed(false)), Action::Create);
        assert_eq!(session.on_event(Event::Created(true)), Action::Read);
        assert_eq!(session.on_event(Event::Read(Answer::NoRow)), Action::Ready);
        if let Some(ref user) = session.user() {
            assert!(user.is_empty());
        }
        assert_eq!(session.phase(), Phase::Ready);
    }
}

#[test]
fn valid_bootstrap_without_path() {
    let mut s = Session::new(Some(REGISTRATION.to_string()), None, Some("/home/tester".to_string())).unwrap();
    assert_eq!(s.phase(), Phase::AwaitingDirectory);
    assert_eq!(s.device().uuid, "de10b648-9e9c-4b63-96df-2aa662fe20ba");
    assert_eq!(s.device().user_uuid, "1281d20e-4e6f-43d8-9aa5-099039f36206");
    assert_eq!(s.device().host, "127.0.0.1");
    assert_eq!(s.device().host_pub_key, "fookey");
    assert_eq!(s.device().status, DeviceStatus::Active);
    assert_eq!(s.config().get_config_path(), "/home/tester/.pocket");
    assert_eq!(s.directory_ready(true), Ok(()));
    assert_eq!(s.phase(), Phase::DeviceParsed);
    assert_eq!(s.init(), Action::Open);
    assert_eq!(
        s.database().path(),
        "/home/tester/.pocket/de10b648-9e9c-4b63-96df-2aa662fe20ba.db"
    );
    assert_eq!(s.on_event(Event::Opened), Action::Probe);
    assert_eq!(s.on_event(Event::Probed(false)), Action::Create);
    assert_eq!(s.on_event(Event::Created(true)), Action::Read);
    assert_eq!(s.on_event(Event::Read(Answer::NoRow)), Action::Ready);
    assert_eq!(s.phase(), Phase::Ready);
    assert!(s.user().is_none());
    assert!(s.database().schema_was_created());
    assert!(s.database().is_created());
}

#[test]
fn explicit_path_wins_over_home() {
    let mut s = started(Some("/var/data/"));
    assert_eq!(s.config().get_config_path(), "/var/data/.pocket");
    s.init();
    assert_eq!(
        s.database().path(),
        "/var/data/.pocket/de10b648-9e9c-4b63-96df-2aa662fe20ba.db"
    );
}

#[test]
fn missing_host_pub_key() {
    let r = Session::new(Some(NO_PUB_KEY.to_string()), None, Some("/home/tester".to_string()));
    assert_eq!(r.err(), Some(Error::MissingField(Field::HostPubKey)));
}

#[test]
fn missing_field_first_in_order() {
    let r = Session::new(Some("{\"host\": \"h\"}".to_string()), None, Some("/h".to_string()));
    assert_eq!(r.err(), Some(Error::MissingField(Field::Uuid)));
    let r = Session::new(Some("{\"uuid\": \"u\", \"host\": \"h\"}".to_string()), None, Some("/h".to_string()));
    assert_eq!(r.err(), Some(Error::MissingField(Field::UserUuid)));
    let r = Session::new(
        Some("{\"uuid\": \"u\", \"user_uuid\": \"v\", \"host_pub_key\": \"k\"}".to_string()),
        None,
        Some("/h".to_string()),
    );
    assert_eq!(r.err(), Some(Error::MissingField(Field::Host)));
}

#[test]
fn field_that_is_not_a_string_is_missing() {
    let r = Session::new(
        Some("{\"uuid\": 7, \"user_uuid\": \"v\", \"host\": \"h\", \"host_pub_key\": \"k\"}".to_string()),
        None,
        Some("/h".to_string()),
    );
    assert_eq!(r.err(), Some(Error::MissingField(Field::Uuid)));
}

fn payload_with(extra: &str) -> String {
    format!(
        "{{\"uuid\": \"u\", \"user_uuid\": \"v\", \"host\": \"h\", \"host_pub_key\": \"k\", \"n\": {}}}",
        extra
    )
}

#[test]
fn fraction_too_long_for_decoder_is_malformed() {
    let long = payload_with(&format!("0.{}", "0".repeat(32769)));
    let r = Session::new(Some(long), None, Some("/h".to_string()));
    assert_eq!(r.err(), Some(Error::MalformedPayload));
    let negative = payload_with(&format!("-0.{}1", "0".repeat(32768)));
    let r = Session::new(Some(negative), None, Some("/h".to_string()));
    assert_eq!(r.err(), Some(Error::MalformedPayload));
}

#[test]
fn long_digit_runs_the_decoder_reads_are_accepted() {
    let at_limit = payload_with(&format!("0.{}", "0".repeat(32768)));
    let s = Session::new(Some(at_limit), None, Some("/h".to_string())).unwrap();
    assert_eq!(s.device().uuid, "u");
    let big_mantissa = payload_with(&format!("1.{}", "0".repeat(40000)));
    assert!(Session::new(Some(big_mantissa), None, Some("/h".to_string())).is_ok());
    let digits = "7".repeat(40000);
    let in_string = format!(
        "{{\"uuid\": \"u\", \"user_uuid\": \"v\", \"host\": \"h\", \"host_pub_key\": \"{}\"}}",
        digits
    );
    let s = Session::new(Some(in_string), None, Some("/h".to_string())).unwrap();
    assert_eq!(s.device().host_pub_key, digits);
    let escaped = payload_with(&format!("\"a\\\"0.{}\"", "0".repeat(40000)));
    assert!(Session::new(Some(escaped), None, Some("/h".to_string())).is_ok());
}

#[test]
fn exponent_scan() {
    assert!(exponent_fits_in("{\"a\": 0.5}"));
    assert!(exponent_fits_in(&format!("0.{}", "0".repeat(32768))));
    assert!(!exponent_fits_in(&format!("0.{}", "0".repeat(32769))));
    assert!(!exponent_fits_in(&format!("[0.{}9]", "0".repeat(32768))));
    assert!(exponent_fits_in(&format!("10.{}", "0".repeat(40000))));
    assert!(exponent_fits_in(&format!("\"0.{}\"", "0".repeat(40000))));
}

#[test]
fn extra_keys_do_not_change_the_device() {
    let plain = Config::new(Some("/a".to_string()), None).unwrap().parse(&payload_with("1")).unwrap();
    let more = Config::new(Some("/a".to_string()), None)
        .unwrap()
        .parse(&payload_with("{\"x\": [1, 2], \"host\": 3}"))
        .unwrap();
    assert_eq!(plain.uuid, more.uuid);
    assert_eq!(plain.host, more.host);
    assert_eq!(more.host, "h");
}

#[test]
fn device_from_members_in_order() {
    let s = |v: &str| Some(v.to_string());
    let d = device_from_members(s("a"), s("b"), s("c"), s("d")).unwrap();
    assert_eq!((d.uuid.as_str(), d.user_uuid.as_str(), d.host.as_str(), d.host_pub_key.as_str()), ("a", "b", "c", "d"));
    assert_eq!(d.status, DeviceStatus::Active);
    assert_eq!(d.id, 0);
    assert_eq!(device_from_members(None, None, s("c"), s("d")).err(), Some(Error::MissingField(Field::Uuid)));
    assert_eq!(device_from_members(s("a"), None, None, s("d")).err(), Some(Error::MissingField(Field::UserUuid)));
    assert_eq!(device_from_members(s("a"), s("b"), None, None).err(), Some(Error::MissingField(Field::Host)));
    assert_eq!(device_from_members(s("a"), s("b"), s("c"), None).err(), Some(Error::MissingField(Field::HostPubKey)));
}

#[test]
fn malformed_payload() {
    let r = Session::new(Some("{not json".to_string()), None, Some("/h".to_string()));
    assert_eq!(r.err(), Some(Error::MalformedPayload));
}

#[test]
fn empty_or_absent_payload() {
    let r = Session::new(None, Some("/x".to_string()), Some("/h".to_string()));
    assert_eq!(r.err(), Some(Error::ConfigNotDefined));
    let r = Session::new(Some(String::new()), None, None);
    assert_eq!(r.err(), Some(Error::ConfigNotDefined));
}

#[test]
fn no_location_at_all() {
    let r = Session::new(Some(REGISTRATION.to_string()), None, None);
    assert_eq!(r.err(), Some(Error::DirectoryUnavailable));
}

#[test]
fn directory_creation_failed() {
    let mut s = Session::new(Some(REGISTRATION.to_string()), None, Some("/h".to_string())).unwrap();
    assert_eq!(s.directory_ready(false), Err(Error::DirectoryUnavailable));
    assert_eq!(s.phase(), Phase::Failed);
    assert_eq!(s.init(), Action::Fail(Error::NotBootstrapped));
}

#[test]
fn init_before_directory_is_refused() {
    let mut s = Session::new(Some(REGISTRATION.to_string()), None, Some("/h".to_string())).unwrap();
    assert_eq!(s.init(), Action::Fail(Error::NotBootstrapped));
    assert_eq!(s.phase(), Phase::AwaitingDirectory);
}

#[test]
fn reopen_skips_creation() {
    let mut first = started(None);
    first.init();
    first.on_event(Event::Opened);
    assert_eq!(first.on_event(Event::Probed(false)), Action::Create);
    first.on_event(Event::Created(true));
    first.on_event(Event::Read(Answer::NoRow));

    let mut second = started(None);
    assert_eq!(second.init(), Action::Open);
    assert_eq!(second.on_event(Event::Opened), Action::Probe);
    assert_eq!(second.on_event(Event::Probed(true)), Action::Read);
    assert_eq!(second.on_event(Event::Read(Answer::NoRow)), Action::Ready);
    assert!(!second.database().schema_was_created());
    assert!(second.database().is_created());

    assert_eq!(first.phase(), Phase::Ready);
    assert_eq!(second.phase(), Phase::Ready);
    assert_eq!(first.database().path(), second.database().path());
    assert_eq!(first.device().uuid, second.device().uuid);
    assert!(first.user().is_none() && second.user().is_none());
}

#[test]
fn signed_in_user_is_read() {
    let mut s = started(None);
    s.init();
    s.on_event(Event::Opened);
    s.on_event(Event::Probed(true));
    assert_eq!(s.on_event(Event::Read(row(&["1", "user-abc", "0"]))), Action::Ready);
    let user = s.user().as_ref().unwrap();
    assert_eq!(user.uuid, "user-abc");
    assert_eq!(user.status, UserStatus::Active);
    assert!(!user.is_empty());
}

#[test]
fn failed_user_read() {
    let mut s = started(None);
    s.init();
    s.on_event(Event::Opened);
    s.on_event(Event::Probed(true));
    assert_eq!(s.on_event(Event::Read(Answer::Failed)), Action::Fail(Error::QueryFailed));
    assert_eq!(s.phase(), Phase::Failed);
    assert!(s.user().is_none());
}

#[test]
fn open_and_schema_failures() {
    let mut s = started(None);
    s.init();
    assert_eq!(s.on_event(Event::OpenFailed), Action::Fail(Error::StoreOpenFailed));
    assert_eq!(s.phase(), Phase::Failed);

    let mut s = started(None);
    s.init();
    s.on_event(Event::Opened);
    s.on_event(Event::Probed(false));
    assert_eq!(s.on_event(Event::Created(false)), Action::Fail(Error::SchemaCreateFailed));
    assert_eq!(s.phase(), Phase::Failed);
}

#[test]
fn unexpected_event_is_idle() {
    let mut s = started(None);
    s.init();
    assert_eq!(s.on_event(Event::Probed(true)), Action::Idle);
    assert_eq!(s.phase(), Phase::OpeningStore);
    assert_eq!(s.database().path(), "/home/tester/.pocket/de10b648-9e9c-4b63-96df-2aa662fe20ba.db");
}

#[test]
fn register_device_changes_nothing() {
    let mut s = started(None);
    let e = "a@b.c".to_string();
    assert_eq!(s.register_device(&e, &e, &e), Ok(()));
    assert_eq!(s.phase(), Phase::DeviceParsed);
}

#[test]
fn store_state_machine() {
    let mut db = Database::new();
    assert!(!db.is_open());
    assert_eq!(db.path(), "");
    assert_eq!(db.init("/d/x.db".to_string()), Action::Open);
    assert_eq!(db.on_event(&Event::Created(true)), Action::Idle);
    assert_eq!(db.on_event(&Event::Opened), Action::Probe);
    assert_eq!(db.on_event(&Event::Probed(false)), Action::Create);
    assert!(!db.is_open());
    assert_eq!(db.on_event(&Event::Created(true)), Action::Done);
    assert!(db.is_open());
    assert!(db.is_created());
    assert!(db.schema_was_created());
}

#[test]
fn user_read_outcomes() {
    let mut db = Database::new();
    let mut u = User::new();
    assert_eq!(u.read(&db, &(), row(&["1", "x"])), Status::Error);
    db.init("/d/x.db".to_string());
    db.on_event(&Event::Opened);
    db.on_event(&Event::Probed(true));
    assert_eq!(u.read(&db, &(), Answer::NoRow), Status::Empty);
    assert!(u.is_empty());
    assert_eq!(u.read(&db, &(), row(&["1"])), Status::Error);
    assert_eq!(u.read(&db, &(), Answer::Failed), Status::Error);
    assert_eq!(u.read(&db, &(), row(&["1", "abc", "0"])), Status::Found);
    assert_eq!(u.uuid, "abc");
    assert_eq!(<User as DatabaseRead<()>>::query(&()), USER_QUERY);
}

#[test]
fn pods_start_blank() {
    let d = Device::new();
    assert_eq!(d.uuid, "");
    assert_eq!(d.timestamp_creation, 0);
    assert_eq!(d.status, DeviceStatus::Active);
    let u = User::new();
    assert!(u.is_empty());
    let v = User { id: 3, uuid: String::new(), status: UserStatus::Deleted };
    assert!(!v.is_empty());
}

#[test]
fn config_parse_direct() {
    let c = Config::new(Some("/a".to_string()), None).unwrap();
    let d = c.parse(&REGISTRATION.to_string()).unwrap();
    assert_eq!(d.host_pub_key, "fookey");
    assert_eq!(c.parse(&"[1, 2]".to_string()).err(), Some(Error::MissingField(Field::Uuid)));
    assert_eq!(Config::new(None, None).err(), Some(Error::DirectoryUnavailable));
}

#[test]
fn path_joining() {
    assert_eq!(pocket::config::join_path("/a", "b"), "/a/b");
    assert_eq!(pocket::config::join_path("/a/", "b"), "/a/b");
    assert_eq!(pocket::config::join_path("", "b"), "/b");
}

#[test]
fn error_texts() {
    assert_eq!(Error::MissingField(Field::HostPubKey).message(), "Json host_pub_key not found");
    assert_eq!(Error::MissingField(Field::UserUuid).summary(), "Json field not found");
    assert_eq!(Error::MissingField(Field::UserUuid).description(), "Error");
    assert_eq!(Error::StoreOpenFailed.description(), "Error");
    assert_eq!(Error::ConfigNotDefined.message(), "Config json not defined");
    assert_eq!(Error::QueryFailed.summary(), "User read error");
    assert_eq!(Field::Host.name(), "host");
}

#[test]
fn schema_texts() {
    assert!(CREATION_SQL.contains("CREATE TABLE `user`"));
    assert!(CREATION_SQL.contains("CREATE TABLE groups"));
    assert!(CREATION_SQL.contains("CREATE INDEX fields_group_field_id"));
    assert_eq!(PROBE_SQL, "SELECT * FROM user");
}
