use vstd::prelude::*;

verus! {

/// A field that a registration payload must carry as a string.
#[derive(Clone, Copy, Debug, PartialEq, Eq, Structural)]
pub enum Field {
    Uuid,
    UserUuid,
    Host,
    HostPubKey,
}

pub open spec fn field_name(f: Field) -> Seq<char> {
    match f {
        Field::Uuid => "uuid"@,
        Field::UserUuid => "user_uuid"@,
        Field::Host => "host"@,
        Field::HostPubKey => "host_pub_key"@,
    }
}

impl Field {
    /// The key under which the payload holds this field.
    pub fn name(&self) -> (r: &'static str)
        ensures
            r@ == field_name(*self),
    {
        match self {
            Field::Uuid => "uuid",
            Field::UserUuid => "user_uuid",
            Field::Host => "host",
            Field::HostPubKey => "host_pub_key",
        }
    }
}

/// Every way in which bootstrapping a session or reading the local store can fail.
#[derive(Clone, Copy, Debug, PartialEq, Eq, Structural)]
pub enum Error {
    /// No registration payload, or an empty one.
    ConfigNotDefined,
    /// The payload decodes but lacks this field as a string.
    MissingField(Field),
    /// The payload is not valid JSON.
    MalformedPayload,
    /// The storage directory cannot be determined or created.
    DirectoryUnavailable,
    /// The storage engine cannot open or create the database file.
    StoreOpenFailed,
    /// The schema script failed; the file is in an unknown state.
    SchemaCreateFailed,
    /// A read statement failed.
    QueryFailed,
    /// `init` was called on a session that is not waiting for it.
    NotBootstrapped,
}

pub type Result<T> = std::result::Result<T, Error>;

pub open spec fn summary_of(e: Error) -> Seq<char> {
    match e {
        Error::ConfigNotDefined => "Config json not defined"@,
        Error::MissingField(_) => "Json field not found"@,
        Error::MalformedPayload => "Json parsing error"@,
        Error::DirectoryUnavailable => "Impossible create folder"@,
        Error::StoreOpenFailed => "Database open error"@,
        Error::SchemaCreateFailed => "Database creation error"@,
        Error::QueryFailed => "User read error"@,
        Error::NotBootstrapped => "Session not bootstrapped"@,
    }
}

pub open spec fn message_of(e: Error) -> Seq<char> {
    match e {
        Error::MissingField(f) => "Json "@ + field_name(f) + " not found"@,
        _ => summary_of(e),
    }
}

impl Error {
    /// The same text for every error, whatever its kind.
    pub fn description(&self) -> (r: &'static str)
        ensures
            r@ == "Error"@,
    {
        "Error"
    }

    /// A fixed text for the kind of error.
    pub fn summary(&self) -> (r: &'static str)
        ensures
            r@ == summary_of(*self),
    {
        match self {
            Error::ConfigNotDefined => "Config json not defined",
            Error::MissingField(_) => "Json field not found",
            Error::MalformedPayload => "Json parsing error",
            Error::DirectoryUnavailable => "Impossible create folder",
            Error::StoreOpenFailed => "Database open error",
            Error::SchemaCreateFailed => "Database creation error",
            Error::QueryFailed => "User read error",
            Error::NotBootstrapped => "Session not bootstrapped",
        }
    }

    /// A readable message; for a missing field it names the field.
    pub fn message(&self) -> (r: String)
        ensures
            r@ == message_of(*self),
    {
        match self {
            Error::MissingField(f) => {
                let mut s = String::from_str("Json ");
                s.append(f.name());
                s.append(" not found");
                s
            },
            _ => String::from_str(self.summary()),
        }
    }
}

} // verus!
