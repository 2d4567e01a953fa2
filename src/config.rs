use crate::pods::device::{fresh_device, Device, DeviceView, Status};
use crate::utils::{field_name, Error, Field, Result};
use vstd::prelude::*;
use vstd::string::StringSliceAdditionalSpecFns;
use vstd::utf8::encode_utf8;

verus! {

/// Name of the vault directory under the storage base.
pub const DATA_FOLDER: &'static str = ".pocket";

/// Separator between path components.
pub const SEPARATOR: char = '/';

/// How far the JSON decoder can lower a number's exponent: it keeps it in an
/// `i16` that starts at 0.
pub const MAX_FRACTION_DIGITS: usize = 32768;

/// Below this mantissa the decoder takes in a fraction digit unchecked.
pub const DECODER_MAX_PRECISION: u64 = 576460752303423500;

pub open spec fn is_digit_byte(b: u8) -> bool {
    0x30 <= b && b <= 0x39
}

/// Where a scan of JSON text stands after some bytes.
pub struct Scan {
    pub in_string: bool,
    /// The previous byte was a backslash inside a string.
    pub escaped: bool,
    /// In a number whose integer part is a lone `0`, before its `.`.
    pub zero_start: bool,
    /// In the fraction of such a number.
    pub fraction: bool,
    /// The mantissa the decoder has built from that fraction.
    pub mantissa: nat,
    /// How many of that fraction's digits lowered the exponent.
    pub lowered: nat,
}

pub open spec fn scan_start() -> Scan {
    Scan { in_string: false, escaped: false, zero_start: false, fraction: false, mantissa: 0, lowered: 0 }
}

/// The decoder takes in a fraction digit, and lowers the exponent for it, while
/// the mantissa is below its precision cap or the digit still fits in a `u64`.
pub open spec fn takes_digit(mantissa: nat, d: nat) -> bool {
    mantissa < DECODER_MAX_PRECISION || mantissa * 10 + d <= u64::MAX
}

/// The scan after byte `b`, which follows byte `prev` (0 at the start).
pub open spec fn scan_step(st: Scan, prev: u8, b: u8) -> Scan {
    if st.in_string {
        if st.escaped {
            Scan { escaped: false, ..st }
        } else if b == 0x5c {
            Scan { escaped: true, ..st }
        } else if b == 0x22 {
            Scan { in_string: false, ..st }
        } else {
            st
        }
    } else if st.fraction && is_digit_byte(b) {
        let d = (b - 0x30) as nat;
        if takes_digit(st.mantissa, d) {
            Scan { mantissa: st.mantissa * 10 + d, lowered: st.lowered + 1, ..st }
        } else {
            st
        }
    } else if st.zero_start && b == 0x2e {
        Scan { zero_start: false, fraction: true, mantissa: 0, lowered: 0, ..st }
    } else if b == 0x22 {
        Scan { in_string: true, escaped: false, zero_start: false, fraction: false, mantissa: 0, lowered: 0 }
    } else if b == 0x30 && !is_digit_byte(prev) && prev != 0x2e {
        Scan { zero_start: true, fraction: false, mantissa: 0, lowered: 0, ..st }
    } else {
        Scan { zero_start: false, fraction: false, mantissa: 0, lowered: 0, ..st }
    }
}

/// The scan after the first `i` bytes of `s`.
pub open spec fn scan(s: Seq<u8>, i: int) -> Scan
    decreases i,
{
    if i <= 0 || i > s.len() {
        scan_start()
    } else {
        scan_step(scan(s, i - 1), if i >= 2 { s[i - 2] } else { 0 }, s[i - 1])
    }
}

/// No number of the form `0.ddd...` outside strings makes the decoder lower its
/// exponent more than `MAX_FRACTION_DIGITS` times. Strings, other numbers and
/// text the decoder rejects earlier are never the cause.
pub open spec fn exponent_fits(s: Seq<u8>) -> bool {
    forall|i: int| 0 <= i <= s.len() ==> #[trigger] scan(s, i).lowered <= MAX_FRACTION_DIGITS
}

/// Whether the JSON decoder can read `text` without its exponent overflowing.
pub fn exponent_fits_in(text: &str) -> (r: bool)
    ensures
        r == exponent_fits(text.spec_bytes()),
{
    let bytes = text.as_bytes();
    let mut in_string = false;
    let mut escaped = false;
    let mut zero_start = false;
    let mut fraction = false;
    let mut mantissa: u64 = 0;
    let mut lowered: usize = 0;
    let mut prev: u8 = 0;
    let mut i: usize = 0;
    while i < bytes.len()
        invariant
            bytes@ == text.spec_bytes(),
            i <= bytes@.len(),
            prev == (if i >= 1 { bytes@[i - 1] } else { 0u8 }),
            scan(bytes@, i as int) == (Scan {
                in_string,
                escaped,
                zero_start,
                fraction,
                mantissa: mantissa as nat,
                lowered: lowered as nat,
            }),
            forall|j: int| 0 <= j <= i ==> #[trigger] scan(bytes@, j).lowered <= MAX_FRACTION_DIGITS,
        decreases bytes@.len() - i,
    {
        let b = bytes[i];
        if in_string {
            if escaped {
                escaped = false;
            } else if b == 0x5c {
                escaped = true;
            } else if b == 0x22 {
                in_string = false;
            }
        } else if fraction && 0x30 <= b && b <= 0x39 {
            let d = (b - 0x30) as u64;
            if mantissa < DECODER_MAX_PRECISION || mantissa <= (u64::MAX - d) / 10 {
                if lowered == MAX_FRACTION_DIGITS {
                    assert(scan(bytes@, i + 1).lowered > MAX_FRACTION_DIGITS);
                    return false;
                }
                assert(mantissa * 10 + d <= u64::MAX) by (nonlinear_arith)
                    requires
                        mantissa < DECODER_MAX_PRECISION || mantissa <= (u64::MAX - d) / 10,
                        d <= 9,
                ;
                mantissa = mantissa * 10 + d;
                lowered = lowered + 1;
            } else {
                assert(!takes_digit(mantissa as nat, d as nat)) by (nonlinear_arith)
                    requires
                        mantissa > (u64::MAX - d) / 10,
                        d <= 9,
                ;
            }
        } else if zero_start && b == 0x2e {
            zero_start = false;
            fraction = true;
            mantissa = 0;
            lowered = 0;
        } else if b == 0x22 {
            in_string = true;
            escaped = false;
            zero_start = false;
            fraction = false;
            mantissa = 0;
            lowered = 0;
        } else {
            zero_start = b == 0x30 && !(0x30 <= prev && prev <= 0x39) && prev != 0x2e;
            fraction = false;
            mantissa = 0;
            lowered = 0;
        }
        prev = b;
        i = i + 1;
    }
    true
}

/// Whether `text` decodes as JSON.
pub uninterp spec fn json_decodes(text: Seq<char>) -> bool;

/// The string stored under `key` in the JSON object `text`, if there is one.
pub uninterp spec fn json_str_member(text: Seq<char>, key: Seq<char>) -> Option<Seq<char>>;

/// Relies on `json::parse` to decode `text`, then on indexing the decoded value
/// by `key` and `JsonValue::as_str` to read that member as a string. `None` when
/// the text does not decode; `Some(None)` when the member is absent or no string.
#[verifier::external_body]
fn json_member(text: &str, key: &str) -> (r: Option<Option<String>>)
    requires
        exponent_fits(text.spec_bytes()),
    ensures
        r.is_some() == json_decodes(text@),
        r matches Some(m) ==> (m.is_some() == json_str_member(text@, key@).is_some()),
        r matches Some(Some(v)) ==> json_str_member(text@, key@) == Some(v@),
{
    match json::parse(text) {
        Ok(value) => Some(value[key].as_str().map(|s| s.to_string())),
        Err(_) => None,
    }
}

pub open spec fn member(text: Seq<char>, f: Field) -> Option<Seq<char>> {
    json_str_member(text, field_name(f))
}

/// The first required field, in the order uuid, user_uuid, host, host_pub_key,
/// that is not held as a string.
pub open spec fn first_absent(
    uuid: Option<Seq<char>>,
    user_uuid: Option<Seq<char>>,
    host: Option<Seq<char>>,
    host_pub_key: Option<Seq<char>>,
) -> Option<Field> {
    if uuid is None {
        Some(Field::Uuid)
    } else if user_uuid is None {
        Some(Field::UserUuid)
    } else if host is None {
        Some(Field::Host)
    } else if host_pub_key is None {
        Some(Field::HostPubKey)
    } else {
        None
    }
}

/// The device made from the four members of a decoded payload.
pub open spec fn members_outcome(
    uuid: Option<Seq<char>>,
    user_uuid: Option<Seq<char>>,
    host: Option<Seq<char>>,
    host_pub_key: Option<Seq<char>>,
) -> std::result::Result<DeviceView, Error> {
    if let Some(f) = first_absent(uuid, user_uuid, host, host_pub_key) {
        Err(Error::MissingField(f))
    } else {
        Ok(fresh_device(uuid->Some_0, user_uuid->Some_0, host->Some_0, host_pub_key->Some_0))
    }
}

/// The first required field that the payload does not hold as a string.
pub open spec fn first_missing(text: Seq<char>) -> Option<Field> {
    first_absent(
        member(text, Field::Uuid),
        member(text, Field::UserUuid),
        member(text, Field::Host),
        member(text, Field::HostPubKey),
    )
}

/// What a registration payload resolves to. A payload holding a number whose
/// fraction the decoder cannot take in is refused as malformed.
pub open spec fn parse_outcome(text: Seq<char>) -> std::result::Result<DeviceView, Error> {
    if !exponent_fits(encode_utf8(text)) || !json_decodes(text) {
        Err(Error::MalformedPayload)
    } else {
        members_outcome(
            member(text, Field::Uuid),
            member(text, Field::UserUuid),
            member(text, Field::Host),
            member(text, Field::HostPubKey),
        )
    }
}

/// Builds an active device with zero timestamps from the four members of a
/// decoded payload, taken as they are; the first one absent is reported.
pub fn device_from_members(
    uuid: Option<String>,
    user_uuid: Option<String>,
    host: Option<String>,
    host_pub_key: Option<String>,
) -> (r: Result<Device>)
    ensures
        match members_outcome(opt_view(uuid), opt_view(user_uuid), opt_view(host), opt_view(host_pub_key)) {
            Ok(d) => r matches Ok(dev) && dev@ == d,
            Err(e) => r matches Err(x) && x == e,
        },
{
    let uuid = match uuid {
        None => return Err(Error::MissingField(Field::Uuid)),
        Some(v) => v,
    };
    let user_uuid = match user_uuid {
        None => return Err(Error::MissingField(Field::UserUuid)),
        Some(v) => v,
    };
    let host = match host {
        None => return Err(Error::MissingField(Field::Host)),
        Some(v) => v,
    };
    let host_pub_key = match host_pub_key {
        None => return Err(Error::MissingField(Field::HostPubKey)),
        Some(v) => v,
    };
    let mut device = Device::new();
    device.uuid = uuid;
    device.user_uuid = user_uuid;
    device.host = host;
    device.host_pub_key = host_pub_key;
    Ok(device)
}

pub open spec fn ends_with_separator(p: Seq<char>) -> bool {
    p.len() > 0 && p.last() == SEPARATOR
}

/// `name` placed inside directory `dir`.
pub open spec fn join(dir: Seq<char>, name: Seq<char>) -> Seq<char> {
    if ends_with_separator(dir) {
        dir + name
    } else {
        dir.push(SEPARATOR) + name
    }
}

/// The vault directory: the explicit path if given, else the home directory,
/// with the vault folder appended.
pub open spec fn storage_dir(explicit: Option<Seq<char>>, home: Option<Seq<char>>) -> Option<
    Seq<char>,
> {
    match explicit {
        Some(p) => Some(join(p, DATA_FOLDER@)),
        None => match home {
            Some(h) => Some(join(h, DATA_FOLDER@)),
            None => None,
        },
    }
}

pub open spec fn opt_view(o: Option<String>) -> Option<Seq<char>> {
    match o {
        Some(s) => Some(s@),
        None => None,
    }
}

/// Appends `name` to `dir` as a path component.
pub fn join_path(dir: &str, name: &str) -> (r: String)
    ensures
        r@ == join(dir@, name@),
{
    let mut out = String::from_str(dir);
    let n = dir.unicode_len();
    if n == 0 || dir.get_char(n - 1) != SEPARATOR {
        out.append("/");
        proof {
            reveal_strlit("/");
        }
    }
    out.append(name);
    out
}

/// Where the vault keeps its files.
#[derive(Debug)]
pub struct Config {
    config_path: String,
}

impl View for Config {
    type V = Seq<char>;

    closed spec fn view(&self) -> Seq<char> {
        self.config_path@
    }
}

impl Config {
    /// Resolves the vault directory from an explicit path or, without one, from
    /// the home directory. Creating the directory is left to the caller.
    pub fn new(config_path: Option<String>, home: Option<String>) -> (r: Result<Config>)
        ensures
            match storage_dir(opt_view(config_path), opt_view(home)) {
                Some(d) => r matches Ok(c) && c@ == d,
                None => r == Err::<Config, Error>(Error::DirectoryUnavailable),
            },
    {
        let base = match config_path {
            Some(p) => p,
            None => match home {
                Some(h) => h,
                None => return Err(Error::DirectoryUnavailable),
            },
        };
        Ok(Config { config_path: join_path(base.as_str(), DATA_FOLDER) })
    }

    /// The vault directory.
    pub fn get_config_path(&self) -> (r: &String)
        ensures
            r@ == self@,
    {
        &self.config_path
    }

    /// Reads a device out of a registration payload. The four fields are taken
    /// as they are, checked in order; the first one absent is reported.
    pub fn parse(&self, config_json: &String) -> (r: Result<Device>)
        ensures
            match parse_outcome(config_json@) {
                Ok(d) => r matches Ok(dev) && dev@ == d,
                Err(e) => r matches Err(x) && x == e,
            },
    {
        let text = config_json.as_str();
        if !exponent_fits_in(text) {
            return Err(Error::MalformedPayload);
        }
        let uuid = match json_member(text, Field::Uuid.name()) {
            None => return Err(Error::MalformedPayload),
            Some(m) => m,
        };
        let user_uuid = match json_member(text, Field::UserUuid.name()) {
            None => return Err(Error::MalformedPayload),
            Some(m) => m,
        };
        let host = match json_member(text, Field::Host.name()) {
            None => return Err(Error::MalformedPayload),
            Some(m) => m,
        };
        let host_pub_key = match json_member(text, Field::HostPubKey.name()) {
            None => return Err(Error::MalformedPayload),
            Some(m) => m,
        };
        device_from_members(uuid, user_uuid, host, host_pub_key)
    }
}

} // verus!

verus! {

/// A payload that decodes and holds the four fields as strings yields an active
/// device with zero timestamps whose four fields are exactly those strings.
pub proof fn law_parse_keeps_fields(text: Seq<char>)
    requires
        exponent_fits(encode_utf8(text)),
        json_decodes(text),
        member(text, Field::Uuid) is Some,
        member(text, Field::UserUuid) is Some,
        member(text, Field::Host) is Some,
        member(text, Field::HostPubKey) is Some,
    ensures
        parse_outcome(text) matches Ok(d) && d.uuid == member(text, Field::Uuid)->Some_0
            && d.user_uuid == member(text, Field::UserUuid)->Some_0 && d.host == member(
            text,
            Field::Host,
        )->Some_0 && d.host_pub_key == member(text, Field::HostPubKey)->Some_0 && d.status
            == Status::Active && d.timestamp_creation == 0 && d.timestamp_last_update == 0,
{
}

/// A payload that decodes, lacks field `f` and holds every other required field
/// fails with `MissingField(f)`.
pub proof fn law_missing_field_named(text: Seq<char>, f: Field)
    requires
        exponent_fits(encode_utf8(text)),
        json_decodes(text),
        member(text, f) is None,
        forall|g: Field| g != f ==> #[trigger] member(text, g) is Some,
    ensures
        parse_outcome(text) == Err::<DeviceView, Error>(Error::MissingField(f)),
{
    assert(f != Field::Uuid ==> member(text, Field::Uuid) is Some);
    assert(f != Field::UserUuid ==> member(text, Field::UserUuid) is Some);
    assert(f != Field::Host ==> member(text, Field::Host) is Some);
    assert(f != Field::HostPubKey ==> member(text, Field::HostPubKey) is Some);
}

/// Two payloads that both decode, and hold the same four required members, parse
/// to the same device or the same error, whatever else they hold.
pub proof fn law_parse_depends_on_members(t1: Seq<char>, t2: Seq<char>)
    requires
        exponent_fits(encode_utf8(t1)),
        exponent_fits(encode_utf8(t2)),
        json_decodes(t1),
        json_decodes(t2),
        forall|f: Field| #[trigger] member(t1, f) == member(t2, f),
    ensures
        parse_outcome(t1) == parse_outcome(t2),
{
    assert(member(t1, Field::Uuid) == member(t2, Field::Uuid));
    assert(member(t1, Field::UserUuid) == member(t2, Field::UserUuid));
    assert(member(t1, Field::Host) == member(t2, Field::Host));
    assert(member(t1, Field::HostPubKey) == member(t2, Field::HostPubKey));
}

} // verus!
