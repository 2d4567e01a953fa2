use vstd::prelude::*;

verus! {

/// Lifecycle of a registered device.
#[derive(Clone, Copy, Debug, PartialEq, Eq, Structural)]
pub enum Status {
    Active,
    Unactive,
    Deleted,
    Invalidated,
}

/// A registered device: its identity, its owner and the host it talks to.
#[derive(Clone, Debug)]
pub struct Device {
    pub id: u64,
    pub uuid: String,
    pub user_uuid: String,
    pub host: String,
    pub host_pub_key: String,
    pub timestamp_last_update: u64,
    pub timestamp_creation: u64,
    pub status: Status,
}

pub struct DeviceView {
    pub id: u64,
    pub uuid: Seq<char>,
    pub user_uuid: Seq<char>,
    pub host: Seq<char>,
    pub host_pub_key: Seq<char>,
    pub timestamp_last_update: u64,
    pub timestamp_creation: u64,
    pub status: Status,
}

impl View for Device {
    type V = DeviceView;

    open spec fn view(&self) -> DeviceView {
        DeviceView {
            id: self.id,
            uuid: self.uuid@,
            user_uuid: self.user_uuid@,
            host: self.host@,
            host_pub_key: self.host_pub_key@,
            timestamp_last_update: self.timestamp_last_update,
            timestamp_creation: self.timestamp_creation,
            status: self.status,
        }
    }
}

/// A fresh device: active, zero id and timestamps, with the four given strings.
pub open spec fn fresh_device(
    uuid: Seq<char>,
    user_uuid: Seq<char>,
    host: Seq<char>,
    host_pub_key: Seq<char>,
) -> DeviceView {
    DeviceView {
        id: 0,
        uuid,
        user_uuid,
        host,
        host_pub_key,
        timestamp_last_update: 0,
        timestamp_creation: 0,
        status: Status::Active,
    }
}

impl Device {
    /// A blank active device with empty strings and zero timestamps.
    pub fn new() -> (r: Device)
        ensures
            r@ == fresh_device(Seq::empty(), Seq::empty(), Seq::empty(), Seq::empty()),
    {
        Device {
            id: 0,
            uuid: String::new(),
            user_uuid: String::new(),
            host: String::new(),
            host_pub_key: String::new(),
            timestamp_last_update: 0,
            timestamp_creation: 0,
            status: Status::Active,
        }
    }
}

} // verus!
