//! Client and server identities.
use vstd::prelude::*;

use super::BITServerID;
use crate::strings::string_push;

verus! {

/// Kind of a server: reachable from the internet, or only from an intranet.
pub type ServerType = u16;

pub const SERVER_INTERNET: ServerType = 0x0001;

pub const SERVER_INTRANET: ServerType = 0x0002;

/// A server of the network, as configured.
#[derive(Debug, Clone)]
pub struct BitServer {
    pub server_id: u32,
    pub server_type: u16,
    pub server_name: String,
    pub server_address: String,
    pub server_port: String,
}

/// A client: the server it belongs to (`planet`) and its number there (`object`).
#[derive(Debug, Clone, Copy, PartialEq, Eq, Structural)]
pub struct ClientID {
    pub planet: BITServerID,
    pub object: u32,
}

/// The lower-case hexadecimal digit for `d < 16`.
pub open spec fn hex_digit(d: nat) -> char {
    if d < 10 {
        ((d + 48) as u8) as char
    } else {
        ((d + 87) as u8) as char
    }
}

/// The lower-case hexadecimal numeral of `n`, without leading zeros ("0" for zero).
pub open spec fn spec_lower_hex(n: nat) -> Seq<char>
    decreases n,
{
    if n < 16 {
        seq![hex_digit(n)]
    } else {
        spec_lower_hex(n / 16).push(hex_digit(n % 16))
    }
}

/// Appends the numeral of `n` in lower-case hexadecimal to `s`.
fn push_lower_hex(s: &mut String, n: u64)
    ensures
        final(s)@ == old(s)@ + spec_lower_hex(n as nat),
    decreases n,
{
    if n >= 16 {
        push_lower_hex(s, n / 16);
    }
    let d = (n % 16) as u8;
    let c = if d < 10 {
        (d + 48) as char
    } else {
        (d + 87) as char
    };
    string_push(s, c);
    assert(c == hex_digit((n % 16) as nat));
    if n >= 16 {
        assert(final(s)@ =~= old(s)@ + spec_lower_hex(n as nat));
    } else {
        assert(final(s)@ =~= old(s)@ + spec_lower_hex(n as nat));
    }
}

impl ClientID {
    /// The 64-bit identity: `planet` in the high half, `object` in the low half.
    pub open spec fn spec_guid(self) -> u64 {
        (self.planet as int * 4294967296 + self.object as int) as u64
    }

    pub fn new(planet: u32, object: u32) -> (r: Self)
        ensures
            r.planet == planet,
            r.object == object,
    {
        Self { planet, object }
    }

    pub fn get_guid(&self) -> (r: u64)
        ensures
            r == self.spec_guid(),
            r as int == self.planet as int * 4294967296 + self.object as int,
    {
        (self.planet as u64) * 4294967296 + (self.object as u64)
    }

    /// The identity in lower-case hexadecimal.
    pub fn get_hex(&self) -> (r: String)
        ensures
            r@ == spec_lower_hex(self.spec_guid() as nat),
    {
        let mut s = String::new();
        push_lower_hex(&mut s, self.get_guid());
        assert(s@ =~= spec_lower_hex(self.spec_guid() as nat));
        s
    }
}

impl From<ClientID> for u64 {
    fn from(c: ClientID) -> (r: u64) {
        c.get_guid()
    }
}

impl vstd::std_specs::convert::FromSpecImpl<ClientID> for u64 {
    open spec fn obeys_from_spec() -> bool {
        true
    }

    open spec fn from_spec(c: ClientID) -> u64 {
        c.spec_guid()
    }
}

/// Kind of a client.
pub type ClientType = u32;

pub const CLIENT_PEOPLE: ClientType = 0x0001;

pub const CLIENT_GROUP: ClientType = 0x0002;

pub const CLIENT_DEVICE: ClientType = 0x0003;

pub const CLIENT_ROBOT: ClientType = 0x0004;

pub const CLIENT_SERVICE: ClientType = 0x0010;

/// Planet (server zone) of a client.
pub type ClientPlanet = u32;

pub const PLANET_EARTH: ClientPlanet = 0x00000000;

pub const PLANET_MAR: ClientPlanet = 0x00000010;

/// Connection state of a device.
pub type DeviceConnState = u32;

pub const STATE_ONLINE: DeviceConnState = 0x00010001;

pub const STATE_ONBACK: DeviceConnState = 0x00010002;

pub const STATE_OFFLINE: DeviceConnState = 0x00010004;

/// A device of a client and its connection state.
#[derive(Debug, Clone, Copy, PartialEq, Eq, Structural)]
pub struct DeviceConnInfo {
    pub device_id: u32,
    pub device_state: DeviceConnState,
}

impl DeviceConnInfo {
    pub fn new(device_id: u32, device_state: DeviceConnState) -> (r: Self)
        ensures
            r.device_id == device_id,
            r.device_state == device_state,
    {
        Self { device_id, device_state }
    }
}


/// Field accessors.
impl ClientID {
    pub fn planet(&self) -> (r: BITServerID)
        ensures
            r == self.planet,
    {
        self.planet
    }

    pub fn set_planet(&mut self, val: BITServerID)
        ensures
            *final(self) == (ClientID { planet: val, ..*old(self) }),
    {
        self.planet = val;
    }

    pub fn object(&self) -> (r: u32)
        ensures
            r == self.object,
    {
        self.object
    }

    pub fn set_object(&mut self, val: u32)
        ensures
            *final(self) == (ClientID { object: val, ..*old(self) }),
    {
        self.object = val;
    }

}


/// Field accessors.
impl DeviceConnInfo {
    pub fn device_id(&self) -> (r: u32)
        ensures
            r == self.device_id,
    {
        self.device_id
    }

    pub fn set_device_id(&mut self, val: u32)
        ensures
            *final(self) == (DeviceConnInfo { device_id: val, ..*old(self) }),
    {
        self.device_id = val;
    }

    pub fn device_state(&self) -> (r: DeviceConnState)
        ensures
            r == self.device_state,
    {
        self.device_state
    }

    pub fn set_device_state(&mut self, val: DeviceConnState)
        ensures
            *final(self) == (DeviceConnInfo { device_state: val, ..*old(self) }),
    {
        self.device_state = val;
    }
}

} // verus!
