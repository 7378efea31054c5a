use crate::text::{decimal, decimal_text, join, joined, or_empty, text_or_empty};
use std::collections::HashMap;
use vstd::prelude::*;
use vstd::string::*;

verus! {

/// The envelope in which the router wraps every reply.
#[derive(Debug, Clone, PartialEq, Eq)]
pub struct Response<T> {
    pub success: bool,
    pub data: Option<T>,
    pub errors: Option<Vec<ApiError>>,
}

/// One error entry of a reply.
#[derive(Debug, Clone, PartialEq, Eq)]
pub struct ApiError {
    pub code: i32,
    pub error: String,
    pub source: String,
    pub section: Option<String>,
}

/// What a successful login returns.
#[derive(Debug, Clone, PartialEq, Eq)]
pub struct LoginData {
    pub username: String,
    pub token: String,
    pub expires: i64,
}

/// Whether the session of the bearer token is still live.
#[derive(Debug, Clone, PartialEq, Eq)]
pub struct SessionStatus {
    pub active: bool,
}

/// The receipt for a sent text message.
#[derive(Debug, Clone, PartialEq, Eq)]
pub struct SmsSendResponse {
    pub sms_used: u64,
}

/// One text message in the modem's store.
#[derive(Debug, Clone, PartialEq, Eq)]
pub struct SmsMessage {
    pub message: String,
    pub sender: String,
    pub id: String,
    pub modem_id: String,
    pub status: String,
    pub date: String,
}

/// One row of the IPv4 neighbour table.
#[derive(Debug, Clone, PartialEq, Eq)]
pub struct IpNeighborStatusV4 {
    pub proxy: String,
    pub stale: String,
    pub noarp: String,
    pub incomplete: String,
    pub delay: String,
    pub family: String,
    pub reachable: String,
    pub mac: Option<String>,
    pub dev: String,
    pub router: String,
    pub dest: String,
    pub probe: String,
    pub failed: String,
    pub permanent: String,
}

/// The state of one wireless interface.
#[derive(Debug)]
pub struct InterfaceStatus {
    pub ifname: String,
    pub disabled: bool,
    pub op_class: i64,
    pub status: String,
    pub quality: i64,
    pub noise: i64,
    pub up: bool,
    pub device: InterfaceStatusDevice,
    pub txpoweroff: i64,
    pub bitrate: i64,
    pub name: String,
    pub ssid: String,
    pub assoclist: HashMap<String, InterfaceStatusAssoc>,
}

/// One station associated with a wireless interface.
#[derive(Debug)]
pub struct InterfaceStatusAssoc {
    pub signal: i64,
}

/// The radio behind a wireless interface.
#[derive(Debug)]
pub struct InterfaceStatusDevice {
    pub device: String,
    pub pending: bool,
    pub name: String,
    pub up: bool,
}

/// One radio of the router.
#[derive(Debug)]
pub struct WirelessDeviceStatus {
    pub id: String,
    pub quality_max: i64,
}

/// The last GPS fix, every field as the router words it.
#[derive(Debug)]
pub struct GpsPositionStatus {
    pub accuracy: String,
    pub fix_status: String,
    pub altitude: String,
    pub timestamp: String,
    pub satellites: String,
    pub longitude: String,
    pub latitude: String,
    pub angle: String,
    pub utc_timestamp: String,
}

/// The firmware that the router runs.
#[derive(Debug)]
pub struct FirmwareDeviceStatus {
    pub kernel_version: String,
    pub version: String,
    pub build_date: String,
}

/// One IPv4 DHCP lease.
#[derive(Debug)]
pub struct DhcpLease {
    pub expires: i64,
    pub macaddr: String,
    pub ipaddr: String,
    pub hostname: Option<String>,
}

/// One IPv6 DHCP lease.
#[derive(Debug)]
pub struct DhcpLeaseV6 {
    pub duid: String,
    pub expires: i64,
    pub hostname: Option<String>,
    pub interface: String,
    pub ipv6addr: Vec<String>,
    pub ipv6prefix: Option<Vec<Ipv6Prefix>>,
}

/// A delegated IPv6 prefix.
#[derive(Debug)]
pub struct Ipv6Prefix {
    pub address: String,
    pub prefix_length: i64,
}

impl GpsPositionStatus {
    /// The fix as text: one labelled line for each field.
    pub open spec fn rendered(&self) -> Seq<char> {
        "Accuracy: "@ + self.accuracy@ + "\nFix status: "@ + self.fix_status@ + "\nAltitude: "@
            + self.altitude@ + "\nTimestamp: "@ + self.timestamp@ + "\nSatellites: "@
            + self.satellites@ + "\nLongitude: "@ + self.longitude@ + "\nLatitude: "@
            + self.latitude@ + "\nAngle: "@ + self.angle@ + "\nUTC timestamp: "@
            + self.utc_timestamp@
    }

    /// Writes the fix as text for a terminal.
    pub fn to_string(&self) -> (text: String)
        ensures
            text@ == self.rendered(),
    {
        let mut text = String::from_str("Accuracy: ");
        text.append(self.accuracy.as_str());
        text.append("\nFix status: ");
        text.append(self.fix_status.as_str());
        text.append("\nAltitude: ");
        text.append(self.altitude.as_str());
        text.append("\nTimestamp: ");
        text.append(self.timestamp.as_str());
        text.append("\nSatellites: ");
        text.append(self.satellites.as_str());
        text.append("\nLongitude: ");
        text.append(self.longitude.as_str());
        text.append("\nLatitude: ");
        text.append(self.latitude.as_str());
        text.append("\nAngle: ");
        text.append(self.angle.as_str());
        text.append("\nUTC timestamp: ");
        text.append(self.utc_timestamp.as_str());
        text
    }
}

impl FirmwareDeviceStatus {
    /// The firmware as text: one labelled line for each field.
    pub open spec fn rendered(&self) -> Seq<char> {
        "Kernel version: "@ + self.kernel_version@ + "\nVersion: "@ + self.version@
            + "\nBuild date: "@ + self.build_date@
    }

    /// Writes the firmware as text for a terminal.
    pub fn to_string(&self) -> (text: String)
        ensures
            text@ == self.rendered(),
    {
        let mut text = String::from_str("Kernel version: ");
        text.append(self.kernel_version.as_str());
        text.append("\nVersion: ");
        text.append(self.version.as_str());
        text.append("\nBuild date: ");
        text.append(self.build_date.as_str());
        text
    }
}

impl DhcpLease {
    /// The lease as text: one labelled line for each field, each line
    /// ended. A lease without a host name shows an empty one.
    pub open spec fn rendered(&self) -> Seq<char> {
        "MAC address: "@ + self.macaddr@ + "\nIP address: "@ + self.ipaddr@ + "\nHostname: "@
            + text_or_empty(self.hostname) + "\nExpires: "@ + decimal(self.expires as int) + "\n"@
    }

    /// Writes the lease as text for a terminal.
    pub fn to_string(&self) -> (text: String)
        ensures
            text@ == self.rendered(),
    {
        let mut text = String::from_str("MAC address: ");
        text.append(self.macaddr.as_str());
        text.append("\nIP address: ");
        text.append(self.ipaddr.as_str());
        text.append("\nHostname: ");
        text.append(or_empty(&self.hostname));
        text.append("\nExpires: ");
        let expires = decimal_text(self.expires);
        text.append(expires.as_str());
        text.append("\n");
        text
    }
}

impl Ipv6Prefix {
    /// The prefix as text: its address, a slash, its length.
    pub open spec fn rendered(&self) -> Seq<char> {
        self.address@ + "/"@ + decimal(self.prefix_length as int)
    }

    /// Writes the prefix as text for a terminal.
    pub fn to_string(&self) -> (text: String)
        ensures
            text@ == self.rendered(),
    {
        let mut text = self.address.clone();
        text.append("/");
        let length = decimal_text(self.prefix_length);
        text.append(length.as_str());
        text
    }
}

impl DhcpLeaseV6 {
    /// The lease as text: one labelled line for each field but the
    /// prefixes, each line ended. The addresses stand on one line, a comma
    /// and a space between each two.
    pub open spec fn rendered(&self) -> Seq<char> {
        "DUID: "@ + self.duid@ + "\nExpires: "@ + decimal(self.expires as int) + "\nHostname: "@
            + text_or_empty(self.hostname) + "\nInterface: "@ + self.interface@
            + "\nIP address: "@ + joined(self.ipv6addr.deep_view(), ", "@) + "\n"@
    }

    /// Writes the lease as text for a terminal.
    pub fn to_string(&self) -> (text: String)
        ensures
            text@ == self.rendered(),
    {
        let mut text = String::from_str("DUID: ");
        text.append(self.duid.as_str());
        text.append("\nExpires: ");
        let expires = decimal_text(self.expires);
        text.append(expires.as_str());
        text.append("\nHostname: ");
        text.append(or_empty(&self.hostname));
        text.append("\nInterface: ");
        text.append(self.interface.as_str());
        text.append("\nIP address: ");
        let addresses = join(&self.ipv6addr, ", ");
        text.append(addresses.as_str());
        text.append("\n");
        text
    }
}

} // verus!
