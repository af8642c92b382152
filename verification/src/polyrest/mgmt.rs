//! The `mgmt` family of the REST interface: what the handset is, how it is
//! connected, and how it is configured.

use vstd::prelude::*;
use crate::errors::PolyRestError;
use crate::polyrest::{PolyRest, RestMethod, RestRequest, RestRequestView};

verus! {

/// The envelope in which the handset sends every answer: a status of its
/// own, and the data that was asked for.
#[derive(Debug)]
pub struct PolyWrapper<ApiResponse> {
    pub status: Option<String>,
    pub data: ApiResponse,
}

/// What the handset is.
#[derive(Debug, Clone)]
pub struct DeviceInfo {
    pub model_number: String,
    pub firmware_release: String,
    pub device_type: String,
    pub device_vendor: String,
    pub up_time_since_last_reboot: String,
    pub ipv4_address: String,
    pub ipv6_address: String,
    pub mac_address: String,
}

/// How the handset's network is set up.
#[derive(Debug, Clone)]
pub struct NetworkInfo {
    pub default_gateway: String,
    pub ipv4_address: String,
    pub ipv6_address: String,
    pub dhcp_server: String,
    pub dhcp: String,
    pub upgrade_server: String,
    pub dhcp_option_60_format: String,
    pub dhcp_boot_server_use_option: String,
    pub ztp_status: String,
    pub dhcp_boot_server_option: String,
    pub dhcp_boot_server_option_type: String,
    pub lldp: String,
    pub lan_port_status: String,
    pub subnet_mask: String,
    pub alternate_dns_server: String,
    pub dns_server: String,
    pub dns_domain: String,
    pub lan_speed: String,
    pub sntp_address: String,
    pub vlan_discovery_mode: String,
    pub cdp_compability: String,
    pub vlan_id: String,
    pub vlan_id_option: String,
    pub prov_server_address: String,
    pub prov_server_user: String,
    pub prov_server_type: String,
    pub wifi: Option<NetworkInfoWifi>,
}

/// The handset's Wi-Fi connection, where it has one.
#[derive(Debug, Clone)]
pub struct NetworkInfoWifi {
    pub signal_strength: String,
    pub state: String,
    pub security_mode: String,
    pub ssid: String,
    pub duration: String,
}

/// The handset's network counters.
#[derive(Debug, Clone)]
pub struct NetworkStats {
    pub uptime: String,
    pub rx_packets: String,
    pub tx_packets: String,
}

/// One configuration parameter as the handset reports it: its value, and
/// where the handset has it from.
#[derive(Debug, Clone)]
pub struct ConfigResponseValue {
    pub value: String,
    pub source: String,
}

impl<ApiResponse> PolyWrapper<ApiResponse> {
    /// Takes the data out of the envelope.
    pub fn into_data(self) -> (data: ApiResponse)
        ensures
            data == self.data,
    {
        self.data
    }
}

/// The lower-case hexadecimal digit for `n`, which is below 16.
pub open spec fn hex_digit(n: int) -> char {
    if n < 10 {
        ('0' as int + n) as char
    } else {
        ('a' as int + n - 10) as char
    }
}

/// How a character stands inside a JSON string: quote and backslash behind
/// a backslash, the control characters by their short escape where they
/// have one and as `\u00XX` where not, every other character as itself.
pub open spec fn json_char(c: char) -> Seq<char> {
    if c == '"' {
        seq!['\\', '"']
    } else if c == '\\' {
        seq!['\\', '\\']
    } else if c == '\u{8}' {
        seq!['\\', 'b']
    } else if c == '\u{c}' {
        seq!['\\', 'f']
    } else if c == '\n' {
        seq!['\\', 'n']
    } else if c == '\r' {
        seq!['\\', 'r']
    } else if c == '\t' {
        seq!['\\', 't']
    } else if (c as int) < 0x20 {
        seq!['\\', 'u', '0', '0', hex_digit(c as int / 16), hex_digit(c as int % 16)]
    } else {
        seq![c]
    }
}

/// The characters of `text`, each as [`json_char`] has it.
pub open spec fn json_chars(text: Seq<char>) -> Seq<char>
    decreases text.len(),
{
    if text.len() == 0 {
        Seq::empty()
    } else {
        json_char(text[0]) + json_chars(text.skip(1))
    }
}

/// `text` as a JSON string, quotes included.
pub open spec fn json_string(text: Seq<char>) -> Seq<char> {
    seq!['"'] + json_chars(text) + seq!['"']
}

#[verifier::external_type_specification]
#[verifier::external_body]
pub struct ExJsonError(serde_json::Error);

/// Calls [`serde_json::to_string`] on a string. Claimed of it: it
/// succeeds, since a string is written into memory and nothing in that can
/// fail, and what it returns is the string in double quotes, with the
/// characters that JSON does not take inside a string escaped as
/// [`json_char`] says.
#[verifier::external_body]
fn to_json(text: &str) -> (written: Result<String, serde_json::Error>)
    ensures
        written is Ok,
        written->Ok_0@ == json_string(text@),
{
    serde_json::to_string(text)
}

/// The body that sets `key` to `value`: an object whose `data` member maps
/// the one to the other.
pub open spec fn set_body(key: Seq<char>, value: Seq<char>) -> Seq<char> {
    "{\"data\":{"@ + json_string(key) + ":"@ + json_string(value) + "}}"@
}

/// The body that asks for `value`: an object whose `data` member lists it.
pub open spec fn get_body(value: Seq<char>) -> Seq<char> {
    "{\"data\":["@ + json_string(value) + "]}"@
}

/// A `GET` of the resource at `path` on the handset at `url`.
pub open spec fn get_request(handler: PolyRest, path: Seq<char>) -> RestRequestView {
    RestRequestView {
        method: RestMethod::Get,
        url: handler.url@ + path,
        username: handler.username@,
        password: handler.password@,
        body: None,
        insecure: handler.insecure,
    }
}

/// A `POST` of `body` to the resource at `path` on the handset at `url`.
pub open spec fn post_request(handler: PolyRest, path: Seq<char>, body: Seq<char>) ->
    RestRequestView {
    RestRequestView {
        method: RestMethod::Post,
        url: handler.url@ + path,
        username: handler.username@,
        password: handler.password@,
        body: Some(body),
        insecure: handler.insecure,
    }
}

/// Passes a JSON string on, or reports that it could not be written.
fn written_json(written: Result<String, serde_json::Error>) -> (text: Result<
    String,
    PolyRestError,
>)
    ensures
        match text {
            Ok(value) => written is Ok && value == written->Ok_0,
            Err(e) => written is Err && e == PolyRestError::JsonError,
        },
{
    match written {
        Ok(value) => Ok(value),
        Err(_) => Err(PolyRestError::JsonError),
    }
}

impl PolyRest {
    /// The request for what the handset is: model, firmware, addresses.
    pub fn device_info(&self) -> (request: RestRequest)
        ensures
            request@ == get_request(*self, "/api/v1/mgmt/device/info"@),
    {
        let path = self.resource("/api/v1/mgmt/device/info");
        self.raw_get(path)
    }

    /// The request for how the handset's network is set up.
    pub fn network_info(&self) -> (request: RestRequest)
        ensures
            request@ == get_request(*self, "/api/v1/mgmt/network/info"@),
    {
        let path = self.resource("/api/v1/mgmt/network/info");
        self.raw_get(path)
    }

    /// The request for the handset's network counters.
    pub fn network_stats(&self) -> (request: RestRequest)
        ensures
            request@ == get_request(*self, "/api/v1/mgmt/network/stats"@),
    {
        let path = self.resource("/api/v1/mgmt/network/stats");
        self.raw_get(path)
    }

    /// The request that sets the configuration parameter `key` to
    /// `value`: a `POST` of [`set_body`]. Every key and value can be
    /// written as JSON, so there always is a request.
    pub fn config_set(&self, key: &str, value: &str) -> (request: Result<
        RestRequest,
        PolyRestError,
    >)
        ensures
            request is Ok,
            request->Ok_0@ == post_request(
                *self,
                "/api/v1/mgmt/config/set"@,
                set_body(key@, value@),
            ),
    {
        let key = written_json(to_json(key))?;
        let value = written_json(to_json(value))?;
        let mut body = String::from_str("{\"data\":{");
        body.append(key.as_str());
        body.append(":");
        body.append(value.as_str());
        body.append("}}");
        let path = self.resource("/api/v1/mgmt/config/set");
        Ok(self.raw_post(path, body))
    }

    /// The request that asks for the configuration parameter `value`: a
    /// `POST` of [`get_body`]. Every name can be written as JSON, so
    /// there always is a request.
    pub fn config_get(&self, value: &str) -> (request: Result<RestRequest, PolyRestError>)
        ensures
            request is Ok,
            request->Ok_0@ == post_request(*self, "/api/v1/mgmt/config/get"@, get_body(value@)),
    {
        let value = written_json(to_json(value))?;
        let mut body = String::from_str("{\"data\":[");
        body.append(value.as_str());
        body.append("]}");
        let path = self.resource("/api/v1/mgmt/config/get");
        Ok(self.raw_post(path, body))
    }
}

} // verus!
