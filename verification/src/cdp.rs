//! What only Chromium has: its commands, and the network that it simulates.
use crate::address;
use crate::address::ServerUrl;
use crate::json;
use crate::json::{Json, JsonValue, Object};
use crate::request::Method;
use crate::text::{cat3, text_eq};
use vstd::prelude::*;

verus! {

/// The connection type.
#[derive(Debug, Clone, Copy, PartialEq, Eq, Structural)]
pub enum ConnectionType {
    Nothing,
    Cellular2G,
    Cellular3G,
    Cellular4G,
    Bluetooth,
    Ethernet,
    Wifi,
    Wimax,
    Other,
}

impl ConnectionType {
    /// The name in a request.
    pub open spec fn name(self) -> Seq<char> {
        match self {
            ConnectionType::Nothing => "None"@,
            ConnectionType::Cellular2G => "Cellular2G"@,
            ConnectionType::Cellular3G => "Cellular3G"@,
            ConnectionType::Cellular4G => "Cellular4G"@,
            ConnectionType::Bluetooth => "Bluetooth"@,
            ConnectionType::Ethernet => "Ethernet"@,
            ConnectionType::Wifi => "Wifi"@,
            ConnectionType::Wimax => "Wimax"@,
            ConnectionType::Other => "Other"@,
        }
    }

    /// The name in a request.
    pub fn as_str(&self) -> (r: &'static str)
        ensures
            r@ == self.name(),
    {
        match self {
            ConnectionType::Nothing => "None",
            ConnectionType::Cellular2G => "Cellular2G",
            ConnectionType::Cellular3G => "Cellular3G",
            ConnectionType::Cellular4G => "Cellular4G",
            ConnectionType::Bluetooth => "Bluetooth",
            ConnectionType::Ethernet => "Ethernet",
            ConnectionType::Wifi => "Wifi",
            ConnectionType::Wimax => "Wimax",
            ConnectionType::Other => "Other",
        }
    }
}

/// The connection type that a JSON value is read as, where it is one: the one with that name.
pub open spec fn connection_type_of(v: Json) -> Option<ConnectionType> {
    match v {
        Json::Str(s) => {
            if s == "None"@ {
                Some(ConnectionType::Nothing)
            } else if s == "Cellular2G"@ {
                Some(ConnectionType::Cellular2G)
            } else if s == "Cellular3G"@ {
                Some(ConnectionType::Cellular3G)
            } else if s == "Cellular4G"@ {
                Some(ConnectionType::Cellular4G)
            } else if s == "Bluetooth"@ {
                Some(ConnectionType::Bluetooth)
            } else if s == "Ethernet"@ {
                Some(ConnectionType::Ethernet)
            } else if s == "Wifi"@ {
                Some(ConnectionType::Wifi)
            } else if s == "Wimax"@ {
                Some(ConnectionType::Wimax)
            } else if s == "Other"@ {
                Some(ConnectionType::Other)
            } else {
                None
            }
        },
        _ => None,
    }
}

impl ConnectionType {
    /// The connection type that a JSON value is read as, where it is one.
    pub fn from_json(v: &JsonValue) -> (r: Option<ConnectionType>)
        ensures
            r == connection_type_of(v@),
    {
        match v.as_str() {
            Some(s) => {
            if text_eq(s, "None") {
                Some(ConnectionType::Nothing)
            } else if text_eq(s, "Cellular2G") {
                Some(ConnectionType::Cellular2G)
            } else if text_eq(s, "Cellular3G") {
                Some(ConnectionType::Cellular3G)
            } else if text_eq(s, "Cellular4G") {
                Some(ConnectionType::Cellular4G)
            } else if text_eq(s, "Bluetooth") {
                Some(ConnectionType::Bluetooth)
            } else if text_eq(s, "Ethernet") {
                Some(ConnectionType::Ethernet)
            } else if text_eq(s, "Wifi") {
                Some(ConnectionType::Wifi)
            } else if text_eq(s, "Wimax") {
                Some(ConnectionType::Wimax)
            } else if text_eq(s, "Other") {
                Some(ConnectionType::Other)
            } else {
                None
            }
            },
            None => None,
        }
    }
}

/// The simulated network conditions.
#[derive(Debug, Clone, Copy, PartialEq, Eq, Structural)]
pub struct NetworkConditions {
    /// True to simulate the network being offline.
    pub offline: bool,
    /// The latency to add, in milliseconds.
    pub latency: u32,
    /// The download throughput, in bytes/second.
    ///
    /// -1 disables download throttling.
    pub download_throughput: i32,
    /// The upload throughput, in bytes/second.
    ///
    /// -1 disables upload throttling.
    pub upload_throughput: i32,
    /// The connection type, if known.
    pub connection_type: Option<ConnectionType>,
}

/// A network that is not slowed down.
pub open spec fn free_network() -> NetworkConditions {
    NetworkConditions {
        offline: false,
        latency: 0,
        download_throughput: -1i32,
        upload_throughput: -1i32,
        connection_type: None,
    }
}

impl Default for NetworkConditions {
    fn default() -> (r: Self)
        ensures
            r == free_network(),
    {
        NetworkConditions {
            offline: false,
            latency: 0,
            download_throughput: -1,
            upload_throughput: -1,
            connection_type: None,
        }
    }
}

impl NetworkConditions {
    /// Create a new `NetworkConditions` instance.
    pub fn new() -> (r: Self)
        ensures
            r == free_network(),
    {
        NetworkConditions::default()
    }

    /// What the conditions are in a request.
    pub open spec fn json(self) -> Json {
        Json::Obj(
            json::with_member(
                Map::<Seq<char>, Json>::empty().insert("offline"@, Json::Bool(self.offline)).insert(
                    "latency"@,
                    Json::Int(self.latency as int),
                ).insert("download_throughput"@, Json::Int(self.download_throughput as int)).insert(
                    "upload_throughput"@,
                    Json::Int(self.upload_throughput as int),
                ),
                "connection_type"@,
                match self.connection_type {
                    Some(c) => Some(Json::Str(c.name())),
                    None => None,
                },
            ),
        )
    }

    /// What the conditions are in a request.
    pub fn to_json(&self) -> (r: JsonValue)
        ensures
            r@ == self.json(),
    {
        let mut o: Object = Object::new();
        o.push("offline", JsonValue::Bool(self.offline));
        o.push("latency", JsonValue::Unsigned(self.latency as u64));
        o.push("download_throughput", JsonValue::Signed(self.download_throughput as i64));
        o.push("upload_throughput", JsonValue::Signed(self.upload_throughput as i64));
        match self.connection_type {
            Some(c) => o.push("connection_type", JsonValue::text(c.as_str())),
            None => {},
        }
        JsonValue::Object(o)
    }
}

/// A field for a number in a range.
pub open spec fn int_field(v: Option<Json>, low: int, high: int) -> Option<int> {
    match v {
        Some(Json::Int(n)) => if low <= n <= high {
            Some(n)
        } else {
            None
        },
        _ => None,
    }
}

/// A field for a connection type, where it is known.
pub open spec fn connection_type_field(v: Option<Json>) -> Option<Option<ConnectionType>> {
    match v {
        None => Some(None),
        Some(Json::Null) => Some(None),
        Some(v) => match connection_type_of(v) {
            Some(c) => Some(Some(c)),
            None => None,
        },
    }
}

/// The network conditions that a JSON value is read as, where it has them.
pub open spec fn conditions_of(v: Json) -> Option<NetworkConditions> {
    let latency = int_field(json::field(v, 1, "latency"@), 0, u32::MAX as int);
    let down = int_field(
        json::field(v, 2, "download_throughput"@),
        i32::MIN as int,
        i32::MAX as int,
    );
    let up = int_field(json::field(v, 3, "upload_throughput"@), i32::MIN as int, i32::MAX as int);
    let kind = connection_type_field(json::field(v, 4, "connection_type"@));
    match json::field(v, 0, "offline"@) {
        Some(Json::Bool(offline)) => if json::is_record(v, 5) && latency is Some && down is Some
            && up is Some && kind is Some {
            Some(
                NetworkConditions {
                    offline,
                    latency: latency->0 as u32,
                    download_throughput: down->0 as i32,
                    upload_throughput: up->0 as i32,
                    connection_type: kind->0,
                },
            )
        } else {
            None
        },
        _ => None,
    }
}

/// A field for a number of 32 bits.
fn read_u32(v: Option<&JsonValue>) -> (r: Option<u32>)
    ensures
        match r {
            Some(n) => int_field(json::opt_ref_view(v), 0, u32::MAX as int) == Some(n as int),
            None => int_field(json::opt_ref_view(v), 0, u32::MAX as int) is None,
        },
{
    match v {
        Some(v) => match v.as_u64() {
            Some(n) => if n <= 0xffff_ffff {
                Some(n as u32)
            } else {
                None
            },
            None => None,
        },
        None => None,
    }
}

/// A field for a number of 32 bits with a sign.
fn read_i32(v: Option<&JsonValue>) -> (r: Option<i32>)
    ensures
        match r {
            Some(n) => int_field(json::opt_ref_view(v), i32::MIN as int, i32::MAX as int) == Some(
                n as int,
            ),
            None => int_field(json::opt_ref_view(v), i32::MIN as int, i32::MAX as int) is None,
        },
{
    match v {
        Some(v) => match v.as_i64() {
            Some(n) => if -0x8000_0000 <= n && n <= 0x7fff_ffff {
                Some(n as i32)
            } else {
                None
            },
            None => None,
        },
        None => None,
    }
}

impl NetworkConditions {
    /// The network conditions that a JSON value is read as, where it has them.
    pub fn from_json(v: &JsonValue) -> (r: Option<NetworkConditions>)
        ensures
            r == conditions_of(v@),
    {
        if !v.is_record(5) {
            return None;
        }
        let offline: bool = match v.field(0, "offline") {
            Some(b) => match b.as_bool() {
                Some(b) => b,
                None => return None,
            },
            None => return None,
        };
        let latency: u32 = match read_u32(v.field(1, "latency")) {
            Some(n) => n,
            None => return None,
        };
        let download_throughput: i32 = match read_i32(v.field(2, "download_throughput")) {
            Some(n) => n,
            None => return None,
        };
        let upload_throughput: i32 = match read_i32(v.field(3, "upload_throughput")) {
            Some(n) => n,
            None => return None,
        };
        let connection_type: Option<ConnectionType> = match v.field(4, "connection_type") {
            Some(c) => if c.is_null() {
                None
            } else {
                match ConnectionType::from_json(c) {
                    Some(c) => Some(c),
                    None => return None,
                }
            },
            None => None,
        };
        Some(
            NetworkConditions {
                offline,
                latency,
                download_throughput,
                upload_throughput,
                connection_type,
            },
        )
    }
}

/// Every connection type is read from its name.
pub proof fn lemma_connection_type_round_trip(c: ConnectionType)
    ensures
        connection_type_of(Json::Str(c.name())) == Some(c),
{
    reveal_strlit("None");
    reveal_strlit("Cellular2G");
    reveal_strlit("Cellular3G");
    reveal_strlit("Cellular4G");
    reveal_strlit("Bluetooth");
    reveal_strlit("Ethernet");
    reveal_strlit("Wifi");
    reveal_strlit("Wimax");
    reveal_strlit("Other");
    assert("Cellular2G"@[8] == '2');
    assert("Cellular3G"@[8] == '3');
    assert("Cellular4G"@[8] == '4');
    assert("None"@[0] == 'N');
    assert("Bluetooth"@[0] == 'B');
    assert("Ethernet"@[0] == 'E');
    assert("Wifi"@[2] == 'f');
    assert("Wimax"@[2] == 'm');
    assert("Other"@[0] == 'O');
    assert("Cellular2G"@[0] == 'C');
    assert("Cellular3G"@[0] == 'C');
    assert("Cellular4G"@[0] == 'C');
    assert("Wifi"@[0] == 'W');
    assert("Wimax"@[0] == 'W');
}

/// Network conditions that are sent are, where the browser sends them back, read as the same.
pub proof fn lemma_conditions_round_trip(c: NetworkConditions)
    ensures
        conditions_of(c.json()) == Some(c),
{
    reveal_strlit("offline");
    reveal_strlit("latency");
    reveal_strlit("download_throughput");
    reveal_strlit("upload_throughput");
    reveal_strlit("connection_type");
    assert("offline"@[0] == 'o');
    assert("latency"@[0] == 'l');
    assert("download_throughput"@[0] == 'd');
    assert("upload_throughput"@[0] == 'u');
    assert("connection_type"@[0] == 'c');
    if c.connection_type is Some {
        lemma_connection_type_round_trip(c.connection_type->0);
    }
}

/// Extra commands specific to Chrome.
#[derive(Debug)]
pub enum ChromeCommand {
    LaunchApp(String),
    GetNetworkConditions,
    SetNetworkConditions(NetworkConditions),
    ExecuteCdpCommand(String, JsonValue),
    GetSinks,
    GetIssueMessage,
    SetSinkToUse(String),
    StartTabMirroring(String),
    StopCasting(String),
}

impl ChromeCommand {
    /// Where the command goes, below the place of the session.
    pub open spec fn path(&self) -> Seq<char> {
        match self {
            ChromeCommand::LaunchApp(_) => "chromium/launch_app"@,
            ChromeCommand::GetNetworkConditions => "chromium/network_conditions"@,
            ChromeCommand::SetNetworkConditions(_) => "chromium/network_conditions"@,
            ChromeCommand::ExecuteCdpCommand(_, _) => "goog/cdp/execute"@,
            ChromeCommand::GetSinks => "goog/cast/get_sinks"@,
            ChromeCommand::GetIssueMessage => "goog/cast/get_issue_message"@,
            ChromeCommand::SetSinkToUse(_) => "goog/cast/set_sink_to_use"@,
            ChromeCommand::StartTabMirroring(_) => "goog/cast/start_tab_mirroring"@,
            ChromeCommand::StopCasting(_) => "goog/cast/stop_casting"@,
        }
    }

    /// What the command is sent with, where it is sent with anything.
    pub open spec fn body(&self) -> Option<Json> {
        match self {
            ChromeCommand::LaunchApp(app_id) => Some(json::obj1("id"@, Json::Str(app_id@))),
            ChromeCommand::SetNetworkConditions(conditions) => Some(
                json::obj1("network_conditions"@, conditions.json()),
            ),
            ChromeCommand::ExecuteCdpCommand(command, params) => Some(
                json::obj2("cmd"@, Json::Str(command@), "params"@, params@),
            ),
            ChromeCommand::SetSinkToUse(sink) => Some(json::obj1("sinkName"@, Json::Str(sink@))),
            ChromeCommand::StartTabMirroring(sink) => Some(
                json::obj1("sinkName"@, Json::Str(sink@)),
            ),
            ChromeCommand::StopCasting(sink) => Some(json::obj1("sinkName"@, Json::Str(sink@))),
            _ => None,
        }
    }

    /// The place below that of the server that the command goes to in a session.
    pub open spec fn endpoint_of(&self, base: Seq<char>, session: Seq<char>) -> Result<
        Seq<char>,
        Seq<char>,
    > {
        match address::joined_url(base, "session/"@ + session + "/"@) {
            Ok(place) => address::joined_url(place, self.path()),
            Err(message) => Err(message),
        }
    }

    /// The place that the command goes to in a session.
    pub fn endpoint(&self, base_url: &ServerUrl, session_id: &str) -> (r: Result<String, String>)
        ensures
            match self.endpoint_of(base_url@, session_id@) {
                Ok(u) => r matches Ok(s) && s@ == u,
                Err(message) => r matches Err(m) && m@ == message,
            },
    {
        let place: ServerUrl = match base_url.at(cat3("session/", session_id, "/").as_str()) {
            Ok(place) => place,
            Err(message) => return Err(message),
        };
        let path: &str = match self {
            ChromeCommand::LaunchApp(_) => "chromium/launch_app",
            ChromeCommand::GetNetworkConditions => "chromium/network_conditions",
            ChromeCommand::SetNetworkConditions(_) => "chromium/network_conditions",
            ChromeCommand::ExecuteCdpCommand(_, _) => "goog/cdp/execute",
            ChromeCommand::GetSinks => "goog/cast/get_sinks",
            ChromeCommand::GetIssueMessage => "goog/cast/get_issue_message",
            ChromeCommand::SetSinkToUse(_) => "goog/cast/set_sink_to_use",
            ChromeCommand::StartTabMirroring(_) => "goog/cast/start_tab_mirroring",
            ChromeCommand::StopCasting(_) => "goog/cast/stop_casting",
        };
        match place.at(path) {
            Ok(u) => Ok(u.to_text()),
            Err(message) => Err(message),
        }
    }

    /// What the command is sent with.
    fn body_value(&self) -> (r: Option<JsonValue>)
        ensures
            json::opt_view(r) == self.body(),
    {
        match self {
            ChromeCommand::LaunchApp(app_id) => Some(
                JsonValue::object1("id", JsonValue::text(app_id.as_str())),
            ),
            ChromeCommand::SetNetworkConditions(conditions) => Some(
                JsonValue::object1("network_conditions", conditions.to_json()),
            ),
            ChromeCommand::ExecuteCdpCommand(command, params) => Some(
                JsonValue::object2(
                    "cmd",
                    JsonValue::text(command.as_str()),
                    "params",
                    params.clone(),
                ),
            ),
            ChromeCommand::SetSinkToUse(sink) => Some(
                JsonValue::object1("sinkName", JsonValue::text(sink.as_str())),
            ),
            ChromeCommand::StartTabMirroring(sink) => Some(
                JsonValue::object1("sinkName", JsonValue::text(sink.as_str())),
            ),
            ChromeCommand::StopCasting(sink) => Some(
                JsonValue::object1("sinkName", JsonValue::text(sink.as_str())),
            ),
            _ => None,
        }
    }

    /// How the command is sent, and what it is sent with: one that has something to say is posted,
    /// and any other one only asks.
    pub fn method_and_body(&self) -> (r: (Method, Option<JsonValue>))
        ensures
            r.0 == (if self.body() is Some {
                Method::POST
            } else {
                Method::GET
            }),
            json::opt_view(r.1) == self.body(),
    {
        let body: Option<JsonValue> = self.body_value();
        if body.is_some() {
            (Method::POST, body)
        } else {
            (Method::GET, body)
        }
    }
}

} // verus!
