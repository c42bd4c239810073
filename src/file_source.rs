//! Builders of each section from a table of a configuration document.
//! Absent fields take their defaults; a field of the wrong kind makes the
//! section invalid.

use vstd::prelude::*;
use crate::address::{HostTable, IpAddress, SocketAddress};
use crate::doc::{
    DocValue, address_entry, address_field, bool_entry, bool_field, entry_of, methods_entry,
    methods_field, str_field, str_entry, table_entry, table_field, uint_entry, uint_field,
};
use crate::env::opt_view;
use crate::join::{Join, JoinForward, JoinHold, JoinKick, JoinLobby, KICK_STARTING, KICK_STOPPING, LOBBY_MESSAGE, LOBBY_READY_SOUND};
use crate::sections::{
    Advanced, ConfigConfig, Lockout, Motd, Public, Rcon, Time, LOCKOUT_MESSAGE, MOTD_SLEEPING,
    MOTD_STARTING, MOTD_STOPPING, PROTO_DEFAULT_PROTOCOL, PROTO_DEFAULT_VERSION, v4,
};

verus! {

pub type DocTable = Vec<(String, DocValue)>;

pub open spec fn field(t: Seq<(String, DocValue)>, key: &str) -> Option<DocValue> {
    entry_of(t, key@)
}

pub open spec fn text_field(t: Seq<(String, DocValue)>, key: &str, default: &str) -> Option<Option<Seq<char>>> {
    str_entry(entry_of(t, key@), Some(default@))
}

impl Public {
    pub open spec fn doc_ok(t: Seq<(String, DocValue)>, hosts: Seq<(String, IpAddress)>) -> bool {
        &&& address_entry(field(t, "address"), hosts, v4(0, 0, 0, 0, 25565)) is Some
        &&& text_field(t, "version", PROTO_DEFAULT_VERSION) is Some
        &&& uint_entry(field(t, "protocol"), u32::MAX as nat, PROTO_DEFAULT_PROTOCOL as nat) is Some
    }

    pub open spec fn doc_spec(self, t: Seq<(String, DocValue)>, hosts: Seq<(String, IpAddress)>) -> bool {
        &&& Some(self.address) == address_entry(field(t, "address"), hosts, v4(0, 0, 0, 0, 25565))
        &&& Some(Some(self.version@)) == text_field(t, "version", PROTO_DEFAULT_VERSION)
        &&& Some(self.protocol as nat) == uint_entry(field(t, "protocol"), u32::MAX as nat, PROTO_DEFAULT_PROTOCOL as nat)
    }

    pub fn from_doc(t: &DocTable, hosts: &HostTable) -> (r: Option<Public>)
        ensures
            r is Some <==> Public::doc_ok(t@, hosts.entries@),
            r is Some ==> r->0.doc_spec(t@, hosts.entries@),
    {
        let address = match address_field(t, "address", hosts, SocketAddress { ip: IpAddress::V4(0, 0, 0, 0), port: 25565 }) {
            Some(a) => a,
            None => return None,
        };
        let version = match str_field(t, "version", Some(PROTO_DEFAULT_VERSION)) {
            Some(Some(v)) => v,
            _ => return None,
        };
        let protocol = match uint_field(t, "protocol", u32::MAX as u64, PROTO_DEFAULT_PROTOCOL as u64) {
            Some(p) => p as u32,
            None => return None,
        };
        Some(Public { address, version, protocol })
    }
}

impl Time {
    pub open spec fn min_field(t: Seq<(String, DocValue)>) -> Option<DocValue> {
        if field(t, "min_online_time") is Some {
            field(t, "min_online_time")
        } else {
            field(t, "minimum_online_time")
        }
    }

    pub open spec fn doc_ok(t: Seq<(String, DocValue)>) -> bool {
        &&& uint_entry(field(t, "sleep_after"), u32::MAX as nat, 60) is Some
        &&& uint_entry(Time::min_field(t), u32::MAX as nat, 60) is Some
    }

    pub open spec fn doc_spec(self, t: Seq<(String, DocValue)>) -> bool {
        &&& Some(self.sleep_after as nat) == uint_entry(field(t, "sleep_after"), u32::MAX as nat, 60)
        &&& Some(self.min_online_time as nat) == uint_entry(Time::min_field(t), u32::MAX as nat, 60)
    }

    /// Reads the section; `minimum_online_time` is accepted for
    /// `min_online_time`.
    pub fn from_doc(t: &DocTable) -> (r: Option<Time>)
        ensures
            r is Some <==> Time::doc_ok(t@),
            r is Some ==> r->0.doc_spec(t@),
    {
        let sleep_after = match uint_field(t, "sleep_after", u32::MAX as u64, 60) {
            Some(v) => v as u32,
            None => return None,
        };
        let key = if crate::doc::find(t, "min_online_time").is_some() {
            "min_online_time"
        } else {
            "minimum_online_time"
        };
        let min_online_time = match uint_field(t, key, u32::MAX as u64, 60) {
            Some(v) => v as u32,
            None => return None,
        };
        Some(Time { sleep_after, min_online_time })
    }
}

impl Motd {
    pub open spec fn doc_ok(t: Seq<(String, DocValue)>) -> bool {
        &&& text_field(t, "sleeping", MOTD_SLEEPING) is Some
        &&& text_field(t, "starting", MOTD_STARTING) is Some
        &&& text_field(t, "stopping", MOTD_STOPPING) is Some
        &&& bool_entry(field(t, "from_server"), false) is Some
    }

    pub open spec fn doc_spec(self, t: Seq<(String, DocValue)>) -> bool {
        &&& Some(Some(self.sleeping@)) == text_field(t, "sleeping", MOTD_SLEEPING)
        &&& Some(Some(self.starting@)) == text_field(t, "starting", MOTD_STARTING)
        &&& Some(Some(self.stopping@)) == text_field(t, "stopping", MOTD_STOPPING)
        &&& Some(self.from_server) == bool_entry(field(t, "from_server"), false)
    }

    pub fn from_doc(t: &DocTable) -> (r: Option<Motd>)
        ensures
            r is Some <==> Motd::doc_ok(t@),
            r is Some ==> r->0.doc_spec(t@),
    {
        let sleeping = match str_field(t, "sleeping", Some(MOTD_SLEEPING)) {
            Some(Some(v)) => v,
            _ => return None,
        };
        let starting = match str_field(t, "starting", Some(MOTD_STARTING)) {
            Some(Some(v)) => v,
            _ => return None,
        };
        let stopping = match str_field(t, "stopping", Some(MOTD_STOPPING)) {
            Some(Some(v)) => v,
            _ => return None,
        };
        let from_server = match bool_field(t, "from_server", false) {
            Some(v) => v,
            None => return None,
        };
        Some(Motd { sleeping, starting, stopping, from_server })
    }
}

impl Lockout {
    pub open spec fn doc_ok(t: Seq<(String, DocValue)>) -> bool {
        &&& bool_entry(field(t, "enabled"), false) is Some
        &&& text_field(t, "message", LOCKOUT_MESSAGE) is Some
    }

    pub open spec fn doc_spec(self, t: Seq<(String, DocValue)>) -> bool {
        &&& Some(self.enabled) == bool_entry(field(t, "enabled"), false)
        &&& Some(Some(self.message@)) == text_field(t, "message", LOCKOUT_MESSAGE)
    }

    pub fn from_doc(t: &DocTable) -> (r: Option<Lockout>)
        ensures
            r is Some <==> Lockout::doc_ok(t@),
            r is Some ==> r->0.doc_spec(t@),
    {
        let enabled = match bool_field(t, "enabled", false) {
            Some(v) => v,
            None => return None,
        };
        let message = match str_field(t, "message", Some(LOCKOUT_MESSAGE)) {
            Some(Some(v)) => v,
            _ => return None,
        };
        Some(Lockout { enabled, message })
    }
}

impl Rcon {
    pub open spec fn doc_ok(t: Seq<(String, DocValue)>) -> bool {
        &&& bool_entry(field(t, "enabled"), false) is Some
        &&& uint_entry(field(t, "port"), u16::MAX as nat, 25575) is Some
        &&& text_field(t, "password", "") is Some
        &&& bool_entry(field(t, "randomize_password"), true) is Some
        &&& bool_entry(field(t, "send_proxy_v2"), false) is Some
    }

    pub open spec fn doc_spec(self, t: Seq<(String, DocValue)>) -> bool {
        &&& Some(self.enabled) == bool_entry(field(t, "enabled"), false)
        &&& Some(self.port as nat) == uint_entry(field(t, "port"), u16::MAX as nat, 25575)
        &&& Some(Some(self.password@)) == text_field(t, "password", "")
        &&& Some(self.randomize_password) == bool_entry(field(t, "randomize_password"), true)
        &&& Some(self.send_proxy_v2) == bool_entry(field(t, "send_proxy_v2"), false)
    }

    pub fn from_doc(t: &DocTable) -> (r: Option<Rcon>)
        ensures
            r is Some <==> Rcon::doc_ok(t@),
            r is Some ==> r->0.doc_spec(t@),
    {
        let enabled = match bool_field(t, "enabled", false) {
            Some(v) => v,
            None => return None,
        };
        let port = match uint_field(t, "port", u16::MAX as u64, 25575) {
            Some(v) => v as u16,
            None => return None,
        };
        let password = match str_field(t, "password", Some("")) {
            Some(Some(v)) => v,
            _ => return None,
        };
        let randomize_password = match bool_field(t, "randomize_password", true) {
            Some(v) => v,
            None => return None,
        };
        let send_proxy_v2 = match bool_field(t, "send_proxy_v2", false) {
            Some(v) => v,
            None => return None,
        };
        Some(Rcon { enabled, port, password, randomize_password, send_proxy_v2 })
    }
}

impl Advanced {
    pub open spec fn doc_ok(t: Seq<(String, DocValue)>) -> bool {
        bool_entry(field(t, "rewrite_server_properties"), true) is Some
    }

    pub open spec fn doc_spec(self, t: Seq<(String, DocValue)>) -> bool {
        Some(self.rewrite_server_properties) == bool_entry(field(t, "rewrite_server_properties"), true)
    }

    pub fn from_doc(t: &DocTable) -> (r: Option<Advanced>)
        ensures
            r is Some <==> Advanced::doc_ok(t@),
            r is Some ==> r->0.doc_spec(t@),
    {
        match bool_field(t, "rewrite_server_properties", true) {
            Some(v) => Some(Advanced { rewrite_server_properties: v }),
            None => None,
        }
    }
}

impl ConfigConfig {
    pub open spec fn doc_ok(t: Seq<(String, DocValue)>) -> bool {
        str_entry(field(t, "version"), None) is Some
    }

    pub open spec fn doc_spec(self, t: Seq<(String, DocValue)>) -> bool {
        Some(opt_view(self.version)) == str_entry(field(t, "version"), None)
    }

    pub fn from_doc(t: &DocTable) -> (r: Option<ConfigConfig>)
        ensures
            r is Some <==> ConfigConfig::doc_ok(t@),
            r is Some ==> r->0.doc_spec(t@),
    {
        match str_field(t, "version", None) {
            Some(v) => Some(ConfigConfig { version: v }),
            None => None,
        }
    }
}


impl JoinKick {
    pub open spec fn doc_ok(t: Seq<(String, DocValue)>) -> bool {
        &&& text_field(t, "starting", KICK_STARTING) is Some
        &&& text_field(t, "stopping", KICK_STOPPING) is Some
    }

    pub open spec fn doc_spec(self, t: Seq<(String, DocValue)>) -> bool {
        &&& Some(Some(self.starting@)) == text_field(t, "starting", KICK_STARTING)
        &&& Some(Some(self.stopping@)) == text_field(t, "stopping", KICK_STOPPING)
    }

    pub fn from_doc(t: &DocTable) -> (r: Option<JoinKick>)
        ensures
            r is Some <==> JoinKick::doc_ok(t@),
            r is Some ==> r->0.doc_spec(t@),
    {
        let starting = match str_field(t, "starting", Some(KICK_STARTING)) {
            Some(Some(v)) => v,
            _ => return None,
        };
        let stopping = match str_field(t, "stopping", Some(KICK_STOPPING)) {
            Some(Some(v)) => v,
            _ => return None,
        };
        Some(JoinKick { starting, stopping })
    }
}

impl JoinHold {
    pub open spec fn doc_ok(t: Seq<(String, DocValue)>) -> bool {
        uint_entry(field(t, "timeout"), u32::MAX as nat, 25) is Some
    }

    pub open spec fn doc_spec(self, t: Seq<(String, DocValue)>) -> bool {
        Some(self.timeout as nat) == uint_entry(field(t, "timeout"), u32::MAX as nat, 25)
    }

    pub fn from_doc(t: &DocTable) -> (r: Option<JoinHold>)
        ensures
            r is Some <==> JoinHold::doc_ok(t@),
            r is Some ==> r->0.doc_spec(t@),
    {
        match uint_field(t, "timeout", u32::MAX as u64, 25) {
            Some(v) => Some(JoinHold { timeout: v as u32 }),
            None => None,
        }
    }
}

impl JoinForward {
    pub open spec fn doc_ok(t: Seq<(String, DocValue)>, hosts: Seq<(String, IpAddress)>) -> bool {
        &&& address_entry(field(t, "address"), hosts, v4(127, 0, 0, 1, 25565)) is Some
        &&& bool_entry(field(t, "send_proxy_v2"), false) is Some
    }

    pub open spec fn doc_spec(self, t: Seq<(String, DocValue)>, hosts: Seq<(String, IpAddress)>) -> bool {
        &&& Some(self.address) == address_entry(field(t, "address"), hosts, v4(127, 0, 0, 1, 25565))
        &&& Some(self.send_proxy_v2) == bool_entry(field(t, "send_proxy_v2"), false)
    }

    pub fn from_doc(t: &DocTable, hosts: &HostTable) -> (r: Option<JoinForward>)
        ensures
            r is Some <==> JoinForward::doc_ok(t@, hosts.entries@),
            r is Some ==> r->0.doc_spec(t@, hosts.entries@),
    {
        let address = match address_field(t, "address", hosts, SocketAddress { ip: IpAddress::V4(127, 0, 0, 1), port: 25565 }) {
            Some(a) => a,
            None => return None,
        };
        let send_proxy_v2 = match bool_field(t, "send_proxy_v2", false) {
            Some(v) => v,
            None => return None,
        };
        Some(JoinForward { address, send_proxy_v2 })
    }
}

impl JoinLobby {
    pub open spec fn doc_ok(t: Seq<(String, DocValue)>) -> bool {
        &&& uint_entry(field(t, "timeout"), u32::MAX as nat, 600) is Some
        &&& text_field(t, "message", LOBBY_MESSAGE) is Some
        &&& text_field(t, "ready_sound", LOBBY_READY_SOUND) is Some
    }

    pub open spec fn doc_spec(self, t: Seq<(String, DocValue)>) -> bool {
        &&& Some(self.timeout as nat) == uint_entry(field(t, "timeout"), u32::MAX as nat, 600)
        &&& Some(Some(self.message@)) == text_field(t, "message", LOBBY_MESSAGE)
        &&& Some(opt_view(self.ready_sound)) == text_field(t, "ready_sound", LOBBY_READY_SOUND)
    }

    pub fn from_doc(t: &DocTable) -> (r: Option<JoinLobby>)
        ensures
            r is Some <==> JoinLobby::doc_ok(t@),
            r is Some ==> r->0.doc_spec(t@),
    {
        let timeout = match uint_field(t, "timeout", u32::MAX as u64, 600) {
            Some(v) => v as u32,
            None => return None,
        };
        let message = match str_field(t, "message", Some(LOBBY_MESSAGE)) {
            Some(Some(v)) => v,
            _ => return None,
        };
        let ready_sound = match str_field(t, "ready_sound", Some(LOBBY_READY_SOUND)) {
            Some(v) => v,
            None => return None,
        };
        Some(JoinLobby { timeout, message, ready_sound })
    }
}

/// Whether a sub-table is absent or valid by `ok`.
pub open spec fn sub_ok(t: Seq<(String, DocValue)>, key: &str, ok: spec_fn(Seq<(String, DocValue)>) -> bool) -> bool {
    match table_entry(field(t, key)) {
        Some(None) => true,
        Some(Some(s)) => ok(s@),
        None => false,
    }
}

/// Whether a section value is its default where its sub-table is absent,
/// and is read by `matches` from the sub-table where it is present.
pub open spec fn sub_spec(t: Seq<(String, DocValue)>, key: &str, is_default: bool, matches: spec_fn(Seq<(String, DocValue)>) -> bool) -> bool {
    match table_entry(field(t, key)) {
        Some(None) => is_default,
        Some(Some(s)) => matches(s@),
        None => false,
    }
}

impl Join {
    pub open spec fn doc_ok(t: Seq<(String, DocValue)>, hosts: Seq<(String, IpAddress)>) -> bool {
        &&& methods_entry(field(t, "methods")) is Some
        &&& sub_ok(t, "kick", |s| JoinKick::doc_ok(s))
        &&& sub_ok(t, "hold", |s| JoinHold::doc_ok(s))
        &&& sub_ok(t, "forward", |s| JoinForward::doc_ok(s, hosts))
        &&& sub_ok(t, "lobby", |s| JoinLobby::doc_ok(s))
    }

    pub open spec fn doc_spec(self, t: Seq<(String, DocValue)>, hosts: Seq<(String, IpAddress)>) -> bool {
        &&& Some(self.methods@) == methods_entry(field(t, "methods"))
        &&& sub_spec(t, "kick", self.kick.is_default(), |s| self.kick.doc_spec(s))
        &&& sub_spec(t, "hold", self.hold.is_default(), |s| self.hold.doc_spec(s))
        &&& sub_spec(t, "forward", self.forward.is_default(), |s| self.forward.doc_spec(s, hosts))
        &&& sub_spec(t, "lobby", self.lobby.is_default(), |s| self.lobby.doc_spec(s))
    }

    pub fn from_doc(t: &DocTable, hosts: &HostTable) -> (r: Option<Join>)
        ensures
            r is Some <==> Join::doc_ok(t@, hosts.entries@),
            r is Some ==> r->0.doc_spec(t@, hosts.entries@),
    {
        let methods = match methods_field(t, "methods") {
            Some(m) => m,
            None => return None,
        };
        let kick = match table_field(t, "kick") {
            Some(None) => JoinKick::default(),
            Some(Some(s)) => match JoinKick::from_doc(s) {
                Some(k) => k,
                None => return None,
            },
            None => return None,
        };
        let hold = match table_field(t, "hold") {
            Some(None) => JoinHold::default(),
            Some(Some(s)) => match JoinHold::from_doc(s) {
                Some(k) => k,
                None => return None,
            },
            None => return None,
        };
        let forward = match table_field(t, "forward") {
            Some(None) => JoinForward::default(),
            Some(Some(s)) => match JoinForward::from_doc(s, hosts) {
                Some(k) => k,
                None => return None,
            },
            None => return None,
        };
        let lobby = match table_field(t, "lobby") {
            Some(None) => JoinLobby::default(),
            Some(Some(s)) => match JoinLobby::from_doc(s) {
                Some(k) => k,
                None => return None,
            },
            None => return None,
        };
        Some(Join { methods, kick, hold, forward, lobby })
    }
}

} // verus!
