//! The configuration sections, each with its defaults and its builder
//! from the environment.

use vstd::prelude::*;
use crate::text::owned;
use crate::address::{IpAddress, SocketAddress};
use crate::env::{Environment, address_value, bool_value, opt_view, text_value, unsigned_value};

verus! {

/// Protocol version name advertised before the server is awake.
pub const PROTO_DEFAULT_VERSION: &'static str = "1.20.3";

/// Protocol version number advertised before the server is awake.
pub const PROTO_DEFAULT_PROTOCOL: u32 = 765;

pub open spec fn v4(a: u8, b: u8, c: u8, d: u8, port: u16) -> SocketAddress {
    SocketAddress { ip: IpAddress::V4(a, b, c, d), port }
}

/// Default backend server directory: the current one.
pub fn option_pathbuf_dot() -> (r: Option<String>)
    ensures
        opt_view(r) == Some("."@),
{
    Some(owned("."))
}

/// Default backend server address, `127.0.0.1:25566`.
pub fn server_address_default() -> (r: SocketAddress)
    ensures
        r == v4(127, 0, 0, 1, 25566),
{
    SocketAddress { ip: IpAddress::V4(127, 0, 0, 1), port: 25566 }
}

/// Default start timeout in seconds.
pub fn u32_300() -> (r: u32)
    ensures
        r == 300,
{
    300
}

/// Default stop timeout in seconds.
pub fn u32_150() -> (r: u32)
    ensures
        r == 150,
{
    150
}

/// Default of the flags that are on unless disabled.
pub fn bool_true() -> (r: bool)
    ensures
        r,
{
    true
}

/// Public-facing hints.
pub struct Public {
    pub address: SocketAddress,
    pub version: String,
    pub protocol: u32,
}

impl Public {
    pub open spec fn env_spec(self, env: &Environment) -> bool {
        &&& self.address == address_value(env.var("LAZYMC_PUBLIC_ADDRESS"@), env.hosts.entries@, v4(0, 0, 0, 0, 25565))
        &&& Some(self.version@) == text_value(env.var("LAZYMC_PUBLIC_VERSION"@), Some(PROTO_DEFAULT_VERSION@))
        &&& self.protocol as nat == unsigned_value(env.var("LAZYMC_PUBLIC_PROTOCOL"@), u32::MAX as nat, PROTO_DEFAULT_PROTOCOL as nat)
    }

    pub fn from_env(env: &Environment) -> (r: Public)
        ensures
            r.env_spec(env),
    {
        Public {
            address: env.address("LAZYMC_PUBLIC_ADDRESS", SocketAddress { ip: IpAddress::V4(0, 0, 0, 0), port: 25565 }),
            version: env.text("LAZYMC_PUBLIC_VERSION", PROTO_DEFAULT_VERSION),
            protocol: env.u32_value("LAZYMC_PUBLIC_PROTOCOL", PROTO_DEFAULT_PROTOCOL),
        }
    }
}

impl Public {
    pub open spec fn is_default(self) -> bool {
        &&& self.address == v4(0, 0, 0, 0, 25565)
        &&& self.version@ == PROTO_DEFAULT_VERSION@
        &&& self.protocol == PROTO_DEFAULT_PROTOCOL
    }
}

impl Default for Public {
    fn default() -> (r: Public)
        ensures
            r.is_default(),
    {
        Public {
            address: SocketAddress { ip: IpAddress::V4(0, 0, 0, 0), port: 25565 },
            version: owned(PROTO_DEFAULT_VERSION),
            protocol: PROTO_DEFAULT_PROTOCOL,
        }
    }
}

/// Backend server process settings.
pub struct Server {
    /// Working directory as written; resolve it with `server_directory`.
    pub directory: Option<String>,
    pub command: String,
    pub address: SocketAddress,
    pub freeze_process: bool,
    pub wake_on_start: bool,
    pub wake_on_crash: bool,
    pub probe_on_start: bool,
    pub forge: bool,
    pub start_timeout: u32,
    pub stop_timeout: u32,
    pub wake_whitelist: bool,
    pub block_banned_ips: bool,
    pub drop_banned_ips: bool,
    pub send_proxy_v2: bool,
}

impl Server {
    pub open spec fn env_spec(self, env: &Environment, command: Seq<char>) -> bool {
        &&& opt_view(self.directory) == text_value(env.var("LAZYMC_SERVER_DIRECTORY"@), Some("."@))
        &&& self.command@ == command
        &&& self.address == address_value(env.var("LAZYMC_SERVER_ADDRESS"@), env.hosts.entries@, v4(127, 0, 0, 1, 25566))
        &&& self.freeze_process == bool_value(env.var("LAZYMC_SERVER_FREEZE_PROCESS"@), true)
        &&& self.wake_on_start == bool_value(env.var("LAZYMC_SERVER_WAKE_ON_START"@), false)
        &&& self.wake_on_crash == bool_value(env.var("LAZYMC_SERVER_WAKE_ON_CRASH"@), false)
        &&& self.probe_on_start == bool_value(env.var("LAZYMC_SERVER_PROBE_ON_START"@), false)
        &&& self.forge == bool_value(env.var("LAZYMC_SERVER_FORGE"@), false)
        &&& self.start_timeout as nat == unsigned_value(env.var("LAZYMC_SERVER_START_TIMEOUT"@), u32::MAX as nat, 300)
        &&& self.stop_timeout as nat == unsigned_value(env.var("LAZYMC_SERVER_STOP_TIMEOUT"@), u32::MAX as nat, 150)
        &&& self.wake_whitelist == bool_value(env.var("LAZYMC_SERVER_WAKE_WHITELIST"@), true)
        &&& self.block_banned_ips == bool_value(env.var("LAZYMC_SERVER_BLOCK_BANNED_IPS"@), true)
        &&& self.drop_banned_ips == bool_value(env.var("LAZYMC_SERVER_DROP_BANNED_IPS"@), false)
        &&& self.send_proxy_v2 == bool_value(env.var("LAZYMC_SERVER_SEND_PROXY_V2"@), false)
    }

    pub fn from_env(env: &Environment, command: String) -> (r: Server)
        ensures
            r.env_spec(env, command@),
    {
        Server {
            directory: env.string("LAZYMC_SERVER_DIRECTORY", Some(".")),
            command,
            address: env.address("LAZYMC_SERVER_ADDRESS", server_address_default()),
            freeze_process: env.boolean("LAZYMC_SERVER_FREEZE_PROCESS", bool_true()),
            wake_on_start: env.boolean("LAZYMC_SERVER_WAKE_ON_START", false),
            wake_on_crash: env.boolean("LAZYMC_SERVER_WAKE_ON_CRASH", false),
            probe_on_start: env.boolean("LAZYMC_SERVER_PROBE_ON_START", false),
            forge: env.boolean("LAZYMC_SERVER_FORGE", false),
            start_timeout: env.u32_value("LAZYMC_SERVER_START_TIMEOUT", u32_300()),
            stop_timeout: env.u32_value("LAZYMC_SERVER_STOP_TIMEOUT", u32_150()),
            wake_whitelist: env.boolean("LAZYMC_SERVER_WAKE_WHITELIST", bool_true()),
            block_banned_ips: env.boolean("LAZYMC_SERVER_BLOCK_BANNED_IPS", bool_true()),
            drop_banned_ips: env.boolean("LAZYMC_SERVER_DROP_BANNED_IPS", false),
            send_proxy_v2: env.boolean("LAZYMC_SERVER_SEND_PROXY_V2", false),
        }
    }
}

/// Idle timing.
pub struct Time {
    pub sleep_after: u32,
    pub min_online_time: u32,
}

impl Time {
    pub open spec fn env_spec(self, env: &Environment) -> bool {
        &&& self.sleep_after as nat == unsigned_value(env.var("LAZYMC_TIME_SLEEP_AFTER"@), u32::MAX as nat, 60)
        &&& self.min_online_time as nat == unsigned_value(env.var("LAZYMC_TIME_MIN_ONLINE_TIME"@), u32::MAX as nat, 60)
    }

    pub fn from_env(env: &Environment) -> (r: Time)
        ensures
            r.env_spec(env),
    {
        Time {
            sleep_after: env.u32_value("LAZYMC_TIME_SLEEP_AFTER", 60),
            min_online_time: env.u32_value("LAZYMC_TIME_MIN_ONLINE_TIME", 60),
        }
    }
}

impl Time {
    pub open spec fn is_default(self) -> bool {
        &&& self.sleep_after == 60
        &&& self.min_online_time == 60
    }
}

impl Default for Time {
    fn default() -> (r: Time)
        ensures
            r.is_default(),
    {
        Time { sleep_after: 60, min_online_time: 60 }
    }
}

pub const MOTD_SLEEPING: &'static str = "☠ Server is sleeping\n§2☻ Join to start it up";
pub const MOTD_STARTING: &'static str = "§2☻ Server is starting...\n§7⌛ Please wait...";
pub const MOTD_STOPPING: &'static str = "☠ Server going to sleep...\n⌛ Please wait...";

/// Status messages.
pub struct Motd {
    pub sleeping: String,
    pub starting: String,
    pub stopping: String,
    pub from_server: bool,
}

impl Motd {
    pub open spec fn env_spec(self, env: &Environment) -> bool {
        &&& Some(self.sleeping@) == text_value(env.var("LAZYMC_MOTD_SLEEPING"@), Some(MOTD_SLEEPING@))
        &&& Some(self.starting@) == text_value(env.var("LAZYMC_MOTD_STARTING"@), Some(MOTD_STARTING@))
        &&& Some(self.stopping@) == text_value(env.var("LAZYMC_MOTD_STOPPING"@), Some(MOTD_STOPPING@))
        &&& self.from_server == bool_value(env.var("LAZYMC_MOTD_FROM_SERVER"@), false)
    }

    pub fn from_env(env: &Environment) -> (r: Motd)
        ensures
            r.env_spec(env),
    {
        Motd {
            sleeping: env.text("LAZYMC_MOTD_SLEEPING", MOTD_SLEEPING),
            starting: env.text("LAZYMC_MOTD_STARTING", MOTD_STARTING),
            stopping: env.text("LAZYMC_MOTD_STOPPING", MOTD_STOPPING),
            from_server: env.boolean("LAZYMC_MOTD_FROM_SERVER", false),
        }
    }
}

impl Motd {
    pub open spec fn is_default(self) -> bool {
        &&& self.sleeping@ == MOTD_SLEEPING@
        &&& self.starting@ == MOTD_STARTING@
        &&& self.stopping@ == MOTD_STOPPING@
        &&& !self.from_server
    }
}

impl Default for Motd {
    fn default() -> (r: Motd)
        ensures
            r.is_default(),
    {
        Motd {
            sleeping: owned(MOTD_SLEEPING),
            starting: owned(MOTD_STARTING),
            stopping: owned(MOTD_STOPPING),
            from_server: false,
        }
    }
}

pub const LOCKOUT_MESSAGE: &'static str = "Server is closed §7☠§r\n\nPlease come back another time.";

/// Global lockout.
pub struct Lockout {
    pub enabled: bool,
    pub message: String,
}

impl Lockout {
    pub open spec fn env_spec(self, env: &Environment) -> bool {
        &&& self.enabled == bool_value(env.var("LAZYMC_LOCKOUT_ENABLED"@), false)
        &&& Some(self.message@) == text_value(env.var("LAZYMC_LOCKOUT_MESSAGE"@), Some(LOCKOUT_MESSAGE@))
    }

    pub fn from_env(env: &Environment) -> (r: Lockout)
        ensures
            r.env_spec(env),
    {
        Lockout {
            enabled: env.boolean("LAZYMC_LOCKOUT_ENABLED", false),
            message: env.text("LAZYMC_LOCKOUT_MESSAGE", LOCKOUT_MESSAGE),
        }
    }
}

impl Lockout {
    pub open spec fn is_default(self) -> bool {
        &&& !self.enabled
        &&& self.message@ == LOCKOUT_MESSAGE@
    }
}

impl Default for Lockout {
    fn default() -> (r: Lockout)
        ensures
            r.is_default(),
    {
        Lockout { enabled: false, message: owned(LOCKOUT_MESSAGE) }
    }
}

/// Remote console access.
pub struct Rcon {
    pub enabled: bool,
    pub port: u16,
    pub password: String,
    pub randomize_password: bool,
    pub send_proxy_v2: bool,
}

impl Rcon {
    pub open spec fn env_spec(self, env: &Environment) -> bool {
        &&& self.enabled == bool_value(env.var("LAZYMC_RCON_ENABLED"@), false)
        &&& self.port as nat == unsigned_value(env.var("LAZYMC_RCON_PORT"@), u16::MAX as nat, 25575)
        &&& Some(self.password@) == text_value(env.var("LAZYMC_RCON_PASSWORD"@), Some(""@))
        &&& self.randomize_password == bool_value(env.var("LAZYMC_RCON_RANDOMIZE_PASSWORD"@), true)
        &&& self.send_proxy_v2 == bool_value(env.var("LAZYMC_RCON_SEND_PROXY_V2"@), false)
    }

    pub fn from_env(env: &Environment) -> (r: Rcon)
        ensures
            r.env_spec(env),
    {
        Rcon {
            enabled: env.boolean("LAZYMC_RCON_ENABLED", false),
            port: env.u16_value("LAZYMC_RCON_PORT", 25575),
            password: env.text("LAZYMC_RCON_PASSWORD", ""),
            randomize_password: env.boolean("LAZYMC_RCON_RANDOMIZE_PASSWORD", true),
            send_proxy_v2: env.boolean("LAZYMC_RCON_SEND_PROXY_V2", false),
        }
    }
}

impl Rcon {
    pub open spec fn is_default(self) -> bool {
        &&& !self.enabled
        &&& self.port == 25575
        &&& self.password@ == Seq::<char>::empty()
        &&& self.randomize_password
        &&& !self.send_proxy_v2
    }
}

impl Default for Rcon {
    fn default() -> (r: Rcon)
        ensures
            r.is_default(),
    {
        Rcon { enabled: false, port: 25575, password: String::new(), randomize_password: true, send_proxy_v2: false }
    }
}

/// Advanced toggles.
pub struct Advanced {
    pub rewrite_server_properties: bool,
}

impl Advanced {
    pub open spec fn env_spec(self, env: &Environment) -> bool {
        &&& self.rewrite_server_properties == bool_value(env.var("LAZYMC_ADVANCED_REWRITE_SERVER_PROPERTIES"@), true)
    }

    pub fn from_env(env: &Environment) -> (r: Advanced)
        ensures
            r.env_spec(env),
    {
        Advanced { rewrite_server_properties: env.boolean("LAZYMC_ADVANCED_REWRITE_SERVER_PROPERTIES", true) }
    }
}

impl Advanced {
    pub open spec fn is_default(self) -> bool {
        &&& self.rewrite_server_properties
    }
}

impl Default for Advanced {
    fn default() -> (r: Advanced)
        ensures
            r.is_default(),
    {
        Advanced { rewrite_server_properties: true }
    }
}

/// The configuration format version the file was written for.
pub struct ConfigConfig {
    pub version: Option<String>,
}

impl ConfigConfig {
    pub open spec fn env_spec(self, env: &Environment) -> bool {
        &&& opt_view(self.version) == text_value(env.var("LAZYMC_CONFIG_VERSION"@), None)
    }

    pub fn from_env(env: &Environment) -> (r: ConfigConfig)
        ensures
            r.env_spec(env),
    {
        ConfigConfig { version: env.string("LAZYMC_CONFIG_VERSION", None) }
    }
}

impl ConfigConfig {
    pub open spec fn is_default(self) -> bool {
        &&& self.version is None
    }
}

impl Default for ConfigConfig {
    fn default() -> (r: ConfigConfig)
        ensures
            r.is_default(),
    {
        ConfigConfig { version: None }
    }
}

} // verus!
