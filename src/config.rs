//! The configuration tree and its two loaders: from a document, or from
//! the environment.

use vstd::prelude::*;
use crate::address::{HostTable, IpAddress, host_to_resolve, lookup_host};
use crate::scalar::views;
use crate::doc::{
    DocValue, address_entry, address_field, bool_entry, bool_field, find, parse_document,
    str_entry, str_field, table_entry, table_field, toml_document, uint_entry, uint_field,
};
use crate::env::{Environment, opt_view};
use crate::file_source::{DocTable, field, sub_ok, sub_spec};
use crate::join::Join;
use crate::sections::{Advanced, ConfigConfig, Lockout, Motd, Public, Rcon, Server, Time, v4};

verus! {

/// A configuration section.
#[derive(Clone, Copy, Debug, PartialEq, Eq, Structural)]
pub enum Section {
    Public,
    Server,
    Time,
    Motd,
    Join,
    Lockout,
    Rcon,
    Advanced,
    Config,
}

/// Why no configuration could be built.
#[derive(Debug)]
pub enum ConfigError {
    /// `LAZYMC_SERVER_COMMAND` is unset or empty.
    MissingCommand,
    /// The document text is not valid; the parser's message.
    Syntax(String),
    /// The document has no `server` section.
    MissingServer,
    /// The `server` section has no `command`.
    MissingServerCommand,
    /// A section, or one of its fields, holds a value of the wrong kind or
    /// range, an unknown join method or an address that does not resolve.
    Invalid(Section),
}

impl Server {
    pub open spec fn doc_ok(t: Seq<(String, DocValue)>, hosts: Seq<(String, IpAddress)>) -> bool {
        &&& str_entry(field(t, "directory"), Some("."@)) is Some
        &&& address_entry(field(t, "address"), hosts, v4(127, 0, 0, 1, 25566)) is Some
        &&& bool_entry(field(t, "freeze_process"), true) is Some
        &&& bool_entry(field(t, "wake_on_start"), false) is Some
        &&& bool_entry(field(t, "wake_on_crash"), false) is Some
        &&& bool_entry(field(t, "probe_on_start"), false) is Some
        &&& bool_entry(field(t, "forge"), false) is Some
        &&& uint_entry(field(t, "start_timeout"), u32::MAX as nat, 300) is Some
        &&& uint_entry(field(t, "stop_timeout"), u32::MAX as nat, 150) is Some
        &&& bool_entry(field(t, "wake_whitelist"), true) is Some
        &&& bool_entry(field(t, "block_banned_ips"), true) is Some
        &&& bool_entry(field(t, "drop_banned_ips"), false) is Some
        &&& bool_entry(field(t, "send_proxy_v2"), false) is Some
    }

    pub open spec fn doc_spec(self, t: Seq<(String, DocValue)>, hosts: Seq<(String, IpAddress)>) -> bool {
        &&& Some(opt_view(self.directory)) == str_entry(field(t, "directory"), Some("."@))
        &&& field(t, "command") == Some(DocValue::Str(self.command))
        &&& Some(self.address) == address_entry(field(t, "address"), hosts, v4(127, 0, 0, 1, 25566))
        &&& Some(self.freeze_process) == bool_entry(field(t, "freeze_process"), true)
        &&& Some(self.wake_on_start) == bool_entry(field(t, "wake_on_start"), false)
        &&& Some(self.wake_on_crash) == bool_entry(field(t, "wake_on_crash"), false)
        &&& Some(self.probe_on_start) == bool_entry(field(t, "probe_on_start"), false)
        &&& Some(self.forge) == bool_entry(field(t, "forge"), false)
        &&& Some(self.start_timeout as nat) == uint_entry(field(t, "start_timeout"), u32::MAX as nat, 300)
        &&& Some(self.stop_timeout as nat) == uint_entry(field(t, "stop_timeout"), u32::MAX as nat, 150)
        &&& Some(self.wake_whitelist) == bool_entry(field(t, "wake_whitelist"), true)
        &&& Some(self.block_banned_ips) == bool_entry(field(t, "block_banned_ips"), true)
        &&& Some(self.drop_banned_ips) == bool_entry(field(t, "drop_banned_ips"), false)
        &&& Some(self.send_proxy_v2) == bool_entry(field(t, "send_proxy_v2"), false)
    }

    /// Reads the `server` section; `command` is required.
    pub fn from_doc(t: &DocTable, hosts: &HostTable) -> (r: Result<Server, ConfigError>)
        ensures
            field(t@, "command") is None ==> r matches Err(ConfigError::MissingServerCommand),
            field(t@, "command") matches Some(DocValue::Str(_)) && Server::doc_ok(t@, hosts.entries@) ==> r is Ok
                && r->Ok_0.doc_spec(t@, hosts.entries@),
            field(t@, "command") is Some && !(field(t@, "command") matches Some(DocValue::Str(_)) && Server::doc_ok(t@, hosts.entries@))
                ==> r matches Err(ConfigError::Invalid(Section::Server)),
    {
        let invalid = ConfigError::Invalid(Section::Server);
        let command = match find(t, "command") {
            None => return Err(ConfigError::MissingServerCommand),
            Some(DocValue::Str(c)) => c.clone(),
            Some(_) => return Err(invalid),
        };
        let directory = match str_field(t, "directory", Some(".")) {
            Some(d) => d,
            None => return Err(invalid),
        };
        let address = match address_field(t, "address", hosts, crate::sections::server_address_default()) {
            Some(a) => a,
            None => return Err(invalid),
        };
        let freeze_process = match bool_field(t, "freeze_process", true) { Some(v) => v, None => return Err(invalid) };
        let wake_on_start = match bool_field(t, "wake_on_start", false) { Some(v) => v, None => return Err(invalid) };
        let wake_on_crash = match bool_field(t, "wake_on_crash", false) { Some(v) => v, None => return Err(invalid) };
        let probe_on_start = match bool_field(t, "probe_on_start", false) { Some(v) => v, None => return Err(invalid) };
        let forge = match bool_field(t, "forge", false) { Some(v) => v, None => return Err(invalid) };
        let start_timeout = match uint_field(t, "start_timeout", u32::MAX as u64, 300) { Some(v) => v as u32, None => return Err(invalid) };
        let stop_timeout = match uint_field(t, "stop_timeout", u32::MAX as u64, 150) { Some(v) => v as u32, None => return Err(invalid) };
        let wake_whitelist = match bool_field(t, "wake_whitelist", true) { Some(v) => v, None => return Err(invalid) };
        let block_banned_ips = match bool_field(t, "block_banned_ips", true) { Some(v) => v, None => return Err(invalid) };
        let drop_banned_ips = match bool_field(t, "drop_banned_ips", false) { Some(v) => v, None => return Err(invalid) };
        let send_proxy_v2 = match bool_field(t, "send_proxy_v2", false) { Some(v) => v, None => return Err(invalid) };
        Ok(Server {
            directory,
            command,
            address,
            freeze_process,
            wake_on_start,
            wake_on_crash,
            probe_on_start,
            forge,
            start_timeout,
            stop_timeout,
            wake_whitelist,
            block_banned_ips,
            drop_banned_ips,
            send_proxy_v2,
        })
    }
}


pub uninterp spec fn path_parent(p: Seq<char>) -> Option<Seq<char>>;

/// Relies on `std::path::Path::parent`: the path without its last
/// component, or `None` for a root or an empty path.
#[verifier::external_body]
fn parent_dir(p: &str) -> (r: Option<String>)
    ensures
        opt_view(r) == path_parent(p@),
{
    std::path::Path::new(p).parent().map(|d| d.to_string_lossy().into_owned())
}

pub uninterp spec fn path_join(base: Seq<char>, rel: Seq<char>) -> Seq<char>;

/// Relies on `std::path::Path::join`: `rel` taken relative to `base`.
#[verifier::external_body]
fn join_path(base: &str, rel: &str) -> (r: String)
    ensures
        r@ == path_join(base@, rel@),
{
    std::path::Path::new(base).join(rel).to_string_lossy().into_owned()
}

pub const COMMAND_VAR: &'static str = "LAZYMC_SERVER_COMMAND";

/// The whole configuration.
pub struct Config {
    /// The file the configuration was read from, if any: the base of
    /// relative paths.
    pub path: Option<String>,
    pub public: Public,
    pub server: Server,
    pub time: Time,
    pub motd: Motd,
    pub join: Join,
    pub lockout: Lockout,
    pub rcon: Rcon,
    pub advanced: Advanced,
    pub config: ConfigConfig,
}

/// Whether the `server` entry of a document is a table with a text
/// `command` whose other fields are valid.
pub open spec fn server_ok(doc: Seq<(String, DocValue)>, hosts: Seq<(String, IpAddress)>) -> bool {
    match table_entry(field(doc, "server")) {
        Some(Some(s)) => field(s@, "command") matches Some(DocValue::Str(_)) && Server::doc_ok(s@, hosts),
        _ => false,
    }
}

impl Config {
    /// Whether a section of a document is absent or valid (the server
    /// section must be present).
    pub open spec fn section_ok(doc: Seq<(String, DocValue)>, section: Section, hosts: Seq<(String, IpAddress)>) -> bool {
        match section {
            Section::Public => sub_ok(doc, "public", |s| Public::doc_ok(s, hosts)),
            Section::Server => server_ok(doc, hosts),
            Section::Time => sub_ok(doc, "time", |s| Time::doc_ok(s)),
            Section::Motd => sub_ok(doc, "motd", |s| Motd::doc_ok(s)),
            Section::Join => sub_ok(doc, "join", |s| Join::doc_ok(s, hosts)),
            Section::Lockout => sub_ok(doc, "lockout", |s| Lockout::doc_ok(s)),
            Section::Rcon => sub_ok(doc, "rcon", |s| Rcon::doc_ok(s)),
            Section::Advanced => sub_ok(doc, "advanced", |s| Advanced::doc_ok(s)),
            Section::Config => sub_ok(doc, "config", |s| ConfigConfig::doc_ok(s)),
        }
    }

    pub open spec fn doc_ok(doc: Seq<(String, DocValue)>, hosts: Seq<(String, IpAddress)>) -> bool {
        forall|sec: Section| Config::section_ok(doc, sec, hosts)
    }

    /// Whether `self` is what the document gives: each section read from
    /// its table, or its default where the table is absent.
    pub open spec fn doc_spec(self, doc: Seq<(String, DocValue)>, path: Option<Seq<char>>, hosts: Seq<(String, IpAddress)>) -> bool {
        &&& opt_view(self.path) == path
        &&& sub_spec(doc, "public", self.public.is_default(), |s| self.public.doc_spec(s, hosts))
        &&& sub_spec(doc, "server", false, |s| self.server.doc_spec(s, hosts))
        &&& sub_spec(doc, "time", self.time.is_default(), |s| self.time.doc_spec(s))
        &&& sub_spec(doc, "motd", self.motd.is_default(), |s| self.motd.doc_spec(s))
        &&& sub_spec(doc, "join", self.join.is_default(), |s| self.join.doc_spec(s, hosts))
        &&& sub_spec(doc, "lockout", self.lockout.is_default(), |s| self.lockout.doc_spec(s))
        &&& sub_spec(doc, "rcon", self.rcon.is_default(), |s| self.rcon.doc_spec(s))
        &&& sub_spec(doc, "advanced", self.advanced.is_default(), |s| self.advanced.doc_spec(s))
        &&& sub_spec(doc, "config", self.config.is_default(), |s| self.config.doc_spec(s))
    }

    /// What reading a document yields: the configuration it describes when
    /// every section is valid, else an error that names a real fault.
    pub open spec fn document_result(
        doc: Seq<(String, DocValue)>,
        path: Option<Seq<char>>,
        hosts: Seq<(String, IpAddress)>,
        r: Result<Config, ConfigError>,
    ) -> bool {
        &&& r is Ok <==> Config::doc_ok(doc, hosts)
        &&& r is Ok ==> r->Ok_0.doc_spec(doc, path, hosts)
        &&& r is Err ==> match r->Err_0 {
            ConfigError::MissingServer => table_entry(field(doc, "server")) == Some(None::<Vec<(String, DocValue)>>),
            ConfigError::MissingServerCommand => table_entry(field(doc, "server")) matches Some(Some(s))
                && field(s@, "command") is None,
            ConfigError::Invalid(sec) => !Config::section_ok(doc, sec, hosts),
            _ => false,
        }
    }

    /// Builds the configuration from a parsed document.
    pub fn from_document(doc: &DocTable, path: Option<String>, hosts: &HostTable) -> (r: Result<Config, ConfigError>)
        ensures
            Config::document_result(doc@, opt_view(path), hosts.entries@, r),
    {
        let public = match table_field(doc, "public") {
            Some(None) => Public::default(),
            Some(Some(s)) => match Public::from_doc(s, hosts) {
                Some(v) => v,
                None => {
                assert(!Config::section_ok(doc@, Section::Public, hosts.entries@));
                return Err(ConfigError::Invalid(Section::Public));
            },
            },
            None => {
                assert(!Config::section_ok(doc@, Section::Public, hosts.entries@));
                return Err(ConfigError::Invalid(Section::Public));
            },
        };
        let server = match table_field(doc, "server") {
            Some(None) => {
                assert(!Config::section_ok(doc@, Section::Server, hosts.entries@));
                return Err(ConfigError::MissingServer);
            },
            Some(Some(s)) => match Server::from_doc(s, hosts) {
                Ok(v) => v,
                Err(e) => {
                    assert(!Config::section_ok(doc@, Section::Server, hosts.entries@));
                    return Err(e);
                },
            },
            None => {
                assert(!Config::section_ok(doc@, Section::Server, hosts.entries@));
                return Err(ConfigError::Invalid(Section::Server));
            },
        };
        let time = match table_field(doc, "time") {
            Some(None) => Time::default(),
            Some(Some(s)) => match Time::from_doc(s) {
                Some(v) => v,
                None => {
                assert(!Config::section_ok(doc@, Section::Time, hosts.entries@));
                return Err(ConfigError::Invalid(Section::Time));
            },
            },
            None => {
                assert(!Config::section_ok(doc@, Section::Time, hosts.entries@));
                return Err(ConfigError::Invalid(Section::Time));
            },
        };
        let motd = match table_field(doc, "motd") {
            Some(None) => Motd::default(),
            Some(Some(s)) => match Motd::from_doc(s) {
                Some(v) => v,
                None => {
                assert(!Config::section_ok(doc@, Section::Motd, hosts.entries@));
                return Err(ConfigError::Invalid(Section::Motd));
            },
            },
            None => {
                assert(!Config::section_ok(doc@, Section::Motd, hosts.entries@));
                return Err(ConfigError::Invalid(Section::Motd));
            },
        };
        let join = match table_field(doc, "join") {
            Some(None) => Join::default(),
            Some(Some(s)) => match Join::from_doc(s, hosts) {
                Some(v) => v,
                None => {
                assert(!Config::section_ok(doc@, Section::Join, hosts.entries@));
                return Err(ConfigError::Invalid(Section::Join));
            },
            },
            None => {
                assert(!Config::section_ok(doc@, Section::Join, hosts.entries@));
                return Err(ConfigError::Invalid(Section::Join));
            },
        };
        let lockout = match table_field(doc, "lockout") {
            Some(None) => Lockout::default(),
            Some(Some(s)) => match Lockout::from_doc(s) {
                Some(v) => v,
                None => {
                assert(!Config::section_ok(doc@, Section::Lockout, hosts.entries@));
                return Err(ConfigError::Invalid(Section::Lockout));
            },
            },
            None => {
                assert(!Config::section_ok(doc@, Section::Lockout, hosts.entries@));
                return Err(ConfigError::Invalid(Section::Lockout));
            },
        };
        let rcon = match table_field(doc, "rcon") {
            Some(None) => Rcon::default(),
            Some(Some(s)) => match Rcon::from_doc(s) {
                Some(v) => v,
                None => {
                assert(!Config::section_ok(doc@, Section::Rcon, hosts.entries@));
                return Err(ConfigError::Invalid(Section::Rcon));
            },
            },
            None => {
                assert(!Config::section_ok(doc@, Section::Rcon, hosts.entries@));
                return Err(ConfigError::Invalid(Section::Rcon));
            },
        };
        let advanced = match table_field(doc, "advanced") {
            Some(None) => Advanced::default(),
            Some(Some(s)) => match Advanced::from_doc(s) {
                Some(v) => v,
                None => {
                assert(!Config::section_ok(doc@, Section::Advanced, hosts.entries@));
                return Err(ConfigError::Invalid(Section::Advanced));
            },
            },
            None => {
                assert(!Config::section_ok(doc@, Section::Advanced, hosts.entries@));
                return Err(ConfigError::Invalid(Section::Advanced));
            },
        };
        let config = match table_field(doc, "config") {
            Some(None) => ConfigConfig::default(),
            Some(Some(s)) => match ConfigConfig::from_doc(s) {
                Some(v) => v,
                None => {
                assert(!Config::section_ok(doc@, Section::Config, hosts.entries@));
                return Err(ConfigError::Invalid(Section::Config));
            },
            },
            None => {
                assert(!Config::section_ok(doc@, Section::Config, hosts.entries@));
                return Err(ConfigError::Invalid(Section::Config));
            },
        };
        let r = Config { path, public, server, time, motd, join, lockout, rcon, advanced, config };
        assert(Config::doc_ok(doc@, hosts.entries@)) by {
            assert forall|sec: Section| Config::section_ok(doc@, sec, hosts.entries@) by {}
        }
        Ok(r)
    }
}

impl Config {
    /// Reads a configuration document's text; `path` is the file it came
    /// from.
    pub fn load_from_text(text: &str, path: Option<String>, hosts: &HostTable) -> (r: Result<Config, ConfigError>)
        ensures
            match toml_document(text@) {
                Err(m) => r matches Err(ConfigError::Syntax(x)) && x@ == m@,
                Ok(doc) => Config::document_result(doc@, opt_view(path), hosts.entries@, r),
            },
    {
        match parse_document(text) {
            Err(m) => Err(ConfigError::Syntax(m)),
            Ok(doc) => Config::from_document(&doc, path, hosts),
        }
    }

    /// Whether `self` is what the environment gives, with `command` as
    /// the start command.
    pub open spec fn env_spec(self, env: &Environment, command: Seq<char>) -> bool {
        &&& self.path is None
        &&& self.public.env_spec(env)
        &&& self.server.env_spec(env, command)
        &&& self.time.env_spec(env)
        &&& self.motd.env_spec(env)
        &&& self.join.env_spec(env)
        &&& self.lockout.env_spec(env)
        &&& self.rcon.env_spec(env)
        &&& self.advanced.env_spec(env)
        &&& self.config.env_spec(env)
    }

    /// Builds the configuration from the environment; the start command
    /// variable must be set and not empty.
    pub fn load_from_env(env: &Environment) -> (r: Result<Config, ConfigError>)
        ensures
            r is Ok <==> (env.var(COMMAND_VAR@) matches Some(c) && c.len() > 0),
            r is Ok ==> r->Ok_0.env_spec(env, env.var(COMMAND_VAR@)->0),
            r is Err ==> r->Err_0 is MissingCommand,
    {
        let command = match env.get(COMMAND_VAR) {
            Some(c) => c,
            None => return Err(ConfigError::MissingCommand),
        };
        if command.unicode_len() == 0 {
            return Err(ConfigError::MissingCommand);
        }
        Ok(Config {
            path: None,
            public: Public::from_env(env),
            server: Server::from_env(env, command),
            time: Time::from_env(env),
            motd: Motd::from_env(env),
            join: Join::from_env(env),
            lockout: Lockout::from_env(env),
            rcon: Rcon::from_env(env),
            advanced: Advanced::from_env(env),
            config: ConfigConfig::from_env(env),
        })
    }

    /// The server directory: relative to the configuration file's
    /// directory where the file is known.
    pub open spec fn directory_spec(self) -> Option<Seq<char>> {
        match self.path {
            Some(p) => match path_parent(p@) {
                Some(d) => match self.server.directory {
                    Some(x) => Some(path_join(d, x@)),
                    None => None,
                },
                None => opt_view(self.server.directory),
            },
            None => opt_view(self.server.directory),
        }
    }
}

impl Server {
    /// The server directory, relative to the configuration file's
    /// directory where the file is known. Whether it exists is not checked.
    pub fn server_directory(config: &Config) -> (r: Option<String>)
        ensures
            opt_view(r) == config.directory_spec(),
    {
        let parent = match &config.path {
            Some(p) => parent_dir(p.as_str()),
            None => None,
        };
        match parent {
            Some(d) => match &config.server.directory {
                Some(x) => Some(join_path(d.as_str(), x.as_str())),
                None => None,
            },
            None => match &config.server.directory {
                Some(x) => Some(x.clone()),
                None => None,
            },
        }
    }
}

/// The value under `key` in the table `section` of a document.
pub open spec fn section_field(doc: Seq<(String, DocValue)>, section: &str, key: &str) -> Option<DocValue> {
    match table_entry(field(doc, section)) {
        Some(Some(t)) => field(t@, key),
        _ => None,
    }
}

/// The host to look up for an address entry, as a list of zero or one.
pub open spec fn entry_host(e: Option<DocValue>) -> Seq<Seq<char>> {
    match e {
        Some(DocValue::Str(s)) => match lookup_host(s@) {
            Some(h) => seq![h],
            None => Seq::empty(),
        },
        _ => Seq::empty(),
    }
}

/// The hosts that the address fields of a document name and that need a
/// lookup: public, server, then join forward.
pub open spec fn document_hosts_spec(doc: Seq<(String, DocValue)>) -> Seq<Seq<char>> {
    let forward = match table_entry(section_field(doc, "join", "forward")) {
        Some(Some(t)) => field(t@, "address"),
        _ => None,
    };
    entry_host(section_field(doc, "public", "address")) + entry_host(section_field(doc, "server", "address"))
        + entry_host(forward)
}

fn push_entry_host(out: &mut Vec<String>, e: Option<&DocValue>)
    ensures
        views(final(out)@) == views(old(out)@) + entry_host(match e {
            Some(v) => Some(*v),
            None => None,
        }),
{
    match e {
        Some(DocValue::Str(s)) => match host_to_resolve(s.as_str()) {
            Some(h) => {
                let ghost before = out@;
                out.push(h);
                assert(views(out@) =~= views(before) + seq![h@]);
            },
            None => {
                assert(views(out@) =~= views(out@) + Seq::<Seq<char>>::empty());
            },
        },
        _ => {
            assert(views(out@) =~= views(out@) + Seq::<Seq<char>>::empty());
        },
    }
}

fn section_find<'a>(doc: &'a DocTable, section: &str, key: &str) -> (r: Option<&'a DocValue>)
    ensures
        match r {
            Some(v) => section_field(doc@, section, key) == Some(*v),
            None => section_field(doc@, section, key) is None,
        },
{
    match table_field(doc, section) {
        Some(Some(t)) => find(t, key),
        _ => None,
    }
}

/// The hosts of a document's address fields that a system lookup must
/// resolve before the document is read; none if the text does not parse.
pub fn document_hosts(text: &str) -> (r: Vec<String>)
    ensures
        match toml_document(text@) {
            Ok(doc) => views(r@) == document_hosts_spec(doc@),
            Err(_) => r@.len() == 0,
        },
{
    let doc = match parse_document(text) {
        Ok(d) => d,
        Err(_) => return Vec::new(),
    };
    let mut out: Vec<String> = Vec::new();
    push_entry_host(&mut out, section_find(&doc, "public", "address"));
    push_entry_host(&mut out, section_find(&doc, "server", "address"));
    let forward = match section_find(&doc, "join", "forward") {
        Some(DocValue::Table(t)) => find(t, "address"),
        _ => None,
    };
    push_entry_host(&mut out, forward);
    assert(views(out@) =~= document_hosts_spec(doc@));
    out
}

} // verus!
