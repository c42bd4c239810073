use lazymc_config::address::{parse_address, parse_ipv4, HostTable, IpAddress, SocketAddress};
use lazymc_config::config::{Config, ConfigError, Section};
use lazymc_config::env::Environment;
use lazymc_config::join::Method;
use lazymc_config::scalar::{parse_bool, parse_list, parse_unsigned, split_text};
use lazymc_config::sections::{Server, MOTD_SLEEPING, PROTO_DEFAULT_PROTOCOL, PROTO_DEFAULT_VERSION};
use lazymc_config::text::process_escape_sequences;
use lazymc_config::version::{check_version, status_from, VersionStatus};

fn env_of(pairs: &[(&str, &str)]) -> Environment {
    Environment {
        vars: pairs.iter().map(|(k, v)| (k.to_string(), v.to_string())).collect(),
        hosts: HostTable::new(),
    }
}

fn v4(a: u8, b: u8, c: u8, d: u8, port: u16) -> SocketAddress {
    SocketAddress { ip: IpAddress::V4(a, b, c, d), port }
}

fn command_env(extra: &[(&str, &str)]) -> Environment {
    let mut pairs = vec![("LAZYMC_SERVER_COMMAND", "java -jar server.jar")];
    pairs.extend_from_slice(extra);
    env_of(&pairs)
}

#[test]
fn escapes_decode_newline_and_tab() {
    assert_eq!(process_escape_sequences("a\\nb\\tc"), "a\nb\tc");
}

#[test]
fn escapes_decode_double_backslash_once() {
    assert_eq!(process_escape_sequences("x\\\\y"), "x\\y");
    assert_eq!(process_escape_sequences("\\r"), "\r");
}

#[test]
fn escapes_backslash_last_no_double_substitution() {
    // `\\n`: the `\n` pair is replaced first, the lone backslash stays.
    assert_eq!(process_escape_sequences("\\\\n"), "\\\n");
    assert_eq!(process_escape_sequences("plain"), "plain");
    assert_eq!(process_escape_sequences(""), "");
}

#[test]
fn booleans_accept_synonyms_in_any_case() {
    for w in ["true", "TRUE", "1", "yes", "Yes", "on", "ON"] {
        assert!(parse_bool(w, false), "{}", w);
    }
    for w in ["false", "False", "0", "no", "NO", "off", "oFF"] {
        assert!(!parse_bool(w, true), "{}", w);
    }
    assert!(parse_bool("maybe", true));
    assert!(!parse_bool("maybe", false));
    assert!(!parse_bool("", false));
}

#[test]
fn boolean_fields_read_synonyms_and_default_otherwise() {
    let env = command_env(&[("LAZYMC_SERVER_FORGE", "Yes"), ("LAZYMC_SERVER_FREEZE_PROCESS", "OFF")]);
    let c = Config::load_from_env(&env).unwrap();
    assert!(c.server.forge);
    assert!(!c.server.freeze_process);
    let env = command_env(&[("LAZYMC_SERVER_FORGE", "sure"), ("LAZYMC_SERVER_FREEZE_PROCESS", "nah")]);
    let c = Config::load_from_env(&env).unwrap();
    assert!(!c.server.forge);
    assert!(c.server.freeze_process);
}

#[test]
fn unsigned_parsing() {
    assert_eq!(parse_unsigned("42", u32::MAX as u64), Some(42));
    assert_eq!(parse_unsigned("+7", u32::MAX as u64), Some(7));
    assert_eq!(parse_unsigned("4294967295", u32::MAX as u64), Some(4294967295));
    assert_eq!(parse_unsigned("4294967296", u32::MAX as u64), None);
    assert_eq!(parse_unsigned("-1", u32::MAX as u64), None);
    assert_eq!(parse_unsigned("", u32::MAX as u64), None);
    assert_eq!(parse_unsigned("+", u32::MAX as u64), None);
    assert_eq!(parse_unsigned("12a", u32::MAX as u64), None);
    assert_eq!(parse_unsigned("65536", u16::MAX as u64), None);
}

#[test]
fn malformed_values_take_their_defaults_in_isolation() {
    let env = command_env(&[
        ("LAZYMC_TIME_SLEEP_AFTER", "soon"),
        ("LAZYMC_RCON_PORT", "70000"),
        ("LAZYMC_SERVER_ADDRESS", "nowhere"),
        ("LAZYMC_PUBLIC_ADDRESS", "1.2.3.4:99999"),
        ("LAZYMC_ADVANCED_REWRITE_SERVER_PROPERTIES", "perhaps"),
    ]);
    let c = Config::load_from_env(&env).unwrap();
    assert_eq!(c.time.sleep_after, 60);
    assert_eq!(c.time.min_online_time, 60);
    assert_eq!(c.rcon.port, 25575);
    assert_eq!(c.server.address, v4(127, 0, 0, 1, 25566));
    assert_eq!(c.public.address, v4(0, 0, 0, 0, 25565));
    assert!(c.advanced.rewrite_server_properties);
    assert_eq!(c.server.start_timeout, 300);
    assert_eq!(c.join.hold.timeout, 25);
    assert_eq!(c.join.lobby.timeout, 600);
}

#[test]
fn well_formed_values_are_read() {
    let env = command_env(&[
        ("LAZYMC_TIME_SLEEP_AFTER", "5"),
        ("LAZYMC_RCON_PORT", "25580"),
        ("LAZYMC_SERVER_ADDRESS", "10.0.0.2:25570"),
        ("LAZYMC_MOTD_SLEEPING", "zz\\nzz"),
        ("LAZYMC_CONFIG_VERSION", "0.2.8"),
    ]);
    let c = Config::load_from_env(&env).unwrap();
    assert_eq!(c.time.sleep_after, 5);
    assert_eq!(c.rcon.port, 25580);
    assert_eq!(c.server.address, v4(10, 0, 0, 2, 25570));
    assert_eq!(c.motd.sleeping, "zz\nzz");
    assert_eq!(c.config.version.as_deref(), Some("0.2.8"));
}

#[test]
fn socket_address_default_parses_exactly() {
    let hosts = HostTable::new();
    assert_eq!(parse_address("127.0.0.1:25566", &hosts), Some(v4(127, 0, 0, 1, 25566)));
    assert_eq!(parse_address("0.0.0.0:25565", &hosts), Some(v4(0, 0, 0, 0, 25565)));
}

#[test]
fn hostname_address_resolves_through_table() {
    let hosts = HostTable { entries: vec![("mc.example".to_string(), IpAddress::V4(192, 168, 1, 9))] };
    assert_eq!(parse_address("mc.example:25565", &hosts), Some(v4(192, 168, 1, 9, 25565)));
    assert_eq!(parse_address("other.example:25565", &hosts), None);
    let six = HostTable { entries: vec![("[::1]".to_string(), IpAddress::V6(1))] };
    assert_eq!(parse_address("[::1]:80", &six), Some(SocketAddress { ip: IpAddress::V6(1), port: 80 }));
}

#[test]
fn malformed_addresses_are_rejected() {
    let hosts = HostTable::new();
    assert_eq!(parse_address("127.0.0.1", &hosts), None);
    assert_eq!(parse_address("127.0.0.1:", &hosts), None);
    assert_eq!(parse_address("127.0.0.1:65536", &hosts), None);
    assert_eq!(parse_address("256.0.0.1:1", &hosts), None);
    assert_eq!(parse_ipv4("01.2.3.4"), None);
    assert_eq!(parse_ipv4("1.2.3"), None);
    assert_eq!(parse_ipv4("1.2.3.4.5"), None);
    assert_eq!(parse_ipv4("255.255.255.255"), Some(IpAddress::V4(255, 255, 255, 255)));
}

#[test]
fn lists_split_and_trim() {
    assert_eq!(split_text("a,b,,c", ','), vec!["a", "b", "", "c"]);
    assert_eq!(parse_list(" hold , Kick,lobby "), vec!["hold", "Kick", "lobby"]);
    assert_eq!(parse_list(""), vec![""]);
}

#[test]
fn join_methods_from_env() {
    let env = command_env(&[("LAZYMC_JOIN_METHODS", "lobby, FORWARD ,bogus,kick")]);
    let c = Config::load_from_env(&env).unwrap();
    assert_eq!(c.join.methods, vec![Method::Lobby, Method::Forward, Method::Kick]);
    let env = command_env(&[("LAZYMC_JOIN_METHODS", "")]);
    let c = Config::load_from_env(&env).unwrap();
    assert!(c.join.methods.is_empty());
}

#[test]
fn method_names() {
    assert_eq!(Method::from_str("Hold"), Ok(Method::Hold));
    assert_eq!(Method::from_str("lobby"), Ok(Method::Lobby));
    assert_eq!(Method::from_str("wait"), Err("Unknown join method: wait".to_string()));
}

#[test]
fn version_outcomes() {
    assert_eq!(status_from(None), VersionStatus::Unknown);
    assert_eq!(status_from(Some(None)), VersionStatus::Invalid);
    assert_eq!(status_from(Some(Some(false))), VersionStatus::Outdated);
    assert_eq!(status_from(Some(Some(true))), VersionStatus::Current);
}

#[test]
fn version_check_against_minimum() {
    assert_eq!(check_version(&Some("0.2.7".to_string())), VersionStatus::Outdated);
    assert_eq!(check_version(&Some("0.2.9".to_string())), VersionStatus::Current);
    assert_eq!(check_version(&Some("0.2.8".to_string())), VersionStatus::Current);
    assert_eq!(check_version(&Some("0.10.0".to_string())), VersionStatus::Current);
    assert_eq!(check_version(&Some("not-a-version".to_string())), VersionStatus::Invalid);
    assert_eq!(check_version(&None), VersionStatus::Unknown);
    assert!(VersionStatus::Current.warning().is_none());
    assert!(VersionStatus::Outdated.warning().is_some());
}

#[test]
fn env_with_only_command_gives_defaults() {
    let env = env_of(&[("LAZYMC_SERVER_COMMAND", "java -jar server.jar")]);
    let c = Config::load_from_env(&env).unwrap();
    assert!(c.path.is_none());
    assert_eq!(c.server.command, "java -jar server.jar");
    assert_eq!(Server::server_directory(&c), Some(".".to_string()));
    assert_eq!(c.server.address, v4(127, 0, 0, 1, 25566));
    assert_eq!(c.time.sleep_after, 60);
    assert_eq!(c.join.methods, vec![Method::Hold, Method::Kick]);
    assert_eq!(c.public.address, v4(0, 0, 0, 0, 25565));
    assert_eq!(c.public.version, PROTO_DEFAULT_VERSION);
    assert_eq!(c.public.protocol, PROTO_DEFAULT_PROTOCOL);
    assert_eq!(c.motd.sleeping, MOTD_SLEEPING);
    assert_eq!(c.join.lobby.ready_sound.as_deref(), Some("block.note_block.chime"));
    assert!(c.server.freeze_process && c.server.wake_whitelist && c.server.block_banned_ips);
    assert_eq!(c.server.stop_timeout, 150);
    assert!(c.rcon.randomize_password);
    assert_eq!(c.rcon.password, "");
    assert!(c.config.version.is_none());
}

#[test]
fn env_without_command_is_refused() {
    assert!(matches!(Config::load_from_env(&env_of(&[])), Err(ConfigError::MissingCommand)));
    assert!(matches!(
        Config::load_from_env(&env_of(&[("LAZYMC_SERVER_COMMAND", "")])),
        Err(ConfigError::MissingCommand)
    ));
}

#[test]
fn minimal_file_gives_defaults_relative_to_file() {
    let text = "[server]\ncommand = \"run.sh\"\n";
    let c = Config::load_from_text(text, Some("/srv/mc/lazymc.toml".to_string()), &HostTable::new()).unwrap();
    assert_eq!(c.server.command, "run.sh");
    assert_eq!(c.server.address, v4(127, 0, 0, 1, 25566));
    assert_eq!(c.time.sleep_after, 60);
    assert_eq!(c.join.methods, vec![Method::Hold, Method::Kick]);
    assert_eq!(c.public.address, v4(0, 0, 0, 0, 25565));
    assert_eq!(c.motd.sleeping, MOTD_SLEEPING);
    assert_eq!(c.rcon.port, 25575);
    assert!(c.config.version.is_none());
    assert_eq!(Server::server_directory(&c), Some("/srv/mc/.".to_string()));
}

#[test]
fn file_fields_are_read_and_typed() {
    let text = "[server]\ncommand = \"run.sh\"\ndirectory = \"data\"\naddress = \"10.1.2.3:4000\"\nforge = true\n\
                [time]\nminimum_online_time = 30\n\
                [join]\nmethods = [\"lobby\", \"kick\"]\n[join.hold]\ntimeout = 9\n\
                [config]\nversion = \"0.2.8\"\n";
    let c = Config::load_from_text(text, Some("/a/b/lazymc.toml".to_string()), &HostTable::new()).unwrap();
    assert_eq!(c.server.address, v4(10, 1, 2, 3, 4000));
    assert!(c.server.forge);
    assert_eq!(c.time.min_online_time, 30);
    assert_eq!(c.join.methods, vec![Method::Lobby, Method::Kick]);
    assert_eq!(c.join.hold.timeout, 9);
    assert_eq!(c.join.lobby.timeout, 600);
    assert_eq!(c.config.version.as_deref(), Some("0.2.8"));
    assert_eq!(Server::server_directory(&c), Some("/a/b/data".to_string()));
}

#[test]
fn file_errors() {
    let hosts = HostTable::new();
    assert!(matches!(Config::load_from_text("[server", None, &hosts), Err(ConfigError::Syntax(_))));
    assert!(matches!(Config::load_from_text("[time]\nsleep_after = 1\n", None, &hosts), Err(ConfigError::MissingServer)));
    assert!(matches!(Config::load_from_text("[server]\nforge = true\n", None, &hosts), Err(ConfigError::MissingServerCommand)));
    assert!(matches!(
        Config::load_from_text("[server]\ncommand = \"x\"\naddress = \"nowhere.invalid:1\"\n", None, &hosts),
        Err(ConfigError::Invalid(Section::Server))
    ));
    assert!(matches!(
        Config::load_from_text("[server]\ncommand = \"x\"\n[time]\nsleep_after = -1\n", None, &hosts),
        Err(ConfigError::Invalid(Section::Time))
    ));
    assert!(matches!(
        Config::load_from_text("[server]\ncommand = \"x\"\n[join]\nmethods = [\"Hold\"]\n", None, &hosts),
        Err(ConfigError::Invalid(Section::Join))
    ));
    assert!(matches!(
        Config::load_from_text("[server]\ncommand = \"x\"\n[rcon]\nport = 70000\n", None, &hosts),
        Err(ConfigError::Invalid(Section::Rcon))
    ));
}

#[test]
fn file_hostname_resolves_through_table() {
    let hosts = HostTable { entries: vec![("mc.local".to_string(), IpAddress::V4(10, 9, 8, 7))] };
    let text = "[server]\ncommand = \"x\"\naddress = \"mc.local:25566\"\n";
    let c = Config::load_from_text(text, None, &hosts).unwrap();
    assert_eq!(c.server.address, v4(10, 9, 8, 7, 25566));
    assert_eq!(Server::server_directory(&c), Some(".".to_string()));
}

#[test]
fn method_parses_through_from_str_trait() {
    assert_eq!("FORWARD".parse::<Method>(), Ok(Method::Forward));
    assert!("nothing".parse::<Method>().is_err());
}
