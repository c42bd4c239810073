//! Join handling: the strategies applied while the server is not ready,
//! and the settings of each.

use vstd::prelude::*;
use crate::text::{lower_of, lowercase, owned};
use crate::scalar::{list_of, parse_list, same_text, views};
use crate::address::{IpAddress, SocketAddress};
use crate::env::{Environment, address_value, bool_value, opt_view, text_value, unsigned_value};
use crate::sections::v4;

verus! {

/// A join strategy.
#[derive(Clone, Copy, Debug, PartialEq, Eq, Structural)]
pub enum Method {
    /// Kick the client with a message.
    Kick,
    /// Hold the connection until the server is ready.
    Hold,
    /// Forward the connection to another host.
    Forward,
    /// Keep the client in a temporary lobby until the server is ready.
    Lobby,
}

/// The method a lowercased word names.
pub open spec fn method_word(l: Seq<char>) -> Option<Method> {
    if l == "kick"@ {
        Some(Method::Kick)
    } else if l == "hold"@ {
        Some(Method::Hold)
    } else if l == "forward"@ {
        Some(Method::Forward)
    } else if l == "lobby"@ {
        Some(Method::Lobby)
    } else {
        None
    }
}

/// The methods that the words name, in order, skipping unknown words.
pub open spec fn methods_of(words: Seq<Seq<char>>) -> Seq<Method>
    decreases words.len(),
{
    if words.len() == 0 {
        Seq::empty()
    } else {
        let p = methods_of(words.drop_last());
        match method_word(lower_of(words.last())) {
            Some(m) => p.push(m),
            None => p,
        }
    }
}

/// Join methods from an optional comma separated list; `hold, kick` when
/// absent.
pub open spec fn methods_value(v: Option<Seq<char>>) -> Seq<Method> {
    match v {
        Some(x) => methods_of(list_of(x)),
        None => seq![Method::Hold, Method::Kick],
    }
}

impl Method {
    /// Reads an already lowercased method name.
    pub fn from_lowered(l: &str) -> (r: Option<Method>)
        ensures
            r == method_word(l@),
    {
        if same_text(l, "kick") {
            Some(Method::Kick)
        } else if same_text(l, "hold") {
            Some(Method::Hold)
        } else if same_text(l, "forward") {
            Some(Method::Forward)
        } else if same_text(l, "lobby") {
            Some(Method::Lobby)
        } else {
            None
        }
    }

    /// Reads a method name in any letter case.
    pub fn parse(s: &str) -> (r: Option<Method>)
        ensures
            r == method_word(lower_of(s@)),
    {
        let l = lowercase(s);
        Method::from_lowered(l.as_str())
    }

    /// Reads a method name, with a message naming an unknown one.
    pub fn from_str(s: &str) -> (r: Result<Method, String>)
        ensures
            r is Ok <==> method_word(lower_of(s@)) is Some,
            r is Ok ==> r->Ok_0 == method_word(lower_of(s@))->0,
            r is Err ==> r->Err_0@ == "Unknown join method: "@ + s@,
    {
        match Method::parse(s) {
            Some(m) => Ok(m),
            None => Err(owned("Unknown join method: ").concat(s)),
        }
    }
}

impl std::str::FromStr for Method {
    type Err = String;

    fn from_str(s: &str) -> Result<Method, String> {
        Method::from_str(s)
    }
}

/// Reads the methods that a list of words names, skipping unknown ones.
pub fn methods_from_words(words: &Vec<String>) -> (r: Vec<Method>)
    ensures
        r@ == methods_of(views(words@)),
{
    let mut out: Vec<Method> = Vec::new();
    let mut i: usize = 0;
    assert(views(words@).subrange(0, 0) =~= Seq::<Seq<char>>::empty());
    while i < words.len()
        invariant
            i <= words@.len(),
            out@ == methods_of(views(words@).subrange(0, i as int)),
        decreases words@.len() - i,
    {
        assert(views(words@).subrange(0, i + 1).drop_last() =~= views(words@).subrange(0, i as int));
        assert(views(words@).subrange(0, i + 1).last() == words@[i as int]@);
        match Method::parse(words[i].as_str()) {
            Some(m) => out.push(m),
            None => {},
        }
        i = i + 1;
    }
    assert(views(words@).subrange(0, i as int) =~= views(words@));
    out
}

pub const KICK_STARTING: &'static str = "Server is starting... §c♥§r\n\nThis may take some time.\n\nPlease try to reconnect in a minute.";
pub const KICK_STOPPING: &'static str = "Server is going to sleep... §7☠§r\n\nPlease try to reconnect in a minute to wake it again.";
pub const LOBBY_MESSAGE: &'static str = "§2Server is starting\n§7⌛ Please wait...";
pub const LOBBY_READY_SOUND: &'static str = "block.note_block.chime";

/// Join handling: the enabled methods in order and the settings of each.
pub struct Join {
    pub methods: Vec<Method>,
    pub kick: JoinKick,
    pub hold: JoinHold,
    pub forward: JoinForward,
    pub lobby: JoinLobby,
}

impl Join {
    pub open spec fn env_spec(self, env: &Environment) -> bool {
        &&& self.methods@ == methods_value(env.var("LAZYMC_JOIN_METHODS"@))
        &&& self.kick.env_spec(env)
        &&& self.hold.env_spec(env)
        &&& self.forward.env_spec(env)
        &&& self.lobby.env_spec(env)
    }

    pub fn from_env(env: &Environment) -> (r: Join)
        ensures
            r.env_spec(env),
    {
        let methods = match env.get("LAZYMC_JOIN_METHODS") {
            Some(v) => methods_from_words(&parse_list(v.as_str())),
            None => vec![Method::Hold, Method::Kick],
        };
        Join {
            methods,
            kick: JoinKick::from_env(env),
            hold: JoinHold::from_env(env),
            forward: JoinForward::from_env(env),
            lobby: JoinLobby::from_env(env),
        }
    }
}

impl Join {
    pub open spec fn is_default(self) -> bool {
        &&& self.methods@ == seq![Method::Hold, Method::Kick]
        &&& self.kick.is_default()
        &&& self.hold.is_default()
        &&& self.forward.is_default()
        &&& self.lobby.is_default()
    }
}

impl Default for Join {
    fn default() -> (r: Join)
        ensures
            r.is_default(),
    {
        Join {
            methods: vec![Method::Hold, Method::Kick],
            kick: JoinKick::default(),
            hold: JoinHold::default(),
            forward: JoinForward::default(),
            lobby: JoinLobby::default(),
        }
    }
}

/// Kick messages.
pub struct JoinKick {
    pub starting: String,
    pub stopping: String,
}

impl JoinKick {
    pub open spec fn env_spec(self, env: &Environment) -> bool {
        &&& Some(self.starting@) == text_value(env.var("LAZYMC_JOIN_KICK_STARTING"@), Some(KICK_STARTING@))
        &&& Some(self.stopping@) == text_value(env.var("LAZYMC_JOIN_KICK_STOPPING"@), Some(KICK_STOPPING@))
    }

    pub open spec fn is_default(self) -> bool {
        self.starting@ == KICK_STARTING@ && self.stopping@ == KICK_STOPPING@
    }

    pub fn from_env(env: &Environment) -> (r: JoinKick)
        ensures
            r.env_spec(env),
    {
        JoinKick {
            starting: env.text("LAZYMC_JOIN_KICK_STARTING", KICK_STARTING),
            stopping: env.text("LAZYMC_JOIN_KICK_STOPPING", KICK_STOPPING),
        }
    }
}

impl Default for JoinKick {
    fn default() -> (r: JoinKick)
        ensures
            r.is_default(),
    {
        JoinKick { starting: owned(KICK_STARTING), stopping: owned(KICK_STOPPING) }
    }
}

/// Hold settings.
pub struct JoinHold {
    pub timeout: u32,
}

impl JoinHold {
    pub open spec fn env_spec(self, env: &Environment) -> bool {
        self.timeout as nat == unsigned_value(env.var("LAZYMC_JOIN_HOLD_TIMEOUT"@), u32::MAX as nat, 25)
    }

    pub fn from_env(env: &Environment) -> (r: JoinHold)
        ensures
            r.env_spec(env),
    {
        JoinHold { timeout: env.u32_value("LAZYMC_JOIN_HOLD_TIMEOUT", 25) }
    }
}

impl JoinHold {
    pub open spec fn is_default(self) -> bool {
        self.timeout == 25
    }
}

impl Default for JoinHold {
    fn default() -> (r: JoinHold)
        ensures
            r.is_default(),
    {
        JoinHold { timeout: 25 }
    }
}

/// Forward settings.
pub struct JoinForward {
    pub address: SocketAddress,
    pub send_proxy_v2: bool,
}

impl JoinForward {
    pub open spec fn env_spec(self, env: &Environment) -> bool {
        &&& self.address == address_value(env.var("LAZYMC_JOIN_FORWARD_ADDRESS"@), env.hosts.entries@, v4(127, 0, 0, 1, 25565))
        &&& self.send_proxy_v2 == bool_value(env.var("LAZYMC_JOIN_FORWARD_SEND_PROXY_V2"@), false)
    }

    pub fn from_env(env: &Environment) -> (r: JoinForward)
        ensures
            r.env_spec(env),
    {
        JoinForward {
            address: env.address("LAZYMC_JOIN_FORWARD_ADDRESS", SocketAddress { ip: IpAddress::V4(127, 0, 0, 1), port: 25565 }),
            send_proxy_v2: env.boolean("LAZYMC_JOIN_FORWARD_SEND_PROXY_V2", false),
        }
    }
}

impl JoinForward {
    pub open spec fn is_default(self) -> bool {
        self.address == v4(127, 0, 0, 1, 25565) && !self.send_proxy_v2
    }
}

impl Default for JoinForward {
    fn default() -> (r: JoinForward)
        ensures
            r.is_default(),
    {
        JoinForward { address: SocketAddress { ip: IpAddress::V4(127, 0, 0, 1), port: 25565 }, send_proxy_v2: false }
    }
}

/// Lobby settings.
pub struct JoinLobby {
    pub timeout: u32,
    pub message: String,
    pub ready_sound: Option<String>,
}

impl JoinLobby {
    pub open spec fn env_spec(self, env: &Environment) -> bool {
        &&& self.timeout as nat == unsigned_value(env.var("LAZYMC_JOIN_LOBBY_TIMEOUT"@), u32::MAX as nat, 600)
        &&& Some(self.message@) == text_value(env.var("LAZYMC_JOIN_LOBBY_MESSAGE"@), Some(LOBBY_MESSAGE@))
        &&& opt_view(self.ready_sound) == text_value(env.var("LAZYMC_JOIN_LOBBY_READY_SOUND"@), Some(LOBBY_READY_SOUND@))
    }

    pub open spec fn is_default(self) -> bool {
        &&& self.timeout == 600
        &&& self.message@ == LOBBY_MESSAGE@
        &&& opt_view(self.ready_sound) == Some(LOBBY_READY_SOUND@)
    }

    pub fn from_env(env: &Environment) -> (r: JoinLobby)
        ensures
            r.env_spec(env),
    {
        JoinLobby {
            timeout: env.u32_value("LAZYMC_JOIN_LOBBY_TIMEOUT", 10 * 60),
            message: env.text("LAZYMC_JOIN_LOBBY_MESSAGE", LOBBY_MESSAGE),
            ready_sound: env.string("LAZYMC_JOIN_LOBBY_READY_SOUND", Some(LOBBY_READY_SOUND)),
        }
    }
}

impl Default for JoinLobby {
    fn default() -> (r: JoinLobby)
        ensures
            r.is_default(),
    {
        JoinLobby { timeout: 10 * 60, message: owned(LOBBY_MESSAGE), ready_sound: Some(owned(LOBBY_READY_SOUND)) }
    }
}

} // verus!
