//! The environment source: an injected set of variables plus the host
//! names looked up for them, and the never-failing typed accessors over it.

use vstd::prelude::*;
use crate::text::{decode_escapes, lower_of, process_escape_sequences};
use crate::scalar::{bool_word, unsigned_of, parse_bool, parse_unsigned};
use crate::address::{HostTable, IpAddress, SocketAddress, address_of, parse_address};

verus! {

/// Environment variables as name/value pairs (the last pair for a name
/// wins), and the addresses known for host names.
pub struct Environment {
    pub vars: Vec<(String, String)>,
    pub hosts: HostTable,
}

pub open spec fn var_lookup(vars: Seq<(String, String)>, key: Seq<char>) -> Option<Seq<char>>
    decreases vars.len(),
{
    if vars.len() == 0 {
        None
    } else if vars.last().0@ == key {
        Some(vars.last().1@)
    } else {
        var_lookup(vars.drop_last(), key)
    }
}

/// The text value of a variable: its value, else the default, decoded.
pub open spec fn text_value(v: Option<Seq<char>>, default: Option<Seq<char>>) -> Option<Seq<char>> {
    match v {
        Some(x) => Some(decode_escapes(x)),
        None => match default {
            Some(d) => Some(decode_escapes(d)),
            None => None,
        },
    }
}

pub open spec fn bool_value(v: Option<Seq<char>>, default: bool) -> bool {
    match v {
        Some(x) => bool_word(lower_of(x), default),
        None => default,
    }
}

pub open spec fn unsigned_value(v: Option<Seq<char>>, max: nat, default: nat) -> nat {
    match v {
        Some(x) => match unsigned_of(x, max) {
            Some(n) => n,
            None => default,
        },
        None => default,
    }
}

pub open spec fn address_value(v: Option<Seq<char>>, hosts: Seq<(String, IpAddress)>, default: SocketAddress) -> SocketAddress {
    match v {
        Some(x) => match address_of(x, hosts) {
            Some(a) => a,
            None => default,
        },
        None => default,
    }
}

pub open spec fn opt_view(o: Option<String>) -> Option<Seq<char>> {
    match o {
        Some(s) => Some(s@),
        None => None,
    }
}

impl Environment {
    pub open spec fn var(&self, key: Seq<char>) -> Option<Seq<char>> {
        var_lookup(self.vars@, key)
    }

    /// The raw value of a variable, if set.
    pub fn get(&self, key: &str) -> (r: Option<String>)
        ensures
            opt_view(r) == self.var(key@),
    {
        let mut found: Option<String> = None;
        let mut i: usize = 0;
        assert(self.vars@.subrange(0, 0) =~= Seq::<(String, String)>::empty());
        while i < self.vars.len()
            invariant
                i <= self.vars@.len(),
                opt_view(found) == var_lookup(self.vars@.subrange(0, i as int), key@),
            decreases self.vars@.len() - i,
        {
            assert(self.vars@.subrange(0, i + 1).drop_last() =~= self.vars@.subrange(0, i as int));
            if crate::scalar::same_text(self.vars[i].0.as_str(), key) {
                found = Some(self.vars[i].1.clone());
            }
            i = i + 1;
        }
        assert(self.vars@.subrange(0, i as int) =~= self.vars@);
        found
    }

    /// A text variable, decoded, or the decoded default.
    pub fn string(&self, key: &str, default: Option<&str>) -> (r: Option<String>)
        ensures
            opt_view(r) == text_value(self.var(key@), match default {
                Some(d) => Some(d@),
                None => None,
            }),
    {
        match self.get(key) {
            Some(v) => Some(process_escape_sequences(v.as_str())),
            None => match default {
                Some(d) => Some(process_escape_sequences(d)),
                None => None,
            },
        }
    }

    /// A text variable with a default, decoded.
    pub fn text(&self, key: &str, default: &str) -> (r: String)
        ensures
            Some(r@) == text_value(self.var(key@), Some(default@)),
    {
        match self.get(key) {
            Some(v) => process_escape_sequences(v.as_str()),
            None => process_escape_sequences(default),
        }
    }

    /// A boolean variable; unknown words give `default`.
    pub fn boolean(&self, key: &str, default: bool) -> (r: bool)
        ensures
            r == bool_value(self.var(key@), default),
    {
        match self.get(key) {
            Some(v) => parse_bool(v.as_str(), default),
            None => default,
        }
    }

    /// A 32-bit unsigned variable; malformed values give `default`.
    pub fn u32_value(&self, key: &str, default: u32) -> (r: u32)
        ensures
            r as nat == unsigned_value(self.var(key@), u32::MAX as nat, default as nat),
    {
        match self.get(key) {
            Some(v) => match parse_unsigned(v.as_str(), u32::MAX as u64) {
                Some(n) => n as u32,
                None => default,
            },
            None => default,
        }
    }

    /// A 16-bit unsigned variable; malformed values give `default`.
    pub fn u16_value(&self, key: &str, default: u16) -> (r: u16)
        ensures
            r as nat == unsigned_value(self.var(key@), u16::MAX as nat, default as nat),
    {
        match self.get(key) {
            Some(v) => match parse_unsigned(v.as_str(), u16::MAX as u64) {
                Some(n) => n as u16,
                None => default,
            },
            None => default,
        }
    }

    /// An address variable; malformed or unresolvable values give `default`.
    pub fn address(&self, key: &str, default: SocketAddress) -> (r: SocketAddress)
        ensures
            r == address_value(self.var(key@), self.hosts.entries@, default),
    {
        match self.get(key) {
            Some(v) => match parse_address(v.as_str(), &self.hosts) {
                Some(a) => a,
                None => default,
            },
            None => default,
        }
    }
}

} // verus!
