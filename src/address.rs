//! Socket addresses: literal IPv4 parsing, `host:port` splitting and
//! resolution of host names through a table of looked-up names.

use vstd::prelude::*;
use crate::scalar::{all_digits, digits_value, split_on, split_text, views, parse_digits, same_text};

verus! {

/// An IP address: four IPv4 octets, or an IPv6 address as one 128-bit
/// number.
#[derive(Clone, Copy, Debug, PartialEq, Eq, Structural)]
pub enum IpAddress {
    V4(u8, u8, u8, u8),
    V6(u128),
}

/// A concrete network address.
#[derive(Clone, Copy, Debug, PartialEq, Eq, Structural)]
pub struct SocketAddress {
    pub ip: IpAddress,
    pub port: u16,
}

/// Host names together with the first address a system lookup gave for
/// each; the last entry for a name wins.
pub struct HostTable {
    pub entries: Vec<(String, IpAddress)>,
}

pub open spec fn host_lookup(entries: Seq<(String, IpAddress)>, name: Seq<char>) -> Option<IpAddress>
    decreases entries.len(),
{
    if entries.len() == 0 {
        None
    } else if entries.last().0@ == name {
        Some(entries.last().1)
    } else {
        host_lookup(entries.drop_last(), name)
    }
}

impl HostTable {
    pub open spec fn resolve_spec(&self, name: Seq<char>) -> Option<IpAddress> {
        host_lookup(self.entries@, name)
    }

    /// A table with no names.
    pub fn new() -> (r: HostTable)
        ensures
            r.entries@.len() == 0,
    {
        HostTable { entries: Vec::new() }
    }

    /// The address recorded for `name`, if any.
    pub fn resolve(&self, name: &str) -> (r: Option<IpAddress>)
        ensures
            r == self.resolve_spec(name@),
    {
        let mut found: Option<IpAddress> = None;
        let mut i: usize = 0;
        assert(self.entries@.subrange(0, 0) =~= Seq::<(String, IpAddress)>::empty());
        while i < self.entries.len()
            invariant
                i <= self.entries@.len(),
                found == host_lookup(self.entries@.subrange(0, i as int), name@),
            decreases self.entries@.len() - i,
        {
            assert(self.entries@.subrange(0, i + 1).drop_last() =~= self.entries@.subrange(0, i as int));
            if same_text(self.entries[i].0.as_str(), name) {
                found = Some(self.entries[i].1);
            }
            i = i + 1;
        }
        assert(self.entries@.subrange(0, i as int) =~= self.entries@);
        found
    }
}

/// One IPv4 octet: one to three digits, no leading zero, at most 255.
pub open spec fn octet_of(p: Seq<char>) -> Option<u8> {
    if 1 <= p.len() <= 3 && all_digits(p) && !(p.len() > 1 && p[0] == '0') && digits_value(p) <= 255 {
        Some(digits_value(p) as u8)
    } else {
        None
    }
}

/// A dotted IPv4 literal.
pub open spec fn ipv4_of(h: Seq<char>) -> Option<IpAddress> {
    let ps = split_on(h, '.');
    if ps.len() == 4 && octet_of(ps[0]) is Some && octet_of(ps[1]) is Some && octet_of(ps[2]) is Some
        && octet_of(ps[3]) is Some {
        Some(IpAddress::V4(octet_of(ps[0])->0, octet_of(ps[1])->0, octet_of(ps[2])->0, octet_of(ps[3])->0))
    } else {
        None
    }
}

/// A port: one or more digits, at most 65535.
pub open spec fn port_of(p: Seq<char>) -> Option<u16> {
    if p.len() > 0 && all_digits(p) && digits_value(p) <= 65535 {
        Some(digits_value(p) as u16)
    } else {
        None
    }
}

/// Index of the last `c` in `s`, or -1.
pub open spec fn last_index(s: Seq<char>, c: char) -> int
    decreases s.len(),
{
    if s.len() == 0 {
        -1
    } else if s.last() == c {
        s.len() - 1
    } else {
        last_index(s.drop_last(), c)
    }
}

proof fn lemma_last_index_range(s: Seq<char>, c: char)
    ensures
        -1 <= last_index(s, c) < s.len(),
        last_index(s, c) >= 0 ==> s[last_index(s, c)] == c,
    decreases s.len(),
{
    if s.len() > 0 {
        lemma_last_index_range(s.drop_last(), c);
    }
}

/// The address that `s`, written `host:port`, denotes: the host is an IPv4
/// literal or a name of `hosts`.
pub open spec fn address_of(s: Seq<char>, hosts: Seq<(String, IpAddress)>) -> Option<SocketAddress> {
    let k = last_index(s, ':');
    if k < 0 {
        None
    } else {
        let host = s.subrange(0, k);
        let port = port_of(s.subrange(k + 1, s.len() as int));
        let ip = if ipv4_of(host) is Some { ipv4_of(host) } else { host_lookup(hosts, host) };
        if port is Some && ip is Some {
            Some(SocketAddress { ip: ip->0, port: port->0 })
        } else {
            None
        }
    }
}

/// Reads one IPv4 octet.
fn parse_octet(p: &str) -> (r: Option<u8>)
    ensures
        r == octet_of(p@),
{
    let n = p.unicode_len();
    if n < 1 || n > 3 || (n > 1 && p.get_char(0) == '0') {
        return None;
    }
    assert(p@.subrange(0, n as int) =~= p@);
    match parse_digits(p, 0, 255) {
        Some(v) => Some(v as u8),
        None => None,
    }
}

/// Reads a dotted IPv4 literal.
pub fn parse_ipv4(h: &str) -> (r: Option<IpAddress>)
    ensures
        r == ipv4_of(h@),
{
    let ps = split_text(h, '.');
    assert(views(ps@) == split_on(h@, '.'));
    if ps.len() != 4 {
        return None;
    }
    assert(views(ps@)[0] == ps@[0]@ && views(ps@)[1] == ps@[1]@);
    assert(views(ps@)[2] == ps@[2]@ && views(ps@)[3] == ps@[3]@);
    let a = parse_octet(ps[0].as_str());
    let b = parse_octet(ps[1].as_str());
    let c = parse_octet(ps[2].as_str());
    let d = parse_octet(ps[3].as_str());
    match (a, b, c, d) {
        (Some(a), Some(b), Some(c), Some(d)) => Some(IpAddress::V4(a, b, c, d)),
        _ => None,
    }
}

/// Reads a port number.
pub fn parse_port(p: &str) -> (r: Option<u16>)
    ensures
        r == port_of(p@),
{
    let n = p.unicode_len();
    assert(p@.subrange(0, n as int) =~= p@);
    match parse_digits(p, 0, 65535) {
        Some(v) => Some(v as u16),
        None => None,
    }
}

/// Finds the last `:` of `s`.
fn last_colon(s: &str) -> (r: Option<usize>)
    ensures
        match r {
            Some(k) => last_index(s@, ':') == k,
            None => last_index(s@, ':') < 0,
        },
{
    let n = s.unicode_len();
    let mut k: usize = n;
    assert(s@.subrange(0, n as int) =~= s@);
    while k > 0
        invariant
            k <= n == s@.len(),
            last_index(s@, ':') == last_index(s@.subrange(0, k as int), ':'),
        decreases k,
    {
        let ghost pre = s@.subrange(0, k as int);
        assert(pre.drop_last() =~= s@.subrange(0, k - 1));
        if s.get_char(k - 1) == ':' {
            return Some(k - 1);
        }
        k = k - 1;
    }
    assert(s@.subrange(0, 0) =~= Seq::<char>::empty());
    None
}

/// Resolves `host:port` text: an IPv4 literal host is taken as it is,
/// any other host is looked up in `hosts`.
pub fn parse_address(s: &str, hosts: &HostTable) -> (r: Option<SocketAddress>)
    ensures
        r == address_of(s@, hosts.entries@),
{
    let k = match last_colon(s) {
        Some(k) => k,
        None => return None,
    };
    proof {
        lemma_last_index_range(s@, ':');
    }
    let n = s.unicode_len();
    let host = s.substring_char(0, k);
    let port_text = s.substring_char(k + 1, n);
    let port = parse_port(port_text);
    let ip = match parse_ipv4(host) {
        Some(ip) => Some(ip),
        None => hosts.resolve(host),
    };
    match (port, ip) {
        (Some(port), Some(ip)) => Some(SocketAddress { ip, port }),
        _ => None,
    }
}

/// The host of `host:port` text that a system lookup must resolve: one
/// that is no IPv4 literal.
pub open spec fn lookup_host(s: Seq<char>) -> Option<Seq<char>> {
    let k = last_index(s, ':');
    if k < 0 {
        None
    } else if ipv4_of(s.subrange(0, k)) is Some {
        None
    } else {
        Some(s.subrange(0, k))
    }
}

/// The host of `host:port` text that needs a lookup, if any.
pub fn host_to_resolve(s: &str) -> (r: Option<String>)
    ensures
        crate::env::opt_view(r) == lookup_host(s@),
{
    let k = match last_colon(s) {
        Some(k) => k,
        None => return None,
    };
    proof {
        lemma_last_index_range(s@, ':');
    }
    let host = s.substring_char(0, k);
    match parse_ipv4(host) {
        Some(_) => None,
        None => Some(crate::text::owned(host)),
    }
}

} // verus!
