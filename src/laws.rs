//! Properties of the environment coercions that hold for every field.

use vstd::prelude::*;
use crate::address::{IpAddress, SocketAddress, address_of};
use crate::env::{Environment, address_value, bool_value, text_value, unsigned_value, var_lookup};
use crate::scalar::unsigned_of;
use crate::text::{decode_escapes, lower_of};

verus! {

/// A malformed value yields the field's default: a boolean that is no
/// known word, a number that does not parse or does not fit, an address
/// that does not parse or resolve.
pub proof fn malformed_values_default(
    v: Seq<char>,
    hosts: Seq<(String, IpAddress)>,
    max: nat,
    bool_default: bool,
    uint_default: nat,
    address_default: SocketAddress,
)
    ensures
        !(lower_of(v) == "true"@ || lower_of(v) == "1"@ || lower_of(v) == "yes"@ || lower_of(v) == "on"@
            || lower_of(v) == "false"@ || lower_of(v) == "0"@ || lower_of(v) == "no"@ || lower_of(v) == "off"@)
            ==> bool_value(Some(v), bool_default) == bool_default,
        unsigned_of(v, max) is None ==> unsigned_value(Some(v), max, uint_default) == uint_default,
        address_of(v, hosts) is None ==> address_value(Some(v), hosts, address_default) == address_default,
{
}

/// An unset variable yields the field's default, whatever its kind.
pub proof fn unset_values_default(
    hosts: Seq<(String, IpAddress)>,
    max: nat,
    bool_default: bool,
    uint_default: nat,
    address_default: SocketAddress,
    text_default: Seq<char>,
)
    ensures
        bool_value(None, bool_default) == bool_default,
        unsigned_value(None, max, uint_default) == uint_default,
        address_value(None, hosts, address_default) == address_default,
        text_value(None, Some(text_default)) == Some(decode_escapes(text_default)),
{
}

/// Setting one variable leaves every other variable unset: each other
/// field keeps its own default.
pub proof fn single_variable_isolated(env: &Environment, key: Seq<char>, other: Seq<char>)
    requires
        env.vars@.len() == 1,
        env.vars@[0].0@ == key,
        other != key,
    ensures
        env.var(other) is None,
        env.var(key) == Some(env.vars@[0].1@),
{
    assert(env.vars@.drop_last().len() == 0);
    assert(var_lookup(env.vars@.drop_last(), other) is None);
}

/// Each accepted boolean word, after lowercasing, gives its value; any
/// other word gives the default.
pub proof fn boolean_synonyms(v: Seq<char>, default: bool)
    ensures
        (lower_of(v) == "true"@ || lower_of(v) == "1"@ || lower_of(v) == "yes"@ || lower_of(v) == "on"@)
            ==> bool_value(Some(v), default),
        (lower_of(v) == "false"@ || lower_of(v) == "0"@ || lower_of(v) == "no"@ || lower_of(v) == "off"@)
            ==> !bool_value(Some(v), default),
        !(lower_of(v) == "true"@ || lower_of(v) == "1"@ || lower_of(v) == "yes"@ || lower_of(v) == "on"@
            || lower_of(v) == "false"@ || lower_of(v) == "0"@ || lower_of(v) == "no"@ || lower_of(v) == "off"@)
            ==> bool_value(Some(v), default) == default,
{
    reveal_strlit("true");
    reveal_strlit("false");
    reveal_strlit("1");
    reveal_strlit("0");
    reveal_strlit("yes");
    reveal_strlit("no");
    reveal_strlit("on");
    reveal_strlit("off");
    assert("true"@.len() == 4 && "false"@.len() == 5 && "1"@.len() == 1 && "0"@.len() == 1);
    assert("yes"@.len() == 3 && "no"@.len() == 2 && "on"@.len() == 2 && "off"@.len() == 3);
    assert("1"@[0] != "0"@[0]);
    assert("on"@[0] != "no"@[0]);
    assert("yes"@[0] != "off"@[0]);
}

} // verus!
