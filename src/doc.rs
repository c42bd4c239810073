//! The document source: a parsed configuration file as a tree of plain
//! values, and the typed field readers over its tables.

use vstd::prelude::*;
use crate::scalar::same_text;
use crate::address::{HostTable, IpAddress, SocketAddress, address_of, parse_address};
use crate::env::opt_view;
use crate::join::{Method, method_word};

verus! {

/// A value of a configuration document.
#[derive(Debug)]
pub enum DocValue {
    Str(String),
    Int(i64),
    Bool(bool),
    List(Vec<DocValue>),
    Table(Vec<(String, DocValue)>),
    /// A value of a kind no field reads (a float, a date).
    Other,
}

#[verifier::external_type_specification]
#[verifier::external_body]
pub struct ExTomlValue(toml::Value);

/// Moves a toml value into the document tree, variant for variant.
#[verifier::external_body]
fn doc_value(v: toml::Value) -> DocValue {
    match v {
        toml::Value::String(s) => DocValue::Str(s),
        toml::Value::Integer(i) => DocValue::Int(i),
        toml::Value::Boolean(b) => DocValue::Bool(b),
        toml::Value::Array(a) => DocValue::List(a.into_iter().map(doc_value).collect()),
        toml::Value::Table(t) => DocValue::Table(t.into_iter().map(|(k, v)| (k, doc_value(v))).collect()),
        _ => DocValue::Other,
    }
}

pub uninterp spec fn toml_document(text: Seq<char>) -> Result<Vec<(String, DocValue)>, String>;

/// Relies on `toml::from_str` into a `toml::Table`: the top-level table of
/// the text, or the parser's message.
#[verifier::external_body]
pub(crate) fn parse_document(text: &str) -> (r: Result<Vec<(String, DocValue)>, String>)
    ensures
        r == toml_document(text@),
{
    match toml::from_str::<toml::Table>(text) {
        Ok(t) => Ok(t.into_iter().map(|(k, v)| (k, doc_value(v))).collect()),
        Err(e) => Err(e.to_string()),
    }
}

/// The value under `key` in a table; the last entry for a key wins.
pub open spec fn entry_of(t: Seq<(String, DocValue)>, key: Seq<char>) -> Option<DocValue>
    decreases t.len(),
{
    if t.len() == 0 {
        None
    } else if t.last().0@ == key {
        Some(t.last().1)
    } else {
        entry_of(t.drop_last(), key)
    }
}

/// Looks a key up in a table.
pub fn find<'a>(t: &'a Vec<(String, DocValue)>, key: &str) -> (r: Option<&'a DocValue>)
    ensures
        match r {
            Some(v) => entry_of(t@, key@) == Some(*v),
            None => entry_of(t@, key@) is None,
        },
{
    let mut found: Option<&DocValue> = None;
    let mut i: usize = 0;
    assert(t@.subrange(0, 0) =~= Seq::<(String, DocValue)>::empty());
    while i < t.len()
        invariant
            i <= t@.len(),
            match found {
                Some(v) => entry_of(t@.subrange(0, i as int), key@) == Some(*v),
                None => entry_of(t@.subrange(0, i as int), key@) is None,
            },
        decreases t@.len() - i,
    {
        assert(t@.subrange(0, i + 1).drop_last() =~= t@.subrange(0, i as int));
        if same_text(t[i].0.as_str(), key) {
            found = Some(&t[i].1);
        }
        i = i + 1;
    }
    assert(t@.subrange(0, i as int) =~= t@);
    found
}

/// A boolean field: `default` when absent, `None` when not a boolean.
pub open spec fn bool_entry(e: Option<DocValue>, default: bool) -> Option<bool> {
    match e {
        None => Some(default),
        Some(DocValue::Bool(b)) => Some(b),
        Some(_) => None,
    }
}

/// An unsigned field: `default` when absent, `None` when not an integer
/// in `0..=max`.
pub open spec fn uint_entry(e: Option<DocValue>, max: nat, default: nat) -> Option<nat> {
    match e {
        None => Some(default),
        Some(DocValue::Int(i)) => if 0 <= i && i <= max { Some(i as nat) } else { None },
        Some(_) => None,
    }
}

/// A text field: `default` when absent, `None` when not a string.
pub open spec fn str_entry(e: Option<DocValue>, default: Option<Seq<char>>) -> Option<Option<Seq<char>>> {
    match e {
        None => Some(default),
        Some(DocValue::Str(s)) => Some(Some(s@)),
        Some(_) => None,
    }
}

/// An address field: `default` when absent, `None` when not a string that
/// resolves.
pub open spec fn address_entry(e: Option<DocValue>, hosts: Seq<(String, IpAddress)>, default: SocketAddress) -> Option<SocketAddress> {
    match e {
        None => Some(default),
        Some(DocValue::Str(s)) => address_of(s@, hosts),
        Some(_) => None,
    }
}

/// A section: `Some(None)` when absent, `None` when not a table.
pub open spec fn table_entry(e: Option<DocValue>) -> Option<Option<Vec<(String, DocValue)>>> {
    match e {
        None => Some(None),
        Some(DocValue::Table(t)) => Some(Some(t)),
        Some(_) => None,
    }
}

/// The methods a list of strings names, each exactly; `None` if one is
/// no method name or no string.
pub open spec fn method_list(items: Seq<DocValue>) -> Option<Seq<Method>>
    decreases items.len(),
{
    if items.len() == 0 {
        Some(Seq::empty())
    } else {
        match (method_list(items.drop_last()), items.last()) {
            (Some(p), DocValue::Str(s)) => match method_word(s@) {
                Some(m) => Some(p.push(m)),
                None => None,
            },
            _ => None,
        }
    }
}

proof fn lemma_method_list_prefix(items: Seq<DocValue>, j: int)
    requires
        0 <= j <= items.len(),
        method_list(items.subrange(0, j)) is None,
    ensures
        method_list(items) is None,
    decreases items.len(),
{
    if j == items.len() {
        assert(items.subrange(0, j) =~= items);
    } else {
        assert(items.drop_last().subrange(0, j) =~= items.subrange(0, j));
        lemma_method_list_prefix(items.drop_last(), j);
    }
}

/// A method list field: `hold, kick` when absent.
pub open spec fn methods_entry(e: Option<DocValue>) -> Option<Seq<Method>> {
    match e {
        None => Some(seq![Method::Hold, Method::Kick]),
        Some(DocValue::List(items)) => method_list(items@),
        Some(_) => None,
    }
}

pub fn bool_field(t: &Vec<(String, DocValue)>, key: &str, default: bool) -> (r: Option<bool>)
    ensures
        r == bool_entry(entry_of(t@, key@), default),
{
    match find(t, key) {
        None => Some(default),
        Some(DocValue::Bool(b)) => Some(*b),
        Some(_) => None,
    }
}

pub fn uint_field(t: &Vec<(String, DocValue)>, key: &str, max: u64, default: u64) -> (r: Option<u64>)
    ensures
        match uint_entry(entry_of(t@, key@), max as nat, default as nat) {
            Some(n) => r == Some(n as u64),
            None => r is None,
        },
{
    match find(t, key) {
        None => Some(default),
        Some(DocValue::Int(i)) => {
            if 0 <= *i && *i as u64 <= max {
                Some(*i as u64)
            } else {
                None
            }
        },
        Some(_) => None,
    }
}

pub fn str_field(t: &Vec<(String, DocValue)>, key: &str, default: Option<&str>) -> (r: Option<Option<String>>)
    ensures
        match str_entry(entry_of(t@, key@), match default {
            Some(d) => Some(d@),
            None => None,
        }) {
            Some(v) => r is Some && opt_view(r->0) == v,
            None => r is None,
        },
{
    match find(t, key) {
        None => match default {
            Some(d) => Some(Some(crate::text::owned(d))),
            None => Some(None),
        },
        Some(DocValue::Str(s)) => Some(Some(s.clone())),
        Some(_) => None,
    }
}

pub fn address_field(t: &Vec<(String, DocValue)>, key: &str, hosts: &HostTable, default: SocketAddress) -> (r: Option<SocketAddress>)
    ensures
        r == address_entry(entry_of(t@, key@), hosts.entries@, default),
{
    match find(t, key) {
        None => Some(default),
        Some(DocValue::Str(s)) => parse_address(s.as_str(), hosts),
        Some(_) => None,
    }
}

pub fn table_field<'a>(t: &'a Vec<(String, DocValue)>, key: &str) -> (r: Option<Option<&'a Vec<(String, DocValue)>>>)
    ensures
        match table_entry(entry_of(t@, key@)) {
            Some(Some(s)) => r == Some(Some(&s)),
            Some(None) => r == Some(None::<&Vec<(String, DocValue)>>),
            None => r is None,
        },
{
    match find(t, key) {
        None => Some(None),
        Some(DocValue::Table(s)) => Some(Some(s)),
        Some(_) => None,
    }
}

pub fn methods_field(t: &Vec<(String, DocValue)>, key: &str) -> (r: Option<Vec<Method>>)
    ensures
        match methods_entry(entry_of(t@, key@)) {
            Some(ms) => r is Some && r->0@ == ms,
            None => r is None,
        },
{
    match find(t, key) {
        None => Some(vec![Method::Hold, Method::Kick]),
        Some(DocValue::List(items)) => {
            let mut out: Vec<Method> = Vec::new();
            let mut i: usize = 0;
            assert(items@.subrange(0, 0) =~= Seq::<DocValue>::empty());
            while i < items.len()
                invariant
                    i <= items@.len(),
                    method_list(items@.subrange(0, i as int)) == Some(out@),
                    methods_entry(entry_of(t@, key@)) == method_list(items@),
                decreases items@.len() - i,
            {
                assert(items@.subrange(0, i + 1).drop_last() =~= items@.subrange(0, i as int));
                assert(items@.subrange(0, i + 1).last() == items@[i as int]);
                match &items[i] {
                    DocValue::Str(s) => match Method::from_lowered(s.as_str()) {
                        Some(m) => out.push(m),
                        None => {
                            proof {
                                lemma_method_list_prefix(items@, i + 1);
                            }
                            return None;
                        },
                    },
                    _ => {
                        proof {
                            lemma_method_list_prefix(items@, i + 1);
                        }
                        return None;
                    },
                }
                i = i + 1;
            }
            assert(items@.subrange(0, i as int) =~= items@);
            Some(out)
        },
        Some(_) => None,
    }
}

} // verus!
