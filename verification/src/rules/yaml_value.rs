//! A YAML document as plain values, and the accessors the rule bridges
//! read it with (`get`, `as_str`, `as_sequence`, `as_mapping`).
//!
//! Tags are not kept: every accessor the bridges use looks through them.
//! A mapping keeps its entries in document order, each key once.

use vstd::prelude::*;

verus! {

/// A YAML value.
pub enum YamlValue {
    Null,
    Bool(bool),
    /// A number, as written.
    Number(String),
    String(String),
    Sequence(Vec<YamlValue>),
    Mapping(Vec<(YamlValue, YamlValue)>),
}

/// The text of a string value.
pub open spec fn str_of(v: YamlValue) -> Option<Seq<char>> {
    match v {
        YamlValue::String(s) => Some(s@),
        _ => None,
    }
}

/// The index of the first entry whose key is the string `key`, from the
/// `k`-th on.
pub open spec fn key_index_from(es: Seq<(YamlValue, YamlValue)>, key: Seq<char>, k: int) -> Option<int>
    decreases es.len() - k,
{
    if k < 0 || k >= es.len() {
        None
    } else if str_of(es[k].0) == Some(key) {
        Some(k)
    } else {
        key_index_from(es, key, k + 1)
    }
}

/// `Value::get(key)`: the value under the string key of a mapping.
pub open spec fn yaml_get(v: YamlValue, key: Seq<char>) -> Option<YamlValue> {
    match v {
        YamlValue::Mapping(es) => match key_index_from(es@, key, 0) {
            Some(i) => Some(es@[i].1),
            None => None,
        },
        _ => None,
    }
}

impl YamlValue {
    /// `Value::as_str`.
    pub fn as_str(&self) -> (res: Option<&str>)
        ensures
            match res {
                Some(s) => str_of(*self) == Some(s@),
                None => str_of(*self) is None,
            },
    {
        match self {
            YamlValue::String(s) => Some(s.as_str()),
            _ => None,
        }
    }

    /// `Value::as_sequence`.
    pub fn as_sequence(&self) -> (res: Option<&Vec<YamlValue>>)
        ensures
            match res {
                Some(v) => *self == YamlValue::Sequence(*v),
                None => !(self is Sequence),
            },
    {
        match self {
            YamlValue::Sequence(v) => Some(v),
            _ => None,
        }
    }

    /// `Value::as_mapping`.
    pub fn as_mapping(&self) -> (res: Option<&Vec<(YamlValue, YamlValue)>>)
        ensures
            match res {
                Some(m) => *self == YamlValue::Mapping(*m),
                None => !(self is Mapping),
            },
    {
        match self {
            YamlValue::Mapping(m) => Some(m),
            _ => None,
        }
    }

    /// `Value::get` with a string key.
    pub fn get(&self, key: &str) -> (res: Option<&YamlValue>)
        ensures
            match res {
                Some(v) => yaml_get(*self, key@) == Some(*v),
                None => yaml_get(*self, key@) is None,
            },
    {
        match self {
            YamlValue::Mapping(es) => {
                let mut k: usize = 0;
                while k < es.len()
                    invariant
                        k <= es@.len(),
                        *self == YamlValue::Mapping(*es),
                        key_index_from(es@, key@, 0) == key_index_from(es@, key@, k as int),
                    decreases es@.len() - k,
                {
                    let hit = match es[k].0.as_str() {
                        Some(s) => crate::text::str_eq(s, key),
                        None => false,
                    };
                    if hit {
                        return Some(&es[k].1);
                    }
                    k = k + 1;
                }
                None
            },
            _ => None,
        }
    }
}

} // verus!
