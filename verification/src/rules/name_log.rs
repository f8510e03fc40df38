//! A name → text table kept as an append-only log: the last entry for a
//! name decides, and an entry without a value removes the name. Taint
//! states, return summaries and import alias tables are all of this kind
//! (inserts overwrite, last write wins).

use vstd::prelude::*;
use crate::text::{chars_of, chars_eq};

verus! {

pub type LogView = Seq<(Seq<char>, Option<Seq<char>>)>;

/// The value the log holds for `key`: that of the last entry for it.
pub open spec fn log_get(l: LogView, key: Seq<char>) -> Option<Seq<char>>
    decreases l.len(),
{
    if l.len() == 0 {
        None
    } else if l.last().0 == key {
        l.last().1
    } else {
        log_get(l.drop_last(), key)
    }
}

pub open spec fn opt_view(o: Option<String>) -> Option<Seq<char>> {
    match o {
        Some(s) => Some(s@),
        None => None,
    }
}

#[derive(Clone, Debug)]
pub struct NameLog {
    entries: Vec<(String, Option<String>)>,
}

impl View for NameLog {
    type V = LogView;

    closed spec fn view(&self) -> LogView {
        self.entries@.map_values(|e: (String, Option<String>)| (e.0@, opt_view(e.1)))
    }
}

impl NameLog {
    pub fn new() -> (res: NameLog)
        ensures
            res@ == Seq::<(Seq<char>, Option<Seq<char>>)>::empty(),
    {
        let res = NameLog { entries: Vec::new() };
        assert(res@ =~= Seq::<(Seq<char>, Option<Seq<char>>)>::empty());
        res
    }

    /// Sets `key` to `value`.
    pub fn insert(&mut self, key: String, value: String)
        ensures
            final(self)@ == old(self)@.push((key@, Some(value@))),
    {
        self.entries.push((key, Some(value)));
        assert(self@ =~= old(self)@.push((key@, Some(value@))));
    }

    /// Removes `key`.
    pub fn remove(&mut self, key: String)
        ensures
            final(self)@ == old(self)@.push((key@, None::<Seq<char>>)),
    {
        self.entries.push((key, None));
        assert(self@ =~= old(self)@.push((key@, None::<Seq<char>>)));
    }

    /// Sets `key` to `value`, or removes it when `value` is `None`.
    pub fn set(&mut self, key: String, value: Option<String>)
        ensures
            final(self)@ == old(self)@.push((key@, opt_view(value))),
    {
        self.entries.push((key, value));
        assert(self@ =~= old(self)@.push((key@, opt_view(value))));
    }

    /// The value held for `key`.
    pub fn get_chars(&self, key: &[char]) -> (res: Option<&String>)
        ensures
            match res {
                Some(s) => log_get(self@, key@) == Some(s@),
                None => log_get(self@, key@) is None,
            },
    {
        let mut k: usize = self.entries.len();
        let ghost full = self@;
        assert(full.subrange(0, k as int) =~= full);
        while k > 0
            invariant
                k <= self.entries@.len(),
                full == self@,
                full.len() == self.entries@.len(),
                log_get(full, key@) == log_get(full.subrange(0, k as int), key@),
            decreases k,
        {
            let entry = &self.entries[k - 1];
            let name = chars_of(entry.0.as_str());
            let ghost sub = full.subrange(0, k as int);
            assert(sub.last() == full[k - 1]);
            assert(full[k - 1] == (entry.0@, opt_view(entry.1)));
            if chars_eq(name.as_slice(), key) {
                return match &entry.1 {
                    Some(s) => Some(s),
                    None => None,
                };
            }
            assert(sub.drop_last() =~= full.subrange(0, k - 1));
            k = k - 1;
        }
        None
    }

    /// The value held for `key`.
    pub fn get(&self, key: &str) -> (res: Option<&String>)
        ensures
            match res {
                Some(s) => log_get(self@, key@) == Some(s@),
                None => log_get(self@, key@) is None,
            },
    {
        let k = chars_of(key);
        self.get_chars(k.as_slice())
    }
}

/// Last write wins: after an entry for `key`, the log holds that entry's
/// value for `key` and what it held before for every other name.
pub proof fn law_last_write_wins(l: LogView, key: Seq<char>, value: Option<Seq<char>>, other: Seq<char>)
    ensures
        log_get(l.push((key, value)), key) == value,
        other != key ==> log_get(l.push((key, value)), other) == log_get(l, other),
{
    assert(l.push((key, value)).drop_last() =~= l);
}

} // verus!
