//! A string-keyed settings dictionary.

use crate::text::{lowercase, parse_u32, parsed_u32, text_eq, to_lowercase};
use vstd::prelude::*;
use vstd::string::StringExecFns;

verus! {

/// The value that a list of entries gives a key: that of the first entry with
/// this key.
pub open spec fn lookup(entries: Seq<(String, String)>, key: Seq<char>) -> Option<Seq<char>>
    decreases entries.len(),
{
    if entries.len() == 0 {
        None
    } else if entries[0].0@ == key {
        Some(entries[0].1@)
    } else {
        lookup(entries.drop_first(), key)
    }
}

/// The dictionary that a list of entries stands for.
pub open spec fn entries_map(entries: Seq<(String, String)>) -> Map<Seq<char>, Seq<char>> {
    Map::new(|k: Seq<char>| lookup(entries, k) is Some, |k: Seq<char>| lookup(entries, k)->0)
}

/// A dictionary after the pairs of `settings` were set in it one after another.
pub open spec fn imported(base: Map<Seq<char>, Seq<char>>, settings: Seq<(String, String)>) -> Map<
    Seq<char>,
    Seq<char>,
>
    decreases settings.len(),
{
    if settings.len() == 0 {
        base
    } else {
        imported(base, settings.drop_last()).insert(settings.last().0@, settings.last().1@)
    }
}

/// Whether a lower-cased value switches a flag on.
pub open spec fn truthy(lowered: Seq<char>) -> bool {
    lowered == "1"@ || lowered == "yes"@ || lowered == "true"@
}

/// Looking past entries with other keys changes nothing.
proof fn lemma_lookup_skip(entries: Seq<(String, String)>, key: Seq<char>, n: int)
    requires
        0 <= n <= entries.len(),
        forall|j: int| 0 <= j < n ==> entries[j].0@ != key,
    ensures
        lookup(entries, key) == lookup(entries.skip(n), key),
    decreases n,
{
    if n == 0 {
        assert(entries.skip(0) =~= entries);
    } else {
        assert(entries.drop_first().skip(n - 1) =~= entries.skip(n));
        lemma_lookup_skip(entries.drop_first(), key, n - 1);
    }
}

/// An entry added at the end counts for its key where no earlier entry does.
proof fn lemma_lookup_push(entries: Seq<(String, String)>, entry: (String, String), key: Seq<char>)
    ensures
        lookup(entries.push(entry), key) == match lookup(entries, key) {
            Some(v) => Some(v),
            None => if entry.0@ == key {
                Some(entry.1@)
            } else {
                None
            },
        },
    decreases entries.len(),
{
    let longer = entries.push(entry);
    if entries.len() == 0 {
        assert(longer.drop_first() =~= entries);
    } else {
        assert(longer.drop_first() =~= entries.drop_first().push(entry));
        lemma_lookup_push(entries.drop_first(), entry, key);
    }
}

/// Replacing the first entry of a key replaces the key's value and no other.
proof fn lemma_lookup_update(
    entries: Seq<(String, String)>,
    at: int,
    entry: (String, String),
    key: Seq<char>,
)
    requires
        0 <= at < entries.len(),
        entries[at].0@ == entry.0@,
        forall|j: int| 0 <= j < at ==> entries[j].0@ != entry.0@,
    ensures
        lookup(entries.update(at, entry), key) == if key == entry.0@ {
            Some(entry.1@)
        } else {
            lookup(entries, key)
        },
    decreases at,
{
    let changed = entries.update(at, entry);
    if at == 0 {
        assert(changed.drop_first() =~= entries.drop_first());
    } else {
        assert(changed.drop_first() =~= entries.drop_first().update(at - 1, entry));
        lemma_lookup_update(entries.drop_first(), at - 1, entry, key);
    }
}

/// A dictionary from setting names to setting values.
pub struct ConfigMap {
    data: Vec<(String, String)>,
}

impl View for ConfigMap {
    type V = Map<Seq<char>, Seq<char>>;

    closed spec fn view(&self) -> Map<Seq<char>, Seq<char>> {
        entries_map(self.data@)
    }
}

impl Clone for ConfigMap {
    fn clone(&self) -> (r: Self)
        ensures
            r@ == self@,
    {
        let mut data: Vec<(String, String)> = Vec::new();
        let mut i: usize = 0;
        while i < self.data.len()
            invariant
                i <= self.data@.len(),
                data@ == self.data@.take(i as int),
            decreases self.data@.len() - i,
        {
            let key = self.data[i].0.clone();
            let value = self.data[i].1.clone();
            data.push((key, value));
            assert(data@ =~= self.data@.take(i + 1));
            i += 1;
        }
        assert(data@ =~= self.data@);
        ConfigMap { data }
    }
}

impl Default for ConfigMap {
    fn default() -> (r: Self)
        ensures
            r@ == Map::<Seq<char>, Seq<char>>::empty(),
    {
        let r = ConfigMap { data: Vec::new() };
        assert(r@ =~= Map::<Seq<char>, Seq<char>>::empty());
        r
    }
}

impl ConfigMap {
    /// An empty dictionary.
    pub fn new() -> (r: ConfigMap)
        ensures
            r@ == Map::<Seq<char>, Seq<char>>::empty(),
    {
        let r = ConfigMap { data: Vec::new() };
        assert(r@ =~= Map::<Seq<char>, Seq<char>>::empty());
        r
    }

    /// The position of the first entry with `key`, or the number of entries
    /// where there is none.
    fn position(&self, key: &str) -> (r: usize)
        ensures
            r <= self.data@.len(),
            forall|j: int| 0 <= j < r ==> self.data@[j].0@ != key@,
            r < self.data@.len() ==> self.data@[r as int].0@ == key@ && lookup(self.data@, key@)
                == Some(self.data@[r as int].1@),
            r == self.data@.len() ==> lookup(self.data@, key@) is None,
    {
        let mut i: usize = 0;
        while i < self.data.len()
            invariant
                i <= self.data@.len(),
                forall|j: int| 0 <= j < i ==> self.data@[j].0@ != key@,
            decreases self.data@.len() - i,
        {
            if text_eq(self.data[i].0.as_str(), key) {
                proof {
                    lemma_lookup_skip(self.data@, key@, i as int);
                }
                return i;
            }
            i += 1;
        }
        proof {
            lemma_lookup_skip(self.data@, key@, i as int);
        }
        i
    }

    /// Whether `key` is set to a value that switches a flag on: `1`, `yes` or
    /// `true`, in any letter case.
    pub fn flag(&self, key: &str) -> (r: bool)
        ensures
            r == (self@.contains_key(key@) && truthy(lowercase(self@[key@]))),
    {
        let at = self.position(key);
        if at >= self.data.len() {
            return false;
        }
        self.is_true(self.data[at].1.as_str())
    }

    /// Whether a value switches a flag on: whether its lower-case form does.
    pub fn is_true(&self, value: &str) -> (r: bool)
        ensures
            r == truthy(lowercase(value@)),
    {
        let value_lower = to_lowercase(value);
        Self::is_truthy(value_lower.as_str())
    }

    /// Whether a value that is already in lower case switches a flag on:
    /// whether it is `1`, `yes` or `true`.
    pub fn is_truthy(lowered: &str) -> (r: bool)
        ensures
            r == truthy(lowered@),
    {
        text_eq(lowered, "1") || text_eq(lowered, "yes") || text_eq(lowered, "true")
    }

    /// Sets `key` to `value`, replacing what it was set to.
    pub fn set(&mut self, key: &str, value: &str)
        ensures
            final(self)@ == old(self)@.insert(key@, value@),
    {
        let at = self.position(key);
        let entry = (String::from_str(key), String::from_str(value));
        proof {
            if at < self.data@.len() {
                assert forall|k: Seq<char>|
                    lookup(self.data@.update(at as int, entry), k) == if k == key@ {
                        Some(value@)
                    } else {
                        lookup(self.data@, k)
                    } by {
                    lemma_lookup_update(self.data@, at as int, entry, k);
                }
            } else {
                assert forall|k: Seq<char>|
                    lookup(self.data@.push(entry), k) == if k == key@ {
                        Some(value@)
                    } else {
                        lookup(self.data@, k)
                    } by {
                    lemma_lookup_push(self.data@, entry, k);
                }
            }
        }
        if at < self.data.len() {
            self.data.set(at, entry);
        } else {
            self.data.push(entry);
        }
        assert(final(self)@ =~= old(self)@.insert(key@, value@));
    }

    /// Sets every pair of `settings`, in order.
    pub fn import(&mut self, settings: &Vec<(String, String)>)
        ensures
            final(self)@ == imported(old(self)@, settings@),
    {
        let mut i: usize = 0;
        while i < settings.len()
            invariant
                i <= settings@.len(),
                self@ == imported(old(self)@, settings@.take(i as int)),
            decreases settings@.len() - i,
        {
            self.set(settings[i].0.as_str(), settings[i].1.as_str());
            proof {
                let next = settings@.take(i + 1);
                assert(next.drop_last() =~= settings@.take(i as int));
                assert(next.last() == settings@[i as int]);
            }
            i += 1;
        }
        assert(settings@.take(i as int) =~= settings@);
    }

    /// The value of `key`, if it is set.
    pub fn get_string(&self, key: &str) -> (r: Option<String>)
        ensures
            match r {
                Some(value) => self@.contains_key(key@) && value@ == self@[key@],
                None => !self@.contains_key(key@),
            },
    {
        let at = self.position(key);
        if at >= self.data.len() {
            return None;
        }
        Some(self.data[at].1.clone())
    }

    /// The value of `key` read as a `u32`; nothing where the key is not set or
    /// its value is no such numeral.
    pub fn get_u32(&self, key: &str) -> (r: Option<u32>)
        ensures
            r == if self@.contains_key(key@) {
                parsed_u32(self@[key@])
            } else {
                None
            },
    {
        let at = self.position(key);
        if at >= self.data.len() {
            return None;
        }
        parse_u32(self.data[at].1.as_str())
    }
}

} // verus!
