//! A snapshot of the part of the Windows registry that discovery reads.
//!
//! Like the file system, the registry is handed over as plain values: a list
//! of keys, each with its hive, its path and its values. The path of a key
//! separates its components with `\`.

use crate::lists::{collect, first_some, lemma_collect_step, lemma_first_some_step};
use crate::text::{
    concat3, contains, contains_str, same_str, slice_str, starts_with, starts_with_str,
};
use vstd::prelude::*;

verus! {

/// The two hives that discovery reads.
#[derive(Clone, Copy, Debug, PartialEq, Eq, Structural)]
pub enum Hive {
    LocalMachine,
    CurrentUser,
}

/// One key of the snapshot.
#[derive(Debug, PartialEq, Eq)]
pub struct RegistryKey {
    pub hive: Hive,
    /// The path of the key below its hive.
    pub path: String,
    /// The values of the key, each with its name. The default value has the empty name.
    pub values: Vec<(String, String)>,
}

pub struct RegistryKeyView {
    pub hive: Hive,
    pub path: Seq<char>,
    pub values: Seq<(Seq<char>, Seq<char>)>,
}

impl DeepView for RegistryKey {
    type V = RegistryKeyView;

    open spec fn deep_view(&self) -> RegistryKeyView {
        RegistryKeyView { hive: self.hive, path: self.path@, values: self.values.deep_view() }
    }
}

/// The snapshot: its keys, in the order in which the registry lists them.
#[derive(Debug, PartialEq, Eq)]
pub struct Registry {
    pub keys: Vec<RegistryKey>,
}

impl DeepView for Registry {
    type V = Seq<RegistryKeyView>;

    open spec fn deep_view(&self) -> Seq<RegistryKeyView> {
        self.keys.deep_view()
    }
}

/// The path of the key `name` below the key `parent`.
pub open spec fn child_key(parent: Seq<char>, name: Seq<char>) -> Seq<char> {
    parent + "\\"@ + name
}

/// The first key of `keys` in `hive` at `path`.
pub open spec fn key_at(keys: Seq<RegistryKeyView>, hive: Hive, path: Seq<char>) -> Option<
    RegistryKeyView,
> {
    first_some(
        keys,
        |key: RegistryKeyView|
            if key.hive == hive && key.path == path {
                Some(key)
            } else {
                None
            },
    )
}

/// The data of the value `name` of the key in `hive` at `path`.
pub open spec fn value_at(keys: Seq<RegistryKeyView>, hive: Hive, path: Seq<char>, name: Seq<char>) -> Option<
    Seq<char>,
> {
    match key_at(keys, hive, path) {
        Some(key) => crate::known::value_of(key.values, name),
        None => None,
    }
}

/// The name under which `key` lies directly below the key in `hive` at
/// `parent`, where it does.
pub open spec fn name_below(key: RegistryKeyView, hive: Hive, parent: Seq<char>) -> Option<Seq<char>> {
    let prefix = parent + "\\"@;
    if key.hive == hive && starts_with(key.path, prefix) && key.path.len() > prefix.len()
        && !contains(key.path.subrange(prefix.len() as int, key.path.len() as int), "\\"@) {
        Some(key.path.subrange(prefix.len() as int, key.path.len() as int))
    } else {
        None
    }
}

/// The names of the keys directly below the key in `hive` at `parent`, in order.
pub open spec fn subkeys_at(keys: Seq<RegistryKeyView>, hive: Hive, parent: Seq<char>) -> Seq<
    Seq<char>,
> {
    collect(keys, |key: RegistryKeyView| name_below(key, hive, parent))
}

/// The path of the key `name` below the key `parent`.
pub fn get_child_key(parent: &str, name: &str) -> (r: String)
    ensures
        r@ == child_key(parent@, name@),
{
    concat3(parent, "\\", name)
}

impl Registry {
    /// A snapshot that holds nothing.
    pub fn new() -> (r: Registry)
        ensures
            r.deep_view() == Seq::<RegistryKeyView>::empty(),
    {
        let r = Registry { keys: Vec::new() };
        assert(r.deep_view() =~= Seq::<RegistryKeyView>::empty());
        r
    }

    /// Adds `key` after the keys that are there.
    pub fn add(&mut self, key: RegistryKey)
        ensures
            final(self).deep_view() == old(self).deep_view().push(key.deep_view()),
    {
        self.keys.push(key);
        assert(self.deep_view() =~= old(self).deep_view().push(key.deep_view()));
    }

    /// The index of the first key in `hive` at `path`.
    fn position(&self, hive: Hive, path: &str) -> (r: Option<usize>)
        ensures
            match r {
                Some(i) => i < self.keys.len() && key_at(self.deep_view(), hive, path@) == Some(
                    self.keys[i as int].deep_view(),
                ),
                None => key_at(self.deep_view(), hive, path@) is None,
            },
    {
        let ghost all = self.deep_view();
        let ghost f = |key: RegistryKeyView|
            if key.hive == hive && key.path == path@ {
                Some(key)
            } else {
                None
            };
        let mut i: usize = 0;
        assert(all.subrange(0, all.len() as int) == all);
        while i < self.keys.len()
            invariant
                i <= self.keys.len(),
                all == self.deep_view(),
                f == |key: RegistryKeyView|
                    if key.hive == hive && key.path == path@ {
                        Some(key)
                    } else {
                        None
                    },
                first_some(all.subrange(i as int, all.len() as int), f) == key_at(
                    all,
                    hive,
                    path@,
                ),
            decreases self.keys.len() - i,
        {
            proof {
                lemma_first_some_step(all, f, i as int);
            }
            if self.keys[i].hive == hive && same_str(self.keys[i].path.as_str(), path) {
                return Some(i);
            }
            i = i + 1;
        }
        None
    }

    /// Whether a key is in `hive` at `path`.
    pub fn has_key(&self, hive: Hive, path: &str) -> (r: bool)
        ensures
            r == key_at(self.deep_view(), hive, path@) is Some,
    {
        self.position(hive, path).is_some()
    }

    /// The data of the value `name` of the key in `hive` at `path`.
    pub fn get_value(&self, hive: Hive, path: &str, name: &str) -> (r: Option<String>)
        ensures
            r.deep_view() == value_at(self.deep_view(), hive, path@, name@),
    {
        match self.position(hive, path) {
            Some(i) => crate::known::lookup_variable(&self.keys[i].values, name),
            None => None,
        }
    }

    /// The names of the keys directly below the key in `hive` at `parent`, in order.
    pub fn enum_keys(&self, hive: Hive, parent: &str) -> (r: Vec<String>)
        ensures
            r.deep_view() == subkeys_at(self.deep_view(), hive, parent@),
    {
        let prefix = crate::text::concat_str(parent, "\\");
        let prefix_len = crate::text::char_count(prefix.as_str());
        let ghost all = self.deep_view();
        let ghost f = |key: RegistryKeyView| name_below(key, hive, parent@);
        let mut out: Vec<String> = Vec::new();
        let mut i: usize = 0;
        assert(out.deep_view() =~= collect(all.take(0), f));
        while i < self.keys.len()
            invariant
                i <= self.keys.len(),
                all == self.deep_view(),
                prefix@ == parent@ + "\\"@,
                prefix_len == prefix@.len(),
                f == |key: RegistryKeyView| name_below(key, hive, parent@),
                out.deep_view() == collect(all.take(i as int), f),
            decreases self.keys.len() - i,
        {
            proof {
                lemma_collect_step(all, f, i as int);
            }
            let key = &self.keys[i];
            let path = key.path.as_str();
            if key.hive == hive && starts_with_str(path, prefix.as_str()) {
                let length = crate::text::char_count(path);
                if length > prefix_len {
                    match slice_str(path, prefix_len, length) {
                        Some(name) => {
                            if !contains_str(name.as_str(), "\\") {
                                let ghost before = out.deep_view();
                                out.push(name);
                                assert(out.deep_view() =~= before.push(name@));
                            }
                        },
                        None => {},
                    }
                }
            }
            i = i + 1;
        }
        assert(all.take(all.len() as int) == all);
        out
    }
}

} // verus!
