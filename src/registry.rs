use vstd::prelude::*;

use crate::metadata::PluginEntry;
use crate::metadata::PluginMetadata;

verus! {

/// A name and the plugin entry registered under it.
pub struct RegistryEntry<H> {
    pub key: String,
    pub meta: PluginMetadata<H>,
}

/// Whether some entry of `s` is registered under `k`.
pub open spec fn has_key<H>(s: Seq<RegistryEntry<H>>, k: Seq<char>) -> bool {
    exists|i: int| 0 <= i < s.len() && (#[trigger] s[i]).key@ == k
}

/// No two entries of `s` share a name.
pub open spec fn keys_unique<H>(s: Seq<RegistryEntry<H>>) -> bool {
    forall|i: int, j: int|
        0 <= i < s.len() && 0 <= j < s.len() && i != j ==> (#[trigger] s[i]).key@ != (
        #[trigger] s[j]).key@
}

/// The map from name to entry that a sequence of entries with distinct names stands for.
pub open spec fn entries_map<H>(s: Seq<RegistryEntry<H>>) -> Map<Seq<char>, PluginEntry<H>> {
    Map::new(
        |k: Seq<char>| has_key(s, k),
        |k: Seq<char>| s[choose|i: int| 0 <= i < s.len() && (#[trigger] s[i]).key@ == k].meta@,
    )
}

/// Mapping from plugin name to the plugin's registry entry; names are unique.
pub struct PluginRegistry<H> {
    entries: Vec<RegistryEntry<H>>,
}

impl<H> View for PluginRegistry<H> {
    type V = Map<Seq<char>, PluginEntry<H>>;

    closed spec fn view(&self) -> Map<Seq<char>, PluginEntry<H>> {
        entries_map(self.entries@)
    }
}

/// The entry at position `i` is what the map holds under its name.
proof fn lemma_entry_at<H>(s: Seq<RegistryEntry<H>>, i: int)
    requires
        keys_unique(s),
        0 <= i < s.len(),
    ensures
        entries_map(s).contains_key(s[i].key@),
        entries_map(s)[s[i].key@] == s[i].meta@,
{
    let k = s[i].key@;
    assert(has_key(s, k));
    let j = choose|j: int| 0 <= j < s.len() && (#[trigger] s[j]).key@ == k;
    assert(j == i);
}

/// Appending an entry under a new name inserts it into the map.
proof fn lemma_push<H>(s: Seq<RegistryEntry<H>>, e: RegistryEntry<H>)
    requires
        keys_unique(s),
        !has_key(s, e.key@),
    ensures
        keys_unique(s.push(e)),
        entries_map(s.push(e)) == entries_map(s).insert(e.key@, e.meta@),
{
    let t = s.push(e);
    assert forall|i: int, j: int|
        0 <= i < t.len() && 0 <= j < t.len() && i != j implies (#[trigger] t[i]).key@ != (
        #[trigger] t[j]).key@ by {
        if i < s.len() && j < s.len() {
            assert(t[i] == s[i] && t[j] == s[j]);
        } else if i < s.len() {
            assert(t[i] == s[i]);
        } else {
            assert(t[j] == s[j]);
        }
    }
    assert forall|k: Seq<char>| #[trigger] has_key(t, k) == (has_key(s, k) || k == e.key@) by {
        if has_key(s, k) {
            let i = choose|i: int| 0 <= i < s.len() && (#[trigger] s[i]).key@ == k;
            assert(t[i] == s[i]);
        }
        if k == e.key@ {
            assert(t[s.len() as int] == e);
        }
    }
    assert forall|k: Seq<char>| #[trigger] has_key(t, k) implies entries_map(t)[k] == entries_map(
        s,
    ).insert(e.key@, e.meta@)[k] by {
        let i = choose|i: int| 0 <= i < t.len() && (#[trigger] t[i]).key@ == k;
        lemma_entry_at(t, i);
        if i < s.len() {
            assert(t[i] == s[i]);
            lemma_entry_at(s, i);
        }
    }
    assert(entries_map(t) =~= entries_map(s).insert(e.key@, e.meta@));
}

/// Replacing the entry at position `i` by one under the same name updates the map.
proof fn lemma_update<H>(s: Seq<RegistryEntry<H>>, i: int, e: RegistryEntry<H>)
    requires
        keys_unique(s),
        0 <= i < s.len(),
        e.key@ == s[i].key@,
    ensures
        keys_unique(s.update(i, e)),
        entries_map(s.update(i, e)) == entries_map(s).insert(e.key@, e.meta@),
{
    let t = s.update(i, e);
    assert forall|a: int, b: int|
        0 <= a < t.len() && 0 <= b < t.len() && a != b implies (#[trigger] t[a]).key@ != (
        #[trigger] t[b]).key@ by {
        assert(t[a].key@ == s[a].key@ && t[b].key@ == s[b].key@);
    }
    assert forall|k: Seq<char>| #[trigger] has_key(t, k) == has_key(s, k) by {
        if has_key(s, k) {
            let j = choose|j: int| 0 <= j < s.len() && (#[trigger] s[j]).key@ == k;
            assert(t[j].key@ == k);
        }
        if has_key(t, k) {
            let j = choose|j: int| 0 <= j < t.len() && (#[trigger] t[j]).key@ == k;
            assert(s[j].key@ == k);
        }
    }
    lemma_entry_at(s, i);
    assert forall|k: Seq<char>| #[trigger] has_key(t, k) implies entries_map(t)[k] == entries_map(
        s,
    ).insert(e.key@, e.meta@)[k] by {
        let j = choose|j: int| 0 <= j < t.len() && (#[trigger] t[j]).key@ == k;
        lemma_entry_at(t, j);
        if j != i {
            lemma_entry_at(s, j);
        }
    }
    assert(entries_map(t) =~= entries_map(s).insert(e.key@, e.meta@));
}

/// Removing the entry at position `i` removes its name from the map.
proof fn lemma_remove<H>(s: Seq<RegistryEntry<H>>, i: int)
    requires
        keys_unique(s),
        0 <= i < s.len(),
    ensures
        keys_unique(s.remove(i)),
        entries_map(s.remove(i)) == entries_map(s).remove(s[i].key@),
{
    let t = s.remove(i);
    let k0 = s[i].key@;
    assert forall|a: int| 0 <= a < t.len() implies #[trigger] t[a] == s[if a < i {
        a
    } else {
        a + 1
    }] by {}
    assert forall|a: int, b: int|
        0 <= a < t.len() && 0 <= b < t.len() && a != b implies (#[trigger] t[a]).key@ != (
        #[trigger] t[b]).key@ by {
        let sa = if a < i {
            a
        } else {
            a + 1
        };
        let sb = if b < i {
            b
        } else {
            b + 1
        };
        assert(t[a] == s[sa] && t[b] == s[sb]);
    }
    assert forall|k: Seq<char>| #[trigger] has_key(t, k) == (has_key(s, k) && k != k0) by {
        if has_key(s, k) && k != k0 {
            let j = choose|j: int| 0 <= j < s.len() && (#[trigger] s[j]).key@ == k;
            let a = if j < i {
                j
            } else {
                j - 1
            };
            assert(t[a] == s[j]);
        }
        if has_key(t, k) {
            let a = choose|a: int| 0 <= a < t.len() && (#[trigger] t[a]).key@ == k;
            let sa = if a < i {
                a
            } else {
                a + 1
            };
            assert(t[a] == s[sa]);
        }
    }
    assert forall|k: Seq<char>| #[trigger] has_key(t, k) implies entries_map(t)[k]
        == entries_map(s).remove(k0)[k] by {
        let a = choose|a: int| 0 <= a < t.len() && (#[trigger] t[a]).key@ == k;
        let sa = if a < i {
            a
        } else {
            a + 1
        };
        assert(t[a] == s[sa]);
        lemma_entry_at(t, a);
        lemma_entry_at(s, sa);
    }
    assert(entries_map(t) =~= entries_map(s).remove(k0));
}

impl<H> PluginRegistry<H> {
    /// Well-formedness: no two entries share a name.
    pub closed spec fn wf(&self) -> bool {
        keys_unique(self.entries@)
    }

    /// An empty registry.
    pub fn new() -> (r: PluginRegistry<H>)
        ensures
            r.wf(),
            r@ == Map::<Seq<char>, PluginEntry<H>>::empty(),
    {
        let r = PluginRegistry { entries: Vec::new() };
        assert(r@ =~= Map::<Seq<char>, PluginEntry<H>>::empty());
        r
    }

    /// Number of registered plugins.
    pub fn len(&self) -> (r: usize)
        requires
            self.wf(),
        ensures
            r == self@.len(),
    {
        proof {
            self.lemma_len();
        }
        self.entries.len()
    }

    /// The number of entries is the size of the map.
    proof fn lemma_len(&self)
        requires
            self.wf(),
        ensures
            self@.len() == self.entries@.len(),
            self@.dom().finite(),
    {
        lemma_seq_len_map::<H>(self.entries@);
    }

    /// Position of the entry registered under `name`.
    fn find(&self, name: &str) -> (r: Option<usize>)
        requires
            self.wf(),
        ensures
            r matches Some(i) ==> i < self.entries@.len() && self.entries@[i as int].key@ == name@,
            r is None ==> !self@.contains_key(name@),
    {
        let target = name.to_owned();
        let mut i: usize = 0;
        while i < self.entries.len()
            invariant
                i <= self.entries@.len(),
                target@ == name@,
                forall|j: int| 0 <= j < i ==> (#[trigger] self.entries@[j]).key@ != name@,
            decreases self.entries@.len() - i,
        {
            if self.entries[i].key == target {
                return Some(i);
            }
            i += 1;
        }
        None
    }

    /// Whether a plugin is registered under `name`.
    pub fn contains(&self, name: &str) -> (r: bool)
        requires
            self.wf(),
        ensures
            r == self@.contains_key(name@),
    {
        match self.find(name) {
            Some(i) => {
                proof {
                    lemma_entry_at(self.entries@, i as int);
                }
                true
            },
            None => false,
        }
    }

    /// Registers `plugin` under `name`, replacing an entry of the same name.
    pub fn add(&mut self, name: &str, plugin: PluginMetadata<H>)
        requires
            old(self).wf(),
        ensures
            final(self).wf(),
            final(self)@ == old(self)@.insert(name@, plugin@),
    {
        let key = name.to_owned();
        match self.find(name) {
            Some(i) => {
                let ghost s = self.entries@;
                let e = RegistryEntry { key, meta: plugin };
                proof {
                    lemma_update(s, i as int, e);
                }
                self.entries.set(i, e);
            },
            None => {
                let ghost s = self.entries@;
                let e = RegistryEntry { key, meta: plugin };
                proof {
                    assert(!has_key(s, e.key@));
                    lemma_push(s, e);
                }
                self.entries.push(e);
            },
        }
    }

    /// Unregisters `name`, handing back its entry.
    pub fn remove(&mut self, name: &str) -> (r: Option<PluginMetadata<H>>)
        requires
            old(self).wf(),
        ensures
            final(self).wf(),
            final(self)@ == old(self)@.remove(name@),
            r matches Some(m) ==> old(self)@.contains_key(name@) && m@ == old(self)@[name@],
            r is None ==> !old(self)@.contains_key(name@),
    {
        match self.find(name) {
            Some(i) => {
                let ghost s = self.entries@;
                proof {
                    lemma_remove(s, i as int);
                    lemma_entry_at(s, i as int);
                }
                let e = self.entries.remove(i);
                Some(e.meta)
            },
            None => {
                proof {
                    assert(old(self)@.remove(name@) =~= old(self)@);
                }
                None
            },
        }
    }

    /// The entry registered under `name`.
    pub fn borrow_ref(&self, name: &str) -> (r: Option<&PluginMetadata<H>>)
        requires
            self.wf(),
        ensures
            r matches Some(m) ==> self@.contains_key(name@) && m@ == self@[name@],
            r is None ==> !self@.contains_key(name@),
    {
        match self.find(name) {
            Some(i) => {
                proof {
                    lemma_entry_at(self.entries@, i as int);
                }
                Some(&self.entries[i].meta)
            },
            None => None,
        }
    }
}

impl<H> PluginRegistry<H> {
    /// Mutable access to the entry registered under `name`; names stay as they are.
    pub fn borrow_mut(&mut self, name: &str) -> (r: Option<&mut PluginMetadata<H>>)
        requires
            old(self).wf(),
        ensures
            match r {
                Some(m) => {
                    &&& old(self)@.contains_key(name@)
                    &&& m@ == old(self)@[name@]
                    &&& final(self).wf()
                    &&& final(self)@ == old(self)@.insert(name@, final(m)@)
                },
                None => {
                    &&& !old(self)@.contains_key(name@)
                    &&& *final(self) == *old(self)
                },
            },
    {
        match self.find(name) {
            Some(i) => {
                let ghost s = self.entries@;
                proof {
                    lemma_entry_at(s, i as int);
                }
                let m = &mut self.entries[i].meta;
                proof {
                    let e = RegistryEntry { key: s[i as int].key, meta: *final(m) };
                    lemma_update(s, i as int, e);
                }
                Some(m)
            },
            None => None,
        }
    }
}

/// The number of names a sequence of entries with distinct names maps is its length.
proof fn lemma_seq_len_map<H>(s: Seq<RegistryEntry<H>>)
    requires
        keys_unique(s),
    ensures
        entries_map(s).len() == s.len(),
        entries_map(s).dom().finite(),
    decreases s.len(),
{
    if s.len() == 0 {
        assert(entries_map(s) =~= Map::<Seq<char>, PluginEntry<H>>::empty());
    } else {
        let last = s.len() - 1;
        let t = s.remove(last);
        lemma_remove(s, last);
        lemma_seq_len_map(t);
        lemma_entry_at(s, last);
        assert(entries_map(s) =~= entries_map(t).insert(s[last].key@, s[last].meta@));
    }
}

} // verus!
