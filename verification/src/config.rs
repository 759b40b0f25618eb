//! The per-asset configuration registry.
//!
//! The registry keeps at most one set of loan terms per asset identifier.
//! It is modelled as a finite map from asset identifier to terms; every
//! operation states its effect on that map. Well-formedness guarantees
//! unique keys and that every stored set of terms satisfies the terms
//! invariant.

use vstd::prelude::*;
use vstd::map::*;

use crate::asset::spec_valid_asset_id;
use crate::bytes::{bytes_eq, clone_bytes};
use crate::settings::{spec_valid_settings, LoanServiceSettings, LoanServiceSettingsView};

verus! {

/// One stored entry: an asset identifier and its terms.
pub type ConfigEntry = (Vec<u8>, LoanServiceSettings);

/// Some entry of `s` carries the key `k`.
pub open spec fn spec_has_key(s: Seq<ConfigEntry>, k: Seq<u8>) -> bool {
    exists|j: int| 0 <= j < s.len() && (#[trigger] s[j]).0@ == k
}

/// The index of the entry of `s` carrying the key `k`; meaningful only
/// where `spec_has_key` holds and keys are unique.
pub open spec fn spec_index_of_key(s: Seq<ConfigEntry>, k: Seq<u8>) -> int {
    choose|j: int| 0 <= j < s.len() && (#[trigger] s[j]).0@ == k
}

/// No two entries of `s` carry the same key.
pub open spec fn spec_unique_keys(s: Seq<ConfigEntry>) -> bool {
    forall|i: int, j: int|
        0 <= i < j < s.len() ==> (#[trigger] s[i]).0@ != (#[trigger] s[j]).0@
}

/// The finite map an entry list denotes.
pub open spec fn spec_map_of(s: Seq<ConfigEntry>) -> Map<Seq<u8>, LoanServiceSettingsView> {
    Map::new(|k: Seq<u8>| spec_has_key(s, k), |k: Seq<u8>| s[spec_index_of_key(s, k)].1@)
}

/// With unique keys, the entry at `i` is what the map holds at its key.
pub proof fn lemma_map_of_entry(s: Seq<ConfigEntry>, i: int)
    requires
        spec_unique_keys(s),
        0 <= i < s.len(),
    ensures
        spec_map_of(s).contains_key(s[i].0@),
        spec_map_of(s)[s[i].0@] == s[i].1@,
        spec_index_of_key(s, s[i].0@) == i,
{
    assert(spec_has_key(s, s[i].0@));
    let j = spec_index_of_key(s, s[i].0@);
    assert(0 <= j < s.len() && s[j].0@ == s[i].0@);
    if i != j {
        assert(s[i].0@ != s[j].0@);
    }
}

/// A key carried by no entry is absent from the map.
pub proof fn lemma_map_of_absent(s: Seq<ConfigEntry>, k: Seq<u8>)
    requires
        forall|j: int| 0 <= j < s.len() ==> (#[trigger] s[j]).0@ != k,
    ensures
        !spec_map_of(s).contains_key(k),
{
}

/// Appending an entry under a fresh key inserts it into the map.
pub proof fn lemma_map_of_push(s: Seq<ConfigEntry>, e: ConfigEntry)
    requires
        spec_unique_keys(s),
        !spec_has_key(s, e.0@),
    ensures
        spec_unique_keys(s.push(e)),
        spec_map_of(s.push(e)) == spec_map_of(s).insert(e.0@, e.1@),
{
    let t = s.push(e);
    assert forall|i: int, j: int| 0 <= i < j < t.len() implies (#[trigger] t[i]).0@ != (
    #[trigger] t[j]).0@ by {
        if j < s.len() {
            assert(t[i] == s[i] && t[j] == s[j]);
        } else {
            assert(t[j] == e);
            assert(t[i] == s[i]);
            assert(!spec_has_key(s, e.0@));
            assert(s[i].0@ != e.0@);
        }
    }
    assert forall|k: Seq<u8>| #[trigger]
        spec_has_key(t, k) == (spec_has_key(s, k) || k == e.0@) by {
        if spec_has_key(s, k) {
            let j = spec_index_of_key(s, k);
            assert(t[j] == s[j]);
            assert(spec_has_key(t, k));
        }
        if k == e.0@ {
            assert(t[s.len() as int] == e);
            assert(spec_has_key(t, k));
        }
        if spec_has_key(t, k) {
            let j = spec_index_of_key(t, k);
            if j < s.len() {
                assert(t[j] == s[j]);
                assert(spec_has_key(s, k));
            } else {
                assert(t[j] == e);
            }
        }
    }
    assert forall|k: Seq<u8>| spec_has_key(t, k) implies spec_map_of(t)[k] == spec_map_of(
        s,
    ).insert(e.0@, e.1@)[k] by {
        lemma_map_of_entry(t, spec_index_of_key(t, k));
        if k == e.0@ {
            lemma_map_of_entry(t, s.len() as int);
            assert(t[s.len() as int] == e);
        } else {
            let j = spec_index_of_key(s, k);
            assert(t[j] == s[j]);
            lemma_map_of_entry(t, j);
            lemma_map_of_entry(s, j);
        }
    }
    assert(spec_map_of(t) =~= spec_map_of(s).insert(e.0@, e.1@));
}

/// Removing the entry at `i` removes exactly its key from the map.
pub proof fn lemma_map_of_remove(s: Seq<ConfigEntry>, i: int)
    requires
        spec_unique_keys(s),
        0 <= i < s.len(),
    ensures
        spec_unique_keys(s.remove(i)),
        spec_map_of(s.remove(i)) == spec_map_of(s).remove(s[i].0@),
{
    let t = s.remove(i);
    let k0 = s[i].0@;
    assert forall|a: int, b: int| 0 <= a < b < t.len() implies (#[trigger] t[a]).0@ != (
    #[trigger] t[b]).0@ by {
        let a0: int = if a < i { a } else { a + 1 };
        let b0: int = if b < i { b } else { b + 1 };
        assert(t[a] == s[a0] && t[b] == s[b0]);
    }
    assert forall|k: Seq<u8>| #[trigger]
        spec_has_key(t, k) == (spec_has_key(s, k) && k != k0) by {
        if spec_has_key(t, k) {
            let j = spec_index_of_key(t, k);
            let j0: int = if j < i { j } else { j + 1 };
            assert(t[j] == s[j0]);
            assert(spec_has_key(s, k));
            if k == k0 {
                lemma_map_of_entry(s, j0);
                lemma_map_of_entry(s, i);
                assert(false);
            }
        }
        if spec_has_key(s, k) && k != k0 {
            let j = spec_index_of_key(s, k);
            assert(j != i);
            let j1: int = if j < i { j } else { j - 1 };
            assert(t[j1] == s[j]);
            assert(spec_has_key(t, k));
        }
    }
    assert forall|k: Seq<u8>| spec_has_key(t, k) implies spec_map_of(t)[k] == spec_map_of(s)[k] by {
        let j = spec_index_of_key(t, k);
        lemma_map_of_entry(t, j);
        let j0: int = if j < i { j } else { j + 1 };
        assert(t[j] == s[j0]);
        lemma_map_of_entry(s, j0);
    }
    assert(spec_map_of(t) =~= spec_map_of(s).remove(k0));
}

/// The registry of configured loan terms, one entry per asset.
pub struct ConfigRegistry {
    entries: Vec<ConfigEntry>,
}

impl ConfigRegistry {
    /// The finite map the registry denotes.
    pub closed spec fn as_map(self) -> Map<Seq<u8>, LoanServiceSettingsView> {
        spec_map_of(self.entries@)
    }

    /// Keys are unique, every key is a well-formed asset identifier, and
    /// every stored set of terms satisfies the terms invariant.
    pub closed spec fn wf(self) -> bool {
        &&& spec_unique_keys(self.entries@)
        &&& forall|i: int|
            0 <= i < self.entries@.len() ==> spec_valid_asset_id(
                (#[trigger] self.entries@[i]).0@,
            ) && spec_valid_settings(self.entries@[i].1@)
    }

    /// An empty registry.
    pub fn new() -> (r: Self)
        ensures
            r.wf(),
            r.as_map() == Map::<Seq<u8>, LoanServiceSettingsView>::empty(),
    {
        let r = ConfigRegistry { entries: Vec::new() };
        proof {
            assert(r.as_map() =~= Map::<Seq<u8>, LoanServiceSettingsView>::empty());
        }
        r
    }

    /// The index of the entry for `token_id`, if one exists.
    fn index_of(&self, token_id: &Vec<u8>) -> (r: Option<usize>)
        ensures
            match r {
                Some(i) => i < self.entries@.len() && self.entries@[i as int].0@ == token_id@,
                None => forall|j: int|
                    0 <= j < self.entries@.len() ==> (#[trigger] self.entries@[j]).0@
                        != token_id@,
            },
    {
        let mut i: usize = 0;
        while i < self.entries.len()
            invariant
                0 <= i <= self.entries@.len(),
                forall|j: int| 0 <= j < i ==> (#[trigger] self.entries@[j]).0@ != token_id@,
            decreases self.entries@.len() - i,
        {
            if bytes_eq(&self.entries[i].0, token_id) {
                return Some(i);
            }
            i = i + 1;
        }
        None
    }

    /// Whether terms are configured for `token_id`.
    pub fn contains(&self, token_id: &Vec<u8>) -> (r: bool)
        requires
            self.wf(),
        ensures
            r == self.as_map().contains_key(token_id@),
    {
        match self.index_of(token_id) {
            Some(i) => {
                proof {
                    lemma_map_of_entry(self.entries@, i as int);
                }
                true
            },
            None => {
                proof {
                    lemma_map_of_absent(self.entries@, token_id@);
                }
                false
            },
        }
    }

    /// Looks the terms for `token_id` up.
    pub fn get(&self, token_id: &Vec<u8>) -> (r: Option<LoanServiceSettings>)
        requires
            self.wf(),
        ensures
            match r {
                Some(s) => self.as_map().contains_key(token_id@) && s@ == self.as_map()[token_id@],
                None => !self.as_map().contains_key(token_id@),
            },
    {
        match self.index_of(token_id) {
            Some(i) => {
                proof {
                    lemma_map_of_entry(self.entries@, i as int);
                }
                Some(self.entries[i].1.clone())
            },
            None => {
                proof {
                    lemma_map_of_absent(self.entries@, token_id@);
                }
                None
            },
        }
    }

    /// Removes the terms for `token_id`; absent keys are left alone.
    pub fn remove_key(&mut self, token_id: &Vec<u8>)
        requires
            old(self).wf(),
        ensures
            final(self).wf(),
            final(self).as_map() == old(self).as_map().remove(token_id@),
    {
        match self.index_of(token_id) {
            Some(i) => {
                proof {
                    lemma_map_of_remove(self.entries@, i as int);
                }
                let _ = self.entries.remove(i);
            },
            None => {
                proof {
                    lemma_map_of_absent(self.entries@, token_id@);
                    assert(self.as_map() =~= self.as_map().remove(token_id@));
                }
            },
        }
    }

    /// Stores `settings` for `token_id`, replacing any previous terms.
    pub fn upsert(&mut self, token_id: Vec<u8>, settings: LoanServiceSettings)
        requires
            old(self).wf(),
            spec_valid_asset_id(token_id@),
            spec_valid_settings(settings@),
        ensures
            final(self).wf(),
            final(self).as_map() == old(self).as_map().insert(token_id@, settings@),
    {
        let ghost m0 = self.as_map();
        let ghost k = token_id@;
        let ghost v = settings@;
        self.remove_key(&token_id);
        let ghost s1 = self.entries@;
        proof {
            if spec_has_key(s1, k) {
                lemma_map_of_entry(s1, spec_index_of_key(s1, k));
                assert(false);
            }
            lemma_map_of_push(s1, (token_id, settings));
        }
        self.entries.push((token_id, settings));
        proof {
            assert forall|i: int|
                0 <= i < self.entries@.len() implies spec_valid_asset_id(
                (#[trigger] self.entries@[i]).0@,
            ) && spec_valid_settings(self.entries@[i].1@) by {
                if i < s1.len() {
                    assert(self.entries@[i] == s1[i]);
                } else {
                    assert(self.entries@[i].0@ == k && self.entries@[i].1@ == v);
                }
            }
            assert(self.as_map() =~= m0.insert(k, v));
        }
    }

    /// Every configured asset with its terms, in storage order; the order
    /// carries no meaning.
    pub fn entries_list(&self) -> (r: Vec<(Vec<u8>, LoanServiceSettings)>)
        requires
            self.wf(),
        ensures
            forall|i: int|
                0 <= i < r@.len() ==> self.as_map().contains_key((#[trigger] r@[i]).0@)
                    && self.as_map()[r@[i].0@] == r@[i].1@,
            forall|k: Seq<u8>|
                self.as_map().contains_key(k) ==> exists|i: int|
                    0 <= i < r@.len() && (#[trigger] r@[i]).0@ == k,
            forall|i: int, j: int|
                0 <= i < j < r@.len() ==> (#[trigger] r@[i]).0@ != (#[trigger] r@[j]).0@,
    {
        let mut r: Vec<(Vec<u8>, LoanServiceSettings)> = Vec::new();
        let mut i: usize = 0;
        while i < self.entries.len()
            invariant
                self.wf(),
                0 <= i <= self.entries@.len(),
                r@.len() == i,
                forall|j: int|
                    0 <= j < i ==> (#[trigger] r@[j]).0@ == self.entries@[j].0@ && r@[j].1@
                        == self.entries@[j].1@,
            decreases self.entries@.len() - i,
        {
            let key = clone_bytes(&self.entries[i].0);
            let value = self.entries[i].1.clone();
            r.push((key, value));
            i = i + 1;
        }
        proof {
            assert forall|i2: int| 0 <= i2 < r@.len() implies self.as_map().contains_key(
                (#[trigger] r@[i2]).0@,
            ) && self.as_map()[r@[i2].0@] == r@[i2].1@ by {
                lemma_map_of_entry(self.entries@, i2);
            }
            assert forall|k: Seq<u8>| self.as_map().contains_key(k) implies exists|i2: int|
                0 <= i2 < r@.len() && (#[trigger] r@[i2]).0@ == k by {
                let j = spec_index_of_key(self.entries@, k);
                assert(0 <= j < r@.len() && r@[j].0@ == k);
            }
        }
        r
    }
}

/// Terms looked up in a well-formed registry always satisfy the terms
/// invariant: configuration rejects anything else.
pub proof fn lemma_stored_settings_valid(r: ConfigRegistry, k: Seq<u8>)
    requires
        r.wf(),
        r.as_map().contains_key(k),
    ensures
        spec_valid_settings(r.as_map()[k]),
        spec_valid_asset_id(k),
{
    let s = choose|j: int|
        0 <= j < r.entries@.len() && (#[trigger] r.entries@[j]).0@ == k;
    lemma_map_of_entry(r.entries@, s);
}

} // verus!
