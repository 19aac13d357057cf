//! Environment overrides for a child process: a map from variable names to values.

use vstd::prelude::*;
use vstd::string::*;

verus! {

/// Whether no two entries share a variable name.
pub open spec fn env_keys_distinct(entries: Seq<(String, String)>) -> bool {
    forall|i: int, j: int|
        0 <= i < entries.len() && 0 <= j < entries.len() && i != j ==> #[trigger] entries[i].0@
            != #[trigger] entries[j].0@
}

/// Whether some entry carries the variable name `key`.
pub open spec fn env_has_key(entries: Seq<(String, String)>, key: Seq<char>) -> bool {
    exists|i: int| 0 <= i < entries.len() && #[trigger] entries[i].0@ == key
}

/// The value of the entry that carries `key`.
pub open spec fn env_value_of(entries: Seq<(String, String)>, key: Seq<char>) -> Seq<char> {
    entries[choose|i: int| 0 <= i < entries.len() && #[trigger] entries[i].0@ == key].1@
}

/// The map that a list of entries with distinct names stands for.
pub open spec fn env_map(entries: Seq<(String, String)>) -> Map<Seq<char>, Seq<char>> {
    Map::new(|key: Seq<char>| env_has_key(entries, key), |key: Seq<char>| env_value_of(entries, key))
}

/// With distinct names, the map holds each entry's value under its name.
pub proof fn lemma_env_map_at(entries: Seq<(String, String)>, i: int)
    requires
        env_keys_distinct(entries),
        0 <= i < entries.len(),
    ensures
        env_map(entries).contains_key(entries[i].0@),
        env_map(entries)[entries[i].0@] == entries[i].1@,
{
    let key = entries[i].0@;
    assert(env_has_key(entries, key));
    let c = choose|c: int| 0 <= c < entries.len() && #[trigger] entries[c].0@ == key;
    assert(c == i);
}

/// The environment a list of settings produces: each setting inserts its
/// value under its name, so a later setting of a name wins.
pub open spec fn effective_env(settings: Seq<(String, String)>) -> Map<Seq<char>, Seq<char>>
    decreases settings.len(),
{
    if settings.len() == 0 {
        Map::empty()
    } else {
        effective_env(settings.drop_last()).insert(settings.last().0@, settings.last().1@)
    }
}

/// Settings with distinct names produce the map they stand for.
pub proof fn lemma_effective_env_distinct(settings: Seq<(String, String)>)
    requires
        env_keys_distinct(settings),
    ensures
        effective_env(settings) == env_map(settings),
    decreases settings.len(),
{
    if settings.len() > 0 {
        let rest = settings.drop_last();
        let last = settings.last();
        assert forall|i: int, j: int|
            0 <= i < rest.len() && 0 <= j < rest.len() && i != j implies #[trigger] rest[i].0@
                != #[trigger] rest[j].0@ by {
            assert(rest[i] == settings[i] && rest[j] == settings[j]);
        }
        lemma_effective_env_distinct(rest);
        assert forall|k: Seq<char>| #![auto] env_has_key(settings, k) == (env_has_key(rest, k) || k == last.0@) by {
            if env_has_key(settings, k) {
                let x = choose|x: int| 0 <= x < settings.len() && #[trigger] settings[x].0@ == k;
                if x < rest.len() {
                    assert(rest[x] == settings[x]);
                }
            }
            if env_has_key(rest, k) {
                let x = choose|x: int| 0 <= x < rest.len() && #[trigger] rest[x].0@ == k;
                assert(settings[x] == rest[x]);
            }
            if k == last.0@ {
                assert(settings[settings.len() - 1].0@ == k);
            }
        }
        assert forall|k: Seq<char>| #[trigger] env_map(settings).contains_key(k) implies env_map(settings)[k]
            == env_map(rest).insert(last.0@, last.1@)[k] by {
            let x = choose|x: int| 0 <= x < settings.len() && #[trigger] settings[x].0@ == k;
            lemma_env_map_at(settings, x);
            if x < rest.len() {
                assert(rest[x] == settings[x]);
                lemma_env_map_at(rest, x);
                assert(settings[x].0@ != last.0@);
            }
        }
        assert(env_map(settings) =~= env_map(rest).insert(last.0@, last.1@));
    }
}

/// Child environment overrides: each variable name occurs at most once.
#[derive(Debug)]
pub struct EnvVars {
    entries: Vec<(String, String)>,
}

impl View for EnvVars {
    type V = Map<Seq<char>, Seq<char>>;

    closed spec fn view(&self) -> Map<Seq<char>, Seq<char>> {
        env_map(self.entries@)
    }
}

impl EnvVars {
    /// Names occur at most once.
    #[verifier::type_invariant]
    closed spec fn names_unique(self) -> bool {
        env_keys_distinct(self.entries@)
    }

    /// Creates an empty set of overrides.
    pub fn new() -> (env: Self)
        ensures
            env@ == Map::<Seq<char>, Seq<char>>::empty(),
    {
        let env = EnvVars { entries: Vec::new() };
        assert(env@ =~= Map::<Seq<char>, Seq<char>>::empty());
        env
    }

    /// Returns the position of the entry named `key`, if any.
    fn position(&self, key: &String) -> (index: Option<usize>)
        ensures
            index matches Some(i) ==> i < self.entries@.len() && self.entries@[i as int].0@
                == key@,
            index is None ==> !env_has_key(self.entries@, key@),
    {
        let mut i: usize = 0;
        while i < self.entries.len()
            invariant
                i <= self.entries@.len(),
                forall|j: int| 0 <= j < i ==> #[trigger] self.entries@[j].0@ != key@,
            decreases self.entries@.len() - i,
        {
            if self.entries[i].0 == *key {
                return Some(i);
            }
            i = i + 1;
        }
        None
    }

    /// Adds a variable, replacing the value of an existing one with the same name.
    pub fn insert(&mut self, key: &str, value: &str)
        ensures
            final(self)@ == old(self)@.insert(key@, value@),
    {
        proof {
            use_type_invariant(&*self);
        }
        let name = key.to_owned();
        let ghost before = self.entries@;
        let found = self.position(&name);
        let mut entries: Vec<(String, String)> = Vec::new();
        std::mem::swap(&mut entries, &mut self.entries);
        match found {
            Some(i) => {
                entries.set(i, (name, value.to_owned()));
                proof {
                    let after = entries@;
                    assert(env_keys_distinct(after));
                    assert forall|k: Seq<char>|
                        #![auto]
                        env_has_key(after, k) == env_has_key(before, k) by {
                        if env_has_key(before, k) {
                            let j = choose|j: int| 0 <= j < before.len() && before[j].0@ == k;
                            assert(after[j].0@ == k);
                        }
                        if env_has_key(after, k) {
                            let j = choose|j: int| 0 <= j < after.len() && after[j].0@ == k;
                            assert(before[j].0@ == k);
                        }
                    }
                    assert forall|k: Seq<char>| #[trigger]
                        env_map(after).contains_key(k) implies env_map(after)[k] == (
                    if k == key@ {
                        value@
                    } else {
                        env_map(before)[k]
                    }) by {
                        let j = choose|j: int| 0 <= j < after.len() && after[j].0@ == k;
                        lemma_env_map_at(after, j);
                        lemma_env_map_at(before, j);
                    }
                    assert(env_map(after) =~= env_map(before).insert(key@, value@));
                }
            },
            None => {
                entries.push((name, value.to_owned()));
                proof {
                    let after = entries@;
                    assert(env_keys_distinct(after)) by {
                        assert forall|i: int, j: int|
                            0 <= i < after.len() && 0 <= j < after.len() && i != j implies #[trigger] after[i].0@
                                != #[trigger] after[j].0@ by {
                            if i < before.len() && j < before.len() {
                                assert(after[i] == before[i] && after[j] == before[j]);
                            } else if i < before.len() {
                                assert(after[i] == before[i]);
                                assert(!env_has_key(before, key@));
                                assert(before[i].0@ != key@);
                            } else {
                                assert(after[j] == before[j]);
                                assert(before[j].0@ != key@);
                            }
                        }
                    }
                    assert forall|k: Seq<char>|
                        #![auto]
                        env_has_key(after, k) == (env_has_key(before, k) || k == key@) by {
                        if env_has_key(before, k) {
                            let j = choose|j: int| 0 <= j < before.len() && before[j].0@ == k;
                            assert(after[j].0@ == k);
                        }
                        if k == key@ {
                            assert(after[before.len() as int].0@ == k);
                        }
                        if env_has_key(after, k) {
                            let j = choose|j: int| 0 <= j < after.len() && after[j].0@ == k;
                            if j < before.len() {
                                assert(before[j].0@ == k);
                            }
                        }
                    }
                    assert forall|k: Seq<char>| #[trigger]
                        env_map(after).contains_key(k) implies env_map(after)[k] == (
                    if k == key@ {
                        value@
                    } else {
                        env_map(before)[k]
                    }) by {
                        let j = choose|j: int| 0 <= j < after.len() && after[j].0@ == k;
                        lemma_env_map_at(after, j);
                        if j < before.len() {
                            lemma_env_map_at(before, j);
                        }
                    }
                    assert(env_map(after) =~= env_map(before).insert(key@, value@));
                }
            },
        }
        self.entries = entries;
    }

    /// Returns the value of the variable named `key`, if it is set.
    pub fn get(&self, key: &str) -> (value: Option<&String>)
        ensures
            value is Some <==> self@.contains_key(key@),
            value matches Some(v) ==> v@ == self@[key@],
    {
        proof {
            use_type_invariant(self);
        }
        let name = key.to_owned();
        match self.position(&name) {
            Some(i) => {
                proof {
                    lemma_env_map_at(self.entries@, i as int);
                }
                Some(&self.entries[i].1)
            },
            None => None,
        }
    }

    /// Returns `true` when no variable is set.
    pub fn is_empty(&self) -> (empty: bool)
        ensures
            empty == (self@ =~= Map::<Seq<char>, Seq<char>>::empty()),
    {
        proof {
            use_type_invariant(self);
            if self.entries@.len() > 0 {
                lemma_env_map_at(self.entries@, 0);
                assert(self@.contains_key(self.entries@[0].0@));
            }
        }
        self.entries.len() == 0
    }

    /// Returns a copy of the entries that holds the same texts in the same order.
    fn copy_entries(&self) -> (copy: Vec<(String, String)>)
        ensures
            copy@.len() == self.entries@.len(),
            forall|i: int|
                0 <= i < copy@.len() ==> #[trigger] copy@[i].0@ == self.entries@[i].0@ && copy@[i].1@
                    == self.entries@[i].1@,
    {
        let mut copy: Vec<(String, String)> = Vec::new();
        let mut i: usize = 0;
        while i < self.entries.len()
            invariant
                i <= self.entries@.len(),
                copy@.len() == i,
                forall|j: int|
                    0 <= j < i ==> #[trigger] copy@[j].0@ == self.entries@[j].0@ && copy@[j].1@
                        == self.entries@[j].1@,
            decreases self.entries@.len() - i,
        {
            let entry = &self.entries[i];
            copy.push((entry.0.clone(), entry.1.clone()));
            i = i + 1;
        }
        copy
    }

    /// Returns the name-value pairs, each name once, in the order they were first set.
    pub fn pairs(&self) -> (pairs: &Vec<(String, String)>)
        ensures
            env_keys_distinct(pairs@),
            env_map(pairs@) == self@,
    {
        proof {
            use_type_invariant(self);
        }
        &self.entries
    }
}

impl Clone for EnvVars {
    fn clone(&self) -> (copy: Self)
        ensures
            copy@ == self@,
    {
        proof {
            use_type_invariant(self);
        }
        let entries = self.copy_entries();
        proof {
            let a = entries@;
            let b = self.entries@;
            assert(env_keys_distinct(a));
            assert forall|k: Seq<char>| #![auto] env_has_key(a, k) == env_has_key(b, k) by {
                if env_has_key(a, k) {
                    let j = choose|j: int| 0 <= j < a.len() && a[j].0@ == k;
                    assert(b[j].0@ == k);
                }
                if env_has_key(b, k) {
                    let j = choose|j: int| 0 <= j < b.len() && b[j].0@ == k;
                    assert(a[j].0@ == k);
                }
            }
            assert forall|k: Seq<char>| #[trigger] env_map(a).contains_key(k) implies env_map(a)[k]
                == env_map(b)[k] by {
                let j = choose|j: int| 0 <= j < a.len() && a[j].0@ == k;
                lemma_env_map_at(a, j);
                lemma_env_map_at(b, j);
            }
            assert(env_map(a) =~= env_map(b));
        }
        EnvVars { entries }
    }
}

} // verus!
