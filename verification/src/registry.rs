//! An explicit registry: the key-to-text mapping that the snapshot is
//! resolved against.
//!
//! A `Registry` models the system-information interface as a value: each key
//! either maps to a readable text, or exists but is unreadable (`None`), or
//! is absent altogether. Its view is the corresponding mathematical map.

use vstd::prelude::*;
use crate::resolve::{opt_text_view, spec_resolve_int, spec_resolve_text};

verus! {

/// What reading `key` in the registry map `m` yields: the key's text when
/// the key exists and is readable, nothing otherwise.
pub open spec fn read_of(m: Map<Seq<char>, Option<Seq<char>>>, key: Seq<char>) -> Option<
    Seq<char>,
> {
    if m.contains_key(key) {
        m[key]
    } else {
        None
    }
}

spec fn entries_map(s: Seq<(String, Option<String>)>) -> Map<Seq<char>, Option<Seq<char>>>
    decreases s.len(),
{
    if s.len() == 0 {
        Map::<Seq<char>, Option<Seq<char>>>::empty()
    } else {
        entries_map(s.drop_last()).insert(s.last().0@, opt_text_view(s.last().1))
    }
}

spec fn keys_distinct(s: Seq<(String, Option<String>)>) -> bool {
    forall|i: int, j: int| 0 <= i < j < s.len() ==> s[i].0@ != s[j].0@
}

proof fn lemma_entries_map_no_key(s: Seq<(String, Option<String>)>, k: Seq<char>)
    requires
        forall|i: int| 0 <= i < s.len() ==> (#[trigger] s[i]).0@ != k,
    ensures
        !entries_map(s).contains_key(k),
    decreases s.len(),
{
    if s.len() > 0 {
        let dl = s.drop_last();
        assert(forall|i: int| 0 <= i < dl.len() ==> #[trigger] dl[i] == s[i]);
        lemma_entries_map_no_key(dl, k);
        assert(s.last() == s[s.len() - 1]);
    }
}

proof fn lemma_entries_map_get(s: Seq<(String, Option<String>)>, i: int)
    requires
        keys_distinct(s),
        0 <= i < s.len(),
    ensures
        entries_map(s).contains_key(s[i].0@),
        entries_map(s)[s[i].0@] == opt_text_view(s[i].1),
    decreases s.len(),
{
    let dl = s.drop_last();
    assert(forall|a: int| 0 <= a < dl.len() ==> #[trigger] dl[a] == s[a]);
    if i == s.len() - 1 {
        assert(s.last() == s[i]);
    } else {
        assert(keys_distinct(dl));
        lemma_entries_map_get(dl, i);
        assert(s[i].0@ != s[s.len() - 1].0@);
    }
}

proof fn lemma_entries_map_remove(s: Seq<(String, Option<String>)>, idx: int)
    requires
        keys_distinct(s),
        0 <= idx < s.len(),
    ensures
        entries_map(s.remove(idx)) == entries_map(s).remove(s[idx].0@),
    decreases s.len(),
{
    let k = s[idx].0@;
    let dl = s.drop_last();
    assert(forall|a: int| 0 <= a < dl.len() ==> #[trigger] dl[a] == s[a]);
    assert(keys_distinct(dl));
    if idx == s.len() - 1 {
        assert(s.remove(idx) =~= dl);
        assert(forall|i: int| 0 <= i < dl.len() ==> (#[trigger] dl[i]).0@ != k);
        lemma_entries_map_no_key(dl, k);
        assert(entries_map(dl).insert(s.last().0@, opt_text_view(s.last().1)).remove(k)
            =~= entries_map(dl));
    } else {
        let rem = s.remove(idx);
        lemma_entries_map_remove(dl, idx);
        assert(rem.drop_last() =~= dl.remove(idx));
        assert(rem.last() == s.last());
        assert(entries_map(rem) == entries_map(dl.remove(idx)).insert(
            s.last().0@,
            opt_text_view(s.last().1),
        ));
        assert(s.last().0@ != k);
        assert(entries_map(dl).remove(k).insert(s.last().0@, opt_text_view(s.last().1))
            =~= entries_map(dl).insert(s.last().0@, opt_text_view(s.last().1)).remove(k));
    }
}

/// A finite registry of keys with optional text values.
pub struct Registry {
    entries: Vec<(String, Option<String>)>,
}

impl View for Registry {
    type V = Map<Seq<char>, Option<Seq<char>>>;

    closed spec fn view(&self) -> Map<Seq<char>, Option<Seq<char>>> {
        entries_map(self.entries@)
    }
}

impl Registry {
    #[verifier::type_invariant]
    spec fn inv(self) -> bool {
        keys_distinct(self.entries@)
    }

    /// An empty registry: no key exists.
    pub fn new() -> (r: Self)
        ensures
            r@ == Map::<Seq<char>, Option<Seq<char>>>::empty(),
    {
        Registry { entries: Vec::new() }
    }

    fn position_of(&self, key: &String) -> (r: Option<usize>)
        ensures
            match r {
                Some(i) => i < self.entries@.len() && self.entries@[i as int].0@ == key@,
                None => forall|j: int|
                    0 <= j < self.entries@.len() ==> (#[trigger] self.entries@[j]).0@ != key@,
            },
    {
        let n = self.entries.len();
        let mut i: usize = 0;
        while i < n
            invariant
                i <= n,
                n == self.entries@.len(),
                forall|j: int| 0 <= j < i ==> (#[trigger] self.entries@[j]).0@ != key@,
            decreases n - i,
        {
            if self.entries[i].0 == *key {
                return Some(i);
            }
            i += 1;
        }
        None
    }

    /// Sets `key` to `value`: `Some` text for a readable key, `None` for a
    /// key that exists but cannot be read.
    pub fn set(&mut self, key: String, value: Option<String>)
        ensures
            final(self)@ == old(self)@.insert(key@, opt_text_view(value)),
    {
        proof {
            use_type_invariant(&*self);
        }
        let pos = self.position_of(&key);
        let ghost s0 = self.entries@;
        let mut v: Vec<(String, Option<String>)> = Vec::new();
        core::mem::swap(&mut v, &mut self.entries);
        match pos {
            Some(i) => {
                proof {
                    lemma_entries_map_remove(s0, i as int);
                    assert(forall|a: int|
                        0 <= a < s0.remove(i as int).len() ==> #[trigger] s0.remove(i as int)[a]
                            == (if a < i as int {
                            s0[a]
                        } else {
                            s0[a + 1]
                        }));
                    assert(keys_distinct(s0.remove(i as int)));
                }
                v.remove(i);
                let ghost s1 = v@;
                proof {
                    // every remaining entry differs from `key`
                    assert(forall|a: int| 0 <= a < s1.len() ==> (#[trigger] s1[a]).0@ != key@);
                }
                v.push((key, value));
                proof {
                    assert(v@.drop_last() =~= s1);
                    assert(keys_distinct(v@));
                    assert(entries_map(s0).remove(key@).insert(key@, opt_text_view(value))
                        =~= entries_map(s0).insert(key@, opt_text_view(value)));
                }
            },
            None => {
                v.push((key, value));
                proof {
                    assert(v@.drop_last() =~= s0);
                    assert(keys_distinct(v@));
                }
            },
        }
        core::mem::swap(&mut v, &mut self.entries);
    }

    /// Whether `key` exists in the registry (the cheap existence probe).
    pub fn contains_key(&self, key: &String) -> (r: bool)
        ensures
            r == self@.contains_key(key@),
    {
        proof {
            use_type_invariant(&*self);
        }
        match self.position_of(key) {
            Some(i) => {
                proof {
                    lemma_entries_map_get(self.entries@, i as int);
                }
                true
            },
            None => {
                proof {
                    lemma_entries_map_no_key(self.entries@, key@);
                }
                false
            },
        }
    }

    /// Reads the text of `key`: its value when the key exists and is
    /// readable, nothing otherwise.
    pub fn read_text(&self, key: &String) -> (r: Option<String>)
        ensures
            opt_text_view(r) == read_of(self@, key@),
    {
        proof {
            use_type_invariant(&*self);
        }
        match self.position_of(key) {
            Some(i) => {
                proof {
                    lemma_entries_map_get(self.entries@, i as int);
                }
                match &self.entries[i].1 {
                    Some(t) => Some(t.clone()),
                    None => None,
                }
            },
            None => {
                proof {
                    lemma_entries_map_no_key(self.entries@, key@);
                }
                None
            },
        }
    }

    /// Resolves `key` as an `i32`: its parsed value, or zero when the key is
    /// absent, unreadable, or not a decimal integer in range.
    pub fn resolve_i32(&self, key: &String) -> (r: i32)
        ensures
            r as int == spec_resolve_int(read_of(self@, key@), i32::MIN as int, i32::MAX as int),
    {
        crate::resolve::resolve_i32(self.read_text(key))
    }

    /// Resolves `key` as an `i64`: its parsed value, or zero when the key is
    /// absent, unreadable, or not a decimal integer in range.
    pub fn resolve_i64(&self, key: &String) -> (r: i64)
        ensures
            r as int == spec_resolve_int(read_of(self@, key@), i64::MIN as int, i64::MAX as int),
    {
        crate::resolve::resolve_i64(self.read_text(key))
    }

    /// Resolves `key` as text: its value, or the empty string when the key
    /// is absent or unreadable.
    pub fn resolve_text(&self, key: &String) -> (r: String)
        ensures
            r@ == spec_resolve_text(read_of(self@, key@)),
    {
        crate::resolve::resolve_text(self.read_text(key))
    }
}

} // verus!
