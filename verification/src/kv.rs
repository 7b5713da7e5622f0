//! A small string-keyed association list with first-match lookup.
//!
//! The shared per-listener state maps upstream URIs to tips or health
//! flags.  The maps are tiny (one entry per configured node), so a vector
//! of pairs with linear scans serves, and its contracts speak of the
//! first-match lookup below.

use vstd::prelude::*;
use vstd::string::*;
use crate::strutil::string_eq_str;

verus! {

/// Value under the first entry keyed `k`, or `None`.
pub open spec fn kv_lookup<V>(entries: Seq<(String, V)>, k: Seq<char>) -> Option<V>
    decreases entries.len(),
{
    if entries.len() == 0 {
        None
    } else if entries[0].0@ == k {
        Some(entries[0].1)
    } else {
        kv_lookup(entries.drop_first(), k)
    }
}

/// A found value sits at some entry.
pub proof fn lemma_kv_lookup_some<V>(entries: Seq<(String, V)>, k: Seq<char>, v: V)
    requires
        kv_lookup(entries, k) == Some(v),
    ensures
        exists|j: int| 0 <= j < entries.len() && (#[trigger] entries[j]).0@ == k && entries[j].1
            == v,
    decreases entries.len(),
{
    if entries[0].0@ == k {
        assert(entries[0].0@ == k && entries[0].1 == v);
    } else {
        lemma_kv_lookup_some(entries.drop_first(), k, v);
        let j = choose|j: int|
            0 <= j < entries.drop_first().len() && (#[trigger] entries.drop_first()[j]).0@ == k
                && entries.drop_first()[j].1 == v;
        assert(entries[j + 1] == entries.drop_first()[j]);
    }
}

/// Replacing the first entry keyed `k` changes the lookup of `k` alone.
proof fn lemma_kv_update<V>(entries: Seq<(String, V)>, i: int, e: (String, V), t: Seq<char>)
    requires
        0 <= i < entries.len(),
        entries[i].0@ == e.0@,
        forall|j: int| 0 <= j < i ==> (#[trigger] entries[j].0)@ != e.0@,
    ensures
        kv_lookup(entries.update(i, e), t) == (if t == e.0@ {
            Some(e.1)
        } else {
            kv_lookup(entries, t)
        }),
    decreases entries.len(),
{
    let u = entries.update(i, e);
    if i == 0 {
        assert(u.drop_first() =~= entries.drop_first());
    } else {
        assert(u[0] == entries[0]);
        assert(u.drop_first() =~= entries.drop_first().update(i - 1, e));
        assert forall|j: int| 0 <= j < i - 1 implies (#[trigger] entries.drop_first()[j].0)@
            != e.0@ by {
            assert(entries.drop_first()[j] == entries[j + 1]);
        }
        assert(entries.drop_first()[i - 1] == entries[i]);
        lemma_kv_update(entries.drop_first(), i - 1, e, t);
    }
}

/// Appending an entry under a fresh key changes the lookup of that key
/// alone.
proof fn lemma_kv_push<V>(entries: Seq<(String, V)>, e: (String, V), t: Seq<char>)
    requires
        kv_lookup(entries, e.0@) is None,
    ensures
        kv_lookup(entries.push(e), t) == (if t == e.0@ {
            Some(e.1)
        } else {
            kv_lookup(entries, t)
        }),
    decreases entries.len(),
{
    let u = entries.push(e);
    if entries.len() == 0 {
        assert(u[0] == e);
        assert(u.drop_first() =~= Seq::<(String, V)>::empty());
    } else {
        assert(u[0] == entries[0]);
        assert(u.drop_first() =~= entries.drop_first().push(e));
        lemma_kv_push(entries.drop_first(), e, t);
    }
}

/// A vector of key-value pairs, read through first-match lookup.
#[derive(Debug)]
pub struct KvList<V> {
    entries: Vec<(String, V)>,
}

impl<V> KvList<V> {
    pub closed spec fn view(&self) -> Seq<(String, V)> {
        self.entries@
    }

    /// An empty list.
    pub fn new() -> (r: Self)
        ensures
            r@ =~= Seq::<(String, V)>::empty(),
    {
        KvList { entries: Vec::new() }
    }

    /// The entries, for iteration.
    pub fn entries(&self) -> (r: &Vec<(String, V)>)
        ensures
            r@ == self@,
    {
        &self.entries
    }

    /// How many entries the list holds.
    pub fn len(&self) -> (r: usize)
        ensures
            r == self@.len(),
    {
        self.entries.len()
    }

    /// The value under `key`, if any.
    #[verifier::loop_isolation(false)]
    pub fn get<'a>(&'a self, key: &str) -> (r: Option<&'a V>)
        ensures
            match r {
                Some(v) => kv_lookup(self@, key@) == Some(*v),
                None => kv_lookup(self@, key@) is None,
            },
    {
        let n = self.entries.len();
        let mut i: usize = 0;
        proof {
            assert(self@.skip(0) =~= self@);
        }
        while i < n
            invariant
                i <= n,
                kv_lookup(self@, key@) == kv_lookup(self@.skip(i as int), key@),
            decreases n - i,
        {
            proof {
                assert(self@.skip(i as int).drop_first() =~= self@.skip(i as int + 1));
                assert(self@.skip(i as int)[0] == self@[i as int]);
            }
            if string_eq_str(&self.entries[i].0, key) {
                return Some(&self.entries[i].1);
            }
            i = i + 1;
        }
        proof {
            assert(self@.skip(n as int) =~= Seq::<(String, V)>::empty());
        }
        None
    }

    /// Bind `key` to `value`: replace the first entry under `key`, or
    /// append one.  Every other key's lookup is untouched.
    #[verifier::loop_isolation(false)]
    pub fn set(&mut self, key: &str, value: V)
        ensures
            kv_lookup(final(self)@, key@) == Some(value),
            forall|t: Seq<char>|
                #![trigger kv_lookup(final(self)@, t)]
                #![trigger kv_lookup(old(self)@, t)]
                t != key@ ==> kv_lookup(final(self)@, t) == kv_lookup(old(self)@, t),
    {
        let ghost value_spec = value;
        let n = self.entries.len();
        let mut i: usize = 0;
        while i < n
            invariant
                i <= n,
                n == self@.len(),
                self@ == old(self)@,
                forall|j: int| 0 <= j < i ==> (#[trigger] self@[j].0)@ != key@,
            decreases n - i,
        {
            if string_eq_str(&self.entries[i].0, key) {
                let k = key.to_owned();
                self.entries.set(i, (k, value));
                proof {
                    lemma_kv_update(
                        old(self)@,
                        i as int,
                        (self@[i as int].0, value_spec),
                        key@,
                    );
                    assert forall|t: Seq<char>| t != key@ implies kv_lookup(self@, t) == kv_lookup(
                        old(self)@,
                        t,
                    ) by {
                        lemma_kv_update(
                            old(self)@,
                            i as int,
                            (self@[i as int].0, value_spec),
                            t,
                        );
                    }
                }
                return ;
            }
            i = i + 1;
        }
        let k = key.to_owned();
        self.entries.push((k, value));
        proof {
            let e = self@[self@.len() - 1];
            assert(self@ =~= old(self)@.push(e));
            if kv_lookup(old(self)@, key@) is Some {
                lemma_kv_lookup_some(old(self)@, key@, kv_lookup(old(self)@, key@).unwrap());
                assert(false);
            }
            lemma_kv_push(old(self)@, e, key@);
            assert forall|t: Seq<char>| t != key@ implies kv_lookup(self@, t) == kv_lookup(
                old(self)@,
                t,
            ) by {
                lemma_kv_push(old(self)@, e, t);
            }
        }
    }
}

} // verus!
