//! The registry's own state: the set of unique keys of currently-monitored
//! projects, and the aggregation rule for the fan-out that lists them.
//!
//! Membership is meant to equal "projects for which setup has been called
//! and stop has not"; the registry owns this set exclusively. Keys are held
//! without duplicates, so registering an already-registered project leaves
//! exactly one entry.

use vstd::prelude::*;
use crate::config::ProjectConfig;

verus! {

/// The set of unique keys of registered projects.
pub struct Registry {
    pub keys: Vec<String>,
}

impl Registry {
    /// The keys as character sequences, in insertion order.
    pub open spec fn spec_keys(self) -> Seq<Seq<char>> {
        self.keys@.map_values(|k: String| k@)
    }

    /// Whether a key is a member.
    pub open spec fn has_key(self, k: Seq<char>) -> bool {
        self.spec_keys().contains(k)
    }

    /// The membership invariant: each key occurs at most once.
    pub open spec fn wf(self) -> bool {
        self.spec_keys().no_duplicates()
    }

    pub fn new() -> (r: Registry)
        ensures
            r.spec_keys() == Seq::<Seq<char>>::empty(),
            r.wf(),
    {
        let r = Registry { keys: Vec::new() };
        proof {
            assert(r.spec_keys() =~= Seq::<Seq<char>>::empty());
        }
        r
    }

    /// The number of registered projects.
    pub fn count(&self) -> (n: usize)
        ensures
            n == self.spec_keys().len(),
    {
        self.keys.len()
    }

    /// Membership test.
    pub fn contains(&self, key: &String) -> (r: bool)
        ensures
            r == self.has_key(key@),
    {
        let mut i: usize = 0;
        while i < self.keys.len()
            invariant
                0 <= i <= self.keys.len(),
                forall|j: int| 0 <= j < i ==> self.spec_keys()[j] != key@,
            decreases self.keys.len() - i,
        {
            if self.keys[i] == *key {
                assert(self.spec_keys()[i as int] == key@);
                return true;
            }
            i += 1;
        }
        false
    }

    /// Add a key. Idempotent on membership: a key already present is left
    /// as the single entry it is, and nothing else changes.
    pub fn add(&mut self, key: &String)
        requires
            old(self).wf(),
        ensures
            final(self).wf(),
            final(self).has_key(key@),
            old(self).has_key(key@) ==> final(self).spec_keys() == old(self).spec_keys(),
            !old(self).has_key(key@) ==> final(self).spec_keys() == old(self).spec_keys().push(
                key@,
            ),
            forall|k: Seq<char>| k != key@ ==> final(self).has_key(k) == old(self).has_key(k),
    {
        if self.contains(key) {
            return;
        }
        self.keys.push(key.clone());
        proof {
            broadcast use vstd::seq::Seq::lemma_push_map_commute;

            assert(self.spec_keys() =~= old(self).spec_keys().push(key@));
            assert(self.spec_keys()[old(self).spec_keys().len() as int] == key@);
            assert forall|k: Seq<char>| k != key@ implies final(self).has_key(k) == old(
                self,
            ).has_key(k) by {
                if old(self).has_key(k) {
                    let i = choose|i: int|
                        0 <= i < old(self).spec_keys().len() && old(self).spec_keys()[i] == k;
                    assert(final(self).spec_keys()[i] == k);
                }
                if final(self).has_key(k) {
                    let i = choose|i: int|
                        0 <= i < final(self).spec_keys().len() && final(self).spec_keys()[i] == k;
                    assert(i < old(self).spec_keys().len());
                    assert(old(self).spec_keys()[i] == k);
                }
            }
        }
    }

    /// Remove a key, reporting whether it was a member. A key not present
    /// leaves the registry untouched.
    pub fn remove(&mut self, key: &String) -> (removed: bool)
        requires
            old(self).wf(),
        ensures
            final(self).wf(),
            removed == old(self).has_key(key@),
            !final(self).has_key(key@),
            !removed ==> final(self).spec_keys() == old(self).spec_keys(),
            removed ==> final(self).spec_keys().len() + 1 == old(self).spec_keys().len(),
            forall|k: Seq<char>| k != key@ ==> final(self).has_key(k) == old(self).has_key(k),
    {
        let ghost old_keys = self.spec_keys();
        let mut i: usize = 0;
        while i < self.keys.len()
            invariant
                0 <= i <= self.keys.len(),
                forall|j: int| 0 <= j < i ==> self.spec_keys()[j] != key@,
                self.spec_keys() == old_keys,
                old(self).wf(),
                self == old(self),
            decreases self.keys.len() - i,
        {
            if self.keys[i] == *key {
                assert(self.spec_keys()[i as int] == key@);
                self.keys.remove(i);
                proof {
                    assert(self.spec_keys() =~= old_keys.subrange(0, i as int) + old_keys.subrange(
                        i + 1,
                        old_keys.len() as int,
                    ));
                    lemma_remove_keeps_others(old_keys, i as int, key@);
                }
                return true;
            }
            i += 1;
        }
        false
    }

    /// The keys, for the fan-out that queries each project's actor.
    pub fn list(&self) -> (r: Vec<String>)
        ensures
            r@.map_values(|k: String| k@) == self.spec_keys(),
    {
        let mut r: Vec<String> = Vec::new();
        let mut i: usize = 0;
        proof {
            assert(r@.map_values(|k: String| k@) =~= self.spec_keys().subrange(0, 0));
        }
        while i < self.keys.len()
            invariant
                0 <= i <= self.keys.len(),
                r@.map_values(|k: String| k@) == self.spec_keys().subrange(0, i as int),
            decreases self.keys.len() - i,
        {
            let ghost prev = r@;
            proof {
                assert(prev.map_values(|k: String| k@).len() == prev.len());
                assert(prev.len() == i as int);
            }
            r.push(self.keys[i].clone());
            proof {
                broadcast use vstd::seq::Seq::lemma_push_map_commute;

                assert(r@[i as int]@ == self.spec_keys()[i as int]);
                assert(r@.map_values(|k: String| k@) =~= self.spec_keys().subrange(
                    0,
                    i as int + 1,
                ));
            }
            i += 1;
        }
        proof {
            assert(self.spec_keys().subrange(0, self.spec_keys().len() as int) =~= self.spec_keys());
        }
        r
    }
}

/// After removing position `i`, which held `key`, from a duplicate-free
/// sequence: the result is still duplicate-free, no longer contains `key`,
/// and contains exactly the other elements.
proof fn lemma_remove_keeps_others(s: Seq<Seq<char>>, i: int, key: Seq<char>)
    requires
        s.no_duplicates(),
        0 <= i < s.len(),
        s[i] == key,
    ensures
        (s.subrange(0, i) + s.subrange(i + 1, s.len() as int)).no_duplicates(),
        !(s.subrange(0, i) + s.subrange(i + 1, s.len() as int)).contains(key),
        forall|k: Seq<char>|
            k != key ==> (s.subrange(0, i) + s.subrange(i + 1, s.len() as int)).contains(k)
                == s.contains(k),
{
    let rest = s.subrange(0, i) + s.subrange(i + 1, s.len() as int);
    assert forall|p: int, q: int| 0 <= p < q < rest.len() implies rest[p] != rest[q] by {
        let p_orig = if p < i { p } else { p + 1 };
        let q_orig = if q < i { q } else { q + 1 };
        assert(rest[p] == s[p_orig]);
        assert(rest[q] == s[q_orig]);
    }
    assert forall|j: int| 0 <= j < rest.len() implies rest[j] != key by {
        let j_orig = if j < i { j } else { j + 1 };
        assert(rest[j] == s[j_orig]);
    }
    assert forall|k: Seq<char>| k != key implies rest.contains(k) == s.contains(k) by {
        if s.contains(k) {
            let j = choose|j: int| 0 <= j < s.len() && s[j] == k;
            if j < i {
                assert(rest[j] == k);
            } else {
                assert(rest[j - 1] == k);
            }
        }
        if rest.contains(k) {
            let j = choose|j: int| 0 <= j < rest.len() && rest[j] == k;
            let j_orig = if j < i { j } else { j + 1 };
            assert(s[j_orig] == k);
        }
    }
}

/// The elements of the present results, in order: what a lossy fan-out
/// returns when some per-key calls failed.
pub open spec fn somes_of<T>(s: Seq<Option<T>>) -> Seq<T>
    decreases s.len(),
{
    if s.len() == 0 {
        Seq::empty()
    } else {
        somes_of(s.drop_last()) + (match s.last() {
            Some(x) => seq![x],
            None => Seq::empty(),
        })
    }
}

/// The number of absent results.
pub open spec fn none_count<T>(s: Seq<Option<T>>) -> nat
    decreases s.len(),
{
    if s.len() == 0 {
        0
    } else {
        none_count(s.drop_last()) + (if s.last() is None {
            1nat
        } else {
            0nat
        })
    }
}

/// Every present result is kept and every absent one dropped, so the
/// aggregate is exactly the results minus the failures: with `n` per-key
/// calls of which `f` failed, the list has `n - f` entries.
pub proof fn lemma_somes_of_len<T>(s: Seq<Option<T>>)
    ensures
        somes_of(s).len() + none_count(s) == s.len(),
    decreases s.len(),
{
    if s.len() > 0 {
        lemma_somes_of_len(s.drop_last());
    }
}

/// With `n` per-key queries of which exactly one failed, the listing holds
/// `n - 1` configurations.
pub proof fn lemma_one_failure_drops_one<T>(s: Seq<Option<T>>)
    requires
        none_count(s) == 1,
    ensures
        somes_of(s).len() + 1 == s.len(),
{
    lemma_somes_of_len(s);
}

/// Collect the configurations that the per-key queries returned, silently
/// dropping the keys whose query failed or found nothing: the documented
/// lossy behavior of the list fan-out.
pub fn collect_configs(results: Vec<Option<ProjectConfig>>) -> (configs: Vec<ProjectConfig>)
    ensures
        configs@ == somes_of(results@),
{
    let mut configs: Vec<ProjectConfig> = Vec::new();
    let mut i: usize = 0;
    let ghost all = results@;
    proof {
        assert(configs@ =~= somes_of(all.subrange(0, 0)));
    }
    let n = results.len();
    for i in 0..n
        invariant
            n == all.len(),
            all == results@,
            configs@ == somes_of(all.subrange(0, i as int)),
        decreases n - i,
    {
        match &results[i] {
            Some(c) => {
                configs.push(c.clone());
            },
            None => {},
        }
        proof {
            assert(all.subrange(0, i + 1).drop_last() =~= all.subrange(0, i as int));
            assert(all.subrange(0, i + 1).last() == all[i as int]);
        }
    }
    proof {
        assert(all.subrange(0, all.len() as int) =~= all);
    }
    configs
}

} // verus!
