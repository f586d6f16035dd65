//! The live profile table: an association list keyed by IP text, with
//! unique keys.  This is the one structure the aggregation step mutates;
//! snapshots of it are what readers see.

use vstd::prelude::*;
use crate::profile::{TrafficProfile, profile_eq};
use crate::text::str_eq;

verus! {

/// First-match lookup in an entry sequence.
pub open spec fn table_get(s: Seq<(String, TrafficProfile)>, k: Seq<char>) -> Option<TrafficProfile>
    decreases s.len(),
{
    if s.len() == 0 {
        None
    } else if s[0].0@ == k {
        Some(s[0].1)
    } else {
        table_get(s.drop_first(), k)
    }
}

/// All keys pairwise distinct.
pub open spec fn keys_unique(s: Seq<(String, TrafficProfile)>) -> bool {
    forall|i: int, j: int| 0 <= i < j < s.len() ==> (#[trigger] s[i]).0@ != (#[trigger] s[j]).0@
}

/// Entrywise correspondence: same keys in the same order, values equal up
/// to the abstract contents of their lists (what a clone preserves).
pub open spec fn table_like(a: Seq<(String, TrafficProfile)>, b: Seq<(String, TrafficProfile)>) -> bool {
    a.len() == b.len() && (forall|i: int|
        0 <= i < a.len() ==> (#[trigger] a[i]).0 == (#[trigger] b[i]).0 && profile_eq(a[i].1, b[i].1))
}

/// Optional profiles equal up to the abstract contents of their lists.
pub open spec fn opt_profile_eq(a: Option<TrafficProfile>, b: Option<TrafficProfile>) -> bool {
    match (a, b) {
        (Option::None, Option::None) => true,
        (Option::Some(x), Option::Some(y)) => profile_eq(x, y),
        _ => false,
    }
}

/// Appending an entry only adds a binding for its key, and only where that
/// key was absent.
pub proof fn lemma_get_push(s: Seq<(String, TrafficProfile)>, pair: (String, TrafficProfile), k: Seq<char>)
    ensures
        table_get(s.push(pair), k) == (match table_get(s, k) {
            Option::Some(v) => Some(v),
            Option::None => if pair.0@ == k {
                Some(pair.1)
            } else {
                None
            },
        }),
    decreases s.len(),
{
    if s.len() == 0 {
        assert(s.push(pair)[0] == pair);
        assert(s.push(pair).drop_first().len() == 0);
        assert(table_get(s.push(pair).drop_first(), k) is None);
    } else {
        assert(s.push(pair)[0] == s[0]);
        assert(s.push(pair).drop_first() =~= s.drop_first().push(pair));
        lemma_get_push(s.drop_first(), pair, k);
    }
}

/// Under unique keys, the entry at any index is what lookup by its key
/// finds.
pub proof fn lemma_get_at_index(s: Seq<(String, TrafficProfile)>, i: int)
    requires
        keys_unique(s),
        0 <= i < s.len(),
    ensures
        table_get(s, s[i].0@) == Some(s[i].1),
    decreases s.len(),
{
    if i > 0 {
        assert(s[0].0@ != s[i].0@);
        assert(s.drop_first()[i - 1] == s[i]);
        assert(keys_unique(s.drop_first())) by {
            assert(forall|x: int, y: int|
                0 <= x < y < s.drop_first().len() ==> s.drop_first()[x] == s[x + 1] && s.drop_first()[y] == s[y
                    + 1]);
        }
        lemma_get_at_index(s.drop_first(), i - 1);
    }
}

/// Lookup finds nothing exactly when no entry carries the key.
pub proof fn lemma_get_absent(s: Seq<(String, TrafficProfile)>, k: Seq<char>)
    ensures
        (table_get(s, k) is None) <==> (forall|i: int| 0 <= i < s.len() ==> (#[trigger] s[i]).0@ != k),
    decreases s.len(),
{
    if s.len() > 0 {
        lemma_get_absent(s.drop_first(), k);
        assert(forall|i: int| 0 <= i < s.drop_first().len() ==> s.drop_first()[i] == s[i + 1]);
        if s[0].0@ != k && (table_get(s.drop_first(), k) is None) {
            assert forall|i: int| 1 <= i < s.len() implies (#[trigger] s[i]).0@ != k by {
                assert(s.drop_first()[i - 1] == s[i]);
            }
        }
    }
}

/// Removing the entry at an index removes exactly its key's binding,
/// under unique keys.
pub proof fn lemma_get_remove(s: Seq<(String, TrafficProfile)>, i: int, k: Seq<char>)
    requires
        keys_unique(s),
        0 <= i < s.len(),
    ensures
        table_get(s.remove(i), k) == (if s[i].0@ == k {
            None::<TrafficProfile>
        } else {
            table_get(s, k)
        }),
    decreases s.len(),
{
    if i == 0 {
        assert(s.remove(0) =~= s.drop_first());
        if s[0].0@ == k {
            lemma_get_absent(s, k);
            lemma_get_absent(s.drop_first(), k);
            if table_get(s.drop_first(), k) matches Some(v) {
                assert(!(forall|j: int|
                    0 <= j < s.drop_first().len() ==> (#[trigger] s.drop_first()[j]).0@ != k));
                let j = choose|j: int| 0 <= j < s.drop_first().len() && (#[trigger] s.drop_first()[j]).0@ == k;
                assert(s[j + 1].0@ == k);
                assert(false);
            }
        }
    } else {
        assert(s.remove(i)[0] == s[0]);
        assert(s.remove(i).drop_first() =~= s.drop_first().remove(i - 1));
        assert(keys_unique(s.drop_first())) by {
            assert(forall|x: int, y: int|
                0 <= x < y < s.drop_first().len() ==> s.drop_first()[x] == s[x + 1] && s.drop_first()[y] == s[y
                    + 1]);
        }
        assert(s.drop_first()[i - 1] == s[i]);
        lemma_get_remove(s.drop_first(), i - 1, k);
    }
}

/// Corresponding tables answer every lookup with corresponding profiles.
pub proof fn lemma_get_like(a: Seq<(String, TrafficProfile)>, b: Seq<(String, TrafficProfile)>, k: Seq<char>)
    requires
        table_like(a, b),
    ensures
        opt_profile_eq(table_get(a, k), table_get(b, k)),
    decreases a.len(),
{
    if a.len() > 0 {
        assert(a[0].0 == b[0].0 && profile_eq(a[0].1, b[0].1));
        assert(table_like(a.drop_first(), b.drop_first())) by {
            assert(forall|i: int|
                0 <= i < a.drop_first().len() ==> a.drop_first()[i] == a[i + 1] && b.drop_first()[i] == b[i + 1]);
        }
        lemma_get_like(a.drop_first(), b.drop_first(), k);
    }
}

/// The live profile table, keyed by IP text, keys unique.
#[derive(Debug)]
pub struct ProfileTable {
    entries: Vec<(String, TrafficProfile)>,
}

impl View for ProfileTable {
    type V = Seq<(String, TrafficProfile)>;

    closed spec fn view(&self) -> Seq<(String, TrafficProfile)> {
        self.entries@
    }
}

impl ProfileTable {
    /// The table's well-formedness: every key appears once.
    pub open spec fn wf(&self) -> bool {
        keys_unique(self@)
    }

    /// Lookup in the abstract table.
    pub open spec fn spec_get(&self, k: Seq<char>) -> Option<TrafficProfile> {
        table_get(self@, k)
    }

    /// An empty table.
    pub fn new() -> (r: Self)
        ensures
            r@.len() == 0,
            r.wf(),
    {
        ProfileTable { entries: Vec::new() }
    }

    /// How many profiles the table holds.
    pub fn len(&self) -> (r: usize)
        ensures
            r == self@.len(),
    {
        self.entries.len()
    }

    /// The entry at an index, for walking the table.
    pub fn at(&self, i: usize) -> (r: &(String, TrafficProfile))
        requires
            i < self@.len(),
        ensures
            *r == self@[i as int],
    {
        &self.entries[i]
    }

    /// The index of a key's entry, if the key is bound.
    fn find(&self, key: &str) -> (r: Option<usize>)
        ensures
            r matches Some(i) ==> i < self@.len() && self@[i as int].0@ == key@,
            r is None ==> forall|j: int| 0 <= j < self@.len() ==> (#[trigger] self@[j]).0@ != key@,
    {
        let n = self.entries.len();
        let mut i: usize = 0;
        while i < n
            invariant
                n == self@.len(),
                i <= n,
                forall|j: int| 0 <= j < i ==> (#[trigger] self@[j]).0@ != key@,
            decreases n - i,
        {
            if str_eq(self.entries[i].0.as_str(), key) {
                return Some(i);
            }
            i += 1;
        }
        None
    }

    /// Look a profile up by its key.
    pub fn get(&self, key: &str) -> (r: Option<&TrafficProfile>)
        requires
            self.wf(),
        ensures
            r matches Some(p) ==> self.spec_get(key@) == Some(*p),
            r is None ==> self.spec_get(key@) is None,
    {
        match self.find(key) {
            Some(i) => {
                proof {
                    lemma_get_at_index(self@, i as int);
                }
                Some(&self.entries[i].1)
            },
            None => {
                proof {
                    lemma_get_absent(self@, key@);
                }
                None
            },
        }
    }

    /// Bind a key to a profile, replacing any previous binding.
    pub fn insert(&mut self, key: String, profile: TrafficProfile)
        requires
            old(self).wf(),
        ensures
            final(self).wf(),
            final(self).spec_get(key@) == Some(profile),
            forall|k: Seq<char>| k != key@ ==> final(self).spec_get(k) == old(self).spec_get(k),
            final(self)@.len() == old(self)@.len() + (if old(self).spec_get(key@) is Some {
                0int
            } else {
                1int
            }),
    {
        let ghost pre = self@;
        match self.find(key.as_str()) {
            Some(i) => {
                proof {
                    lemma_get_at_index(pre, i as int);
                }
                self.entries.remove(i);
                proof {
                    assert forall|k: Seq<char>| true implies table_get(self@, k) == (if pre[i as int].0@ == k {
                        None::<TrafficProfile>
                    } else {
                        table_get(pre, k)
                    }) by {
                        lemma_get_remove(pre, i as int, k);
                    }
                    assert(keys_unique(self@)) by {
                        assert(forall|x: int|
                            0 <= x < self@.len() ==> self@[x] == (if x < i as int {
                                pre[x]
                            } else {
                                pre[x + 1]
                            }));
                    }
                }
            },
            None => {
                proof {
                    lemma_get_absent(pre, key@);
                }
            },
        }
        let ghost mid = self@;
        proof {
            lemma_get_absent(mid, key@);
        }
        self.entries.push((key, profile));
        proof {
            assert forall|k: Seq<char>| true implies table_get(self@, k) == (match table_get(mid, k) {
                Option::Some(v) => Some(v),
                Option::None => if key@ == k {
                    Some(profile)
                } else {
                    None
                },
            }) by {
                lemma_get_push(mid, (key, profile), k);
            }
            assert(keys_unique(self@)) by {
                assert(forall|x: int| 0 <= x < mid.len() ==> self@[x] == mid[x]);
                assert(self@[mid.len() as int].0@ == key@);
                assert forall|x: int, y: int| 0 <= x < y < self@.len() implies self@[x].0@ != self@[y].0@ by {
                    if y == mid.len() as int {
                        assert(self@[x] == mid[x]);
                        lemma_get_absent(mid, key@);
                    }
                }
            }
        }
    }

    /// Drop a key's binding, returning the profile it was bound to.
    pub fn remove(&mut self, key: &str) -> (r: Option<TrafficProfile>)
        requires
            old(self).wf(),
        ensures
            final(self).wf(),
            final(self).spec_get(key@) is None,
            forall|k: Seq<char>| k != key@ ==> final(self).spec_get(k) == old(self).spec_get(k),
            r == old(self).spec_get(key@),
            final(self)@.len() == old(self)@.len() - (if old(self).spec_get(key@) is Some {
                1int
            } else {
                0int
            }),
    {
        let ghost pre = self@;
        match self.find(key) {
            Some(i) => {
                proof {
                    lemma_get_at_index(pre, i as int);
                }
                let (_k, p) = self.entries.remove(i);
                proof {
                    assert forall|k: Seq<char>| true implies table_get(self@, k) == (if pre[i as int].0@ == k {
                        None::<TrafficProfile>
                    } else {
                        table_get(pre, k)
                    }) by {
                        lemma_get_remove(pre, i as int, k);
                    }
                    assert(keys_unique(self@)) by {
                        assert(forall|x: int|
                            0 <= x < self@.len() ==> self@[x] == (if x < i as int {
                                pre[x]
                            } else {
                                pre[x + 1]
                            }));
                    }
                }
                Some(p)
            },
            None => {
                proof {
                    lemma_get_absent(pre, key@);
                }
                None
            },
        }
    }

    /// Drop every binding.
    pub fn clear(&mut self)
        ensures
            final(self)@.len() == 0,
            final(self).wf(),
            forall|k: Seq<char>| final(self).spec_get(k) is None,
    {
        self.entries = Vec::new();
    }
}

impl Clone for ProfileTable {
    /// A clone corresponds entrywise to the original.
    fn clone(&self) -> (r: Self)
        ensures
            table_like(self@, r@),
            self.wf() ==> r.wf(),
    {
        let n = self.entries.len();
        let mut out: Vec<(String, TrafficProfile)> = Vec::new();
        let mut i: usize = 0;
        while i < n
            invariant
                n == self@.len(),
                i <= n,
                out@.len() == i,
                forall|j: int|
                    0 <= j < i ==> (#[trigger] out@[j]).0 == self@[j].0 && profile_eq(out@[j].1, self@[j].1),
            decreases n - i,
        {
            let pair = &self.entries[i];
            out.push((pair.0.clone(), pair.1.clone()));
            i += 1;
        }
        let r = ProfileTable { entries: out };
        proof {
            if self.wf() {
                assert forall|x: int, y: int| 0 <= x < y < r@.len() implies r@[x].0@ != r@[y].0@ by {
                    assert(r@[x].0 == self@[x].0 && r@[y].0 == self@[y].0);
                }
            }
        }
        r
    }
}

} // verus!
