//! A string-keyed association list with map semantics, used for the rule
//! table and the bucket registry.  Lookup is by the first matching entry;
//! the mutating operations keep the keys unique, so the list behaves as a
//! finite map from key to value.

use vstd::prelude::*;

use crate::text::str_eq;

verus! {

/// The value stored under `k`, if any.
pub open spec fn spec_find<V>(s: Seq<(String, V)>, k: Seq<char>) -> Option<V>
    decreases s.len(),
{
    if s.len() == 0 {
        Option::None
    } else if s[0].0@ == k {
        Option::Some(s[0].1)
    } else {
        spec_find(s.drop_first(), k)
    }
}

/// No key occurs twice.
pub open spec fn unique_keys<V>(s: Seq<(String, V)>) -> bool {
    forall|i: int, j: int| 0 <= i < j < s.len() ==> s[i].0@ != s[j].0@
}

/// Appending an entry leaves earlier keys bound as before and binds the
/// new key only where it was absent.
pub proof fn lemma_find_push<V>(s: Seq<(String, V)>, e: (String, V), k: Seq<char>)
    ensures
        spec_find(s.push(e), k) == (match spec_find(s, k) {
            Option::Some(v) => Option::Some(v),
            Option::None => if e.0@ == k {
                Option::Some(e.1)
            } else {
                Option::None
            },
        }),
    decreases s.len(),
{
    if s.len() == 0 {
        assert(s.push(e)[0] == e);
        assert(s.push(e).drop_first() =~= Seq::<(String, V)>::empty());
        if e.0@ == k {
            assert(spec_find(s.push(e), k) == Option::Some(e.1));
        } else {
            assert(spec_find(s.push(e), k) == spec_find(Seq::<(String, V)>::empty(), k));
            assert(spec_find(s.push(e), k) is None);
        }
        assert(spec_find(s, k) is None);
    } else {
        assert(s.push(e)[0] == s[0]);
        assert(s.push(e).drop_first() =~= s.drop_first().push(e));
        lemma_find_push(s.drop_first(), e, k);
        if s[0].0@ == k {
            assert(spec_find(s.push(e), k) == Option::Some(s[0].1));
            assert(spec_find(s, k) == Option::Some(s[0].1));
        } else {
            assert(spec_find(s.push(e), k) == spec_find(s.drop_first().push(e), k));
            assert(spec_find(s, k) == spec_find(s.drop_first(), k));
        }
    }
}

/// A key that matches no entry is unbound.
pub proof fn lemma_find_absent<V>(s: Seq<(String, V)>, k: Seq<char>)
    requires
        forall|i: int| 0 <= i < s.len() ==> (#[trigger] s[i].0@) != k,
    ensures
        spec_find(s, k) is None,
    decreases s.len(),
{
    if s.len() > 0 {
        lemma_find_absent(s.drop_first(), k);
    }
}

/// An entry's key is always bound to something.
pub proof fn lemma_find_from_entry<V>(s: Seq<(String, V)>, i: int)
    requires
        0 <= i < s.len(),
    ensures
        spec_find(s, s[i].0@) is Some,
    decreases s.len(),
{
    if i > 0 && s[0].0@ != s[i].0@ {
        lemma_find_from_entry(s.drop_first(), i - 1);
    }
}

/// With unique keys, an entry's key is bound to exactly its value.
pub proof fn lemma_find_entry_unique<V>(s: Seq<(String, V)>, i: int)
    requires
        unique_keys(s),
        0 <= i < s.len(),
    ensures
        spec_find(s, s[i].0@) == Option::Some(s[i].1),
    decreases s.len(),
{
    if i > 0 {
        assert(s[0].0@ != s[i].0@);
        assert(unique_keys(s.drop_first())) by {
            assert(forall|a: int, b: int|
                0 <= a < b < s.drop_first().len() ==> s.drop_first()[a] == s[a + 1]
                    && s.drop_first()[b] == s[b + 1]);
        }
        lemma_find_entry_unique(s.drop_first(), i - 1);
    }
}

/// Each entry of `s.remove(i)` is an entry of `s`, shifted past `i`.
pub proof fn lemma_remove_indexing<V>(s: Seq<(String, V)>, i: int)
    requires
        0 <= i < s.len(),
    ensures
        s.remove(i).len() == s.len() - 1,
        forall|j: int|
            0 <= j < s.len() - 1 ==> #[trigger] s.remove(i)[j] == (if j < i {
                s[j]
            } else {
                s[j + 1]
            }),
{
    assert forall|j: int| 0 <= j < s.len() - 1 implies #[trigger] s.remove(i)[j] == (if j < i {
        s[j]
    } else {
        s[j + 1]
    }) by {
        if j < i {
            assert(s.remove(i)[j] == s.subrange(0, i)[j]);
        } else {
            assert(s.remove(i)[j] == s.subrange(i + 1, s.len() as int)[j - i]);
        }
    }
}

/// Removing the entry at `i` does not disturb the binding of any other
/// key, provided keys are unique.
pub proof fn lemma_find_remove_other<V>(s: Seq<(String, V)>, i: int, k: Seq<char>)
    requires
        0 <= i < s.len(),
        s[i].0@ != k,
    ensures
        spec_find(s.remove(i), k) == spec_find(s, k),
    decreases s.len(),
{
    lemma_remove_indexing(s, i);
    if i == 0 {
        assert(s.remove(0) =~= s.drop_first());
    } else {
        assert(s.remove(i)[0] == s[0]);
        if s[0].0@ != k {
            assert(s.remove(i).drop_first() =~= s.drop_first().remove(i - 1));
            lemma_find_remove_other(s.drop_first(), i - 1, k);
        }
    }
}

/// Looks up a key; returns a reference to its value.
pub fn kv_get<'a, V>(s: &'a Vec<(String, V)>, k: &str) -> (r: Option<&'a V>)
    ensures
        match r {
            Option::Some(v) => spec_find(s@, k@) == Option::Some(*v),
            Option::None => spec_find(s@, k@) is None,
        },
{
    let n = s.len();
    proof {
        assert(s@.subrange(0, n as int) =~= s@);
    }
    let mut i: usize = 0;
    while i < n
        invariant
            0 <= i <= n,
            n == s@.len(),
            spec_find(s@, k@) == spec_find(s@.subrange(i as int, n as int), k@),
        decreases n - i,
    {
        if str_eq(s[i].0.as_str(), k) {
            proof {
                assert(s@.subrange(i as int, n as int)[0] == s@[i as int]);
            }
            return Some(&s[i].1);
        }
        proof {
            assert(s@.subrange(i as int, n as int)[0] == s@[i as int]);
            assert(s@.subrange(i as int, n as int).drop_first() =~= s@.subrange(i + 1, n as int));
        }
        i = i + 1;
    }
    proof {
        assert(s@.subrange(n as int, n as int) =~= Seq::<(String, V)>::empty());
    }
    None
}

/// Removes a key's entry; returns its value.
pub fn kv_remove<V>(s: &mut Vec<(String, V)>, k: &str) -> (r: Option<V>)
    requires
        unique_keys(old(s)@),
    ensures
        unique_keys(final(s)@),
        match r {
            Option::Some(v) => spec_find(old(s)@, k@) == Option::Some(v),
            Option::None => {
                &&& spec_find(old(s)@, k@) is None
                &&& final(s)@ == old(s)@
            },
        },
        spec_find(final(s)@, k@) is None,
        forall|k2: Seq<char>| k2 != k@ ==> spec_find(final(s)@, k2) == spec_find(old(s)@, k2),
        final(s)@.len() <= old(s)@.len(),
{
    let n = s.len();
    proof {
        assert(s@.subrange(0, n as int) =~= s@);
    }
    let mut i: usize = 0;
    while i < n
        invariant
            0 <= i <= n,
            n == s@.len(),
            s@ == old(s)@,
            unique_keys(s@),
            forall|j: int| 0 <= j < i ==> (#[trigger] s@[j].0@) != k@,
            spec_find(s@, k@) == spec_find(s@.subrange(i as int, n as int), k@),
        decreases n - i,
    {
        if str_eq(s[i].0.as_str(), k) {
            let ghost pre = s@;
            let ghost ii = i as int;
            proof {
                assert(pre.subrange(ii, n as int)[0] == pre[ii]);
                assert(spec_find(pre, k@) == Option::Some(pre[ii].1));
            }
            let entry = s.remove(i);
            proof {
                let t = pre.remove(ii);
                assert(s@ == t);
                lemma_remove_indexing(pre, ii);
                assert forall|a: int, b: int| 0 <= a < b < t.len() implies t[a].0@ != t[b].0@ by {
                    let a2 = if a < ii {
                        a
                    } else {
                        a + 1
                    };
                    let b2 = if b < ii {
                        b
                    } else {
                        b + 1
                    };
                    assert(t[a] == pre[a2] && t[b] == pre[b2]);
                }
                assert forall|j: int| 0 <= j < t.len() implies (#[trigger] t[j].0@) != k@ by {
                    if j < ii {
                        assert(t[j] == pre[j]);
                    } else {
                        assert(t[j] == pre[j + 1]);
                        assert(pre[ii].0@ == k@);
                    }
                }
                lemma_find_absent(t, k@);
                assert forall|k2: Seq<char>| k2 != k@ implies spec_find(t, k2) == spec_find(
                    pre,
                    k2,
                ) by {
                    lemma_find_remove_other(pre, ii, k2);
                }
            }
            return Some(entry.1);
        }
        proof {
            assert(s@.subrange(i as int, n as int)[0] == s@[i as int]);
            assert(s@.subrange(i as int, n as int).drop_first() =~= s@.subrange(i + 1, n as int));
        }
        i = i + 1;
    }
    proof {
        assert(s@.subrange(n as int, n as int) =~= Seq::<(String, V)>::empty());
    }
    None
}

/// Binds a key to a value, replacing any existing binding.
pub fn kv_set<V>(s: &mut Vec<(String, V)>, k: String, v: V)
    requires
        unique_keys(old(s)@),
    ensures
        unique_keys(final(s)@),
        spec_find(final(s)@, k@) == Option::Some(v),
        forall|k2: Seq<char>| k2 != k@ ==> spec_find(final(s)@, k2) == spec_find(old(s)@, k2),
        final(s)@.len() <= old(s)@.len() + 1,
{
    let _ = kv_remove(s, k.as_str());
    let ghost mid = s@;
    let ghost entry = (k, v);
    proof {
        lemma_find_push(mid, entry, k@);
        assert forall|k2: Seq<char>| k2 != k@ implies spec_find(mid.push(entry), k2) == spec_find(
            mid,
            k2,
        ) by {
            lemma_find_push(mid, entry, k2);
        }
        assert forall|a: int, b: int| 0 <= a < b < mid.push(entry).len() implies mid.push(
            entry,
        )[a].0@ != mid.push(entry)[b].0@ by {
            if b < mid.len() {
                assert(mid.push(entry)[a] == mid[a] && mid.push(entry)[b] == mid[b]);
            } else {
                assert(mid.push(entry)[a] == mid[a] && mid.push(entry)[b] == entry);
                if mid[a].0@ == k@ {
                    lemma_find_from_entry(mid, a);
                }
            }
        }
    }
    s.push((k, v));
}

} // verus!
