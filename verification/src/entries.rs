//! Key/value entry lists that behave like maps: a key's value is that of its
//! last entry, and inserting a key that is present replaces its value.

use vstd::prelude::*;

verus! {

/// The value an entry list gives a key: the value of the last entry with
/// that key, as a map built from the list in order would hold it.
pub open spec fn lookup(s: Seq<(String, String)>, k: Seq<char>) -> Option<Seq<char>>
    decreases s.len(),
{
    if s.len() == 0 {
        None
    } else if s.last().0@ == k {
        Some(s.last().1@)
    } else {
        lookup(s.drop_last(), k)
    }
}

/// No key occurs twice in the entry list.
pub open spec fn distinct_keys(s: Seq<(String, String)>) -> bool {
    forall|i: int, j: int| 0 <= i < j < s.len() ==> s[i].0@ != s[j].0@
}

/// A key has no value exactly when no entry carries it.
pub proof fn lemma_lookup_none(s: Seq<(String, String)>, k: Seq<char>)
    ensures
        lookup(s, k) is None <==> forall|i: int| 0 <= i < s.len() ==> s[i].0@ != k,
    decreases s.len(),
{
    if s.len() > 0 {
        lemma_lookup_none(s.drop_last(), k);
        assert forall|i: int| 0 <= i < s.len() - 1 implies s.drop_last()[i] == s[i] by {}
    }
}

/// With distinct keys, the value of a key is that of the entry carrying it.
pub proof fn lemma_lookup_at(s: Seq<(String, String)>, i: int)
    requires
        distinct_keys(s),
        0 <= i < s.len(),
    ensures
        lookup(s, s[i].0@) == Some(s[i].1@),
    decreases s.len(),
{
    if i < s.len() - 1 {
        assert(s.drop_last()[i] == s[i]);
        lemma_lookup_at(s.drop_last(), i);
    }
}

/// Replacing the value of the last entry carrying a key changes the value of
/// that key only.
pub proof fn lemma_lookup_update(s: Seq<(String, String)>, i: int, e: (String, String), k: Seq<char>)
    requires
        0 <= i < s.len(),
        s[i].0@ == e.0@,
        forall|j: int| i < j < s.len() ==> s[j].0@ != e.0@,
    ensures
        lookup(s.update(i, e), k) == (if k == e.0@ {
            Some(e.1@)
        } else {
            lookup(s, k)
        }),
        distinct_keys(s) ==> distinct_keys(s.update(i, e)),
    decreases s.len(),
{
    let t = s.update(i, e);
    if i == s.len() - 1 {
        assert(t.drop_last() =~= s.drop_last());
    } else {
        assert(t.drop_last() =~= s.drop_last().update(i, e));
        assert(t.last() == s.last());
        lemma_lookup_update(s.drop_last(), i, e, k);
    }
}

/// Adding an entry for a new key.
pub proof fn lemma_lookup_push(s: Seq<(String, String)>, e: (String, String), k: Seq<char>)
    ensures
        lookup(s.push(e), k) == (if e.0@ == k {
            Some(e.1@)
        } else {
            lookup(s, k)
        }),
{
    assert(s.push(e).drop_last() =~= s);
}

/// Where the last entry for `key` stands, if there is one.
pub fn position_of(entries: &Vec<(String, String)>, key: &String) -> (r: Option<usize>)
    ensures
        r matches Some(i) ==> i < entries@.len() && entries@[i as int].0@ == key@ && forall|j: int|
            i < j < entries@.len() ==> entries@[j].0@ != key@,
        r is None ==> forall|i: int| 0 <= i < entries@.len() ==> entries@[i].0@ != key@,
{
    let mut i: usize = entries.len();
    while i > 0
        invariant
            i <= entries@.len(),
            forall|j: int| i <= j < entries@.len() ==> entries@[j].0@ != key@,
        decreases i,
    {
        if entries[i - 1].0 == *key {
            return Some(i - 1);
        }
        i -= 1;
    }
    None
}

/// Insert or replace: afterwards `key` has `value` and no other key changes.
pub fn set_entry(list: &mut Vec<(String, String)>, key: String, value: String)
    ensures
        distinct_keys(old(list)@) ==> distinct_keys(final(list)@),
        forall|k: Seq<char>|
            lookup(final(list)@, k) == (if k == key@ {
                Some(value@)
            } else {
                lookup(old(list)@, k)
            }),
{
    let ghost before = list@;
    let ghost kv = key@;
    let ghost vv = value@;
    match position_of(list, &key) {
        Some(p) => {
            list.set(p, (key, value));
            proof {
                assert forall|k: Seq<char>|
                    lookup(list@, k) == (if k == kv {
                        Some(vv)
                    } else {
                        lookup(before, k)
                    }) by {
                    lemma_lookup_update(before, p as int, list@[p as int], k);
                }
                lemma_lookup_update(before, p as int, list@[p as int], kv);
            }
        },
        None => {
            list.push((key, value));
            proof {
                assert forall|k: Seq<char>|
                    lookup(list@, k) == (if k == kv {
                        Some(vv)
                    } else {
                        lookup(before, k)
                    }) by {
                    lemma_lookup_push(before, list@.last(), k);
                }
            }
        },
    }
}

} // verus!
