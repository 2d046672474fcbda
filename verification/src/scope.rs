//! Default scope metadata: key/value entries merged into every memory's
//! metadata on write and into every search filter on read. Values are JSON
//! texts. A per-call entry always wins over a default for the same key.

use vstd::prelude::*;

use crate::config::invalid_value;
use crate::entries::{
    distinct_keys, lemma_lookup_none, lemma_lookup_push, lookup, position_of, set_entry,
};
use crate::error::Error;
use crate::text::owned;

verus! {

/// The value a key has once the default scope is merged into `target`: the
/// target's own value when it has one, else the scope's.
pub open spec fn scoped_value(
    scope: Seq<(String, String)>,
    target: Seq<(String, String)>,
    k: Seq<char>,
) -> Option<Seq<char>> {
    match lookup(target, k) {
        Some(v) => Some(v),
        None => lookup(scope, k),
    }
}

/// Scope configuration for default metadata injection.
pub struct ScopeConfig {
    entries: Vec<(String, String)>,
}

impl ScopeConfig {
    #[verifier::type_invariant]
    spec fn keys_are_distinct(self) -> bool {
        distinct_keys(self.entries@)
    }

    /// The default scope entries, no key twice.
    pub closed spec fn view(&self) -> Seq<(String, String)> {
        self.entries@
    }

    /// An empty scope.
    pub fn new() -> (r: Self)
        ensures
            r.view().len() == 0,
    {
        ScopeConfig { entries: Vec::new() }
    }

    /// Construct a `ScopeConfig` from key/value pairs. When a key occurs more
    /// than once, the later value wins.
    pub fn from_entries(entries: Vec<(String, String)>) -> (r: Self)
        ensures
            distinct_keys(r.view()),
            forall|k: Seq<char>| lookup(r.view(), k) == lookup(entries@, k),
    {
        let mut out: Vec<(String, String)> = Vec::new();
        let mut i: usize = 0;
        while i < entries.len()
            invariant
                i <= entries@.len(),
                distinct_keys(out@),
                forall|k: Seq<char>| lookup(out@, k) == lookup(entries@.take(i as int), k),
            decreases entries.len() - i,
        {
            let ghost before = out@;
            assert(entries@.take(i as int + 1).drop_last() =~= entries@.take(i as int));
            set_entry(&mut out, entries[i].0.clone(), entries[i].1.clone());
            i += 1;
        }
        assert(entries@.take(entries@.len() as int) =~= entries@);
        ScopeConfig { entries: out }
    }

    /// A copy of the default scope entries.
    pub fn entries(&self) -> (r: Vec<(String, String)>)
        ensures
            r@.len() == self.view().len(),
            forall|i: int|
                0 <= i < r@.len() ==> r@[i].0@ == self.view()[i].0@ && r@[i].1@ == self.view()[i].1@,
    {
        let mut r: Vec<(String, String)> = Vec::new();
        let mut i: usize = 0;
        while i < self.entries.len()
            invariant
                i <= self.entries@.len(),
                r@.len() == i,
                forall|j: int|
                    0 <= j < i ==> r@[j].0@ == self.entries@[j].0@ && r@[j].1@ == self.entries@[j].1@,
            decreases self.entries.len() - i,
        {
            r.push((self.entries[i].0.clone(), self.entries[i].1.clone()));
            i += 1;
        }
        r
    }

    /// True when no default scope entries are configured.
    pub fn is_empty(&self) -> (r: bool)
        ensures
            r == (self.view().len() == 0),
    {
        self.entries.len() == 0
    }

    /// Merge the default scope into `target`, preserving any keys already
    /// present in `target` (per-call overrides). Keys absent from `target`
    /// are inserted with their default value.
    pub fn apply_to(&self, target: &mut Vec<(String, String)>)
        ensures
            forall|k: Seq<char>| lookup(final(target)@, k) == scoped_value(self.view(), old(target)@, k),
            old(target)@.len() <= final(target)@.len(),
            final(target)@.take(old(target)@.len() as int) == old(target)@,
            final(target)@.len() <= old(target)@.len() + self.view().len(),
    {
        proof {
            use_type_invariant(self);
        }
        let ghost start = target@;
        let mut i: usize = 0;
        while i < self.entries.len()
            invariant
                i <= self.entries@.len(),
                distinct_keys(self.entries@),
                start.len() <= target@.len() <= start.len() + i,
                target@.take(start.len() as int) == start,
                forall|k: Seq<char>|
                    lookup(target@, k) == (match lookup(start, k) {
                        Some(v) => Some(v),
                        None => lookup(self.entries@.take(i as int), k),
                    }),
                forall|j: int|
                    i <= j < self.entries@.len() ==> lookup(
                        self.entries@.take(i as int),
                        #[trigger] self.entries@[j].0@,
                    ) is None,
            decreases self.entries.len() - i,
        {
            let ghost before = target@;
            let ghost e = self.entries@[i as int];
            assert(self.entries@.take(i as int + 1).drop_last() =~= self.entries@.take(i as int));
            match position_of(target, &self.entries[i].0) {
                Some(_) => {
                    proof {
                        assert forall|k: Seq<char>|
                            lookup(target@, k) == (match lookup(start, k) {
                                Some(v) => Some(v),
                                None => lookup(self.entries@.take(i as int + 1), k),
                            }) by {
                            if k == e.0@ {
                                lemma_lookup_none(before, k);
                            }
                        }
                    }
                },
                None => {
                    let key = self.entries[i].0.clone();
                    let value = self.entries[i].1.clone();
                    target.push((key, value));
                    proof {
                        lemma_lookup_none(before, e.0@);
                        assert forall|k: Seq<char>|
                            lookup(target@, k) == (match lookup(start, k) {
                                Some(v) => Some(v),
                                None => lookup(self.entries@.take(i as int + 1), k),
                            }) by {
                            lemma_lookup_push(before, target@.last(), k);
                        }
                        assert(target@.take(start.len() as int) =~= before.take(start.len() as int));
                    }
                },
            }
            proof {
                assert forall|j: int|
                    i + 1 <= j < self.entries@.len() implies lookup(
                        self.entries@.take(i as int + 1),
                        #[trigger] self.entries@[j].0@,
                    ) is None by {
                    assert(self.entries@[i as int].0@ != self.entries@[j].0@);
                }
            }
            i += 1;
        }
        assert(self.entries@.take(self.entries@.len() as int) =~= self.entries@);
    }

    /// Check the default scope: every key must be non-empty.
    pub fn validate(&self) -> (r: Result<(), Error>)
        ensures
            r is Ok <==> forall|i: int| 0 <= i < self.view().len() ==> self.view()[i].0@.len() > 0,
            r matches Err(e) ==> invalid_value(e, "scope.default_scope"@, "Scope key must not be empty"@),
    {
        let mut i: usize = 0;
        while i < self.entries.len()
            invariant
                i <= self.entries@.len(),
                forall|j: int| 0 <= j < i ==> self.entries@[j].0@.len() > 0,
            decreases self.entries.len() - i,
        {
            if self.entries[i].0.as_str().is_empty() {
                assert(self.view()[i as int].0@.len() == 0);
                return Err(Error::InvalidConfigValue {
                    key: owned("scope.default_scope"),
                    message: owned("Scope key must not be empty"),
                });
            }
            i += 1;
        }
        Ok(())
    }
}

/// Applying an empty default scope leaves the target untouched.
pub proof fn lemma_empty_scope_is_noop(
    scope: ScopeConfig,
    before: Seq<(String, String)>,
    after: Seq<(String, String)>,
)
    requires
        scope.view().len() == 0,
        before.len() <= after.len() <= before.len() + scope.view().len(),
        after.take(before.len() as int) == before,
    ensures
        after == before,
{
    assert(after =~= after.take(before.len() as int));
}

impl Default for ScopeConfig {
    fn default() -> (r: Self)
        ensures
            r.view().len() == 0,
    {
        Self::new()
    }
}

/// Merging the default scope is idempotent: into a target that already went
/// through the merge, merging again changes no key's value.
pub proof fn lemma_scope_merge_idempotent(
    scope: Seq<(String, String)>,
    before: Seq<(String, String)>,
    merged: Seq<(String, String)>,
)
    requires
        forall|k: Seq<char>| lookup(merged, k) == scoped_value(scope, before, k),
    ensures
        forall|k: Seq<char>| scoped_value(scope, merged, k) == lookup(merged, k),
{
}

/// A per-call value always wins: a key the target already carries keeps its
/// value through the merge, whatever the default scope says.
pub proof fn lemma_per_call_value_wins(
    scope: Seq<(String, String)>,
    target: Seq<(String, String)>,
    k: Seq<char>,
)
    requires
        lookup(target, k) is Some,
    ensures
        scoped_value(scope, target, k) == lookup(target, k),
{
}

} // verus!
