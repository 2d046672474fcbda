//! Performance metrics: named counters, bounded timing sample windows and
//! gauges. Gauge values are real numbers held as the IEEE-754 bit patterns of
//! their `f64` values.

use vstd::prelude::*;

verus! {

/// The value the last entry for `k` holds, if any.
pub open spec fn value_of<V>(s: Seq<(String, V)>, k: Seq<char>) -> Option<V>
    decreases s.len(),
{
    if s.len() == 0 {
        None
    } else if s.last().0@ == k {
        Some(s.last().1)
    } else {
        value_of(s.drop_last(), k)
    }
}

/// No name occurs twice.
pub open spec fn distinct_names<V>(s: Seq<(String, V)>) -> bool {
    forall|i: int, j: int| 0 <= i < j < s.len() ==> s[i].0@ != s[j].0@
}

proof fn lemma_value_of_absent<V>(s: Seq<(String, V)>, k: Seq<char>)
    requires
        forall|i: int| 0 <= i < s.len() ==> s[i].0@ != k,
    ensures
        value_of(s, k) is None,
    decreases s.len(),
{
    if s.len() > 0 {
        lemma_value_of_absent(s.drop_last(), k);
    }
}

proof fn lemma_value_of_at<V>(s: Seq<(String, V)>, i: int)
    requires
        distinct_names(s),
        0 <= i < s.len(),
    ensures
        value_of(s, s[i].0@) == Some(s[i].1),
    decreases s.len(),
{
    if i < s.len() - 1 {
        lemma_value_of_at(s.drop_last(), i);
    }
}

proof fn lemma_value_of_update<V>(s: Seq<(String, V)>, i: int, v: V, k: Seq<char>)
    requires
        distinct_names(s),
        0 <= i < s.len(),
    ensures
        value_of(s.update(i, (s[i].0, v)), k) == (if k == s[i].0@ {
            Some(v)
        } else {
            value_of(s, k)
        }),
        distinct_names(s.update(i, (s[i].0, v))),
    decreases s.len(),
{
    let t = s.update(i, (s[i].0, v));
    if i == s.len() - 1 {
        assert(t.drop_last() =~= s.drop_last());
        if k == s[i].0@ {
        } else {
        }
    } else {
        assert(t.drop_last() =~= s.drop_last().update(i, (s[i].0, v)));
        lemma_value_of_update(s.drop_last(), i, v, k);
    }
}

proof fn lemma_value_of_push<V>(s: Seq<(String, V)>, e: (String, V), k: Seq<char>)
    ensures
        value_of(s.push(e), k) == (if e.0@ == k {
            Some(e.1)
        } else {
            value_of(s, k)
        }),
{
    assert(s.push(e).drop_last() =~= s);
}

/// Two entry lists that name the same keys in the same order and hold the
/// same values give every key the same value.
proof fn lemma_value_of_congruent<V>(s: Seq<(String, V)>, t: Seq<(String, V)>, k: Seq<char>)
    requires
        s.len() == t.len(),
        forall|i: int| 0 <= i < s.len() ==> s[i].0@ == t[i].0@ && s[i].1 == t[i].1,
    ensures
        value_of(s, k) == value_of(t, k),
    decreases s.len(),
{
    if s.len() > 0 {
        lemma_value_of_congruent(s.drop_last(), t.drop_last(), k);
    }
}

/// A copy of a list of named values.
fn copy_named(list: &Vec<(String, u64)>) -> (r: Vec<(String, u64)>)
    ensures
        r@.len() == list@.len(),
        forall|i: int| 0 <= i < r@.len() ==> r@[i].0@ == list@[i].0@ && r@[i].1 == list@[i].1,
{
    let mut r: Vec<(String, u64)> = Vec::new();
    let mut i: usize = 0;
    while i < list.len()
        invariant
            i <= list@.len(),
            r@.len() == i,
            forall|j: int| 0 <= j < i ==> r@[j].0@ == list@[j].0@ && r@[j].1 == list@[j].1,
        decreases list.len() - i,
    {
        let name = list[i].0.clone();
        r.push((name, list[i].1));
        i += 1;
    }
    r
}

/// Where the entry named `name` stands.
fn find<V>(list: &Vec<(String, V)>, name: &str) -> (r: Option<usize>)
    requires
        distinct_names(list@),
    ensures
        r matches Some(i) ==> i < list@.len() && list@[i as int].0@ == name@,
        r is None ==> forall|i: int| 0 <= i < list@.len() ==> list@[i].0@ != name@,
        r is None <==> value_of(list@, name@) is None,
        r matches Some(i) ==> value_of(list@, name@) == Some(list@[i as int].1),
{
    let key = String::from_str(name);
    let mut i: usize = 0;
    while i < list.len()
        invariant
            i <= list@.len(),
            key@ == name@,
            distinct_names(list@),
            forall|j: int| 0 <= j < i ==> list@[j].0@ != name@,
        decreases list.len() - i,
    {
        if list[i].0 == key {
            proof {
                lemma_value_of_at(list@, i as int);
            }
            return Some(i);
        }
        i += 1;
    }
    proof {
        lemma_value_of_absent(list@, name@);
    }
    None
}

/// The most timing samples kept per operation by default.
pub const DEFAULT_MAX_TIMING_SAMPLES: usize = 1000;

/// The samples kept after recording one: the newest `max`, oldest first.
pub open spec fn window_after(old_samples: Seq<u64>, sample: u64, max: nat) -> Seq<u64> {
    let grown = old_samples.push(sample);
    if grown.len() > max {
        grown.drop_first()
    } else {
        grown
    }
}

/// Each sample is no larger than any that follows it.
pub open spec fn ascending(s: Seq<u64>) -> bool {
    forall|i: int, j: int| 0 <= i <= j < s.len() ==> s[i] <= s[j]
}

/// The sum of the samples.
pub open spec fn total(s: Seq<u64>) -> nat
    decreases s.len(),
{
    if s.len() == 0 {
        0
    } else {
        total(s.drop_last()) + s.last() as nat
    }
}

proof fn lemma_total_bound(s: Seq<u64>)
    ensures
        total(s) <= s.len() * 0xffff_ffff_ffff_ffff,
    decreases s.len(),
{
    if s.len() > 0 {
        lemma_total_bound(s.drop_last());
    }
}

/// The same samples, in ascending order.
pub fn sorted_samples(samples: &Vec<u64>) -> (r: Vec<u64>)
    ensures
        ascending(r@),
        r@.to_multiset() == samples@.to_multiset(),
        r@.len() == samples@.len(),
{
    broadcast use vstd::seq_lib::group_to_multiset_ensures;

    let mut r: Vec<u64> = Vec::new();
    let mut i: usize = 0;
    while i < samples.len()
        invariant
            i <= samples@.len(),
            r@.len() == i,
            ascending(r@),
            r@.to_multiset() == samples@.take(i as int).to_multiset(),
        decreases samples.len() - i,
    {
        let x = samples[i];
        let mut p: usize = 0;
        while p < r.len() && r[p] <= x
            invariant
                p <= r@.len(),
                forall|k: int| 0 <= k < p ==> r@[k] <= x,
            decreases r.len() - p,
        {
            p += 1;
        }
        let ghost before = r@;
        r.insert(p, x);
        proof {
            assert forall|a: int, b: int| 0 <= a <= b < r@.len() implies r@[a] <= r@[b] by {
                if b < p {
                } else if b == p {
                    if a < p {
                        assert(before[a] <= x);
                    }
                } else if a < p {
                    assert(before[a] <= x);
                    assert(x < before[p as int]);
                    assert(before[p as int] <= before[b - 1]);
                } else if a == p {
                    assert(x < before[p as int]);
                    assert(before[p as int] <= before[b - 1]);
                } else {
                    assert(before[a - 1] <= before[b - 1]);
                }
            }
            assert(samples@.take(i as int + 1) =~= samples@.take(i as int).push(x));
            vstd::seq_lib::to_multiset_insert(before, p as int, x);
            vstd::seq_lib::to_multiset_build(samples@.take(i as int), x);
        }
        i += 1;
    }
    assert(samples@.take(samples@.len() as int) =~= samples@);
    r
}

/// The sum of the samples, which a `u128` always holds.
pub fn total_of(samples: &Vec<u64>) -> (r: u128)
    ensures
        r == total(samples@),
{
    let mut sum: u128 = 0;
    let mut i: usize = 0;
    while i < samples.len()
        invariant
            i <= samples@.len(),
            sum == total(samples@.take(i as int)),
        decreases samples.len() - i,
    {
        assert(samples@.take(i as int + 1).drop_last() =~= samples@.take(i as int));
        proof {
            lemma_total_bound(samples@.take(i as int + 1));
            assert(i + 1 <= usize::MAX);
            assert((i + 1) * 0xffff_ffff_ffff_ffffnat <= 0x1_0000_0000_0000_0000nat * 0xffff_ffff_ffff_ffffnat) by (nonlinear_arith)
                requires i + 1 <= 0x1_0000_0000_0000_0000nat;
        }
        sum = sum + samples[i] as u128;
        i += 1;
    }
    assert(samples@.take(samples@.len() as int) =~= samples@);
    sum
}

/// The order statistics of an operation's samples.
#[derive(Debug, Clone)]
pub struct TimingSummary {
    /// Number of samples
    pub count: usize,
    /// Sum of the samples in microseconds
    pub total_us: u128,
    /// Minimum time in microseconds
    pub min_us: u64,
    /// Maximum time in microseconds
    pub max_us: u64,
    /// 50th percentile (the sample at rank `count / 2`) in microseconds
    pub p50_us: u64,
    /// The samples in ascending order
    pub sorted_us: Vec<u64>,
}

/// `t` summarizes the non-empty samples `s`.
pub open spec fn summarizes(t: TimingSummary, s: Seq<u64>) -> bool {
    let sorted = t.sorted_us@;
    &&& ascending(sorted)
    &&& sorted.to_multiset() == s.to_multiset()
    &&& sorted.len() == s.len()
    &&& t.count == s.len()
    &&& t.total_us == total(s)
    &&& t.min_us == sorted[0]
    &&& t.max_us == sorted.last()
    &&& t.p50_us == sorted[(s.len() / 2) as int]
}

/// Metrics collector for performance tracking.
pub struct Metrics {
    counters: Vec<(String, u64)>,
    timings: Vec<(String, Vec<u64>)>,
    gauges: Vec<(String, u64)>,
    max_timing_samples: usize,
}

/// The samples held for each named operation.
pub open spec fn timing_view(s: Seq<(String, Vec<u64>)>) -> Seq<(String, Seq<u64>)> {
    s.map_values(|e: (String, Vec<u64>)| (e.0, e.1@))
}

impl Metrics {
    /// Counter names, timing names and gauge names are each distinct, and
    /// each timing window holds at most the sample limit.
    pub closed spec fn wf(&self) -> bool {
        &&& distinct_names(self.counters@)
        &&& distinct_names(self.timings@)
        &&& distinct_names(self.gauges@)
        &&& self.max_timing_samples > 0
        &&& forall|i: int|
            0 <= i < self.timings@.len() ==> (#[trigger] self.timings@[i]).1@.len()
                <= self.max_timing_samples
    }

    /// The value of counter `name`, when it has been incremented.
    pub closed spec fn counter(&self, name: Seq<char>) -> Option<u64> {
        value_of(self.counters@, name)
    }

    /// The samples recorded for `name`, oldest first, when any were.
    pub closed spec fn samples(&self, name: Seq<char>) -> Option<Seq<u64>> {
        value_of(timing_view(self.timings@), name)
    }

    /// The gauge `name` (as an `f64` bit pattern), when set.
    pub closed spec fn gauge(&self, name: Seq<char>) -> Option<u64> {
        value_of(self.gauges@, name)
    }

    /// The most samples kept per operation.
    pub closed spec fn sample_limit(&self) -> nat {
        self.max_timing_samples as nat
    }

    /// Create a new, empty metrics collector.
    pub fn new() -> (r: Self)
        ensures
            r.wf(),
            r.sample_limit() == DEFAULT_MAX_TIMING_SAMPLES,
            forall|n: Seq<char>| r.counter(n) is None && r.samples(n) is None && r.gauge(n) is None,
    {
        let r = Metrics {
            counters: Vec::new(),
            timings: Vec::new(),
            gauges: Vec::new(),
            max_timing_samples: DEFAULT_MAX_TIMING_SAMPLES,
        };
        assert(timing_view(r.timings@) =~= Seq::empty());
        r
    }

    /// Increment a counter by one.
    pub fn increment(&mut self, name: &str)
        requires
            old(self).wf(),
        ensures
            final(self).wf(),
            final(self).counter(name@) == Some(
                (match old(self).counter(name@) {
                    Some(v) => v,
                    None => 0,
                }).wrapping_add(1),
            ),
            forall|n: Seq<char>| n != name@ ==> final(self).counter(n) == old(self).counter(n),
            forall|n: Seq<char>| final(self).samples(n) == old(self).samples(n),
            forall|n: Seq<char>| final(self).gauge(n) == old(self).gauge(n),
            final(self).sample_limit() == old(self).sample_limit(),
    {
        self.increment_by(name, 1);
    }

    /// Increment a counter by a specific amount; a counter starts at zero and
    /// wraps around on overflow.
    pub fn increment_by(&mut self, name: &str, amount: u64)
        requires
            old(self).wf(),
        ensures
            final(self).wf(),
            final(self).counter(name@) == Some(
                (match old(self).counter(name@) {
                    Some(v) => v,
                    None => 0,
                }).wrapping_add(amount),
            ),
            forall|n: Seq<char>| n != name@ ==> final(self).counter(n) == old(self).counter(n),
            forall|n: Seq<char>| final(self).samples(n) == old(self).samples(n),
            forall|n: Seq<char>| final(self).gauge(n) == old(self).gauge(n),
            final(self).sample_limit() == old(self).sample_limit(),
    {
        let ghost before = self.counters@;
        match find(&self.counters, name) {
            Some(i) => {
                let v = self.counters[i].1.wrapping_add(amount);
                let key = self.counters[i].0.clone();
                self.counters.set(i, (key, v));
                proof {
                    assert forall|n: Seq<char>|
                        value_of(self.counters@, n) == (if n == before[i as int].0@ {
                            Some(v)
                        } else {
                            value_of(before, n)
                        }) by {
                        lemma_value_of_update(before, i as int, v, n);
                    }
                    lemma_value_of_update(before, i as int, v, name@);
                }
            },
            None => {
                let v = 0u64.wrapping_add(amount);
                self.counters.push((String::from_str(name), v));
                proof {
                    assert forall|n: Seq<char>|
                        value_of(self.counters@, n) == (if n == name@ {
                            Some(v)
                        } else {
                            value_of(before, n)
                        }) by {
                        lemma_value_of_push(before, self.counters@.last(), n);
                    }
                }
            },
        }
    }

    /// Get a counter value; zero for a counter never incremented.
    pub fn get_counter(&self, name: &str) -> (r: u64)
        requires
            self.wf(),
        ensures
            r == (match self.counter(name@) {
                Some(v) => v,
                None => 0,
            }),
    {
        match find(&self.counters, name) {
            Some(i) => self.counters[i].1,
            None => 0,
        }
    }

    /// Record a timing sample (in microseconds), keeping only the most recent
    /// samples for the operation.
    pub fn record_timing(&mut self, name: &str, micros: u64)
        requires
            old(self).wf(),
        ensures
            final(self).wf(),
            final(self).samples(name@) == Some(
                window_after(
                    match old(self).samples(name@) {
                        Some(s) => s,
                        None => Seq::empty(),
                    },
                    micros,
                    old(self).sample_limit(),
                ),
            ),
            forall|n: Seq<char>| n != name@ ==> final(self).samples(n) == old(self).samples(n),
            forall|n: Seq<char>| final(self).counter(n) == old(self).counter(n),
            forall|n: Seq<char>| final(self).gauge(n) == old(self).gauge(n),
            final(self).sample_limit() == old(self).sample_limit(),
    {
        let ghost before = self.timings@;
        let ghost tv = timing_view(before);
        proof {
            assert forall|i: int, j: int| 0 <= i < j < tv.len() implies tv[i].0@ != tv[j].0@ by {
                assert(tv[i].0 == before[i].0);
                assert(tv[j].0 == before[j].0);
            }
        }
        match find(&self.timings, name) {
            Some(i) => {
                let mut samples = Vec::new();
                let mut key = String::new();
                {
                    let entry = &self.timings[i];
                    key = entry.0.clone();
                    let old_samples = &entry.1;
                    let mut k: usize = 0;
                    while k < old_samples.len()
                        invariant
                            k <= old_samples@.len(),
                            samples@ == old_samples@.take(k as int),
                        decreases old_samples.len() - k,
                    {
                        samples.push(old_samples[k]);
                        assert(old_samples@.take(k as int + 1) =~= old_samples@.take(k as int).push(
                            old_samples@[k as int],
                        ));
                        k += 1;
                    }
                    assert(old_samples@.take(old_samples@.len() as int) =~= old_samples@);
                }
                let ghost prior = samples@;
                samples.push(micros);
                if samples.len() > self.max_timing_samples {
                    samples.remove(0);
                }
                assert(samples@ =~= window_after(prior, micros, self.max_timing_samples as nat));
                self.timings.set(i, (key, samples));
                proof {
                    let nt = timing_view(self.timings@);
                    assert(nt =~= tv.update(i as int, (tv[i as int].0, samples@)));
                    assert(tv[i as int].0@ == name@);
                    lemma_value_of_at(tv, i as int);
                    assert forall|n: Seq<char>|
                        value_of(nt, n) == (if n == tv[i as int].0@ {
                            Some(samples@)
                        } else {
                            value_of(tv, n)
                        }) by {
                        lemma_value_of_update(tv, i as int, samples@, n);
                    }
                    lemma_value_of_update(before, i as int, samples, name@);
                    assert forall|j: int| 0 <= j < self.timings@.len() implies (
                    #[trigger] self.timings@[j]).1@.len() <= self.max_timing_samples by {
                        if j != i {
                            assert(self.timings@[j] == before[j]);
                        }
                    }
                }
            },
            None => {
                let mut samples = Vec::new();
                samples.push(micros);
                self.timings.push((String::from_str(name), samples));
                proof {
                    let nt = timing_view(self.timings@);
                    assert(nt =~= tv.push((self.timings@.last().0, samples@)));
                    lemma_value_of_absent(tv, name@);
                    assert forall|n: Seq<char>|
                        value_of(nt, n) == (if n == name@ {
                            Some(samples@)
                        } else {
                            value_of(tv, n)
                        }) by {
                        lemma_value_of_push(tv, (self.timings@.last().0, samples@), n);
                    }
                    assert(samples@ =~= window_after(Seq::empty(), micros, self.max_timing_samples as nat));
                    assert forall|j: int| 0 <= j < self.timings@.len() implies (
                    #[trigger] self.timings@[j]).1@.len() <= self.max_timing_samples by {
                        if j < before.len() {
                            assert(self.timings@[j] == before[j]);
                        }
                    }
                }
            },
        }
    }

    /// The samples recorded for an operation, oldest first.
    pub fn timing_samples(&self, name: &str) -> (r: Option<Vec<u64>>)
        requires
            self.wf(),
        ensures
            match r {
                Some(v) => self.samples(name@) == Some(v@),
                None => self.samples(name@) is None,
            },
    {
        let ghost tv = timing_view(self.timings@);
        proof {
            assert forall|i: int, j: int| 0 <= i < j < tv.len() implies tv[i].0@ != tv[j].0@ by {
                assert(tv[i].0 == self.timings@[i].0);
                assert(tv[j].0 == self.timings@[j].0);
            }
        }
        match find(&self.timings, name) {
            Some(i) => {
                let src = &self.timings[i].1;
                let mut out: Vec<u64> = Vec::new();
                let mut k: usize = 0;
                while k < src.len()
                    invariant
                        k <= src@.len(),
                        out@ == src@.take(k as int),
                    decreases src.len() - k,
                {
                    out.push(src[k]);
                    assert(src@.take(k as int + 1) =~= src@.take(k as int).push(src@[k as int]));
                    k += 1;
                }
                assert(src@.take(src@.len() as int) =~= src@);
                proof {
                    assert(tv[i as int] == (self.timings@[i as int].0, self.timings@[i as int].1@));
                    lemma_value_of_at(tv, i as int);
                }
                Some(out)
            },
            None => {
                proof {
                    assert forall|j: int| 0 <= j < tv.len() implies tv[j].0@ != name@ by {
                        assert(tv[j].0 == self.timings@[j].0);
                    }
                    lemma_value_of_absent(tv, name@);
                }
                None
            },
        }
    }

    /// Order statistics of the samples recorded for an operation; `None` when
    /// there are none.
    pub fn timing_summary(&self, name: &str) -> (r: Option<TimingSummary>)
        requires
            self.wf(),
        ensures
            match self.samples(name@) {
                Some(s) => if s.len() > 0 {
                    r matches Some(t) && summarizes(t, s)
                } else {
                    r is None
                },
                None => r is None,
            },
    {
        match self.timing_samples(name) {
            None => None,
            Some(samples) => {
                if samples.len() == 0 {
                    return None;
                }
                let count = samples.len();
                let total_us = total_of(&samples);
                let sorted_us = sorted_samples(&samples);
                let min_us = sorted_us[0];
                let max_us = sorted_us[count - 1];
                let p50_us = sorted_us[count / 2];
                Some(TimingSummary { count, total_us, min_us, max_us, p50_us, sorted_us })
            },
        }
    }

    /// Every counter with its value.
    pub fn counter_entries(&self) -> (r: Vec<(String, u64)>)
        requires
            self.wf(),
        ensures
            distinct_names(r@),
            forall|n: Seq<char>| value_of(r@, n) == self.counter(n),
    {
        let r = copy_named(&self.counters);
        proof {
            assert forall|n: Seq<char>| value_of(r@, n) == self.counter(n) by {
                lemma_value_of_congruent(r@, self.counters@, n);
            }
        }
        r
    }

    /// Every gauge with its value (an `f64` bit pattern).
    pub fn gauge_entries(&self) -> (r: Vec<(String, u64)>)
        requires
            self.wf(),
        ensures
            distinct_names(r@),
            forall|n: Seq<char>| value_of(r@, n) == self.gauge(n),
    {
        let r = copy_named(&self.gauges);
        proof {
            assert forall|n: Seq<char>| value_of(r@, n) == self.gauge(n) by {
                lemma_value_of_congruent(r@, self.gauges@, n);
            }
        }
        r
    }

    /// The names of the operations with recorded timings.
    pub fn timing_names(&self) -> (r: Vec<String>)
        requires
            self.wf(),
        ensures
            forall|i: int| 0 <= i < r@.len() ==> self.samples(#[trigger] r@[i]@) is Some,
            forall|n: Seq<char>| self.samples(n) is Some ==> exists|i: int| 0 <= i < r@.len() && #[trigger] r@[i]@ == n,
            forall|i: int, j: int| 0 <= i < j < r@.len() ==> r@[i]@ != r@[j]@,
    {
        let ghost tv = timing_view(self.timings@);
        let mut r: Vec<String> = Vec::new();
        let mut i: usize = 0;
        while i < self.timings.len()
            invariant
                i <= self.timings@.len(),
                tv == timing_view(self.timings@),
                tv.len() == self.timings@.len(),
                r@.len() == i,
                forall|j: int| 0 <= j < i ==> r@[j]@ == #[trigger] self.timings@[j].0@,
            decreases self.timings.len() - i,
        {
            r.push(self.timings[i].0.clone());
            i += 1;
        }
        proof {
            assert forall|a: int, b: int| 0 <= a < b < tv.len() implies tv[a].0@ != tv[b].0@ by {
                assert(tv[a].0 == self.timings@[a].0);
                assert(tv[b].0 == self.timings@[b].0);
            }
            assert forall|a: int| 0 <= a < r@.len() implies self.samples(#[trigger] r@[a]@) is Some by {
                assert(tv[a].0 == self.timings@[a].0);
                lemma_value_of_at(tv, a);
            }
            assert forall|n: Seq<char>| self.samples(n) is Some implies exists|a: int|
                0 <= a < r@.len() && #[trigger] r@[a]@ == n by {
                if forall|a: int| 0 <= a < tv.len() ==> tv[a].0@ != n {
                    lemma_value_of_absent(tv, n);
                } else {
                    let a = choose|a: int| 0 <= a < tv.len() && tv[a].0@ == n;
                    assert(tv[a].0 == self.timings@[a].0);
                    assert(r@[a]@ == n);
                }
            }
            assert forall|a: int, b: int| 0 <= a < b < r@.len() implies r@[a]@ != r@[b]@ by {
                assert(tv[a].0 == self.timings@[a].0);
                assert(tv[b].0 == self.timings@[b].0);
            }
        }
        r
    }

    /// Set a gauge value (an `f64` bit pattern).
    pub fn set_gauge(&mut self, name: &str, value: u64)
        requires
            old(self).wf(),
        ensures
            final(self).wf(),
            final(self).gauge(name@) == Some(value),
            forall|n: Seq<char>| n != name@ ==> final(self).gauge(n) == old(self).gauge(n),
            forall|n: Seq<char>| final(self).counter(n) == old(self).counter(n),
            forall|n: Seq<char>| final(self).samples(n) == old(self).samples(n),
            final(self).sample_limit() == old(self).sample_limit(),
    {
        let ghost before = self.gauges@;
        match find(&self.gauges, name) {
            Some(i) => {
                let key = self.gauges[i].0.clone();
                self.gauges.set(i, (key, value));
                proof {
                    assert forall|n: Seq<char>|
                        value_of(self.gauges@, n) == (if n == before[i as int].0@ {
                            Some(value)
                        } else {
                            value_of(before, n)
                        }) by {
                        lemma_value_of_update(before, i as int, value, n);
                    }
                    lemma_value_of_update(before, i as int, value, name@);
                }
            },
            None => {
                self.gauges.push((String::from_str(name), value));
                proof {
                    assert forall|n: Seq<char>|
                        value_of(self.gauges@, n) == (if n == name@ {
                            Some(value)
                        } else {
                            value_of(before, n)
                        }) by {
                        lemma_value_of_push(before, self.gauges@.last(), n);
                    }
                }
            },
        }
    }

    /// Get a gauge value (an `f64` bit pattern).
    pub fn get_gauge(&self, name: &str) -> (r: Option<u64>)
        requires
            self.wf(),
        ensures
            r == self.gauge(name@),
    {
        match find(&self.gauges, name) {
            Some(i) => Some(self.gauges[i].1),
            None => None,
        }
    }

    /// Reset all metrics.
    pub fn reset(&mut self)
        requires
            old(self).wf(),
        ensures
            final(self).wf(),
            forall|n: Seq<char>|
                final(self).counter(n) is None && final(self).samples(n) is None && final(self).gauge(
                    n,
                ) is None,
            final(self).sample_limit() == old(self).sample_limit(),
    {
        self.counters = Vec::new();
        self.timings = Vec::new();
        self.gauges = Vec::new();
        assert(timing_view(self.timings@) =~= Seq::empty());
    }
}

impl Default for Metrics {
    fn default() -> (r: Self)
        ensures
            r.wf(),
            r.sample_limit() == DEFAULT_MAX_TIMING_SAMPLES,
            forall|n: Seq<char>| r.counter(n) is None && r.samples(n) is None && r.gauge(n) is None,
    {
        Self::new()
    }
}

} // verus!
