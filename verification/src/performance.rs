//! Performance metrics: recent render times, data load times per
//! operation, and cache hits; and the render cache, which remembers the
//! drawn deck list and the statistics of each deck for a while. Durations
//! are counted in nanoseconds, times in milliseconds since the epoch.
use vstd::prelude::*;
use vstd::string::*;
use crate::clock::now_unix_millis;
use crate::model::DeckSummary;
use crate::text::str_eq;
use crate::viewmodels::DeckStats;

verus! {

/// How many render times are kept.
pub const MAX_RENDER_SAMPLES: usize = 1000;

/// How many load times are kept per operation.
pub const MAX_LOAD_SAMPLES: usize = 100;

/// The sum of a list of durations.
pub open spec fn total(s: Seq<u64>) -> nat
    decreases s.len(),
{
    if s.len() == 0 {
        0
    } else {
        total(s.drop_last()) + s.last() as nat
    }
}

/// The largest of a non-empty list of durations.
pub open spec fn largest(s: Seq<u64>) -> u64
    decreases s.len(),
{
    if s.len() <= 1 {
        if s.len() == 1 {
            s[0]
        } else {
            0
        }
    } else {
        let m = largest(s.drop_last());
        if s.last() > m {
            s.last()
        } else {
            m
        }
    }
}

/// A window of samples after one more was recorded: the oldest is dropped
/// once the window holds more than `cap`.
pub open spec fn window_after(s: Seq<u64>, d: u64, cap: nat) -> Seq<u64> {
    let t = s.push(d);
    if t.len() > cap {
        t.subrange(1, t.len() as int)
    } else {
        t
    }
}

/// The load times per operation, as a map.
pub open spec fn loads_view(v: Seq<(String, Vec<u64>)>) -> Map<Seq<char>, Seq<u64>> {
    Map::new(
        |k: Seq<char>| exists|i: int| 0 <= i < v.len() && (#[trigger] v[i]).0@ == k,
        |k: Seq<char>| v[choose|i: int| 0 <= i < v.len() && (#[trigger] v[i]).0@ == k].1@,
    )
}

/// No operation is listed twice.
pub open spec fn distinct_ops(v: Seq<(String, Vec<u64>)>) -> bool {
    forall|i: int, j: int| 0 <= i < j < v.len() ==> (#[trigger] v[i]).0@ != (#[trigger] v[j]).0@
}

/// Performance metrics of the interface.
pub struct PerformanceMetrics {
    render_times: Vec<u64>,
    cache_hits: u64,
    cache_misses: u64,
    data_load_times: Vec<(String, Vec<u64>)>,
}

impl PerformanceMetrics {
    /// The metrics keep at most a thousand render times, list each
    /// operation once, and keep at most a hundred times per operation.
    pub closed spec fn wf(&self) -> bool {
        &&& self.render_times@.len() <= MAX_RENDER_SAMPLES
        &&& distinct_ops(self.data_load_times@)
        &&& forall|i: int|
            0 <= i < self.data_load_times@.len() ==> (#[trigger] self.data_load_times@[i]).1@.len()
                <= MAX_LOAD_SAMPLES
    }

    /// The recent render times, oldest first.
    pub closed spec fn renders(&self) -> Seq<u64> {
        self.render_times@
    }

    /// The recent load times of each operation, oldest first.
    pub closed spec fn loads(&self) -> Map<Seq<char>, Seq<u64>> {
        loads_view(self.data_load_times@)
    }

    /// The cache hit and miss counts.
    pub closed spec fn cache_counts(&self) -> (u64, u64) {
        (self.cache_hits, self.cache_misses)
    }

    /// Metrics with nothing recorded.
    pub fn new() -> (m: PerformanceMetrics)
        ensures
            m.wf(),
            m.renders().len() == 0,
            m.loads() == Map::<Seq<char>, Seq<u64>>::empty(),
            m.cache_counts() == (0u64, 0u64),
    {
        let m = PerformanceMetrics {
            render_times: Vec::new(),
            cache_hits: 0,
            cache_misses: 0,
            data_load_times: Vec::new(),
        };
        assert(m.loads() =~= Map::<Seq<char>, Seq<u64>>::empty());
        m
    }

    /// The cache hits and misses counted, for the hit rate.
    pub fn get_cache_counts(&self) -> (c: (u64, u64))
        ensures
            c == self.cache_counts(),
    {
        (self.cache_hits, self.cache_misses)
    }

    /// The number of kept render times never exceeds the window.
    pub fn render_sample_count(&self) -> (n: usize)
        requires
            self.wf(),
        ensures
            n == self.renders().len(),
            n <= MAX_RENDER_SAMPLES,
    {
        self.render_times.len()
    }

    /// Records a render time, keeping the last thousand.
    pub fn record_render_time(&mut self, duration: u64)
        requires
            old(self).wf(),
        ensures
            final(self).wf(),
            final(self).renders() == window_after(old(self).renders(), duration, MAX_RENDER_SAMPLES as nat),
            final(self).loads() == old(self).loads(),
            final(self).cache_counts() == old(self).cache_counts(),
    {
        self.render_times.push(duration);
        if self.render_times.len() > MAX_RENDER_SAMPLES {
            self.render_times.remove(0);
        }
        proof {
            let t = old(self).render_times@.push(duration);
            if t.len() > MAX_RENDER_SAMPLES {
                assert(self.render_times@ =~= t.subrange(1, t.len() as int));
            }
        }
    }

    fn find_operation(&self, operation: &str) -> (r: Option<usize>)
        ensures
            match r {
                Some(i) => i < self.data_load_times@.len() && self.data_load_times@[i as int].0@ == operation@,
                None => forall|i: int|
                    0 <= i < self.data_load_times@.len() ==> (#[trigger] self.data_load_times@[i]).0@
                        != operation@,
            },
    {
        let mut i: usize = 0;
        while i < self.data_load_times.len()
            invariant
                i <= self.data_load_times@.len(),
                forall|j: int| 0 <= j < i ==> (#[trigger] self.data_load_times@[j]).0@ != operation@,
            decreases self.data_load_times@.len() - i,
        {
            if str_eq(self.data_load_times[i].0.as_str(), operation) {
                return Some(i);
            }
            i = i + 1;
        }
        None
    }

    /// Records how long an operation took to load data, keeping the last
    /// hundred times of each operation.
    pub fn record_data_load_time(&mut self, operation: &str, duration: u64)
        requires
            old(self).wf(),
        ensures
            final(self).wf(),
            final(self).loads() == old(self).loads().insert(
                operation@,
                window_after(
                    if old(self).loads().contains_key(operation@) {
                        old(self).loads()[operation@]
                    } else {
                        Seq::<u64>::empty()
                    },
                    duration,
                    MAX_LOAD_SAMPLES as nat,
                ),
            ),
            final(self).renders() == old(self).renders(),
            final(self).cache_counts() == old(self).cache_counts(),
    {
        let ghost old_v = self.data_load_times@;
        let found = self.find_operation(operation);
        let ghost before: Seq<u64> = match found {
            Some(i) => old_v[i as int].1@,
            None => Seq::<u64>::empty(),
        };
        let idx = match found {
            Some(i) => i,
            None => {
                self.data_load_times.push((String::from_str(operation), Vec::new()));
                self.data_load_times.len() - 1
            },
        };
        let ghost mid = self.data_load_times@;
        assert(mid[idx as int].1@ == before);
        let mut times = Vec::new();
        std::mem::swap(&mut times, &mut self.data_load_times[idx].1);
        assert(times@ == before);
        times.push(duration);
        if times.len() > MAX_LOAD_SAMPLES {
            times.remove(0);
        }
        proof {
            let t = before.push(duration);
            if t.len() > MAX_LOAD_SAMPLES {
                assert(times@ =~= t.subrange(1, t.len() as int));
            }
        }
        std::mem::swap(&mut times, &mut self.data_load_times[idx].1);
        proof {
            let nv = self.data_load_times@;
            let ok = loads_view(old_v);
            let expect = ok.insert(operation@, window_after(before, duration, MAX_LOAD_SAMPLES as nat));
            assert(nv.len() == mid.len());
            assert forall|i: int| 0 <= i < nv.len() implies (#[trigger] nv[i]).0@ == mid[i].0@ by {}
            assert(nv[idx as int].0@ == operation@);
            assert forall|i: int| 0 <= i < nv.len() && i != idx implies (#[trigger] nv[i]).1@ == mid[i].1@ by {}
            assert forall|i: int| 0 <= i < old_v.len() implies (#[trigger] mid[i]) == old_v[i] by {}
            assert forall|i: int, j: int| 0 <= i < j < nv.len() implies (#[trigger] nv[i]).0@ != (
            #[trigger] nv[j]).0@ by {
                assert(nv[i].0@ == mid[i].0@);
                assert(nv[j].0@ == mid[j].0@);
                if j < old_v.len() {
                    assert(mid[i] == old_v[i]);
                    assert(mid[j] == old_v[j]);
                } else {
                    assert(mid[i] == old_v[i]);
                }
            }
            assert(found is Some ==> ok.contains_key(operation@) && ok[operation@] == before) by {
                if let Some(i) = found {
                    lemma_loads_at(old_v, i as int);
                }
            }
            assert(found is None ==> !ok.contains_key(operation@));
            assert forall|k: Seq<char>| #[trigger] loads_view(nv).contains_key(k) == expect.contains_key(k) by {
                if k != operation@ {
                    if loads_view(nv).contains_key(k) {
                        let w = choose|i: int| 0 <= i < nv.len() && (#[trigger] nv[i]).0@ == k;
                        assert(mid[w].0@ == k);
                        assert(w < old_v.len());
                        assert(old_v[w].0@ == k);
                    }
                    if ok.contains_key(k) {
                        let w = choose|i: int| 0 <= i < old_v.len() && (#[trigger] old_v[i]).0@ == k;
                        assert(mid[w] == old_v[w]);
                        assert(nv[w].0@ == k);
                    }
                }
            }
            assert forall|k: Seq<char>| #[trigger] expect.contains_key(k) implies loads_view(nv)[k] == expect[k] by {
                if k == operation@ {
                    lemma_loads_at(nv, idx as int);
                } else {
                    let w2 = choose|i: int| 0 <= i < old_v.len() && (#[trigger] old_v[i]).0@ == k;
                    lemma_loads_at(old_v, w2);
                    assert(mid[w2] == old_v[w2]);
                    assert(nv[w2].0@ == k);
                    assert(w2 != idx);
                    assert(nv[w2].1@ == old_v[w2].1@);
                    lemma_loads_at(nv, w2);
                }
            }
            assert(loads_view(nv) =~= expect);
            assert forall|i: int| 0 <= i < nv.len() implies (#[trigger] nv[i]).1@.len() <= MAX_LOAD_SAMPLES by {
                if i != idx {
                    assert(nv[i].1@ == mid[i].1@);
                    if i < old_v.len() {
                        assert(mid[i] == old_v[i]);
                    }
                }
            }
        }
    }

    /// The average render time, rounded down; `None` before any render.
    pub fn get_average_render_time(&self) -> (avg: Option<u64>)
        requires
            self.wf(),
        ensures
            self.renders().len() == 0 ==> avg is None,
            self.renders().len() > 0 ==> avg == Some(
                (total(self.renders()) / self.renders().len()) as u64,
            ),
    {
        let n = self.render_times.len();
        if n == 0 {
            return None;
        }
        let mut sum: u128 = 0;
        let mut i: usize = 0;
        while i < n
            invariant
                n == self.render_times@.len(),
                n <= MAX_RENDER_SAMPLES,
                i <= n,
                sum == total(self.render_times@.take(i as int)),
                sum <= i * (u64::MAX as nat),
            decreases n - i,
        {
            proof {
                assert(self.render_times@.take(i + 1).drop_last() =~= self.render_times@.take(i as int));
            }
            sum = sum + self.render_times[i] as u128;
            i = i + 1;
        }
        assert(self.render_times@.take(n as int) =~= self.render_times@);
        proof {
            lemma_average_fits(sum as nat, n as nat);
        }
        Some((sum / (n as u128)) as u64)
    }

    /// The operations whose slowest recorded time exceeds `threshold`, with
    /// that time, slowest first.
    pub fn get_slow_operations(&self, threshold: u64) -> (slow: Vec<(String, u64)>)
        requires
            self.wf(),
        ensures
            forall|i: int| 0 <= i < slow@.len() ==> slow_entry(self.loads(), threshold, #[trigger] slow@[i]),
            forall|k: Seq<char>|
                #[trigger] self.loads().contains_key(k) && is_slow(self.loads()[k], threshold) ==> exists|
                    i: int,
                | 0 <= i < slow@.len() && (#[trigger] slow@[i]).0@ == k,
            keys_distinct(slow@),
            slowest_first(slow@),
    {
        let v = &self.data_load_times;
        let ghost lv = self.loads();
        let mut slow: Vec<(String, u64)> = Vec::new();
        let mut i: usize = 0;
        while i < v.len()
            invariant
                i <= v@.len(),
                v@ == self.data_load_times@,
                lv == loads_view(v@),
                distinct_ops(v@),
                forall|a: int| 0 <= a < slow@.len() ==> slow_entry(lv, threshold, #[trigger] slow@[a]),
                forall|a: int| 0 <= a < slow@.len() ==> listed_before(v@, i as int, (#[trigger] slow@[a]).0@),
                covered(v@, i as int, slow@, threshold),
                keys_distinct(slow@),
                slowest_first(slow@),
            decreases v@.len() - i,
        {
            let times = &v[i].1;
            proof {
                lemma_loads_at(v@, i as int);
                lemma_listed_before_grows(v@, i as int, slow@);
            }
            if times.len() > 0 {
                let m = max_of(times);
                if m > threshold {
                    let ghost old_slow = slow@;
                    let pos = insert_position(&slow, m);
                    let item = (v[i].0.clone(), m);
                    slow.insert(pos, item);
                    proof {
                        lemma_insert_slow(v@, i as int, lv, threshold, old_slow, slow@, pos as int, item);
                    }
                } else {
                    proof {
                        lemma_covered_skip(v@, i as int, slow@, threshold);
                    }
                }
            } else {
                proof {
                    lemma_covered_skip(v@, i as int, slow@, threshold);
                }
            }
            i = i + 1;
        }
        proof {
            assert forall|k: Seq<char>| #[trigger] lv.contains_key(k) && is_slow(lv[k], threshold) implies exists|
                i: int,
            | 0 <= i < slow@.len() && (#[trigger] slow@[i]).0@ == k by {
                let b = choose|b: int| 0 <= b < v@.len() && (#[trigger] v@[b]).0@ == k;
                lemma_loads_at(v@, b);
                assert(is_slow(v@[b].1@, threshold));
            }
        }
        slow
    }
}

/// Whether the slowest of a list of times exceeds the threshold.
pub open spec fn is_slow(times: Seq<u64>, threshold: u64) -> bool {
    times.len() > 0 && largest(times) > threshold
}

/// An entry of the slow list: a recorded operation whose slowest time
/// exceeds the threshold, with that time.
pub open spec fn slow_entry(loads: Map<Seq<char>, Seq<u64>>, threshold: u64, e: (String, u64)) -> bool {
    &&& loads.contains_key(e.0@)
    &&& is_slow(loads[e.0@], threshold)
    &&& e.1 == largest(loads[e.0@])
}

/// No operation is listed twice.
pub open spec fn keys_distinct(s: Seq<(String, u64)>) -> bool {
    forall|a: int, c: int| 0 <= a < c < s.len() ==> (#[trigger] s[a]).0@ != (#[trigger] s[c]).0@
}

/// The list goes from the slowest time to the fastest.
pub open spec fn slowest_first(s: Seq<(String, u64)>) -> bool {
    forall|a: int, c: int| 0 <= a < c < s.len() ==> (#[trigger] s[a]).1 >= (#[trigger] s[c]).1
}

/// The operation is one of the first `i` recorded.
pub open spec fn listed_before(v: Seq<(String, Vec<u64>)>, i: int, k: Seq<char>) -> bool {
    exists|b: int| 0 <= b < i && (#[trigger] v[b]).0@ == k
}

/// Every slow operation among the first `i` recorded is in the list.
pub open spec fn covered(v: Seq<(String, Vec<u64>)>, i: int, s: Seq<(String, u64)>, threshold: u64) -> bool {
    forall|b: int|
        0 <= b < i && is_slow((#[trigger] v[b]).1@, threshold) ==> exists|a: int|
            0 <= a < s.len() && (#[trigger] s[a]).0@ == v[b].0@
}

proof fn lemma_listed_before_grows(v: Seq<(String, Vec<u64>)>, i: int, s: Seq<(String, u64)>)
    requires
        0 <= i < v.len(),
        forall|a: int| 0 <= a < s.len() ==> listed_before(v, i, (#[trigger] s[a]).0@),
    ensures
        forall|a: int| 0 <= a < s.len() ==> listed_before(v, i + 1, (#[trigger] s[a]).0@),
{
    assert forall|a: int| 0 <= a < s.len() implies listed_before(v, i + 1, (#[trigger] s[a]).0@) by {
        let b = choose|b: int| 0 <= b < i && (#[trigger] v[b]).0@ == s[a].0@;
    }
}

proof fn lemma_covered_skip(v: Seq<(String, Vec<u64>)>, i: int, s: Seq<(String, u64)>, threshold: u64)
    requires
        0 <= i < v.len(),
        covered(v, i, s, threshold),
        !is_slow(v[i].1@, threshold),
    ensures
        covered(v, i + 1, s, threshold),
{
}

proof fn lemma_insert_slow(
    v: Seq<(String, Vec<u64>)>,
    i: int,
    lv: Map<Seq<char>, Seq<u64>>,
    threshold: u64,
    old_s: Seq<(String, u64)>,
    new_s: Seq<(String, u64)>,
    pos: int,
    item: (String, u64),
)
    requires
        0 <= i < v.len(),
        distinct_ops(v),
        lv == loads_view(v),
        lv.contains_key(v[i].0@),
        lv[v[i].0@] == v[i].1@,
        item.0@ == v[i].0@,
        item.1 == largest(v[i].1@),
        is_slow(v[i].1@, threshold),
        0 <= pos <= old_s.len(),
        new_s == old_s.insert(pos, item),
        forall|a: int| 0 <= a < pos ==> (#[trigger] old_s[a]).1 >= item.1,
        forall|a: int| pos <= a < old_s.len() ==> (#[trigger] old_s[a]).1 < item.1,
        forall|a: int| 0 <= a < old_s.len() ==> slow_entry(lv, threshold, #[trigger] old_s[a]),
        forall|a: int| 0 <= a < old_s.len() ==> listed_before(v, i, (#[trigger] old_s[a]).0@),
        covered(v, i, old_s, threshold),
        keys_distinct(old_s),
        slowest_first(old_s),
    ensures
        forall|a: int| 0 <= a < new_s.len() ==> slow_entry(lv, threshold, #[trigger] new_s[a]),
        forall|a: int| 0 <= a < new_s.len() ==> listed_before(v, i + 1, (#[trigger] new_s[a]).0@),
        covered(v, i + 1, new_s, threshold),
        keys_distinct(new_s),
        slowest_first(new_s),
{
    assert forall|a: int| 0 <= a < new_s.len() implies new_s[a] == (if a < pos {
        old_s[a]
    } else if a == pos {
        item
    } else {
        old_s[a - 1]
    }) by {}
    assert forall|a: int| 0 <= a < old_s.len() implies (#[trigger] old_s[a]).0@ != item.0@ by {
        let b = choose|b: int| 0 <= b < i && (#[trigger] v[b]).0@ == old_s[a].0@;
        assert(v[b].0@ != v[i].0@);
    }
    assert forall|a: int| 0 <= a < new_s.len() implies slow_entry(lv, threshold, #[trigger] new_s[a]) by {
        if a < pos {
            assert(new_s[a] == old_s[a]);
        } else if a > pos {
            assert(new_s[a] == old_s[a - 1]);
        }
    }
    assert forall|a: int| 0 <= a < new_s.len() implies listed_before(v, i + 1, (#[trigger] new_s[a]).0@) by {
        if a < pos {
            assert(new_s[a] == old_s[a]);
            let b = choose|b: int| 0 <= b < i && (#[trigger] v[b]).0@ == old_s[a].0@;
        } else if a > pos {
            assert(new_s[a] == old_s[a - 1]);
            let b = choose|b: int| 0 <= b < i && (#[trigger] v[b]).0@ == old_s[a - 1].0@;
        } else {
            assert(v[i].0@ == new_s[a].0@);
        }
    }
    assert forall|b: int| 0 <= b < i + 1 && is_slow((#[trigger] v[b]).1@, threshold) implies exists|a: int|
        0 <= a < new_s.len() && (#[trigger] new_s[a]).0@ == v[b].0@ by {
        if b == i {
            assert(new_s[pos].0@ == v[b].0@);
        } else {
            let a = choose|a: int| 0 <= a < old_s.len() && (#[trigger] old_s[a]).0@ == v[b].0@;
            if a < pos {
                assert(new_s[a] == old_s[a]);
            } else {
                assert(new_s[a + 1] == old_s[a]);
            }
        }
    }
    assert forall|a: int, c: int| 0 <= a < c < new_s.len() implies (#[trigger] new_s[a]).0@ != (
    #[trigger] new_s[c]).0@ by {
        let oa = if a < pos {
            a
        } else {
            a - 1
        };
        let oc = if c < pos {
            c
        } else {
            c - 1
        };
        if a != pos && c != pos {
            assert(new_s[a] == old_s[oa]);
            assert(new_s[c] == old_s[oc]);
        } else if a == pos {
            assert(new_s[c] == old_s[oc]);
        } else {
            assert(new_s[a] == old_s[oa]);
        }
    }
    assert forall|a: int, c: int| 0 <= a < c < new_s.len() implies (#[trigger] new_s[a]).1 >= (
    #[trigger] new_s[c]).1 by {
        let oa = if a < pos {
            a
        } else {
            a - 1
        };
        let oc = if c < pos {
            c
        } else {
            c - 1
        };
        if a != pos && c != pos {
            assert(new_s[a] == old_s[oa]);
            assert(new_s[c] == old_s[oc]);
        } else if a == pos {
            assert(new_s[c] == old_s[oc]);
        } else {
            assert(new_s[a] == old_s[oa]);
        }
    }
}

/// The load times of the operation listed at `i`.
proof fn lemma_loads_at(v: Seq<(String, Vec<u64>)>, i: int)
    requires
        distinct_ops(v),
        0 <= i < v.len(),
    ensures
        loads_view(v).contains_key(v[i].0@),
        loads_view(v)[v[i].0@] == v[i].1@,
{
    let k = v[i].0@;
    assert(loads_view(v).contains_key(k));
    let c = choose|j: int| 0 <= j < v.len() && (#[trigger] v[j]).0@ == k;
    assert(c == i);
}

/// The average of at most a thousand durations fits a duration.
proof fn lemma_average_fits(sum: nat, n: nat)
    requires
        0 < n,
        sum <= n * (u64::MAX as nat),
    ensures
        sum / n <= u64::MAX,
{
    assert(sum / n <= u64::MAX) by (nonlinear_arith)
        requires
            0 < n,
            sum <= n * (u64::MAX as nat),
    ;
}

/// The largest of a list of durations.
fn max_of(s: &Vec<u64>) -> (m: u64)
    requires
        s@.len() > 0,
    ensures
        m == largest(s@),
{
    let mut m = s[0];
    let mut i: usize = 1;
    assert(s@.take(1) =~= seq![s@[0]]);
    while i < s.len()
        invariant
            1 <= i <= s@.len(),
            m == largest(s@.take(i as int)),
        decreases s@.len() - i,
    {
        proof {
            assert(s@.take(i + 1).drop_last() =~= s@.take(i as int));
        }
        if s[i] > m {
            m = s[i];
        }
        i = i + 1;
    }
    assert(s@.take(s@.len() as int) =~= s@);
    m
}

/// Where a time goes in a list ordered slowest first: after every time at
/// least as slow, so that equal times keep their order.
fn insert_position(slow: &Vec<(String, u64)>, m: u64) -> (p: usize)
    requires
        forall|a: int, c: int| 0 <= a < c < slow@.len() ==> (#[trigger] slow@[a]).1 >= (#[trigger] slow@[c]).1,
    ensures
        p <= slow@.len(),
        forall|a: int| 0 <= a < p ==> (#[trigger] slow@[a]).1 >= m,
        forall|a: int| p <= a < slow@.len() ==> (#[trigger] slow@[a]).1 < m,
{
    let mut p: usize = 0;
    while p < slow.len() && slow[p].1 >= m
        invariant
            p <= slow@.len(),
            forall|a: int| 0 <= a < p ==> (#[trigger] slow@[a]).1 >= m,
        decreases slow@.len() - p,
    {
        p = p + 1;
    }
    p
}

/// How long cached data stays fresh, in nanoseconds, and how many deck
/// statistics the cache holds.
#[derive(Debug, Clone, Copy, PartialEq, Eq, Structural)]
pub struct CacheConfig {
    pub max_deck_list_age: u64,
    pub max_stats_age: u64,
    pub max_ui_state_age: u64,
    pub max_cache_size: usize,
    pub enable_compression: bool,
}

impl Default for CacheConfig {
    /// Deck lists fresh for 30 s, statistics for 60 s, interface state for
    /// 5 s; a hundred statistics entries; no compression.
    fn default() -> (c: CacheConfig)
        ensures
            c == (CacheConfig {
                max_deck_list_age: 30_000_000_000,
                max_stats_age: 60_000_000_000,
                max_ui_state_age: 5_000_000_000,
                max_cache_size: 100,
                enable_compression: false,
            }),
    {
        CacheConfig {
            max_deck_list_age: 30_000_000_000,
            max_stats_age: 60_000_000_000,
            max_ui_state_age: 5_000_000_000,
            max_cache_size: 100,
            enable_compression: false,
        }
    }
}

/// The kinds of background loading.
#[derive(Debug, Clone, Copy, PartialEq, Eq, Structural)]
pub enum LoadingOperationType {
    LoadDeck,
    LoadDeckStats,
    LoadDecksList,
    ImportDeck,
    ExportDeck,
}

/// Data that is being loaded, has been loaded, or failed to load.
#[derive(Debug)]
pub enum AsyncData<T> {
    Loading,
    Loaded(T),
    Error(String),
}

/// Whether something stored at `stored` (milliseconds) is older than
/// `max_age` (nanoseconds) at `now` (milliseconds).
pub open spec fn expired(stored: i64, now: i64, max_age: u64) -> bool {
    (now - stored) * 1_000_000 > max_age
}

fn is_expired(stored: i64, now: i64, max_age: u64) -> (b: bool)
    ensures
        b == expired(stored, now, max_age),
{
    let age: i128 = now as i128 - stored as i128;
    age * 1_000_000 > max_age as i128
}

/// What decides whether a drawn deck list is still right: each deck's
/// name, id and creation time, in order.
pub open spec fn deck_key(decks: Seq<DeckSummary>) -> Seq<(Seq<char>, u128, i64)> {
    decks.map_values(|d: DeckSummary| (d.name@, d.uuid, d.created_at))
}

/// A drawn deck list: the decks, the text drawn for them, and when.
pub struct CachedDeckList {
    decks: Vec<DeckSummary>,
    rendered_content: String,
    last_updated: i64,
}

impl CachedDeckList {
    pub closed spec fn decks(&self) -> Seq<DeckSummary> {
        self.decks@
    }

    pub closed spec fn content(&self) -> Seq<char> {
        self.rendered_content@
    }

    pub closed spec fn updated(&self) -> i64 {
        self.last_updated
    }

    /// The text drawn.
    pub fn rendered_content(&self) -> (s: &str)
        ensures
            s@ == self.content(),
    {
        self.rendered_content.as_str()
    }
}

/// The statistics of one deck and when they were stored; they stay fresh
/// for `ttl` nanoseconds.
pub struct CachedDeckStats {
    pub deck_id: u128,
    pub stats: DeckStats,
    pub last_updated: i64,
    pub ttl: u64,
}

/// A drawn component: its text, its size, and when it was drawn.
pub struct CachedComponent {
    pub content: String,
    pub size: (u16, u16),
    pub last_updated: i64,
}

/// The drawn components of one interface state.
pub struct CachedUIState {
    pub state_hash: u64,
    pub rendered_components: Vec<(String, CachedComponent)>,
    pub last_updated: i64,
}

/// The position of a deck's statistics, if they are stored.
pub open spec fn stats_position(s: Seq<CachedDeckStats>, deck_id: u128) -> Option<int> {
    if exists|i: int| 0 <= i < s.len() && (#[trigger] s[i]).deck_id == deck_id {
        Some(choose|i: int| 0 <= i < s.len() && (#[trigger] s[i]).deck_id == deck_id)
    } else {
        None
    }
}

/// No deck's statistics are stored twice.
pub open spec fn distinct_decks(s: Seq<CachedDeckStats>) -> bool {
    forall|i: int, j: int| 0 <= i < j < s.len() ==> (#[trigger] s[i]).deck_id != (#[trigger] s[j]).deck_id
}

/// Entry `i` is the first of those stored longest ago.
pub open spec fn first_oldest(s: Seq<CachedDeckStats>, i: int) -> bool {
    &&& 0 <= i < s.len()
    &&& forall|j: int| 0 <= j < s.len() ==> s[i].last_updated <= (#[trigger] s[j]).last_updated
    &&& forall|j: int| 0 <= j < i ==> s[i].last_updated < (#[trigger] s[j]).last_updated
}

/// The stored statistics after storing `e`: it replaces the deck's earlier
/// entry in place, or comes last.
pub open spec fn stats_stored(s: Seq<CachedDeckStats>, e: CachedDeckStats) -> Seq<CachedDeckStats> {
    match stats_position(s, e.deck_id) {
        Some(i) => s.update(i, e),
        None => s.push(e),
    }
}

/// The statistics kept by a clean-up at `now`: those still fresh, in order.
pub open spec fn fresh_stats(s: Seq<CachedDeckStats>, now: i64) -> Seq<CachedDeckStats>
    decreases s.len(),
{
    if s.len() == 0 {
        s
    } else {
        let rest = fresh_stats(s.drop_last(), now);
        if expired(s.last().last_updated, now, s.last().ttl) {
            rest
        } else {
            rest.push(s.last())
        }
    }
}

/// Whether the deck list must be drawn again at `now`: nothing is drawn,
/// the drawing is older than `max_age`, or a deck's name, id or creation
/// time differs.
pub open spec fn rerender_needed(cached: Option<CachedDeckList>, decks: Seq<DeckSummary>, now: i64, max_age: u64) -> bool {
    match cached {
        None => true,
        Some(c) => expired(c.updated(), now, max_age) || deck_key(c.decks()) != deck_key(decks),
    }
}

/// Whether a deck's statistics must be loaded again at `now`: none are
/// stored, or they are older than their freshness.
pub open spec fn reload_needed(s: Seq<CachedDeckStats>, deck_id: u128, now: i64) -> bool {
    match stats_position(s, deck_id) {
        None => true,
        Some(i) => expired(s[i].last_updated, now, s[i].ttl),
    }
}

/// The drawn deck list kept by a clean-up at `now`: it is forgotten once
/// older than `max_age`.
pub open spec fn list_after_cleanup(cached: Option<CachedDeckList>, now: i64, max_age: u64) -> Option<CachedDeckList> {
    match cached {
        Some(c) => if expired(c.updated(), now, max_age) {
            None
        } else {
            Some(c)
        },
        None => None,
    }
}

/// The render cache: the drawn deck list, the statistics of each deck,
/// the metrics of its hits and misses, and how long entries stay fresh.
pub struct RenderCache {
    deck_list_cache: Option<CachedDeckList>,
    stats_cache: Vec<CachedDeckStats>,
    ui_state_cache: Option<CachedUIState>,
    performance_metrics: PerformanceMetrics,
    cache_config: CacheConfig,
}

impl RenderCache {
    /// Each deck's statistics are stored once, no more of them than the
    /// configured size, and the metrics are well formed.
    #[verifier::type_invariant]
    closed spec fn inv(&self) -> bool {
        &&& distinct_decks(self.stats_cache@)
        &&& self.stats_cache@.len() <= self.cache_config.max_cache_size
        &&& self.performance_metrics.wf()
    }

    pub closed spec fn deck_list(&self) -> Option<CachedDeckList> {
        self.deck_list_cache
    }

    pub closed spec fn stats(&self) -> Seq<CachedDeckStats> {
        self.stats_cache@
    }

    pub closed spec fn metrics(&self) -> PerformanceMetrics {
        self.performance_metrics
    }

    pub closed spec fn config(&self) -> CacheConfig {
        self.cache_config
    }

    /// An empty cache with the default freshness and size.
    pub fn new() -> (c: RenderCache)
        ensures
            c.deck_list() is None,
            c.stats().len() == 0,
            c.metrics().renders().len() == 0,
            c.metrics().loads() == Map::<Seq<char>, Seq<u64>>::empty(),
            c.metrics().cache_counts() == (0u64, 0u64),
            c.config() == CacheConfig::default_spec(),
    {
        RenderCache {
            deck_list_cache: None,
            stats_cache: Vec::new(),
            ui_state_cache: None,
            performance_metrics: PerformanceMetrics::new(),
            cache_config: CacheConfig::default(),
        }
    }

    /// Counts a cache hit or a miss.
    fn count(&mut self, miss: bool)
        requires
            old(self).metrics().cache_counts().0 < u64::MAX,
            old(self).metrics().cache_counts().1 < u64::MAX,
        ensures
            final(self).metrics().cache_counts() == if miss {
                (old(self).metrics().cache_counts().0, (old(self).metrics().cache_counts().1 + 1) as u64)
            } else {
                ((old(self).metrics().cache_counts().0 + 1) as u64, old(self).metrics().cache_counts().1)
            },
            final(self).metrics().renders() == old(self).metrics().renders(),
            final(self).metrics().loads() == old(self).metrics().loads(),
            final(self).deck_list() == old(self).deck_list(),
            final(self).stats() == old(self).stats(),
            final(self).config() == old(self).config(),
    {
        proof {
            use_type_invariant(&*self);
        }
        if miss {
            self.performance_metrics.cache_misses = self.performance_metrics.cache_misses + 1;
        } else {
            self.performance_metrics.cache_hits = self.performance_metrics.cache_hits + 1;
        }
    }

    /// Whether the deck list must be drawn again at `now`: nothing is
    /// drawn, the drawing is older than the deck list's freshness, or a
    /// deck's name, id or creation time differs. Counts a miss when it
    /// must, a hit otherwise.
    pub fn should_rerender_deck_list_at(&mut self, decks: &[DeckSummary], now: i64) -> (r: bool)
        requires
            old(self).metrics().cache_counts().0 < u64::MAX,
            old(self).metrics().cache_counts().1 < u64::MAX,
        ensures
            r == rerender_needed(old(self).deck_list(), decks@, now, old(self).config().max_deck_list_age),
            final(self).metrics().cache_counts() == if r {
                (old(self).metrics().cache_counts().0, (old(self).metrics().cache_counts().1 + 1) as u64)
            } else {
                ((old(self).metrics().cache_counts().0 + 1) as u64, old(self).metrics().cache_counts().1)
            },
            final(self).metrics().renders() == old(self).metrics().renders(),
            final(self).metrics().loads() == old(self).metrics().loads(),
            final(self).deck_list() == old(self).deck_list(),
            final(self).stats() == old(self).stats(),
            final(self).config() == old(self).config(),
    {
        let r = match &self.deck_list_cache {
            None => true,
            Some(c) => is_expired(c.last_updated, now, self.cache_config.max_deck_list_age) || !same_key(
                &c.decks,
                decks,
            ),
        };
        self.count(r);
        r
    }

    /// `should_rerender_deck_list_at` now.
    pub fn should_rerender_deck_list(&mut self, decks: &[DeckSummary]) -> (r: bool)
        requires
            old(self).metrics().cache_counts().0 < u64::MAX,
            old(self).metrics().cache_counts().1 < u64::MAX,
        ensures
            match old(self).deck_list() {
                None => r,
                Some(c) => deck_key(c.decks()) != deck_key(decks@) ==> r,
            },
            final(self).metrics().cache_counts() == if r {
                (old(self).metrics().cache_counts().0, (old(self).metrics().cache_counts().1 + 1) as u64)
            } else {
                ((old(self).metrics().cache_counts().0 + 1) as u64, old(self).metrics().cache_counts().1)
            },
            final(self).deck_list() == old(self).deck_list(),
            final(self).stats() == old(self).stats(),
    {
        let now = now_unix_millis();
        self.should_rerender_deck_list_at(decks, now)
    }

    /// Remembers the deck list drawn at `now` and its text.
    pub fn cache_deck_list_at(&mut self, decks: Vec<DeckSummary>, rendered_content: String, now: i64)
        ensures
            final(self).deck_list() matches Some(c) && c.decks() == decks@ && c.content() == rendered_content@
                && c.updated() == now,
            final(self).stats() == old(self).stats(),
            final(self).metrics() == old(self).metrics(),
            final(self).config() == old(self).config(),
    {
        proof {
            use_type_invariant(&*self);
        }
        self.deck_list_cache = Some(CachedDeckList { decks, rendered_content, last_updated: now });
    }

    /// `cache_deck_list_at` now.
    pub fn cache_deck_list(&mut self, decks: Vec<DeckSummary>, rendered_content: String)
        ensures
            final(self).deck_list() matches Some(c) && c.decks() == decks@ && c.content() == rendered_content@,
            final(self).stats() == old(self).stats(),
            final(self).metrics() == old(self).metrics(),
    {
        let now = now_unix_millis();
        self.cache_deck_list_at(decks, rendered_content, now);
    }

    /// The drawn deck list, if any.
    pub fn get_cached_deck_list(&self) -> (c: Option<&CachedDeckList>)
        ensures
            match c {
                Some(x) => self.deck_list() == Some(*x),
                None => self.deck_list() is None,
            },
    {
        match &self.deck_list_cache {
            Some(c) => Some(c),
            None => None,
        }
    }

    /// The position of a deck's statistics.
    fn find_stats(&self, deck_id: u128) -> (p: Option<usize>)
        ensures
            match p {
                Some(i) => stats_position(self.stats(), deck_id) == Some(i as int),
                None => stats_position(self.stats(), deck_id) is None,
            },
    {
        proof {
            use_type_invariant(self);
        }
        position_of(&self.stats_cache, deck_id)
    }

    /// Whether a deck's statistics must be loaded again at `now`: none are
    /// stored, or they are older than their freshness. Counts a miss when
    /// they must, a hit otherwise.
    pub fn should_reload_deck_stats_at(&mut self, deck_id: u128, now: i64) -> (r: bool)
        requires
            old(self).metrics().cache_counts().0 < u64::MAX,
            old(self).metrics().cache_counts().1 < u64::MAX,
        ensures
            r == reload_needed(old(self).stats(), deck_id, now),
            final(self).metrics().cache_counts() == if r {
                (old(self).metrics().cache_counts().0, (old(self).metrics().cache_counts().1 + 1) as u64)
            } else {
                ((old(self).metrics().cache_counts().0 + 1) as u64, old(self).metrics().cache_counts().1)
            },
            final(self).metrics().renders() == old(self).metrics().renders(),
            final(self).metrics().loads() == old(self).metrics().loads(),
            final(self).deck_list() == old(self).deck_list(),
            final(self).stats() == old(self).stats(),
            final(self).config() == old(self).config(),
    {
        let r = match self.find_stats(deck_id) {
            None => true,
            Some(i) => is_expired(self.stats_cache[i].last_updated, now, self.stats_cache[i].ttl),
        };
        self.count(r);
        r
    }

    /// `should_reload_deck_stats_at` now.
    pub fn should_reload_deck_stats(&mut self, deck_id: u128) -> (r: bool)
        requires
            old(self).metrics().cache_counts().0 < u64::MAX,
            old(self).metrics().cache_counts().1 < u64::MAX,
        ensures
            stats_position(old(self).stats(), deck_id) is None ==> r,
            final(self).metrics().cache_counts() == if r {
                (old(self).metrics().cache_counts().0, (old(self).metrics().cache_counts().1 + 1) as u64)
            } else {
                ((old(self).metrics().cache_counts().0 + 1) as u64, old(self).metrics().cache_counts().1)
            },
            final(self).deck_list() == old(self).deck_list(),
            final(self).stats() == old(self).stats(),
    {
        let now = now_unix_millis();
        self.should_reload_deck_stats_at(deck_id, now)
    }

    /// Stores a deck's statistics at `now`, fresh for the configured time.
    /// They replace the deck's earlier ones in place or come last; when the
    /// cache then holds more than its size, the first of the entries stored
    /// longest ago leaves.
    pub fn cache_deck_stats_at(&mut self, deck_id: u128, stats: DeckStats, now: i64)
        ensures
            ({
                let e = CachedDeckStats { deck_id, stats, last_updated: now, ttl: old(self).config().max_stats_age };
                let t = stats_stored(old(self).stats(), e);
                &&& t.len() <= old(self).config().max_cache_size ==> final(self).stats() == t
                &&& t.len() > old(self).config().max_cache_size ==> exists|i: int|
                    first_oldest(t, i) && final(self).stats() == t.remove(i)
            }),
            final(self).deck_list() == old(self).deck_list(),
            final(self).metrics() == old(self).metrics(),
            final(self).config() == old(self).config(),
    {
        proof {
            use_type_invariant(&*self);
        }
        let ghost old_stats = self.stats_cache@;
        let ttl = self.cache_config.max_stats_age;
        let max = self.cache_config.max_cache_size;
        let mut v: Vec<CachedDeckStats> = Vec::new();
        std::mem::swap(&mut v, &mut self.stats_cache);
        let e = CachedDeckStats { deck_id, stats, last_updated: now, ttl };
        let ghost ge = e;
        match position_of(&v, deck_id) {
            Some(i) => {
                v.set(i, e);
                proof {
                    assert forall|a: int, b: int| 0 <= a < b < v@.len() implies (#[trigger] v@[a]).deck_id
                        != (#[trigger] v@[b]).deck_id by {
                        if a != i && b != i {
                            assert(old_stats[a].deck_id != old_stats[b].deck_id);
                        } else if a == i {
                            assert(old_stats[a].deck_id != old_stats[b].deck_id);
                        } else {
                            assert(old_stats[a].deck_id != old_stats[b].deck_id);
                        }
                    }
                }
            },
            None => {
                v.push(e);
                proof {
                    assert forall|a: int, b: int| 0 <= a < b < v@.len() implies (#[trigger] v@[a]).deck_id
                        != (#[trigger] v@[b]).deck_id by {
                        if b == old_stats.len() {
                            assert(old_stats[a].deck_id != deck_id);
                        } else {
                            assert(old_stats[a].deck_id != old_stats[b].deck_id);
                        }
                    }
                }
            },
        }
        let ghost t = v@;
        assert(t == stats_stored(old_stats, ge));
        if v.len() > max {
            let k = oldest_position(&v);
            v.remove(k);
            proof {
                assert(v@ == t.remove(k as int));
                assert forall|a: int, b: int| 0 <= a < b < v@.len() implies (#[trigger] v@[a]).deck_id
                    != (#[trigger] v@[b]).deck_id by {
                    let a2 = if a < k { a } else { a + 1 };
                    let b2 = if b < k { b } else { b + 1 };
                    assert(t[a2].deck_id != t[b2].deck_id);
                }
            }
        }
        self.stats_cache = v;
    }

    /// `cache_deck_stats_at` now.
    pub fn cache_deck_stats(&mut self, deck_id: u128, stats: DeckStats)
        ensures
            stats_position(final(self).stats(), deck_id) is Some || final(self).stats().len() == old(self).config().max_cache_size,
            final(self).deck_list() == old(self).deck_list(),
            final(self).metrics() == old(self).metrics(),
            final(self).config() == old(self).config(),
    {
        proof {
            use_type_invariant(&*self);
        }
        let now = now_unix_millis();
        let ghost before = self.stats_cache@;
        let ghost ttl = self.cache_config.max_stats_age;
        let ghost e = CachedDeckStats { deck_id, stats, last_updated: now, ttl };
        self.cache_deck_stats_at(deck_id, stats, now);
        proof {
            let t = stats_stored(before, e);
            match stats_position(before, deck_id) {
                Some(i) => {
                    assert(t[i].deck_id == deck_id);
                    assert(t.len() == before.len());
                },
                None => {
                    assert(t[before.len() as int].deck_id == deck_id);
                },
            }
            if t.len() <= old(self).config().max_cache_size {
                assert(exists|j: int| 0 <= j < t.len() && (#[trigger] t[j]).deck_id == deck_id);
            }
        }
    }

    /// Forgets what has gone stale at `now`: the drawn deck list once older
    /// than its freshness, and each deck's statistics once older than
    /// theirs.
    pub fn cleanup_expired_at(&mut self, now: i64)
        ensures
            final(self).deck_list() == list_after_cleanup(old(self).deck_list(), now, old(self).config().max_deck_list_age),
            final(self).stats() == fresh_stats(old(self).stats(), now),
            final(self).metrics() == old(self).metrics(),
            final(self).config() == old(self).config(),
    {
        proof {
            use_type_invariant(&*self);
        }
        let drop_list = match &self.deck_list_cache {
            Some(c) => is_expired(c.last_updated, now, self.cache_config.max_deck_list_age),
            None => false,
        };
        if drop_list {
            self.deck_list_cache = None;
        }
        let ghost old_stats = self.stats_cache@;
        let mut v: Vec<CachedDeckStats> = Vec::new();
        std::mem::swap(&mut v, &mut self.stats_cache);
        let mut kept: Vec<CachedDeckStats> = Vec::new();
        let mut rest = v;
        let ghost n = old_stats.len();
        while rest.len() > 0
            invariant
                rest@.len() <= n,
                n == old_stats.len(),
                rest@ == old_stats.subrange(n - rest@.len(), n as int),
                kept@ == fresh_stats(old_stats.take(n - rest@.len()), now),
            decreases rest@.len(),
        {
            let ghost i = n - rest@.len();
            let e = rest.remove(0);
            proof {
                assert(old_stats.take(i + 1).drop_last() =~= old_stats.take(i));
                assert(rest@ =~= old_stats.subrange(i + 1, n as int));
            }
            if !is_expired(e.last_updated, now, e.ttl) {
                kept.push(e);
            }
        }
        proof {
            assert(old_stats.take(n as int) =~= old_stats);
            lemma_fresh_stats(old_stats, now);
        }
        self.stats_cache = kept;
    }

    /// `cleanup_expired_at` now.
    pub fn cleanup_expired(&mut self)
        ensures
            exists|now: i64|
                #[trigger] fresh_stats(old(self).stats(), now) == final(self).stats() && final(self).deck_list()
                    == list_after_cleanup(old(self).deck_list(), now, old(self).config().max_deck_list_age),
            final(self).stats().len() <= old(self).stats().len(),
            final(self).metrics() == old(self).metrics(),
            final(self).config() == old(self).config(),
    {
        proof {
            use_type_invariant(&*self);
        }
        let now = now_unix_millis();
        self.cleanup_expired_at(now);
        proof {
            lemma_fresh_stats(old(self).stats(), now);
            assert(fresh_stats(old(self).stats(), now) == self.stats());
        }
    }

    /// The stored statistics of a deck, if any.
    pub fn get_cached_deck_stats(&self, deck_id: u128) -> (r: Option<&DeckStats>)
        ensures
            match stats_position(self.stats(), deck_id) {
                None => r is None,
                Some(i) => r == Some(&self.stats()[i].stats),
            },
    {
        match self.find_stats(deck_id) {
            Some(i) => Some(&self.stats_cache[i].stats),
            None => None,
        }
    }

    /// Records a render time.
    pub fn record_render_time(&mut self, duration: u64)
        ensures
            final(self).metrics().renders() == window_after(old(self).metrics().renders(), duration, MAX_RENDER_SAMPLES as nat),
            final(self).metrics().loads() == old(self).metrics().loads(),
            final(self).metrics().cache_counts() == old(self).metrics().cache_counts(),
            final(self).deck_list() == old(self).deck_list(),
            final(self).stats() == old(self).stats(),
            final(self).config() == old(self).config(),
    {
        proof {
            use_type_invariant(&*self);
        }
        let mut m = PerformanceMetrics::new();
        std::mem::swap(&mut m, &mut self.performance_metrics);
        m.record_render_time(duration);
        self.performance_metrics = m;
    }

    /// Records how long an operation took to load data.
    pub fn record_data_load_time(&mut self, operation: &str, duration: u64)
        ensures
            final(self).metrics().loads() == old(self).metrics().loads().insert(
                operation@,
                window_after(
                    if old(self).metrics().loads().contains_key(operation@) {
                        old(self).metrics().loads()[operation@]
                    } else {
                        Seq::<u64>::empty()
                    },
                    duration,
                    MAX_LOAD_SAMPLES as nat,
                ),
            ),
            final(self).metrics().renders() == old(self).metrics().renders(),
            final(self).metrics().cache_counts() == old(self).metrics().cache_counts(),
            final(self).deck_list() == old(self).deck_list(),
            final(self).stats() == old(self).stats(),
            final(self).config() == old(self).config(),
    {
        proof {
            use_type_invariant(&*self);
        }
        let mut m = PerformanceMetrics::new();
        std::mem::swap(&mut m, &mut self.performance_metrics);
        m.record_data_load_time(operation, duration);
        self.performance_metrics = m;
    }

    /// The metrics of the cache.
    pub fn get_performance_stats(&self) -> (m: &PerformanceMetrics)
        ensures
            *m == self.metrics(),
            m.wf(),
    {
        proof {
            use_type_invariant(self);
        }
        &self.performance_metrics
    }
}

/// The position of a deck's statistics in a list that stores each deck
/// once.
fn position_of(v: &Vec<CachedDeckStats>, deck_id: u128) -> (p: Option<usize>)
    requires
        distinct_decks(v@),
    ensures
        match p {
            Some(i) => stats_position(v@, deck_id) == Some(i as int),
            None => stats_position(v@, deck_id) is None,
        },
{
    let mut i: usize = 0;
    while i < v.len()
        invariant
            i <= v@.len(),
            distinct_decks(v@),
            forall|j: int| 0 <= j < i ==> (#[trigger] v@[j]).deck_id != deck_id,
        decreases v@.len() - i,
    {
        if v[i].deck_id == deck_id {
            proof {
                let s = v@;
                assert(0 <= i < s.len() && s[i as int].deck_id == deck_id);
                let k = choose|k: int| 0 <= k < s.len() && (#[trigger] s[k]).deck_id == deck_id;
                if k != i {
                    if k < i {
                        assert(s[k].deck_id != deck_id);
                    } else {
                        assert(s[i as int].deck_id != s[k].deck_id);
                    }
                }
            }
            return Some(i);
        }
        i = i + 1;
    }
    None
}

/// The position of the first of the entries stored longest ago.
fn oldest_position(v: &Vec<CachedDeckStats>) -> (k: usize)
    requires
        v@.len() > 0,
    ensures
        first_oldest(v@, k as int),
{
    let mut k: usize = 0;
    let mut i: usize = 1;
    while i < v.len()
        invariant
            1 <= i <= v@.len(),
            k < i,
            forall|j: int| 0 <= j < i ==> v@[k as int].last_updated <= (#[trigger] v@[j]).last_updated,
            forall|j: int| 0 <= j < k ==> v@[k as int].last_updated < (#[trigger] v@[j]).last_updated,
        decreases v@.len() - i,
    {
        if v[i].last_updated < v[k].last_updated {
            k = i;
        }
        i = i + 1;
    }
    k
}

/// A clean-up keeps no more entries than it had, keeps only entries it
/// had, and keeps each deck once if each deck was stored once.
pub proof fn lemma_fresh_stats(s: Seq<CachedDeckStats>, now: i64)
    ensures
        fresh_stats(s, now).len() <= s.len(),
        forall|k: int| 0 <= k < fresh_stats(s, now).len() ==> exists|j: int| 0 <= j < s.len() && s[j] == #[trigger] fresh_stats(s, now)[k],
        distinct_decks(s) ==> distinct_decks(fresh_stats(s, now)),
    decreases s.len(),
{
    if s.len() > 0 {
        let d = s.drop_last();
        lemma_fresh_stats(d, now);
        let r = fresh_stats(d, now);
        assert forall|k: int| 0 <= k < fresh_stats(s, now).len() implies exists|j: int| 0 <= j < s.len() && s[j] == #[trigger] fresh_stats(s, now)[k] by {
            if k < r.len() {
                let j = choose|j: int| 0 <= j < d.len() && d[j] == #[trigger] r[k];
                assert(s[j] == fresh_stats(s, now)[k]);
            } else {
                assert(s[s.len() - 1] == fresh_stats(s, now)[k]);
            }
        }
        if distinct_decks(s) {
            assert(distinct_decks(d)) by {
                assert forall|a: int, b: int| 0 <= a < b < d.len() implies (#[trigger] d[a]).deck_id != (#[trigger] d[b]).deck_id by {
                    assert(s[a].deck_id != s[b].deck_id);
                }
            }
            let f = fresh_stats(s, now);
            assert forall|a: int, b: int| 0 <= a < b < f.len() implies (#[trigger] f[a]).deck_id != (#[trigger] f[b]).deck_id by {
                if b == r.len() {
                    let j = choose|j: int| 0 <= j < d.len() && d[j] == #[trigger] r[a];
                    assert(s[j].deck_id != s[s.len() - 1].deck_id);
                } else {
                    assert(r[a].deck_id != r[b].deck_id);
                }
            }
        }
    }
}

/// A deck list drawn at `now` needs no drawing again at `now` for the
/// same decks.
pub proof fn lemma_cached_list_is_fresh(c: CachedDeckList, now: i64, max_age: u64)
    requires
        c.updated() == now,
    ensures
        !rerender_needed(Some(c), c.decks(), now, max_age),
{
}

/// Statistics just stored are found again, and need no loading at the
/// time they were stored.
pub proof fn lemma_stored_stats_found(s: Seq<CachedDeckStats>, e: CachedDeckStats)
    requires
        distinct_decks(s),
    ensures
        stats_position(stats_stored(s, e), e.deck_id) matches Some(i) && stats_stored(s, e)[i] == e,
        !reload_needed(stats_stored(s, e), e.deck_id, e.last_updated),
{
    let t = stats_stored(s, e);
    match stats_position(s, e.deck_id) {
        Some(i) => {
            assert(t[i].deck_id == e.deck_id);
            let k = choose|k: int| 0 <= k < t.len() && (#[trigger] t[k]).deck_id == e.deck_id;
            if k != i {
                if k < i {
                    assert(s[k].deck_id != s[i].deck_id);
                } else {
                    assert(s[i].deck_id != s[k].deck_id);
                }
            }
        },
        None => {
            assert(t[s.len() as int].deck_id == e.deck_id);
            let k = choose|k: int| 0 <= k < t.len() && (#[trigger] t[k]).deck_id == e.deck_id;
            if k != s.len() {
                assert(s[k].deck_id == e.deck_id);
            }
        },
    }
}

/// Every entry a clean-up keeps is fresh, and a second clean-up at the
/// same time keeps them all.
pub proof fn lemma_cleanup_keeps_fresh(s: Seq<CachedDeckStats>, now: i64)
    ensures
        forall|k: int| 0 <= k < fresh_stats(s, now).len() ==> !expired(
            (#[trigger] fresh_stats(s, now)[k]).last_updated,
            now,
            fresh_stats(s, now)[k].ttl,
        ),
        fresh_stats(fresh_stats(s, now), now) == fresh_stats(s, now),
    decreases s.len(),
{
    if s.len() > 0 {
        let d = s.drop_last();
        lemma_cleanup_keeps_fresh(d, now);
        let r = fresh_stats(d, now);
        if !expired(s.last().last_updated, now, s.last().ttl) {
            let f = r.push(s.last());
            assert(f.drop_last() =~= r);
            assert(fresh_stats(f, now) == fresh_stats(r, now).push(s.last()));
        }
    }
}

/// Whether two deck lists agree on each deck's name, id and creation time.
fn same_key(a: &Vec<DeckSummary>, b: &[DeckSummary]) -> (r: bool)
    ensures
        r == (deck_key(a@) == deck_key(b@)),
{
    if a.len() != b.len() {
        proof {
            assert(deck_key(a@).len() != deck_key(b@).len());
        }
        return false;
    }
    let mut i: usize = 0;
    while i < a.len()
        invariant
            a@.len() == b@.len(),
            i <= a@.len(),
            forall|j: int| 0 <= j < i ==> (#[trigger] deck_key(a@)[j]) == deck_key(b@)[j],
        decreases a@.len() - i,
    {
        let x = &a[i];
        let y = &b[i];
        if !(str_eq(x.name.as_str(), y.name.as_str()) && x.uuid == y.uuid && x.created_at == y.created_at) {
            proof {
                assert(deck_key(a@)[i as int] != deck_key(b@)[i as int]);
            }
            return false;
        }
        i = i + 1;
    }
    proof {
        assert(deck_key(a@) =~= deck_key(b@));
    }
    true
}

impl CacheConfig {
    pub open spec fn default_spec() -> CacheConfig {
        CacheConfig {
            max_deck_list_age: 30_000_000_000,
            max_stats_age: 60_000_000_000,
            max_ui_state_age: 5_000_000_000,
            max_cache_size: 100,
            enable_compression: false,
        }
    }
}

} // verus!
