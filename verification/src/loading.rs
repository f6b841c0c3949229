//! The loader's record of background loading operations: each is started
//! under an id, moves on through its progress to completion or failure, and
//! the completed ones are cleared away. No id occurs twice in the record.
//! A completion records how long the operation took in the loader's
//! performance metrics, in nanoseconds, under the name of its kind; start
//! and end times are in milliseconds since the epoch.
use vstd::prelude::*;
use crate::clock::now_unix_millis;
use crate::performance::{LoadingOperationType, MAX_LOAD_SAMPLES, PerformanceMetrics, window_after};
use crate::text::str_eq;

verus! {

/// Where a loading operation stands. Progress is counted in thousandths of
/// the whole, from 0 to 1000.
#[derive(Debug)]
pub enum LoadingStatus {
    Pending,
    InProgress(u32),
    Completed,
    Failed(String),
}

/// A status as a value.
pub enum StatusView {
    Pending,
    InProgress(u32),
    Completed,
    Failed(Seq<char>),
}

/// The value a status stands for.
pub open spec fn status_view(s: LoadingStatus) -> StatusView {
    match s {
        LoadingStatus::Pending => StatusView::Pending,
        LoadingStatus::InProgress(p) => StatusView::InProgress(p),
        LoadingStatus::Completed => StatusView::Completed,
        LoadingStatus::Failed(e) => StatusView::Failed(e@),
    }
}

impl LoadingStatus {
    /// A copy of the status.
    pub fn copy(&self) -> (c: LoadingStatus)
        ensures
            status_view(c) == status_view(*self),
    {
        match self {
            LoadingStatus::Pending => LoadingStatus::Pending,
            LoadingStatus::InProgress(p) => LoadingStatus::InProgress(*p),
            LoadingStatus::Completed => LoadingStatus::Completed,
            LoadingStatus::Failed(e) => LoadingStatus::Failed(e.clone()),
        }
    }
}

/// One loading operation: its id, what it loads, when it started and where
/// it stands.
#[derive(Debug)]
pub struct LoadingOperation {
    pub id: String,
    pub operation_type: LoadingOperationType,
    pub started_at: i64,
    pub status: LoadingStatus,
}

/// An operation as a value.
pub struct OperationView {
    pub id: Seq<char>,
    pub operation_type: LoadingOperationType,
    pub started_at: i64,
    pub status: StatusView,
}

/// The value an operation stands for.
pub open spec fn operation_view(op: LoadingOperation) -> OperationView {
    OperationView {
        id: op.id@,
        operation_type: op.operation_type,
        started_at: op.started_at,
        status: status_view(op.status),
    }
}

/// The name under which an operation's load times are recorded.
pub open spec fn type_label(t: LoadingOperationType) -> Seq<char> {
    match t {
        LoadingOperationType::LoadDeck => "LoadDeck"@,
        LoadingOperationType::LoadDeckStats => "LoadDeckStats"@,
        LoadingOperationType::LoadDecksList => "LoadDecksList"@,
        LoadingOperationType::ImportDeck => "ImportDeck"@,
        LoadingOperationType::ExportDeck => "ExportDeck"@,
    }
}

/// The name under which an operation's load times are recorded.
pub fn operation_label(t: LoadingOperationType) -> (n: &'static str)
    ensures
        n@ == type_label(t),
{
    match t {
        LoadingOperationType::LoadDeck => "LoadDeck",
        LoadingOperationType::LoadDeckStats => "LoadDeckStats",
        LoadingOperationType::LoadDecksList => "LoadDecksList",
        LoadingOperationType::ImportDeck => "ImportDeck",
        LoadingOperationType::ExportDeck => "ExportDeck",
    }
}

/// How long an operation took, in nanoseconds, from its start to `now`
/// (both in milliseconds): nothing when the clock went back, and at most
/// what a `u64` holds.
pub open spec fn load_duration(started_at: i64, now: i64) -> u64 {
    if now <= started_at {
        0
    } else if (now - started_at) * 1_000_000 > u64::MAX {
        u64::MAX
    } else {
        ((now - started_at) * 1_000_000) as u64
    }
}

fn elapsed_nanos(started_at: i64, now: i64) -> (d: u64)
    ensures
        d == load_duration(started_at, now),
{
    if now <= started_at {
        return 0;
    }
    let ms: i128 = now as i128 - started_at as i128;
    let ns: i128 = ms * 1_000_000;
    if ns > u64::MAX as i128 {
        u64::MAX
    } else {
        ns as u64
    }
}

/// The load times after one more was recorded for an operation.
pub open spec fn record_load(loads: Map<Seq<char>, Seq<u64>>, op: Seq<char>, d: u64) -> Map<Seq<char>, Seq<u64>> {
    loads.insert(
        op,
        window_after(
            if loads.contains_key(op) {
                loads[op]
            } else {
                Seq::<u64>::empty()
            },
            d,
            MAX_LOAD_SAMPLES as nat,
        ),
    )
}

/// The operations as values, in their order.
pub open spec fn operations_view(s: Seq<LoadingOperation>) -> Seq<OperationView> {
    s.map_values(|op: LoadingOperation| operation_view(op))
}

impl LoadingOperation {
    /// A copy of the operation.
    pub fn copy(&self) -> (c: LoadingOperation)
        ensures
            operation_view(c) == operation_view(*self),
    {
        LoadingOperation {
            id: self.id.clone(),
            operation_type: self.operation_type,
            started_at: self.started_at,
            status: self.status.copy(),
        }
    }
}

/// No id occurs twice.
pub open spec fn ids_unique(s: Seq<OperationView>) -> bool {
    forall|i: int, j: int| 0 <= i < s.len() && 0 <= j < s.len() && i != j ==> (#[trigger] s[i]).id != (#[trigger] s[j]).id
}

/// Whether an operation has the id.
pub open spec fn has_id(s: Seq<OperationView>, id: Seq<char>) -> bool {
    exists|i: int| 0 <= i < s.len() && (#[trigger] s[i]).id == id
}

/// The position of the operation with the id.
pub open spec fn id_index(s: Seq<OperationView>, id: Seq<char>) -> int {
    choose|i: int| 0 <= i < s.len() && (#[trigger] s[i]).id == id
}

/// The status of the operation with the id, if there is one.
pub open spec fn status_of(s: Seq<OperationView>, id: Seq<char>) -> Option<StatusView> {
    if has_id(s, id) {
        Some(s[id_index(s, id)].status)
    } else {
        None
    }
}

/// The operation with the id takes the status; the others stay as they are.
pub open spec fn with_status(s: Seq<OperationView>, id: Seq<char>, st: StatusView) -> Seq<OperationView> {
    Seq::new(s.len(), |i: int| if s[i].id == id { OperationView { status: st, ..s[i] } } else { s[i] })
}

/// Starting an operation at `now`: a pending one under the id, in the place
/// of the one that had the id, or added at the end.
pub open spec fn started(s: Seq<OperationView>, id: Seq<char>, t: LoadingOperationType, now: i64) -> Seq<
    OperationView,
> {
    let op = OperationView { id, operation_type: t, started_at: now, status: StatusView::Pending };
    if has_id(s, id) {
        Seq::new(s.len(), |i: int| if s[i].id == id { op } else { s[i] })
    } else {
        s.push(op)
    }
}

/// The operations that are not completed, in their order.
pub open spec fn without_completed(s: Seq<OperationView>) -> Seq<OperationView> {
    s.filter(|op: OperationView| !(op.status is Completed))
}

/// Clearing away the completed operations leaves none completed, and keeps
/// every operation that was not completed.
pub proof fn lemma_cleanup_keeps_the_rest(s: Seq<OperationView>)
    ensures
        forall|i: int|
            0 <= i < without_completed(s).len() ==> (#[trigger] without_completed(s)[i]).status !is Completed,
        forall|i: int| 0 <= i < s.len() && !(s[i].status is Completed) ==> without_completed(s).contains(#[trigger] s[i]),
{
    broadcast use vstd::seq_lib::group_filter_ensures;

}

/// Once an operation is marked completed, clearing away the completed
/// operations leaves none with its id.
pub proof fn lemma_completed_then_cleared(s: Seq<OperationView>, id: Seq<char>)
    ensures
        !has_id(without_completed(with_status(s, id, StatusView::Completed)), id),
{
    broadcast use vstd::seq_lib::group_filter_ensures, Seq::lemma_filter_contains_rev;

    let t = with_status(s, id, StatusView::Completed);
    let w = without_completed(t);
    if has_id(w, id) {
        let i = choose|i: int| 0 <= i < w.len() && (#[trigger] w[i]).id == id;
        assert(!(w[i].status is Completed));
        assert(w.contains(w[i]));
        assert(t.contains(w[i]));
        let j = choose|j: int| 0 <= j < t.len() && t[j] == w[i];
        assert(t[j].id == id);
    }
}

/// With ids unique, the position of an id is the one holding it.
proof fn lemma_id_index(s: Seq<OperationView>, i: int)
    requires
        ids_unique(s),
        0 <= i < s.len(),
    ensures
        has_id(s, s[i].id),
        id_index(s, s[i].id) == i,
{
    assert(has_id(s, s[i].id));
    let j = id_index(s, s[i].id);
    assert(0 <= j < s.len() && s[j].id == s[i].id);
}

/// The loader's record of loading operations, and the load times of the
/// completed ones.
pub struct AsyncDataLoader {
    loading_operations: Vec<LoadingOperation>,
    performance_metrics: PerformanceMetrics,
}

impl View for AsyncDataLoader {
    type V = Seq<OperationView>;

    closed spec fn view(&self) -> Seq<OperationView> {
        operations_view(self.loading_operations@)
    }
}

impl AsyncDataLoader {
    /// No id occurs twice, and the metrics are well formed.
    #[verifier::type_invariant]
    closed spec fn inv(&self) -> bool {
        &&& ids_unique(operations_view(self.loading_operations@))
        &&& self.performance_metrics.wf()
    }

    /// The loader's performance metrics.
    pub closed spec fn metrics(&self) -> PerformanceMetrics {
        self.performance_metrics
    }

    /// A loader with no operations and nothing recorded.
    pub fn new() -> (l: AsyncDataLoader)
        ensures
            l@ == Seq::<OperationView>::empty(),
            ids_unique(l@),
            l.metrics().loads() == Map::<Seq<char>, Seq<u64>>::empty(),
            l.metrics().renders().len() == 0,
            l.metrics().cache_counts() == (0u64, 0u64),
    {
        let l = AsyncDataLoader { loading_operations: Vec::new(), performance_metrics: PerformanceMetrics::new() };
        assert(l@ =~= Seq::<OperationView>::empty());
        l
    }

    /// Sets the status of the operation with the id, if there is one.
    fn set_status(&mut self, id: &str, status: LoadingStatus)
        ensures
            final(self)@ == with_status(old(self)@, id@, status_view(status)),
            ids_unique(final(self)@),
            final(self).metrics() == old(self).metrics(),
    {
        proof {
            use_type_invariant(&*self);
        }
        let ghost v = self@;
        let ghost w = with_status(v, id@, status_view(status));
        let n = self.loading_operations.len();
        let mut r: Vec<LoadingOperation> = Vec::new();
        let mut i: usize = 0;
        while i < n
            invariant
                n == self.loading_operations@.len(),
                v == operations_view(self.loading_operations@),
                w == with_status(v, id@, status_view(status)),
                i <= n,
                operations_view(r@) =~= w.take(i as int),
            decreases n - i,
        {
            let op = &self.loading_operations[i];
            let next = if str_eq(op.id.as_str(), id) {
                LoadingOperation {
                    id: op.id.clone(),
                    operation_type: op.operation_type,
                    started_at: op.started_at,
                    status: status.copy(),
                }
            } else {
                op.copy()
            };
            let ghost before = r@;
            r.push(next);
            proof {
                assert(r@ =~= before.push(next));
                assert(operations_view(before.push(next)) =~= operations_view(before).push(operation_view(next)));
                assert(w.take(i + 1) =~= w.take(i as int).push(w[i as int]));
            }
            i = i + 1;
        }
        proof {
            assert(w.take(n as int) =~= w);
            assert forall|a: int, b: int| 0 <= a < w.len() && 0 <= b < w.len() && a != b implies (#[trigger] w[a]).id
                != (#[trigger] w[b]).id by {
                assert(v[a].id != v[b].id);
            }
        }
        self.loading_operations = r;
    }

    /// Starts an operation under the id: it is pending, in the place of an
    /// operation that had the id, or added at the end.
    pub fn start_loading_operation_at(&mut self, id: String, operation_type: LoadingOperationType, now: i64)
        ensures
            final(self)@ == started(old(self)@, id@, operation_type, now),
            ids_unique(final(self)@),
            final(self).metrics() == old(self).metrics(),
    {
        proof {
            use_type_invariant(&*self);
        }
        let ghost v = self@;
        let ghost w = started(v, id@, operation_type, now);
        let n = self.loading_operations.len();
        let mut found = false;
        let mut r: Vec<LoadingOperation> = Vec::new();
        let mut i: usize = 0;
        while i < n
            invariant
                n == self.loading_operations@.len(),
                v == operations_view(self.loading_operations@),
                i <= n,
                found == (exists|k: int| 0 <= k < i && (#[trigger] v[k]).id == id@),
                operations_view(r@) =~= Seq::new(
                    i as nat,
                    |k: int|
                        if v[k].id == id@ {
                            OperationView { id: id@, operation_type, started_at: now, status: StatusView::Pending }
                        } else {
                            v[k]
                        },
                ),
            decreases n - i,
        {
            let op = &self.loading_operations[i];
            let same = str_eq(op.id.as_str(), id.as_str());
            let next = if same {
                LoadingOperation { id: id.clone(), operation_type, started_at: now, status: LoadingStatus::Pending }
            } else {
                op.copy()
            };
            let ghost before = r@;
            r.push(next);
            proof {
                assert(r@ =~= before.push(next));
                assert(operations_view(before.push(next)) =~= operations_view(before).push(operation_view(next)));
                if same {
                    assert(v[i as int].id == id@);
                }
            }
            found = found || same;
            i = i + 1;
        }
        let ghost r0 = r@;
        if !found {
            r.push(LoadingOperation { id, operation_type, started_at: now, status: LoadingStatus::Pending });
            proof {
                let op = OperationView { id: id@, operation_type, started_at: now, status: StatusView::Pending };
                assert(operations_view(r@) =~= operations_view(r0).push(op));
            }
        }
        proof {
            let op = OperationView { id: id@, operation_type, started_at: now, status: StatusView::Pending };
            if found {
                let k = choose|k: int| 0 <= k < n && (#[trigger] v[k]).id == id@;
                assert(has_id(v, id@));
                assert forall|a: int, b: int| 0 <= a < w.len() && 0 <= b < w.len() && a != b implies (#[trigger] w[a]).id
                    != (#[trigger] w[b]).id by {
                    if v[a].id == id@ && v[b].id == id@ {
                        assert(v[a].id == v[b].id);
                    } else {
                        assert(v[a].id != v[b].id);
                    }
                }
            } else {
                assert(!has_id(v, id@)) by {
                    if has_id(v, id@) {
                        let k = choose|k: int| 0 <= k < v.len() && (#[trigger] v[k]).id == id@;
                        assert(v[k].id == id@);
                    }
                }
                assert forall|a: int, b: int| 0 <= a < w.len() && 0 <= b < w.len() && a != b implies (#[trigger] w[a]).id
                    != (#[trigger] w[b]).id by {
                    if a < v.len() && b < v.len() {
                        assert(v[a].id != v[b].id);
                    } else if a < v.len() {
                        assert(v[a].id != id@);
                    } else {
                        assert(v[b].id != id@);
                    }
                }
            }
            assert(operations_view(r@) =~= w);
        }
        self.loading_operations = r;
    }

    /// Records the progress of the operation with the id, in thousandths.
    pub fn update_loading_progress(&mut self, id: &str, progress: u32)
        ensures
            final(self)@ == with_status(old(self)@, id@, StatusView::InProgress(progress)),
            ids_unique(final(self)@),
            final(self).metrics() == old(self).metrics(),
    {
        self.set_status(id, LoadingStatus::InProgress(progress));
    }

    /// The position of the operation with the id, if there is one.
    fn find(&self, id: &str) -> (r: Option<usize>)
        ensures
            match r {
                Some(i) => i < self@.len() && self@[i as int].id == id@ && id_index(self@, id@) == i,
                None => !has_id(self@, id@),
            },
    {
        proof {
            use_type_invariant(self);
        }
        let ghost v = self@;
        let mut i: usize = 0;
        while i < self.loading_operations.len()
            invariant
                v == operations_view(self.loading_operations@),
                ids_unique(v),
                i <= v.len(),
                forall|k: int| 0 <= k < i ==> (#[trigger] v[k]).id != id@,
            decreases v.len() - i,
        {
            if str_eq(self.loading_operations[i].id.as_str(), id) {
                proof {
                    lemma_id_index(v, i as int);
                }
                return Some(i);
            }
            i = i + 1;
        }
        proof {
            if has_id(v, id@) {
                let k = choose|k: int| 0 <= k < v.len() && (#[trigger] v[k]).id == id@;
                assert(v[k].id == id@);
            }
        }
        None
    }

    /// Marks the operation with the id completed at `now`, and records how
    /// long it took under the name of its kind.
    pub fn complete_loading_operation_at(&mut self, id: &str, now: i64)
        ensures
            final(self)@ == with_status(old(self)@, id@, StatusView::Completed),
            ids_unique(final(self)@),
            has_id(old(self)@, id@) ==> final(self).metrics().loads() == record_load(
                old(self).metrics().loads(),
                type_label(old(self)@[id_index(old(self)@, id@)].operation_type),
                load_duration(old(self)@[id_index(old(self)@, id@)].started_at, now),
            ),
            !has_id(old(self)@, id@) ==> final(self).metrics() == old(self).metrics(),
            final(self).metrics().renders() == old(self).metrics().renders(),
            final(self).metrics().cache_counts() == old(self).metrics().cache_counts(),
    {
        proof {
            use_type_invariant(&*self);
        }
        let found = self.find(id);
        match found {
            Some(i) => {
                let operation_type = self.loading_operations[i].operation_type;
                let started_at = self.loading_operations[i].started_at;
                self.set_status(id, LoadingStatus::Completed);
                let duration = elapsed_nanos(started_at, now);
                let mut m = PerformanceMetrics::new();
                std::mem::swap(&mut m, &mut self.performance_metrics);
                m.record_data_load_time(operation_label(operation_type), duration);
                self.performance_metrics = m;
            },
            None => {
                self.set_status(id, LoadingStatus::Completed);
            },
        }
    }

    /// Marks the operation with the id completed now, and records how long
    /// it took; which time the clock gives is not known here.
    pub fn complete_loading_operation(&mut self, id: &str)
        ensures
            final(self)@ == with_status(old(self)@, id@, StatusView::Completed),
            ids_unique(final(self)@),
            exists|now: i64|
                has_id(old(self)@, id@) ==> final(self).metrics().loads() == #[trigger] record_load(
                    old(self).metrics().loads(),
                    type_label(old(self)@[id_index(old(self)@, id@)].operation_type),
                    load_duration(old(self)@[id_index(old(self)@, id@)].started_at, now),
                ),
            !has_id(old(self)@, id@) ==> final(self).metrics() == old(self).metrics(),
            final(self).metrics().renders() == old(self).metrics().renders(),
            final(self).metrics().cache_counts() == old(self).metrics().cache_counts(),
    {
        let now = now_unix_millis();
        self.complete_loading_operation_at(id, now);
    }

    /// Starts an operation under the id now: it is pending, in the place of
    /// an operation that had the id, or added at the end; which time the
    /// clock gives is not known here.
    pub fn start_loading_operation(&mut self, id: String, operation_type: LoadingOperationType)
        ensures
            exists|now: i64| final(self)@ == #[trigger] started(old(self)@, id@, operation_type, now),
            ids_unique(final(self)@),
            final(self).metrics() == old(self).metrics(),
    {
        let now = now_unix_millis();
        self.start_loading_operation_at(id, operation_type, now);
    }

    /// The loader's performance metrics.
    pub fn get_performance_metrics(&self) -> (m: &PerformanceMetrics)
        ensures
            *m == self.metrics(),
            m.wf(),
    {
        proof {
            use_type_invariant(self);
        }
        &self.performance_metrics
    }

    /// Marks the operation with the id failed, with the error.
    pub fn fail_loading_operation(&mut self, id: &str, error: String)
        ensures
            final(self)@ == with_status(old(self)@, id@, StatusView::Failed(error@)),
            ids_unique(final(self)@),
            final(self).metrics() == old(self).metrics(),
    {
        self.set_status(id, LoadingStatus::Failed(error));
    }

    /// The status of the operation with the id, if there is one.
    pub fn get_loading_status(&self, id: &str) -> (r: Option<LoadingStatus>)
        ensures
            match r {
                Some(st) => status_of(self@, id@) == Some(status_view(st)),
                None => status_of(self@, id@) is None,
            },
    {
        proof {
            use_type_invariant(self);
        }
        let ghost v = self@;
        let mut i: usize = 0;
        while i < self.loading_operations.len()
            invariant
                v == operations_view(self.loading_operations@),
                ids_unique(v),
                i <= v.len(),
                forall|k: int| 0 <= k < i ==> (#[trigger] v[k]).id != id@,
            decreases v.len() - i,
        {
            if str_eq(self.loading_operations[i].id.as_str(), id) {
                proof {
                    lemma_id_index(v, i as int);
                }
                return Some(self.loading_operations[i].status.copy());
            }
            i = i + 1;
        }
        proof {
            if has_id(v, id@) {
                let k = choose|k: int| 0 <= k < v.len() && (#[trigger] v[k]).id == id@;
                assert(v[k].id == id@);
            }
        }
        None
    }

    /// Clears away the completed operations; the others stay, in their order.
    pub fn cleanup_completed_operations(&mut self)
        ensures
            final(self)@ == without_completed(old(self)@),
            ids_unique(final(self)@),
            final(self).metrics() == old(self).metrics(),
    {
        proof {
            use_type_invariant(&*self);
        }
        let ghost v = self@;
        let n = self.loading_operations.len();
        let mut r: Vec<LoadingOperation> = Vec::new();
        let mut i: usize = 0;
        while i < n
            invariant
                n == self.loading_operations@.len(),
                v == operations_view(self.loading_operations@),
                ids_unique(v),
                i <= n,
                operations_view(r@) == without_completed(v.take(i as int)),
                ids_unique(operations_view(r@)),
                forall|j: int|
                    0 <= j < r@.len() ==> exists|k: int| 0 <= k < i && #[trigger] v[k].id == (#[trigger] operations_view(r@)[j]).id,
            decreases n - i,
        {
            let ghost before = r@;
            proof {
                reveal(Seq::filter);
                assert(v.take(i + 1).drop_last() =~= v.take(i as int));
                assert(v.take(i + 1).last() == v[i as int]);
            }
            let completed = match self.loading_operations[i].status {
                LoadingStatus::Completed => true,
                _ => false,
            };
            if !completed {
                let next = self.loading_operations[i].copy();
                r.push(next);
                proof {
                    assert(r@ =~= before.push(next));
                    assert(operations_view(before.push(next)) =~= operations_view(before).push(operation_view(next)));
                    let rv = operations_view(r@);
                    assert forall|a: int, b: int| 0 <= a < rv.len() && 0 <= b < rv.len() && a != b implies (#[trigger] rv[a]).id
                        != (#[trigger] rv[b]).id by {
                        if a == before.len() {
                            let k = choose|k: int| 0 <= k < i && #[trigger] v[k].id == operations_view(before)[b].id;
                            assert(v[k].id != v[i as int].id);
                        } else if b == before.len() {
                            let k = choose|k: int| 0 <= k < i && #[trigger] v[k].id == operations_view(before)[a].id;
                            assert(v[k].id != v[i as int].id);
                        } else {
                            assert(rv[a] == operations_view(before)[a]);
                            assert(rv[b] == operations_view(before)[b]);
                        }
                    }
                    assert forall|j: int| 0 <= j < rv.len() implies exists|k: int|
                        0 <= k < i + 1 && #[trigger] v[k].id == (#[trigger] rv[j]).id by {
                        if j == before.len() {
                            assert(v[i as int].id == rv[j].id);
                        } else {
                            assert(rv[j] == operations_view(before)[j]);
                            let k = choose|k: int| 0 <= k < i && #[trigger] v[k].id == operations_view(before)[j].id;
                            assert(v[k].id == rv[j].id);
                        }
                    }
                }
            }
            i = i + 1;
        }
        proof {
            assert(v.take(n as int) =~= v);
        }
        self.loading_operations = r;
    }
}

} // verus!
