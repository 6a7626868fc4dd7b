use vstd::prelude::*;

use crate::model::{append_tasks, copy_tasks, tasks_view, TaskSpecItem, TaskView};
use crate::text::{concat, decimal, usize_text};

verus! {

/// What one worker of a checklist fan-out handed back: the index it was
/// spawned with, and the tasks read back from its temporary file, or `None`
/// where the worker failed or its file was missing.
pub struct WorkerReport {
    pub index: usize,
    pub items: Option<Vec<TaskSpecItem>>,
}

/// Why a fan-out produced no merged checklist.
#[derive(Debug, Clone, Copy, PartialEq, Eq, Structural)]
pub enum FanoutError {
    /// The worker spawned with this index failed.
    WorkerFailed(usize),
    /// The reports do not name each of the `expected` indices exactly once.
    Incomplete { expected: usize, got: usize },
}

/// The tasks a report carries, if its worker succeeded.
pub open spec fn report_items(r: WorkerReport) -> Option<Seq<TaskView>> {
    match r.items {
        Some(v) => Some(tasks_view(v@)),
        None => None,
    }
}

/// Every report succeeded, and the reports name each index below `n` exactly once.
pub open spec fn reports_complete(n: nat, rs: Seq<WorkerReport>) -> bool {
    &&& rs.len() == n
    &&& forall|j: int| 0 <= j < rs.len() ==> (#[trigger] rs[j]).index < n && rs[j].items is Some
    &&& forall|i: int, j: int|
        0 <= i < rs.len() && 0 <= j < rs.len() && i != j ==> (#[trigger] rs[i]).index != (#[trigger] rs[j]).index
    &&& forall|k: int| 0 <= k < n ==> #[trigger] index_reported(rs, k)
}

/// Some report carries the spawn index `k`.
pub open spec fn index_reported(rs: Seq<WorkerReport>, k: int) -> bool {
    exists|j: int| 0 <= j < rs.len() && (#[trigger] rs[j]).index == k
}

/// The position of a failed report, if any.
pub open spec fn has_failure(rs: Seq<WorkerReport>) -> bool {
    exists|j: int| 0 <= j < rs.len() && (#[trigger] rs[j]).items is None
}

/// The tasks of the report spawned with index `k`.
pub open spec fn slot_items(rs: Seq<WorkerReport>, k: int) -> Seq<TaskView> {
    let j = choose|j: int| 0 <= j < rs.len() && (#[trigger] rs[j]).index == k;
    report_items(rs[j])->0
}

/// The tasks of all reports, concatenated by spawn index, whatever order the
/// reports came in.
pub open spec fn merged_items(n: nat, rs: Seq<WorkerReport>) -> Seq<TaskView> {
    Seq::new(n, |k: int| slot_items(rs, k)).flatten()
}

/// The terminal result of a fan-out over `n` tasks, given its workers' reports
/// in the order they finished: the tasks in spawn order when every worker
/// succeeded; otherwise one error, the first failed report's index, or the
/// count of reports.
pub fn merge_worker_reports(n: usize, reports: &Vec<WorkerReport>) -> (r: Result<Vec<TaskSpecItem>, FanoutError>)
    ensures
        r is Ok <==> reports_complete(n as nat, reports@),
        r is Ok ==> tasks_view(r->Ok_0@) == merged_items(n as nat, reports@),
        has_failure(reports@) ==> exists|j: int|
            0 <= j < reports.len() && (#[trigger] reports@[j]).items is None
                && r == Err::<Vec<TaskSpecItem>, FanoutError>(FanoutError::WorkerFailed(reports@[j].index)),
        !has_failure(reports@) && !reports_complete(n as nat, reports@) ==> r
            == Err::<Vec<TaskSpecItem>, FanoutError>(FanoutError::Incomplete { expected: n, got: reports.len() }),
{
    let mut slots: Vec<Option<usize>> = Vec::new();
    let mut k: usize = 0;
    while k < n
        invariant
            k <= n,
            slots.len() == k,
            forall|i: int| 0 <= i < k ==> slots@[i] is None,
        decreases n - k,
    {
        slots.push(None);
        k = k + 1;
    }
    let mut clash = false;
    let mut j: usize = 0;
    while j < reports.len()
        invariant
            j <= reports.len(),
            slots.len() == n,
            forall|i: int| 0 <= i < j ==> (#[trigger] reports@[i]).items is Some,
            forall|k2: int| 0 <= k2 < n && (#[trigger] slots@[k2]) is Some ==> {
                let p = slots@[k2]->0 as int;
                0 <= p < j && reports@[p].index == k2
            },
            !clash ==> forall|i: int| 0 <= i < j ==> {
                let x = (#[trigger] reports@[i]).index as int;
                x < n && slots@[x] == Some(i as usize)
            },
            clash ==> !reports_complete(n as nat, reports@),
        decreases reports.len() - j,
    {
        let rep = &reports[j];
        match &rep.items {
            None => {
                return Err(FanoutError::WorkerFailed(rep.index));
            },
            Some(_) => {},
        }
        let x = rep.index;
        if x >= n {
            clash = true;
        } else {
            match slots[x] {
                Some(p) => {
                    assert(reports@[p as int].index == reports@[j as int].index);
                    clash = true;
                },
                None => {
                    if !clash {
                        slots.set(x, Some(j));
                    }
                },
            }
        }
        j = j + 1;
    }
    if clash || reports.len() != n {
        return Err(FanoutError::Incomplete { expected: n, got: reports.len() });
    }
    let mut k3: usize = 0;
    while k3 < n
        invariant
            k3 <= n,
            slots.len() == n,
            reports.len() == n,
            forall|k2: int| 0 <= k2 < k3 ==> (#[trigger] slots@[k2]) is Some,
            forall|i: int| 0 <= i < n ==> (#[trigger] reports@[i]).items is Some,
            forall|k2: int| 0 <= k2 < n && (#[trigger] slots@[k2]) is Some ==> {
                let p = slots@[k2]->0 as int;
                0 <= p < n && reports@[p].index == k2
            },
            forall|i: int| 0 <= i < n ==> {
                let x = (#[trigger] reports@[i]).index as int;
                x < n && slots@[x] == Some(i as usize)
            },
        decreases n - k3,
    {
        match slots[k3] {
            Some(_) => {},
            None => {
                proof {
                    if index_reported(reports@, k3 as int) {
                        let c = choose|jj: int| 0 <= jj < reports.len() && (#[trigger] reports@[jj]).index == k3;
                        assert(slots@[k3 as int] == Some(c as usize));
                    }
                }
                return Err(FanoutError::Incomplete { expected: n, got: reports.len() });
            },
        }
        k3 = k3 + 1;
    }
    proof {
        assert forall|a: int, b: int|
            0 <= a < reports.len() && 0 <= b < reports.len() && a != b implies (#[trigger] reports@[a]).index
                != (#[trigger] reports@[b]).index by {
            if reports@[a].index == reports@[b].index {
                assert(slots@[reports@[a].index as int] == Some(a as usize));
                assert(slots@[reports@[b].index as int] == Some(b as usize));
            }
        }
        assert forall|k2: int| 0 <= k2 < n implies #[trigger] index_reported(reports@, k2) by {
            assert(slots@[k2] is Some);
            let p = slots@[k2]->0 as int;
            assert(reports@[p].index == k2);
        }
    }
    let mut out: Vec<TaskSpecItem> = Vec::new();
    let mut k4: usize = 0;
    let ghost parts = Seq::new(n as nat, |k2: int| slot_items(reports@, k2));
    while k4 < n
        invariant
            k4 <= n,
            slots.len() == n,
            reports.len() == n,
            reports_complete(n as nat, reports@),
            parts == Seq::new(n as nat, |k2: int| slot_items(reports@, k2)),
            forall|k2: int| 0 <= k2 < n ==> (#[trigger] slots@[k2]) is Some,
            forall|k2: int| 0 <= k2 < n && (#[trigger] slots@[k2]) is Some ==> {
                let p = slots@[k2]->0 as int;
                0 <= p < n && reports@[p].index == k2
            },
            tasks_view(out@) == parts.take(k4 as int).flatten(),
        decreases n - k4,
    {
        let p = match slots[k4] {
            Some(p) => p,
            None => 0,
        };
        proof {
            assert(index_reported(reports@, k4 as int));
            let c = choose|jj: int| 0 <= jj < reports.len() && (#[trigger] reports@[jj]).index == k4;
            assert(0 <= c < reports.len() && reports@[c].index == k4);
            if c != p as int {
                assert(reports@[c].index != reports@[p as int].index);
            }
            assert(parts[k4 as int] == report_items(reports@[p as int])->0);
            assert(parts.take(k4 as int + 1) =~= parts.take(k4 as int).push(parts[k4 as int]));
            parts.take(k4 as int).lemma_flatten_push(parts[k4 as int]);
        }
        match &reports[p].items {
            Some(items) => {
                let copy = copy_tasks(items);
                append_tasks(&mut out, copy);
            },
            None => {},
        }
        k4 = k4 + 1;
    }
    assert(parts.take(n as int) =~= parts);
    Ok(out)
}

/// The indices of the temporary files a fan-out over `n` tasks created, each
/// once: all of them are removed whether the merge succeeded or not.
pub fn fanout_cleanup_indices(n: usize) -> (r: Vec<usize>)
    ensures
        r@ == Seq::new(n as nat, |i: int| i as usize),
{
    let mut r: Vec<usize> = Vec::new();
    let mut i: usize = 0;
    while i < n
        invariant
            i <= n,
            r@ == Seq::new(i as nat, |k: int| k as usize),
        decreases n - i,
    {
        r.push(i);
        assert(r@ =~= Seq::new(i as nat + 1, |k: int| k as usize));
        i = i + 1;
    }
    r
}

/// The name of the temporary file of worker `index` in the run `token`.
pub open spec fn temp_file_name(token: Seq<char>, index: nat) -> Seq<char> {
    "orchestra_todos_item_"@ + token + "_"@ + decimal(index) + ".yaml"@
}

/// The temporary file names of a fan-out over `n` tasks, built before any
/// worker starts, one per spawn index.
pub fn fanout_temp_names(token: &str, n: usize) -> (r: Vec<String>)
    ensures
        r.len() == n,
        forall|i: int| 0 <= i < n ==> (#[trigger] r@[i])@ == temp_file_name(token@, i as nat),
{
    let mut r: Vec<String> = Vec::new();
    let mut i: usize = 0;
    while i < n
        invariant
            i <= n,
            r.len() == i,
            forall|k: int| 0 <= k < i ==> (#[trigger] r@[k])@ == temp_file_name(token@, k as nat),
        decreases n - i,
    {
        let mut name = concat("orchestra_todos_item_", token);
        name.append("_");
        let digits = usize_text(i);
        name.append(digits.as_str());
        name.append(".yaml");
        r.push(name);
        i = i + 1;
    }
    r
}

/// What a fan-out ends with: its terminal result, and the indices of the
/// temporary files to remove.
pub struct FanoutFinish {
    pub result: Result<Vec<TaskSpecItem>, FanoutError>,
    pub cleanup: Vec<usize>,
}

/// Ends a fan-out over `n` tasks: the merge of the reports, and every
/// temporary file named for removal exactly once, on success and on failure.
pub fn finish_fanout(n: usize, reports: &Vec<WorkerReport>) -> (r: FanoutFinish)
    ensures
        r.result is Ok <==> reports_complete(n as nat, reports@),
        r.result is Ok ==> tasks_view(r.result->Ok_0@) == merged_items(n as nat, reports@),
        has_failure(reports@) ==> r.result is Err,
        r.cleanup@ == Seq::new(n as nat, |i: int| i as usize),
{
    let result = merge_worker_reports(n, reports);
    let cleanup = fanout_cleanup_indices(n);
    FanoutFinish { result, cleanup }
}

/// `qs` holds the reports of `rs` in another order: `qs[i] == rs[perm[i]]`,
/// with `inv` the inverse of `perm`.
pub open spec fn is_reordering(rs: Seq<WorkerReport>, qs: Seq<WorkerReport>, perm: Seq<int>, inv: Seq<int>) -> bool {
    &&& rs.len() == qs.len()
    &&& perm.len() == rs.len()
    &&& inv.len() == rs.len()
    &&& forall|i: int| 0 <= i < qs.len() ==> 0 <= #[trigger] perm[i] < rs.len() && qs[i] == rs[perm[i]]
    &&& forall|j: int| 0 <= j < rs.len() ==> 0 <= #[trigger] inv[j] < qs.len() && perm[inv[j]] == j
    &&& forall|i: int| 0 <= i < qs.len() ==> #[trigger] inv[perm[i]] == i
}

proof fn lemma_reordering_flip(rs: Seq<WorkerReport>, qs: Seq<WorkerReport>, perm: Seq<int>, inv: Seq<int>)
    requires
        is_reordering(rs, qs, perm, inv),
    ensures
        is_reordering(qs, rs, inv, perm),
{
    assert forall|j: int| 0 <= j < rs.len() implies 0 <= #[trigger] inv[j] < qs.len() && rs[j] == qs[inv[j]] by {
        assert(perm[inv[j]] == j);
    }
}

proof fn lemma_reordering_keeps_merge(n: nat, rs: Seq<WorkerReport>, qs: Seq<WorkerReport>, perm: Seq<int>, inv: Seq<int>)
    requires
        is_reordering(rs, qs, perm, inv),
        reports_complete(n, rs),
    ensures
        reports_complete(n, qs),
        merged_items(n, rs) == merged_items(n, qs),
{
    assert forall|j: int| 0 <= j < qs.len() implies (#[trigger] qs[j]).index < n && qs[j].items is Some by {
        assert(rs[perm[j]] == qs[j]);
    }
    assert forall|a: int, b: int|
        0 <= a < qs.len() && 0 <= b < qs.len() && a != b implies (#[trigger] qs[a]).index != (#[trigger] qs[b]).index by {
        if qs[a].index == qs[b].index {
            assert(rs[perm[a]].index == rs[perm[b]].index);
            assert(perm[a] == perm[b]);
            assert(inv[perm[a]] == a);
            assert(inv[perm[b]] == b);
        }
    }
    assert forall|k: int| 0 <= k < n implies #[trigger] index_reported(qs, k) by {
        assert(index_reported(rs, k));
        let j = choose|j: int| 0 <= j < rs.len() && (#[trigger] rs[j]).index == k;
        assert(qs[inv[j]] == rs[perm[inv[j]]]);
    }
    let a = Seq::new(n, |k: int| slot_items(rs, k));
    let b = Seq::new(n, |k: int| slot_items(qs, k));
    assert forall|k: int| 0 <= k < n implies a[k] == b[k] by {
        assert(index_reported(qs, k));
        assert(index_reported(rs, k));
        let cq = choose|j: int| 0 <= j < qs.len() && (#[trigger] qs[j]).index == k;
        let cr = choose|j: int| 0 <= j < rs.len() && (#[trigger] rs[j]).index == k;
        assert(qs[cq] == rs[perm[cq]]);
        if perm[cq] != cr {
            assert(rs[perm[cq]].index != rs[cr].index);
        }
    }
    assert(a =~= b);
}

/// The merge does not depend on the order in which workers finished: any
/// reordering of the reports is complete exactly when the reports are, and
/// then merges to the same tasks, ordered by spawn index.
pub proof fn lemma_merge_ignores_completion_order(
    n: nat,
    rs: Seq<WorkerReport>,
    qs: Seq<WorkerReport>,
    perm: Seq<int>,
    inv: Seq<int>,
)
    requires
        is_reordering(rs, qs, perm, inv),
    ensures
        reports_complete(n, rs) == reports_complete(n, qs),
        reports_complete(n, rs) ==> merged_items(n, rs) == merged_items(n, qs),
{
    lemma_reordering_flip(rs, qs, perm, inv);
    if reports_complete(n, rs) {
        lemma_reordering_keeps_merge(n, rs, qs, perm, inv);
    }
    if reports_complete(n, qs) {
        lemma_reordering_keeps_merge(n, qs, rs, inv, perm);
    }
}

/// One failed worker is enough to fail the whole fan-out.
pub proof fn lemma_failure_fails_merge(n: nat, rs: Seq<WorkerReport>)
    requires
        has_failure(rs),
    ensures
        !reports_complete(n, rs),
{
    let j = choose|j: int| 0 <= j < rs.len() && (#[trigger] rs[j]).items is None;
    assert(rs[j].items is None);
}

} // verus!
