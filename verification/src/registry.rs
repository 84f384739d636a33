//! The live-instance registry: the single source of truth for which
//! processes this tool currently manages.
//!
//! Every entry was inserted when a launch performed by this tool succeeded;
//! the registry is never filled from a passive system scan.  Entries leave in
//! exactly three ways: an explicit removal, a liveness sweep that prunes the
//! processes the prober reported dead, and the bulk termination that empties
//! the registry unconditionally.

use vstd::prelude::*;
use crate::scanner::name_matches_spec;
use crate::scanner::name_matches;

verus! {

broadcast use vstd::seq_lib::group_filter_ensures;

/// One managed process: its identifier and the wall-clock time at which its
/// launch was recorded.
#[derive(Debug)]
pub struct ProcessInfo {
    pub pid: u32,
    pub started_at: String,
}

/// Relies on `chrono::Local::now` and `chrono::DateTime::format`: renders the
/// moment of the call as local wall-clock text.  The result depends on the
/// clock and on the machine's time zone, so nothing is promised of it.
#[verifier::external_body]
fn now_timestamp() -> String {
    chrono::Local::now().format("%Y-%m-%d %H:%M:%S").to_string()
}

/// Predicate selecting the records whose process identifier is not `pid`.
pub open spec fn not_pid_pred(pid: u32) -> spec_fn(ProcessInfo) -> bool {
    |r: ProcessInfo| r.pid != pid
}

/// Predicate selecting the records whose process the liveness probe reported
/// alive.
pub open spec fn live_pred(live: Seq<u32>) -> spec_fn(ProcessInfo) -> bool {
    |r: ProcessInfo| live.contains(r.pid)
}

/// No process identifier occurs twice.
pub open spec fn unique_pids(s: Seq<ProcessInfo>) -> bool {
    forall|i: int, j: int| 0 <= i < j < s.len() ==> s[i].pid != s[j].pid
}

/// Every element of a filtered sequence is an element of the original.
proof fn lemma_filter_element_of<A>(s: Seq<A>, pred: spec_fn(A) -> bool)
    ensures
        forall|x: A| #[trigger] s.filter(pred).contains(x) ==> s.contains(x),
    decreases s.len(),
{
    reveal(Seq::filter);
    if s.len() > 0 {
        lemma_filter_element_of(s.drop_last(), pred);
        assert forall|x: A| #[trigger] s.filter(pred).contains(x) implies s.contains(x) by {
            if x == s.last() {
                assert(s[s.len() - 1] == x);
            } else {
                let f = s.filter(pred);
                let j = choose|j: int| 0 <= j < f.len() && f[j] == x;
                if pred(s.last()) {
                    assert(f.drop_last()[j] == x) by {
                        assert(f == s.drop_last().filter(pred).push(s.last()));
                    }
                    assert(s.drop_last().filter(pred).contains(x));
                } else {
                    assert(s.drop_last().filter(pred).contains(x));
                }
                let k = choose|k: int| 0 <= k < s.drop_last().len() && s.drop_last()[k] == x;
                assert(s[k] == x);
            }
        }
    }
}

/// Filtering preserves the uniqueness of the process identifiers.
proof fn lemma_filter_unique(s: Seq<ProcessInfo>, pred: spec_fn(ProcessInfo) -> bool)
    requires
        unique_pids(s),
    ensures
        unique_pids(s.filter(pred)),
    decreases s.len(),
{
    reveal(Seq::filter);
    if s.len() > 0 {
        lemma_filter_unique(s.drop_last(), pred);
        if pred(s.last()) {
            let f = s.drop_last().filter(pred);
            assert forall|i: int, j: int|
                0 <= i < j < s.filter(pred).len() implies s.filter(pred)[i].pid != s.filter(
                pred,
            )[j].pid by {
                if j == s.filter(pred).len() - 1 {
                    assert(s.filter(pred)[i] == f[i]);
                    assert(f.contains(f[i]));
                    lemma_filter_element_of(s.drop_last(), pred);
                    let k = choose|k: int|
                        0 <= k < s.drop_last().len() && s.drop_last()[k] == f[i];
                    assert(s[k] == f[i]);
                    assert(s[k].pid != s[s.len() - 1].pid);
                }
            }
        }
    }
}

/// Filtering a sequence whose every element satisfies the predicate leaves
/// it unchanged.
proof fn lemma_filter_all<A>(s: Seq<A>, pred: spec_fn(A) -> bool)
    requires
        forall|i: int| 0 <= i < s.len() ==> pred(#[trigger] s[i]),
    ensures
        s.filter(pred) == s,
    decreases s.len(),
{
    reveal(Seq::filter);
    if s.len() > 0 {
        assert(pred(s[s.len() - 1]));
        assert forall|i: int| 0 <= i < s.drop_last().len() implies pred(
            #[trigger] s.drop_last()[i],
        ) by {
            assert(s.drop_last()[i] == s[i]);
        }
        lemma_filter_all(s.drop_last(), pred);
        assert(s.filter(pred) == s.drop_last().filter(pred).push(s.last()));
        assert(s.drop_last().push(s.last()) =~= s);
    }
}

/// Number of `true` entries in a sequence of per-process outcomes.
pub open spec fn count_true(s: Seq<bool>) -> int
    decreases s.len(),
{
    if s.len() == 0 {
        0
    } else {
        count_true(s.drop_last()) + if s.last() {
            1int
        } else {
            0int
        }
    }
}

/// The in-memory instance registry.
pub struct ProcessManager {
    processes: Vec<ProcessInfo>,
}

impl ProcessManager {
    /// The managed records, in insertion order.
    pub closed spec fn records(&self) -> Seq<ProcessInfo> {
        self.processes@
    }

    /// The managed process identifiers, in insertion order.
    pub open spec fn pids(&self) -> Seq<u32> {
        self.records().map_values(|r: ProcessInfo| r.pid)
    }

    /// The registry never holds the same process identifier twice.
    pub open spec fn wf(&self) -> bool {
        unique_pids(self.records())
    }

    pub open spec fn has_pid(&self, pid: u32) -> bool {
        exists|i: int| 0 <= i < self.records().len() && #[trigger] self.records()[i].pid == pid
    }

    /// An empty registry.
    pub fn new() -> (r: ProcessManager)
        ensures
            r.records() == Seq::<ProcessInfo>::empty(),
            r.wf(),
    {
        ProcessManager { processes: Vec::new() }
    }

    /// Records one freshly launched process, stamping it with the current
    /// wall-clock time.  A process already present keeps its position and is
    /// re-stamped; a new one is appended.
    #[verifier::loop_isolation(false)]
    pub fn add_process(&mut self, pid: u32)
        requires
            old(self).wf(),
        ensures
            final(self).wf(),
            final(self).has_pid(pid),
            old(self).has_pid(pid) ==> {
                &&& final(self).records().len() == old(self).records().len()
                &&& forall|i: int|
                    0 <= i < old(self).records().len() && old(self).records()[i].pid != pid
                        ==> final(self).records()[i] == old(self).records()[i]
                &&& final(self).pids() == old(self).pids()
            },
            !old(self).has_pid(pid) ==> {
                &&& final(self).records().drop_last() == old(self).records()
                &&& final(self).records().last().pid == pid
                &&& final(self).pids() == old(self).pids().push(pid)
            },
    {
        let n = self.processes.len();
        let mut idx: usize = 0;
        let mut found = false;
        for i in 0..n
            invariant
                idx <= i,
                found ==> idx < i && self.processes@[idx as int].pid == pid,
                !found ==> forall|k: int| 0 <= k < i ==> self.processes@[k].pid != pid,
            decreases n - i,
        {
            if !found && self.processes[i].pid == pid {
                idx = i;
                found = true;
            }
        }
        let stamped = ProcessInfo { pid, started_at: now_timestamp() };
        if found {
            let _old_rec = self.processes.remove(idx);
            self.processes.insert(idx, stamped);
            proof {
                assert(self.processes@[idx as int].pid == pid);
                assert(self.processes@ =~= old(self).records().update(
                    idx as int,
                    self.processes@[idx as int],
                ));
                assert(final(self).pids() =~= old(self).pids());
            }
        } else {
            self.processes.push(stamped);
            proof {
                assert(self.processes@[self.processes@.len() - 1].pid == pid);
                assert(final(self).records().drop_last() =~= old(self).records());
                assert(final(self).pids() =~= old(self).pids().push(pid));
            }
        }
    }

    /// Removes every record of the given process identifier.
    #[verifier::loop_isolation(false)]
    pub fn remove_process(&mut self, pid: u32)
        requires
            old(self).wf(),
        ensures
            final(self).wf(),
            final(self).records() == old(self).records().filter(not_pid_pred(pid)),
            !final(self).has_pid(pid),
    {
        let ghost orig = self.processes@;
        let ghost pred = not_pid_pred(pid);
        let mut out: Vec<ProcessInfo> = Vec::new();
        let ghost mut done: int = 0;
        while self.processes.len() > 0
            invariant
                0 <= done <= orig.len(),
                self.processes@ == orig.skip(done),
                out@ == orig.take(done).filter(pred),
            decreases self.processes@.len(),
        {
            let r = self.processes.remove(0);
            proof {
                assert(r == orig[done]);
                assert(orig.skip(done).remove(0) =~= orig.skip(done + 1));
                assert(orig.take(done + 1) =~= orig.take(done).push(orig[done]));
                orig.take(done).lemma_filter_push(orig[done], pred);
            }
            if r.pid != pid {
                out.push(r);
            }
            proof {
                done = done + 1;
            }
        }
        proof {
            assert(orig.take(done) =~= orig);
        }
        self.processes = out;
        proof {
            lemma_filter_unique(orig, pred);
        }
    }

    /// Prunes the registry to the processes the liveness probe reported
    /// alive.  Dead entries are dropped from the registry itself, not merely
    /// from the returned view.
    #[verifier::loop_isolation(false)]
    pub fn retain_live(&mut self, live: &Vec<u32>)
        requires
            old(self).wf(),
        ensures
            final(self).wf(),
            final(self).records() == old(self).records().filter(live_pred(live@)),
            forall|i: int|
                0 <= i < final(self).records().len() ==> live@.contains(
                    #[trigger] final(self).records()[i].pid,
                ),
    {
        let ghost orig = self.processes@;
        let ghost pred = live_pred(live@);
        let mut out: Vec<ProcessInfo> = Vec::new();
        let ghost mut done: int = 0;
        while self.processes.len() > 0
            invariant
                0 <= done <= orig.len(),
                self.processes@ == orig.skip(done),
                out@ == orig.take(done).filter(pred),
            decreases self.processes@.len(),
        {
            let r = self.processes.remove(0);
            proof {
                assert(r == orig[done]);
                assert(orig.skip(done).remove(0) =~= orig.skip(done + 1));
                assert(orig.take(done + 1) =~= orig.take(done).push(orig[done]));
                orig.take(done).lemma_filter_push(orig[done], pred);
            }
            if contains_u32(live, r.pid) {
                out.push(r);
            }
            proof {
                done = done + 1;
            }
        }
        proof {
            assert(orig.take(done) =~= orig);
        }
        self.processes = out;
        proof {
            lemma_filter_unique(orig, pred);
        }
    }

    /// A copy of the managed records, for display.
    #[verifier::loop_isolation(false)]
    pub fn list_processes(&self) -> (r: Vec<ProcessInfo>)
        ensures
            r@.len() == self.records().len(),
            forall|i: int|
                0 <= i < r@.len() ==> #[trigger] r@[i].pid == self.records()[i].pid
                    && r@[i].started_at@ == self.records()[i].started_at@,
    {
        let n = self.processes.len();
        let mut r: Vec<ProcessInfo> = Vec::new();
        let mut i: usize = 0;
        while i < n
            invariant
                i <= n,
                n == self.records().len(),
                r@.len() == i,
                forall|k: int|
                    0 <= k < i ==> #[trigger] r@[k].pid == self.records()[k].pid
                        && r@[k].started_at@ == self.records()[k].started_at@,
            decreases n - i,
        {
            let rec = &self.processes[i];
            let copy = ProcessInfo { pid: rec.pid, started_at: rec.started_at.clone() };
            let ghost prev = r@;
            r.push(copy);
            proof {
                assert forall|k: int|
                    0 <= k < i + 1 implies #[trigger] r@[k].pid == self.records()[k].pid
                    && r@[k].started_at@ == self.records()[k].started_at@ by {
                    if k < i {
                        assert(r@[k] == prev[k]);
                    } else {
                        assert(r@[k] == copy);
                    }
                }
            }
            i = i + 1;
        }
        r
    }

    /// Empties the registry.
    pub fn clear(&mut self)
        ensures
            final(self).records() == Seq::<ProcessInfo>::empty(),
            final(self).wf(),
    {
        self.processes.clear();
        proof {
            assert(final(self).records() =~= Seq::<ProcessInfo>::empty());
        }
    }

    /// Records the end of a bulk termination: whatever the per-process
    /// termination outcomes were, every entry stops being managed, so the
    /// registry is empty afterwards.  Returns how many terminations the
    /// caller reported successful.
    #[verifier::loop_isolation(false)]
    pub fn kill_all(&mut self, outcomes: &Vec<bool>) -> (killed: usize)
        ensures
            final(self).records() == Seq::<ProcessInfo>::empty(),
            final(self).wf(),
            killed == count_true(outcomes@),
            killed <= outcomes@.len(),
    {
        let n = outcomes.len();
        let mut killed: usize = 0;
        for i in 0..n
            invariant
                n == outcomes@.len(),
                killed == count_true(outcomes@.take(i as int)),
                killed <= i,
            decreases n - i,
        {
            proof {
                assert(outcomes@.take(i + 1).drop_last() =~= outcomes@.take(i as int));
                assert(outcomes@.take(i + 1).last() == outcomes@[i as int]);
            }
            if outcomes[i] {
                killed = killed + 1;
            }
        }
        proof {
            assert(outcomes@.take(n as int) =~= outcomes@);
        }
        self.processes.clear();
        proof {
            assert(final(self).records() =~= Seq::<ProcessInfo>::empty());
        }
        killed
    }
}

/// Pruning the registry twice against one unchanged liveness picture gives
/// the same records both times, and the pruned registry never holds a
/// process the probe reported dead.
pub proof fn lemma_list_running_idempotent(s: Seq<ProcessInfo>, live: Seq<u32>)
    ensures
        s.filter(live_pred(live)).filter(live_pred(live)) == s.filter(live_pred(live)),
        forall|i: int|
            0 <= i < s.filter(live_pred(live)).len() ==> live.contains(
                #[trigger] s.filter(live_pred(live))[i].pid,
            ),
{
    let f = s.filter(live_pred(live));
    assert(forall|i: int| 0 <= i < f.len() ==> live_pred(live)(#[trigger] f[i]));
    lemma_filter_all(f, live_pred(live));
    assert(forall|i: int|
        0 <= i < f.len() ==> live.contains(#[trigger] s.filter(live_pred(live))[i].pid));
}

/// Membership test on a vector of process identifiers.
#[verifier::loop_isolation(false)]
pub fn contains_u32(v: &Vec<u32>, x: u32) -> (b: bool)
    ensures
        b == v@.contains(x),
{
    let n = v.len();
    for i in 0..n
        invariant
            forall|k: int| 0 <= k < i ==> v@[k] != x,
        decreases n - i,
    {
        if v[i] == x {
            return true;
        }
    }
    false
}

/// One entry of a full-system process enumeration: a process identifier and
/// the executable path it was resolved to.
#[derive(Debug)]
pub struct ProcessEntry {
    pub pid: u32,
    pub exe_path: String,
}

/// Predicate selecting the enumerated processes whose executable path
/// contains the given fragment, compared case-insensitively.
pub open spec fn path_match_pred(fragment: Seq<char>) -> spec_fn(ProcessEntry) -> bool {
    |e: ProcessEntry| name_matches_spec(e.exe_path@, fragment)
}

/// The identifiers of the enumerated processes whose executable path matches
/// the fragment, in enumeration order.
#[verifier::loop_isolation(false)]
pub fn filter_processes_by_name(entries: Vec<ProcessEntry>, fragment: &str) -> (pids: Vec<u32>)
    ensures
        pids@ == entries@.filter(path_match_pred(fragment@)).map_values(|e: ProcessEntry| e.pid),
{
    let ghost orig = entries@;
    let ghost pred = path_match_pred(fragment@);
    let mut entries = entries;
    let mut pids: Vec<u32> = Vec::new();
    let ghost mut done: int = 0;
    while entries.len() > 0
        invariant
            0 <= done <= orig.len(),
            entries@ == orig.skip(done),
            pids@ == orig.take(done).filter(pred).map_values(|e: ProcessEntry| e.pid),
        decreases entries@.len(),
    {
        let e = entries.remove(0);
        proof {
            assert(e == orig[done]);
            assert(orig.skip(done).remove(0) =~= orig.skip(done + 1));
            assert(orig.take(done + 1) =~= orig.take(done).push(orig[done]));
            orig.take(done).lemma_filter_push(orig[done], pred);
        }
        if name_matches(e.exe_path.as_str(), fragment) {
            pids.push(e.pid);
            proof {
                assert(pids@ =~= orig.take(done + 1).filter(pred).map_values(
                    |e: ProcessEntry| e.pid,
                ));
            }
        } else {
            proof {
                assert(pids@ =~= orig.take(done + 1).filter(pred).map_values(
                    |e: ProcessEntry| e.pid,
                ));
            }
        }
        proof {
            done = done + 1;
        }
    }
    proof {
        assert(orig.take(done) =~= orig);
    }
    pids
}

} // verus!
