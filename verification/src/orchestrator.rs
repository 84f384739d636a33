//! The sequential spawn orchestration state machine.
//!
//! One orchestration run walks the requested instance count one launch at a
//! time: release the exclusivity object, wait a short settle interval,
//! launch, record the outcome, and wait a longer settle interval before the
//! next iteration (skipped after the last).  The waiting and the operating
//! system calls happen outside this library; the machine here makes every
//! decision and keeps the accounting, so that a finished run always reports
//! `success + failed == count` with exactly one recorded process identifier
//! per success, whatever the individual outcomes were.

use vstd::prelude::*;
use crate::windows_sandbox::SandboxConfig;

verus! {

/// The isolation strategy of one orchestration run: plain repeated launch,
/// or one sandbox profile per instance.
#[derive(Clone, Copy, Debug, PartialEq, Eq, Structural)]
pub enum IsolationMode {
    Simple,
    Sandboxie,
}

/// One orchestration request: how many instances, an optional explicit
/// executable path, the isolation strategy, and optional per-instance
/// profile overrides.
#[derive(Debug)]
pub struct SpawnRequest {
    pub count: u8,
    pub app_path: Option<String>,
    pub isolation_mode: IsolationMode,
    pub instance_configs: Option<Vec<SandboxConfig>>,
}

/// The outcome of one orchestration run: the identifiers of the processes
/// that were created, in launch order, and the success and failure tallies.
#[derive(Debug)]
pub struct SpawnResponse {
    pub pids: Vec<u32>,
    pub success: usize,
    pub failed: usize,
}

/// What one launch attempt came to.
#[derive(Clone, Copy, Debug, PartialEq, Eq, Structural)]
pub enum LaunchOutcome {
    Launched(u32),
    Failed,
}

/// Why a request is rejected before any iteration starts: a zero instance
/// count, or an executable that does not exist at all.
#[derive(Clone, Copy, Debug, PartialEq, Eq, Structural)]
pub enum SpawnSetupError {
    ZeroCount,
    MissingExecutable,
}

impl SpawnSetupError {
    /// A human-readable description of the rejection.
    pub fn message(&self) -> (m: String)
        ensures
            *self == SpawnSetupError::ZeroCount ==> m@ == "实例数量必须大于 0"@,
            *self == SpawnSetupError::MissingExecutable ==> m@ == "应用程序不存在"@,
    {
        match self {
            SpawnSetupError::ZeroCount => "实例数量必须大于 0".to_owned(),
            SpawnSetupError::MissingExecutable => "应用程序不存在".to_owned(),
        }
    }
}

/// Number of successful launches in a history of outcomes.
pub open spec fn successes(outcomes: Seq<LaunchOutcome>) -> int
    decreases outcomes.len(),
{
    if outcomes.len() == 0 {
        0
    } else {
        successes(outcomes.drop_last()) + if outcomes.last() is Launched {
            1int
        } else {
            0int
        }
    }
}

/// Number of failed launches in a history of outcomes.
pub open spec fn failures(outcomes: Seq<LaunchOutcome>) -> int
    decreases outcomes.len(),
{
    if outcomes.len() == 0 {
        0
    } else {
        failures(outcomes.drop_last()) + if outcomes.last() is Failed {
            1int
        } else {
            0int
        }
    }
}

/// The process identifiers of the successful launches, in launch order.
pub open spec fn launched_pids(outcomes: Seq<LaunchOutcome>) -> Seq<u32>
    decreases outcomes.len(),
{
    if outcomes.len() == 0 {
        Seq::empty()
    } else {
        match outcomes.last() {
            LaunchOutcome::Launched(pid) => launched_pids(outcomes.drop_last()).push(pid),
            LaunchOutcome::Failed => launched_pids(outcomes.drop_last()),
        }
    }
}

/// Whatever the individual outcomes of a run were, every attempt is counted
/// exactly once — the successes and failures add up to the number of
/// attempts — and exactly the successful attempts leave a process
/// identifier behind.
pub proof fn lemma_spawn_accounting(outcomes: Seq<LaunchOutcome>)
    ensures
        successes(outcomes) + failures(outcomes) == outcomes.len(),
        launched_pids(outcomes).len() == successes(outcomes),
        0 <= successes(outcomes),
        0 <= failures(outcomes),
    decreases outcomes.len(),
{
    if outcomes.len() > 0 {
        lemma_spawn_accounting(outcomes.drop_last());
    }
}

/// One orchestration run in progress.  The ghost history ties the exec
/// counters to the sequence of outcomes the run has seen.
pub struct SpawnRun {
    pub count: u8,
    pub done: u8,
    pub success: usize,
    pub failed: usize,
    pub pids: Vec<u32>,
    pub history: Ghost<Seq<LaunchOutcome>>,
}

impl SpawnRun {
    /// The counters agree with the recorded history at every point of a
    /// run.
    pub open spec fn wf(&self) -> bool {
        &&& self.done <= self.count
        &&& self.history@.len() == self.done
        &&& self.success == successes(self.history@)
        &&& self.failed == failures(self.history@)
        &&& self.pids@ == launched_pids(self.history@)
    }

    /// Validates a request and opens a run.  A zero count or a missing
    /// executable rejects the whole call before any iteration or settle
    /// delay; nothing has been launched at that point.
    pub fn begin(req: &SpawnRequest, path_exists: bool) -> (r: Result<SpawnRun, SpawnSetupError>)
        ensures
            match r {
                Ok(run) => {
                    &&& req.count > 0
                    &&& path_exists
                    &&& run.wf()
                    &&& run.count == req.count
                    &&& run.done == 0
                    &&& run.success == 0
                    &&& run.failed == 0
                    &&& run.pids@ == Seq::<u32>::empty()
                },
                Err(e) => (req.count == 0 && e == SpawnSetupError::ZeroCount) || (req.count > 0
                    && !path_exists && e == SpawnSetupError::MissingExecutable),
            },
    {
        if req.count == 0 {
            return Err(SpawnSetupError::ZeroCount);
        }
        if !path_exists {
            return Err(SpawnSetupError::MissingExecutable);
        }
        let run = SpawnRun {
            count: req.count,
            done: 0,
            success: 0,
            failed: 0,
            pids: Vec::new(),
            history: Ghost(Seq::empty()),
        };
        Ok(run)
    }

    /// Records the outcome of one launch attempt.  A success appends the
    /// new process identifier and counts as such; a failure only counts —
    /// the iteration proceeds to the next instance regardless.
    pub fn record(&mut self, outcome: LaunchOutcome)
        requires
            old(self).wf(),
            old(self).done < old(self).count,
        ensures
            final(self).wf(),
            final(self).count == old(self).count,
            final(self).done == old(self).done + 1,
            final(self).history@ == old(self).history@.push(outcome),
            match outcome {
                LaunchOutcome::Launched(pid) => {
                    &&& final(self).success == old(self).success + 1
                    &&& final(self).failed == old(self).failed
                    &&& final(self).pids@ == old(self).pids@.push(pid)
                },
                LaunchOutcome::Failed => {
                    &&& final(self).failed == old(self).failed + 1
                    &&& final(self).success == old(self).success
                    &&& final(self).pids@ == old(self).pids@
                },
            },
    {
        proof {
            lemma_spawn_accounting(self.history@);
            assert(self.history@.push(outcome).drop_last() =~= self.history@);
        }
        match outcome {
            LaunchOutcome::Launched(pid) => {
                self.pids.push(pid);
                self.success = self.success + 1;
            },
            LaunchOutcome::Failed => {
                self.failed = self.failed + 1;
            },
        }
        self.done = self.done + 1;
        self.history = Ghost(self.history@.push(outcome));
    }

    /// Whether the run has handled every requested instance.
    pub fn complete(&self) -> (b: bool)
        ensures
            b == (self.done == self.count),
    {
        self.done == self.count
    }

    /// Whether a long settle interval is still owed: it is skipped after
    /// the last instance.
    pub fn needs_settle(&self) -> (b: bool)
        ensures
            b == (self.done < self.count),
    {
        self.done < self.count
    }

    /// Whether a failed exclusivity release is merely informational: before
    /// the first instance has started, no lock exists yet, so finding none
    /// is the expected case.
    pub fn release_failure_benign(&self) -> (b: bool)
        ensures
            b == (self.done == 0),
    {
        self.done == 0
    }

    /// Closes a finished run.  The report always carries both tallies, and
    /// they add up to the requested count with one recorded process
    /// identifier per success — also when every instance failed.
    pub fn finish(self) -> (r: SpawnResponse)
        requires
            self.wf(),
            self.done == self.count,
        ensures
            r.success + r.failed == self.count,
            r.pids@.len() == r.success,
            r.success == successes(self.history@),
            r.failed == failures(self.history@),
            r.pids@ == launched_pids(self.history@),
    {
        proof {
            lemma_spawn_accounting(self.history@);
        }
        SpawnResponse { pids: self.pids, success: self.success, failed: self.failed }
    }
}

/// The executable one run launches: the request's explicit path when it
/// gives one, the discovered default otherwise.
pub fn resolve_executable(req: &SpawnRequest, default_path: String) -> (p: String)
    ensures
        match req.app_path {
            Some(q) => p@ == q@,
            None => p@ == default_path@,
        },
{
    match &req.app_path {
        Some(q) => q.clone(),
        None => default_path,
    }
}

} // verus!
