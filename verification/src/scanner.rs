//! Decision logic of the system-wide handle scan that releases the target
//! application's exclusivity object.
//!
//! The operating-system side of the scan (reading the global handle table,
//! duplicating a candidate handle, resolving its name, closing it in the
//! owning process) is unverifiable foreign-call territory and lives outside
//! this library.  What is verified here is every decision the scan makes:
//! which records are candidates, whether a resolved name matches the target
//! fragment, and how the per-handle outcomes combine into the result of one
//! release attempt.

use vstd::prelude::*;
use crate::text::{lower_seq_spec, lower_chars, str_chars};

verus! {

/// One entry of the system-wide handle enumeration: the owning process, the
/// raw handle value, the object-type classification index, and the granted
/// access mask.  Ephemeral; it exists only for the duration of one scan pass.
#[derive(Clone, Copy, Debug, PartialEq, Eq, Structural)]
pub struct HandleRecord {
    pub owner_pid: u32,
    pub handle_value: usize,
    pub object_type_index: u16,
    pub access_mask: u32,
}

/// Lower bound of the object-type index range empirically known to hold
/// mutex-like kernel objects.  A discovered constant, not a public contract.
pub const MUTEX_TYPE_INDEX_MIN: u16 = 15;

/// Upper bound of the mutex-like object-type index range.
pub const MUTEX_TYPE_INDEX_MAX: u16 = 25;

/// The name fragment of the exclusivity object the target application holds
/// while an instance is running.
pub fn wecom_mutex_name() -> (s: &'static str)
    ensures
        s@ == "Tencent.WeWork.Exclusive"@,
{
    "Tencent.WeWork.Exclusive"
}

/// A record is worth probing when it is owned by another process and its
/// object-type index falls in the mutex-like range.
pub open spec fn is_candidate_spec(rec: HandleRecord, self_pid: u32) -> bool {
    &&& rec.owner_pid != self_pid
    &&& MUTEX_TYPE_INDEX_MIN <= rec.object_type_index
    &&& rec.object_type_index <= MUTEX_TYPE_INDEX_MAX
}

/// Candidate filter applied to every record of one scan pass.
pub fn is_candidate(rec: &HandleRecord, self_pid: u32) -> (b: bool)
    ensures
        b == is_candidate_spec(*rec, self_pid),
{
    rec.owner_pid != self_pid && MUTEX_TYPE_INDEX_MIN <= rec.object_type_index
        && rec.object_type_index <= MUTEX_TYPE_INDEX_MAX
}

/// `needle` occurs in `hay` starting at position `i`.
pub open spec fn contains_at(hay: Seq<char>, needle: Seq<char>, i: int) -> bool {
    &&& 0 <= i
    &&& i + needle.len() <= hay.len()
    &&& hay.subrange(i, i + needle.len()) == needle
}

/// `needle` occurs somewhere in `hay`.
pub open spec fn contains_spec(hay: Seq<char>, needle: Seq<char>) -> bool {
    exists|i: int| contains_at(hay, needle, i)
}

/// A resolved object name matches when it contains the configured fragment,
/// compared after ASCII case folding of both sides.
pub open spec fn name_matches_spec(name: Seq<char>, fragment: Seq<char>) -> bool {
    contains_spec(lower_seq_spec(name), lower_seq_spec(fragment))
}

#[verifier::loop_isolation(false)]
fn match_at(hay: &Vec<char>, needle: &Vec<char>, i: usize) -> (b: bool)
    requires
        i + needle@.len() <= hay@.len(),
    ensures
        b == contains_at(hay@, needle@, i as int),
{
    let m = needle.len();
    let hay_len = hay.len();
    assert(i + m <= hay_len);
    for j in 0..m
        invariant
            i + m <= hay@.len(),
            m == needle@.len(),
            forall|k: int| 0 <= k < j ==> hay@[i + k] == needle@[k],
        decreases m - j,
    {
        if hay[i + j] != needle[j] {
            assert(!contains_at(hay@, needle@, i as int)) by {
                assert(hay@.subrange(i as int, i + m) =~= needle@ ==> hay@.subrange(
                    i as int,
                    i + m,
                )[j as int] == needle@[j as int]);
            }
            return false;
        }
    }
    assert(hay@.subrange(i as int, i + m as int) =~= needle@);
    true
}

/// Substring search deciding `contains_spec` on character vectors.
#[verifier::loop_isolation(false)]
pub fn chars_contain(hay: &Vec<char>, needle: &Vec<char>) -> (b: bool)
    ensures
        b == contains_spec(hay@, needle@),
{
    let n = hay.len();
    let m = needle.len();
    if m > n {
        assert(forall|i: int| !contains_at(hay@, needle@, i));
        return false;
    }
    if m == 0 {
        assert(contains_at(hay@, needle@, 0)) by {
            assert(hay@.subrange(0, 0) =~= needle@);
        }
        return true;
    }
    let end = n - m + 1;
    for i in 0..end
        invariant
            m <= n,
            n == hay@.len(),
            m == needle@.len(),
            end == n - m + 1,
            forall|k: int| 0 <= k < i ==> !contains_at(hay@, needle@, k),
        decreases end - i,
    {
        if match_at(hay, needle, i) {
            return true;
        }
    }
    assert(forall|k: int| contains_at(hay@, needle@, k) ==> 0 <= k < end);
    false
}

/// Case-insensitive test whether the resolved object name contains the
/// configured name fragment.  Case folding is ASCII-only.
pub fn name_matches(name: &str, fragment: &str) -> (b: bool)
    ensures
        b == name_matches_spec(name@, fragment@),
{
    let name_chars = str_chars(name);
    let frag_chars = str_chars(fragment);
    let hay = lower_chars(&name_chars);
    let needle = lower_chars(&frag_chars);
    chars_contain(&hay, &needle)
}

/// Result classification of one release attempt, as the orchestrator sees
/// it: the scan itself failed, or it completed without closing any matching
/// handle, which is an expected outcome before any instance has started.
#[derive(Clone, Copy, Debug, PartialEq, Eq, Structural)]
pub enum ScanError {
    NotFound,
    ScanFailed,
}

/// What happened to one candidate handle during a scan pass.
#[derive(Clone, Copy, Debug, PartialEq, Eq, Structural)]
pub enum ProbeOutcome {
    /// The owning process could not be opened or the handle not duplicated.
    AccessDenied,
    /// The duplicated handle's canonical name could not be resolved.
    Unresolved,
    /// The name resolved but did not contain the target fragment.
    NoMatch,
    /// The name matched and the close-source duplication succeeded.
    Closed,
    /// The name matched but the close-source duplication failed.
    CloseFailed,
}

/// Number of candidate handles whose name was resolved.
pub open spec fn count_resolved(s: Seq<ProbeOutcome>) -> int
    decreases s.len(),
{
    if s.len() == 0 {
        0
    } else {
        count_resolved(s.drop_last()) + if s.last() == ProbeOutcome::NoMatch || s.last()
            == ProbeOutcome::Closed || s.last() == ProbeOutcome::CloseFailed {
            1int
        } else {
            0int
        }
    }
}

/// Number of matching handles that were actually closed.
pub open spec fn count_closed(s: Seq<ProbeOutcome>) -> int
    decreases s.len(),
{
    if s.len() == 0 {
        0
    } else {
        count_closed(s.drop_last()) + if s.last() == ProbeOutcome::Closed {
            1int
        } else {
            0int
        }
    }
}

/// Summary counters of one scan pass.
#[derive(Clone, Copy, Debug, PartialEq, Eq, Structural)]
pub struct ScanStats {
    pub candidates: usize,
    pub resolved: usize,
    pub closed: usize,
}

proof fn lemma_counts_bounded(s: Seq<ProbeOutcome>)
    ensures
        0 <= count_resolved(s) <= s.len(),
        0 <= count_closed(s) <= s.len(),
    decreases s.len(),
{
    if s.len() > 0 {
        lemma_counts_bounded(s.drop_last());
    }
}

/// Folds the per-handle outcomes of one scan pass into its counters.
#[verifier::loop_isolation(false)]
pub fn tally_probes(outcomes: &Vec<ProbeOutcome>) -> (s: ScanStats)
    ensures
        s.candidates == outcomes@.len(),
        s.resolved == count_resolved(outcomes@),
        s.closed == count_closed(outcomes@),
{
    let n = outcomes.len();
    let mut resolved: usize = 0;
    let mut closed: usize = 0;
    for i in 0..n
        invariant
            n == outcomes@.len(),
            resolved == count_resolved(outcomes@.take(i as int)),
            closed == count_closed(outcomes@.take(i as int)),
            resolved <= i,
            closed <= i,
        decreases n - i,
    {
        proof {
            assert(outcomes@.take(i + 1).drop_last() =~= outcomes@.take(i as int));
            assert(outcomes@.take(i + 1).last() == outcomes@[i as int]);
        }
        let o = outcomes[i];
        if o == ProbeOutcome::NoMatch || o == ProbeOutcome::Closed || o == ProbeOutcome::CloseFailed
        {
            resolved = resolved + 1;
        }
        if o == ProbeOutcome::Closed {
            closed = closed + 1;
        }
    }
    proof {
        assert(outcomes@.take(n as int) =~= outcomes@);
    }
    ScanStats { candidates: n, resolved, closed }
}

/// Result of one release attempt: `Ok` when at least one matching handle was
/// closed; `NotFound` when the scan itself succeeded but no matching handle
/// was found, an expected outcome before any instance has started; and
/// `ScanFailed` only when the handle-table query itself failed.
pub fn release_outcome(scan_ok: bool, outcomes: &Vec<ProbeOutcome>) -> (r: Result<
    ScanStats,
    ScanError,
>)
    ensures
        !scan_ok ==> r == Err::<ScanStats, ScanError>(ScanError::ScanFailed),
        scan_ok && count_closed(outcomes@) == 0 ==> r == Err::<ScanStats, ScanError>(
            ScanError::NotFound,
        ),
        scan_ok && count_closed(outcomes@) > 0 ==> (r matches Ok(s) && s.closed == count_closed(
            outcomes@,
        ) && s.candidates == outcomes@.len() && s.resolved == count_resolved(outcomes@)),
{
    if !scan_ok {
        return Err(ScanError::ScanFailed);
    }
    let stats = tally_probes(outcomes);
    proof {
        lemma_counts_bounded(outcomes@);
    }
    if stats.closed > 0 {
        Ok(stats)
    } else {
        Err(ScanError::NotFound)
    }
}

} // verus!
