//! Installed-path discovery: the fixed candidate locations of the target
//! application's executable and the "first existing" selection rule.
//!
//! Whether a path exists on disk is a question for the caller; the functions
//! here take the per-candidate answers and make the choice, so the choice
//! itself is verified.

use vstd::prelude::*;

verus! {

/// The fixed candidate install paths of the target application's executable,
/// in the order they are probed.
pub open spec fn wecom_candidate_view(i: int) -> Seq<char> {
    if i == 0 {
        "C:\\Program Files (x86)\\WXWork\\WXWork.exe"@
    } else if i == 1 {
        "C:\\Program Files\\WXWork\\WXWork.exe"@
    } else if i == 2 {
        "D:\\Program Files (x86)\\WXWork\\WXWork.exe"@
    } else {
        "D:\\Program Files\\WXWork\\WXWork.exe"@
    }
}

/// Number of candidate install paths.
pub const WECOM_CANDIDATE_COUNT: usize = 4;

pub fn wecom_path_candidates() -> (v: Vec<String>)
    ensures
        v@.len() == WECOM_CANDIDATE_COUNT,
        forall|i: int| 0 <= i < WECOM_CANDIDATE_COUNT ==> #[trigger] v@[i]@ == wecom_candidate_view(
            i,
        ),
{
    let mut v: Vec<String> = Vec::new();
    v.push("C:\\Program Files (x86)\\WXWork\\WXWork.exe".to_owned());
    v.push("C:\\Program Files\\WXWork\\WXWork.exe".to_owned());
    v.push("D:\\Program Files (x86)\\WXWork\\WXWork.exe".to_owned());
    v.push("D:\\Program Files\\WXWork\\WXWork.exe".to_owned());
    proof {
        assert(v@[0]@ == wecom_candidate_view(0));
        assert(v@[1]@ == wecom_candidate_view(1));
        assert(v@[2]@ == wecom_candidate_view(2));
        assert(v@[3]@ == wecom_candidate_view(3));
    }
    v
}

/// The candidate bundle paths of the target application on the
/// bundle-cloning platform, in the order they are probed.
pub open spec fn mac_candidate_view(i: int) -> Seq<char> {
    if i == 0 {
        "/Applications/企业微信.app"@
    } else {
        "/Applications/WeCom.app"@
    }
}

/// Number of candidate bundle paths.
pub const MAC_CANDIDATE_COUNT: usize = 2;

pub fn mac_app_candidates() -> (v: Vec<String>)
    ensures
        v@.len() == MAC_CANDIDATE_COUNT,
        forall|i: int| 0 <= i < MAC_CANDIDATE_COUNT ==> #[trigger] v@[i]@ == mac_candidate_view(i),
{
    let mut v: Vec<String> = Vec::new();
    v.push("/Applications/企业微信.app".to_owned());
    v.push("/Applications/WeCom.app".to_owned());
    proof {
        assert(v@[0]@ == mac_candidate_view(0));
        assert(v@[1]@ == mac_candidate_view(1));
    }
    v
}

/// Index of the first candidate the caller found to exist, if any.
#[verifier::loop_isolation(false)]
pub fn first_existing(exists: &Vec<bool>) -> (r: Option<usize>)
    ensures
        match r {
            Some(i) => i < exists@.len() && exists@[i as int] && forall|k: int|
                0 <= k < i ==> !exists@[k],
            None => forall|k: int| 0 <= k < exists@.len() ==> !exists@[k],
        },
{
    let n = exists.len();
    for i in 0..n
        invariant
            forall|k: int| 0 <= k < i ==> !exists@[k],
        decreases n - i,
    {
        if exists[i] {
            return Some(i);
        }
    }
    None
}

/// The first existing candidate install path, or nothing when none of the
/// candidates exists.  `exists` answers, per candidate, whether the path
/// exists on disk.
pub fn get_default_wecom_path(exists: &Vec<bool>) -> (r: Option<String>)
    requires
        exists@.len() == WECOM_CANDIDATE_COUNT,
    ensures
        match r {
            Some(p) => exists|i: int|
                0 <= i < WECOM_CANDIDATE_COUNT && #[trigger] exists@[i] && p@
                    == wecom_candidate_view(i) && (forall|k: int| 0 <= k < i ==> !exists@[k]),
            None => forall|k: int| 0 <= k < exists@.len() ==> !exists@[k],
        },
{
    let candidates = wecom_path_candidates();
    match first_existing(exists) {
        Some(i) => {
            let mut candidates = candidates;
            let p = candidates.remove(i);
            Some(p)
        },
        None => None,
    }
}

/// The first existing candidate install path, falling back to the primary
/// candidate when none exists.
pub fn get_default_app_path(exists: &Vec<bool>) -> (r: String)
    requires
        exists@.len() == WECOM_CANDIDATE_COUNT,
    ensures
        (exists|i: int|
            0 <= i < WECOM_CANDIDATE_COUNT && #[trigger] exists@[i] && r@
                == wecom_candidate_view(i) && (forall|k: int| 0 <= k < i ==> !exists@[k])) || ((
        forall|k: int| 0 <= k < exists@.len() ==> !exists@[k]) && r@ == wecom_candidate_view(0)),
{
    match get_default_wecom_path(exists) {
        Some(p) => p,
        None => {
            let mut candidates = wecom_path_candidates();
            candidates.remove(0)
        },
    }
}

} // verus!
