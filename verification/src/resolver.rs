//! Building and selecting the candidate install-root paths.
//!
//! For every mounted volume there are three historically valid install
//! locations, tried in a fixed priority order; the first candidate that
//! exists on the filesystem is the install target. The existence checks
//! themselves are filesystem reads made by the surrounding program, which
//! hands the results back as one flag per candidate.

use vstd::prelude::*;
use crate::text::push_char;

verus! {

/// The relative path from an install location to the target application.
pub open spec fn app_suffix() -> Seq<char> {
    "steamapps/common/Lethal Company"@
}

/// The `j`-th install-location segment, in priority order.
pub open spec fn location_segment(j: int) -> Seq<char>
    recommends
        0 <= j < 3,
{
    if j == 0 {
        "Program Files (x86)/Steam"@
    } else if j == 1 {
        "Program Files/Steam"@
    } else {
        "SteamLibrary"@
    }
}

/// The full candidate path for volume `v` and install location `j`:
/// `{v}:/{location}/steamapps/common/Lethal Company`.
pub open spec fn candidate_spec(v: char, j: int) -> Seq<char>
    recommends
        0 <= j < 3,
{
    seq![v] + ":/"@ + location_segment(j) + "/"@ + app_suffix()
}

/// Builds the candidate path for volume `v` and the location segment `loc`.
fn build_candidate(v: char, loc: &str) -> (s: String)
    ensures
        s@ == seq![v] + ":/"@ + loc@ + "/"@ + app_suffix(),
{
    let mut s = String::new();
    push_char(&mut s, v);
    s.append(":/");
    s.append(loc);
    s.append("/");
    s.append("steamapps/common/Lethal Company");
    proof {
        assert(s@ =~= seq![v] + ":/"@ + loc@ + "/"@ + app_suffix());
    }
    s
}

/// Builds every candidate install path, three per volume, in priority
/// order: volumes in the order given, and for each volume its three
/// install locations in fixed order.
pub fn get_lc_paths(drives: &Vec<char>) -> (r: Vec<String>)
    ensures
        r@.len() == 3 * drives@.len(),
        forall|k: int|
            0 <= k < r@.len() ==> #[trigger] r@[k]@ == candidate_spec(drives@[k / 3], k % 3),
{
    let mut r: Vec<String> = Vec::new();
    let mut i: usize = 0;
    while i < drives.len()
        invariant
            i <= drives@.len(),
            r@.len() == 3 * i,
            forall|k: int|
                0 <= k < r@.len() ==> #[trigger] r@[k]@ == candidate_spec(drives@[k / 3], k % 3),
        decreases drives@.len() - i,
    {
        let v = drives[i];
        r.push(build_candidate(v, "Program Files (x86)/Steam"));
        r.push(build_candidate(v, "Program Files/Steam"));
        r.push(build_candidate(v, "SteamLibrary"));
        i = i + 1;
    }
    r
}

/// Picks the first candidate that exists, by index; `exists` holds one
/// existence flag per candidate, in the same order. Returns `None` exactly
/// when no candidate exists.
pub fn select_target(candidates: &Vec<String>, exists: &Vec<bool>) -> (r: Option<usize>)
    requires
        candidates@.len() == exists@.len(),
    ensures
        r matches Some(i) ==> i < candidates@.len() && exists@[i as int] && (forall|j: int|
            0 <= j < i ==> !exists@[j]),
        r is None ==> forall|j: int| 0 <= j < exists@.len() ==> !exists@[j],
{
    let mut i: usize = 0;
    while i < exists.len()
        invariant
            candidates@.len() == exists@.len(),
            i <= exists@.len(),
            forall|j: int| 0 <= j < i ==> !exists@[j],
        decreases exists@.len() - i,
    {
        if exists[i] {
            return Some(i);
        }
        i = i + 1;
    }
    None
}

} // verus!
