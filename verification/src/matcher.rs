//! Assigning live audio sessions to configured dial bindings.
//!
//! Each session is claimed by the first binding, in configured order, whose
//! selector matches its lowercased path. A session claimed by binding `i` is
//! never offered to a later binding; a session matching no binding, or whose
//! path could not be resolved, stays unassigned and is excluded from
//! aggregation.

use crate::config::{spec_selector_matches, ApplicationVolumeDial};
use crate::pattern::{lowercase, spec_lowercase};
use vstd::prelude::*;

verus! {

/// The host's per-cycle view of one live audio session: its process, its
/// resolved executable path (`None` when the OS denied resolving it), and its
/// current mute flag.
#[derive(Clone, Debug)]
pub struct SessionInfo {
    pub process_id: u32,
    pub path: Option<String>,
    pub mute: bool,
}

/// The first binding at or after `start` whose selector claims the lowercased
/// path.
pub open spec fn spec_first_match_from(
    dials: Seq<ApplicationVolumeDial>,
    path_lower: Seq<char>,
    start: int,
) -> Option<int>
    decreases dials.len() - start when 0 <= start <= dials.len()
{
    if start >= dials.len() {
        None
    } else if spec_selector_matches(dials[start].selector, path_lower) {
        Some(start)
    } else {
        spec_first_match_from(dials, path_lower, start + 1)
    }
}

/// The binding that claims the lowercased path: the first match in configured
/// order.
pub open spec fn spec_first_match(
    dials: Seq<ApplicationVolumeDial>,
    path_lower: Seq<char>,
) -> Option<int> {
    spec_first_match_from(dials, path_lower, 0)
}

/// The binding a session is assigned to: none when its path could not be
/// resolved or when no selector claims it.
pub open spec fn spec_session_target(
    dials: Seq<ApplicationVolumeDial>,
    s: SessionInfo,
) -> Option<int> {
    match s.path {
        Option::Some(p) => spec_first_match(dials, spec_lowercase(p@)),
        Option::None => None,
    }
}

/// Searching from the start is the same as searching from `start` once no
/// selector before `start` matches.
proof fn lemma_first_match_skip(
    dials: Seq<ApplicationVolumeDial>,
    path_lower: Seq<char>,
    start: int,
)
    requires
        0 <= start <= dials.len(),
        forall|k: int| 0 <= k < start ==> !spec_selector_matches(dials[k].selector, path_lower),
    ensures
        spec_first_match(dials, path_lower) == spec_first_match_from(dials, path_lower, start),
    decreases start,
{
    if start > 0 {
        lemma_first_match_skip(dials, path_lower, start - 1);
    }
}

/// Finds the first binding whose selector claims the lowercased path.
fn first_match(dials: &Vec<ApplicationVolumeDial>, path_lower: &str) -> (r: Option<usize>)
    ensures
        match r {
            Some(d) => d < dials@.len() && spec_first_match(dials@, path_lower@) == Some(d as int),
            None => spec_first_match(dials@, path_lower@) is None,
        },
{
    let n = dials.len();
    for i in 0..n
        invariant
            n == dials@.len(),
            forall|k: int| 0 <= k < i ==> !spec_selector_matches(dials@[k].selector, path_lower@),
    {
        if dials[i].selector.matches(path_lower) {
            proof {
                lemma_first_match_skip(dials@, path_lower@, i as int);
            }
            return Some(i);
        }
    }
    proof {
        lemma_first_match_skip(dials@, path_lower@, n as int);
    }
    None
}

/// Whether an assignment slot agrees with the binding a session belongs to.
pub open spec fn spec_target_eq(t: Option<usize>, s: Option<int>) -> bool {
    match t {
        Option::Some(a) => s == Some(a as int),
        Option::None => s is None,
    }
}

/// Partitions the sessions across the bindings: entry `d` of the result lists
/// the indices, in session order, of exactly the sessions assigned to binding
/// `d`. The assignment depends only on the binding order and the session
/// paths, never on enumeration order.
pub fn match_sessions(dials: &Vec<ApplicationVolumeDial>, sessions: &Vec<SessionInfo>) -> (r: Vec<
    Vec<usize>,
>)
    ensures
        r@.len() == dials@.len(),
        forall|d: int, k: int|
            0 <= d < r@.len() && 0 <= k < r@[d]@.len() ==> r@[d]@[k] < sessions@.len()
                && spec_session_target(dials@, sessions@[r@[d]@[k] as int]) == Some(d),
        forall|d: int, j: int|
            0 <= d < dials@.len() && 0 <= j < sessions@.len() && spec_session_target(
                dials@,
                sessions@[j],
            ) == Some(d) ==> r@[d]@.contains(j as usize),
        forall|d: int, k1: int, k2: int|
            0 <= d < r@.len() && 0 <= k1 < k2 < r@[d]@.len() ==> r@[d]@[k1] < r@[d]@[k2],
{
    let ns = sessions.len();
    let mut targets: Vec<Option<usize>> = Vec::new();
    for j in 0..ns
        invariant
            ns == sessions@.len(),
            targets@.len() == j,
            forall|q: int|
                0 <= q < j ==> spec_target_eq(
                    targets@[q],
                    spec_session_target(dials@, sessions@[q]),
                ),
    {
        let t: Option<usize> = match &sessions[j].path {
            Option::Some(p) => {
                let low = lowercase(p.as_str());
                first_match(dials, low.as_str())
            },
            Option::None => None,
        };
        targets.push(t);
    }
    let nd = dials.len();
    let mut r: Vec<Vec<usize>> = Vec::new();
    for d in 0..nd
        invariant
            nd == dials@.len(),
            ns == sessions@.len(),
            targets@.len() == ns,
            forall|q: int|
                0 <= q < ns ==> spec_target_eq(
                    targets@[q],
                    spec_session_target(dials@, sessions@[q]),
                ),
            r@.len() == d,
            forall|dd: int, k: int|
                0 <= dd < d && 0 <= k < r@[dd]@.len() ==> r@[dd]@[k] < ns && spec_session_target(
                    dials@,
                    sessions@[r@[dd]@[k] as int],
                ) == Some(dd),
            forall|dd: int, j: int|
                0 <= dd < d && 0 <= j < ns && spec_session_target(dials@, sessions@[j]) == Some(dd)
                    ==> r@[dd]@.contains(j as usize),
            forall|dd: int, k1: int, k2: int|
                0 <= dd < d && 0 <= k1 < k2 < r@[dd]@.len() ==> r@[dd]@[k1] < r@[dd]@[k2],
    {
        let mut g: Vec<usize> = Vec::new();
        for j in 0..ns
            invariant
                nd == dials@.len(),
                ns == sessions@.len(),
                targets@.len() == ns,
                d < nd,
                forall|q: int|
                    0 <= q < ns ==> spec_target_eq(
                        targets@[q],
                        spec_session_target(dials@, sessions@[q]),
                    ),
                forall|k: int|
                    0 <= k < g@.len() ==> g@[k] < j && spec_session_target(
                        dials@,
                        sessions@[g@[k] as int],
                    ) == Some(d as int),
                forall|q: int|
                    0 <= q < j && spec_session_target(dials@, sessions@[q]) == Some(d as int)
                        ==> g@.contains(q as usize),
                forall|k1: int, k2: int| 0 <= k1 < k2 < g@.len() ==> g@[k1] < g@[k2],
        {
            let assigned = match targets[j] {
                Option::Some(t) => t == d,
                Option::None => false,
            };
            if assigned {
                let ghost g_old = g@;
                g.push(j);
                proof {
                    assert(g@[g@.len() - 1] == j);
                    assert forall|q: int|
                        0 <= q < j + 1 && spec_session_target(dials@, sessions@[q]) == Some(
                            d as int,
                        ) implies g@.contains(q as usize) by {
                        if q == j {
                            assert(g@[g@.len() - 1] == q as usize);
                        } else {
                            let k = choose|k: int| 0 <= k < g_old.len() && g_old[k] == q as usize;
                            assert(g@[k] == q as usize);
                        }
                    }
                }
            }
        }
        r.push(g);
    }
    r
}

} // verus!
