//! Dispatch order of a batch of waiting tasks.
use vstd::prelude::*;
use crate::scx::profile::Profile;

verus! {

/// A task waiting to be dispatched, as the BPF side hands it over.
#[derive(Debug, Clone, Copy, PartialEq, Eq)]
pub struct QueuedTask {
    pub pid: i32,
    pub cpu: i32,
    pub nr_cpus_allowed: u64,
    pub flags: u64,
    pub start_ts: u64,
    pub stop_ts: u64,
    pub exec_runtime: u64,
    pub weight: u64,
    pub vtime: u64,
    pub enq_cnt: u64,
    pub comm: [i8; 16],
}

/// A task waiting at least this long (ns) since it last held a CPU jumps to
/// the front of an interactive batch.
pub const STARVATION_THRESHOLD_NS: u64 = 20_000_000;

/// `a - b`, or `0` when `b > a`.
pub open spec fn sat_sub(a: u64, b: u64) -> u64 {
    if a >= b { (a - b) as u64 } else { 0 }
}

/// The latest `stop_ts` of the batch; it stands in for "now".
pub open spec fn latest_stop(s: Seq<QueuedTask>) -> u64
    decreases s.len(),
{
    if s.len() == 0 {
        0
    } else {
        let rest = latest_stop(s.drop_last());
        if s.last().stop_ts > rest { s.last().stop_ts } else { rest }
    }
}

/// Whether the task has waited at least the starvation threshold at `now`.
pub open spec fn is_starved(t: QueuedTask, now: u64) -> bool {
    sat_sub(now, t.stop_ts) >= STARVATION_THRESHOLD_NS
}

/// The sort key of a task: starved tasks first, the longest-waiting first;
/// then the others by ascending `exec_runtime`.
pub open spec fn sort_key(t: QueuedTask, now: u64) -> (u64, u64) {
    if is_starved(t, now) {
        (0, (u64::MAX - sat_sub(now, t.stop_ts)) as u64)
    } else {
        (1, t.exec_runtime)
    }
}

/// Lexicographic `a < b` on pairs.
pub open spec fn pair_lt(a: (u64, u64), b: (u64, u64)) -> bool {
    a.0 < b.0 || (a.0 == b.0 && a.1 < b.1)
}

/// Whether `perm` lists each index of a batch of `n` exactly once.
pub open spec fn is_permutation(perm: Seq<int>, n: nat) -> bool {
    &&& perm.len() == n
    &&& forall|k: int| 0 <= k < perm.len() ==> 0 <= #[trigger] perm[k] < n
    &&& perm.no_duplicates()
}

/// Whether `out` is `inp` reordered by `perm`, stably sorted by key: along
/// the output, (key, original position) strictly increases.
pub open spec fn sorted_by_perm(out: Seq<QueuedTask>, inp: Seq<QueuedTask>, perm: Seq<int>, now: u64) -> bool {
    &&& out.len() == perm.len()
    &&& forall|k: int| 0 <= k < out.len() ==> out[k] == inp[#[trigger] perm[k]]
    &&& forall|k: int, l: int| #![trigger perm[k], perm[l]]
        0 <= k < l < perm.len() ==> pair_lt(sort_key(inp[perm[k]], now), sort_key(inp[perm[l]], now))
            || (sort_key(inp[perm[k]], now) == sort_key(inp[perm[l]], now) && perm[k] < perm[l])
}

/// Whether `out` is a stable sort of `inp` by the starvation key at `now`.
pub open spec fn is_stable_sort(out: Seq<QueuedTask>, inp: Seq<QueuedTask>, now: u64) -> bool {
    exists|perm: Seq<int>| is_permutation(perm, inp.len()) && #[trigger] sorted_by_perm(out, inp, perm, now)
}

/// The dispatch order a profile gives a batch.
pub open spec fn ordered_as(profile: Profile, out: Seq<QueuedTask>, inp: Seq<QueuedTask>) -> bool {
    match profile {
        Profile::Interactive => if inp.len() == 0 {
            out == inp
        } else {
            is_stable_sort(out, inp, latest_stop(inp))
        },
        _ => out == inp,
    }
}

/// Decides the dispatch order of a batch of waiting tasks. Balanced,
/// performance and background keep arrival order; interactive puts starved
/// tasks first (longest wait first) and then the rest by shortest
/// `exec_runtime`, keeping arrival order among equals.
pub fn order_tasks(profile: Profile, tasks: Vec<QueuedTask>) -> (r: Vec<QueuedTask>)
    ensures
        ordered_as(profile, r@, tasks@),
{
    match profile {
        Profile::Balanced => tasks,
        Profile::Interactive => rescue_starved_tasks(tasks),
        Profile::Performance => tasks,
        Profile::Background => tasks,
    }
}

fn latest_stop_ts(tasks: &Vec<QueuedTask>) -> (r: u64)
    ensures
        r == latest_stop(tasks@),
{
    let n = tasks.len();
    let mut best: u64 = 0;
    let mut i: usize = 0;
    while i < n
        invariant
            n == tasks@.len(),
            i <= n,
            best == latest_stop(tasks@.take(i as int)),
        decreases n - i,
    {
        proof {
            assert(tasks@.take((i + 1) as int).drop_last() =~= tasks@.take(i as int));
        }
        if tasks[i].stop_ts > best {
            best = tasks[i].stop_ts;
        }
        i = i + 1;
    }
    proof {
        assert(tasks@.take(n as int) =~= tasks@);
    }
    best
}

fn task_key(t: &QueuedTask, now: u64) -> (r: (u64, u64))
    ensures
        r == sort_key(*t, now),
{
    let waited = now.saturating_sub(t.stop_ts);
    if waited >= STARVATION_THRESHOLD_NS {
        (0, u64::MAX - waited)
    } else {
        (1, t.exec_runtime)
    }
}

fn key_le(a: (u64, u64), b: (u64, u64)) -> (r: bool)
    ensures
        r == (pair_lt(a, b) || a == b),
{
    a.0 < b.0 || (a.0 == b.0 && a.1 <= b.1)
}

/// Sorts the batch so starved tasks come first, by descending wait, and
/// the rest by ascending `exec_runtime`; equal keys keep arrival order.
pub fn rescue_starved_tasks(tasks: Vec<QueuedTask>) -> (r: Vec<QueuedTask>)
    ensures
        tasks@.len() == 0 ==> r@ == tasks@,
        tasks@.len() > 0 ==> is_stable_sort(r@, tasks@, latest_stop(tasks@)),
{
    let n = tasks.len();
    if n == 0 {
        return tasks;
    }
    let now = latest_stop_ts(&tasks);
    let ghost inp = tasks@;
    let mut out: Vec<QueuedTask> = Vec::new();
    let mut keys: Vec<(u64, u64)> = Vec::new();
    let ghost mut perm: Seq<int> = Seq::empty();
    let mut i: usize = 0;
    while i < n
        invariant
            n == inp.len(),
            inp == tasks@,
            i <= n,
            perm.len() == i,
            keys@.len() == i,
            forall|k: int| 0 <= k < i ==> 0 <= #[trigger] perm[k] < i,
            perm.no_duplicates(),
            sorted_by_perm(out@, inp, perm, now),
            forall|k: int| 0 <= k < i ==> #[trigger] keys@[k] == sort_key(inp[perm[k]], now),
        decreases n - i,
    {
        let t = tasks[i];
        let k = task_key(&t, now);
        // position after every kept task whose key is not greater
        let mut p: usize = 0;
        while p < out.len() && key_le(keys[p], k)
            invariant
                p <= out@.len(),
                out@.len() == i,
                keys@.len() == i,
                forall|q: int| 0 <= q < p ==> #[trigger] pair_lt(keys@[q], k) || keys@[q] == k,
            decreases out@.len() - p,
        {
            p = p + 1;
        }
        proof {
            // every task after p has a greater key
            assert forall|q: int| p <= q < i implies pair_lt(k, #[trigger] keys@[q]) by {
                if q > p {
                    assert(pair_lt(keys@[p as int], keys@[q]) || keys@[p as int] == keys@[q]) by {
                        assert(perm[p as int] != perm[q]);
                    }
                }
            }
        }
        let ghost old_perm = perm;
        let ghost old_out = out@;
        out.insert(p, t);
        keys.insert(p, k);
        proof {
            perm = old_perm.insert(p as int, i as int);
            assert forall|a: int| 0 <= a < perm.len() implies out@[a] == inp[#[trigger] perm[a]] by {
                if a < p {
                } else if a == p {
                } else {
                    assert(perm[a] == old_perm[a - 1]);
                }
            }
            assert forall|a: int| 0 <= a < perm.len() implies 0 <= #[trigger] perm[a] < i + 1 by {
                if a < p {
                } else if a > p {
                    assert(perm[a] == old_perm[a - 1]);
                }
            }
            assert forall|a: int, b: int| 0 <= a < b < perm.len() implies perm[a] != perm[b] by {
                if a < p && b < p {
                } else if a < p && b == p {
                } else if a < p && b > p {
                    assert(perm[b] == old_perm[b - 1]);
                } else if a == p {
                    assert(perm[b] == old_perm[b - 1]);
                } else {
                    assert(perm[a] == old_perm[a - 1]);
                    assert(perm[b] == old_perm[b - 1]);
                }
            }
            assert(perm.no_duplicates());
            assert forall|a: int| 0 <= a < i + 1 implies #[trigger] keys@[a] == sort_key(inp[perm[a]], now) by {
                if a > p {
                    assert(perm[a] == old_perm[a - 1]);
                }
            }
            assert forall|a: int, b: int| #![trigger perm[a], perm[b]]
                0 <= a < b < perm.len() implies pair_lt(sort_key(inp[perm[a]], now), sort_key(inp[perm[b]], now))
                    || (sort_key(inp[perm[a]], now) == sort_key(inp[perm[b]], now) && perm[a] < perm[b]) by {
                assert(keys@[a] == sort_key(inp[perm[a]], now));
                assert(keys@[b] == sort_key(inp[perm[b]], now));
                if a < p && b < p {
                    assert(old_perm[a] == perm[a] && old_perm[b] == perm[b]);
                } else if a < p && b == p {
                } else if a < p && b > p {
                    assert(perm[b] == old_perm[b - 1]);
                    assert(old_perm[a] == perm[a]);
                } else if a == p {
                    assert(perm[b] == old_perm[b - 1]);
                } else {
                    assert(perm[a] == old_perm[a - 1]);
                    assert(perm[b] == old_perm[b - 1]);
                }
            }
        }
        i = i + 1;
    }
    proof {
        assert(is_permutation(perm, inp.len()));
        assert(sorted_by_perm(out@, inp, perm, now));
    }
    out
}

/// Balanced, performance and background dispatch in arrival order.
pub proof fn lemma_fifo_profiles(profile: Profile, out: Seq<QueuedTask>, inp: Seq<QueuedTask>)
    requires
        profile != Profile::Interactive,
        ordered_as(profile, out, inp),
    ensures
        out == inp,
{
}

/// What the interactive order promises of a batch: every task of the input
/// appears once in the output; every starved task precedes every task that is
/// not; starved tasks come by descending wait and the others by ascending
/// `exec_runtime`; and tasks with equal keys keep their input order.
pub proof fn lemma_starved_first(out: Seq<QueuedTask>, inp: Seq<QueuedTask>, now: u64)
    requires
        is_stable_sort(out, inp, now),
    ensures
        out.len() == inp.len(),
        forall|j: int| 0 <= j < inp.len() ==> out.contains(#[trigger] inp[j]),
        forall|k: int, l: int| #![trigger out[k], out[l]] 0 <= k < l < out.len() ==> {
            &&& (is_starved(out[l], now) ==> is_starved(out[k], now))
            &&& (is_starved(out[k], now) && is_starved(out[l], now)
                ==> sat_sub(now, out[k].stop_ts) >= sat_sub(now, out[l].stop_ts))
            &&& (!is_starved(out[k], now) && !is_starved(out[l], now)
                ==> out[k].exec_runtime <= out[l].exec_runtime)
        },
{
    let perm = choose|perm: Seq<int>| is_permutation(perm, inp.len()) && #[trigger] sorted_by_perm(out, inp, perm, now);
    assert forall|k: int, l: int| #![trigger out[k], out[l]] 0 <= k < l < out.len() implies {
        &&& (is_starved(out[l], now) ==> is_starved(out[k], now))
        &&& (is_starved(out[k], now) && is_starved(out[l], now)
            ==> sat_sub(now, out[k].stop_ts) >= sat_sub(now, out[l].stop_ts))
        &&& (!is_starved(out[k], now) && !is_starved(out[l], now)
            ==> out[k].exec_runtime <= out[l].exec_runtime)
    } by {
        assert(out[k] == inp[perm[k]]);
        assert(out[l] == inp[perm[l]]);
    }
    assert forall|j: int| 0 <= j < inp.len() implies out.contains(#[trigger] inp[j]) by {
        lemma_permutation_covers(perm, inp.len(), j);
        let k = choose|k: int| 0 <= k < perm.len() && perm[k] == j;
        assert(0 <= k < out.len());
        assert(out[k] == inp[perm[k]]);
        assert(out[k] == inp[j]);
    }
}

/// A permutation of the indices of a batch of `n` lists every index.
proof fn lemma_permutation_covers(perm: Seq<int>, n: nat, j: int)
    requires
        is_permutation(perm, n),
        0 <= j < n,
    ensures
        exists|k: int| 0 <= k < perm.len() && perm[k] == j,
{
    let range = vstd::set_lib::set_int_range(0, n as int);
    vstd::set_lib::lemma_int_range(0, n as int);
    perm.unique_seq_to_set();
    assert(perm.to_set().subset_of(range)) by {
        assert forall|x: int| perm.to_set().contains(x) implies range.contains(x) by {
            let k = choose|k: int| 0 <= k < perm.len() && perm[k] == x;
        }
    }
    vstd::set_lib::lemma_subset_equality(perm.to_set(), range);
    assert(range.contains(j));
    assert(perm.to_set().contains(j));
}

} // verus!
