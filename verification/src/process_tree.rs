//! Process-tree scanner: one snapshot of the OS process table, turned into
//! the set of all descendants of a given pid by a breadth-first traversal
//! over a parent-to-children index.

use std::collections::HashMap;
use vstd::prelude::*;
use vstd::set_lib::lemma_len_subset;

verus! {

broadcast use vstd::std_specs::hash::group_hash_axioms, vstd::seq_lib::seq_to_set_is_finite;

/// One process from a snapshot of the OS process table.
pub struct ProcessInfo {
    pub name: String,
    pub pid: u32,
    pub parent_pid: u32,
}

impl Clone for ProcessInfo {
    fn clone(&self) -> (r: Self)
        ensures
            r == *self,
    {
        ProcessInfo { name: self.name.clone(), pid: self.pid, parent_pid: self.parent_pid }
    }
}

/// The snapshot names each pid at most once, as a process table taken in one
/// OS call does.
pub open spec fn unique_pids(s: Seq<ProcessInfo>) -> bool {
    forall|i: int, j: int|
        0 <= i < j < s.len() ==> (#[trigger] s[i]).pid != (#[trigger] s[j]).pid
}

/// Pid `d` is a descendant of `root` by a parent chain of length at most
/// `k + 1` within snapshot `s`.
pub open spec fn descendant_within(s: Seq<ProcessInfo>, root: u32, d: u32, k: nat) -> bool
    decreases k,
{
    exists|i: int|
        0 <= i < s.len() && (#[trigger] s[i]).pid == d && d != root && (s[i].parent_pid == root || (
        k > 0 && descendant_within(s, root, s[i].parent_pid, (k - 1) as nat)))
}

/// Pid `d` is a strict descendant of `root` within snapshot `s`: some process
/// of the snapshot has pid `d`, and its chain of parent pids reaches `root`.
pub open spec fn descendant(s: Seq<ProcessInfo>, root: u32, d: u32) -> bool {
    exists|k: nat| descendant_within(s, root, d, k)
}

/// A child of `root` or of any descendant of `root` is itself a descendant.
proof fn lemma_descendant_step(s: Seq<ProcessInfo>, root: u32, ci: int)
    requires
        0 <= ci < s.len(),
        s[ci].pid != root,
        s[ci].parent_pid == root || descendant(s, root, s[ci].parent_pid),
    ensures
        descendant(s, root, s[ci].pid),
{
    if s[ci].parent_pid == root {
        assert(descendant_within(s, root, s[ci].pid, 0));
    } else {
        let k = choose|k: nat| descendant_within(s, root, s[ci].parent_pid, k);
        assert(descendant_within(s, root, s[ci].pid, k + 1));
    }
}

/// In a snapshot holding a chain `root -> A -> B` (A a child of `root`, B a
/// child of A), both A and B are descendants of `root`.
pub proof fn lemma_grandchild_is_descendant(s: Seq<ProcessInfo>, root: u32, a: int, b: int)
    requires
        0 <= a < s.len(),
        0 <= b < s.len(),
        s[a].parent_pid == root,
        s[a].pid != root,
        s[b].parent_pid == s[a].pid,
        s[b].pid != root,
    ensures
        descendant(s, root, s[a].pid),
        descendant(s, root, s[b].pid),
{
    assert(descendant_within(s, root, s[a].pid, 0));
    assert(descendant_within(s, root, s[b].pid, 1));
}

/// Builds the parent-to-children index of the snapshot: each process stands
/// in exactly the list keyed by its parent pid.
fn group_by_parent(procs: &Vec<ProcessInfo>) -> (m: HashMap<u32, Vec<ProcessInfo>>)
    requires
        unique_pids(procs@),
    ensures
        forall|k: u32, li: int|
            m@.contains_key(k) && 0 <= li < m@[k]@.len() ==> (#[trigger] m@[k]@[li]).parent_pid == k
                && procs@.contains(m@[k]@[li]),
        forall|j: int|
            0 <= j < procs@.len() ==> m@.contains_key((#[trigger] procs@[j]).parent_pid)
                && m@[procs@[j].parent_pid]@.contains(procs@[j]),
        forall|k: u32, a: int, b: int|
            m@.contains_key(k) && 0 <= a < b < m@[k]@.len() ==> (#[trigger] m@[k]@[a]).pid != (
            #[trigger] m@[k]@[b]).pid,
{
    let mut m: HashMap<u32, Vec<ProcessInfo>> = HashMap::new();
    let mut idx: usize = 0;
    while idx < procs.len()
        invariant
            unique_pids(procs@),
            idx <= procs@.len(),
            forall|k: u32, li: int|
                m@.contains_key(k) && 0 <= li < m@[k]@.len() ==> (
                #[trigger] m@[k]@[li]).parent_pid == k && exists|j: int|
                    0 <= j < idx && procs@[j] == m@[k]@[li],
            forall|j: int|
                0 <= j < idx ==> m@.contains_key((#[trigger] procs@[j]).parent_pid)
                    && m@[procs@[j].parent_pid]@.contains(procs@[j]),
            forall|k: u32, a: int, b: int|
                m@.contains_key(k) && 0 <= a < b < m@[k]@.len() ==> (#[trigger] m@[k]@[a]).pid != (
                #[trigger] m@[k]@[b]).pid,
        decreases procs@.len() - idx,
    {
        let p = &procs[idx];
        let ghost m0 = m@;
        let mut lst = match m.remove(&p.parent_pid) {
            Some(l) => l,
            None => Vec::new(),
        };
        let ghost lst0 = lst@;
        proof {
            if m0.contains_key(p.parent_pid) {
                assert(lst0 == m0[p.parent_pid]@);
            }
            // the new record's pid differs from every pid already in the list
            assert forall|li: int| 0 <= li < lst0.len() implies lst0[li].pid != p.pid by {
                if m0.contains_key(p.parent_pid) {
                    let j = choose|j: int| 0 <= j < idx && procs@[j] == lst0[li];
                    assert(procs@[j].pid != procs@[idx as int].pid);
                }
            }
        }
        lst.push(p.clone());
        m.insert(p.parent_pid, lst);
        proof {
            assert(m@[p.parent_pid]@ == lst0.push(*p));
            assert(forall|k: u32|
                k != p.parent_pid ==> (m@.contains_key(k) <==> m0.contains_key(k)));
            assert(forall|k: u32| k != p.parent_pid && m0.contains_key(k) ==> m@[k] == m0[k]);
            assert forall|j: int| 0 <= j < idx + 1 implies m@.contains_key(
                (#[trigger] procs@[j]).parent_pid,
            ) && m@[procs@[j].parent_pid]@.contains(procs@[j]) by {
                if procs@[j].parent_pid == p.parent_pid {
                    if j == idx {
                        assert(m@[p.parent_pid]@[lst0.len() as int] == *p);
                    } else {
                        assert(m0[p.parent_pid]@.contains(procs@[j]));
                        let li = choose|li: int|
                            0 <= li < lst0.len() && lst0[li] == procs@[j];
                        assert(m@[p.parent_pid]@[li] == procs@[j]);
                    }
                } else {
                    assert(j < idx);
                    assert(m@[procs@[j].parent_pid]@ == m0[procs@[j].parent_pid]@);
                }
            }
        }
        idx = idx + 1;
    }
    proof {
        assert forall|k: u32, li: int|
            m@.contains_key(k) && 0 <= li < m@[k]@.len() implies (
        #[trigger] m@[k]@[li]).parent_pid == k && procs@.contains(m@[k]@[li]) by {
            let j = choose|j: int| 0 <= j < procs@.len() && procs@[j] == m@[k]@[li];
            assert(procs@.contains(m@[k]@[li]));
        }
    }
    m
}

/// Pid `x` stands somewhere in the work queue.
spec fn queued(q: Seq<u32>, x: u32) -> bool {
    exists|b: int| 0 <= b < q.len() && q[b] == x
}

/// Some process of the snapshot has pid `x`.
spec fn pid_in_snapshot(s: Seq<ProcessInfo>, x: u32) -> bool {
    exists|ci: int| 0 <= ci < s.len() && (#[trigger] s[ci]).pid == x
}

/// Pid `k` was already expanded: it stands in the queue before `head`.
spec fn expanded_before(q: Seq<u32>, head: int, k: u32) -> bool {
    exists|a: int| 0 <= a < head && q[a] == k
}

/// Some process of the snapshot has parent pid `k`.
spec fn has_child(s: Seq<ProcessInfo>, k: u32) -> bool {
    exists|ci: int| 0 <= ci < s.len() && (#[trigger] s[ci]).parent_pid == k
}

/// A queue whose entries past the seed are pairwise-distinct pids of the
/// snapshot can never outgrow the snapshot by more than the seed.
proof fn lemma_queue_bound(s: Seq<ProcessInfo>, q: Seq<u32>)
    requires
        q.len() >= 1,
        forall|a: int| 1 <= a < q.len() ==> pid_in_snapshot(s, #[trigger] q[a]),
        forall|a: int, b: int| 1 <= a < b < q.len() ==> q[a] != q[b],
    ensures
        q.len() <= s.len() + 1,
{
    let q1 = q.skip(1);
    assert(q1.no_duplicates());
    q1.unique_seq_to_set();
    let pids = s.map_values(|p: ProcessInfo| p.pid);
    pids.lemma_cardinality_of_set();
    assert forall|x: u32| q1.to_set().contains(x) implies pids.to_set().contains(x) by {
        let a = choose|a: int| 0 <= a < q1.len() && q1[a] == x;
        assert(q[a + 1] == x);
        let ci = choose|ci: int| 0 <= ci < s.len() && (#[trigger] s[ci]).pid == x;
        assert(pids[ci] == x);
        assert(pids.contains(x));
    }
    lemma_len_subset(q1.to_set(), pids.to_set());
}

/// Once the whole work queue has been expanded, every descendant reachable in
/// `k + 1` parent steps stands in the output.
proof fn lemma_bfs_complete(
    s: Seq<ProcessInfo>,
    parent: u32,
    q: Seq<u32>,
    out: Seq<ProcessInfo>,
    d: u32,
    k: nat,
)
    requires
        q.len() >= 1,
        q[0] == parent,
        forall|a: int, ci: int|
            0 <= a < q.len() && 0 <= ci < s.len() && (#[trigger] s[ci]).parent_pid == #[trigger] q[a]
                ==> queued(q, s[ci].pid) && (s[ci].pid != parent ==> out.contains(s[ci])),
        forall|j: int| 0 <= j < out.len() ==> queued(q, (#[trigger] out[j]).pid),
        descendant_within(s, parent, d, k),
    ensures
        exists|i: int| 0 <= i < s.len() && (#[trigger] s[i]).pid == d && out.contains(s[i]),
    decreases k,
{
    let i = choose|i: int|
        0 <= i < s.len() && (#[trigger] s[i]).pid == d && d != parent && (s[i].parent_pid == parent
            || (k > 0 && descendant_within(s, parent, s[i].parent_pid, (k - 1) as nat)));
    if s[i].parent_pid == parent {
        assert(s[i].parent_pid == q[0]);
        assert(out.contains(s[i]));
    } else {
        lemma_bfs_complete(s, parent, q, out, s[i].parent_pid, (k - 1) as nat);
        let ip = choose|ip: int|
            0 <= ip < s.len() && (#[trigger] s[ip]).pid == s[i].parent_pid && out.contains(s[ip]);
        let j = choose|j: int| 0 <= j < out.len() && out[j] == s[ip];
        assert(queued(q, out[j].pid));
        let b = choose|b: int| 0 <= b < q.len() && q[b] == out[j].pid;
        assert(s[i].parent_pid == q[b]);
        assert(out.contains(s[i]));
    }
}

/// `r` holds exactly the descendants of `parent` within snapshot `s`: every
/// entry is a process of the snapshot and a strict descendant, every
/// descendant process of the snapshot appears, no pid repeats, `parent`
/// itself is never included, and the order is the traversal's: each entry's
/// parent is either `parent` itself or stands earlier in `r`.
pub open spec fn complete_children(s: Seq<ProcessInfo>, parent: u32, r: Seq<ProcessInfo>) -> bool {
    &&& forall|j: int| 0 <= j < r.len() ==> (#[trigger] r[j]).pid != parent
    &&& forall|j: int|
        0 <= j < r.len() ==> s.contains(#[trigger] r[j]) && descendant(s, parent, r[j].pid)
    &&& forall|i: int|
        0 <= i < s.len() && descendant(s, parent, (#[trigger] s[i]).pid) ==> r.contains(s[i])
    &&& forall|a: int, b: int|
        0 <= a < b < r.len() ==> (#[trigger] r[a]).pid != (#[trigger] r[b]).pid
    &&& forall|j: int|
        0 <= j < r.len() ==> (#[trigger] r[j]).parent_pid == parent || exists|e: int|
            0 <= e < j && r[e].pid == r[j].parent_pid
}

/// All descendants of `parent` in the snapshot: children, grandchildren and
/// so on, found by expanding a FIFO work queue seeded with `parent` over the
/// parent-to-children index, excluding `parent` itself. A pid named by no
/// process of the snapshot simply contributes nothing.
#[verifier::rlimit(100)]
pub fn children_of(parent: u32, procs: &Vec<ProcessInfo>) -> (r: Vec<ProcessInfo>)
    requires
        unique_pids(procs@),
    ensures
        complete_children(procs@, parent, r@),
{
    let ghost s = procs@;
    let mut m = group_by_parent(procs);
    let mut out: Vec<ProcessInfo> = Vec::new();
    let mut queue: Vec<u32> = Vec::new();
    queue.push(parent);
    let mut head: usize = 0;
    while head < queue.len()
        invariant
            unique_pids(s),
            s == procs@,
            head <= queue@.len(),
            queue@.len() >= 1,
            queue@.len() <= s.len() + 1,
            queue@[0] == parent,
            // queue entries past the seed are pids of the snapshot, pairwise distinct
            forall|a: int| 1 <= a < queue@.len() ==> pid_in_snapshot(s, #[trigger] queue@[a]),
            forall|a: int, b: int| 1 <= a < b < queue@.len() ==> queue@[a] != queue@[b],
            // every queue entry is the seed or a descendant
            forall|a: int|
                0 <= a < queue@.len() ==> #[trigger] queue@[a] == parent || descendant(
                    s,
                    parent,
                    queue@[a],
                ),
            // output soundness
            forall|j: int|
                0 <= j < out@.len() ==> s.contains(#[trigger] out@[j]) && out@[j].pid != parent
                    && descendant(s, parent, out@[j].pid),
            // every output pid is queued, and no output pid repeats
            forall|j: int| 0 <= j < out@.len() ==> queued(queue@, (#[trigger] out@[j]).pid),
            forall|a: int, b: int|
                0 <= a < b < out@.len() ==> (#[trigger] out@[a]).pid != (#[trigger] out@[b]).pid,
            // every queue entry is the seed or already has its record output
            forall|a: int|
                0 <= a < queue@.len() ==> #[trigger] queue@[a] == parent || exists|jo: int|
                    0 <= jo < out@.len() && out@[jo].pid == queue@[a],
            // each output entry's parent is the seed or stands earlier
            forall|j: int|
                0 <= j < out@.len() ==> (#[trigger] out@[j]).parent_pid == parent || exists|e: int|
                    0 <= e < j && out@[e].pid == out@[j].parent_pid,
            // index soundness: list entries are snapshot processes under their parent pid
            forall|k: u32, li: int|
                m@.contains_key(k) && 0 <= li < m@[k]@.len() ==> (
                #[trigger] m@[k]@[li]).parent_pid == k && s.contains(m@[k]@[li]),
            // index completeness: while a key is present its list is full
            forall|ci: int|
                0 <= ci < s.len() && m@.contains_key((#[trigger] s[ci]).parent_pid)
                    ==> m@[s[ci].parent_pid]@.contains(s[ci]),
            // index lists hold pairwise-distinct pids
            forall|k: u32, a: int, b: int|
                m@.contains_key(k) && 0 <= a < b < m@[k]@.len() ==> (#[trigger] m@[k]@[a]).pid != (
                #[trigger] m@[k]@[b]).pid,
            // expanded queue entries have left the index
            forall|a: int| 0 <= a < head ==> !m@.contains_key(#[trigger] queue@[a]),
            // children of expanded entries are queued, and output unless they are the seed
            forall|a: int, ci: int|
                0 <= a < head && 0 <= ci < s.len() && (#[trigger] s[ci]).parent_pid
                    == #[trigger] queue@[a] ==> queued(queue@, s[ci].pid) && (s[ci].pid != parent
                    ==> out@.contains(s[ci])),
            // a key gone from the index while children exist was expanded
            forall|k: u32|
                !(#[trigger] m@.contains_key(k)) && has_child(s, k) ==> expanded_before(
                    queue@,
                    head as int,
                    k,
                ),
            // nothing still in the index has been output or queued past the seed
            forall|k: u32, li: int|
                m@.contains_key(k) && 0 <= li < m@[k]@.len() ==> !out@.contains(
                    #[trigger] m@[k]@[li],
                ),
            forall|k: u32, li: int, a: int|
                m@.contains_key(k) && 0 <= li < m@[k]@.len() && 1 <= a < queue@.len() ==> (
                #[trigger] m@[k]@[li]).pid != #[trigger] queue@[a],
        decreases s.len() + 1 - head,
    {
        let pid = queue[head];
        let ghost m0 = m@;
        let ghost q0 = queue@;
        match m.remove(&pid) {
            Some(kids) => {
                proof {
                    assert(m0.contains_key(pid));
                    assert(kids@ == m0[pid]@);
                    assert(m@ == m0.remove(pid));
                }
                let mut j: usize = 0;
                while j < kids.len()
                    invariant
                        unique_pids(s),
                        s == procs@,
                        j <= kids@.len(),
                        head < queue@.len(),
                        queue@.len() >= 1,
                        queue@[0] == parent,
                        pid == queue@[head as int],
                        pid == parent || descendant(s, parent, pid),
                        !m@.contains_key(pid),
                        m@ == m0.remove(pid),
                        // facts about the removed children list
                        forall|li: int|
                            0 <= li < kids@.len() ==> (#[trigger] kids@[li]).parent_pid == pid
                                && s.contains(kids@[li]),
                        forall|a: int, b: int|
                            0 <= a < b < kids@.len() ==> (#[trigger] kids@[a]).pid != (
                            #[trigger] kids@[b]).pid,
                        forall|ci: int|
                            0 <= ci < s.len() && (#[trigger] s[ci]).parent_pid == pid
                                ==> kids@.contains(s[ci]),
                        // processed children are queued, and output unless the seed
                        forall|li: int|
                            0 <= li < j ==> queued(queue@, (#[trigger] kids@[li]).pid) && (
                            kids@[li].pid != parent ==> out@.contains(kids@[li])),
                        // unprocessed children are still fresh
                        forall|li: int|
                            j <= li < kids@.len() ==> !out@.contains(#[trigger] kids@[li]),
                        forall|li: int, a: int|
                            j <= li < kids@.len() && 1 <= a < queue@.len() ==> (
                            #[trigger] kids@[li]).pid != #[trigger] queue@[a],
                        // the outer invariants, carried through
                        forall|a: int|
                            1 <= a < queue@.len() ==> pid_in_snapshot(s, #[trigger] queue@[a]),
                        forall|a: int, b: int|
                            1 <= a < b < queue@.len() ==> queue@[a] != queue@[b],
                        forall|a: int|
                            0 <= a < queue@.len() ==> #[trigger] queue@[a] == parent || descendant(
                                s,
                                parent,
                                queue@[a],
                            ),
                        forall|jo: int|
                            0 <= jo < out@.len() ==> s.contains(#[trigger] out@[jo])
                                && out@[jo].pid != parent && descendant(s, parent, out@[jo].pid),
                        forall|jo: int|
                            0 <= jo < out@.len() ==> queued(queue@, (#[trigger] out@[jo]).pid),
                        forall|a: int, b: int|
                            0 <= a < b < out@.len() ==> (#[trigger] out@[a]).pid != (
                            #[trigger] out@[b]).pid,
                        forall|a: int|
                            0 <= a < queue@.len() ==> #[trigger] queue@[a] == parent || exists|jo: int|
                                0 <= jo < out@.len() && out@[jo].pid == queue@[a],
                        forall|jx: int|
                            0 <= jx < out@.len() ==> (#[trigger] out@[jx]).parent_pid == parent
                                || exists|e: int| 0 <= e < jx && out@[e].pid == out@[jx].parent_pid,
                        forall|k: u32, li: int|
                            m@.contains_key(k) && 0 <= li < m@[k]@.len() ==> (
                            #[trigger] m@[k]@[li]).parent_pid == k && s.contains(m@[k]@[li]),
                        forall|ci: int|
                            0 <= ci < s.len() && m@.contains_key((#[trigger] s[ci]).parent_pid)
                                ==> m@[s[ci].parent_pid]@.contains(s[ci]),
                        forall|k: u32, a: int, b: int|
                            m@.contains_key(k) && 0 <= a < b < m@[k]@.len() ==> (
                            #[trigger] m@[k]@[a]).pid != (#[trigger] m@[k]@[b]).pid,
                        forall|a: int| 0 <= a < head ==> !m@.contains_key(#[trigger] queue@[a]),
                        forall|a: int, ci: int|
                            0 <= a < head && 0 <= ci < s.len() && (#[trigger] s[ci]).parent_pid
                                == #[trigger] queue@[a] ==> queued(queue@, s[ci].pid) && (
                            s[ci].pid != parent ==> out@.contains(s[ci])),
                        forall|k: u32|
                            !(#[trigger] m@.contains_key(k)) && has_child(s, k) ==> expanded_before(
                                queue@,
                                head as int,
                                k,
                            ) || k == pid,
                        forall|k: u32, li: int|
                            m@.contains_key(k) && 0 <= li < m@[k]@.len() ==> !out@.contains(
                                #[trigger] m@[k]@[li],
                            ),
                        forall|k: u32, li: int, a: int|
                            m@.contains_key(k) && 0 <= li < m@[k]@.len() && 1 <= a < queue@.len()
                                ==> (#[trigger] m@[k]@[li]).pid != #[trigger] queue@[a],
                    decreases kids@.len() - j,
                {
                    let c = &kids[j];
                    let ghost ci = choose|ci: int| 0 <= ci < s.len() && s[ci] == kids@[j as int];
                    let ghost qa = queue@;
                    let ghost oa = out@;
                    proof {
                        if c.pid != parent {
                            lemma_descendant_step(s, parent, ci);
                        }
                        // a record of the snapshot equal in pid to `c` is `c` itself
                        assert forall|x: int|
                            0 <= x < out@.len() implies (#[trigger] out@[x]).pid != c.pid by {
                            if out@[x].pid == c.pid {
                                let cx = choose|cx: int| 0 <= cx < s.len() && s[cx] == out@[x];
                                assert(s[cx].pid == s[ci].pid);
                                assert(cx == ci);
                                assert(out@.contains(kids@[j as int]));
                            }
                        }
                    }
                    queue.push(c.pid);
                    if c.pid != parent {
                        out.push(c.clone());
                    }
                    proof {
                        assert(queue@ == qa.push(kids@[j as int].pid));
                        assert(s[ci].pid == queue@[queue@.len() - 1]);
                        assert(pid_in_snapshot(s, queue@[queue@.len() - 1]));
                        if c.pid != parent {
                            assert(out@ == oa.push(kids@[j as int]));
                        } else {
                            assert(out@ == oa);
                        }
                        // processed children, the new one included, are queued and output
                        assert forall|li: int| 0 <= li < j + 1 implies queued(
                            queue@,
                            (#[trigger] kids@[li]).pid,
                        ) && (kids@[li].pid != parent ==> out@.contains(kids@[li])) by {
                            if li == j {
                                assert(queue@[queue@.len() - 1] == kids@[li].pid);
                                if kids@[li].pid != parent {
                                    assert(out@[out@.len() - 1] == kids@[li]);
                                }
                            } else {
                                let b = choose|b: int|
                                    0 <= b < qa.len() && qa[b] == (#[trigger] kids@[li]).pid;
                                assert(queue@[b] == kids@[li].pid);
                                if kids@[li].pid != parent {
                                    let x = choose|x: int| 0 <= x < oa.len() && oa[x] == kids@[li];
                                    assert(out@[x] == kids@[li]);
                                }
                            }
                        }
                        // every output pid is still queued
                        assert forall|jo: int| 0 <= jo < out@.len() implies queued(
                            queue@,
                            (#[trigger] out@[jo]).pid,
                        ) by {
                            if jo < oa.len() {
                                let b = choose|b: int|
                                    0 <= b < qa.len() && qa[b] == (#[trigger] oa[jo]).pid;
                                assert(queue@[b] == out@[jo].pid);
                            } else {
                                assert(queue@[queue@.len() - 1] == out@[jo].pid);
                            }
                        }
                        // every queue entry keeps its record in the grown output
                        assert forall|a: int|
                            0 <= a < queue@.len() implies #[trigger] queue@[a] == parent || exists|jo: int|
                            0 <= jo < out@.len() && out@[jo].pid == queue@[a] by {
                            if a < qa.len() {
                                if qa[a] != parent {
                                    let jo = choose|jo: int|
                                        0 <= jo < oa.len() && oa[jo].pid == qa[a];
                                    assert(out@[jo].pid == queue@[a]);
                                }
                            } else {
                                if kids@[j as int].pid != parent {
                                    assert(out@[out@.len() - 1].pid == queue@[a]);
                                }
                            }
                        }
                        // each output entry's parent still is the seed or stands earlier
                        assert forall|jx: int|
                            0 <= jx < out@.len() implies (#[trigger] out@[jx]).parent_pid == parent
                            || exists|e: int|
                            0 <= e < jx && out@[e].pid == out@[jx].parent_pid by {
                            if jx < oa.len() {
                                if oa[jx].parent_pid != parent {
                                    let e = choose|e: int|
                                        0 <= e < jx && oa[e].pid == oa[jx].parent_pid;
                                    assert(out@[e].pid == out@[jx].parent_pid);
                                }
                            } else {
                                // the new entry's parent is the pid being expanded, whose
                                // own record already stands in the output unless it is
                                // the seed
                                assert(out@[jx].parent_pid == pid);
                                if pid != parent {
                                    assert(qa[head as int] == pid);
                                    let jo = choose|jo: int|
                                        0 <= jo < oa.len() && oa[jo].pid == pid;
                                    assert(out@[jo].pid == out@[jx].parent_pid);
                                }
                            }
                        }
                        // children of already expanded entries stay queued and output
                        assert forall|a: int, ci2: int|
                            0 <= a < head && 0 <= ci2 < s.len() && (#[trigger] s[ci2]).parent_pid
                                == #[trigger] queue@[a] implies queued(queue@, s[ci2].pid) && (
                        s[ci2].pid != parent ==> out@.contains(s[ci2])) by {
                            assert(queue@[a] == qa[a]);
                            let b = choose|b: int| 0 <= b < qa.len() && qa[b] == s[ci2].pid;
                            assert(queue@[b] == s[ci2].pid);
                            if s[ci2].pid != parent {
                                let x = choose|x: int| 0 <= x < oa.len() && oa[x] == s[ci2];
                                assert(out@[x] == s[ci2]);
                            }
                        }
                        // keys gone from the index stay expanded or are the current pid
                        assert forall|k: u32|
                            !(#[trigger] m@.contains_key(k)) && has_child(s, k) implies
                        expanded_before(queue@, head as int, k) || k == pid by {
                            if k != pid {
                                let a = choose|a: int| 0 <= a < head && qa[a] == k;
                                assert(queue@[a] == k);
                            }
                        }
                        // fresh entries in the index stay off the grown queue
                        assert forall|k: u32, li: int, a: int|
                            m@.contains_key(k) && 0 <= li < m@[k]@.len() && 1 <= a
                                < queue@.len() implies (#[trigger] m@[k]@[li]).pid
                            != #[trigger] queue@[a] by {
                            if a == queue@.len() - 1 && m@[k]@[li].pid == c.pid {
                                let cx = choose|cx: int| 0 <= cx < s.len() && s[cx] == m@[k]@[li];
                                assert(s[cx].pid == s[ci].pid);
                                assert(cx == ci);
                                assert(m@[k]@[li].parent_pid == k);
                                assert(k != pid);
                            }
                        }
                        // and off the grown output
                        assert forall|k: u32, li: int|
                            m@.contains_key(k) && 0 <= li < m@[k]@.len() implies !out@.contains(
                            #[trigger] m@[k]@[li],
                        ) by {
                            if out@.contains(m@[k]@[li]) {
                                let x = choose|x: int| 0 <= x < out@.len() && out@[x] == m@[k]@[li];
                                assert(x == out@.len() - 1);
                                assert(m@[k]@[li].parent_pid == k);
                                assert(k != pid);
                            }
                        }
                        // remaining unprocessed children stay off the grown queue
                        assert forall|li: int, a: int|
                            j + 1 <= li < kids@.len() && 1 <= a < queue@.len() implies (
                        #[trigger] kids@[li]).pid != #[trigger] queue@[a] by {
                            if a < qa.len() {
                                assert(queue@[a] == qa[a]);
                            } else {
                                assert(queue@[a] == kids@[j as int].pid);
                            }
                        }
                    }
                    j = j + 1;
                }
                proof {
                    // all children of `pid` are now queued and output
                    assert forall|ci2: int|
                        0 <= ci2 < s.len() && (#[trigger] s[ci2]).parent_pid == pid implies queued(
                        queue@,
                        s[ci2].pid,
                    ) && (s[ci2].pid != parent ==> out@.contains(s[ci2])) by {
                        assert(kids@.contains(s[ci2]));
                        let li = choose|li: int| 0 <= li < kids@.len() && kids@[li] == s[ci2];
                        assert(0 <= li < j);
                    }
                    // whatever was expanded or queued before is still so
                    assert forall|a: int, ci2: int|
                        0 <= a < head + 1 && 0 <= ci2 < s.len() && (#[trigger] s[ci2]).parent_pid
                            == #[trigger] queue@[a] implies queued(queue@, s[ci2].pid) && (
                    s[ci2].pid != parent ==> out@.contains(s[ci2])) by {
                        if a == head {
                            assert(queue@[a] == pid);
                        }
                    }
                    assert forall|k: u32|
                        !(#[trigger] m@.contains_key(k)) && has_child(s, k) implies expanded_before(
                        queue@,
                        head + 1,
                        k,
                    ) by {
                        if k == pid {
                            assert(queue@[head as int] == k);
                        } else {
                            let a = choose|a: int| 0 <= a < head && queue@[a] == k;
                        }
                    }
                }
            },
            None => {
                proof {
                    assert(!m0.contains_key(pid));
                    assert(m@ == m0);
                    assert forall|ci2: int|
                        0 <= ci2 < s.len() && (#[trigger] s[ci2]).parent_pid == pid implies queued(
                        queue@,
                        s[ci2].pid,
                    ) && (s[ci2].pid != parent ==> out@.contains(s[ci2])) by {
                        assert(has_child(s, pid));
                        let a = choose|a: int| 0 <= a < head && queue@[a] == pid;
                        assert(s[ci2].parent_pid == queue@[a]);
                    }
                    assert forall|a: int, ci2: int|
                        0 <= a < head + 1 && 0 <= ci2 < s.len() && (#[trigger] s[ci2]).parent_pid
                            == #[trigger] queue@[a] implies queued(queue@, s[ci2].pid) && (
                    s[ci2].pid != parent ==> out@.contains(s[ci2])) by {
                        if a == head {
                            assert(queue@[a] == pid);
                        }
                    }
                    assert forall|k: u32|
                        !(#[trigger] m@.contains_key(k)) && has_child(s, k) implies expanded_before(
                        queue@,
                        head + 1,
                        k,
                    ) by {
                        let a = choose|a: int| 0 <= a < head && queue@[a] == k;
                    }
                }
            },
        }
        head = head + 1;
        proof {
            lemma_queue_bound(s, queue@);
        }
    }
    proof {
        assert forall|i: int|
            0 <= i < s.len() && descendant(s, parent, (#[trigger] s[i]).pid) implies out@.contains(
            s[i],
        ) by {
            let k = choose|k: nat| descendant_within(s, parent, s[i].pid, k);
            lemma_bfs_complete(s, parent, queue@, out@, s[i].pid, k);
            let ip = choose|ip: int|
                0 <= ip < s.len() && (#[trigger] s[ip]).pid == s[i].pid && out@.contains(s[ip]);
            assert(ip == i);
        }
    }
    out
}

/// The OS process enumeration could not be taken. The sysinfo backend in
/// use never reports this — an unreadable table comes back empty — so the
/// variant exists for the scanner's interface, not for any current input.
#[derive(Clone, Copy, Debug, PartialEq, Eq, Structural)]
pub enum ScanError {
    EnumerationFailed,
}

/// Relies on sysinfo's `System::refresh_processes` and `System::processes`:
/// one snapshot of the OS process table. The table is keyed by pid, so no
/// pid repeats (pids are assumed to fit in 32 bits, as the OS hands them
/// out). A process with no recorded parent is reported with parent pid 0.
/// This backend surfaces an unreadable table as an empty one, so the error
/// arm is never taken.
#[verifier::external_body]
fn list_processes() -> (r: Result<Vec<ProcessInfo>, ScanError>)
    ensures
        r matches Ok(procs) ==> unique_pids(procs@),
{
    let mut sys = sysinfo::System::new();
    sys.refresh_processes(sysinfo::ProcessesToUpdate::All, true);
    let mut procs = Vec::new();
    for (pid, p) in sys.processes() {
        procs.push(ProcessInfo {
            name: p.name().to_string_lossy().into_owned(),
            pid: pid.as_u32(),
            parent_pid: p.parent().map(sysinfo::Pid::as_u32).unwrap_or(0),
        });
    }
    Ok(procs)
}

/// Returns the descendants of `parent` among the processes running now:
/// one snapshot of the process table, traversed by [`children_of`]. `parent`
/// itself is never among them, and no pid is reported twice.
pub fn get_children(parent: u32) -> (r: Result<Vec<ProcessInfo>, ScanError>)
    ensures
        r matches Ok(cs) ==> exists|snap: Seq<ProcessInfo>|
            unique_pids(snap) && complete_children(snap, parent, cs@),
        r matches Ok(cs) ==> forall|j: int| 0 <= j < cs@.len() ==> (#[trigger] cs@[j]).pid != parent,
{
    let procs = match list_processes() {
        Ok(p) => p,
        Err(e) => {
            return Err(e);
        },
    };
    let cs = children_of(parent, &procs);
    Ok(cs)
}

} // verus!
