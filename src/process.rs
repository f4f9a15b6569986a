//! Process samples and their ranking by memory use.

use vstd::prelude::*;
use crate::memory::{Gibibytes, MemoryData, gib_of, lemma_order_key_iff_bytes};

verus! {

/// One process: its name, its memory in gibibytes and its id as text.
#[derive(Debug)]
pub struct ProcessData {
    pub name: String,
    pub memory: Gibibytes,
    pub pid: String,
}

/// The name a process gets when the operating system's name cannot be decoded.
pub open spec fn unknown_name() -> Seq<char> {
    "Unknown"@
}

/// The name kept for a process: the decoded one, else `"Unknown"`.
pub open spec fn name_or_unknown(name: Option<String>) -> Seq<char> {
    match name {
        Some(n) => n@,
        None => unknown_name(),
    }
}

impl ProcessData {
    /// Builds the sample of one process from its decoded name (if any), its
    /// memory use in bytes and its id.
    pub fn new(name: Option<String>, memory: u64, pid: String) -> (r: ProcessData)
        ensures
            r.name@ == name_or_unknown(name),
            r.memory == gib_of(memory),
            r.pid == pid,
    {
        let name = match name {
            Some(n) => n,
            None => unknown_string(),
        };
        ProcessData { name, memory: MemoryData::format_memory(memory), pid }
    }

    /// A field-by-field copy.
    pub fn duplicate(&self) -> (r: ProcessData)
        ensures
            r == *self,
    {
        ProcessData { name: self.name.clone(), memory: self.memory, pid: self.pid.clone() }
    }
}

/// `"Unknown"` as an owned string.
pub fn unknown_string() -> (r: String)
    ensures
        r@ == unknown_name(),
{
    let r = "Unknown".to_owned();
    proof {
        reveal_strlit("Unknown");
    }
    r
}

/// The key processes are ranked by: it orders as their memory amounts do.
pub open spec fn mem_key(p: ProcessData) -> int {
    p.memory.order_key()
}

/// The memory keys of a sequence of processes.
pub open spec fn keys_of(v: Seq<ProcessData>) -> Seq<int> {
    v.map_values(|p: ProcessData| mem_key(p))
}

/// Position `a` comes before position `b`: more memory first, and on equal
/// memory the earlier position first.
pub open spec fn ranks_first(keys: Seq<int>, a: int, b: int) -> bool {
    keys[a] > keys[b] || (keys[a] == keys[b] && a < b)
}

/// `order` lists every position of `keys` once, by descending key, equal keys
/// in the order they were given.
pub open spec fn is_memory_order(keys: Seq<int>, order: Seq<usize>) -> bool {
    &&& order.len() == keys.len()
    &&& forall|k: int| 0 <= k < order.len() ==> order[k] < keys.len()
    &&& forall|a: int, b: int|
        0 <= a < b < order.len() ==> ranks_first(keys, order[a] as int, order[b] as int)
}

/// `r` is `v` rearranged by `order`.
pub open spec fn arranged_by(v: Seq<ProcessData>, order: Seq<usize>, r: Seq<ProcessData>) -> bool {
    &&& r.len() == order.len()
    &&& forall|k: int| 0 <= k < r.len() ==> r[k] == v[order[k] as int]
}

/// `r` is the stable descending sort of `v` by memory use.
pub open spec fn is_sorted_by_memory(v: Seq<ProcessData>, r: Seq<ProcessData>) -> bool {
    exists|order: Seq<usize>| is_memory_order(keys_of(v), order) && arranged_by(v, order, r)
}

/// The order of the positions of `v` by descending memory, ties in input order.
pub fn memory_order(v: &Vec<ProcessData>) -> (order: Vec<usize>)
    ensures
        is_memory_order(keys_of(v@), order@),
{
    let ghost keys = keys_of(v@);
    let mut order: Vec<usize> = Vec::new();
    let n = v.len();
    let mut i: usize = 0;
    while i < n
        invariant
            n == v.len(),
            keys == keys_of(v@),
            0 <= i <= n,
            order@.len() == i,
            forall|k: int| 0 <= k < order@.len() ==> order@[k] < i,
            forall|a: int, b: int|
                0 <= a < b < order@.len() ==> ranks_first(keys, order@[a] as int, order@[b] as int),
        decreases n - i,
    {
        let mut p: usize = 0;
        while p < order.len() && v[order[p]].memory.at_least(&v[i].memory)
            invariant
                n == v.len(),
                keys == keys_of(v@),
                i < n,
                order@.len() == i,
                forall|k: int| 0 <= k < order@.len() ==> order@[k] < i,
                0 <= p <= order@.len(),
                forall|q: int| 0 <= q < p ==> keys[order@[q] as int] >= keys[i as int],
            decreases order@.len() - p,
        {
            p = p + 1;
        }
        let ghost old_order = order@;
        order.insert(p, i);
        proof {
            assert forall|a: int, b: int|
                0 <= a < b < order@.len() implies ranks_first(keys, order@[a] as int, order@[b] as int) by {
                if a < p && b == p {
                } else if a == p && b > p {
                    assert(ranks_first(keys, old_order[p as int] as int, old_order[b - 1] as int)
                        || b - 1 == p);
                } else {
                }
            }
        }
        i = i + 1;
    }
    order
}

/// Sorts processes by descending memory use; processes with equal memory keep
/// their relative order.
pub fn sort_by_memory(v: &Vec<ProcessData>) -> (r: Vec<ProcessData>)
    ensures
        is_sorted_by_memory(v@, r@),
        r@.len() == v@.len(),
        forall|k: int| 0 <= k < r@.len() - 1 ==> mem_key(r@[k]) >= mem_key(#[trigger] r@[k + 1]),
{
    let order = memory_order(v);
    let mut r: Vec<ProcessData> = Vec::new();
    let mut k: usize = 0;
    while k < order.len()
        invariant
            is_memory_order(keys_of(v@), order@),
            0 <= k <= order@.len(),
            r@.len() == k,
            forall|j: int| 0 <= j < k ==> r@[j] == v@[order@[j] as int],
        decreases order@.len() - k,
    {
        r.push(v[order[k]].duplicate());
        k = k + 1;
    }
    proof {
        assert(arranged_by(v@, order@, r@));
        assert forall|k: int| 0 <= k < r@.len() - 1 implies mem_key(r@[k]) >= mem_key(#[trigger] r@[k + 1]) by {
            assert(ranks_first(keys_of(v@), order@[k] as int, order@[k + 1] as int));
        }
    }
    r
}

/// Processes whose memory amounts are in normal form.
pub open spec fn all_wf(v: Seq<ProcessData>) -> bool {
    forall|k: int| 0 <= k < v.len() ==> (#[trigger] v[k]).memory.wf()
}

/// After the sort, each process uses at least as many bytes as the next one.
pub proof fn lemma_sorted_descending(v: Seq<ProcessData>, r: Seq<ProcessData>)
    requires
        all_wf(v),
        is_sorted_by_memory(v, r),
    ensures
        forall|k: int| 0 <= k < r.len() - 1 ==> r[k].memory.bytes() >= (#[trigger] r[k + 1]).memory.bytes(),
{
    let order = choose|order: Seq<usize>| is_memory_order(keys_of(v), order) && arranged_by(v, order, r);
    assert forall|k: int| 0 <= k < r.len() - 1 implies r[k].memory.bytes() >= (#[trigger] r[k + 1]).memory.bytes() by {
        assert(ranks_first(keys_of(v), order[k] as int, order[k + 1] as int));
        lemma_order_key_iff_bytes(r[k + 1].memory, r[k].memory);
    }
}

/// The sort is stable: two processes with equal memory come out in the order
/// they went in.
pub proof fn lemma_sort_is_stable(v: Seq<ProcessData>, r: Seq<ProcessData>, a: int, b: int)
    requires
        is_sorted_by_memory(v, r),
        0 <= a < b < r.len(),
        mem_key(r[a]) == mem_key(r[b]),
    ensures
        exists|i: int, j: int| 0 <= i < j < v.len() && v[i] == r[a] && v[j] == r[b],
{
    let order = choose|order: Seq<usize>| is_memory_order(keys_of(v), order) && arranged_by(v, order, r);
    assert(ranks_first(keys_of(v), order[a] as int, order[b] as int));
    let i = order[a] as int;
    let j = order[b] as int;
    assert(0 <= i < j < v.len() && v[i] == r[a] && v[j] == r[b]);
}

} // verus!
