use vstd::prelude::*;
use vstd::seq_lib::{lemma_multiset_commutative, to_multiset_insert};
use crate::usage::{usage_le, cpu_usage_le, CpuUsage};

verus! {

/// One sampled process: identifier, display name, CPU usage reading and
/// resident memory in bytes.
#[derive(Debug)]
pub struct ProcessInfo {
    pub pid: u32,
    pub name: String,
    pub cpu_usage: CpuUsage,
    pub memory: u64,
}

/// Non-increasing CPU usage from front to back.
pub open spec fn sorted_desc(s: Seq<ProcessInfo>) -> bool {
    forall|i: int, j: int|
        0 <= i <= j < s.len() ==> usage_le(#[trigger] s[j].cpu_usage, #[trigger] s[i].cpu_usage)
}

/// Sorts processes by CPU usage, highest first, keeping the collection's
/// contents. Not-a-number readings sink to the end.
pub fn sort_processes_desc(v: &mut Vec<ProcessInfo>)
    ensures
        final(v)@.len() == old(v)@.len(),
        final(v)@.to_multiset() == old(v)@.to_multiset(),
        sorted_desc(final(v)@),
{
    broadcast use vstd::seq_lib::group_to_multiset_ensures;

    let ghost orig = v@;
    let mut i: usize = 1;
    while i < v.len()
        invariant
            1 <= i,
            v@.len() == orig.len(),
            v@.to_multiset() == orig.to_multiset(),
            sorted_desc(v@.subrange(0, vstd::math::min(i as int, v@.len() as int))),
        decreases v@.len() - i,
    {
        let ghost before = v@;
        let x = v.remove(i);
        let ghost mid = v@;
        proof {
            assert(mid.subrange(0, i as int) =~= before.subrange(0, i as int));
        }
        let mut j: usize = 0;
        while j < i && cpu_usage_le(&x.cpu_usage, &v[j].cpu_usage)
            invariant
                j <= i,
                i <= v@.len(),
                v@ == mid,
                forall|k: int| 0 <= k < j ==> usage_le(x.cpu_usage, #[trigger] v@[k].cpu_usage),
            decreases i - j,
    {
            j = j + 1;
        }
        v.insert(j, x);
        proof {
            to_multiset_insert(mid, j as int, x);
            before.to_multiset_ensures();
            assert(mid == before.remove(i as int));
            assert(mid.to_multiset() == before.to_multiset().remove(x));
            assert(before[i as int] == x);
            assert(before.contains(x));
            assert(before.to_multiset().count(x) > 0);
            assert(before.to_multiset().remove(x).insert(x) =~= before.to_multiset());
            assert(v@.to_multiset() == orig.to_multiset());
            let upto = vstd::math::min((i + 1) as int, v@.len() as int);
            assert(upto == i + 1);
            assert forall|a: int, b: int| 0 <= a <= b < i + 1 implies usage_le(
                #[trigger] v@.subrange(0, upto)[b].cpu_usage,
                #[trigger] v@.subrange(0, upto)[a].cpu_usage,
            ) by {
                let s = mid.subrange(0, i as int);
                assert(sorted_desc(s));
                let va = v@.subrange(0, upto)[a];
                let vb = v@.subrange(0, upto)[b];
                assert(v@ == mid.insert(j as int, x));
                if j < i {
                    assert(!usage_le(x.cpu_usage, mid[j as int].cpu_usage));
                    assert(usage_le(mid[j as int].cpu_usage, x.cpu_usage));
                }
                if a < j {
                    assert(va == mid[a]);
                } else if a == j {
                    assert(va == x);
                } else {
                    assert(va == mid[a - 1]);
                }
                if b < j {
                    assert(vb == mid[b]);
                } else if b == j {
                    assert(vb == x);
                } else {
                    assert(vb == mid[b - 1]);
                }
                if a < j && b > j {
                    assert(usage_le(mid[j as int].cpu_usage, mid[a].cpu_usage));
                    assert(usage_le(mid[b - 1].cpu_usage, mid[j as int].cpu_usage));
                }
            }
        }
        i = i + 1;
    }
    proof {
        assert(v@.subrange(0, vstd::math::min(i as int, v@.len() as int)) =~= v@);
    }
}

/// The `limit` highest-CPU processes of `processes`, highest first.
/// Every kept entry's usage is at or above every excluded entry's usage;
/// the order among entries of equal usage is not pinned down.
pub fn get_top_processes(processes: Vec<ProcessInfo>, limit: usize) -> (r: Vec<ProcessInfo>)
    ensures
        r@.len() == vstd::math::min(processes@.len() as int, limit as int),
        sorted_desc(r@),
        exists|s: Seq<ProcessInfo>|
            (#[trigger] s.to_multiset()) == processes@.to_multiset() && sorted_desc(s) && r@
                == s.subrange(0, r@.len() as int),
        forall|x: ProcessInfo|
            (#[trigger] processes@.to_multiset().count(x)) > r@.to_multiset().count(x)
                ==> forall|i: int|
                0 <= i < r@.len() ==> usage_le(x.cpu_usage, #[trigger] r@[i].cpu_usage),
{
    broadcast use vstd::seq_lib::group_to_multiset_ensures;

    let ghost orig = processes@;
    let mut v = processes;
    sort_processes_desc(&mut v);
    let ghost s = v@;
    v.truncate(limit);
    proof {
        let n = vstd::math::min(orig.len() as int, limit as int);
        assert(v@ == s.subrange(0, n));
        let dropped = s.subrange(n, s.len() as int);
        assert(s =~= s.subrange(0, n) + dropped);
        lemma_multiset_commutative(s.subrange(0, n), dropped);
        assert forall|x: ProcessInfo|
            (#[trigger] orig.to_multiset().count(x)) > v@.to_multiset().count(x) implies forall|
            i: int,
        |
            0 <= i < v@.len() ==> usage_le(x.cpu_usage, #[trigger] v@[i].cpu_usage) by {
            assert(s.to_multiset().count(x) == v@.to_multiset().count(x) + dropped.to_multiset().count(x));
            assert(dropped.to_multiset().count(x) > 0);
            assert(dropped.contains(x));
            let k = choose|k: int| 0 <= k < dropped.len() && dropped[k] == x;
            assert(s[n + k] == x);
            assert forall|i: int| 0 <= i < v@.len() implies usage_le(
                x.cpu_usage,
                #[trigger] v@[i].cpu_usage,
            ) by {
                assert(sorted_desc(s));
                assert(usage_le(s[n + k].cpu_usage, s[i].cpu_usage));
                assert(v@[i] == s[i]);
            }
        }
    }
    v
}

} // verus!
