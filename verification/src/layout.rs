use vstd::prelude::*;
use vstd::math::min;
use crate::settings::Settings;

verus! {

/// One rectangular screen region, in character cells.
#[derive(Clone, Copy, PartialEq, Eq, Structural, Debug)]
pub struct Region {
    pub x: u16,
    pub y: u16,
    pub width: u16,
    pub height: u16,
}

/// Heights granted to a list of requests from `avail` rows, front to back:
/// each request is clamped to what is still free, so nothing is ever
/// over-committed and no height is negative.
pub open spec fn alloc_from(reqs: Seq<int>, i: int, avail: int) -> Seq<int>
    decreases reqs.len() - i,
{
    if i < 0 || i >= reqs.len() {
        Seq::empty()
    } else {
        let g = min(reqs[i], avail);
        seq![g] + alloc_from(reqs, i + 1, avail - g)
    }
}

pub open spec fn sum_of(s: Seq<int>) -> int
    decreases s.len(),
{
    if s.len() == 0 {
        0
    } else {
        sum_of(s.drop_last()) + s.last()
    }
}

/// The panel height requests for one frame, in fixed panel order: CPU
/// total, temperature, per-core list, memory, disks (when shown), network
/// (when shown), processes. The process panel asks for everything left.
pub open spec fn panel_requests(
    total: int,
    core_count: int,
    disk_count: int,
    net_count: int,
    show_disk: bool,
    show_network: bool,
) -> Seq<int> {
    let base = seq![3int, 3int, core_count + 2, 3int];
    let with_disk = if show_disk {
        base.push(3 * disk_count + 2)
    } else {
        base
    };
    let with_net = if show_network {
        with_disk.push(2 * net_count + 2)
    } else {
        with_disk
    };
    with_net.push(total)
}

/// The region heights for one frame on a terminal `total` rows tall.
pub open spec fn layout_heights(
    total: int,
    core_count: int,
    disk_count: int,
    net_count: int,
    show_disk: bool,
    show_network: bool,
) -> Seq<int> {
    alloc_from(
        panel_requests(total, core_count, disk_count, net_count, show_disk, show_network),
        0,
        total,
    )
}

/// Clamped allocation never over-commits: the granted heights are
/// non-negative and sum to at most what was available.
pub proof fn lemma_alloc_fits(reqs: Seq<int>, i: int, avail: int)
    requires
        0 <= avail,
        forall|k: int| 0 <= k < reqs.len() ==> 0 <= #[trigger] reqs[k],
    ensures
        sum_of(alloc_from(reqs, i, avail)) <= avail,
        forall|k: int|
            0 <= k < alloc_from(reqs, i, avail).len() ==> 0 <= #[trigger] alloc_from(
                reqs,
                i,
                avail,
            )[k] <= avail,
    decreases reqs.len() - i,
{
    if i < 0 || i >= reqs.len() {
    } else {
        let g = min(reqs[i], avail);
        lemma_alloc_fits(reqs, i + 1, avail - g);
        let rest = alloc_from(reqs, i + 1, avail - g);
        lemma_sum_prepend(g, rest);
    }
}

/// The layout never over-commits: for every terminal height and every
/// combination of core, disk and interface counts, the region heights are
/// all non-negative and sum to at most the terminal height.
pub proof fn lemma_layout_fits(
    total: int,
    core_count: int,
    disk_count: int,
    net_count: int,
    show_disk: bool,
    show_network: bool,
)
    requires
        0 <= total,
        0 <= core_count,
        0 <= disk_count,
        0 <= net_count,
    ensures
        sum_of(layout_heights(total, core_count, disk_count, net_count, show_disk, show_network))
            <= total,
        forall|k: int|
            0 <= k < layout_heights(
                total,
                core_count,
                disk_count,
                net_count,
                show_disk,
                show_network,
            ).len() ==> 0 <= #[trigger] layout_heights(
                total,
                core_count,
                disk_count,
                net_count,
                show_disk,
                show_network,
            )[k] <= total,
{
    let reqs = panel_requests(total, core_count, disk_count, net_count, show_disk, show_network);
    assert(forall|k: int| 0 <= k < reqs.len() ==> 0 <= #[trigger] reqs[k]);
    lemma_alloc_fits(reqs, 0, total);
}

/// Clamped allocation answers every request.
pub proof fn lemma_alloc_len(reqs: Seq<int>, i: int, avail: int)
    requires
        0 <= i <= reqs.len(),
    ensures
        alloc_from(reqs, i, avail).len() == reqs.len() - i,
    decreases reqs.len() - i,
{
    if i < reqs.len() {
        let g = min(reqs[i], avail);
        lemma_alloc_len(reqs, i + 1, avail - g);
    }
}

/// Summing after prepending one element adds that element.
proof fn lemma_sum_prepend(g: int, s: Seq<int>)
    ensures
        sum_of(seq![g] + s) == g + sum_of(s),
    decreases s.len(),
{
    if s.len() == 0 {
        assert(seq![g] + s =~= seq![g]);
        assert(sum_of(seq![g]) == sum_of((seq![g]).drop_last()) + g);
        assert((seq![g]).drop_last() =~= Seq::<int>::empty());
    } else {
        assert((seq![g] + s).drop_last() =~= seq![g] + s.drop_last());
        lemma_sum_prepend(g, s.drop_last());
        assert((seq![g] + s).last() == s.last());
    }
}

/// The sum of a prefix grows by the next element.
proof fn lemma_sum_take_step(s: Seq<int>, i: int)
    requires
        0 <= i < s.len(),
    ensures
        sum_of(s.take(i + 1)) == sum_of(s.take(i)) + s[i],
{
    assert(s.take(i + 1).drop_last() =~= s.take(i));
    assert(s.take(i + 1).last() == s[i]);
}

/// Every region's height in the computed layout, in panel order; heights
/// sum to at most the terminal height (the process panel may collapse to
/// zero), regions stack top to bottom at the full terminal width.
pub fn compute_layout(
    width: u16,
    height: u16,
    core_count: usize,
    disk_count: usize,
    net_count: usize,
    settings: &Settings,
) -> (r: Vec<Region>)
    ensures
        ({
            let hs = layout_heights(
                height as int,
                core_count as int,
                disk_count as int,
                net_count as int,
                settings.show_disk,
                settings.show_network,
            );
            &&& r@.len() == hs.len()
            &&& r@.len() == 5 + (if settings.show_disk { 1int } else { 0int }) + (
            if settings.show_network {
                1int
            } else {
                0int
            })
            &&& forall|k: int|
                0 <= k < r@.len() ==> (#[trigger] r@[k]).height as int == hs[k] && r@[k].x == 0
                    && r@[k].width == width && r@[k].y as int == sum_of(hs.take(k))
            &&& sum_of(hs) <= height as int
        }),
{
    let ghost reqs = panel_requests(
        height as int,
        core_count as int,
        disk_count as int,
        net_count as int,
        settings.show_disk,
        settings.show_network,
    );
    let mut wants: Vec<u64> = Vec::new();
    wants.push(3);
    wants.push(3);
    let cc = core_count as u64;
    wants.push(if cc > 0xffff {
        0x10002
    } else {
        cc + 2
    });
    wants.push(3);
    if settings.show_disk {
        let dc = disk_count as u64;
        wants.push(if dc > 0xffff {
            0x30002
        } else {
            3 * dc + 2
        });
    }
    if settings.show_network {
        let nc = net_count as u64;
        wants.push(if nc > 0xffff {
            0x20002
        } else {
            2 * nc + 2
        });
    }
    wants.push(height as u64);
    proof {
        assert(wants@.len() == reqs.len());
        assert(forall|k: int|
            0 <= k < reqs.len() ==> 0 <= #[trigger] reqs[k] && (min(reqs[k], height as int) == min(
                wants@[k] as int,
                height as int,
            )));
        lemma_alloc_fits(reqs, 0, height as int);
        lemma_alloc_len(reqs, 0, height as int);
    }
    let ghost hs = alloc_from(reqs, 0, height as int);
    let mut r: Vec<Region> = Vec::new();
    let mut avail: u16 = height;
    let mut idx: usize = 0;
    while idx < wants.len()
        invariant
            idx <= wants.len(),
            wants@.len() == reqs.len(),
            r@.len() == idx,
            0 <= avail <= height,
            forall|k: int|
                0 <= k < reqs.len() ==> 0 <= #[trigger] reqs[k] && (min(reqs[k], height as int)
                    == min(wants@[k] as int, height as int)),
            hs == alloc_from(reqs, 0, height as int),
            hs.len() == reqs.len(),
            hs.take(idx as int) + alloc_from(reqs, idx as int, avail as int) == hs,
            avail as int == height as int - sum_of(hs.take(idx as int)),
            forall|k: int|
                0 <= k < idx ==> (#[trigger] r@[k]).height as int == hs[k] && r@[k].x == 0
                    && r@[k].width == width && r@[k].y as int == sum_of(hs.take(k)),
        decreases wants.len() - idx,
    {
        let w = wants[idx];
        let grant: u16 = if w >= avail as u64 {
            avail
        } else {
            w as u16
        };
        proof {
            assert(reqs[idx as int] >= 0);
            assert(min(reqs[idx as int], height as int) == min(wants@[idx as int] as int, height as int));
            assert(grant as int == min(reqs[idx as int], avail as int));
            let tail = alloc_from(reqs, idx as int, avail as int);
            assert(tail == seq![grant as int] + alloc_from(
                reqs,
                idx as int + 1,
                avail as int - grant,
            ));
            assert(hs.take(idx as int + 1) =~= hs.take(idx as int) + seq![grant as int]);
            assert(hs.take(idx as int + 1) + alloc_from(reqs, idx as int + 1, avail as int - grant)
                =~= hs);
            assert(hs[idx as int] == grant as int);
            lemma_sum_take_step(hs, idx as int);
        }
        let y: u16 = height - avail;
        r.push(Region { x: 0, y, width, height: grant });
        avail = avail - grant;
        idx = idx + 1;
    }
    proof {
        assert(hs.take(wants@.len() as int) =~= hs);
        assert(hs.len() == reqs.len());
    }
    r
}

} // verus!
