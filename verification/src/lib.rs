//! A terminal system-monitor core: typed metric snapshots, top-N process
//! ranking, panel layout, and text rendering, with verified contracts.

pub mod control;
pub mod cpu;
pub mod disk;
pub mod frame;
pub mod layout;
pub mod memory;
pub mod network;
pub mod process;
pub mod render;
pub mod settings;
pub mod sysquery;
pub mod textfmt;
pub mod usage;

use vstd::prelude::*;

verus! {

/// Whole-number usage percentage of a used/total pair, truncated toward
/// zero. A zero total yields zero rather than a division error, and a
/// used figure above the total saturates at one hundred.
pub open spec fn percent_of(used: int, total: int) -> int {
    if total == 0 {
        0
    } else if used <= total {
        (used * 100) / total
    } else {
        100
    }
}

pub fn usage_percent(used: u64, total: u64) -> (r: u16)
    ensures
        r as int == percent_of(used as int, total as int),
        r <= 100,
{
    if total == 0 {
        0
    } else if used > total {
        100
    } else {
        let p: u128 = (used as u128) * 100 / (total as u128);
        proof {
            let u = used as int;
            let t = total as int;
            assert(u * 100 <= t * 100) by (nonlinear_arith)
                requires u <= t;
            vstd::arithmetic::div_mod::lemma_div_is_ordered(u * 100, t * 100, t);
            assert(t * 100 / t == 100) by (nonlinear_arith)
                requires t > 0;
        }
        p as u16
    }
}

} // verus!
