use vstd::prelude::*;
use crate::textfmt::{dec_fixed1, fixed1_spec};

verus! {

/// A CPU usage reading in tenths of a percent, or the explicit
/// not-a-number reading a degenerate provider can report.
#[derive(Clone, Copy, PartialEq, Eq, Structural, Debug)]
pub enum CpuUsage {
    NotANumber,
    Tenths(u32),
}

/// Total order on usage readings: a not-a-number reading ranks below every
/// numeric one, so ranking by usage never fails on degenerate input.
pub open spec fn usage_le(a: CpuUsage, b: CpuUsage) -> bool {
    match (a, b) {
        (CpuUsage::NotANumber, _) => true,
        (CpuUsage::Tenths(x), CpuUsage::Tenths(y)) => x <= y,
        (CpuUsage::Tenths(_), CpuUsage::NotANumber) => false,
    }
}

/// The explicit comparator behind every usage ranking: `a` at or below `b`.
pub fn cpu_usage_le(a: &CpuUsage, b: &CpuUsage) -> (r: bool)
    ensures
        r == usage_le(*a, *b),
{
    match (a, b) {
        (CpuUsage::NotANumber, _) => true,
        (CpuUsage::Tenths(x), CpuUsage::Tenths(y)) => *x <= *y,
        (CpuUsage::Tenths(_), CpuUsage::NotANumber) => false,
    }
}

/// The whole-percent part of a reading, as a gauge widget takes it;
/// a not-a-number reading counts as zero and huge readings saturate.
pub open spec fn whole_percent(u: CpuUsage) -> u16 {
    match u {
        CpuUsage::NotANumber => 0u16,
        CpuUsage::Tenths(t) => if t / 10 > 0xffff {
            0xffffu16
        } else {
            (t / 10) as u16
        },
    }
}

pub fn usage_whole_percent(u: &CpuUsage) -> (r: u16)
    ensures
        r == whole_percent(*u),
{
    match u {
        CpuUsage::NotANumber => 0,
        CpuUsage::Tenths(t) => {
            let p = *t / 10;
            if p > 0xffff {
                0xffff
            } else {
                p as u16
            }
        },
    }
}

/// A usage reading rendered with one decimal place, "NaN" when not a number.
pub open spec fn usage_text(u: CpuUsage) -> Seq<char> {
    match u {
        CpuUsage::NotANumber => "NaN"@,
        CpuUsage::Tenths(t) => fixed1_spec(t as nat),
    }
}

pub fn usage_label(u: &CpuUsage) -> (r: String)
    ensures
        r@ == usage_text(*u),
{
    match u {
        CpuUsage::NotANumber => "NaN".to_owned(),
        CpuUsage::Tenths(t) => dec_fixed1(*t as u64),
    }
}

} // verus!
