use vstd::prelude::*;
use vstd::string::StrSliceExecFns;
use crate::usage::CpuUsage;

verus! {

/// One CPU sample: aggregate usage, the per-core readings in core order,
/// and the sensor temperature in millidegrees Celsius, absent whenever
/// the sensor could not be read or parsed.
#[derive(Debug)]
pub struct CpuInfo {
    pub usage: CpuUsage,
    pub core_count: usize,
    pub core_usages: Vec<CpuUsage>,
    pub temperature: Option<i64>,
}

/// The core count always matches the per-core list, and a present
/// temperature has a representable magnitude.
pub open spec fn cpu_wf(c: CpuInfo) -> bool {
    &&& c.core_usages@.len() == c.core_count
    &&& c.temperature is Some ==> c.temperature->0 > i64::MIN
}

impl CpuInfo {
    /// Packages one sample, deriving the core count from the list itself
    /// so the two can never disagree.
    pub fn new(usage: CpuUsage, core_usages: Vec<CpuUsage>, temperature: Option<i64>) -> (r:
        CpuInfo)
        requires
            temperature is Some ==> temperature->0 > i64::MIN,
        ensures
            r.usage == usage,
            r.core_usages == core_usages,
            r.core_count == core_usages@.len(),
            r.temperature == temperature,
            cpu_wf(r),
    {
        let core_count = core_usages.len();
        CpuInfo { usage, core_count, core_usages, temperature }
    }
}

/// ASCII whitespace as the sensor file may carry it around the number.
pub open spec fn is_ws(c: char) -> bool {
    c == ' ' || c == '\n' || c == '\t' || c == '\r'
}

/// `s` with leading and trailing whitespace removed.
pub open spec fn trim_spec(s: Seq<char>) -> Seq<char>
    decreases s.len(),
{
    if s.len() > 0 && is_ws(s[0]) {
        trim_spec(s.drop_first())
    } else if s.len() > 0 && is_ws(s.last()) {
        trim_spec(s.drop_last())
    } else {
        s
    }
}

pub open spec fn is_digit(c: char) -> bool {
    48 <= c as int <= 57
}

pub open spec fn all_digits(s: Seq<char>) -> bool {
    forall|i: int| 0 <= i < s.len() ==> is_digit(#[trigger] s[i])
}

/// The number the digit string denotes, most significant digit first.
pub open spec fn digits_val(s: Seq<char>) -> int
    decreases s.len(),
{
    if s.len() == 0 {
        0
    } else {
        digits_val(s.drop_last()) * 10 + (s.last() as int - 48)
    }
}

/// What a sensor reading parses to: the content trimmed of surrounding
/// whitespace must be an optional minus sign followed by one or more
/// decimal digits whose value fits a signed 64-bit count; anything else
/// is malformed and parses to nothing.
pub open spec fn parse_spec(s: Seq<char>) -> Option<i64> {
    let t = trim_spec(s);
    if t.len() > 0 && t[0] == '-' {
        let d = t.drop_first();
        if d.len() > 0 && all_digits(d) && digits_val(d) <= i64::MAX {
            Some((-digits_val(d)) as i64)
        } else {
            None
        }
    } else {
        if t.len() > 0 && all_digits(t) && digits_val(t) <= i64::MAX {
            Some(digits_val(t) as i64)
        } else {
            None
        }
    }
}

proof fn lemma_digits_nonneg(s: Seq<char>)
    requires
        all_digits(s),
    ensures
        digits_val(s) >= 0,
    decreases s.len(),
{
    if s.len() > 0 {
        assert(all_digits(s.drop_last())) by {
            assert(forall|i: int|
                0 <= i < s.len() - 1 ==> s.drop_last()[i] == #[trigger] s[i]);
        }
        lemma_digits_nonneg(s.drop_last());
    }
}

/// Appending digits never shrinks the value, so a prefix already too
/// large dooms the whole string.
proof fn lemma_digits_prefix_le(s: Seq<char>, i: int)
    requires
        all_digits(s),
        0 <= i <= s.len(),
    ensures
        digits_val(s.subrange(0, i)) <= digits_val(s),
    decreases s.len() - i,
{
    if i == s.len() {
        assert(s.subrange(0, i) =~= s);
    } else {
        lemma_digits_prefix_le(s, i + 1);
        let a = s.subrange(0, i);
        let b = s.subrange(0, i + 1);
        assert(b.drop_last() =~= a);
        assert(all_digits(a)) by {
            assert(forall|k: int| 0 <= k < a.len() ==> a[k] == #[trigger] s[k]);
        }
        lemma_digits_nonneg(a);
        assert(digits_val(b) == digits_val(a) * 10 + (s[i] as int - 48));
        assert(digits_val(a) * 10 >= digits_val(a)) by (nonlinear_arith)
            requires digits_val(a) >= 0;
    }
}

/// The trimmed string is exactly the range between the first and last
/// non-whitespace characters.
proof fn lemma_trim_range(s: Seq<char>, a: int, b: int)
    requires
        0 <= a <= b <= s.len(),
        forall|i: int| 0 <= i < a ==> is_ws(#[trigger] s[i]),
        forall|i: int| b <= i < s.len() ==> is_ws(#[trigger] s[i]),
        a == b || (!is_ws(s[a]) && !is_ws(s[b - 1])),
    ensures
        trim_spec(s) == s.subrange(a, b),
    decreases s.len(),
{
    if s.len() == 0 {
        assert(s.subrange(a, b) =~= s);
    } else if is_ws(s[0]) {
        let d = s.drop_first();
        if a > 0 {
            lemma_trim_range(d, a - 1, b - 1);
            assert(d.subrange(a - 1, b - 1) =~= s.subrange(a, b));
        } else {
            assert(a == b);
            lemma_trim_range(d, 0, 0);
            assert(d.subrange(0, 0) =~= s.subrange(a, b));
        }
    } else if is_ws(s.last()) {
        assert(b < s.len()) by {
            if b == s.len() {
                assert(a < b);
                assert(!is_ws(s[b - 1]));
            }
        }
        let d = s.drop_last();
        lemma_trim_range(d, a, b);
        assert(d.subrange(a, b) =~= s.subrange(a, b));
    } else {
        assert(a == 0);
        assert(b == s.len());
        assert(s.subrange(a, b) =~= s);
    }
}

fn is_ws_exec(c: char) -> (r: bool)
    ensures
        r == is_ws(c),
{
    c == ' ' || c == '\n' || c == '\t' || c == '\r'
}

/// Parses a temperature sensor reading in thousandths of a degree
/// Celsius. Surrounding whitespace is tolerated; any malformed content
/// yields nothing rather than an error.
#[verifier::loop_isolation(false)]
pub fn parse_millidegrees(s: &str) -> (r: Option<i64>)
    ensures
        r == parse_spec(s@),
{
    let n = s.unicode_len();
    let mut a: usize = 0;
    while a < n && is_ws_exec(s.get_char(a))
        invariant
            a <= n,
            n == s@.len(),
            forall|i: int| 0 <= i < a ==> is_ws(#[trigger] s@[i]),
        decreases n - a,
    {
        a = a + 1;
    }
    let mut b: usize = n;
    while b > a && is_ws_exec(s.get_char(b - 1))
        invariant
            a <= b <= n,
            n == s@.len(),
            forall|i: int| b <= i < n ==> is_ws(#[trigger] s@[i]),
        decreases b,
    {
        b = b - 1;
    }
    proof {
        lemma_trim_range(s@, a as int, b as int);
    }
    let ghost t = trim_spec(s@);
    if a == b {
        return None;
    }
    let neg = s.get_char(a) == '-';
    let d0 = if neg {
        a + 1
    } else {
        a
    };
    let ghost digits = s@.subrange(d0 as int, b as int);
    proof {
        assert(t.len() > 0);
        if neg {
            assert(t[0] == '-');
            assert(t.drop_first() =~= digits);
        } else {
            assert(t[0] != '-');
            assert(digits =~= t);
        }
    }
    if d0 == b {
        return None;
    }
    let mut acc: u64 = 0;
    let mut i = d0;
    while i < b
        invariant
            d0 <= i <= b,
            b <= n,
            n == s@.len(),
            digits == s@.subrange(d0 as int, b as int),
            d0 < b,
            acc <= 0x7fff_ffff_ffff_ffff,
            forall|k: int| d0 <= k < i ==> is_digit(#[trigger] s@[k]),
            acc as int == digits_val(s@.subrange(d0 as int, i as int)),
        decreases b - i,
    {
        let c = s.get_char(i);
        let ci = c as u32;
        if ci < 48 || ci > 57 {
            proof {
                assert(digits[i - d0] == s@[i as int]);
                assert(!all_digits(digits));
            }
            return None;
        }
        let d = (ci - 48) as u64;
        let ghost pre = s@.subrange(d0 as int, i as int);
        let ghost ext = s@.subrange(d0 as int, i as int + 1);
        proof {
            assert(ext.drop_last() =~= pre);
            assert(ext.last() == s@[i as int]);
            lemma_digits_nonneg_range(s@, d0 as int, i as int);
        }
        if acc > (0x7fff_ffff_ffff_ffffu64 - d) / 10 {
            proof {
                let m = 0x7fff_ffff_ffff_ffffu64 as int;
                assert(acc as int * 10 + d > m) by (nonlinear_arith)
                    requires
                        acc as int > (m - d) / 10,
                        0 <= d <= 9,
                        m == 0x7fff_ffff_ffff_ffff,
                        acc as int >= 0;
                if all_digits(digits) {
                    assert(digits_val(ext) > m);
                    assert(ext =~= digits.subrange(0, i - d0 + 1));
                    lemma_digits_prefix_le(digits, i - d0 + 1);
                }
            }
            return None;
        }
        proof {
            let m = 0x7fff_ffff_ffff_ffffu64 as int;
            assert(acc as int * 10 + d <= m) by (nonlinear_arith)
                requires
                    acc as int <= (m - d) / 10,
                    0 <= d <= 9,
                    m == 0x7fff_ffff_ffff_ffff,
                    acc as int >= 0;
        }
        acc = acc * 10 + d;
        i = i + 1;
    }
    proof {
        assert(digits =~= s@.subrange(d0 as int, i as int));
        assert(all_digits(digits));
        if neg {
            assert(t[0] == '-');
        } else {
            assert(!is_ws(t[0]) && t[0] != '-');
            assert(digits =~= t);
        }
    }
    if neg {
        Some(-(acc as i64))
    } else {
        Some(acc as i64)
    }
}

proof fn lemma_digits_nonneg_range(s: Seq<char>, lo: int, hi: int)
    requires
        0 <= lo <= hi <= s.len(),
        forall|k: int| lo <= k < hi ==> is_digit(#[trigger] s[k]),
    ensures
        digits_val(s.subrange(lo, hi)) >= 0,
{
    let sub = s.subrange(lo, hi);
    assert(all_digits(sub)) by {
        assert(forall|k: int| 0 <= k < sub.len() ==> sub[k] == #[trigger] s[k + lo]);
    }
    lemma_digits_nonneg(sub);
}

} // verus!
