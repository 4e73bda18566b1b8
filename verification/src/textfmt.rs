use vstd::prelude::*;
use vstd::string::StrSliceExecFns;
use vstd::string::StringExecFns;

verus! {

/// Decimal digits of `n`, most significant first.
pub open spec fn dec_spec(n: nat) -> Seq<char>
    decreases n,
{
    if n < 10 {
        digit_seq(n)
    } else {
        dec_spec(n / 10) + digit_seq(n % 10)
    }
}

/// The single decimal digit `d` as a one-character sequence.
pub open spec fn digit_seq(d: nat) -> Seq<char> {
    if d == 0 {
        "0"@
    } else if d == 1 {
        "1"@
    } else if d == 2 {
        "2"@
    } else if d == 3 {
        "3"@
    } else if d == 4 {
        "4"@
    } else if d == 5 {
        "5"@
    } else if d == 6 {
        "6"@
    } else if d == 7 {
        "7"@
    } else if d == 8 {
        "8"@
    } else {
        "9"@
    }
}

fn digit_str(d: u64) -> (r: &'static str)
    requires
        d < 10,
    ensures
        r@ == digit_seq(d as nat),
{
    if d == 0 {
        "0"
    } else if d == 1 {
        "1"
    } else if d == 2 {
        "2"
    } else if d == 3 {
        "3"
    } else if d == 4 {
        "4"
    } else if d == 5 {
        "5"
    } else if d == 6 {
        "6"
    } else if d == 7 {
        "7"
    } else if d == 8 {
        "8"
    } else {
        "9"
    }
}

/// Renders `n` in decimal, without sign or padding.
pub fn dec_u64(n: u64) -> (r: String)
    ensures
        r@ == dec_spec(n as nat),
    decreases n,
{
    if n < 10 {
        digit_str(n).to_owned()
    } else {
        let mut s = dec_u64(n / 10);
        s.append(digit_str(n % 10));
        s
    }
}

/// `unit` repeated `n` times.
pub open spec fn rep_seq(unit: Seq<char>, n: nat) -> Seq<char>
    decreases n,
{
    if n == 0 {
        Seq::empty()
    } else {
        rep_seq(unit, (n - 1) as nat) + unit
    }
}

/// `s` left-padded with spaces to `width` characters; unchanged if already
/// that wide.
pub open spec fn pad_left_seq(s: Seq<char>, width: int) -> Seq<char> {
    if s.len() >= width {
        s
    } else {
        rep_seq(" "@, (width - s.len()) as nat) + s
    }
}

/// `s` right-padded with spaces to `width` characters.
pub open spec fn pad_right_seq(s: Seq<char>, width: int) -> Seq<char> {
    if s.len() >= width {
        s
    } else {
        s + rep_seq(" "@, (width - s.len()) as nat)
    }
}

/// `unit` repeated `n` times as an owned string.
pub fn rep_str(unit: &str, n: usize) -> (r: String)
    ensures
        r@ == rep_seq(unit@, n as nat),
{
    let mut s = String::new();
    let mut i: usize = 0;
    while i < n
        invariant
            i <= n,
            s@ == rep_seq(unit@, i as nat),
        decreases n - i,
    {
        s.append(unit);
        i = i + 1;
    }
    s
}

fn spaces(n: usize) -> (r: String)
    ensures
        r@ == rep_seq(" "@, n as nat),
{
    rep_str(" ", n)
}

pub fn pad_left(s: &str, width: usize) -> (r: String)
    ensures
        r@ == pad_left_seq(s@, width as int),
{
    let n = s.unicode_len();
    if n >= width {
        s.to_owned()
    } else {
        let mut p = spaces(width - n);
        p.append(s);
        p
    }
}

pub fn pad_right(s: &str, width: usize) -> (r: String)
    ensures
        r@ == pad_right_seq(s@, width as int),
{
    let n = s.unicode_len();
    if n >= width {
        s.to_owned()
    } else {
        let mut p = s.to_owned();
        let sp = spaces(width - n);
        p.append(sp.as_str());
        p
    }
}

/// A tenths count rendered with one decimal place: 425 becomes "42.5".
pub open spec fn fixed1_spec(tenths: nat) -> Seq<char> {
    dec_spec(tenths / 10) + "."@ + digit_seq(tenths % 10)
}

pub fn dec_fixed1(tenths: u64) -> (r: String)
    ensures
        r@ == fixed1_spec(tenths as nat),
{
    let mut s = dec_u64(tenths / 10);
    s.append(".");
    s.append(digit_str(tenths % 10));
    s
}

/// A hundredths count rendered with two decimal places: 1250 becomes "12.50".
pub open spec fn fixed2_spec(hundredths: nat) -> Seq<char> {
    dec_spec(hundredths / 100) + "."@ + digit_seq((hundredths % 100) / 10) + digit_seq(
        hundredths % 10,
    )
}

pub fn dec_fixed2(hundredths: u64) -> (r: String)
    ensures
        r@ == fixed2_spec(hundredths as nat),
{
    let mut s = dec_u64(hundredths / 100);
    s.append(".");
    s.append(digit_str(hundredths % 100 / 10));
    s.append(digit_str(hundredths % 10));
    s
}

} // verus!
