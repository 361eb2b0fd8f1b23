//! Human-readable byte sizes.

use vstd::prelude::*;
use vstd::string::*;

verus! {

/// The character of one decimal digit.
pub open spec fn digit_char(d: nat) -> char {
    if d == 0 { '0' }
    else if d == 1 { '1' }
    else if d == 2 { '2' }
    else if d == 3 { '3' }
    else if d == 4 { '4' }
    else if d == 5 { '5' }
    else if d == 6 { '6' }
    else if d == 7 { '7' }
    else if d == 8 { '8' }
    else { '9' }
}

/// The decimal representation of `n`, without leading zeros.
pub open spec fn dec_digits(n: nat) -> Seq<char>
    decreases n,
{
    if n < 10 {
        seq![digit_char(n)]
    } else {
        dec_digits(n / 10).push(digit_char(n % 10))
    }
}

/// `1024` raised to the power `k`.
pub open spec fn pow1024(k: nat) -> nat
    decreases k,
{
    if k == 0 { 1 } else { 1024 * pow1024((k - 1) as nat) }
}

/// Index of the unit a size is shown in: 0 = B, 1 = KB, 2 = MB, 3 = GB, 4 = TB.
/// The largest unit not above the size, and never beyond TB.
pub open spec fn unit_index(b: nat) -> nat {
    if b < pow1024(1) { 0 }
    else if b < pow1024(2) { 1 }
    else if b < pow1024(3) { 2 }
    else if b < pow1024(4) { 3 }
    else { 4 }
}

/// The name of unit `k`.
pub open spec fn unit_name(k: nat) -> Seq<char> {
    if k == 0 { seq!['B'] }
    else if k == 1 { seq!['K', 'B'] }
    else if k == 2 { seq!['M', 'B'] }
    else if k == 3 { seq!['G', 'B'] }
    else { seq!['T', 'B'] }
}

/// `b / d` in tenths, rounded to the nearest tenth, ties to the even tenth.
pub open spec fn rounded_tenths(b: nat, d: nat) -> nat
    recommends d > 0,
{
    let q = (b * 10) / d;
    let r = (b * 10) % d;
    if 2 * r > d || (2 * r == d && q % 2 == 1) { q + 1 } else { q }
}

/// The text of a byte count: plain bytes below one KB, else the size in the
/// largest fitting unit with one decimal, e.g. `512 B`, `488.3 KB`.
pub open spec fn bytes_text(b: nat) -> Seq<char> {
    let k = unit_index(b);
    if k == 0 {
        dec_digits(b) + seq![' ', 'B']
    } else {
        let t = rounded_tenths(b, pow1024(k));
        dec_digits(t / 10) + seq!['.'] + dec_digits(t % 10) + seq![' '] + unit_name(k)
    }
}

fn digit_str(d: u64) -> (r: &'static str)
    requires
        d < 10,
    ensures
        r@ == seq![digit_char(d as nat)],
{
    proof {
        reveal_strlit("0");
        reveal_strlit("1");
        reveal_strlit("2");
        reveal_strlit("3");
        reveal_strlit("4");
        reveal_strlit("5");
        reveal_strlit("6");
        reveal_strlit("7");
        reveal_strlit("8");
        reveal_strlit("9");
    }
    match d {
        0 => "0",
        1 => "1",
        2 => "2",
        3 => "3",
        4 => "4",
        5 => "5",
        6 => "6",
        7 => "7",
        8 => "8",
        _ => "9",
    }
}

/// The decimal text of `n`.
pub fn decimal(n: u64) -> (r: String)
    ensures
        r@ == dec_digits(n as nat),
    decreases n,
{
    if n < 10 {
        String::from_str(digit_str(n))
    } else {
        let mut s = decimal(n / 10);
        s.append(digit_str(n % 10));
        s
    }
}

fn unit_str(k: u64) -> (r: &'static str)
    requires
        k <= 4,
    ensures
        r@ == unit_name(k as nat),
{
    proof {
        reveal_strlit("B");
        reveal_strlit("KB");
        reveal_strlit("MB");
        reveal_strlit("GB");
        reveal_strlit("TB");
    }
    match k {
        0 => "B",
        1 => "KB",
        2 => "MB",
        3 => "GB",
        _ => "TB",
    }
}

/// Formats a byte count for display.
pub fn format_bytes(bytes: u64) -> (r: String)
    ensures
        r@ == bytes_text(bytes as nat),
{
    let b = bytes as u128;
    let (k, d): (u64, u128) = if b < 1024 {
        (0, 1)
    } else if b < 1048576 {
        (1, 1024)
    } else if b < 1073741824 {
        (2, 1048576)
    } else if b < 1099511627776 {
        (3, 1073741824)
    } else {
        (4, 1099511627776)
    };
    proof {
        reveal_with_fuel(pow1024, 5);
    }
    assert(unit_index(bytes as nat) == k as nat && d as nat == pow1024(k as nat));
    proof {
        reveal_strlit(" ");
        reveal_strlit(".");
        reveal_strlit(" B");
    }
    if k == 0 {
        let mut s = decimal(bytes);
        s.append(" B");
        s
    } else {
        let q = (b * 10) / d;
        let r = (b * 10) % d;
        let t = if 2 * r > d || (2 * r == d && q % 2 == 1) { q + 1 } else { q };
        assert(t as nat == rounded_tenths(bytes as nat, d as nat));
        assert((b as int * 10) / (d as int) <= b as int * 10) by (nonlinear_arith)
            requires
                d as int >= 1,
                b as int >= 0,
        ;
        let whole = (t / 10) as u64;
        let tenth = (t % 10) as u64;
        let mut s = decimal(whole);
        s.append(".");
        let frac = decimal(tenth);
        s.append(frac.as_str());
        s.append(" ");
        s.append(unit_str(k));
        s
    }
}

} // verus!
