//! Human-readable sizes of files.
use vstd::prelude::*;

verus! {

pub const KB: u64 = 1024;

pub const MB: u64 = 1048576;

pub const GB: u64 = 1073741824;

pub open spec fn digit_char(d: nat) -> char {
    seq!['0', '1', '2', '3', '4', '5', '6', '7', '8', '9'][d as int]
}

/// The decimal digits of `n`.
pub open spec fn decimal(n: nat) -> Seq<char>
    decreases n,
{
    if n < 10 {
        seq![digit_char(n)]
    } else {
        decimal(n / 10) + seq![digit_char(n % 10)]
    }
}

/// The unit that a size is shown in.
pub open spec fn unit_of(bytes: nat) -> nat {
    if bytes >= GB {
        GB as nat
    } else if bytes >= MB {
        MB as nat
    } else {
        KB as nat
    }
}

pub open spec fn unit_suffix(bytes: nat) -> Seq<char> {
    if bytes >= GB {
        " GB"@
    } else if bytes >= MB {
        " MB"@
    } else {
        " KB"@
    }
}

/// `bytes / unit` in hundredths, rounded to the nearest, a tie to the even neighbour.
pub open spec fn hundredths(bytes: nat, unit: nat) -> nat
    recommends
        unit > 0,
{
    let q = bytes * 100 / unit;
    let r = bytes * 100 % unit;
    if 2 * r > unit || (2 * r == unit && q % 2 == 1) {
        q + 1
    } else {
        q
    }
}

/// A size as shown to people: whole bytes under a KB, else the size in the largest unit
/// that it reaches (KB, MB or GB, of 1024 each) to two decimals.
pub open spec fn size_text(bytes: nat) -> Seq<char> {
    if bytes < KB {
        decimal(bytes) + " B"@
    } else {
        let h = hundredths(bytes, unit_of(bytes));
        decimal(h / 100) + seq!['.', digit_char((h % 100) / 10), digit_char(h % 10)]
            + unit_suffix(bytes)
    }
}

fn digit_text(d: u64) -> (r: &'static str)
    requires
        d < 10,
    ensures
        r@ == seq![digit_char(d as nat)],
{
    proof {
        reveal_strlit("0");
        reveal_strlit("1");
        reveal_strlit("2");
        reveal_strlit("3");
        reveal_strlit("4");
        reveal_strlit("5");
        reveal_strlit("6");
        reveal_strlit("7");
        reveal_strlit("8");
        reveal_strlit("9");
    }
    let r = if d == 0 {
        "0"
    } else if d == 1 {
        "1"
    } else if d == 2 {
        "2"
    } else if d == 3 {
        "3"
    } else if d == 4 {
        "4"
    } else if d == 5 {
        "5"
    } else if d == 6 {
        "6"
    } else if d == 7 {
        "7"
    } else if d == 8 {
        "8"
    } else {
        "9"
    };
    assert(r@ =~= seq![digit_char(d as nat)]);
    r
}

/// The decimal digits of `n`.
pub fn decimal_text(n: u64) -> (r: String)
    ensures
        r@ == decimal(n as nat),
    decreases n,
{
    if n < 10 {
        String::from_str(digit_text(n))
    } else {
        let mut r = decimal_text(n / 10);
        r.append(digit_text(n % 10));
        r
    }
}

/// A file size as shown to people: `"1023 B"`, `"1.00 KB"`, `"1.50 MB"`.
pub fn format_size(bytes: u64) -> (r: String)
    ensures
        r@ == size_text(bytes as nat),
{
    if bytes < KB {
        let mut r = decimal_text(bytes);
        r.append(" B");
        return r;
    }
    let unit: u64 = if bytes >= GB {
        GB
    } else if bytes >= MB {
        MB
    } else {
        KB
    };
    let scaled: u128 = bytes as u128 * 100;
    let q: u128 = scaled / unit as u128;
    let rem: u128 = scaled % unit as u128;
    let h: u128 = if 2 * rem > unit as u128 || (2 * rem == unit as u128 && q % 2 == 1) {
        q + 1
    } else {
        q
    };
    assert(h == hundredths(bytes as nat, unit as nat));
    assert(q <= bytes as nat * 100) by (nonlinear_arith)
        requires
            q == (bytes as nat * 100) / unit as nat,
            unit >= 1,
    ;
    let whole: u64 = (h / 100) as u64;
    let mut r = decimal_text(whole);
    r.append(".");
    r.append(digit_text(((h % 100) / 10) as u64));
    r.append(digit_text((h % 10) as u64));
    if bytes >= GB {
        r.append(" GB");
    } else if bytes >= MB {
        r.append(" MB");
    } else {
        r.append(" KB");
    }
    proof {
        reveal_strlit(".");
        assert(r@ =~= size_text(bytes as nat));
    }
    r
}

} // verus!
