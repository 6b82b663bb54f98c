//! Small verified text utilities: string equality and decimal formatting.

use vstd::prelude::*;

verus! {

/// Character-by-character equality of two string slices.
pub fn str_eq(a: &str, b: &str) -> (r: bool)
    ensures
        r == (a@ == b@),
{
    let a_len = a.unicode_len();
    let b_len = b.unicode_len();
    if a_len != b_len {
        assert(a@ != b@);
        return false;
    }
    let mut i: usize = 0;
    while i < a_len
        invariant
            a_len == a@.len(),
            b_len == b@.len(),
            a_len == b_len,
            i <= a_len,
            forall|j: int| 0 <= j < i ==> a@[j] == b@[j],
        decreases a_len - i,
    {
        if a.get_char(i) != b.get_char(i) {
            assert(a@ != b@);
            return false;
        }
        i = i + 1;
    }
    proof {
        assert(a@ =~= b@);
    }
    true
}

/// The character for one decimal digit.
pub open spec fn digit_char(d: int) -> char {
    if d == 0 {
        '0'
    } else if d == 1 {
        '1'
    } else if d == 2 {
        '2'
    } else if d == 3 {
        '3'
    } else if d == 4 {
        '4'
    } else if d == 5 {
        '5'
    } else if d == 6 {
        '6'
    } else if d == 7 {
        '7'
    } else if d == 8 {
        '8'
    } else {
        '9'
    }
}

/// The usual decimal rendering of a natural number, without leading zeros
/// (except for the number zero itself).
pub open spec fn spec_decimal(n: nat) -> Seq<char>
    decreases n,
{
    if n < 10 {
        seq![digit_char(n as int)]
    } else {
        spec_decimal(n / 10).push(digit_char((n % 10) as int))
    }
}

/// One-character string slice for a single digit.
fn digit_str(d: u64) -> (r: &'static str)
    requires
        d < 10,
    ensures
        r@ =~= seq![digit_char(d as int)],
{
    proof {
        reveal_strlit("0");
        reveal_strlit("1");
        reveal_strlit("2");
        reveal_strlit("3");
        reveal_strlit("4");
        reveal_strlit("5");
        reveal_strlit("6");
        reveal_strlit("7");
        reveal_strlit("8");
        reveal_strlit("9");
    }
    match d {
        0 => "0",
        1 => "1",
        2 => "2",
        3 => "3",
        4 => "4",
        5 => "5",
        6 => "6",
        7 => "7",
        8 => "8",
        _ => "9",
    }
}

/// The digit characters of `ds`, most significant first, where `ds` lists
/// them least significant first.
spec fn reversed_digit_chars(ds: Seq<u64>) -> Seq<char> {
    Seq::new(ds.len(), |i: int| digit_char(ds[ds.len() - 1 - i] as int))
}

/// Renders `n` in decimal, matching [`spec_decimal`] exactly.
pub fn decimal_string(n: u64) -> (r: String)
    ensures
        r@ == spec_decimal(n as nat),
{
    let mut digits: Vec<u64> = Vec::new();
    let mut m: u64 = n;
    digits.push(m % 10);
    m = m / 10;
    proof {
        assert(spec_decimal(n as nat) =~= (if m > 0 {
            spec_decimal(m as nat)
        } else {
            Seq::<char>::empty()
        }) + reversed_digit_chars(digits@));
    }
    while m > 0
        invariant
            digits@.len() >= 1,
            forall|j: int| 0 <= j < digits@.len() ==> digits@[j] < 10,
            spec_decimal(n as nat) == (if m > 0 {
                spec_decimal(m as nat)
            } else {
                Seq::<char>::empty()
            }) + reversed_digit_chars(digits@),
        decreases m,
    {
        let ghost old_digits = digits@;
        let ghost old_m = m as nat;
        digits.push(m % 10);
        m = m / 10;
        proof {
            assert(reversed_digit_chars(digits@) =~= seq![
                digit_char((old_m % 10) as int),
            ] + reversed_digit_chars(old_digits));
            if m > 0 {
                assert(spec_decimal(old_m) == spec_decimal(old_m / 10).push(
                    digit_char((old_m % 10) as int),
                ));
                assert(spec_decimal(m as nat) + reversed_digit_chars(digits@)
                    =~= (spec_decimal(old_m) + reversed_digit_chars(old_digits)));
            } else {
                assert(spec_decimal(old_m) =~= seq![digit_char((old_m % 10) as int)]);
                assert(Seq::<char>::empty() + reversed_digit_chars(digits@)
                    =~= (spec_decimal(old_m) + reversed_digit_chars(old_digits)));
            }
        }
    }
    let len = digits.len();
    let mut out = String::new();
    let mut k: usize = 0;
    proof {
        assert(spec_decimal(n as nat) =~= reversed_digit_chars(digits@));
    }
    while k < len
        invariant
            len == digits@.len(),
            k <= len,
            forall|j: int| 0 <= j < digits@.len() ==> digits@[j] < 10,
            spec_decimal(n as nat) == reversed_digit_chars(digits@),
            out@ == reversed_digit_chars(digits@).take(k as int),
        decreases len - k,
    {
        let d = digits[len - 1 - k];
        out.append(digit_str(d));
        k = k + 1;
        proof {
            assert(out@ =~= reversed_digit_chars(digits@).take(k as int));
        }
    }
    proof {
        assert(out@ =~= spec_decimal(n as nat));
    }
    out
}

/// The decimal rendering of a rate given in millihertz: the whole part, then
/// a fractional part only when it is non-zero, with trailing zeros stripped
/// (`90000 -> "90"`, `90500 -> "90.5"`, `90050 -> "90.05"`, `12 -> "0.012"`).
pub open spec fn spec_millihertz(v: nat) -> Seq<char> {
    let whole = v / 1000;
    let frac = v % 1000;
    if frac == 0 {
        spec_decimal(whole)
    } else if frac % 100 == 0 {
        spec_decimal(whole) + seq!['.', digit_char(frac as int / 100)]
    } else if frac % 10 == 0 {
        spec_decimal(whole) + seq![
            '.',
            digit_char(frac as int / 100),
            digit_char((frac as int / 10) % 10),
        ]
    } else {
        spec_decimal(whole) + seq![
            '.',
            digit_char(frac as int / 100),
            digit_char((frac as int / 10) % 10),
            digit_char(frac as int % 10),
        ]
    }
}

/// Renders a millihertz rate, matching [`spec_millihertz`] exactly.
pub fn millihertz_string(v: u64) -> (r: String)
    ensures
        r@ == spec_millihertz(v as nat),
{
    let whole = v / 1000;
    let frac = v % 1000;
    let mut out = decimal_string(whole);
    if frac != 0 {
        proof {
            reveal_strlit(".");
        }
        out.append(".");
        out.append(digit_str(frac / 100));
        if frac % 100 != 0 {
            out.append(digit_str((frac / 10) % 10));
            if frac % 10 != 0 {
                out.append(digit_str(frac % 10));
            }
        }
    }
    proof {
        assert(out@ =~= spec_millihertz(v as nat));
    }
    out
}

} // verus!
