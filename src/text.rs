//! Decimal text for integers and fixed-point numbers, built without locale
//! or platform dependence.
use vstd::prelude::*;

verus! {

/// Ten to the power `k`.
pub open spec fn pow10(k: nat) -> nat
    decreases k,
{
    if k == 0 {
        1
    } else {
        10 * pow10((k - 1) as nat)
    }
}

/// The one-character text of a decimal digit.
pub open spec fn digit_text(d: nat) -> Seq<char> {
    if d == 0 {
        "0"@
    } else if d == 1 {
        "1"@
    } else if d == 2 {
        "2"@
    } else if d == 3 {
        "3"@
    } else if d == 4 {
        "4"@
    } else if d == 5 {
        "5"@
    } else if d == 6 {
        "6"@
    } else if d == 7 {
        "7"@
    } else if d == 8 {
        "8"@
    } else {
        "9"@
    }
}

/// Decimal text of a natural number, without leading zeros.
pub open spec fn nat_text(n: nat) -> Seq<char>
    decreases n,
{
    if n < 10 {
        digit_text(n)
    } else {
        nat_text(n / 10) + digit_text(n % 10)
    }
}

/// Decimal text of an integer: a minus sign before negative values.
pub open spec fn int_text(i: int) -> Seq<char> {
    if i < 0 {
        "-"@ + nat_text((-i) as nat)
    } else {
        nat_text(i as nat)
    }
}

/// The last `width` decimal digits of `n`, zero-padded on the left.
pub open spec fn padded_digits(n: nat, width: nat) -> Seq<char>
    decreases width,
{
    if width == 0 {
        Seq::empty()
    } else {
        padded_digits(n / 10, (width - 1) as nat) + digit_text(n % 10)
    }
}

fn digit_str(d: u128) -> (r: &'static str)
    requires
        d < 10,
    ensures
        r@ == digit_text(d as nat),
{
    if d == 0 {
        "0"
    } else if d == 1 {
        "1"
    } else if d == 2 {
        "2"
    } else if d == 3 {
        "3"
    } else if d == 4 {
        "4"
    } else if d == 5 {
        "5"
    } else if d == 6 {
        "6"
    } else if d == 7 {
        "7"
    } else if d == 8 {
        "8"
    } else {
        "9"
    }
}

/// Decimal text of an unsigned integer.
pub fn u128_text(n: u128) -> (r: String)
    ensures
        r@ == nat_text(n as nat),
    decreases n,
{
    if n < 10 {
        String::from_str(digit_str(n))
    } else {
        let mut s = u128_text(n / 10);
        s.append(digit_str(n % 10));
        s
    }
}

/// Decimal text of an unsigned 64-bit integer.
pub fn u64_text(n: u64) -> (r: String)
    ensures
        r@ == nat_text(n as nat),
{
    u128_text(n as u128)
}

/// Decimal text of a signed 64-bit integer.
pub fn i64_text(i: i64) -> (r: String)
    ensures
        r@ == int_text(i as int),
{
    if i < 0 {
        let magnitude: u128 = (-(i as i128)) as u128;
        let s = u128_text(magnitude);
        String::from_str("-").concat(s.as_str())
    } else {
        u128_text(i as u128)
    }
}

/// The last `width` decimal digits of `n`, zero-padded on the left.
pub fn padded_text(n: u128, width: u32) -> (r: String)
    ensures
        r@ == padded_digits(n as nat, width as nat),
    decreases width,
{
    if width == 0 {
        String::new()
    } else {
        let mut s = padded_text(n / 10, width - 1);
        s.append(digit_str(n % 10));
        s
    }
}

/// Whether two strings hold the same characters.
pub fn str_eq(a: &str, b: &str) -> (r: bool)
    ensures
        r == (a@ == b@),
{
    let n = a.unicode_len();
    if n != b.unicode_len() {
        return false;
    }
    let mut i: usize = 0;
    while i < n
        invariant
            n == a@.len() == b@.len(),
            i <= n,
            forall|j: int| 0 <= j < i ==> a@[j] == b@[j],
        decreases n - i,
    {
        if a.get_char(i) != b.get_char(i) {
            return false;
        }
        i = i + 1;
    }
    assert(a@ =~= b@);
    true
}

} // verus!
