//! Exact decimal numbers and their fixed-point text.
use vstd::prelude::*;
use crate::text::{nat_text, padded_digits, pow10, padded_text, u128_text};

verus! {

/// A decimal number: `magnitude / 10^scale`, negative when `negative` is set.
/// A negative zero is kept as such, so that its text carries the sign.
#[derive(Clone, Copy, Debug, PartialEq, Eq)]
pub struct Decimal {
    pub negative: bool,
    pub magnitude: u64,
    pub scale: u32,
}

/// The value of `d` in units of `10^-places`, rounded to the nearest unit,
/// ties to the even unit.
pub open spec fn rounded_units(d: Decimal, places: nat) -> nat {
    if d.scale <= places {
        d.magnitude as nat * pow10((places - d.scale) as nat)
    } else {
        let unit = pow10((d.scale - places) as nat);
        let q = d.magnitude as nat / unit;
        let r = d.magnitude as nat % unit;
        if 2 * r > unit || (2 * r == unit && q % 2 == 1) {
            q + 1
        } else {
            q
        }
    }
}

/// The text of `d` rounded to `places` digits after the decimal point.
pub open spec fn fixed_text(d: Decimal, places: nat) -> Seq<char> {
    let units = rounded_units(d, places);
    let sign = if d.negative {
        "-"@
    } else {
        Seq::empty()
    };
    sign + nat_text(units / pow10(places)) + "."@ + padded_digits(units % pow10(places), places)
}

pub proof fn lemma_pow10_pos(a: nat)
    ensures
        1 <= pow10(a),
    decreases a,
{
    if a > 0 {
        lemma_pow10_pos((a - 1) as nat);
    }
}

pub proof fn lemma_pow10_mono(a: nat, b: nat)
    requires
        a <= b,
    ensures
        1 <= pow10(a) <= pow10(b),
    decreases b,
{
    if a < b {
        lemma_pow10_mono(a, (b - 1) as nat);
    } else {
        lemma_pow10_pos(a);
    }
}

proof fn lemma_pow10_38()
    ensures
        pow10(38) == 100000000000000000000000000000000000000,
        pow10(20) == 100000000000000000000,
{
    reveal_with_fuel(pow10, 39);
}

/// Ten to the power `k`, for every power that fits in 128 bits.
pub fn pow10_u128(k: u32) -> (r: u128)
    requires
        k <= 38,
    ensures
        r == pow10(k as nat),
    decreases k,
{
    if k == 0 {
        1
    } else {
        let p = pow10_u128(k - 1);
        proof {
            lemma_pow10_mono((k - 1) as nat, 37);
            reveal_with_fuel(pow10, 38);
        }
        10 * p
    }
}

impl Decimal {
    /// A whole number.
    pub fn from_u64(n: u64) -> (r: Decimal)
        ensures
            r == (Decimal { negative: false, magnitude: n, scale: 0 }),
    {
        Decimal { negative: false, magnitude: n, scale: 0 }
    }

    /// A whole number, possibly negative.
    pub fn from_i64(i: i64) -> (r: Decimal)
        ensures
            r.negative == (i < 0),
            r.magnitude == (if i < 0 { -i } else { i as int }),
            r.scale == 0,
    {
        let magnitude: u64 = if i < 0 {
            (-(i as i128)) as u64
        } else {
            i as u64
        };
        Decimal { negative: i < 0, magnitude, scale: 0 }
    }

    /// The value in units of `10^-places`, rounded half to even.
    pub fn rounded_units(&self, places: u32) -> (r: u128)
        requires
            places <= 18,
        ensures
            r == rounded_units(*self, places as nat),
    {
        if self.scale <= places {
            let f = pow10_u128(places - self.scale);
            proof {
                lemma_pow10_mono((places - self.scale) as nat, 18);
                reveal_with_fuel(pow10, 19);
                assert(self.magnitude as nat * f <= 0xffff_ffff_ffff_ffff * 1000000000000000000)
                    by (nonlinear_arith)
                    requires
                        self.magnitude <= 0xffff_ffff_ffff_ffff,
                        f <= 1000000000000000000,
                ;
            }
            self.magnitude as u128 * f
        } else {
            let k = self.scale - places;
            if k > 38 {
                proof {
                    lemma_pow10_38();
                    lemma_pow10_mono(20, k as nat);
                    let unit = pow10(k as nat);
                    assert(self.magnitude as nat / unit == 0) by (nonlinear_arith)
                        requires
                            self.magnitude < unit,
                    ;
                    assert(self.magnitude as nat % unit == self.magnitude as nat) by (nonlinear_arith)
                        requires
                            self.magnitude < unit,
                    ;
                }
                0
            } else {
                let unit = pow10_u128(k);
                proof {
                    lemma_pow10_mono(k as nat, 38);
                    lemma_pow10_38();
                }
                let q = self.magnitude as u128 / unit;
                let rem = self.magnitude as u128 % unit;
                proof {
                    assert(q <= self.magnitude) by (nonlinear_arith)
                        requires
                            unit >= 1,
                            q == self.magnitude as nat / unit as nat,
                    ;
                }
                if 2 * rem > unit || (2 * rem == unit && q % 2 == 1) {
                    q + 1
                } else {
                    q
                }
            }
        }
    }

    /// The text of this number rounded to `places` digits after the point.
    pub fn to_fixed(&self, places: u32) -> (r: String)
        requires
            1 <= places <= 18,
        ensures
            r@ == fixed_text(*self, places as nat),
    {
        let units = self.rounded_units(places);
        let p = pow10_u128(places);
        proof {
            lemma_pow10_mono(0, places as nat);
        }
        let mut s = if self.negative {
            String::from_str("-")
        } else {
            String::new()
        };
        let whole = u128_text(units / p);
        s.append(whole.as_str());
        s.append(".");
        let frac = padded_text(units % p, places);
        s.append(frac.as_str());
        s
    }
}

/// Whether `c` is a decimal digit.
pub open spec fn is_digit(c: char) -> bool {
    48 <= c as u32 <= 57
}

/// `init` followed by the digits of `s`: each digit shifts what came before
/// one decimal place left.
pub open spec fn digits_after(init: nat, s: Seq<char>) -> nat
    decreases s.len(),
{
    if s.len() == 0 {
        init
    } else {
        digits_after(init, s.drop_last()) * 10 + (s.last() as u32 - 48) as nat
    }
}

/// Whether `s` is a non-empty run of decimal digits.
pub open spec fn all_digits(s: Seq<char>) -> bool {
    s.len() > 0 && forall|i: int| 0 <= i < s.len() ==> is_digit(s[i])
}

/// The position of the first '.' of `s`, or its length.
pub open spec fn point_at(s: Seq<char>) -> int
    decreases s.len(),
{
    if s.len() == 0 || s[0] == '.' {
        0
    } else {
        1 + point_at(s.drop_first())
    }
}

/// What a text of the form `[-]digits[.digits]` denotes: its sign, the
/// value of all its digits, and the number of digits after the point;
/// `None` for a text of another form.
pub open spec fn decimal_parts(s: Seq<char>) -> Option<(bool, nat, nat)> {
    let negative = s.len() > 0 && s[0] == '-';
    let body = if negative {
        s.drop_first()
    } else {
        s
    };
    let p = point_at(body);
    let whole = body.subrange(0, p);
    let frac = if p < body.len() {
        body.subrange(p + 1, body.len() as int)
    } else {
        Seq::empty()
    };
    if all_digits(whole) && (p == body.len() || all_digits(frac)) {
        Some((negative, digits_after(digits_after(0, whole), frac), frac.len()))
    } else {
        None
    }
}

proof fn lemma_point_at(s: Seq<char>, q: int)
    requires
        0 <= q <= s.len(),
        forall|i: int| 0 <= i < q ==> s[i] != '.',
        q < s.len() ==> s[q] == '.',
    ensures
        point_at(s) == q,
    decreases s.len(),
{
    if s.len() > 0 && q > 0 {
        lemma_point_at(s.drop_first(), q - 1);
    }
}

proof fn lemma_digits_after_mono(init: nat, s: Seq<char>, k: int)
    requires
        0 <= k <= s.len(),
    ensures
        digits_after(init, s.subrange(0, k)) <= digits_after(init, s),
    decreases s.len(),
{
    if k < s.len() {
        lemma_digits_after_mono(init, s.drop_last(), k);
        assert(s.drop_last().subrange(0, k) =~= s.subrange(0, k));
    } else {
        assert(s.subrange(0, k) =~= s);
    }
}

/// The value of the digits of `text` from `from` to `to` placed after
/// `init`; `None` when one of them is not a digit or the value does not fit
/// in 64 bits.
fn digits_from(text: &str, from: usize, to: usize, init: u64) -> (r: Option<u64>)
    requires
        from <= to <= text@.len(),
    ensures
        ({
            let seg = text@.subrange(from as int, to as int);
            if forall|i: int| 0 <= i < seg.len() ==> is_digit(seg[i]) {
                r == if digits_after(init as nat, seg) <= u64::MAX {
                    Some(digits_after(init as nat, seg) as u64)
                } else {
                    None::<u64>
                }
            } else {
                r is None
            }
        }),
{
    let ghost seg = text@.subrange(from as int, to as int);
    let mut value = init;
    let mut i = from;
    proof {
        assert(seg.subrange(0, 0) =~= Seq::<char>::empty());
    }
    while i < to
        invariant
            from <= i <= to <= text@.len(),
            seg == text@.subrange(from as int, to as int),
            forall|j: int| 0 <= j < i - from ==> is_digit(seg[j]),
            value == digits_after(init as nat, seg.subrange(0, i - from)),
        decreases to - i,
    {
        let c = text.get_char(i);
        let code = c as u32;
        if code < 48 || code > 57 {
            assert(!is_digit(seg[i - from]));
            return None;
        }
        proof {
            assert(seg.subrange(0, i + 1 - from).drop_last() =~= seg.subrange(0, i - from));
            assert(seg.subrange(0, i + 1 - from).last() == c);
        }
        if value > (u64::MAX - (code - 48) as u64) / 10 {
            proof {
                if forall|j: int| 0 <= j < seg.len() ==> is_digit(seg[j]) {
                    lemma_digits_after_mono(init as nat, seg, i + 1 - from);
                }
            }
            return None;
        }
        value = value * 10 + (code - 48) as u64;
        i = i + 1;
    }
    proof {
        assert(seg.subrange(0, i - from) =~= seg);
    }
    Some(value)
}

impl Decimal {
    /// Reads a decimal text of the form `[-]digits[.digits]`; `None` for a
    /// text of another form, or one whose digits do not fit in 64 bits.
    pub fn parse(text: &str) -> (r: Option<Decimal>)
        ensures
            r == match decimal_parts(text@) {
                Some((negative, magnitude, scale)) => if magnitude <= u64::MAX && scale
                    <= u32::MAX {
                    Some(Decimal { negative, magnitude: magnitude as u64, scale: scale as u32 })
                } else {
                    None
                },
                None => None,
            },
    {
        let n = text.unicode_len();
        let negative = n > 0 && text.get_char(0) == '-';
        let start: usize = if negative {
            1
        } else {
            0
        };
        let p = next_point(text, start);
        let ghost body = text@.subrange(start as int, n as int);
        proof {
            if negative {
                assert(body =~= text@.drop_first());
            } else {
                assert(body =~= text@);
            }
            lemma_point_at(body, p - start);
            assert(body.subrange(0, p - start) =~= text@.subrange(start as int, p as int));
        }
        if p == start {
            return None;
        }
        let whole = match digits_from(text, start, p, 0) {
            Some(w) => w,
            None => {
                proof {
                    let frac = if p < n {
                        body.subrange(p - start + 1, body.len() as int)
                    } else {
                        Seq::empty()
                    };
                    let wv = digits_after(0, body.subrange(0, p - start));
                    assert(frac.subrange(0, 0) =~= Seq::<char>::empty());
                    lemma_digits_after_mono(wv, frac, 0);
                }
                return None;
            },
        };
        if p == n {
            proof {
                assert(digits_after(whole as nat, Seq::<char>::empty()) == whole);
            }
            return Some(Decimal { negative, magnitude: whole, scale: 0 });
        }
        if p + 1 == n {
            return None;
        }
        proof {
            assert(body.subrange(p - start + 1, body.len() as int) =~= text@.subrange(
                p + 1,
                n as int,
            ));
        }
        let scale = n - p - 1;
        if scale > u32::MAX as usize {
            return None;
        }
        match digits_from(text, p + 1, n, whole) {
            Some(m) => Some(Decimal { negative, magnitude: m, scale: scale as u32 }),
            None => None,
        }
    }
}

/// The position of the first '.' of `text` at or after `from`, or its length.
fn next_point(text: &str, from: usize) -> (r: usize)
    requires
        from <= text@.len(),
    ensures
        from <= r <= text@.len(),
        forall|i: int| from <= i < r ==> text@[i] != '.',
        r < text@.len() ==> text@[r as int] == '.',
{
    let n = text.unicode_len();
    let mut i = from;
    while i < n
        invariant
            n == text@.len(),
            from <= i <= n,
            forall|j: int| from <= j < i ==> text@[j] != '.',
        decreases n - i,
    {
        if text.get_char(i) == '.' {
            return i;
        }
        i = i + 1;
    }
    i
}

} // verus!
