//! Writing a single with one digit after the point.
//!
//! The digits are those of the exact value, rounded to the nearest tenth;
//! a value halfway between two tenths goes to the even one.

use vstd::prelude::*;
use vstd::string::*;
use vstd::arithmetic::div_mod::*;
use vstd::arithmetic::mul::*;
use vstd::arithmetic::power2::*;
use crate::single::Single;

verus! {

/// The character of the decimal digit `d`.
pub open spec fn digit(d: nat) -> char {
    if d == 0 {
        '0'
    } else if d == 1 {
        '1'
    } else if d == 2 {
        '2'
    } else if d == 3 {
        '3'
    } else if d == 4 {
        '4'
    } else if d == 5 {
        '5'
    } else if d == 6 {
        '6'
    } else if d == 7 {
        '7'
    } else if d == 8 {
        '8'
    } else {
        '9'
    }
}

/// The decimal numeral of `n`: no leading zero, and `0` for zero.
pub open spec fn decimal(n: nat) -> Seq<char>
    decreases n,
{
    if n < 10 {
        seq![digit(n)]
    } else {
        decimal(n / 10).push(digit(n % 10))
    }
}

/// The whole number nearest to `num / den`; where two are equally near,
/// the even one.
pub open spec fn round_half_even(num: nat, den: nat) -> nat
    recommends
        den > 0,
{
    let q = num / den;
    let r = num % den;
    if 2 * r < den || (2 * r == den && q % 2 == 0) {
        q
    } else {
        q + 1
    }
}

impl Single {
    /// The absolute value in tenths, rounded to a whole number of them.
    pub open spec fn tenths(self) -> nat {
        round_half_even(10 * self.magnitude(), pow2(149))
    }

    /// The text of this single with one digit after the point: `NaN` for a
    /// NaN whatever its sign; else a minus sign where the sign bit is set,
    /// the negative zero included, and then `inf` or the rounded digits.
    pub open spec fn one_decimal(self) -> Seq<char> {
        if self.spec_is_nan() {
            seq!['N', 'a', 'N']
        } else {
            let sign = if self.spec_is_sign_negative() {
                seq!['-']
            } else {
                Seq::<char>::empty()
            };
            if self.spec_is_infinite() {
                sign + seq!['i', 'n', 'f']
            } else {
                sign + decimal(self.tenths() / 10) + seq!['.', digit(self.tenths() % 10)]
            }
        }
    }

    /// Writes this single with one digit after the point.
    pub fn to_one_decimal(self) -> (text: String)
        ensures
            text@ == self.one_decimal(),
    {
        proof {
            reveal_strlit("NaN");
            reveal_strlit("-");
            reveal_strlit("inf");
            reveal_strlit(".");
        }
        if self.is_nan() {
            let text = String::from_str("NaN");
            assert(text@ =~= seq!['N', 'a', 'N']);
            return text;
        }
        let mut text = String::new();
        if self.is_sign_negative() {
            text.append("-");
        }
        let ghost sign = text@;
        assert(sign =~= if self.spec_is_sign_negative() {
            seq!['-']
        } else {
            Seq::<char>::empty()
        });
        if self.is_infinite() {
            text.append("inf");
            assert(text@ =~= sign + seq!['i', 'n', 'f']);
            return text;
        }
        let (whole, tenth) = split_tenths(self);
        push_decimal(&mut text, whole);
        text.append(".");
        text.append(digit_text(tenth));
        assert(text@ =~= sign + decimal(self.tenths() / 10) + seq![
            '.',
            digit(self.tenths() % 10),
        ]);
        text
    }
}

/// The one-character text of a digit.
fn digit_text(d: u8) -> (t: &'static str)
    requires
        d < 10,
    ensures
        t@ == seq![digit(d as nat)],
{
    proof {
        reveal_strlit("0");
        reveal_strlit("1");
        reveal_strlit("2");
        reveal_strlit("3");
        reveal_strlit("4");
        reveal_strlit("5");
        reveal_strlit("6");
        reveal_strlit("7");
        reveal_strlit("8");
        reveal_strlit("9");
    }
    let t = if d == 0 {
        "0"
    } else if d == 1 {
        "1"
    } else if d == 2 {
        "2"
    } else if d == 3 {
        "3"
    } else if d == 4 {
        "4"
    } else if d == 5 {
        "5"
    } else if d == 6 {
        "6"
    } else if d == 7 {
        "7"
    } else if d == 8 {
        "8"
    } else {
        "9"
    };
    assert(t@ =~= seq![digit(d as nat)]);
    t
}

/// Appends the decimal numeral of `n`.
fn push_decimal(text: &mut String, n: u128)
    ensures
        final(text)@ == old(text)@ + decimal(n as nat),
    decreases n,
{
    if n >= 10 {
        push_decimal(text, n / 10);
    }
    text.append(digit_text((n % 10) as u8));
    assert(text@ =~= old(text)@ + decimal(n as nat));
}

/// 2^104, the largest power of two by which a significand is scaled up
/// from a whole number, written out.
proof fn lemma_pow2_104()
    ensures
        pow2(104) == 0x100_0000_0000_0000_0000_0000_0000,
{
    lemma2_to64();
    lemma2_to64_rest();
    lemma_pow2_adds(64, 40);
}

/// `2^k`, for the exponents that occur.
fn power_of_two(k: u32) -> (p: u128)
    requires
        k <= 104,
    ensures
        p == pow2(k as nat),
{
    let mut p: u128 = 1;
    let mut i: u32 = 0;
    proof {
        lemma2_to64();
    }
    while i < k
        invariant
            i <= k,
            k <= 104,
            p == pow2(i as nat),
        decreases k - i,
    {
        proof {
            lemma_pow2_unfold((i + 1) as nat);
            lemma_pow2_104();
            if i + 1 < 104 {
                lemma_pow2_strictly_increases((i + 1) as nat, 104);
            }
        }
        p = p * 2;
        i = i + 1;
    }
    p
}

/// Scaling both parts of a fraction by the same factor leaves its rounding
/// as it was.
pub proof fn lemma_round_scaled(num: nat, den: nat, by: nat)
    requires
        den > 0,
        by > 0,
    ensures
        round_half_even(num * by, den * by) == round_half_even(num, den),
{
    let q = num / den;
    let r = num % den;
    lemma_div_multiples_vanish_quotient(by as int, num as int, den as int);
    lemma_truncate_middle(num as int, by as int, den as int);
    lemma_mul_is_commutative(num as int, by as int);
    lemma_mul_is_commutative(den as int, by as int);
    assert((num * by) / (den * by) == q);
    assert((num * by) % (den * by) == by * r);
    assert(2 * (by * r) < den * by <==> 2 * r < den) by (nonlinear_arith)
        requires
            by > 0,
    ;
    assert(2 * (by * r) == den * by <==> 2 * r == den) by (nonlinear_arith)
        requires
            by > 0,
    ;
}

/// A whole multiple of the denominator rounds to the multiplier.
pub proof fn lemma_round_multiple(n: nat, den: nat)
    requires
        den > 0,
    ensures
        round_half_even(n * den, den) == n,
{
    lemma_div_by_multiple(n as int, den as int);
    lemma_mod_multiples_basic(n as int, den as int);
}

/// The whole part and the digit after the point of a finite single.
fn split_tenths(x: Single) -> (r: (u128, u8))
    requires
        x.spec_is_finite(),
    ensures
        r.0 == x.tenths() / 10,
        r.1 == x.tenths() % 10,
{
    let low: u32 = x.magnitude_bits();
    let e: u32 = low / 0x80_0000;
    let f: u32 = low % 0x80_0000;
    let m: u128 = if e == 0 {
        f as u128
    } else {
        (0x80_0000 + f) as u128
    };
    let s: u32 = if e == 0 {
        0
    } else {
        e - 1
    };
    assert(m == x.significand() && s == x.scale());
    if s >= 149 {
        // a whole number: the point falls to the right of the last bit
        let up: u32 = s - 149;
        let p: u128 = power_of_two(up);
        proof {
            lemma_pow2_104();
            if up < 104 {
                lemma_pow2_strictly_increases(up as nat, 104);
            }
            lemma_mul_upper_bound(m as int, 0xff_ffff, p as int, pow2(104) as int);
            lemma_pow2_adds(up as nat, 149);
            let n: nat = 10 * (m * p) as nat;
            assert(10 * x.magnitude() == n * pow2(149)) by (nonlinear_arith)
                requires
                    x.magnitude() == m * pow2(s as nat),
                    pow2(s as nat) == p * pow2(149),
                    n == 10 * (m * p),
            ;
            lemma_pow2_pos(149);
            lemma_round_multiple(n, pow2(149));
        }
        (m * p, 0)
    } else {
        let down: u32 = 149 - s;
        proof {
            lemma_pow2_adds(down as nat, s as nat);
            lemma_pow2_pos(down as nat);
            lemma_pow2_pos(s as nat);
            assert(10 * x.magnitude() == (10 * m) * pow2(s as nat)) by (nonlinear_arith)
                requires
                    x.magnitude() == m * pow2(s as nat),
            ;
            lemma_round_scaled((10 * m) as nat, pow2(down as nat), pow2(s as nat));
            assert(x.tenths() == round_half_even((10 * m) as nat, pow2(down as nat)));
        }
        if down >= 29 {
            // less than a twentieth: nothing is left of it
            proof {
                lemma2_to64();
                if down > 29 {
                    lemma_pow2_strictly_increases(29, down as nat);
                }
                lemma_basic_div((10 * m) as int, pow2(down as nat) as int);
                lemma_small_mod((10 * m) as nat, pow2(down as nat));
            }
            (0, 0)
        } else {
            let den: u128 = power_of_two(down);
            let num: u128 = 10 * m;
            let q: u128 = num / den;
            let r: u128 = num % den;
            proof {
                lemma2_to64();
            }
            let t: u128 = if 2 * r < den || (2 * r == den && q % 2 == 0) {
                q
            } else {
                q + 1
            };
            (t / 10, (t % 10) as u8)
        }
    }
}

} // verus!
