//! Byte counts in human-readable binary units.

use vstd::prelude::*;
use vstd::arithmetic::div_mod::{lemma_fundamental_div_mod, lemma_mod_bound};
use vstd::arithmetic::power2::{lemma2_to64, lemma_pow2_unfold, pow2};
use crate::text::{decimal, padded_decimal, push_char, push_decimal, push_padded_decimal};

verus! {

/// `1024^k`: the number of bytes in one unit of level `k`.
pub open spec fn kib_pow(k: nat) -> nat
    decreases k,
{
    if k == 0 {
        1
    } else {
        1024 * kib_pow((k - 1) as nat)
    }
}

/// `10^d`.
pub open spec fn ten_pow(d: nat) -> nat
    decreases d,
{
    if d == 0 {
        1
    } else {
        10 * ten_pow((d - 1) as nat)
    }
}

/// `n / d` rounded to the nearest integer, ties to the even one.
pub open spec fn round_half_even(n: nat, d: nat) -> nat {
    let q = n / d;
    let r = n % d;
    if 2 * r > d || (2 * r == d && q % 2 == 1) {
        q + 1
    } else {
        q
    }
}

/// The exponent of the spacing between neighbouring doubles around `x`, searched
/// from `e` on: the least `e` for which `x / 2^e` fits in 53 bits.
pub open spec fn ulp_exp(x: nat, e: nat) -> nat
    decreases 11 - e,
{
    if e >= 11 || x / pow2(e) < pow2(53) {
        e
    } else {
        ulp_exp(x, e + 1)
    }
}

/// The value of `x` converted to a double: `x` rounded to 53 significant bits,
/// ties to even.
pub open spec fn as_double(x: nat) -> nat {
    let u = pow2(ulp_exp(x, 0));
    round_half_even(x, u) * u
}

/// How many times an amount of `m` bytes is divided by 1024 before it falls
/// under 1024, counting from `k` and stopping at seven.
pub open spec fn level_from(m: nat, k: nat) -> nat
    decreases 7 - k,
{
    if k >= 7 || m < kib_pow(k + 1) {
        k
    } else {
        level_from(m, k + 1)
    }
}

/// Digits after the point for an amount of `m` bytes shown at `level`: two under
/// ten units, one under a hundred, none for plain bytes or from a hundred on.
pub open spec fn decimals(m: nat, level: nat) -> nat {
    if level > 0 && m < 10 * kib_pow(level) {
        2
    } else if level > 0 && m < 100 * kib_pow(level) {
        1
    } else {
        0
    }
}

/// The unit of `level`: B, KB, MB, GB, TB, PB, EB.
pub open spec fn unit(level: nat) -> Seq<char> {
    if level == 0 {
        seq!['B']
    } else {
        let p = if level == 1 {
            'K'
        } else if level == 2 {
            'M'
        } else if level == 3 {
            'G'
        } else if level == 4 {
            'T'
        } else if level == 5 {
            'P'
        } else {
            'E'
        };
        seq![p, 'B']
    }
}

/// `n` hundredths, tenths or units (`d` = 2, 1, 0) written with `d` digits after
/// the point.
pub open spec fn fixed_point(n: nat, d: nat) -> Seq<char> {
    let whole = decimal(n / ten_pow(d));
    if d == 0 {
        whole
    } else {
        whole.push('.') + padded_decimal(n % ten_pow(d), d)
    }
}

/// A byte count made readable: the count as a double is divided by 1024 while at
/// least 1024 (at most six times), then printed rounded to two decimals under 10,
/// one under 100, none otherwise or for plain bytes, followed by its unit.
pub open spec fn readable_size(bytes: nat) -> Seq<char> {
    let m = as_double(bytes);
    let level = level_from(m, 0);
    let d = decimals(m, level);
    let n = round_half_even(m * ten_pow(d), kib_pow(level));
    fixed_point(n, d) + unit(level)
}

/// A byte count shown in the largest binary unit that keeps it at least one.
pub struct MemoryDbgHelper(pub u64);

fn round_div(n: u128, d: u128) -> (r: u128)
    requires
        0 < d <= u64::MAX,
        n <= u64::MAX * 128,
    ensures
        r == round_half_even(n as nat, d as nat),
        r * d <= n + d,
{
    let q = n / d;
    let rem = n % d;
    proof {
        lemma_fundamental_div_mod(n as int, d as int);
        lemma_mod_bound(n as int, d as int);
        assert(q * d <= n) by (nonlinear_arith)
            requires
                n == d * q + rem,
                rem >= 0,
        ;
    }
    if 2 * rem > d || (2 * rem == d && q % 2 == 1) {
        proof {
            assert((q + 1) * d == q * d + d) by (nonlinear_arith);
        }
        q + 1
    } else {
        q
    }
}

proof fn lemma_pow2_bounds(e: nat)
    requires
        e <= 11,
    ensures
        1 <= pow2(e) <= 2048,
        pow2(e + 1) == 2 * pow2(e),
{
    lemma2_to64();
    lemma_pow2_unfold(e + 1);
}

/// `x` as a double, held exactly.
fn double_value(x: u64) -> (r: u128)
    ensures
        r == as_double(x as nat),
        r <= x + 2048,
{
    let mut e: u32 = 0;
    let mut ulp: u64 = 1;
    let limit: u64 = 0x20_0000_0000_0000;
    proof {
        lemma2_to64();
        vstd::arithmetic::power2::lemma2_to64_rest();
    }
    while e < 11 && x / ulp >= limit
        invariant
            e <= 11,
            ulp == pow2(e as nat),
            1 <= ulp <= 2048,
            limit == pow2(53),
            ulp_exp(x as nat, 0) == ulp_exp(x as nat, e as nat),
        decreases 11 - e,
    {
        proof {
            lemma_pow2_bounds(e as nat);
        }
        e = e + 1;
        ulp = ulp * 2;
        proof {
            lemma_pow2_bounds(e as nat);
        }
    }
    proof {
        lemma_pow2_bounds(e as nat);
    }
    let q = round_div(x as u128, ulp as u128);
    q * ulp as u128
}

impl MemoryDbgHelper {
    /// The readable form of the count, such as `1.00KB`, `10.0MB` or `100GB`.
    pub fn to_string(&self) -> (r: String)
        ensures
            r@ == readable_size(self.0 as nat),
    {
        let m = double_value(self.0);
        // level, its unit's size and the next unit's size
        let mut level: u32 = 0;
        let mut den: u128 = 1;
        let mut next: u128 = 1024;
        proof {
            reveal_with_fuel(kib_pow, 8);
        }
        while level < 7 && m >= next
            invariant
                level <= 7,
                den == kib_pow(level as nat),
                next == kib_pow(level as nat + 1),
                next == den * 1024,
                den <= kib_pow(7),
                level > 0 ==> m >= den,
                m <= u64::MAX + 2048,
                level_from(m as nat, 0) == level_from(m as nat, level as nat),
            decreases 7 - level,
        {
            level = level + 1;
            den = next;
            proof {
                reveal_with_fuel(kib_pow, 8);
                assert(level <= 6) by {
                    if level == 7 {
                        assert(m >= kib_pow(7));
                    }
                };
                assert(kib_pow(level as nat + 1) == 1024 * kib_pow(level as nat));
            }
            next = next * 1024;
        }
        let d: u32 = if level > 0 && m < 10 * den {
            2
        } else if level > 0 && m < 100 * den {
            1
        } else {
            0
        };
        let scale: u128 = if d == 2 {
            100
        } else if d == 1 {
            10
        } else {
            1
        };
        proof {
            reveal_with_fuel(ten_pow, 3);
            reveal_with_fuel(kib_pow, 8);
            assert(level <= 6) by {
                if level == 7 {
                    assert(m >= kib_pow(7));
                }
            };
        }
        let n = round_div(m * scale, den);
        let mut s = String::new();
        push_decimal(&mut s, n / scale);
        if d > 0 {
            push_char(&mut s, '.');
            push_padded_decimal(&mut s, n % scale, d);
        }
        if level == 1 {
            push_char(&mut s, 'K');
        } else if level == 2 {
            push_char(&mut s, 'M');
        } else if level == 3 {
            push_char(&mut s, 'G');
        } else if level == 4 {
            push_char(&mut s, 'T');
        } else if level == 5 {
            push_char(&mut s, 'P');
        } else if level == 6 {
            push_char(&mut s, 'E');
        }
        push_char(&mut s, 'B');
        assert(s@ =~= readable_size(self.0 as nat));
        s
    }
}

} // verus!
