use vstd::prelude::*;

verus! {

broadcast use vstd::std_specs::vec::group_vec_axioms, vstd::seq::group_seq_axioms;

/// An exact decimal number as it stands on the wire: the value is
/// `mantissa * 10^exp`, negated when `neg` holds.
#[derive(Clone, Copy, Debug, PartialEq, Eq, Structural)]
pub struct Decimal {
    pub neg: bool,
    pub mantissa: u64,
    pub exp: i32,
}

pub open spec fn pow10(e: nat) -> nat
    decreases e,
{
    if e == 0 {
        1
    } else {
        10 * pow10((e - 1) as nat)
    }
}

/// The magnitude of `m * 10^(exp + k)`, truncated toward zero.
pub open spec fn dec_mag(m: nat, exp: int, k: int) -> nat {
    if exp + k >= 0 {
        m * pow10((exp + k) as nat)
    } else {
        m / pow10((-(exp + k)) as nat)
    }
}

/// The value of a decimal, scaled by `10^k` and truncated toward zero.
pub open spec fn dec_scaled(d: Decimal, k: int) -> int {
    if d.neg {
        -(dec_mag(d.mantissa as nat, d.exp as int, k) as int)
    } else {
        dec_mag(d.mantissa as nat, d.exp as int, k) as int
    }
}

/// Saturate an integer into the range of `i64`.
pub open spec fn sat_i64(v: int) -> int {
    if v > i64::MAX {
        i64::MAX as int
    } else if v < i64::MIN {
        i64::MIN as int
    } else {
        v
    }
}

proof fn lemma_pow10_pos(a: nat)
    ensures
        pow10(a) >= 1,
    decreases a,
{
    if a > 0 {
        lemma_pow10_pos((a - 1) as nat);
    }
}

proof fn lemma_pow10_monotone(a: nat, b: nat)
    requires
        a <= b,
    ensures
        pow10(a) <= pow10(b),
        pow10(a) >= 1,
    decreases b,
{
    lemma_pow10_pos(a);
    if a < b {
        lemma_pow10_monotone(a, (b - 1) as nat);
    }
}

proof fn lemma_pow10_20_large()
    ensures
        pow10(20) > u64::MAX,
{
    reveal_with_fuel(pow10, 21);
    assert(pow10(20) == 100000000000000000000);
}

proof fn lemma_mul_mono(m: nat, a: nat, b: nat)
    requires
        a <= b,
    ensures
        m * a <= m * b,
{
    assert(m * a <= m * b) by (nonlinear_arith)
        requires
            a <= b,
            m >= 0,
    ;
}

/// A decimal digit character.
pub open spec fn is_digit(c: char) -> bool {
    48 <= (c as u32) && (c as u32) <= 57
}

/// The value of a decimal digit character; other characters count as zero.
pub open spec fn digit_val(c: char) -> nat {
    if is_digit(c) {
        ((c as u32) - 48) as nat
    } else {
        0
    }
}

/// Horner evaluation of a run of digits, most significant first, on top of an
/// already accumulated value.
pub open spec fn fold_digits(acc: nat, s: Seq<char>) -> nat
    decreases s.len(),
{
    if s.len() == 0 {
        acc
    } else {
        fold_digits(10 * acc + digit_val(s[0]), s.skip(1))
    }
}

/// The numeric value of a run of decimal digits.
pub open spec fn digits_val(s: Seq<char>) -> nat {
    fold_digits(0, s)
}

/// The first position at or after `i` that does not hold a digit.
pub open spec fn digits_end(s: Seq<char>, i: int) -> int
    decreases s.len() - i,
{
    if 0 <= i < s.len() && is_digit(s[i]) {
        digits_end(s, i + 1)
    } else {
        i
    }
}

proof fn lemma_digits_end(s: Seq<char>, i: int)
    requires
        0 <= i <= s.len(),
    ensures
        i <= digits_end(s, i) <= s.len(),
        forall|j: int| i <= j < digits_end(s, i) ==> is_digit(s[j]),
        digits_end(s, i) < s.len() ==> !is_digit(s[digits_end(s, i)]),
    decreases s.len() - i,
{
    if i < s.len() && is_digit(s[i]) {
        lemma_digits_end(s, i + 1);
    }
}

proof fn lemma_fold_append(acc: nat, a: Seq<char>, b: Seq<char>)
    ensures
        fold_digits(acc, a + b) == fold_digits(fold_digits(acc, a), b),
    decreases a.len(),
{
    if a.len() == 0 {
        assert(a + b =~= b);
    } else {
        assert((a + b).skip(1) =~= a.skip(1) + b);
        lemma_fold_append(10 * acc + digit_val(a[0]), a.skip(1), b);
    }
}

proof fn lemma_fold_mono(acc: nat, s: Seq<char>)
    ensures
        fold_digits(acc, s) >= acc,
    decreases s.len(),
{
    if s.len() > 0 {
        lemma_fold_mono(10 * acc + digit_val(s[0]), s.skip(1));
    }
}

proof fn lemma_fold_bound(acc: nat, s: Seq<char>)
    ensures
        fold_digits(acc, s) < (acc + 1) * pow10(s.len()),
    decreases s.len(),
{
    if s.len() == 0 {
        assert((acc + 1) * 1 == acc + 1);
    } else {
        lemma_fold_bound(10 * acc + digit_val(s[0]), s.skip(1));
        assert(fold_digits(acc, s) < (acc + 1) * pow10(s.len())) by (nonlinear_arith)
            requires
                fold_digits(acc, s) == fold_digits(10 * acc + digit_val(s[0]), s.skip(1)),
                fold_digits(10 * acc + digit_val(s[0]), s.skip(1)) < (10 * acc + digit_val(s[0])
                    + 1) * pow10(s.skip(1).len()),
                digit_val(s[0]) <= 9,
                pow10(s.len()) == 10 * pow10(s.skip(1).len()),
                s.skip(1).len() == s.len() - 1,
        ;
    }
}

fn scan_digits(v: &Vec<char>, i: usize) -> (j: usize)
    requires
        i <= v@.len(),
    ensures
        i <= j <= v@.len(),
        j == digits_end(v@, i as int),
{
    let n = v.len();
    let mut j = i;
    while j < n && 48 <= (v[j] as u32) && (v[j] as u32) <= 57
        invariant
            i <= j <= n,
            n == v@.len(),
            digits_end(v@, i as int) == digits_end(v@, j as int),
        decreases n - j,
    {
        j = j + 1;
    }
    j
}

fn digits_chunk(v: &Vec<char>, from: usize, to: usize, acc: u64) -> (r: Option<u64>)
    requires
        from <= to <= v@.len(),
        forall|j: int| from <= j < to ==> is_digit(v@[j]),
    ensures
        match r {
            Some(x) => x as nat == fold_digits(acc as nat, v@.subrange(from as int, to as int)),
            None => fold_digits(acc as nat, v@.subrange(from as int, to as int)) > u64::MAX,
        },
{
    let mut cur = acc;
    let mut i = from;
    proof {
        assert(v@.subrange(from as int, from as int) =~= Seq::<char>::empty());
    }
    while i < to
        invariant
            from <= i <= to <= v@.len(),
            forall|j: int| from <= j < to ==> is_digit(v@[j]),
            cur as nat == fold_digits(acc as nat, v@.subrange(from as int, i as int)),
        decreases to - i,
    {
        let c = v[i];
        assert(c == v@[i as int]);
        assert(is_digit(v@[i as int]));
        assert(is_digit(c));
        let d: u64 = ((c as u32) - 48) as u64;
        proof {
            assert(d as nat == digit_val(c));
            assert(v@.subrange(from as int, i + 1) =~= v@.subrange(from as int, i as int) + seq![
                v@[i as int],
            ]);
            lemma_fold_append(acc as nat, v@.subrange(from as int, i as int), seq![v@[i as int]]);
            let single = seq![v@[i as int]];
            assert(single.len() == 1);
            assert(single[0] == v@[i as int]);
            assert(single.skip(1) =~= Seq::<char>::empty());
            assert(fold_digits(cur as nat, single) == fold_digits(
                10 * (cur as nat) + digit_val(single[0]),
                single.skip(1),
            ));
            assert(fold_digits(cur as nat, single) == 10 * (cur as nat) + digit_val(v@[i as int]));
        }
        let step = match cur.checked_mul(10) {
            Some(x) => x.checked_add(d),
            None => None,
        };
        match step {
            Some(x) => {
                cur = x;
            },
            None => {
                proof {
                    lemma_fold_append(
                        acc as nat,
                        v@.subrange(from as int, i + 1),
                        v@.subrange(i + 1, to as int),
                    );
                    assert(v@.subrange(from as int, i + 1) + v@.subrange(i + 1, to as int)
                        =~= v@.subrange(from as int, to as int));
                    lemma_fold_mono(
                        fold_digits(acc as nat, v@.subrange(from as int, i + 1)),
                        v@.subrange(i + 1, to as int),
                    );
                }
                return None;
            },
        }
        i = i + 1;
    }
    Some(cur)
}

/// Parse the decimal text of a JSON number: an optional sign, an integer
/// part, an optional fraction and an optional exponent. The mantissa must fit
/// in `u64`, the exponent part may hold at most 18 digits, and the resulting
/// power of ten must fit in `i32`; a number outside those bounds does not
/// parse, which counts as a structural failure of the whole payload.
pub open spec fn spec_parse_decimal(s: Seq<char>) -> Option<Decimal> {
    let neg = s.len() > 0 && s[0] == '-';
    let i0: int = if neg {
        1
    } else {
        0
    };
    let i1 = digits_end(s, i0);
    let has_frac = i1 < s.len() && s[i1] == '.';
    let fstart: int = if has_frac {
        i1 + 1
    } else {
        i1
    };
    let i2 = if has_frac {
        digits_end(s, i1 + 1)
    } else {
        i1
    };
    let has_exp = i2 < s.len() && (s[i2] == 'e' || s[i2] == 'E');
    let eneg = has_exp && i2 + 1 < s.len() && s[i2 + 1] == '-';
    let epos = has_exp && i2 + 1 < s.len() && s[i2 + 1] == '+';
    let i3: int = if !has_exp {
        i2
    } else if eneg || epos {
        i2 + 2
    } else {
        i2 + 1
    };
    let i4 = digits_end(s, i3);
    if i1 == i0 {
        None
    } else if has_frac && i2 == fstart {
        None
    } else if has_exp && i4 == i3 {
        None
    } else if i4 != s.len() {
        None
    } else if i4 - i3 > 18 {
        None
    } else {
        let frac = if has_frac {
            s.subrange(i1 + 1, i2)
        } else {
            Seq::<char>::empty()
        };
        let m = digits_val(s.subrange(i0, i1) + frac);
        let ev = digits_val(s.subrange(i3, i4));
        let e = (if eneg {
            -(ev as int)
        } else {
            ev as int
        }) - frac.len();
        if m > u64::MAX {
            None
        } else if e < i32::MIN || e > i32::MAX {
            None
        } else {
            Some(Decimal { neg, mantissa: m as u64, exp: e as i32 })
        }
    }
}

/// Parse the decimal text of a JSON number.
#[verifier::rlimit(60)]
pub fn parse_decimal(s: &str) -> (r: Option<Decimal>)
    ensures
        r == spec_parse_decimal(s@),
{
    let v = crate::util::chars_of(s);
    let n = v.len();
    let neg = n > 0 && v[0] == '-';
    let i0: usize = if neg {
        1
    } else {
        0
    };
    let i1 = scan_digits(&v, i0);
    if i1 == i0 {
        return None;
    }
    let has_frac = i1 < n && v[i1] == '.';
    let i2 = if has_frac {
        scan_digits(&v, i1 + 1)
    } else {
        i1
    };
    if has_frac && i2 == i1 + 1 {
        return None;
    }
    let has_exp = i2 < n && (v[i2] == 'e' || v[i2] == 'E');
    let mut eneg = false;
    let mut i3 = i2;
    if has_exp {
        if i2 + 1 < n && v[i2 + 1] == '-' {
            eneg = true;
            i3 = i2 + 2;
        } else if i2 + 1 < n && v[i2 + 1] == '+' {
            i3 = i2 + 2;
        } else {
            i3 = i2 + 1;
        }
    }
    let i4 = scan_digits(&v, i3);
    if has_exp && i4 == i3 {
        return None;
    }
    if i4 != n {
        return None;
    }
    if i4 - i3 > 18 {
        return None;
    }
    proof {
        lemma_digits_end(v@, i0 as int);
        if has_frac {
            lemma_digits_end(v@, i1 + 1);
        }
        lemma_digits_end(v@, i3 as int);
    }
    let int_part = digits_chunk(&v, i0, i1, 0);
    let m_opt: Option<u64> = match int_part {
        None => None,
        Some(x) => if has_frac {
            digits_chunk(&v, i1 + 1, i2, x)
        } else {
            Some(x)
        },
    };
    let ghost ints = v@.subrange(i0 as int, i1 as int);
    let ghost frac = if has_frac {
        v@.subrange(i1 + 1, i2 as int)
    } else {
        Seq::<char>::empty()
    };
    proof {
        lemma_fold_append(0, ints, frac);
        if !has_frac {
            assert(ints + frac =~= ints);
        }
        if int_part is None {
            lemma_fold_mono(fold_digits(0, ints), frac);
        }
    }
    let m = match m_opt {
        None => {
            return None;
        },
        Some(m) => m,
    };
    let ev = match digits_chunk(&v, i3, i4, 0) {
        Some(x) => x,
        None => {
            proof {
                lemma_fold_bound(0, v@.subrange(i3 as int, i4 as int));
                lemma_pow10_monotone(v@.subrange(i3 as int, i4 as int).len() as nat, 19);
                reveal_with_fuel(pow10, 20);
                assert(pow10(19) == 10000000000000000000);
            }
            return None;
        },
    };
    let flen: usize = if has_frac {
        i2 - (i1 + 1)
    } else {
        0
    };
    let e128: i128 = (if eneg {
        -(ev as i128)
    } else {
        ev as i128
    }) - (flen as i128);
    if e128 < i32::MIN as i128 || e128 > i32::MAX as i128 {
        return None;
    }
    Some(Decimal { neg, mantissa: m, exp: e128 as i32 })
}

/// The value of a JSON number that is an integer literal within the given
/// bounds; a fraction, an exponent or an out-of-range value does not parse.
pub open spec fn spec_parse_int(s: Seq<char>, lo: int, hi: int) -> Option<int> {
    match spec_parse_decimal(s) {
        Some(d) => if d.exp == 0 {
            let v = if d.neg {
                -(d.mantissa as int)
            } else {
                d.mantissa as int
            };
            if lo <= v <= hi {
                Some(v)
            } else {
                None
            }
        } else {
            None
        },
        None => None,
    }
}

/// Parse a JSON number as an integer literal within the given bounds.
pub fn parse_int(s: &str, lo: i64, hi: i64) -> (r: Option<i64>)
    ensures
        match r {
            Some(x) => spec_parse_int(s@, lo as int, hi as int) == Some(x as int),
            None => spec_parse_int(s@, lo as int, hi as int) is None,
        },
{
    let d = match parse_decimal(s) {
        Some(d) => d,
        None => {
            return None;
        },
    };
    if d.exp != 0 {
        return None;
    }
    let v: i64 = if d.neg {
        if d.mantissa > 9223372036854775808u64 {
            return None;
        }
        if d.mantissa == 9223372036854775808u64 {
            i64::MIN
        } else {
            -(d.mantissa as i64)
        }
    } else {
        if d.mantissa > 9223372036854775807u64 {
            return None;
        }
        d.mantissa as i64
    };
    if v < lo || v > hi {
        return None;
    }
    Some(v)
}

fn sign_clamp(neg: bool, mag: u64) -> (r: i64)
    ensures
        r as int == sat_i64(
            if neg {
                -(mag as int)
            } else {
                mag as int
            },
        ),
{
    if neg {
        if mag >= 9223372036854775808u64 {
            i64::MIN
        } else {
            -(mag as i64)
        }
    } else {
        if mag > 9223372036854775807u64 {
            i64::MAX
        } else {
            mag as i64
        }
    }
}

/// Scale a decimal by `10^k`, truncate toward zero and saturate into `i64`:
/// the transform every metric row applies before a gauge is written.
pub fn scale_trunc(d: &Decimal, k: u32) -> (r: i64)
    ensures
        r as int == sat_i64(dec_scaled(*d, k as int)),
{
    let m = d.mantissa;
    if m == 0 {
        proof {
            if (d.exp as int + k as int) < 0 {
                lemma_pow10_monotone(0, (-(d.exp as int + k as int)) as nat);
                vstd::arithmetic::div_mod::lemma_div_of0(
                    pow10((-(d.exp as int + k as int)) as nat) as int,
                );
            }
        }
        return 0;
    }
    let e: i64 = d.exp as i64 + k as i64;
    if e >= 0 {
        let ghost en = e as nat;
        if e > 19 {
            proof {
                lemma_pow10_20_large();
                lemma_pow10_monotone(20, en);
                lemma_mul_mono(m as nat, pow10(20), pow10(en));
                assert(m as nat * pow10(20) >= 1 * pow10(20)) by (nonlinear_arith)
                    requires
                        m >= 1,
                ;
            }
            return sign_clamp(d.neg, u64::MAX);
        }
        let mut mag: u64 = m;
        let mut i: u64 = 0;
        proof {
            assert(pow10(0) == 1);
        }
        while i < e as u64
            invariant
                0 <= i <= e <= 19,
                m >= 1,
                en == e as nat,
                mag as nat == m as nat * pow10(i as nat),
                dec_scaled(*d, k as int) == if d.neg {
                    -((m as nat * pow10(en)) as int)
                } else {
                    (m as nat * pow10(en)) as int
                },
            decreases e - i,
        {
            match mag.checked_mul(10) {
                Some(next) => {
                    proof {
                        assert(m as nat * pow10(i as nat) * 10 == m as nat * pow10(
                            (i + 1) as nat,
                        )) by (nonlinear_arith)
                            requires
                                pow10((i + 1) as nat) == 10 * pow10(i as nat),
                        ;
                    }
                    mag = next;
                },
                None => {
                    proof {
                        lemma_pow10_monotone((i + 1) as nat, en);
                        lemma_mul_mono(m as nat, pow10((i + 1) as nat), pow10(en));
                        assert(m as nat * pow10(i as nat) * 10 == m as nat * pow10(
                            (i + 1) as nat,
                        )) by (nonlinear_arith)
                            requires
                                pow10((i + 1) as nat) == 10 * pow10(i as nat),
                        ;
                    }
                    return sign_clamp(d.neg, u64::MAX);
                },
            }
            i = i + 1;
        }
        sign_clamp(d.neg, mag)
    } else {
        let ne: i64 = -e;
        if ne > 19 {
            proof {
                lemma_pow10_20_large();
                lemma_pow10_monotone(20, ne as nat);
                vstd::arithmetic::div_mod::lemma_basic_div(m as int, pow10(ne as nat) as int);
            }
            return 0;
        }
        let mut div: u64 = 1;
        let mut i: u64 = 0;
        while i < ne as u64
            invariant
                0 <= i <= ne <= 19,
                div as nat == pow10(i as nat),
                div <= 10000000000000000000u64,
            decreases ne - i,
        {
            proof {
                lemma_pow10_monotone(i as nat, 18);
                reveal_with_fuel(pow10, 19);
                assert(pow10(18) == 1000000000000000000);
            }
            div = div * 10;
            i = i + 1;
        }
        proof {
            lemma_pow10_monotone(0, ne as nat);
        }
        let mag = m / div;
        sign_clamp(d.neg, mag)
    }
}

} // verus!
