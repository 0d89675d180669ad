//! Fixed-point decimal values and decimal strings.
//!
//! Gauge values that the provider encodes as decimal strings (account
//! balances, prices) are held as signed 64-bit counts of millionths of a
//! unit, so they can be stored and compared exactly.  This module defines
//! the decimal string grammar, a verified parser for it, and a verified
//! formatter from `u64` to its decimal digit string (used for label values
//! such as droplet ids).

use vstd::prelude::*;

verus! {

/// A decimal amount, held as millionths of a unit:
/// `FixedDec { micro: 12_500_000 }` is 12.5.
#[derive(Clone, Copy, Debug, PartialEq, Eq, Structural)]
pub struct FixedDec {
    pub micro: i64,
}

impl FixedDec {
    /// The zero amount, the initial value of every decimal gauge.
    pub open spec fn zero_spec() -> FixedDec {
        FixedDec { micro: 0 }
    }

    /// Returns the zero amount.
    pub fn zero() -> (r: FixedDec)
        ensures
            r == FixedDec::zero_spec(),
    {
        FixedDec { micro: 0 }
    }
}

/// Whether `c` is one of the ten decimal digits.
pub open spec fn is_dec_digit(c: char) -> bool {
    '0' as int <= c as int <= '9' as int
}

/// The numeric value of a decimal digit.
pub open spec fn digit_value(c: char) -> int {
    c as int - '0' as int
}

/// The digit for a value below ten.
pub open spec fn digit_char(d: int) -> char {
    if d == 0 {
        '0'
    } else if d == 1 {
        '1'
    } else if d == 2 {
        '2'
    } else if d == 3 {
        '3'
    } else if d == 4 {
        '4'
    } else if d == 5 {
        '5'
    } else if d == 6 {
        '6'
    } else if d == 7 {
        '7'
    } else if d == 8 {
        '8'
    } else {
        '9'
    }
}

/// Whether every character of `s` is a decimal digit.
pub open spec fn all_digits(s: Seq<char>) -> bool {
    forall|i: int| 0 <= i < s.len() ==> is_dec_digit(#[trigger] s[i])
}

/// The value of a digit string read in base ten; 0 for the empty string.
pub open spec fn digits_value(s: Seq<char>) -> int
    decreases s.len(),
{
    if s.len() == 0 {
        0
    } else {
        digits_value(s.drop_last()) * 10 + digit_value(s.last())
    }
}

/// The decimal digit string of `n`, most significant digit first.
pub open spec fn u64_dec_str(n: nat) -> Seq<char>
    decreases n,
{
    if n < 10 {
        seq![digit_char(n as int)]
    } else {
        u64_dec_str(n / 10).push(digit_char((n % 10) as int))
    }
}

/// A digit string never has a negative value.
pub proof fn lemma_digits_value_nonneg(s: Seq<char>)
    requires
        all_digits(s),
    ensures
        digits_value(s) >= 0,
    decreases s.len(),
{
    if s.len() > 0 {
        lemma_digits_value_nonneg(s.drop_last());
    }
}

/// Extending a digit string never shrinks its value.
pub proof fn lemma_digits_value_prefix_le(s: Seq<char>, i: int, j: int)
    requires
        all_digits(s),
        0 <= i <= j <= s.len(),
    ensures
        digits_value(s.take(i)) <= digits_value(s.take(j)),
    decreases j - i,
{
    if i < j {
        lemma_digits_value_prefix_le(s, i, j - 1);
        let t = s.take(j);
        assert(t.drop_last() =~= s.take(j - 1));
        assert(all_digits(t.drop_last()));
        lemma_digits_value_nonneg(t.drop_last());
    }
}

/// Appends the digit for `d` to `s`.
fn append_digit(s: &mut String, d: u64)
    requires
        d < 10,
    ensures
        final(s)@ == old(s)@.push(digit_char(d as int)),
{
    match d {
        0 => {
            proof {
                reveal_strlit("0");
            }
            s.append("0");
        },
        1 => {
            proof {
                reveal_strlit("1");
            }
            s.append("1");
        },
        2 => {
            proof {
                reveal_strlit("2");
            }
            s.append("2");
        },
        3 => {
            proof {
                reveal_strlit("3");
            }
            s.append("3");
        },
        4 => {
            proof {
                reveal_strlit("4");
            }
            s.append("4");
        },
        5 => {
            proof {
                reveal_strlit("5");
            }
            s.append("5");
        },
        6 => {
            proof {
                reveal_strlit("6");
            }
            s.append("6");
        },
        7 => {
            proof {
                reveal_strlit("7");
            }
            s.append("7");
        },
        8 => {
            proof {
                reveal_strlit("8");
            }
            s.append("8");
        },
        _ => {
            proof {
                reveal_strlit("9");
            }
            s.append("9");
        },
    }
    proof {
        assert(s@ =~= old(s)@.push(digit_char(d as int)));
    }
}

/// Appends the decimal digits of `n` to `s`, most significant first.
fn push_decimal_digits(s: &mut String, n: u64)
    ensures
        final(s)@ == old(s)@ + u64_dec_str(n as nat),
    decreases n,
{
    if n >= 10 {
        proof {
            assert(n / 10 < n) by (nonlinear_arith)
                requires
                    n >= 10,
            ;
        }
        push_decimal_digits(s, n / 10);
        append_digit(s, n % 10);
        proof {
            assert(s@ =~= old(s)@ + u64_dec_str(n as nat));
        }
    } else {
        append_digit(s, n);
        proof {
            assert(s@ =~= old(s)@ + u64_dec_str(n as nat));
        }
    }
}

/// Formats `n` as its decimal digit string.
pub fn u64_to_string(n: u64) -> (r: String)
    ensures
        r@ == u64_dec_str(n as nat),
{
    let mut s = String::new();
    push_decimal_digits(&mut s, n);
    proof {
        assert(s@ =~= u64_dec_str(n as nat));
    }
    s
}

/// Ten to the power `n`.
pub open spec fn pow10(n: nat) -> int
    decreases n,
{
    if n == 0 {
        1
    } else {
        10 * pow10((n - 1) as nat)
    }
}

/// Powers of ten are positive.
pub proof fn lemma_pow10_pos(n: nat)
    ensures
        pow10(n) >= 1,
    decreases n,
{
    if n > 0 {
        lemma_pow10_pos((n - 1) as nat);
    }
}

/// Powers of ten grow with the exponent.
pub proof fn lemma_pow10_increases(m: nat, n: nat)
    requires
        m <= n,
    ensures
        pow10(m) <= pow10(n),
    decreases n,
{
    if m < n {
        lemma_pow10_increases(m, (n - 1) as nat);
        lemma_pow10_pos((n - 1) as nat);
    }
}

/// A string of `k` digits has a value below ten to the `k`.
pub proof fn lemma_digits_value_lt_pow(s: Seq<char>)
    requires
        all_digits(s),
    ensures
        digits_value(s) < pow10(s.len()),
    decreases s.len(),
{
    if s.len() > 0 {
        assert(all_digits(s.drop_last()));
        lemma_digits_value_lt_pow(s.drop_last());
    } else {
        lemma_pow10_pos(0);
    }
}

/// The index of the first `'.'` in `s` at or after `i`, or the length of `s`
/// when there is none.
pub open spec fn find_dot(s: Seq<char>, i: int) -> int
    decreases s.len() - i,
{
    if i < 0 || i >= s.len() {
        s.len() as int
    } else if s[i] == '.' {
        i
    } else {
        find_dot(s, i + 1)
    }
}

/// `find_dot` stays within the rest of the string.
pub proof fn lemma_find_dot_bounds(s: Seq<char>, i: int)
    requires
        0 <= i <= s.len(),
    ensures
        i <= find_dot(s, i) <= s.len(),
    decreases s.len() - i,
{
    if i < s.len() && s[i] != '.' {
        lemma_find_dot_bounds(s, i + 1);
    }
}

/// `find_dot` passes over a run of digits unchanged.
pub proof fn lemma_find_dot_skips_digits(s: Seq<char>, i: int, j: int)
    requires
        0 <= i <= j <= s.len(),
        forall|k: int| i <= k < j ==> is_dec_digit(#[trigger] s[k]),
    ensures
        find_dot(s, i) == find_dot(s, j),
    decreases j - i,
{
    if i < j {
        assert(is_dec_digit(s[i]));
        assert(s[i] != '.');
        lemma_find_dot_skips_digits(s, i + 1, j);
    }
}

/// Whether `s`, without any sign, is a well-formed decimal string: one or
/// more digits, optionally followed by a dot and one or more digits.
pub open spec fn valid_unsigned_decimal(s: Seq<char>) -> bool {
    let d = find_dot(s, 0);
    if d == s.len() {
        s.len() > 0 && all_digits(s)
    } else {
        1 <= d && d + 1 < s.len() && all_digits(s.take(d)) && all_digits(s.skip(d + 1))
    }
}

/// The fraction digits of a decimal string, read as millionths: the first
/// six digits count, anything beyond the sixth is cut off toward zero.
pub open spec fn frac_micro(s: Seq<char>) -> int {
    let k: int = if s.len() < 6 {
        s.len() as int
    } else {
        6
    };
    digits_value(s.take(k)) * pow10((6 - k) as nat)
}

/// The value of an unsigned decimal string in millionths.
pub open spec fn unsigned_micro(s: Seq<char>) -> int {
    let d = find_dot(s, 0);
    if d == s.len() {
        digits_value(s) * 1000000
    } else {
        digits_value(s.take(d)) * 1000000 + frac_micro(s.skip(d + 1))
    }
}

/// Whether `s` is a well-formed decimal string, with an optional leading
/// minus sign.
pub open spec fn is_decimal_string(s: Seq<char>) -> bool {
    if s.len() > 0 && s[0] == '-' {
        valid_unsigned_decimal(s.skip(1))
    } else {
        valid_unsigned_decimal(s)
    }
}

/// The value of a well-formed decimal string in millionths.
pub open spec fn decimal_micro(s: Seq<char>) -> int {
    if s.len() > 0 && s[0] == '-' {
        -unsigned_micro(s.skip(1))
    } else {
        unsigned_micro(s)
    }
}

/// Whether the value of `s` in millionths is representable as an `i64`.
pub open spec fn decimal_fits_i64(s: Seq<char>) -> bool {
    i64::MIN <= decimal_micro(s) <= i64::MAX
}

/// What parsing a decimal string returns: its value in millionths when the
/// string is well formed and the value representable, nothing otherwise.
pub open spec fn parse_decimal_spec(s: Seq<char>) -> Option<FixedDec> {
    if is_decimal_string(s) && decimal_fits_i64(s) {
        Some(FixedDec { micro: decimal_micro(s) as i64 })
    } else {
        None
    }
}

/// The fraction part of a well-formed decimal string never counts negative.
proof fn lemma_frac_micro_nonneg(s: Seq<char>)
    requires
        all_digits(s),
    ensures
        frac_micro(s) >= 0,
{
    let k: int = if s.len() < 6 {
        s.len() as int
    } else {
        6
    };
    assert(all_digits(s.take(k)));
    lemma_digits_value_nonneg(s.take(k));
    lemma_pow10_pos((6 - k) as nat);
    vstd::arithmetic::mul::lemma_mul_nonnegative(digits_value(s.take(k)), pow10((6 - k) as nat));
}

/// Returns the index of the first character at or after `from` that is not
/// a decimal digit, or the length of `s` when the digits reach its end.
fn scan_digits(s: &str, from: usize) -> (r: usize)
    requires
        from <= s@.len(),
    ensures
        from <= r <= s@.len(),
        forall|k: int| from <= k < r ==> is_dec_digit(#[trigger] s@[k]),
        r < s@.len() ==> !is_dec_digit(s@[r as int]),
{
    let n = s.unicode_len();
    let mut i: usize = from;
    while i < n
        invariant_except_break
            from <= i <= n,
            n == s@.len(),
            forall|k: int| from <= k < i ==> is_dec_digit(#[trigger] s@[k]),
        ensures
            from <= i <= n,
            n == s@.len(),
            forall|k: int| from <= k < i ==> is_dec_digit(#[trigger] s@[k]),
            i < n ==> !is_dec_digit(s@[i as int]),
        decreases n - i,
    {
        let c = s.get_char(i);
        let cv = c as u32;
        if !(cv >= 48 && cv <= 57) {
            proof {
                assert(!is_dec_digit(s@[i as int]));
            }
            break;
        }
        proof {
            assert(is_dec_digit(s@[i as int]));
        }
        i = i + 1;
    }
    i
}

/// Reads the digit run `s[from..to]` in base ten, or reports that its value
/// is too large for an `i64`.
fn digits_to_value(s: &str, from: usize, to: usize) -> (r: Option<i64>)
    requires
        from <= to <= s@.len(),
        forall|k: int| from <= k < to ==> is_dec_digit(#[trigger] s@[k]),
    ensures
        match r {
            Some(v) => 0 <= v && v == digits_value(s@.subrange(from as int, to as int)),
            None => digits_value(s@.subrange(from as int, to as int)) > i64::MAX,
        },
{
    let ghost t = s@.subrange(from as int, to as int);
    proof {
        assert(all_digits(t));
    }
    let mut acc: i128 = 0;
    let mut i: usize = from;
    while i < to
        invariant
            from <= i <= to <= s@.len(),
            forall|k: int| from <= k < to ==> is_dec_digit(#[trigger] s@[k]),
            t == s@.subrange(from as int, to as int),
            all_digits(t),
            acc == digits_value(t.take(i - from)),
            0 <= acc <= i64::MAX,
        decreases to - i,
    {
        let c = s.get_char(i);
        let cv = c as u32;
        let d: i128 = (cv - 48) as i128;
        proof {
            assert(c == t[i - from]);
            assert(is_dec_digit(c));
            assert(d == digit_value(c));
        }
        let next: i128 = acc * 10 + d;
        proof {
            let j = i - from;
            assert(t.take(j + 1).drop_last() =~= t.take(j));
            assert(t.take(j + 1).last() == t[j]);
            assert(next == digits_value(t.take(j + 1)));
        }
        if next > i64::MAX as i128 {
            proof {
                lemma_digits_value_prefix_le(t, i - from + 1, t.len() as int);
                assert(t.take(t.len() as int) =~= t);
            }
            return None;
        }
        acc = next;
        i = i + 1;
    }
    proof {
        assert(t.take(t.len() as int) =~= t);
    }
    Some(acc as i64)
}

/// Reads the fraction digits `s[from..to]` as millionths: the first six
/// digits count, anything beyond the sixth is cut off toward zero.
fn frac_to_micro(s: &str, from: usize, to: usize) -> (r: i64)
    requires
        from <= to <= s@.len(),
        forall|k: int| from <= k < to ==> is_dec_digit(#[trigger] s@[k]),
    ensures
        r == frac_micro(s@.subrange(from as int, to as int)),
        0 <= r < 1000000,
{
    let ghost t = s@.subrange(from as int, to as int);
    proof {
        assert(all_digits(t));
    }
    let len: usize = to - from;
    let k: usize = if len < 6 {
        len
    } else {
        6
    };
    let mut acc: i64 = 0;
    let mut i: usize = 0;
    while i < k
        invariant
            0 <= i <= k <= 6,
            k <= len,
            len == to - from,
            from <= to <= s@.len(),
            forall|j: int| from <= j < to ==> is_dec_digit(#[trigger] s@[j]),
            t == s@.subrange(from as int, to as int),
            all_digits(t),
            acc == digits_value(t.take(i as int)),
            0 <= acc,
            acc < 100000 || i == 6,
            i == 6 ==> acc < 1000000,
        decreases k - i,
    {
        let c = s.get_char(from + i);
        let cv = c as u32;
        let d: i64 = (cv - 48) as i64;
        proof {
            assert(c == t[i as int]);
            assert(is_dec_digit(c));
            assert(d == digit_value(c));
        }
        let next: i64 = acc * 10 + d;
        proof {
            let j = i as int;
            assert(t.take(j + 1).drop_last() =~= t.take(j));
            assert(t.take(j + 1).last() == t[j]);
            assert(next == digits_value(t.take(j + 1)));
            assert(all_digits(t.take(j + 1)));
            lemma_digits_value_lt_pow(t.take(j + 1));
            lemma_pow10_increases((j + 1) as nat, 6);
            reveal_with_fuel(pow10, 8);
        }
        acc = next;
        i = i + 1;
    }
    proof {
        reveal_with_fuel(pow10, 8);
        assert(all_digits(t.take(k as int)));
        lemma_digits_value_lt_pow(t.take(k as int));
    }
    if k == 0 {
        proof {
            assert(t.take(0) =~= Seq::<char>::empty());
        }
        0
    } else if k == 1 {
        acc * 100000
    } else if k == 2 {
        acc * 10000
    } else if k == 3 {
        acc * 1000
    } else if k == 4 {
        acc * 100
    } else if k == 5 {
        acc * 10
    } else {
        acc
    }
}

/// Parses a decimal string — an optional minus sign, one or more digits,
/// then optionally a dot and one or more digits — into millionths of a
/// unit, cutting fraction digits beyond the sixth off toward zero.
/// Returns `None` when the string is not of that shape or its value does
/// not fit.
pub fn parse_decimal(s: &str) -> (r: Option<FixedDec>)
    ensures
        r == parse_decimal_spec(s@),
{
    let n = s.unicode_len();
    if n == 0 {
        return None;
    }
    let neg = s.get_char(0) == '-';
    let off: usize = if neg {
        1
    } else {
        0
    };
    let ghost u = s@.skip(off as int);
    proof {
        if !neg {
            assert(u =~= s@);
        }
    }
    let int_end = scan_digits(s, off);
    let ghost j0 = int_end - off;
    if int_end == off {
        proof {
            lemma_no_leading_digit(s@, u, off as int);
        }
        return None;
    }
    proof {
        assert(forall|k: int| 0 <= k < j0 ==> is_dec_digit(#[trigger] u[k]));
    }
    if int_end == n {
        // no dot: the whole unsigned part is digits
        proof {
            lemma_find_dot_skips_digits(u, 0, j0);
            assert(find_dot(u, j0) == u.len());
            assert(u.take(j0) =~= u);
        }
        let iv_opt = digits_to_value(s, off, int_end);
        proof {
            assert(s@.subrange(off as int, int_end as int) =~= u);
        }
        match iv_opt {
            Some(iv) => {
                let mag: i128 = (iv as i128) * 1000000;
                proof {
                    assert(unsigned_micro(u) == mag);
                }
                finish_decimal(neg, mag, Ghost(s@), Ghost(u))
            },
            None => {
                proof {
                    lemma_magnitude_large(u, s@, neg);
                }
                None
            },
        }
    } else {
        let c = s.get_char(int_end);
        if c != '.' {
            proof {
                lemma_no_dot_after_digits(u, j0);
            }
            return None;
        }
        proof {
            assert(u[j0] == '.');
            lemma_find_dot_skips_digits(u, 0, j0);
            assert(find_dot(u, 0) == j0);
        }
        let frac_start: usize = int_end + 1;
        let frac_end = scan_digits(s, frac_start);
        if frac_end == frac_start {
            // a dot with no fraction digits is not a decimal string
            proof {
                if frac_start < n {
                    assert(u[j0 + 1] == s@[frac_start as int]);
                    assert(!is_dec_digit(u[j0 + 1]));
                    assert(u.skip(j0 + 1)[0] == u[j0 + 1]);
                    assert(!all_digits(u.skip(j0 + 1)));
                } else {
                    assert(j0 + 1 == u.len());
                }
                assert(!valid_unsigned_decimal(u));
            }
            return None;
        }
        if frac_end != n {
            // a character after the fraction digits that is no digit
            proof {
                let jf = frac_end - off;
                assert(u[jf] == s@[frac_end as int]);
                assert(!is_dec_digit(u[jf]));
                assert(u.skip(j0 + 1)[jf - (j0 + 1)] == u[jf]);
                assert(!all_digits(u.skip(j0 + 1)));
                assert(!valid_unsigned_decimal(u));
            }
            return None;
        }
        proof {
            assert(u.skip(j0 + 1) =~= s@.subrange(frac_start as int, frac_end as int));
            assert(forall|k: int|
                frac_start <= k < frac_end ==> is_dec_digit(#[trigger] s@[k]));
            assert(valid_unsigned_decimal(u));
        }
        let iv_opt = digits_to_value(s, off, int_end);
        proof {
            assert(s@.subrange(off as int, int_end as int) =~= u.take(j0));
        }
        match iv_opt {
            Some(iv) => {
                let frac = frac_to_micro(s, frac_start, frac_end);
                let mag: i128 = (iv as i128) * 1000000 + (frac as i128);
                proof {
                    assert(unsigned_micro(u) == mag);
                }
                finish_decimal(neg, mag, Ghost(s@), Ghost(u))
            },
            None => {
                proof {
                    lemma_magnitude_large(u, s@, neg);
                }
                None
            },
        }
    }
}

/// Applies the sign and the `i64` range check to a parsed magnitude.
fn finish_decimal(neg: bool, mag: i128, Ghost(sv): Ghost<Seq<char>>, Ghost(u): Ghost<Seq<char>>) -> (r: Option<FixedDec>)
    requires
        0 <= mag,
        mag == unsigned_micro(u),
        valid_unsigned_decimal(u),
        neg ==> sv.len() > 0 && sv[0] == '-' && u == sv.skip(1),
        !neg ==> u == sv && (sv.len() == 0 || sv[0] != '-'),
    ensures
        r == parse_decimal_spec(sv),
{
    proof {
        assert(is_decimal_string(sv));
        if neg {
            assert(decimal_micro(sv) == -mag);
        } else {
            assert(decimal_micro(sv) == mag);
        }
    }
    let val: i128 = if neg {
        -mag
    } else {
        mag
    };
    if val < i64::MIN as i128 || val > i64::MAX as i128 {
        return None;
    }
    Some(FixedDec { micro: val as i64 })
}

/// A well-formed unsigned decimal string starts with a digit; a string that
/// does not (or is empty) is not one.
proof fn lemma_no_leading_digit(sv: Seq<char>, u: Seq<char>, off: int)
    requires
        0 <= off <= sv.len(),
        u == sv.skip(off),
        u.len() > 0 ==> !is_dec_digit(u[0]),
    ensures
        !valid_unsigned_decimal(u),
{
    let d = find_dot(u, 0);
    lemma_find_dot_bounds(u, 0);
    if u.len() == 0 {
    } else if d == u.len() {
        assert(!(all_digits(u) && u.len() > 0)) by {
            if all_digits(u) {
                assert(is_dec_digit(u[0]));
            }
        }
    } else {
        if 1 <= d {
            assert(all_digits(u.take(d)) ==> is_dec_digit(u.take(d)[0]));
        }
    }
}

/// When a run of digits ends at a character that is neither a digit nor a
/// dot, the string is not a well-formed unsigned decimal.
proof fn lemma_no_dot_after_digits(u: Seq<char>, j0: int)
    requires
        0 <= j0 < u.len(),
        forall|k: int| 0 <= k < j0 ==> is_dec_digit(#[trigger] u[k]),
        !is_dec_digit(u[j0]),
        u[j0] != '.',
    ensures
        !valid_unsigned_decimal(u),
{
    let d = find_dot(u, 0);
    lemma_find_dot_skips_digits(u, 0, j0);
    lemma_find_dot_bounds(u, j0 + 1);
    // the first dot lies strictly after j0
    assert(find_dot(u, j0) == find_dot(u, j0 + 1));
    if d == u.len() {
        assert(all_digits(u) ==> is_dec_digit(u[j0]));
    } else {
        assert(d > j0);
        assert(all_digits(u.take(d)) ==> is_dec_digit(u.take(d)[j0]));
    }
}

/// When the integer digits alone exceed `i64::MAX`, the value of the whole
/// string lies outside the `i64` range, whatever its sign.
proof fn lemma_magnitude_large(u: Seq<char>, sv: Seq<char>, neg: bool)
    requires
        valid_unsigned_decimal(u),
        ({
            let d = find_dot(u, 0);
            if d == u.len() {
                digits_value(u) > i64::MAX
            } else {
                digits_value(u.take(d)) > i64::MAX
            }
        }),
        neg ==> sv.len() > 0 && sv[0] == '-' && u == sv.skip(1),
        !neg ==> u == sv && (sv.len() == 0 || sv[0] != '-'),
    ensures
        parse_decimal_spec(sv) is None,
{
    let d = find_dot(u, 0);
    if d == u.len() {
        assert(unsigned_micro(u) == digits_value(u) * 1000000);
        assert(digits_value(u) * 1000000 > i64::MAX) by (nonlinear_arith)
            requires
                digits_value(u) > i64::MAX,
        ;
    } else {
        assert(all_digits(u.skip(d + 1)));
        lemma_frac_micro_nonneg(u.skip(d + 1));
        assert(digits_value(u.take(d)) * 1000000 > i64::MAX) by (nonlinear_arith)
            requires
                digits_value(u.take(d)) > i64::MAX,
        ;
    }
    assert(unsigned_micro(u) > i64::MAX);
    if neg {
        assert(decimal_micro(sv) == -unsigned_micro(u));
        assert(decimal_micro(sv) < i64::MIN);
    } else {
        assert(decimal_micro(sv) > i64::MAX);
    }
}

} // verus!
