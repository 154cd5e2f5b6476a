//! Fixed-precision numeric formatting for axis labels: a fixed-point price
//! (integer value at scale `10^precision`) becomes its decimal digit string,
//! pinned digit by digit.
use vstd::prelude::*;

verus! {

/// `10^p`.
pub open spec fn pow10(p: nat) -> int
    decreases p,
{
    if p == 0 { 1 } else { 10 * pow10((p - 1) as nat) }
}

/// The character for one decimal digit.
pub open spec fn digit_char(d: int) -> char {
    if d == 0 { '0' } else if d == 1 { '1' } else if d == 2 { '2' }
    else if d == 3 { '3' } else if d == 4 { '4' } else if d == 5 { '5' }
    else if d == 6 { '6' } else if d == 7 { '7' } else if d == 8 { '8' }
    else { '9' }
}

/// Decimal digits of a non-negative integer, most significant first.
pub open spec fn dec_digits(n: int) -> Seq<char>
    recommends 0 <= n,
    decreases n,
{
    if n <= 9 { seq![digit_char(n)] } else { dec_digits(n / 10).push(digit_char(n % 10)) }
}

/// The last `width` decimal digits of `n`, zero-padded.
pub open spec fn padded_digits(n: int, width: nat) -> Seq<char>
    decreases width,
{
    if width == 0 { seq![] } else { padded_digits(n / 10, (width - 1) as nat).push(digit_char(n % 10)) }
}

/// The label for fixed-point `value` at scale `10^precision`: integer part,
/// then a point and exactly `precision` fraction digits; a leading minus for
/// negative values.
pub open spec fn price_chars(value: int, precision: nat) -> Seq<char>
    decreases (if value < 0 { 1int } else { 0int }),
{
    if value < 0 {
        seq!['-'] + price_chars(-value, precision)
    } else if precision == 0 {
        dec_digits(value)
    } else {
        dec_digits(value / pow10(precision)) + seq!['.'] + padded_digits(value % pow10(precision), precision)
    }
}

fn digit(d: i64) -> (r: char)
    requires 0 <= d <= 9,
    ensures r == digit_char(d as int),
{
    if d == 0 { '0' } else if d == 1 { '1' } else if d == 2 { '2' }
    else if d == 3 { '3' } else if d == 4 { '4' } else if d == 5 { '5' }
    else if d == 6 { '6' } else if d == 7 { '7' } else if d == 8 { '8' }
    else { '9' }
}

fn dec_digits_exec(n: i64) -> (r: Vec<char>)
    requires 0 <= n,
    ensures r@ == dec_digits(n as int),
    decreases n,
{
    if n <= 9 {
        let mut r: Vec<char> = Vec::new();
        r.push(digit(n));
        proof { assert(r@ =~= dec_digits(n as int)); }
        r
    } else {
        let mut r = dec_digits_exec(n / 10);
        r.push(digit(n % 10));
        r
    }
}

pub(crate) fn padded_digits_exec(n: i64, width: u8) -> (r: Vec<char>)
    requires 0 <= n,
    ensures r@ == padded_digits(n as int, width as nat),
    decreases width,
{
    if width == 0 {
        let r: Vec<char> = Vec::new();
        proof { assert(r@ =~= padded_digits(n as int, 0)); }
        r
    } else {
        let mut r = padded_digits_exec(n / 10, width - 1);
        r.push(digit(n % 10));
        r
    }
}

fn pow10_exec(p: u8) -> (r: i64)
    requires p <= 9,
    ensures r == pow10(p as nat), r > 0,
    decreases p,
{
    if p == 0 { 1 } else {
        let q = pow10_exec(p - 1);
        proof {
            lemma_pow10_bound(p as nat);
            lemma_pow10_bound((p - 1) as nat);
        }
        10 * q
    }
}

proof fn lemma_pow10_bound(p: nat)
    requires p <= 9,
    ensures 0 < pow10(p) <= 1000000000,
{
    assert(pow10(0) == 1);
    assert(pow10(1) == 10);
    assert(pow10(2) == 100);
    assert(pow10(3) == 1000);
    assert(pow10(4) == 10000);
    assert(pow10(5) == 100000);
    assert(pow10(6) == 1000000);
    assert(pow10(7) == 10000000);
    assert(pow10(8) == 100000000);
    assert(pow10(9) == 1000000000);
}

/// Formats a fixed-point price: `value` is the price times `10^precision`.
pub fn format_price(value: i64, precision: u8) -> (r: Vec<char>)
    requires
        precision <= 9,
        value != i64::MIN,
    ensures
        r@ == price_chars(value as int, precision as nat),
    decreases (if value < 0 { 1int } else { 0int }),
{
    if value < 0 {
        let rest = format_price(-value, precision);
        let mut r: Vec<char> = Vec::new();
        r.push('-');
        let mut i: usize = 0;
        while i < rest.len()
            invariant
                i <= rest.len(),
                rest@ == price_chars(-(value as int), precision as nat),
                r@ == seq!['-'] + rest@.subrange(0, i as int),
            decreases rest.len() - i,
        {
            r.push(rest[i]);
            i = i + 1;
            proof {
                assert(r@ =~= seq!['-'] + rest@.subrange(0, i as int));
            }
        }
        proof {
            assert(rest@.subrange(0, rest@.len() as int) =~= rest@);
        }
        r
    } else if precision == 0 {
        dec_digits_exec(value)
    } else {
        let scale = pow10_exec(precision);
        let mut r = dec_digits_exec(value / scale);
        r.push('.');
        let frac = padded_digits_exec(value % scale, precision);
        let ghost mid = r@;
        let mut i: usize = 0;
        while i < frac.len()
            invariant
                i <= frac.len(),
                frac@ == padded_digits(value as int % pow10(precision as nat), precision as nat),
                mid == dec_digits(value as int / pow10(precision as nat)).push('.'),
                r@ == mid + frac@.subrange(0, i as int),
            decreases frac.len() - i,
        {
            r.push(frac[i]);
            i = i + 1;
            proof {
                assert(r@ =~= mid + frac@.subrange(0, i as int));
            }
        }
        proof {
            assert(frac@.subrange(0, frac@.len() as int) =~= frac@);
            assert(mid + frac@ =~= price_chars(value as int, precision as nat));
        }
        r
    }
}

/// Digit count bound: a value under `10^k` has at most `k` digits.
proof fn lemma_dec_digits_len(n: int, k: nat)
    requires 0 <= n < pow10(k), 1 <= k,
    ensures 1 <= dec_digits(n).len() <= k,
    decreases k,
{
    if n > 9 {
        assert(pow10(k) == 10 * pow10((k - 1) as nat));
        assert(n / 10 < pow10((k - 1) as nat)) by (nonlinear_arith)
            requires n < 10 * pow10((k - 1) as nat), 0 <= n,
        ;
        lemma_dec_digits_len(n / 10, (k - 1) as nat);
    }
}

/// The label's length for a bounded price: at most 21 characters.
pub proof fn lemma_price_chars_len(value: int, precision: nat)
    requires
        -0x1000_0000_0000 <= value <= 0x1000_0000_0000,
        precision <= 9,
    ensures
        1 <= price_chars(value, precision).len() <= 25,
        value >= 0 ==> price_chars(value, precision).len() <= 24,
    decreases (if value < 0 { 1int } else { 0int }),
{
    lemma_pow10_bound(precision);
    lemma_pow10_fourteen();
    if value < 0 {
        lemma_price_chars_len(-value, precision);
    } else if precision == 0 {
        lemma_dec_digits_len(value, 14);
    } else {
        assert(value / pow10(precision) <= value) by (nonlinear_arith)
            requires 0 <= value, pow10(precision) >= 1,
        ;
        assert(value / pow10(precision) >= 0) by (nonlinear_arith)
            requires 0 <= value, pow10(precision) >= 1,
        ;
        lemma_dec_digits_len(value / pow10(precision), 14);
        lemma_padded_len(value % pow10(precision), precision);
    }
}

proof fn lemma_pow10_fourteen()
    ensures pow10(14) == 100000000000000,
{
    assert(pow10(0) == 1);
    assert(pow10(1) == 10);
    assert(pow10(2) == 100);
    assert(pow10(3) == 1000);
    assert(pow10(4) == 10000);
    assert(pow10(5) == 100000);
    assert(pow10(6) == 1000000);
    assert(pow10(7) == 10000000);
    assert(pow10(8) == 100000000);
    assert(pow10(9) == 1000000000);
    assert(pow10(10) == 10000000000);
    assert(pow10(11) == 100000000000);
    assert(pow10(12) == 1000000000000);
    assert(pow10(13) == 10000000000000);
    assert(pow10(14) == 100000000000000);
}

pub(crate) proof fn lemma_padded_len(n: int, width: nat)
    ensures padded_digits(n, width).len() == width,
    decreases width,
{
    if width > 0 {
        lemma_padded_len(n / 10, (width - 1) as nat);
    }
}

} // verus!
