use vstd::prelude::*;

verus! {

/// The character of a decimal digit.
pub open spec fn digit(d: nat) -> char {
    if d == 0 { '0' }
    else if d == 1 { '1' }
    else if d == 2 { '2' }
    else if d == 3 { '3' }
    else if d == 4 { '4' }
    else if d == 5 { '5' }
    else if d == 6 { '6' }
    else if d == 7 { '7' }
    else if d == 8 { '8' }
    else { '9' }
}

/// A natural number written in decimal, without leading zeros.
pub open spec fn dec(n: nat) -> Seq<char>
    decreases n,
{
    if n < 10 {
        seq![digit(n)]
    } else {
        dec(n / 10).push(digit(n % 10))
    }
}

/// A natural number written in decimal, zero-padded to at least two digits.
pub open spec fn pad2(n: nat) -> Seq<char> {
    if n < 10 { seq!['0', digit(n)] } else { dec(n) }
}

/// `h` hundredths written with exactly two decimals (`1234` is `12.34`).
pub open spec fn fixed2(h: nat) -> Seq<char> {
    dec(h / 100) + seq!['.', digit((h % 100) / 10), digit(h % 10)]
}

/// `a / b` rounded to the nearest natural number, ties to the even one.
pub open spec fn nearest(a: nat, b: nat) -> nat
    recommends
        b > 0,
{
    let q = a / b;
    let r = a % b;
    if 2 * r > b || (2 * r == b && q % 2 == 1) {
        q + 1
    } else {
        q
    }
}

/// `used / total * 100` in hundredths of a percent, if `total` is not zero.
pub open spec fn percent_hundredths(used: nat, total: nat) -> Option<nat> {
    if total == 0 {
        None
    } else {
        Some(nearest(used * 10000, total))
    }
}

/// A percentage with two decimals; a zero total gives not-a-number.
pub open spec fn percent_seq(used: nat, total: nat) -> Seq<char> {
    match percent_hundredths(used, total) {
        Some(h) => fixed2(h),
        None => seq!['N', 'a', 'N'],
    }
}

/// `x / divisor` with two decimals.
pub open spec fn scaled2(x: nat, divisor: nat) -> Seq<char> {
    fixed2(nearest(x * 100, divisor))
}

/// `nearest(a, b)` is within half of `b` of `a / b`, scaled by `b`.
pub proof fn lemma_nearest(a: nat, b: nat)
    requires
        b > 0,
    ensures
        2 * (nearest(a, b) * b - a) <= b,
        2 * (a - nearest(a, b) * b) <= b,
{
    let q = a / b;
    let r = a % b;
    assert(a == q * b + r) by (nonlinear_arith)
        requires q == a / b, r == a % b, b > 0;
    assert((q + 1) * b == q * b + b) by (nonlinear_arith);
}

/// Rounding to the nearest keeps the order of the numerators.
pub proof fn lemma_nearest_monotonic(a1: nat, a2: nat, b: nat)
    requires
        b > 0,
        a1 <= a2,
    ensures
        nearest(a1, b) <= nearest(a2, b),
{
    let q1 = a1 / b;
    let q2 = a2 / b;
    assert(q1 <= q2) by (nonlinear_arith)
        requires q1 == a1 / b, q2 == a2 / b, a1 <= a2, b > 0;
    if q1 == q2 {
        assert(a1 % b <= a2 % b) by (nonlinear_arith)
            requires q1 == a1 / b, q2 == a2 / b, q1 == q2, a1 <= a2, b > 0;
    }
}

/// An exact quotient is its own nearest value.
pub proof fn lemma_nearest_exact(k: nat, b: nat)
    requires
        b > 0,
    ensures
        nearest(k * b, b) == k,
{
    assert((k * b) / b == k && (k * b) % b == 0) by (nonlinear_arith)
        requires b > 0;
}

/// `a / b` rounded to the nearest integer, ties to the even one.
pub fn round_div(a: u128, b: u128) -> (r: u128)
    requires
        b > 0,
    ensures
        r == nearest(a as nat, b as nat),
{
    let q = a / b;
    let rem = a % b;
    assert(rem < b);
    if rem > b - rem || (rem == b - rem && q % 2 == 1) {
        assert(q + 1 <= a) by (nonlinear_arith)
            requires
                q == a / b,
                rem == a % b,
                rem > 0,
                b > 0,
        ;
        q + 1
    } else {
        q
    }
}

fn push_digit(s: &mut String, d: u128)
    requires
        d < 10,
    ensures
        final(s)@ == old(s)@.push(digit(d as nat)),
{
    proof {
        reveal_strlit("0");
        reveal_strlit("1");
        reveal_strlit("2");
        reveal_strlit("3");
        reveal_strlit("4");
        reveal_strlit("5");
        reveal_strlit("6");
        reveal_strlit("7");
        reveal_strlit("8");
        reveal_strlit("9");
    }
    let t = if d == 0 { "0" }
    else if d == 1 { "1" }
    else if d == 2 { "2" }
    else if d == 3 { "3" }
    else if d == 4 { "4" }
    else if d == 5 { "5" }
    else if d == 6 { "6" }
    else if d == 7 { "7" }
    else if d == 8 { "8" }
    else { "9" };
    s.append(t);
    assert(final(s)@ =~= old(s)@.push(digit(d as nat)));
}

/// Appends `n` in decimal.
pub fn push_dec(s: &mut String, n: u128)
    ensures
        final(s)@ == old(s)@ + dec(n as nat),
    decreases n,
{
    if n >= 10 {
        push_dec(s, n / 10);
    }
    push_digit(s, n % 10);
    assert(final(s)@ =~= old(s)@ + dec(n as nat));
}

/// Appends `n` in decimal, zero-padded to two digits.
pub fn push_pad2(s: &mut String, n: u128)
    ensures
        final(s)@ == old(s)@ + pad2(n as nat),
{
    if n < 10 {
        push_digit(s, 0);
        push_digit(s, n);
        assert(final(s)@ =~= old(s)@ + pad2(n as nat));
    } else {
        push_dec(s, n);
    }
}

/// Appends `h` hundredths with two decimals.
pub fn push_fixed2(s: &mut String, h: u128)
    ensures
        final(s)@ == old(s)@ + fixed2(h as nat),
{
    push_dec(s, h / 100);
    proof { reveal_strlit("."); }
    s.append(".");
    push_digit(s, (h % 100) / 10);
    push_digit(s, h % 10);
    assert(final(s)@ =~= old(s)@ + fixed2(h as nat));
}

/// `h` hundredths as text with two decimals.
pub fn fixed2_text(h: u64) -> (r: String)
    ensures
        r@ == fixed2(h as nat),
{
    let mut s = String::new();
    push_fixed2(&mut s, h as u128);
    assert(s@ =~= fixed2(h as nat));
    s
}

/// `used / total * 100` in hundredths, or `None` for a zero total.
pub fn percent_of(used: u64, total: u64) -> (r: Option<u128>)
    ensures
        r matches Some(h) ==> percent_hundredths(used as nat, total as nat) == Some(h as nat),
        r is None <==> percent_hundredths(used as nat, total as nat) is None,
{
    if total == 0 {
        None
    } else {
        Some(round_div(used as u128 * 10000, total as u128))
    }
}

/// Appends `used / total * 100` with two decimals, or `NaN` for a zero total.
pub fn push_percent(s: &mut String, used: u64, total: u64)
    ensures
        final(s)@ == old(s)@ + percent_seq(used as nat, total as nat),
{
    match percent_of(used, total) {
        Some(h) => push_fixed2(s, h),
        None => {
            proof { reveal_strlit("NaN"); }
            s.append("NaN");
            assert(final(s)@ =~= old(s)@ + percent_seq(used as nat, total as nat));
        },
    }
}

/// Appends `x / divisor` with two decimals.
pub fn push_scaled2(s: &mut String, x: u64, divisor: u64)
    requires
        divisor > 0,
    ensures
        final(s)@ == old(s)@ + scaled2(x as nat, divisor as nat),
{
    push_fixed2(s, round_div(x as u128 * 100, divisor as u128));
}

/// A percentage as text with two decimals, or `NaN` for a zero total.
pub fn percent_text(used: u64, total: u64) -> (r: String)
    ensures
        r@ == percent_seq(used as nat, total as nat),
{
    let mut s = String::new();
    push_percent(&mut s, used, total);
    assert(s@ =~= percent_seq(used as nat, total as nat));
    s
}

} // verus!
