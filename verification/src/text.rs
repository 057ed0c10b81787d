//! Text building blocks of the line format: label normalization, decimal
//! rendering and right-justified fields.

use vstd::prelude::*;

verus! {

/// `String::push` appends one character to the end of the string.
pub assume_specification[ String::push ](s: &mut String, ch: char)
    ensures
        final(s)@ == old(s)@.push(ch),
;

/// The texts that the strings of `strings` hold, in order.
pub open spec fn texts(strings: Seq<String>) -> Seq<Seq<char>> {
    Seq::new(strings.len(), |i: int| strings[i]@)
}

/// A space becomes an underscore; every other character stays.
pub open spec fn normalized_char(c: char) -> char {
    if c == ' ' {
        '_'
    } else {
        c
    }
}

/// The label with every space replaced by an underscore.
pub open spec fn normalized(s: Seq<char>) -> Seq<char> {
    Seq::new(s.len(), |i: int| normalized_char(s[i]))
}

/// Replaces every space of `s` with an underscore.
pub fn normalize(s: &str) -> (r: String)
    ensures
        r@ == normalized(s@),
{
    let mut r = String::new();
    for c in it: s.chars()
        invariant
            it.seq() == s@,
            r@ == normalized(s@.take(it.index() as int)),
    {
        let d = if c == ' ' { '_' } else { c };
        r.push(d);
        assert(r@ =~= normalized(s@.take(it.index() + 1)));
    }
    assert(s@.take(s@.len() as int) =~= s@);
    r
}

/// The character that writes the decimal digit `d`.
pub open spec fn digit(d: int) -> char {
    if d == 0 {
        '0'
    } else if d == 1 {
        '1'
    } else if d == 2 {
        '2'
    } else if d == 3 {
        '3'
    } else if d == 4 {
        '4'
    } else if d == 5 {
        '5'
    } else if d == 6 {
        '6'
    } else if d == 7 {
        '7'
    } else if d == 8 {
        '8'
    } else {
        '9'
    }
}

/// `n` in base ten, most significant digit first, without leading zeros.
pub open spec fn decimal(n: nat) -> Seq<char>
    decreases n,
{
    if n < 10 {
        seq![digit(n as int)]
    } else {
        decimal(n / 10).push(digit((n % 10) as int))
    }
}

/// `v` in base ten, with a leading minus sign when it is negative.
pub open spec fn signed_decimal(v: int) -> Seq<char> {
    if v < 0 {
        seq!['-'] + decimal((-v) as nat)
    } else {
        decimal(v as nat)
    }
}

/// The last `digits` decimal digits of `n`, with leading zeros kept.
pub open spec fn zero_padded(n: nat, digits: nat) -> Seq<char>
    decreases digits,
{
    if digits == 0 {
        Seq::empty()
    } else {
        zero_padded(n / 10, (digits - 1) as nat).push(digit((n % 10) as int))
    }
}

/// Ten to the power `e`.
pub open spec fn pow10(e: nat) -> nat
    decreases e,
{
    if e == 0 {
        1
    } else {
        10 * pow10((e - 1) as nat)
    }
}

/// `units` counted in steps of `10^-decimals`, written as a whole part, a
/// point and exactly `decimals` fractional digits.
pub open spec fn fixed_point(units: nat, decimals: nat) -> Seq<char> {
    decimal(units / pow10(decimals)) + seq!['.'] + zero_padded(units % pow10(decimals), decimals)
}

/// `n` spaces.
pub open spec fn spaces(n: nat) -> Seq<char> {
    Seq::new(n, |i: int| ' ')
}

/// `field` padded with spaces on the left up to `width` characters; a field
/// that is already that wide stays as it is.
pub open spec fn right_justified(field: Seq<char>, width: nat) -> Seq<char> {
    if field.len() >= width {
        field
    } else {
        spaces((width - field.len()) as nat) + field
    }
}

/// The character of one decimal digit.
pub fn digit_char(d: u8) -> (c: char)
    requires
        d < 10,
    ensures
        c == digit(d as int),
{
    if d == 0 {
        '0'
    } else if d == 1 {
        '1'
    } else if d == 2 {
        '2'
    } else if d == 3 {
        '3'
    } else if d == 4 {
        '4'
    } else if d == 5 {
        '5'
    } else if d == 6 {
        '6'
    } else if d == 7 {
        '7'
    } else if d == 8 {
        '8'
    } else {
        '9'
    }
}

/// Appends `n` in base ten.
pub fn push_decimal(out: &mut String, n: u128)
    ensures
        final(out)@ == old(out)@ + decimal(n as nat),
    decreases n,
{
    if n >= 10 {
        push_decimal(out, n / 10);
    }
    out.push(digit_char((n % 10) as u8));
    assert(out@ =~= old(out)@ + decimal(n as nat));
}

/// Appends `v` in base ten, with its sign when negative.
pub fn push_signed_decimal(out: &mut String, v: i64)
    ensures
        final(out)@ == old(out)@ + signed_decimal(v as int),
{
    if v < 0 {
        out.push('-');
        let magnitude: u128 = (-(v as i128)) as u128;
        push_decimal(out, magnitude);
        assert(out@ =~= old(out)@ + signed_decimal(v as int));
    } else {
        push_decimal(out, v as u128);
    }
}

/// Appends the last `digits` decimal digits of `n`, leading zeros included.
pub fn push_zero_padded(out: &mut String, n: u128, digits: u32)
    ensures
        final(out)@ == old(out)@ + zero_padded(n as nat, digits as nat),
    decreases digits,
{
    if digits > 0 {
        push_zero_padded(out, n / 10, digits - 1);
        out.push(digit_char((n % 10) as u8));
    }
    assert(out@ =~= old(out)@ + zero_padded(n as nat, digits as nat));
}

/// Ten to the power `e`, for the exponents that fit.
pub fn ten_to(e: u32) -> (p: u128)
    requires
        e <= 38,
    ensures
        p == pow10(e as nat),
        p >= 1,
{
    let mut p: u128 = 1;
    let mut i: u32 = 0;
    proof {
        lemma_pow10_monotonic(0, 38);
    }
    while i < e
        invariant
            i <= e <= 38,
            p == pow10(i as nat),
            1 <= p,
            p <= pow10(38),
        decreases e - i,
    {
        proof {
            lemma_pow10_monotonic((i + 1) as nat, 38);
            lemma_pow10_38();
        }
        p = p * 10;
        i = i + 1;
    }
    p
}

/// The largest power of ten below `2^128`.
pub proof fn lemma_pow10_38()
    ensures
        pow10(38) == 100000000000000000000000000000000000000,
{
    assert(pow10(0) == 1);
    assert(pow10(1) == 10);
    assert(pow10(2) == 100);
    assert(pow10(3) == 1000);
    assert(pow10(4) == 10000);
    assert(pow10(5) == 100000);
    assert(pow10(6) == 1000000);
    assert(pow10(7) == 10000000);
    assert(pow10(8) == 100000000);
    assert(pow10(9) == 1000000000);
    assert(pow10(10) == 10000000000);
    assert(pow10(11) == 100000000000);
    assert(pow10(12) == 1000000000000);
    assert(pow10(13) == 10000000000000);
    assert(pow10(14) == 100000000000000);
    assert(pow10(15) == 1000000000000000);
    assert(pow10(16) == 10000000000000000);
    assert(pow10(17) == 100000000000000000);
    assert(pow10(18) == 1000000000000000000);
    assert(pow10(19) == 10000000000000000000);
    assert(pow10(20) == 100000000000000000000);
    assert(pow10(21) == 1000000000000000000000);
    assert(pow10(22) == 10000000000000000000000);
    assert(pow10(23) == 100000000000000000000000);
    assert(pow10(24) == 1000000000000000000000000);
    assert(pow10(25) == 10000000000000000000000000);
    assert(pow10(26) == 100000000000000000000000000);
    assert(pow10(27) == 1000000000000000000000000000);
    assert(pow10(28) == 10000000000000000000000000000);
    assert(pow10(29) == 100000000000000000000000000000);
    assert(pow10(30) == 1000000000000000000000000000000);
    assert(pow10(31) == 10000000000000000000000000000000);
    assert(pow10(32) == 100000000000000000000000000000000);
    assert(pow10(33) == 1000000000000000000000000000000000);
    assert(pow10(34) == 10000000000000000000000000000000000);
    assert(pow10(35) == 100000000000000000000000000000000000);
    assert(pow10(36) == 1000000000000000000000000000000000000);
    assert(pow10(37) == 10000000000000000000000000000000000000);
    assert(pow10(38) == 100000000000000000000000000000000000000);
}

/// A larger exponent gives a larger power of ten.
pub proof fn lemma_pow10_monotonic(a: nat, b: nat)
    requires
        a <= b,
    ensures
        1 <= pow10(a) <= pow10(b),
    decreases b,
{
    if a == 0 {
        if b > 0 {
            lemma_pow10_monotonic(0, (b - 1) as nat);
        }
    } else {
        lemma_pow10_monotonic((a - 1) as nat, (b - 1) as nat);
    }
}

/// Appends `units`, counted in steps of `10^-decimals`, as a whole part, a
/// point and `decimals` fractional digits.
pub fn push_fixed_point(out: &mut String, units: u128, decimals: u32)
    requires
        decimals <= 38,
    ensures
        final(out)@ == old(out)@ + fixed_point(units as nat, decimals as nat),
{
    let p = ten_to(decimals);
    push_decimal(out, units / p);
    out.push('.');
    push_zero_padded(out, units % p, decimals);
    assert(out@ =~= old(out)@ + fixed_point(units as nat, decimals as nat));
}

/// Appends `n` spaces.
pub fn push_spaces(out: &mut String, n: usize)
    ensures
        final(out)@ == old(out)@ + spaces(n as nat),
{
    let mut i: usize = 0;
    assert(out@ =~= old(out)@ + spaces(0));
    while i < n
        invariant
            i <= n,
            out@ == old(out)@ + spaces(i as nat),
        decreases n - i,
    {
        out.push(' ');
        i = i + 1;
        assert(out@ =~= old(out)@ + spaces(i as nat));
    }
}

/// Appends `field`, padded with spaces on the left up to `width` characters.
pub fn push_right_justified(out: &mut String, field: &str, width: usize)
    ensures
        final(out)@ == old(out)@ + right_justified(field@, width as nat),
{
    let len = field.unicode_len();
    if len < width {
        push_spaces(out, width - len);
    }
    out.append(field);
    assert(out@ =~= old(out)@ + right_justified(field@, width as nat));
}

} // verus!
