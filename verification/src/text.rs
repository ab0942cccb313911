//! Numbers as text: decimal digits, fixed-point figures and rounding.

use vstd::prelude::*;

verus! {

/// The character of one decimal digit.
pub open spec fn digit_char(d: nat) -> char
    recommends
        d < 10,
{
    if d == 0 {
        '0'
    } else if d == 1 {
        '1'
    } else if d == 2 {
        '2'
    } else if d == 3 {
        '3'
    } else if d == 4 {
        '4'
    } else if d == 5 {
        '5'
    } else if d == 6 {
        '6'
    } else if d == 7 {
        '7'
    } else if d == 8 {
        '8'
    } else {
        '9'
    }
}

/// A number in decimal digits, without leading zeros.
pub open spec fn decimal(n: nat) -> Seq<char>
    decreases n,
{
    if n < 10 {
        seq![digit_char(n)]
    } else {
        decimal(n / 10).push(digit_char(n % 10))
    }
}

/// The last `width` decimal digits of a number, with zeros in front where it
/// has fewer.
pub open spec fn zero_padded(n: nat, width: nat) -> Seq<char>
    decreases width,
{
    if width == 0 {
        Seq::empty()
    } else {
        zero_padded(n / 10, (width - 1) as nat).push(digit_char(n % 10))
    }
}

/// Ten to the power `e`.
pub open spec fn pow10(e: nat) -> nat
    decreases e,
{
    if e == 0 {
        1
    } else {
        10 * pow10((e - 1) as nat)
    }
}

/// A count of units of `10^-places` as a figure with `places` decimals: the
/// whole part, a point, and the last `places` digits.
pub open spec fn fixed_point(n: nat, places: nat) -> Seq<char> {
    decimal(n / pow10(places)) + seq!['.'] + zero_padded(n, places)
}

/// `count` copies of a character.
pub open spec fn repeated(c: char, count: nat) -> Seq<char> {
    Seq::new(count, |i: int| c)
}

/// A text at the left end of a field of `width` characters; a text that is
/// longer than the field stays as it is.
pub open spec fn left_aligned(text: Seq<char>, width: nat) -> Seq<char> {
    if text.len() >= width {
        text
    } else {
        text + repeated(' ', (width - text.len()) as nat)
    }
}

/// The quotient `num / den` rounded up to a whole number.
pub open spec fn ceil_div(num: nat, den: nat) -> nat
    recommends
        den > 0,
{
    if num % den == 0 {
        num / den
    } else {
        num / den + 1
    }
}

/// A quotient of at most `bound * den`, rounded up, is at most `bound`.
pub proof fn lemma_ceil_div_bound(num: nat, den: nat, bound: nat)
    requires
        den > 0,
        num <= den * bound,
    ensures
        num / den <= bound,
        ceil_div(num, den) <= bound,
{
    vstd::arithmetic::div_mod::lemma_fundamental_div_mod(num as int, den as int);
    assert(num / den <= bound && (num % den != 0 ==> num / den < bound)) by (nonlinear_arith)
        requires
            den > 0,
            num <= den * bound,
            num == den * (num / den) + num % den,
            0 <= num % den < den,
    ;
}

/// Rounds `num / den` up to a whole number.
pub fn div_ceil(num: u128, den: u128) -> (r: u128)
    requires
        0 < den,
        num / den < u128::MAX,
    ensures
        r == ceil_div(num as nat, den as nat),
{
    if num % den == 0 {
        num / den
    } else {
        num / den + 1
    }
}

fn digit_text(d: u8) -> (s: &'static str)
    requires
        d < 10,
    ensures
        s@ == seq![digit_char(d as nat)],
{
    proof {
        reveal_strlit("0");
        reveal_strlit("1");
        reveal_strlit("2");
        reveal_strlit("3");
        reveal_strlit("4");
        reveal_strlit("5");
        reveal_strlit("6");
        reveal_strlit("7");
        reveal_strlit("8");
        reveal_strlit("9");
    }
    let s = if d == 0 {
        "0"
    } else if d == 1 {
        "1"
    } else if d == 2 {
        "2"
    } else if d == 3 {
        "3"
    } else if d == 4 {
        "4"
    } else if d == 5 {
        "5"
    } else if d == 6 {
        "6"
    } else if d == 7 {
        "7"
    } else if d == 8 {
        "8"
    } else {
        "9"
    };
    assert(s@ =~= seq![digit_char(d as nat)]);
    s
}

/// Appends a number in decimal digits.
pub fn push_decimal(out: &mut String, n: u128)
    ensures
        final(out)@ == old(out)@ + decimal(n as nat),
    decreases n,
{
    if n >= 10 {
        push_decimal(out, n / 10);
    }
    out.append(digit_text((n % 10) as u8));
    assert(out@ =~= old(out)@ + decimal(n as nat));
}

/// Appends the last `width` digits of a number, zeros in front.
pub fn push_zero_padded(out: &mut String, n: u128, width: u8)
    ensures
        final(out)@ == old(out)@ + zero_padded(n as nat, width as nat),
    decreases width,
{
    if width > 0 {
        push_zero_padded(out, n / 10, width - 1);
        out.append(digit_text((n % 10) as u8));
    }
    assert(out@ =~= old(out)@ + zero_padded(n as nat, width as nat));
}

/// Ten to any power is positive, and dividing by it and then by ten is
/// dividing by the next power.
pub proof fn lemma_pow10_step(n: nat, e: nat)
    ensures
        pow10(e) > 0,
        (n / pow10(e)) / 10 == n / pow10(e + 1),
    decreases e,
{
    if e > 0 {
        lemma_pow10_step(n, (e - 1) as nat);
    }
    assert(pow10(e + 1) == pow10(e) * 10);
    vstd::arithmetic::div_mod::lemma_div_denominator(n as int, pow10(e) as int, 10);
}

/// Appends a count of units of `10^-places` as a figure with `places`
/// decimals.
pub fn push_fixed_point(out: &mut String, n: u128, places: u8)
    ensures
        final(out)@ == old(out)@ + fixed_point(n as nat, places as nat),
{
    let mut whole = n;
    let mut i: u8 = 0;
    assert(pow10(0) == 1);
    while i < places
        invariant
            i <= places,
            whole == n as nat / pow10(i as nat),
        decreases places - i,
    {
        proof {
            lemma_pow10_step(n as nat, i as nat);
        }
        whole = whole / 10;
        i += 1;
    }
    push_decimal(out, whole);
    out.append(".");
    push_zero_padded(out, n, places);
    proof {
        reveal_strlit(".");
        assert("."@ =~= seq!['.']);
        assert(out@ =~= old(out)@ + fixed_point(n as nat, places as nat));
    }
}

/// Appends `count` copies of a one-character text.
pub fn push_repeated(out: &mut String, unit: &str, count: usize)
    requires
        unit@.len() == 1,
    ensures
        final(out)@ == old(out)@ + repeated(unit@[0], count as nat),
{
    let mut i: usize = 0;
    while i < count
        invariant
            i <= count,
            unit@.len() == 1,
            out@ == old(out)@ + repeated(unit@[0], i as nat),
        decreases count - i,
    {
        out.append(unit);
        i += 1;
        assert(out@ =~= old(out)@ + repeated(unit@[0], i as nat));
    }
}

} // verus!
