//! Decimal text of integers, plain and zero-padded.

use vstd::prelude::*;
use vstd::string::StringExecFns;

verus! {

/// The character that writes the single digit `d`.
pub open spec fn digit_char(d: nat) -> char
    recommends
        d < 10,
{
    if d == 0 {
        '0'
    } else if d == 1 {
        '1'
    } else if d == 2 {
        '2'
    } else if d == 3 {
        '3'
    } else if d == 4 {
        '4'
    } else if d == 5 {
        '5'
    } else if d == 6 {
        '6'
    } else if d == 7 {
        '7'
    } else if d == 8 {
        '8'
    } else {
        '9'
    }
}

/// Whether `c` is one of the ten decimal digits.
pub open spec fn is_digit(c: char) -> bool {
    '0' <= c <= '9'
}

/// The decimal digits of `n`, most significant first, without leading zeros.
pub open spec fn digits(n: nat) -> Seq<char>
    decreases n,
{
    if n < 10 {
        seq![digit_char(n)]
    } else {
        digits(n / 10).push(digit_char(n % 10))
    }
}

/// `count` zeros.
pub open spec fn zeros(count: nat) -> Seq<char> {
    Seq::new(count, |i: int| '0')
}

/// The digits of `n`, with zeros in front until there are at least `width` characters.
pub open spec fn zero_padded(n: nat, width: nat) -> Seq<char> {
    if digits(n).len() >= width {
        digits(n)
    } else {
        zeros((width - digits(n).len()) as nat) + digits(n)
    }
}

/// The decimal text of `v`: a minus sign for a negative number, then the digits.
pub open spec fn decimal(v: int) -> Seq<char> {
    if v < 0 {
        seq!['-'] + digits((-v) as nat)
    } else {
        digits(v as nat)
    }
}

/// The decimal text of `v`, at least `width` characters wide. The padding is made of
/// zeros, which stand behind the sign, and the sign counts towards the width.
pub open spec fn padded_decimal(v: int, width: nat) -> Seq<char> {
    if v < 0 {
        seq!['-'] + zero_padded((-v) as nat, if width >= 1 { (width - 1) as nat } else { 0 })
    } else {
        zero_padded(v as nat, width)
    }
}

/// Every number has at least one digit, and each of them is a decimal digit.
pub proof fn lemma_digits_are_digits(n: nat)
    ensures
        digits(n).len() >= 1,
        forall|i: int| 0 <= i < digits(n).len() ==> is_digit(#[trigger] digits(n)[i]),
    decreases n,
{
    if n >= 10 {
        lemma_digits_are_digits(n / 10);
    }
}

/// A zero-padded number is at least `width` wide, exactly so when its digits fit, and
/// holds digits only.
pub proof fn lemma_zero_padded(n: nat, width: nat)
    ensures
        zero_padded(n, width).len() >= width,
        digits(n).len() <= width ==> zero_padded(n, width).len() == width,
        forall|i: int|
            0 <= i < zero_padded(n, width).len() ==> is_digit(#[trigger] zero_padded(n, width)[i]),
{
    lemma_digits_are_digits(n);
}

/// A string that holds the one digit `d`.
fn digit_str(d: u64) -> (s: &'static str)
    requires
        d < 10,
    ensures
        s@ == seq![digit_char(d as nat)],
{
    proof {
        reveal_strlit("0");
        reveal_strlit("1");
        reveal_strlit("2");
        reveal_strlit("3");
        reveal_strlit("4");
        reveal_strlit("5");
        reveal_strlit("6");
        reveal_strlit("7");
        reveal_strlit("8");
        reveal_strlit("9");
    }
    if d == 0 {
        "0"
    } else if d == 1 {
        "1"
    } else if d == 2 {
        "2"
    } else if d == 3 {
        "3"
    } else if d == 4 {
        "4"
    } else if d == 5 {
        "5"
    } else if d == 6 {
        "6"
    } else if d == 7 {
        "7"
    } else if d == 8 {
        "8"
    } else {
        "9"
    }
}

/// Appends the digits of `n` to `out`.
pub fn append_unsigned(out: &mut String, n: u64)
    ensures
        final(out)@ == old(out)@ + digits(n as nat),
    decreases n,
{
    if n >= 10 {
        append_unsigned(out, n / 10);
    }
    out.append(digit_str(n % 10));
}

/// The size of `v` without its sign.
fn magnitude(v: i64) -> (m: u64)
    ensures
        m == if v < 0 { -v } else { v as int },
{
    if v < 0 {
        let below: u64 = (-(v + 1)) as u64;
        below + 1
    } else {
        v as u64
    }
}

/// Appends the decimal text of `v` to `out`.
pub fn append_signed(out: &mut String, v: i64)
    ensures
        final(out)@ == old(out)@ + decimal(v as int),
{
    if v < 0 {
        proof {
            reveal_strlit("-");
        }
        out.append("-");
    }
    append_unsigned(out, magnitude(v));
}

/// How many digits `n` has.
fn digit_count(n: u64) -> (count: usize)
    ensures
        count == digits(n as nat).len(),
        1 <= count <= 20,
{
    let mut count: usize = 1;
    let mut rest: u64 = n;
    assert(pow10((count - 1) as nat) == 1);
    while rest >= 10
        invariant
            1 <= count,
            count + digits(rest as nat).len() == digits(n as nat).len() + 1,
            rest * pow10((count - 1) as nat) <= n,
            count <= 20,
        decreases rest,
    {
        proof {
            lemma_pow10_step(rest as nat, n as nat, (count - 1) as nat);
        }
        rest = rest / 10;
        count = count + 1;
    }
    count
}

/// Ten to the power of `e`.
spec fn pow10(e: nat) -> nat
    decreases e,
{
    if e == 0 {
        1
    } else {
        10 * pow10((e - 1) as nat)
    }
}

/// One step of counting digits. Where `rest`, of at least ten, times `10^e` stays
/// within a number `n` of sixty-four bits, a tenth of `rest` times `10^(e+1)` stays
/// within `n` too, and `e` is below nineteen.
proof fn lemma_pow10_step(rest: nat, n: nat, e: nat)
    requires
        rest >= 10,
        rest * pow10(e) <= n,
        n <= u64::MAX,
    ensures
        (rest / 10) * pow10(e + 1) <= n,
        e + 1 < 20,
{
    let p = pow10(e);
    assert((rest / 10) * (10 * p) <= rest * p) by (nonlinear_arith)
        requires
            rest >= 0,
            p >= 0,
    ;
    if e >= 19 {
        lemma_pow10_grows(19, e);
        assert(pow10(19) == 10000000000000000000nat) by {
            reveal_with_fuel(pow10, 20);
        }
        assert(rest * p >= 10 * p) by (nonlinear_arith)
            requires
                rest >= 10,
                p >= 0,
        ;
    }
}

/// Powers of ten do not shrink as the exponent grows.
proof fn lemma_pow10_grows(a: nat, b: nat)
    requires
        a <= b,
    ensures
        pow10(a) <= pow10(b),
    decreases b,
{
    if a < b {
        lemma_pow10_grows(a, (b - 1) as nat);
    }
}

/// Appends `count` zeros to `out`.
fn append_zeros(out: &mut String, count: usize)
    ensures
        final(out)@ == old(out)@ + zeros(count as nat),
{
    let mut done: usize = 0;
    while done < count
        invariant
            done <= count,
            out@ == old(out)@ + zeros(done as nat),
        decreases count - done,
    {
        proof {
            reveal_strlit("0");
        }
        out.append("0");
        done = done + 1;
    }
}

/// Appends the digits of `n`, with zeros in front until they are `width` wide.
pub fn append_zero_padded(out: &mut String, n: u64, width: usize)
    ensures
        final(out)@ == old(out)@ + zero_padded(n as nat, width as nat),
{
    let count: usize = digit_count(n);
    if count < width {
        append_zeros(out, width - count);
    }
    append_unsigned(out, n);
}

/// Appends the decimal text of `v`, zero-padded to `width` characters, sign included.
pub fn append_padded(out: &mut String, v: i64, width: usize)
    ensures
        final(out)@ == old(out)@ + padded_decimal(v as int, width as nat),
{
    if v < 0 {
        proof {
            reveal_strlit("-");
        }
        out.append("-");
        let inner: usize = if width > 0 {
            width - 1
        } else {
            0
        };
        append_zero_padded(out, magnitude(v), inner);
    } else {
        append_zero_padded(out, magnitude(v), width);
    }
}

} // verus!
