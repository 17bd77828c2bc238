//! Canonical text forms: base-10 integers and nanosecond counts shown as seconds.

use vstd::prelude::*;
use vstd::string::StringExecFns;

verus! {

/// Nanoseconds in one second.
pub const NANOS_PER_SEC: u64 = 1_000_000_000;

/// The character of one decimal digit.
pub open spec fn digit_char(d: int) -> char {
    if d == 0 {
        '0'
    } else if d == 1 {
        '1'
    } else if d == 2 {
        '2'
    } else if d == 3 {
        '3'
    } else if d == 4 {
        '4'
    } else if d == 5 {
        '5'
    } else if d == 6 {
        '6'
    } else if d == 7 {
        '7'
    } else if d == 8 {
        '8'
    } else {
        '9'
    }
}

/// The base-10 digits of `n`, most significant first, without leading zeros.
pub open spec fn decimal(n: nat) -> Seq<char>
    decreases n,
{
    if n < 10 {
        seq![digit_char(n as int)]
    } else {
        decimal(n / 10).push(digit_char((n % 10) as int))
    }
}

/// The digit that a character stands for; zero for any other character.
pub open spec fn digit_value(c: char) -> nat {
    if c == '1' {
        1
    } else if c == '2' {
        2
    } else if c == '3' {
        3
    } else if c == '4' {
        4
    } else if c == '5' {
        5
    } else if c == '6' {
        6
    } else if c == '7' {
        7
    } else if c == '8' {
        8
    } else if c == '9' {
        9
    } else {
        0
    }
}

/// The number that a row of digits reads as in base 10.
pub open spec fn numeral_value(digits: Seq<char>) -> nat
    decreases digits.len(),
{
    if digits.len() == 0 {
        0
    } else {
        numeral_value(digits.drop_last()) * 10 + digit_value(digits.last())
    }
}

/// The base-10 text of a signed integer: a minus sign where it is negative.
pub open spec fn signed_decimal(v: int) -> Seq<char> {
    if v < 0 {
        seq!['-'] + decimal((-v) as nat)
    } else {
        decimal(v as nat)
    }
}

/// The last `width` base-10 digits of `n`, most significant first, zeros kept.
pub open spec fn padded(n: nat, width: nat) -> Seq<char>
    decreases width,
{
    if width == 0 {
        Seq::empty()
    } else {
        padded(n / 10, (width - 1) as nat).push(digit_char((n % 10) as int))
    }
}

/// The digits behind the decimal point of `frac` counted in units of
/// `10^-width`, with trailing zeros left out.
pub open spec fn fraction(frac: nat, width: nat) -> Seq<char>
    decreases width,
{
    if width == 0 {
        Seq::empty()
    } else if frac % 10 == 0 {
        fraction(frac / 10, (width - 1) as nat)
    } else {
        padded(frac, width)
    }
}

/// A count of nanoseconds written in seconds: the whole seconds, and behind a
/// point the fraction, where there is one.
pub open spec fn seconds_decimal(nanos: nat) -> Seq<char> {
    if nanos % 1_000_000_000 == 0 {
        decimal(nanos / 1_000_000_000)
    } else {
        decimal(nanos / 1_000_000_000) + seq!['.'] + fraction(nanos % 1_000_000_000, 9)
    }
}

/// Digits given least significant first, read as characters most significant first.
pub open spec fn reversed_digits(ds: Seq<u8>) -> Seq<char> {
    Seq::new(ds.len(), |i: int| digit_char(ds[ds.len() - 1 - i] as int))
}

/// The digits of a number read back as that number; there is at least one
/// digit, and no zero in front of a number of two digits or more.
pub proof fn lemma_decimal_reads_back(n: nat)
    ensures
        numeral_value(decimal(n)) == n,
        decimal(n).len() >= 1,
        n >= 10 ==> decimal(n)[0] != '0',
        n < 10 ==> decimal(n).len() == 1,
    decreases n,
{
    if n >= 10 {
        lemma_decimal_reads_back(n / 10);
        let lead = decimal(n / 10);
        let text = decimal(n);
        assert(text.drop_last() =~= lead);
        assert(text.last() == digit_char((n % 10) as int));
        assert(text[0] == lead[0]);
    } else {
        let text = decimal(n);
        assert(text.drop_last() =~= Seq::<char>::empty());
        assert(numeral_value(text.drop_last()) == 0);
        assert(text.last() == digit_char(n as int));
    }
}

/// Two numbers with the same digits are the same number.
pub proof fn lemma_decimal_is_injective(a: nat, b: nat)
    requires
        decimal(a) == decimal(b),
    ensures
        a == b,
{
    lemma_decimal_reads_back(a);
    lemma_decimal_reads_back(b);
}

fn digit_str(d: u8) -> (r: &'static str)
    requires
        d < 10,
    ensures
        r@ == seq![digit_char(d as int)],
{
    proof {
        reveal_strlit("0");
        reveal_strlit("1");
        reveal_strlit("2");
        reveal_strlit("3");
        reveal_strlit("4");
        reveal_strlit("5");
        reveal_strlit("6");
        reveal_strlit("7");
        reveal_strlit("8");
        reveal_strlit("9");
    }
    let r = match d {
        0 => "0",
        1 => "1",
        2 => "2",
        3 => "3",
        4 => "4",
        5 => "5",
        6 => "6",
        7 => "7",
        8 => "8",
        _ => "9",
    };
    assert(r@ =~= seq![digit_char(d as int)]);
    r
}

fn append_reversed(out: &mut String, digits: &Vec<u8>)
    requires
        forall|i: int| 0 <= i < digits@.len() ==> digits@[i] < 10,
    ensures
        final(out)@ == old(out)@ + reversed_digits(digits@),
{
    let mut i: usize = digits.len();
    while i > 0
        invariant
            i <= digits@.len(),
            forall|k: int| 0 <= k < digits@.len() ==> digits@[k] < 10,
            out@ == old(out)@ + reversed_digits(digits@).subrange(0, digits@.len() - i),
        decreases i,
    {
        i = i - 1;
        out.append(digit_str(digits[i]));
        assert(out@ =~= old(out)@ + reversed_digits(digits@).subrange(0, digits@.len() - i));
    }
    assert(reversed_digits(digits@).subrange(0, digits@.len() as int) =~= reversed_digits(
        digits@,
    ));
}

/// Appends the base-10 digits of `v` to `out`.
pub fn append_decimal(out: &mut String, v: u64)
    ensures
        final(out)@ == old(out)@ + decimal(v as nat),
{
    let mut digits: Vec<u8> = Vec::new();
    let mut rest: u64 = v;
    while rest >= 10
        invariant
            forall|k: int| 0 <= k < digits@.len() ==> digits@[k] < 10,
            decimal(v as nat) == decimal(rest as nat) + reversed_digits(digits@),
        decreases rest,
    {
        let ghost prior = digits@;
        let d: u8 = (rest % 10) as u8;
        digits.push(d);
        proof {
            let lead = decimal((rest / 10) as nat);
            assert(decimal(rest as nat) == lead.push(digit_char(d as int)));
            assert(reversed_digits(digits@) =~= seq![digit_char(d as int)] + reversed_digits(
                prior,
            ));
            assert(lead.push(digit_char(d as int)) + reversed_digits(prior) =~= lead
                + reversed_digits(digits@));
        }
        rest = rest / 10;
    }
    digits.push(rest as u8);
    proof {
        let prior = digits@.drop_last();
        assert(reversed_digits(digits@) =~= seq![digit_char(rest as int)] + reversed_digits(
            prior,
        ));
        assert(decimal(rest as nat) == seq![digit_char(rest as int)]);
    }
    append_reversed(out, &digits);
}

/// Appends the last `width` base-10 digits of `n` to `out`, zeros kept.
pub fn append_padded(out: &mut String, n: u64, width: u32)
    ensures
        final(out)@ == old(out)@ + padded(n as nat, width as nat),
{
    let mut digits: Vec<u8> = Vec::new();
    let mut rest: u64 = n;
    let mut left: u32 = width;
    while left > 0
        invariant
            forall|k: int| 0 <= k < digits@.len() ==> digits@[k] < 10,
            padded(n as nat, width as nat) == padded(rest as nat, left as nat) + reversed_digits(
                digits@,
            ),
        decreases left,
    {
        let ghost prior = digits@;
        let d: u8 = (rest % 10) as u8;
        digits.push(d);
        proof {
            let lead = padded((rest / 10) as nat, (left - 1) as nat);
            assert(padded(rest as nat, left as nat) == lead.push(digit_char(d as int)));
            assert(reversed_digits(digits@) =~= seq![digit_char(d as int)] + reversed_digits(
                prior,
            ));
            assert(lead.push(digit_char(d as int)) + reversed_digits(prior) =~= lead
                + reversed_digits(digits@));
        }
        rest = rest / 10;
        left = left - 1;
    }
    assert(padded(rest as nat, 0) + reversed_digits(digits@) =~= reversed_digits(digits@));
    append_reversed(out, &digits);
}

/// The base-10 text of an unsigned integer.
pub fn u64_text(v: u64) -> (r: String)
    ensures
        r@ == decimal(v as nat),
{
    let mut out = String::new();
    append_decimal(&mut out, v);
    assert(out@ =~= decimal(v as nat));
    out
}

/// The base-10 text of a signed integer.
pub fn i64_text(v: i64) -> (r: String)
    ensures
        r@ == signed_decimal(v as int),
{
    let mut out = String::new();
    if v < 0 {
        proof {
            reveal_strlit("-");
        }
        out.append("-");
        let magnitude: u64 = ((-(v + 1)) as u64) + 1;
        append_decimal(&mut out, magnitude);
        assert(out@ =~= signed_decimal(v as int));
    } else {
        append_decimal(&mut out, v as u64);
        assert(out@ =~= signed_decimal(v as int));
    }
    out
}

/// The text of a count of nanoseconds in seconds, with no fixed precision:
/// `1_500_000_000` reads `1.5`, and `2_000_000_000` reads `2`.
pub fn seconds_text(nanos: u64) -> (r: String)
    ensures
        r@ == seconds_decimal(nanos as nat),
{
    let whole: u64 = nanos / NANOS_PER_SEC;
    let part: u64 = nanos % NANOS_PER_SEC;
    let mut out = String::new();
    append_decimal(&mut out, whole);
    if part != 0 {
        proof {
            reveal_strlit(".");
        }
        out.append(".");
        let mut frac: u64 = part;
        let mut width: u32 = 9;
        while width > 0 && frac % 10 == 0
            invariant
                fraction(part as nat, 9) == fraction(frac as nat, width as nat),
            decreases width,
        {
            frac = frac / 10;
            width = width - 1;
        }
        assert(fraction(frac as nat, width as nat) == padded(frac as nat, width as nat)) by {
            if width == 0 {
                assert(padded(frac as nat, 0) =~= Seq::<char>::empty());
            }
        }
        append_padded(&mut out, frac, width);
        assert(out@ =~= seconds_decimal(nanos as nat));
    } else {
        assert(out@ =~= seconds_decimal(nanos as nat));
    }
    out
}

} // verus!
