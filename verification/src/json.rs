//! Decimal rendering of integers and of nanosecond timestamps as
//! microseconds, used by the trace-record serializer.

use vstd::prelude::*;

verus! {

/// Relies on String::push: appends the given char onto the end of the string.
pub assume_specification[ String::push ](s: &mut String, ch: char)
    ensures
        final (s)@ == old(s)@.push(ch),
;

/// Relies on String::push_str: appends the given string slice onto the end
/// of the string.
pub assume_specification[ String::push_str ](s: &mut String, other: &str)
    ensures
        final (s)@ == old(s)@ + other@,
;

/// The decimal digit character for `d` (`d < 10`).
pub open spec fn spec_digit(d: nat) -> char {
    if d == 0 {
        '0'
    } else if d == 1 {
        '1'
    } else if d == 2 {
        '2'
    } else if d == 3 {
        '3'
    } else if d == 4 {
        '4'
    } else if d == 5 {
        '5'
    } else if d == 6 {
        '6'
    } else if d == 7 {
        '7'
    } else if d == 8 {
        '8'
    } else {
        '9'
    }
}

/// The decimal representation of `n`, without sign or leading zeros
/// (except that zero itself is "0").
pub open spec fn spec_decimal(n: nat) -> Seq<char>
    decreases n,
{
    if n < 10 {
        seq![spec_digit(n)]
    } else {
        spec_decimal(n / 10).push(spec_digit(n % 10))
    }
}

fn digit_char(d: u64) -> (c: char)
    requires
        d < 10,
    ensures
        c == spec_digit(d as nat),
{
    if d == 0 {
        '0'
    } else if d == 1 {
        '1'
    } else if d == 2 {
        '2'
    } else if d == 3 {
        '3'
    } else if d == 4 {
        '4'
    } else if d == 5 {
        '5'
    } else if d == 6 {
        '6'
    } else if d == 7 {
        '7'
    } else if d == 8 {
        '8'
    } else {
        '9'
    }
}

/// Appends the decimal representation of `n` onto the end of `out`.
pub(crate) fn push_decimal(out: &mut String, n: u64)
    ensures
        final (out)@ == old(out)@ + spec_decimal(n as nat),
    decreases n,
{
    let ghost orig: Seq<char> = out@;
    if n < 10 {
        out.push(digit_char(n));
        assert(out@ =~= orig + spec_decimal(n as nat));
    } else {
        push_decimal(out, n / 10);
        out.push(digit_char(n % 10));
        assert(out@ =~= orig + spec_decimal(n as nat));
    }
}

/// The decimal representation of `n` as an executable string.
pub fn decimal_u64(n: u64) -> (s: String)
    ensures
        s@ == spec_decimal(n as nat),
{
    let mut s = String::new();
    push_decimal(&mut s, n);
    assert(s@ =~= spec_decimal(n as nat));
    s
}

/// The fractional digits of a sub-microsecond remainder `r` (`0 < r < 1000`
/// nanoseconds), with trailing zeros trimmed: 500 is ".5", 50 is ".05",
/// 5 is ".005".
pub open spec fn spec_micros_frac(r: nat) -> Seq<char> {
    let d1 = spec_digit(r / 100);
    let d2 = spec_digit((r / 10) % 10);
    let d3 = spec_digit(r % 10);
    if r % 10 != 0 {
        seq![d1, d2, d3]
    } else if (r / 10) % 10 != 0 {
        seq![d1, d2]
    } else {
        seq![d1]
    }
}

/// `ns` nanoseconds rendered as a decimal number of microseconds: the
/// integer quotient, then, when the remainder is not zero, a point and the
/// remainder's digits with trailing zeros trimmed. This is the exact
/// decimal value of `ns / 1000`.
pub open spec fn spec_micros(ns: nat) -> Seq<char> {
    if ns % 1000 == 0 {
        spec_decimal(ns / 1000)
    } else {
        spec_decimal(ns / 1000) + seq!['.'] + spec_micros_frac(ns % 1000)
    }
}

/// Appends the microsecond rendering of `ns` nanoseconds onto `out`.
pub(crate) fn push_micros(out: &mut String, ns: u64)
    ensures
        final (out)@ == old(out)@ + spec_micros(ns as nat),
{
    let ghost orig: Seq<char> = out@;
    let q = ns / 1000;
    let r = ns % 1000;
    push_decimal(out, q);
    if r != 0 {
        out.push('.');
        out.push(digit_char(r / 100));
        if r % 10 != 0 {
            out.push(digit_char((r / 10) % 10));
            out.push(digit_char(r % 10));
        } else if (r / 10) % 10 != 0 {
            out.push(digit_char((r / 10) % 10));
        }
    }
    assert(out@ =~= orig + spec_micros(ns as nat));
}

/// `ns` nanoseconds as a decimal number of microseconds, as an executable
/// string.
pub fn micros_u64(ns: u64) -> (s: String)
    ensures
        s@ == spec_micros(ns as nat),
{
    let mut s = String::new();
    push_micros(&mut s, ns);
    assert(s@ =~= spec_micros(ns as nat));
    s
}

/// Whether `c` is a decimal digit character.
pub open spec fn is_digit(c: char) -> bool {
    c == '0' || c == '1' || c == '2' || c == '3' || c == '4' || c == '5' || c == '6' || c == '7'
        || c == '8' || c == '9'
}

/// The value of a decimal digit character.
pub open spec fn spec_digit_val(c: char) -> nat {
    if c == '0' {
        0
    } else if c == '1' {
        1
    } else if c == '2' {
        2
    } else if c == '3' {
        3
    } else if c == '4' {
        4
    } else if c == '5' {
        5
    } else if c == '6' {
        6
    } else if c == '7' {
        7
    } else if c == '8' {
        8
    } else {
        9
    }
}

/// What a reader of the file makes of a digit string: the usual left-to-
/// right decimal value.
pub open spec fn spec_parse_decimal(s: Seq<char>) -> nat
    decreases s.len(),
{
    if s.len() == 0 {
        0
    } else {
        spec_parse_decimal(s.drop_last()) * 10 + spec_digit_val(s.last())
    }
}

/// Every character of a rendered decimal is a digit.
pub proof fn lemma_decimal_chars_are_digits(n: nat)
    ensures
        forall|j: int|
            0 <= j < spec_decimal(n).len() ==> is_digit(#[trigger] spec_decimal(n)[j]),
    decreases n,
{
    if n < 10 {
        assert(spec_decimal(n)[0] == spec_digit(n));
    } else {
        lemma_decimal_chars_are_digits(n / 10);
        assert forall|j: int| 0 <= j < spec_decimal(n).len() implies is_digit(
            #[trigger] spec_decimal(n)[j],
        ) by {
            if j < spec_decimal(n / 10).len() {
                assert(spec_decimal(n)[j] == spec_decimal(n / 10)[j]);
            } else {
                assert(spec_decimal(n)[j] == spec_digit(n % 10));
            }
        }
    }
}

/// Round trip of the integer rendering: reading the rendered digits back
/// yields exactly the source value.
pub proof fn lemma_decimal_round_trip(n: nat)
    ensures
        spec_parse_decimal(spec_decimal(n)) == n,
    decreases n,
{
    reveal_with_fuel(spec_parse_decimal, 3);
    if n < 10 {
        assert(spec_decimal(n).drop_last() =~= Seq::<char>::empty());
        assert(spec_decimal(n).last() == spec_digit(n));
        assert(spec_digit_val(spec_digit(n)) == n);
    } else {
        lemma_decimal_round_trip(n / 10);
        assert(spec_decimal(n).drop_last() =~= spec_decimal(n / 10));
        assert(spec_decimal(n).last() == spec_digit(n % 10));
        assert(spec_digit_val(spec_digit(n % 10)) == n % 10);
        assert(spec_parse_decimal(spec_decimal(n)) == (n / 10) * 10 + n % 10);
    }
}

/// What a reader makes of the fractional digits after the point: tenths,
/// hundredths, thousandths of a microsecond, back in nanoseconds.
pub open spec fn spec_parse_frac(f: Seq<char>) -> nat {
    if f.len() == 1 {
        spec_digit_val(f[0]) * 100
    } else if f.len() == 2 {
        spec_digit_val(f[0]) * 100 + spec_digit_val(f[1]) * 10
    } else if f.len() == 3 {
        spec_digit_val(f[0]) * 100 + spec_digit_val(f[1]) * 10 + spec_digit_val(f[2])
    } else {
        0
    }
}

/// What a reader of the file makes of one rendered timestamp: the digits
/// before the point are whole microseconds, those after it the remaining
/// nanoseconds.
pub open spec fn spec_parse_micros_ns(s: Seq<char>) -> nat {
    match s.index_of_first('.') {
        None => spec_parse_decimal(s) * 1000,
        Some(i) => spec_parse_decimal(s.take(i)) * 1000 + spec_parse_frac(s.skip(i + 1)),
    }
}

proof fn lemma_frac_round_trip(r: nat)
    requires
        0 < r < 1000,
    ensures
        spec_parse_frac(spec_micros_frac(r)) == r,
{
    assert(r == (r / 10) * 10 + r % 10);
    assert(r / 10 == ((r / 10) / 10) * 10 + (r / 10) % 10);
    assert((r / 10) / 10 == r / 100) by (nonlinear_arith)
        requires
            r < 1000,
    ;
}

/// Round trip of the timestamp rendering: a rendered microsecond value,
/// read back as microseconds and fractional digits, yields exactly the
/// source nanosecond count — the file loses no precision.
pub proof fn lemma_micros_round_trip(ns: nat)
    ensures
        spec_parse_micros_ns(spec_micros(ns)) == ns,
{
    let q = ns / 1000;
    let r = ns % 1000;
    let s = spec_micros(ns);
    lemma_decimal_chars_are_digits(q);
    lemma_decimal_round_trip(q);
    s.index_of_first_ensures('.');
    if r == 0 {
        match s.index_of_first('.') {
            Some(i) => {
                assert(is_digit(s[i]));
                assert(false);
            },
            None => {},
        }
        assert(spec_parse_micros_ns(s) == q * 1000);
    } else {
        let k = spec_decimal(q).len() as int;
        assert(s == spec_decimal(q) + seq!['.'] + spec_micros_frac(r));
        assert(s[k] == '.');
        match s.index_of_first('.') {
            None => {
                assert(!s.contains('.'));
                assert(false);
            },
            Some(i) => {
                if i < k {
                    assert(s[i] == spec_decimal(q)[i]);
                    assert(is_digit(s[i]));
                    assert(false);
                }
                if i > k {
                    assert(s[k] != '.');
                    assert(false);
                }
                assert(i == k);
                assert(s.take(k) =~= spec_decimal(q));
                assert(s.skip(k + 1) =~= spec_micros_frac(r));
                lemma_frac_round_trip(r);
                assert(spec_parse_micros_ns(s) == q * 1000 + r);
            },
        }
    }
}

} // verus!
