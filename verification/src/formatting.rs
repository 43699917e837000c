//! Display formatting for whole numbers: decimal digits grouped in threes,
//! a configurable group separator and minus sign, no decimals and no
//! currency symbol.

use vstd::prelude::*;

verus! {

/// The display character for a single decimal digit.
pub open spec fn spec_digit_char(d: int) -> char {
    if d == 0 {
        '0'
    } else if d == 1 {
        '1'
    } else if d == 2 {
        '2'
    } else if d == 3 {
        '3'
    } else if d == 4 {
        '4'
    } else if d == 5 {
        '5'
    } else if d == 6 {
        '6'
    } else if d == 7 {
        '7'
    } else if d == 8 {
        '8'
    } else {
        '9'
    }
}

/// The decimal digits of `n`, most significant first; zero is written "0".
pub open spec fn spec_digits(n: nat) -> Seq<char>
    decreases n,
{
    if n < 10 {
        seq![spec_digit_char(n as int)]
    } else {
        spec_digits(n / 10).push(spec_digit_char((n % 10) as int))
    }
}

/// `s` with `sep` inserted before every group of three characters counted
/// from the right end, except before the leftmost group.
pub open spec fn spec_grouped(s: Seq<char>, sep: char) -> Seq<char>
    decreases s.len(),
{
    if s.len() <= 3 {
        s
    } else {
        spec_grouped(s.take(s.len() - 3), sep) + seq![sep] + s.skip(s.len() - 3)
    }
}

/// The display form of `n`: the minus sign when negative, then the decimal
/// digits of the magnitude grouped in threes.
pub open spec fn spec_format_int(n: int, sep: char, minus: char) -> Seq<char> {
    if n < 0 {
        seq![minus] + spec_grouped(spec_digits((-n) as nat), sep)
    } else {
        spec_grouped(spec_digits(n as nat), sep)
    }
}

/// The formatting configuration: the group separator and the minus sign.
/// Groups are always three digits wide.
#[verifier::ext_equal]
pub struct Formatter {
    pub separator: char,
    pub minus_sign: char,
}

/// The configuration the calculator displays numbers with: groups of three
/// digits separated by a space, and a plain "-" for negative numbers.
pub fn get_formatter() -> (f: Formatter)
    ensures
        f.separator == ' ',
        f.minus_sign == '-',
{
    Formatter { separator: ' ', minus_sign: '-' }
}

/// Relies on String::push: it appends exactly the given character.
#[verifier::external_body]
fn push_char(s: &mut String, c: char)
    ensures
        final(s)@ == old(s)@.push(c),
{
    s.push(c);
}

fn digit_char(d: u64) -> (c: char)
    requires
        d < 10,
    ensures
        c == spec_digit_char(d as int),
{
    if d == 0 {
        '0'
    } else if d == 1 {
        '1'
    } else if d == 2 {
        '2'
    } else if d == 3 {
        '3'
    } else if d == 4 {
        '4'
    } else if d == 5 {
        '5'
    } else if d == 6 {
        '6'
    } else if d == 7 {
        '7'
    } else if d == 8 {
        '8'
    } else {
        '9'
    }
}

fn digits_vec(n: u64) -> (v: Vec<char>)
    ensures
        v@ == spec_digits(n as nat),
    decreases n,
{
    if n < 10 {
        let mut v: Vec<char> = Vec::new();
        v.push(digit_char(n));
        assert(v@ =~= spec_digits(n as nat));
        v
    } else {
        let mut v = digits_vec(n / 10);
        v.push(digit_char(n % 10));
        assert(v@ =~= spec_digits(n as nat));
        v
    }
}

fn push_range(s: &mut String, v: &Vec<char>, from: usize, to: usize)
    requires
        from <= to <= v.len(),
    ensures
        final(s)@ == old(s)@ + v@.subrange(from as int, to as int),
    decreases to - from,
{
    if from < to {
        push_char(s, v[from]);
        push_range(s, v, from + 1, to);
        assert(old(s)@.push(v@[from as int]) + v@.subrange(from as int + 1, to as int) =~= old(
            s,
        )@ + v@.subrange(from as int, to as int));
    } else {
        assert(old(s)@ + v@.subrange(from as int, to as int) =~= old(s)@);
    }
}

fn push_grouped(s: &mut String, v: &Vec<char>, end: usize, sep: char)
    requires
        end <= v.len(),
    ensures
        final(s)@ == old(s)@ + spec_grouped(v@.take(end as int), sep),
    decreases end,
{
    if end <= 3 {
        push_range(s, v, 0, end);
        assert(v@.subrange(0, end as int) =~= v@.take(end as int));
    } else {
        push_grouped(s, v, end - 3, sep);
        push_char(s, sep);
        push_range(s, v, end - 3, end);
        proof {
            let t = v@.take(end as int);
            assert(t.take(end as int - 3) =~= v@.take(end as int - 3));
            assert(t.skip(end as int - 3) =~= v@.subrange(end as int - 3, end as int));
            assert((old(s)@ + spec_grouped(v@.take(end as int - 3), sep)).push(sep)
                + v@.subrange(end as int - 3, end as int) =~= old(s)@ + spec_grouped(t, sep));
        }
    }
}

/// The display string for `number` under the formatter's configuration:
/// decimal digits grouped in threes by the separator, preceded by the minus
/// sign when the number is negative.
pub fn present_int(number: i64, formatter: &Formatter) -> (r: String)
    ensures
        r@ == spec_format_int(number as int, formatter.separator, formatter.minus_sign),
{
    let mut s = String::new();
    let magnitude: u64 = if number < 0 {
        push_char(&mut s, formatter.minus_sign);
        (-(number as i128)) as u64
    } else {
        number as u64
    };
    let digits = digits_vec(magnitude);
    let len: usize = digits.len();
    push_grouped(&mut s, &digits, len, formatter.separator);
    proof {
        assert(digits@.take(len as int) =~= digits@);
        if number < 0 {
            assert(s@ =~= seq![formatter.minus_sign] + spec_grouped(
                spec_digits(magnitude as nat),
                formatter.separator,
            ));
        } else {
            assert(s@ =~= spec_grouped(spec_digits(magnitude as nat), formatter.separator));
        }
    }
    s
}

} // verus!
