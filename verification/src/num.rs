//! Parsing of unsigned decimal integers, with the rules of `u64::from_str`.

use vstd::prelude::*;

verus! {

/// Why a decimal integer could not be parsed.
#[derive(Debug, Clone, Copy, PartialEq, Eq, Structural)]
pub enum IntErrorKind {
    /// The input was empty.
    Empty,
    /// The input held a byte that is not a decimal digit.
    InvalidDigit,
    /// The value does not fit in a `u64`.
    PosOverflow,
}

/// An error from parsing a decimal integer.
#[derive(Debug, Clone, Copy, PartialEq, Eq, Structural)]
pub struct ParseIntError {
    pub kind: IntErrorKind,
}

/// The numeric value of an ASCII decimal digit.
pub open spec fn digit_value(b: u8) -> int {
    b - 48
}

pub open spec fn is_digit(b: u8) -> bool {
    48 <= b <= 57
}

/// Reads the digits of `d` after the value `acc` already read, left to right;
/// at each position a non-digit is reported before an overflow.
pub open spec fn parse_digits(d: Seq<u8>, acc: nat) -> Result<u64, IntErrorKind>
    decreases d.len(),
{
    if d.len() == 0 {
        Ok(acc as u64)
    } else if !is_digit(d[0]) {
        Err(IntErrorKind::InvalidDigit)
    } else if acc * 10 + digit_value(d[0]) > u64::MAX {
        Err(IntErrorKind::PosOverflow)
    } else {
        parse_digits(d.drop_first(), (acc * 10 + digit_value(d[0])) as nat)
    }
}

/// What `u64::from_str` gives for the bytes `s`: an optional leading `+`,
/// then at least one decimal digit.
pub open spec fn spec_parse_u64(s: Seq<u8>) -> Result<u64, IntErrorKind> {
    if s.len() == 0 {
        Err(IntErrorKind::Empty)
    } else if s.len() == 1 && (s[0] == 43 || s[0] == 45) {
        Err(IntErrorKind::InvalidDigit)
    } else if s[0] == 43 {
        parse_digits(s.drop_first(), 0)
    } else {
        parse_digits(s, 0)
    }
}

/// The value of a sequence of decimal digits.
pub open spec fn decimal_value(d: Seq<u8>) -> nat
    decreases d.len(),
{
    if d.len() == 0 {
        0
    } else {
        (decimal_value(d.drop_last()) * 10 + digit_value(d.last())) as nat
    }
}

impl ParseIntError {
    /// The message that the standard library gives for this error.
    pub fn description(&self) -> (r: &'static str)
        ensures
            r@ == spec_int_error_description(self.kind),
    {
        match self.kind {
            IntErrorKind::Empty => "cannot parse integer from empty string",
            IntErrorKind::InvalidDigit => "invalid digit found in string",
            IntErrorKind::PosOverflow => "number too large to fit in target type",
        }
    }
}

pub open spec fn spec_int_error_description(k: IntErrorKind) -> Seq<char> {
    match k {
        IntErrorKind::Empty => "cannot parse integer from empty string"@,
        IntErrorKind::InvalidDigit => "invalid digit found in string"@,
        IntErrorKind::PosOverflow => "number too large to fit in target type"@,
    }
}

/// Parses the decimal digits `s[start..]` after the value `acc`.
fn parse_digits_from(s: &[u8], start: usize) -> (r: Result<u64, IntErrorKind>)
    requires
        start <= s@.len(),
    ensures
        r == parse_digits(s@.subrange(start as int, s@.len() as int), 0),
{
    let mut acc: u64 = 0;
    let mut i: usize = start;
    while i < s.len()
        invariant
            start <= i <= s@.len(),
            parse_digits(s@.subrange(start as int, s@.len() as int), 0)
                == parse_digits(s@.subrange(i as int, s@.len() as int), acc as nat),
        decreases s@.len() - i,
    {
        let b = s[i];
        assert(s@.subrange(i as int, s@.len() as int).drop_first()
            =~= s@.subrange(i + 1, s@.len() as int));
        if b < 48 || b > 57 {
            return Err(IntErrorKind::InvalidDigit);
        }
        let d: u64 = (b - 48) as u64;
        if acc > (u64::MAX - d) / 10 {
            assert(acc * 10 + d > u64::MAX) by (nonlinear_arith)
                requires acc > (u64::MAX - d) / 10, d <= 9;
            return Err(IntErrorKind::PosOverflow);
        }
        assert(acc * 10 + d <= u64::MAX) by (nonlinear_arith)
            requires acc <= (u64::MAX - d) / 10, d <= 9;
        acc = acc * 10 + d;
        i = i + 1;
    }
    assert(s@.subrange(i as int, s@.len() as int).len() == 0);
    Ok(acc)
}

/// Parses `s` as `u64::from_str` does.
pub fn parse_u64(s: &[u8]) -> (r: Result<u64, ParseIntError>)
    ensures
        match r {
            Ok(v) => spec_parse_u64(s@) == Ok::<u64, IntErrorKind>(v),
            Err(e) => spec_parse_u64(s@) == Err::<u64, IntErrorKind>(e.kind),
        },
{
    if s.len() == 0 {
        return Err(ParseIntError { kind: IntErrorKind::Empty });
    }
    if s.len() == 1 && (s[0] == 43 || s[0] == 45) {
        return Err(ParseIntError { kind: IntErrorKind::InvalidDigit });
    }
    let start: usize = if s[0] == 43 { 1 } else { 0 };
    assert(s@.subrange(0, s@.len() as int) =~= s@);
    assert(s@.subrange(1, s@.len() as int) =~= s@.drop_first());
    match parse_digits_from(s, start) {
        Ok(v) => Ok(v),
        Err(k) => Err(ParseIntError { kind: k }),
    }
}

/// The ASCII decimal digits of `n`, without leading zeros.
pub open spec fn decimal_ascii(n: nat) -> Seq<u8>
    decreases n,
{
    if n < 10 {
        seq![(48 + n) as u8]
    } else {
        decimal_ascii(n / 10).push((48 + n % 10) as u8)
    }
}

/// Reading one more digit after the digits `d`.
proof fn lemma_parse_digits_push(d: Seq<u8>, acc: nat, x: u8)
    requires
        acc <= u64::MAX,
        is_digit(x),
    ensures
        parse_digits(d.push(x), acc) == match parse_digits(d, acc) {
            Ok(v) => if v * 10 + digit_value(x) > u64::MAX {
                Err(IntErrorKind::PosOverflow)
            } else {
                Ok((v * 10 + digit_value(x)) as u64)
            },
            Err(e) => Err(e),
        },
    decreases d.len(),
{
    if d.len() == 0 {
        assert(d.push(x).drop_first() =~= Seq::<u8>::empty());
        let a2 = acc * 10 + digit_value(x);
        if a2 <= u64::MAX {
            assert(parse_digits(Seq::<u8>::empty(), a2 as nat) == Ok::<u64, IntErrorKind>(a2 as u64));
        }
    } else {
        assert(d.push(x)[0] == d[0]);
        assert(d.push(x).drop_first() =~= d.drop_first().push(x));
        if is_digit(d[0]) && acc * 10 + digit_value(d[0]) <= u64::MAX {
            lemma_parse_digits_push(d.drop_first(), (acc * 10 + digit_value(d[0])) as nat, x);
        }
    }
}

/// The first of the decimal digits of a number is a digit.
proof fn lemma_decimal_ascii_first(n: nat)
    ensures
        decimal_ascii(n).len() >= 1,
        is_digit(decimal_ascii(n)[0]),
    decreases n,
{
    if n >= 10 {
        lemma_decimal_ascii_first(n / 10);
    }
}

/// The decimal digits of a number read back as that number.
pub proof fn lemma_decimal_roundtrip(n: nat)
    requires
        n <= u64::MAX,
    ensures
        spec_parse_u64(decimal_ascii(n)) == Ok::<u64, IntErrorKind>(n as u64),
    decreases n,
{
    lemma_decimal_ascii_first(n);
    lemma_parse_digits_of_decimal(n);
}

proof fn lemma_parse_digits_of_decimal(n: nat)
    requires
        n <= u64::MAX,
    ensures
        parse_digits(decimal_ascii(n), 0) == Ok::<u64, IntErrorKind>(n as u64),
    decreases n,
{
    if n < 10 {
        let s = decimal_ascii(n);
        assert(s.drop_first() =~= Seq::<u8>::empty());
        assert(parse_digits(Seq::<u8>::empty(), n) == Ok::<u64, IntErrorKind>(n as u64));
    } else {
        lemma_parse_digits_of_decimal(n / 10);
        lemma_parse_digits_push(decimal_ascii(n / 10), 0, (48 + n % 10) as u8);
        assert(decimal_ascii(n) == decimal_ascii(n / 10).push((48 + n % 10) as u8));
        assert((n / 10) * 10 + n % 10 == n);
    }
}

/// Whether every byte is a decimal digit.
pub open spec fn all_digits(d: Seq<u8>) -> bool {
    forall|i: int| 0 <= i < d.len() ==> is_digit(#[trigger] d[i])
}

/// Digits read as their decimal value, or as an overflow where that value
/// does not fit in a `u64`.
proof fn lemma_parse_digits_value(d: Seq<u8>)
    requires
        all_digits(d),
    ensures
        parse_digits(d, 0) == if decimal_value(d) <= u64::MAX {
            Ok::<u64, IntErrorKind>(decimal_value(d) as u64)
        } else {
            Err(IntErrorKind::PosOverflow)
        },
    decreases d.len(),
{
    if d.len() == 0 {
    } else {
        let p = d.drop_last();
        assert(all_digits(p));
        lemma_parse_digits_value(p);
        lemma_parse_digits_push(p, 0, d.last());
        assert(p.push(d.last()) =~= d);
    }
}

/// A number written with decimal digits alone reads as the value of those
/// digits when it fits in a `u64`, and as an overflow when it does not.
pub proof fn lemma_parse_reads_decimal_value(s: Seq<u8>)
    requires
        s.len() > 0,
        all_digits(s),
    ensures
        spec_parse_u64(s) == if decimal_value(s) <= u64::MAX {
            Ok::<u64, IntErrorKind>(decimal_value(s) as u64)
        } else {
            Err(IntErrorKind::PosOverflow)
        },
{
    assert(is_digit(s[0]));
    lemma_parse_digits_value(s);
}

} // verus!
