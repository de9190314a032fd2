//! Decimal text handled exactly: parsing query parameters and provider error
//! codes into integers, and rendering integers back into message text.
//!
//! Parsing scans left to right and stops at the first offending character or
//! at the first accumulated value beyond the target range, so a malformed or
//! oversized input is rejected with the matching failure kind and nothing
//! panics.

use vstd::prelude::*;
use vstd::string::StrSliceExecFns;
use vstd::string::StringExecFns;

verus! {

/// Why a piece of decimal text failed to parse as an integer.
#[derive(Debug, Clone, Copy, PartialEq, Eq, Structural)]
pub enum IntParseKind {
    /// The text was empty.
    Empty,
    /// A character was not a decimal digit (a lone sign counts as this).
    InvalidDigit,
    /// The value exceeds the largest value of the target type.
    PosOverflow,
    /// The value falls below the smallest value of the target type.
    NegOverflow,
}

/// The stable description each parse-failure kind renders to.
pub open spec fn int_parse_kind_text(k: IntParseKind) -> Seq<char> {
    match k {
        IntParseKind::Empty => "cannot parse integer from empty string"@,
        IntParseKind::InvalidDigit => "invalid digit found in string"@,
        IntParseKind::PosOverflow => "number too large to fit in target type"@,
        IntParseKind::NegOverflow => "number too small to fit in target type"@,
    }
}

impl IntParseKind {
    /// Description of this parse failure, for a message that names the
    /// parameter that failed.
    pub fn message_str(&self) -> (r: &'static str)
        ensures
            r@ == int_parse_kind_text(*self),
    {
        match self {
            IntParseKind::Empty => "cannot parse integer from empty string",
            IntParseKind::InvalidDigit => "invalid digit found in string",
            IntParseKind::PosOverflow => "number too large to fit in target type",
            IntParseKind::NegOverflow => "number too small to fit in target type",
        }
    }
}

/// True for the ten ASCII decimal digits.
pub open spec fn is_dec_digit(c: char) -> bool {
    '0' as u32 <= c as u32 && c as u32 <= '9' as u32
}

/// Numeric value of a decimal digit.
pub open spec fn digit_val(c: char) -> int {
    c as u32 - '0' as u32
}

/// Outcome of scanning a run of characters as decimal digits.
pub ghost enum ScanOutcome {
    /// Every character was a digit and the value never left the range.
    Value(int),
    /// Scanning reached a character that is not a decimal digit.
    BadDigit,
    /// The accumulated value passed `bound` before any bad digit.
    TooBig,
}

/// Scans `s` left to right, accumulating `acc = acc * 10 + digit`, and stops
/// at the first character that is not a digit or the first value above
/// `bound`, whichever comes first.
pub open spec fn scan_digits(s: Seq<char>, acc: int, bound: int) -> ScanOutcome
    decreases s.len(),
{
    if s.len() == 0 {
        ScanOutcome::Value(acc)
    } else if !is_dec_digit(s[0]) {
        ScanOutcome::BadDigit
    } else if acc * 10 + digit_val(s[0]) > bound {
        ScanOutcome::TooBig
    } else {
        scan_digits(s.skip(1), acc * 10 + digit_val(s[0]), bound)
    }
}

/// What parsing signed decimal text into a 32-bit integer yields: an optional
/// sign, then one or more digits, with overflow reported where the scan first
/// leaves the representable range.
pub open spec fn spec_parse_i32(s: Seq<char>) -> Result<i32, IntParseKind> {
    if s.len() == 0 {
        Err(IntParseKind::Empty)
    } else {
        let neg = s[0] == '-';
        let digits = if s[0] == '-' || s[0] == '+' {
            s.skip(1)
        } else {
            s
        };
        if digits.len() == 0 {
            Err(IntParseKind::InvalidDigit)
        } else {
            let bound: int = if neg {
                0x8000_0000
            } else {
                0x7fff_ffff
            };
            match scan_digits(digits, 0, bound) {
                ScanOutcome::BadDigit => Err(IntParseKind::InvalidDigit),
                ScanOutcome::TooBig => Err(
                    if neg {
                        IntParseKind::NegOverflow
                    } else {
                        IntParseKind::PosOverflow
                    },
                ),
                ScanOutcome::Value(v) => Ok((if neg { -v } else { v }) as i32),
            }
        }
    }
}

/// What parsing unsigned decimal text into a 32-bit integer yields: an
/// optional leading `+`, then one or more digits; a `-` is no digit.
pub open spec fn spec_parse_u32(s: Seq<char>) -> Result<u32, IntParseKind> {
    if s.len() == 0 {
        Err(IntParseKind::Empty)
    } else {
        let digits = if s[0] == '+' {
            s.skip(1)
        } else {
            s
        };
        if digits.len() == 0 {
            Err(IntParseKind::InvalidDigit)
        } else {
            match scan_digits(digits, 0, 0xffff_ffff) {
                ScanOutcome::BadDigit => Err(IntParseKind::InvalidDigit),
                ScanOutcome::TooBig => Err(IntParseKind::PosOverflow),
                ScanOutcome::Value(v) => Ok(v as u32),
            }
        }
    }
}

/// How the exec digit scan reports a stop.
#[derive(Debug, Clone, Copy, PartialEq, Eq, Structural)]
pub enum ScanStop {
    /// A character was not a decimal digit.
    BadDigit,
    /// The accumulated value passed the bound.
    TooBig,
}

/// Scans the characters of `s` from `start` on as decimal digits, exactly as
/// `scan_digits` describes.
fn scan_value(s: &str, start: usize, bound: u64) -> (r: Result<u64, ScanStop>)
    requires
        start <= s@.len(),
        bound <= 0x1_0000_0000,
    ensures
        match scan_digits(s@.skip(start as int), 0, bound as int) {
            ScanOutcome::Value(v) => r == Ok::<u64, ScanStop>(v as u64) && v == r->Ok_0 && 0 <= v
                <= bound,
            ScanOutcome::BadDigit => r == Err::<u64, ScanStop>(ScanStop::BadDigit),
            ScanOutcome::TooBig => r == Err::<u64, ScanStop>(ScanStop::TooBig),
        },
{
    let n = s.unicode_len();
    let mut acc: u64 = 0;
    let mut i: usize = start;
    while i < n
        invariant
            start <= i <= n,
            n == s@.len(),
            bound <= 0x1_0000_0000,
            0 <= acc <= bound,
            scan_digits(s@.skip(start as int), 0, bound as int) == scan_digits(
                s@.skip(i as int),
                acc as int,
                bound as int,
            ),
        decreases n - i,
    {
        let c = s.get_char(i);
        proof {
            assert(s@.skip(i as int)[0] == s@[i as int]);
            assert(s@.skip(i as int).skip(1) =~= s@.skip(i + 1));
        }
        let u = c as u32;
        if u < '0' as u32 || u > '9' as u32 {
            return Err(ScanStop::BadDigit);
        }
        let d = (u - '0' as u32) as u64;
        if acc > bound / 10 || acc * 10 + d > bound {
            proof {
                assert(acc * 10 + d > bound) by (nonlinear_arith)
                    requires
                        acc > bound / 10 && acc <= bound || acc * 10 + d > bound,
                        d >= 0,
                        bound >= 0,
                ;
            }
            return Err(ScanStop::TooBig);
        }
        acc = acc * 10 + d;
        i = i + 1;
    }
    proof {
        assert(s@.skip(i as int) =~= Seq::<char>::empty());
    }
    Ok(acc)
}

/// Parses signed decimal text as `spec_parse_i32` describes; never panics.
pub fn parse_i32(s: &str) -> (r: Result<i32, IntParseKind>)
    ensures
        r == spec_parse_i32(s@),
{
    let n = s.unicode_len();
    if n == 0 {
        return Err(IntParseKind::Empty);
    }
    let c0 = s.get_char(0);
    let neg = c0 == '-';
    let start: usize = if c0 == '-' || c0 == '+' {
        1
    } else {
        0
    };
    proof {
        if start == 1 {
            assert(s@.skip(1) =~= s@.skip(1));
        } else {
            assert(s@.skip(0) =~= s@);
        }
    }
    if n == start {
        return Err(IntParseKind::InvalidDigit);
    }
    let bound: u64 = if neg {
        0x8000_0000
    } else {
        0x7fff_ffff
    };
    match scan_value(s, start, bound) {
        Err(ScanStop::BadDigit) => Err(IntParseKind::InvalidDigit),
        Err(ScanStop::TooBig) => Err(
            if neg {
                IntParseKind::NegOverflow
            } else {
                IntParseKind::PosOverflow
            },
        ),
        Ok(v) => {
            if neg {
                let w: i64 = -(v as i64);
                Ok(w as i32)
            } else {
                Ok(v as i32)
            }
        },
    }
}

/// Parses unsigned decimal text as `spec_parse_u32` describes; never panics.
pub fn parse_u32(s: &str) -> (r: Result<u32, IntParseKind>)
    ensures
        r == spec_parse_u32(s@),
{
    let n = s.unicode_len();
    if n == 0 {
        return Err(IntParseKind::Empty);
    }
    let c0 = s.get_char(0);
    let start: usize = if c0 == '+' {
        1
    } else {
        0
    };
    proof {
        if start == 0 {
            assert(s@.skip(0) =~= s@);
        }
    }
    if n == start {
        return Err(IntParseKind::InvalidDigit);
    }
    match scan_value(s, start, 0xffff_ffff) {
        Err(ScanStop::BadDigit) => Err(IntParseKind::InvalidDigit),
        Err(ScanStop::TooBig) => Err(IntParseKind::PosOverflow),
        Ok(v) => Ok(v as u32),
    }
}

/// Decimal character for one digit value.
pub open spec fn dec_digit_char(d: int) -> char {
    if d == 0 {
        '0'
    } else if d == 1 {
        '1'
    } else if d == 2 {
        '2'
    } else if d == 3 {
        '3'
    } else if d == 4 {
        '4'
    } else if d == 5 {
        '5'
    } else if d == 6 {
        '6'
    } else if d == 7 {
        '7'
    } else if d == 8 {
        '8'
    } else {
        '9'
    }
}

/// Decimal rendering of a non-negative integer, most significant digit first.
pub open spec fn dec_str(n: int) -> Seq<char>
    decreases n,
{
    if n < 10 {
        seq![dec_digit_char(n)]
    } else {
        dec_str(n / 10).push(dec_digit_char(n % 10))
    }
}

/// One digit value as static text.
fn digit_str(d: u16) -> (r: &'static str)
    requires
        d < 10,
    ensures
        r@ == seq![dec_digit_char(d as int)],
{
    proof {
        reveal_strlit("0");
        reveal_strlit("1");
        reveal_strlit("2");
        reveal_strlit("3");
        reveal_strlit("4");
        reveal_strlit("5");
        reveal_strlit("6");
        reveal_strlit("7");
        reveal_strlit("8");
        reveal_strlit("9");
    }
    let r = match d {
        0 => "0",
        1 => "1",
        2 => "2",
        3 => "3",
        4 => "4",
        5 => "5",
        6 => "6",
        7 => "7",
        8 => "8",
        _ => "9",
    };
    proof {
        assert(r@ =~= seq![dec_digit_char(d as int)]);
    }
    r
}

/// Renders a 16-bit value in decimal, exactly as `dec_str` describes.
pub fn u16_to_dec(n: u16) -> (r: String)
    ensures
        r@ == dec_str(n as int),
    decreases n,
{
    if n < 10 {
        String::from_str(digit_str(n))
    } else {
        let mut s = u16_to_dec(n / 10);
        s.append(digit_str(n % 10));
        proof {
            assert(s@ =~= dec_str(n as int));
        }
        s
    }
}

} // verus!
