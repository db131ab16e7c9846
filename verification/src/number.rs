//! Reading unsigned decimal numbers from text, with the same verdicts as
//! the standard library's integer parsing gives.

use vstd::prelude::*;
use vstd::string::*;
use crate::text::{chars_of, is_digit, is_digit_char};

verus! {

/// Why a text is no number.
#[derive(Debug, Clone, Copy, PartialEq, Eq, Structural)]
pub enum NumberFault {
    /// The text is empty.
    Empty,
    /// A character is no decimal digit, or the text is a sign alone.
    InvalidDigit,
    /// The number does not fit.
    TooLarge,
}

impl NumberFault {
    /// The fault in words.
    pub open spec fn words(self) -> Seq<char> {
        match self {
            NumberFault::Empty => "cannot parse integer from empty string"@,
            NumberFault::InvalidDigit => "invalid digit found in string"@,
            NumberFault::TooLarge => "number too large to fit in target type"@,
        }
    }

    /// The fault in words.
    pub fn to_text(&self) -> (r: String)
        ensures
            r@ == self.words(),
    {
        match self {
            NumberFault::Empty => crate::text::text("cannot parse integer from empty string"),
            NumberFault::InvalidDigit => crate::text::text("invalid digit found in string"),
            NumberFault::TooLarge => crate::text::text("number too large to fit in target type"),
        }
    }
}

/// The value of a decimal digit.
pub open spec fn digit_value(c: char) -> int {
    c as int - '0' as int
}

/// What reading the digits from left to right comes to: the first character
/// that is no digit, or the first digit with which the number exceeds
/// `limit`, ends the reading with that fault.
pub open spec fn scanned(s: Seq<char>, limit: int) -> Result<int, NumberFault>
    decreases s.len(),
{
    if s.len() == 0 {
        Ok(0)
    } else {
        match scanned(s.drop_last(), limit) {
            Err(fault) => Err(fault),
            Ok(v) => {
                if !is_digit(s.last()) {
                    Err(NumberFault::InvalidDigit)
                } else if v * 10 + digit_value(s.last()) > limit {
                    Err(NumberFault::TooLarge)
                } else {
                    Ok(v * 10 + digit_value(s.last()))
                }
            },
        }
    }
}

/// The number that a text stands for, if it is one of at most `limit`:
/// decimal digits, with an optional plus sign before them.
pub open spec fn parsed(s: Seq<char>, limit: int) -> Result<int, NumberFault> {
    if s.len() == 0 {
        Err(NumberFault::Empty)
    } else {
        let digits = if s[0] == '+' {
            s.drop_first()
        } else {
            s
        };
        if digits.len() == 0 {
            Err(NumberFault::InvalidDigit)
        } else {
            scanned(digits, limit)
        }
    }
}

/// Reads an unsigned decimal number of at most `limit`.
pub fn parse_unsigned(s: &str, limit: u64) -> (r: Result<u64, NumberFault>)
    ensures
        match r {
            Ok(v) => parsed(s@, limit as int) == Ok::<int, NumberFault>(v as int) && v <= limit,
            Err(fault) => parsed(s@, limit as int) == Err::<int, NumberFault>(fault),
        },
{
    let v = chars_of(s);
    let n: usize = v.len();
    if n == 0 {
        return Err(NumberFault::Empty);
    }
    let start: usize = if v[0] == '+' {
        1
    } else {
        0
    };
    if start == n {
        assert(s@.drop_first().len() == 0);
        return Err(NumberFault::InvalidDigit);
    }
    let ghost digits = s@.subrange(start as int, n as int);
    proof {
        if start == 1 {
            assert(digits =~= s@.drop_first());
        } else {
            assert(digits =~= s@);
        }
        assert(digits.take(0) =~= Seq::<char>::empty());
    }
    let mut value: u64 = 0;
    let mut i: usize = start;
    while i < n
        invariant
            start <= i <= n,
            n == v.len(),
            v@ == s@,
            digits == s@.subrange(start as int, n as int),
            parsed(s@, limit as int) == scanned(digits, limit as int),
            value <= limit,
            scanned(digits.take(i - start), limit as int) == Ok::<int, NumberFault>(value as int),
        decreases n - i,
    {
        let c = v[i];
        let ghost before = digits.take(i - start);
        let ghost after = digits.take(i - start + 1);
        proof {
            assert(after.drop_last() =~= before);
            assert(after.last() == c);
        }
        if !is_digit_char(c) {
            proof {
                assert(scanned(after, limit as int) == Err::<int, NumberFault>(
                    NumberFault::InvalidDigit,
                ));
                lemma_fault_stays(digits, i - start + 1, limit as int);
            }
            return Err(NumberFault::InvalidDigit);
        }
        let d: u64 = (c as u32 - '0' as u32) as u64;
        if d > limit || value > (limit - d) / 10 {
            proof {
                assert(value * 10 + d > limit);
                assert(scanned(after, limit as int) == Err::<int, NumberFault>(
                    NumberFault::TooLarge,
                ));
                lemma_fault_stays(digits, i - start + 1, limit as int);
            }
            return Err(NumberFault::TooLarge);
        }
        value = value * 10 + d;
        i += 1;
    }
    assert(digits.take(n - start) =~= digits);
    Ok(value)
}

/// Once the reading has ended with a fault, more characters do not change
/// the verdict.
proof fn lemma_fault_stays(s: Seq<char>, upto: int, limit: int)
    requires
        0 <= upto <= s.len(),
        scanned(s.take(upto), limit) is Err,
    ensures
        scanned(s, limit) == scanned(s.take(upto), limit),
    decreases s.len() - upto,
{
    if upto < s.len() {
        let next = s.take(upto + 1);
        assert(next.drop_last() =~= s.take(upto));
        lemma_fault_stays(s, upto + 1, limit);
    } else {
        assert(s.take(upto) =~= s);
    }
}

} // verus!
