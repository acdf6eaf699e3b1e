//! Reading unsigned decimal numbers.

use vstd::prelude::*;
use vstd::std_specs::iter::IteratorSpec;

verus! {

/// A decimal digit.
pub open spec fn is_digit(c: char) -> bool {
    '0' <= c <= '9'
}

/// Every character is a decimal digit.
pub open spec fn all_digits(s: Seq<char>) -> bool {
    forall|i: int| 0 <= i < s.len() ==> is_digit(#[trigger] s[i])
}

/// The number that a run of decimal digits writes.
pub open spec fn digits_value(s: Seq<char>) -> nat
    decreases s.len(),
{
    if s.len() == 0 {
        0
    } else {
        (digits_value(s.drop_last()) * 10 + (s.last() as int - '0' as int)) as nat
    }
}

/// The digits of a number's text: the text without a plus sign in front.
pub open spec fn unsigned_digits(s: Seq<char>) -> Seq<char> {
    if s.len() > 0 && s[0] == '+' {
        s.drop_first()
    } else {
        s
    }
}

/// The number that a text writes, if it is one and no larger than `max`: an
/// optional plus sign, then at least one decimal digit and nothing else.
pub open spec fn parsed_number(s: Seq<char>, max: u64) -> Option<u64> {
    let digits = unsigned_digits(s);
    if digits.len() > 0 && all_digits(digits) && digits_value(digits) <= max {
        Some(digits_value(digits) as u64)
    } else {
        None
    }
}

/// More digits never write a smaller number.
pub proof fn lemma_digits_value_grows(s: Seq<char>, n: int)
    requires
        all_digits(s),
        0 <= n <= s.len(),
    ensures
        digits_value(s.take(n)) <= digits_value(s),
    decreases s.len() - n,
{
    if n < s.len() {
        lemma_digits_value_grows(s, n + 1);
        assert(s.take(n + 1).drop_last() =~= s.take(n));
        assert(is_digit(s[n]));
        assert(s.take(n + 1).last() == s[n]);
    } else {
        assert(s.take(n) =~= s);
    }
}

/// Reads an unsigned decimal number that is no larger than `max`.
pub fn parse_number(text: &str, max: u64) -> (number: Option<u64>)
    ensures
        number == parsed_number(text@, max),
{
    broadcast use vstd::string::group_string_axioms;

    let mut chars = text.chars();
    let ghost mut digits = text@;
    let mut first = chars.next();
    match first {
        Some(c) => {
            if c == '+' {
                proof {
                    digits = text@.drop_first();
                }
                first = chars.next();
            }
        },
        None => {},
    }
    assert(digits == unsigned_digits(text@));
    let mut current = match first {
        Some(c) => c,
        None => {
            assert(digits.len() == 0);
            return None;
        },
    };
    let mut value: u64 = 0;
    let ghost mut seen: int = 0;
    assert(digits.take(0) =~= Seq::<char>::empty());
    assert(digits.skip(1) =~= digits.drop_first());
    loop
        invariant
            chars.obeys_prophetic_iter_laws(),
            chars.decrease() is Some,
            digits == unsigned_digits(text@),
            0 <= seen < digits.len(),
            current == digits[seen],
            chars.remaining() == digits.skip(seen + 1),
            all_digits(digits.take(seen)),
            value == digits_value(digits.take(seen)),
            value <= max,
        decreases chars.decrease()->0,
    {
        if !(current >= '0' && current <= '9') {
            assert(!is_digit(digits[seen]));
            return None;
        }
        let digit: u64 = (current as u32 - '0' as u32) as u64;
        proof {
            assert(digits.take(seen + 1).drop_last() =~= digits.take(seen));
            assert(digits.take(seen + 1).last() == current);
            assert(all_digits(digits.take(seen + 1))) by {
                assert forall|i: int| 0 <= i < seen + 1 implies is_digit(#[trigger] digits.take(seen + 1)[i]) by {
                    if i < seen {
                        assert(digits.take(seen)[i] == digits[i]);
                    }
                }
            }
            assert(digits_value(digits.take(seen + 1)) == value * 10 + digit);
        }
        if digit > max || value > (max - digit) / 10 {
            proof {
                assert(value * 10 + digit > max) by (nonlinear_arith)
                    requires
                        digit > max || value > (max - digit) / 10,
                ;
                if all_digits(digits) {
                    lemma_digits_value_grows(digits, seen + 1);
                }
            }
            return None;
        }
        assert(value * 10 + digit <= max) by (nonlinear_arith)
            requires
                digit <= max,
                value <= (max - digit) / 10,
        ;
        value = value * 10 + digit;
        proof {
            seen = seen + 1;
        }
        match chars.next() {
            Some(c) => {
                assert(digits.skip(seen)[0] == digits[seen]);
                assert(digits.skip(seen).drop_first() =~= digits.skip(seen + 1));
                current = c;
            },
            None => {
                assert(digits.skip(seen).len() == 0);
                assert(digits.take(seen) =~= digits);
                return Some(value);
            },
        }
    }
}

} // verus!
