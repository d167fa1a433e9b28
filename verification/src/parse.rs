//! The parsing capability: converting a piece of text into a typed value.
//!
//! The [`Parse`] trait is the contract "text can be converted to `Self`, or
//! fail with `Self::Err`". Each implementation carries a specification-level
//! counterpart of its conversion, so that the retrieval functions can say
//! exactly which value (or which error) a lookup produces. Implementations
//! for the common scalar types and for `String` live here.

use vstd::prelude::*;

verus! {

use vstd::string::StrSliceExecFns;
use vstd::string::StringExecFns;

/// The deep view of a `Result`: both payloads taken to their views.
pub open spec fn result_deep_view<T: DeepView, E: DeepView>(r: Result<T, E>) -> Result<
    <T as DeepView>::V,
    <E as DeepView>::V,
> {
    match r {
        Ok(v) => Ok(v.deep_view()),
        Err(e) => Err(e.deep_view()),
    }
}

/// A fallible text-to-value conversion for `Self`.
///
/// `spec_from_str` states, at the level of views, which value or which
/// error a given piece of text converts to; `from_str` computes it and is
/// held to that statement.
pub trait Parse: Sized + DeepView {
    /// The error reported when the text does not convert.
    type Err: DeepView;

    /// What converting `s` yields, stated over views.
    spec fn spec_from_str(s: Seq<char>) -> Result<
        <Self as DeepView>::V,
        <Self::Err as DeepView>::V,
    >;

    /// Convert `s` into a value of `Self`, or report why it does not.
    fn from_str(s: &str) -> (r: Result<Self, Self::Err>)
        ensures
            result_deep_view(r) == Self::spec_from_str(s@),
    ;
}

/// Why a piece of text failed to convert to an integer.
#[derive(Debug, Clone, Copy, PartialEq, Eq, Structural)]
pub enum IntParseError {
    /// The text was empty.
    Empty,
    /// A character was not a digit of the expected form.
    InvalidDigit,
    /// The number is too large for the target type.
    PosOverflow,
    /// The number is too small for the target type.
    NegOverflow,
}

impl DeepView for IntParseError {
    type V = IntParseError;

    open spec fn deep_view(&self) -> IntParseError {
        *self
    }
}

/// Whether `c` is a decimal digit.
pub open spec fn is_digit(c: char) -> bool {
    48 <= c as u32 <= 57
}

/// The numeric value of the decimal digit `c`.
pub open spec fn digit_value(c: char) -> int {
    c as u32 - 48
}

/// Reading decimal digits left to right onto the accumulator `acc`, stopping
/// at the first character that is not a digit or the first overflow past
/// `max`, as the standard library's integer conversions do.
pub open spec fn parse_digits(s: Seq<char>, acc: int, max: int) -> Result<int, IntParseError>
    decreases s.len(),
{
    if s.len() == 0 {
        Ok(acc)
    } else if !is_digit(s[0]) {
        Err(IntParseError::InvalidDigit)
    } else if acc * 10 + digit_value(s[0]) > max {
        Err(IntParseError::PosOverflow)
    } else {
        parse_digits(s.drop_first(), acc * 10 + digit_value(s[0]), max)
    }
}

/// What parsing `s` as an unsigned integer no greater than `max` yields:
/// an optional leading `+`, then one or more decimal digits.
pub open spec fn parse_unsigned(s: Seq<char>, max: int) -> Result<int, IntParseError> {
    if s.len() == 0 {
        Err(IntParseError::Empty)
    } else {
        let body = if s[0] == '+' { s.drop_first() } else { s };
        if body.len() == 0 {
            Err(IntParseError::InvalidDigit)
        } else {
            parse_digits(body, 0, max)
        }
    }
}

/// Reading decimal digits left to right onto the accumulator `acc`, the
/// digits counting downward, stopping at the first character that is not a
/// digit or the first overflow past `min`.
pub open spec fn parse_digits_negative(s: Seq<char>, acc: int, min: int) -> Result<
    int,
    IntParseError,
>
    decreases s.len(),
{
    if s.len() == 0 {
        Ok(acc)
    } else if !is_digit(s[0]) {
        Err(IntParseError::InvalidDigit)
    } else if acc * 10 - digit_value(s[0]) < min {
        Err(IntParseError::NegOverflow)
    } else {
        parse_digits_negative(s.drop_first(), acc * 10 - digit_value(s[0]), min)
    }
}

/// What parsing `s` as a signed integer between `min` and `max` yields: an
/// optional leading `+` or `-`, then one or more decimal digits.
pub open spec fn parse_signed(s: Seq<char>, min: int, max: int) -> Result<int, IntParseError> {
    if s.len() == 0 {
        Err(IntParseError::Empty)
    } else if s[0] == '-' {
        let body = s.drop_first();
        if body.len() == 0 {
            Err(IntParseError::InvalidDigit)
        } else {
            parse_digits_negative(body, 0, min)
        }
    } else {
        let body = if s[0] == '+' { s.drop_first() } else { s };
        if body.len() == 0 {
            Err(IntParseError::InvalidDigit)
        } else {
            parse_digits(body, 0, max)
        }
    }
}

/// Parse `s` as a decimal unsigned integer of at most `max`.
fn parse_u64_up_to(s: &str, max: u64) -> (r: Result<u64, IntParseError>)
    ensures
        (r matches Ok(v) ==> v <= max && parse_unsigned(s@, max as int) == Ok::<int, IntParseError>(v as int)),
        (r matches Err(e) ==> parse_unsigned(s@, max as int) == Err::<int, IntParseError>(e)),
{
    let len = s.unicode_len();
    if len == 0 {
        return Err(IntParseError::Empty);
    }
    let start: usize = if s.get_char(0) == '+' { 1 } else { 0 };
    if start == len {
        return Err(IntParseError::InvalidDigit);
    }
    proof {
        assert(s@.subrange(start as int, len as int) == (if s@[0] == '+' { s@.drop_first() } else { s@ })) by {
            if s@[0] == '+' {
                assert(s@.subrange(1, len as int) =~= s@.drop_first());
            } else {
                assert(s@.subrange(0, len as int) =~= s@);
            }
        };
    }
    let ghost body = s@.subrange(start as int, len as int);
    let mut value: u64 = 0;
    let mut i: usize = start;
    while i < len
        invariant
            start <= i <= len,
            len == s@.len(),
            value <= max,
            body == s@.subrange(start as int, len as int),
            parse_unsigned(s@, max as int) == parse_digits(body, 0, max as int),
            parse_digits(body, 0, max as int) == parse_digits(
                s@.subrange(i as int, len as int),
                value as int,
                max as int,
            ),
        decreases len - i,
    {
        let ghost rest = s@.subrange(i as int, len as int);
        let c = s.get_char(i);
        let code = c as u32;
        proof {
            assert(rest[0] == s@[i as int]);
            assert(rest.drop_first() =~= s@.subrange(i as int + 1, len as int));
        }
        if code < 48 || code > 57 {
            proof {
                assert(!is_digit(rest[0]));
                assert(parse_digits(rest, value as int, max as int) == Err::<int, IntParseError>(
                    IntParseError::InvalidDigit,
                ));
                assert(parse_unsigned(s@, max as int) == parse_digits(body, 0, max as int));
            }
            return Err(IntParseError::InvalidDigit);
        }
        let d = (code - 48) as u64;
        let next: u128 = value as u128 * 10 + d as u128;
        if next > max as u128 {
            proof {
                assert(is_digit(rest[0]));
                assert(value * 10 + digit_value(rest[0]) > max);
                assert(parse_digits(rest, value as int, max as int) == Err::<int, IntParseError>(
                    IntParseError::PosOverflow,
                ));
                assert(parse_unsigned(s@, max as int) == parse_digits(body, 0, max as int));
            }
            return Err(IntParseError::PosOverflow);
        }
        value = next as u64;
        i = i + 1;
    }
    proof {
        assert(s@.subrange(len as int, len as int) =~= Seq::<char>::empty());
    }
    Ok(value)
}

/// Parse `s` as a decimal signed integer between `min` and `max`.
fn parse_i64_in(s: &str, min: i64, max: i64) -> (r: Result<i64, IntParseError>)
    requires
        min <= 0 <= max,
    ensures
        (r matches Ok(v) ==> min <= v <= max && parse_signed(s@, min as int, max as int) == Ok::<int, IntParseError>(v as int)),
        (r matches Err(e) ==> parse_signed(s@, min as int, max as int) == Err::<int, IntParseError>(e)),
{
    let len = s.unicode_len();
    if len == 0 {
        return Err(IntParseError::Empty);
    }
    let first = s.get_char(0);
    let negative = first == '-';
    let start: usize = if negative || first == '+' { 1 } else { 0 };
    if start == len {
        return Err(IntParseError::InvalidDigit);
    }
    proof {
        if start == 1 {
            assert(s@.subrange(1, len as int) =~= s@.drop_first());
        } else {
            assert(s@.subrange(0, len as int) =~= s@);
        }
    }
    let ghost body = s@.subrange(start as int, len as int);
    let mut value: i64 = 0;
    let mut i: usize = start;
    while i < len
        invariant
            start <= i <= len,
            len == s@.len(),
            body == s@.subrange(start as int, len as int),
            min <= 0 <= max,
            negative ==> min <= value <= 0,
            !negative ==> 0 <= value <= max,
            negative ==> parse_signed(s@, min as int, max as int) == parse_digits_negative(
                body,
                0,
                min as int,
            ),
            !negative ==> parse_signed(s@, min as int, max as int) == parse_digits(
                body,
                0,
                max as int,
            ),
            negative ==> parse_digits_negative(body, 0, min as int) == parse_digits_negative(
                s@.subrange(i as int, len as int),
                value as int,
                min as int,
            ),
            !negative ==> parse_digits(body, 0, max as int) == parse_digits(
                s@.subrange(i as int, len as int),
                value as int,
                max as int,
            ),
        decreases len - i,
    {
        let ghost rest = s@.subrange(i as int, len as int);
        let c = s.get_char(i);
        let code = c as u32;
        proof {
            assert(rest[0] == s@[i as int]);
            assert(rest.drop_first() =~= s@.subrange(i as int + 1, len as int));
        }
        if code < 48 || code > 57 {
            proof {
                assert(!is_digit(rest[0]));
            }
            return Err(IntParseError::InvalidDigit);
        }
        let d = (code - 48) as i64;
        if negative {
            let next: i128 = value as i128 * 10 - d as i128;
            if next < min as i128 {
                proof {
                    assert(value * 10 - digit_value(rest[0]) < min);
                    assert(parse_digits_negative(rest, value as int, min as int)
                        == Err::<int, IntParseError>(IntParseError::NegOverflow));
                }
                return Err(IntParseError::NegOverflow);
            }
            value = next as i64;
        } else {
            let next: i128 = value as i128 * 10 + d as i128;
            if next > max as i128 {
                proof {
                    assert(value * 10 + digit_value(rest[0]) > max);
                    assert(parse_digits(rest, value as int, max as int) == Err::<int, IntParseError>(
                        IntParseError::PosOverflow,
                    ));
                }
                return Err(IntParseError::PosOverflow);
            }
            value = next as i64;
        }
        i = i + 1;
    }
    proof {
        assert(s@.subrange(len as int, len as int) =~= Seq::<char>::empty());
    }
    Ok(value)
}

impl Parse for i32 {
    type Err = IntParseError;

    open spec fn spec_from_str(s: Seq<char>) -> Result<i32, IntParseError> {
        match parse_signed(s, i32::MIN as int, i32::MAX as int) {
            Ok(v) => Ok(v as i32),
            Err(e) => Err(e),
        }
    }

    fn from_str(s: &str) -> (r: Result<i32, IntParseError>) {
        match parse_i64_in(s, i32::MIN as i64, i32::MAX as i64) {
            Ok(v) => Ok(v as i32),
            Err(e) => Err(e),
        }
    }
}

impl Parse for i64 {
    type Err = IntParseError;

    open spec fn spec_from_str(s: Seq<char>) -> Result<i64, IntParseError> {
        match parse_signed(s, i64::MIN as int, i64::MAX as int) {
            Ok(v) => Ok(v as i64),
            Err(e) => Err(e),
        }
    }

    fn from_str(s: &str) -> (r: Result<i64, IntParseError>) {
        parse_i64_in(s, i64::MIN, i64::MAX)
    }
}

impl Parse for u8 {
    type Err = IntParseError;

    open spec fn spec_from_str(s: Seq<char>) -> Result<u8, IntParseError> {
        match parse_unsigned(s, u8::MAX as int) {
            Ok(v) => Ok(v as u8),
            Err(e) => Err(e),
        }
    }

    fn from_str(s: &str) -> (r: Result<u8, IntParseError>) {
        match parse_u64_up_to(s, u8::MAX as u64) {
            Ok(v) => Ok(v as u8),
            Err(e) => Err(e),
        }
    }
}

impl Parse for u16 {
    type Err = IntParseError;

    open spec fn spec_from_str(s: Seq<char>) -> Result<u16, IntParseError> {
        match parse_unsigned(s, u16::MAX as int) {
            Ok(v) => Ok(v as u16),
            Err(e) => Err(e),
        }
    }

    fn from_str(s: &str) -> (r: Result<u16, IntParseError>) {
        match parse_u64_up_to(s, u16::MAX as u64) {
            Ok(v) => Ok(v as u16),
            Err(e) => Err(e),
        }
    }
}

impl Parse for u32 {
    type Err = IntParseError;

    open spec fn spec_from_str(s: Seq<char>) -> Result<u32, IntParseError> {
        match parse_unsigned(s, u32::MAX as int) {
            Ok(v) => Ok(v as u32),
            Err(e) => Err(e),
        }
    }

    fn from_str(s: &str) -> (r: Result<u32, IntParseError>) {
        match parse_u64_up_to(s, u32::MAX as u64) {
            Ok(v) => Ok(v as u32),
            Err(e) => Err(e),
        }
    }
}

impl Parse for u64 {
    type Err = IntParseError;

    open spec fn spec_from_str(s: Seq<char>) -> Result<u64, IntParseError> {
        match parse_unsigned(s, u64::MAX as int) {
            Ok(v) => Ok(v as u64),
            Err(e) => Err(e),
        }
    }

    fn from_str(s: &str) -> (r: Result<u64, IntParseError>) {
        parse_u64_up_to(s, u64::MAX)
    }
}

/// Why a piece of text failed to convert to a `bool`.
#[derive(Debug, Clone, Copy, PartialEq, Eq, Structural)]
pub struct BoolParseError;

impl DeepView for BoolParseError {
    type V = BoolParseError;

    open spec fn deep_view(&self) -> BoolParseError {
        *self
    }
}

/// What parsing `s` as a `bool` yields: exactly the text `true` or the
/// text `false`.
pub open spec fn parse_bool(s: Seq<char>) -> Result<bool, BoolParseError> {
    if s == seq!['t', 'r', 'u', 'e'] {
        Ok(true)
    } else if s == seq!['f', 'a', 'l', 's', 'e'] {
        Ok(false)
    } else {
        Err(BoolParseError)
    }
}

impl Parse for bool {
    type Err = BoolParseError;

    open spec fn spec_from_str(s: Seq<char>) -> Result<bool, BoolParseError> {
        parse_bool(s)
    }

    fn from_str(s: &str) -> (r: Result<bool, BoolParseError>) {
        let len = s.unicode_len();
        if len == 4 && s.get_char(0) == 't' && s.get_char(1) == 'r' && s.get_char(2) == 'u'
            && s.get_char(3) == 'e' {
            proof {
                assert(s@ =~= seq!['t', 'r', 'u', 'e']);
            }
            Ok(true)
        } else if len == 5 && s.get_char(0) == 'f' && s.get_char(1) == 'a' && s.get_char(2) == 'l'
            && s.get_char(3) == 's' && s.get_char(4) == 'e' {
            proof {
                assert(s@ =~= seq!['f', 'a', 'l', 's', 'e']);
            }
            Ok(false)
        } else {
            Err(BoolParseError)
        }
    }
}

/// The error of a conversion that cannot fail; no value of it is ever
/// produced.
#[derive(Debug, Clone, Copy, PartialEq, Eq, Structural)]
pub struct NoParseError;

impl DeepView for NoParseError {
    type V = NoParseError;

    open spec fn deep_view(&self) -> NoParseError {
        *self
    }
}

impl Parse for String {
    type Err = NoParseError;

    open spec fn spec_from_str(s: Seq<char>) -> Result<Seq<char>, NoParseError> {
        Ok(s)
    }

    fn from_str(s: &str) -> (r: Result<String, NoParseError>) {
        Ok(<String as vstd::string::StringExecFns>::from_str(s))
    }
}

impl Parse for usize {
    type Err = IntParseError;

    open spec fn spec_from_str(s: Seq<char>) -> Result<usize, IntParseError> {
        match parse_unsigned(s, usize::MAX as int) {
            Ok(v) => Ok(v as usize),
            Err(e) => Err(e),
        }
    }

    fn from_str(s: &str) -> (r: Result<usize, IntParseError>) {
        match parse_u64_up_to(s, usize::MAX as u64) {
            Ok(v) => Ok(v as usize),
            Err(e) => Err(e),
        }
    }
}

}
