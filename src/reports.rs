use vstd::prelude::*;
use vstd::string::StringExecFns;
use crate::text::{int_text, push_signed_decimal};

verus! {

#[verifier::external_type_specification]
#[verifier::external_body]
pub struct ExParseIntError(core::num::ParseIntError);

/// The one-line report on an optional number: whether it is above fifty, at most fifty, or absent.
pub open spec fn option_text(maybe: Option<i32>) -> Seq<char> {
    match maybe {
        Some(n) => if n > 50 {
            "50より大きい値: "@ + int_text(n as int)
        } else {
            "50以下の値: "@ + int_text(n as int)
        },
        None => "値はありません"@,
    }
}

/// Reports on an optional number, branching on its presence and on the threshold fifty.
pub fn option_report(maybe: Option<i32>) -> (r: String)
    ensures
        r@ == option_text(maybe),
{
    match maybe {
        Some(n) if n > 50 => {
            let mut s = String::from_str("50より大きい値: ");
            push_signed_decimal(&mut s, n);
            s
        },
        Some(n) => {
            let mut s = String::from_str("50以下の値: ");
            push_signed_decimal(&mut s, n);
            s
        },
        None => String::from_str("値はありません"),
    }
}

/// Whether `c` is an ASCII decimal digit.
pub open spec fn is_digit(c: char) -> bool {
    '0' <= c <= '9'
}

/// The value of a run of decimal digits, most significant first.
pub open spec fn digits_value(d: Seq<char>) -> int
    decreases d.len(),
{
    if d.len() == 0 {
        0
    } else {
        10 * digits_value(d.drop_last()) + (d.last() as int - '0' as int)
    }
}

/// One or more decimal digits and nothing else.
pub open spec fn all_digits(d: Seq<char>) -> bool {
    d.len() > 0 && forall|i: int| 0 <= i < d.len() ==> is_digit(#[trigger] d[i])
}

/// The integer that a text spells: an optional `+` or `-`, then one or more digits.
pub open spec fn decimal_value(s: Seq<char>) -> Option<int> {
    if s.len() > 0 && s[0] == '-' && all_digits(s.drop_first()) {
        Some(-digits_value(s.drop_first()))
    } else if s.len() > 0 && s[0] == '+' && all_digits(s.drop_first()) {
        Some(digits_value(s.drop_first()))
    } else if all_digits(s) {
        Some(digits_value(s))
    } else {
        None
    }
}

/// The `i32` that a text spells, if it spells one in range.
pub open spec fn parsed_i32(s: Seq<char>) -> Option<int> {
    match decimal_value(s) {
        Some(v) => if i32::MIN <= v <= i32::MAX { Some(v) } else { None },
        None => None,
    }
}

/// Relies on `<i32 as FromStr>::from_str` (through `str::parse`): it accepts an optional
/// `+` or `-` followed by decimal digits only, and fails when the value does not fit.
#[verifier::external_body]
fn parse_i32(s: &str) -> (r: Result<i32, core::num::ParseIntError>)
    ensures
        r is Ok <==> parsed_i32(s@) is Some,
        r matches Ok(n) ==> parsed_i32(s@) == Some(n as int),
{
    s.parse::<i32>()
}

/// Parses a text as an `i32` and reports the value on success; hands back the parse error otherwise.
pub fn parse_report(s: &str) -> (r: Result<String, core::num::ParseIntError>)
    ensures
        r is Ok <==> parsed_i32(s@) is Some,
        r matches Ok(line) ==> line@ == "パース成功: "@ + int_text(parsed_i32(s@)->0),
{
    match parse_i32(s) {
        Ok(n) => {
            let mut line = String::from_str("パース成功: ");
            push_signed_decimal(&mut line, n);
            Ok(line)
        },
        Err(e) => Err(e),
    }
}

} // verus!
