use vstd::prelude::*;
use crate::error::CustomError;
use crate::text::{i32_text, i64_text, parse_i32, parse_i64};

verus! {

/// The message of a refused integer text: `Error parsing string: '<text>', not a valid integer`.
pub open spec fn not_an_integer_message(text: Seq<char>) -> Seq<char> {
    "Error parsing string: '"@ + text + "', not a valid integer"@
}

fn not_an_integer(int_str: &str) -> (res: CustomError)
    ensures
        res.error_status_code == 400,
        res.error_message@ == not_an_integer_message(int_str@),
{
    let mut msg = String::from_str("Error parsing string: '");
    msg.append(int_str);
    msg.append("', not a valid integer");
    CustomError::new(400, msg)
}

/// Reads a text as an `i64`, as `str::parse` does; any other text is a 400
/// error that quotes it.
pub fn validate_long(int_str: &str) -> (res: Result<i64, CustomError>)
    ensures
        res is Ok <==> i64_text(int_str@) is Some,
        res matches Ok(n) ==> n as int == i64_text(int_str@)->0,
        res matches Err(e) ==> e.error_status_code == 400 && e.error_message@
            == not_an_integer_message(int_str@),
{
    match parse_i64(int_str) {
        Some(n) => Ok(n),
        None => Err(not_an_integer(int_str)),
    }
}

/// Reads a text as an `i32`, as `str::parse` does; any other text is a 400
/// error that quotes it.
pub fn validate_int(int_str: &str) -> (res: Result<i32, CustomError>)
    ensures
        res is Ok <==> i32_text(int_str@) is Some,
        res matches Ok(n) ==> n as int == i32_text(int_str@)->0,
        res matches Err(e) ==> e.error_status_code == 400 && e.error_message@
            == not_an_integer_message(int_str@),
{
    match parse_i32(int_str) {
        Some(n) => Ok(n),
        None => Err(not_an_integer(int_str)),
    }
}

} // verus!
