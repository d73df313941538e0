//! Reading the arguments of a notification.

use crate::text::text_result;
use neovim_lib::Value;
use vstd::prelude::*;

verus! {

/// A MessagePack value as the editor sends it. Verus sees nothing inside it.
#[verifier::external_type_specification]
#[verifier::external_body]
pub struct ExValue(neovim_lib::Value);

/// What `Value::as_u64` returns for a value: the number it holds, if it
/// holds an integer that is not negative, and nothing for any other value.
pub uninterp spec fn value_as_u64(value: Value) -> Option<u64>;

/// The characters of what `Value::as_str` returns for a value: the string
/// it holds, if it holds a string of valid UTF-8, and nothing for any other
/// value.
pub uninterp spec fn value_as_str(value: Value) -> Option<Seq<char>>;

/// `Value::as_u64` reads the value and changes nothing, so that it returns
/// the same for the same value: [`value_as_u64`] names that result.
pub assume_specification[ Value::as_u64 ](value: &Value) -> (number: Option<u64>)
    ensures
        number == value_as_u64(*value),
;

/// `Value::as_str` reads the value and changes nothing, so that it returns
/// the same for the same value: [`value_as_str`] names the characters of that
/// result.
pub assume_specification<'a>[ Value::as_str ](value: &'a Value) -> (text: Option<&'a str>)
    ensures
        match text {
            Some(s) => value_as_str(*value) == Some(s@),
            None => value_as_str(*value) is None,
        },
;

/// What reading a string argument gives, from what `Value::as_str` gave: the
/// string itself, or the reason why there is none.
pub open spec fn string_reading(text: Option<Seq<char>>) -> Result<Seq<char>, Seq<char>> {
    match text {
        Some(s) => Ok(s),
        None => Err("cannot parse error"@),
    }
}

/// What reading a number argument gives, from what `Value::as_u64` gave: the
/// number cut to the machine's word, or the reason why there is none.
pub open spec fn usize_reading(number: Option<u64>) -> Result<usize, Seq<char>> {
    match number {
        Some(n) => Ok(n as usize),
        None => Err("cannot parse usize"@),
    }
}

/// A result that holds a number or a reason, the reason as its characters.
pub open spec fn usize_result(result: Result<usize, String>) -> Result<usize, Seq<char>> {
    match result {
        Ok(n) => Ok(n),
        Err(reason) => Err(reason@),
    }
}

/// Turns what `Value::as_str` gave into an owned string, or says why not.
pub fn string_from_reading(text: Option<&str>) -> (parsed: Result<String, String>)
    ensures
        text_result(parsed) == string_reading(
            match text {
                Some(s) => Some(s@),
                None => None,
            },
        ),
{
    match text {
        Some(s) => Ok(s.to_owned()),
        None => Err("cannot parse error".to_owned()),
    }
}

/// Turns what `Value::as_u64` gave into a `usize`, or says why not.
pub fn usize_from_reading(number: Option<u64>) -> (parsed: Result<usize, String>)
    ensures
        usize_result(parsed) == usize_reading(number),
        number matches Some(n) ==> n <= usize::MAX ==> parsed is Ok && parsed->Ok_0 == n,
{
    match number {
        Some(n) => Ok(#[verifier::truncate] (n as usize)),
        None => Err("cannot parse usize".to_owned()),
    }
}

/// Reads an argument that must be a string of valid UTF-8.
pub fn parse_string(value: &Value) -> (parsed: Result<String, String>)
    ensures
        text_result(parsed) == string_reading(value_as_str(*value)),
{
    string_from_reading(value.as_str())
}

/// Reads an argument that must be an integer that is not negative.
pub fn parse_usize(value: &Value) -> (parsed: Result<usize, String>)
    ensures
        usize_result(parsed) == usize_reading(value_as_u64(*value)),
{
    usize_from_reading(value.as_u64())
}

} // verus!
