//! Fields by position.
//!
//! A zone of a line is a list of tokens, and a field is the token at a fixed
//! index. An empty token says the same as a missing one: the field is absent.
//! An optional field whose token cannot be read is absent too; only a
//! required field fails when it is absent.

use crate::enums::WireToken;
use crate::error::ParseError;
use crate::error::ParseErrorView;
use crate::number::parse_u8;
use crate::number::parsed_u8;
use crate::text::str_eq;
use vstd::prelude::*;
use vstd::string::StringExecFns;

verus! {

/// The token at `index`, if there is one and it is not empty.
pub open spec fn field_at(tokens: Seq<Seq<char>>, index: int) -> Option<Seq<char>> {
    if 0 <= index < tokens.len() && tokens[index].len() > 0 {
        Some(tokens[index])
    } else {
        None
    }
}

/// The number in the field at `index`, if the field holds one.
pub open spec fn number_at(tokens: Seq<Seq<char>>, index: int) -> Option<u8> {
    match field_at(tokens, index) {
        Some(token) => parsed_u8(token),
        None => None,
    }
}

/// The flag in the field at `index`: set if the field reads `1`, cleared if
/// it reads anything else.
pub open spec fn flag_at(tokens: Seq<Seq<char>>, index: int) -> Option<bool> {
    match field_at(tokens, index) {
        Some(token) => Some(token == "1"@),
        None => None,
    }
}

/// The value in the field at `index`, if the field holds a token of the set.
pub open spec fn value_at<T: WireToken>(tokens: Seq<Seq<char>>, index: int) -> Option<T> {
    match field_at(tokens, index) {
        Some(token) => T::from_token(token),
        None => None,
    }
}

/// Gets the field at `index`: `None` if it is missing or empty.
pub fn get_field<'a>(fields: &'a [&str], index: usize) -> (r: Option<&'a str>)
    ensures
        r.deep_view() == field_at(fields.deep_view(), index as int),
{
    if index < fields.len() {
        let token = fields[index];
        if token.is_empty() {
            None
        } else {
            Some(token)
        }
    } else {
        None
    }
}

/// Gets a field that must be there: if it is missing or empty, the error
/// names it.
pub fn get_required_field<'a>(fields: &'a [&str], index: usize, name: &'static str) -> (r: Result<
    &'a str,
    ParseError,
>)
    ensures
        match field_at(fields.deep_view(), index as int) {
            Some(token) => r is Ok && r->Ok_0@ == token,
            None => r is Err && r->Err_0@ == ParseErrorView::MissingField(name@),
        },
{
    match get_field(fields, index) {
        Some(token) => Ok(token),
        None => Err(ParseError::MissingField(name)),
    }
}

/// Gets a copy of the field at `index`: `None` if it is missing or empty.
pub fn get_owned_field(fields: &[&str], index: usize) -> (r: Option<String>)
    ensures
        r.deep_view() == field_at(fields.deep_view(), index as int),
{
    match get_field(fields, index) {
        Some(token) => Some(String::from_str(token)),
        None => None,
    }
}

/// Reads an optional number: `None` if the field is absent or holds no
/// number in the range of `u8`.
pub fn parse_optional_u8(fields: &[&str], index: usize) -> (r: Option<u8>)
    ensures
        r == number_at(fields.deep_view(), index as int),
{
    match get_field(fields, index) {
        Some(token) => parse_u8(token),
        None => None,
    }
}

/// Reads an optional flag: `1` is true, any other text false, and an absent
/// field `None`.
pub fn parse_optional_bool(fields: &[&str], index: usize) -> (r: Option<bool>)
    ensures
        r == flag_at(fields.deep_view(), index as int),
{
    match get_field(fields, index) {
        Some(token) => Some(str_eq(token, "1")),
        None => None,
    }
}

/// Reads an optional value of a closed set: `None` if the field is absent or
/// holds no token of the set.
pub fn parse_optional_enum<T: WireToken>(fields: &[&str], index: usize) -> (r: Option<T>)
    ensures
        r == value_at::<T>(fields.deep_view(), index as int),
{
    match get_field(fields, index) {
        Some(token) => T::decode(token),
        None => None,
    }
}

} // verus!
