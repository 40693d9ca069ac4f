//! Fields on the way out.
//!
//! Each field is written as one token: an absent field as the empty token, a
//! number in decimal, a flag as `1` or `0`, a value of a closed set as its
//! token.

use crate::enums::WireToken;
use crate::number::decimal;
use crate::number::lemma_decimal_denotes;
use crate::number::lemma_decimal_round_trip;
use crate::number::u8_to_string;
use crate::parser::flag_at;
use crate::parser::number_at;
use crate::parser::value_at;
use crate::text::free_of;
use crate::text::lemma_skip_trailing_cut;
use crate::text::skip_trailing;
use vstd::prelude::*;
use vstd::string::StringExecFns;

verus! {

/// The token of an optional text: the text itself. It reads back as that
/// text unless it is empty, which reads as absent.
pub open spec fn text_token(v: Option<Seq<char>>) -> Seq<char> {
    match v {
        Some(text) => text,
        None => Seq::empty(),
    }
}

/// The token of an optional number.
pub open spec fn number_token(v: Option<u8>) -> Seq<char> {
    match v {
        Some(n) => decimal(n as nat),
        None => Seq::empty(),
    }
}

/// The token of an optional flag.
pub open spec fn flag_token(v: Option<bool>) -> Seq<char> {
    match v {
        Some(flag) => if flag {
            "1"@
        } else {
            "0"@
        },
        None => Seq::empty(),
    }
}

/// The token of an optional value of a closed set.
pub open spec fn value_token<T: WireToken>(v: Option<T>) -> Seq<char> {
    match v {
        Some(value) => value.token(),
        None => Seq::empty(),
    }
}

/// The class of empty tokens, as a predicate.
pub open spec fn empty_token() -> spec_fn(Seq<char>) -> bool {
    |token: Seq<char>| token.len() == 0
}

/// A text that can stand in a field and be read back: not empty, and free
/// of both separators.
pub open spec fn is_field_text(text: Seq<char>) -> bool {
    &&& text.len() > 0
    &&& free_of(text, '|')
    &&& free_of(text, '%')
}

/// An optional text that can be written as a field and read back.
pub open spec fn is_optional_field_text(v: Option<Seq<char>>) -> bool {
    v matches Some(text) ==> is_field_text(text)
}

/// A token that can stand between separators: free of both of them.
pub open spec fn is_token(token: Seq<char>) -> bool {
    &&& free_of(token, '|')
    &&& free_of(token, '%')
}

/// The token of a number is read back as that number, and holds no
/// separator.
pub proof fn lemma_number_token(tokens: Seq<Seq<char>>, index: int, v: Option<u8>)
    requires
        0 <= index < tokens.len(),
        tokens[index] == number_token(v),
    ensures
        number_at(tokens, index) == v,
        is_token(number_token(v)),
{
    if let Some(n) = v {
        lemma_decimal_round_trip(n);
        lemma_decimal_denotes(n as nat);
    }
}

/// The token of a flag is read back as that flag, and holds no separator.
pub proof fn lemma_flag_token(tokens: Seq<Seq<char>>, index: int, v: Option<bool>)
    requires
        0 <= index < tokens.len(),
        tokens[index] == flag_token(v),
    ensures
        flag_at(tokens, index) == v,
        is_token(flag_token(v)),
{
    reveal_strlit("1");
    reveal_strlit("0");
    assert("1"@[0] == '1' && "0"@[0] == '0');
}

/// The token of a value of a closed set is read back as that value, and
/// holds no separator.
pub proof fn lemma_value_token<T: WireToken>(tokens: Seq<Seq<char>>, index: int, v: Option<T>)
    requires
        0 <= index < tokens.len(),
        tokens[index] == value_token(v),
    ensures
        value_at::<T>(tokens, index) == v,
        is_token(value_token(v)),
{
    if let Some(value) = v {
        value.lemma_token_reads_back();
    }
}

/// Writes an optional text.
pub fn write_text(v: &Option<String>) -> (r: String)
    ensures
        r@ == text_token(v.deep_view()),
{
    match v {
        Some(text) => text.clone(),
        None => String::new(),
    }
}

/// Writes an optional number.
pub fn write_u8(v: Option<u8>) -> (r: String)
    ensures
        r@ == number_token(v),
{
    match v {
        Some(n) => u8_to_string(n),
        None => String::new(),
    }
}

/// Writes an optional flag.
pub fn write_bool(v: Option<bool>) -> (r: String)
    ensures
        r@ == flag_token(v),
{
    match v {
        Some(true) => String::from_str("1"),
        Some(false) => String::from_str("0"),
        None => String::new(),
    }
}

/// Writes an optional value of a closed set.
pub fn write_enum<T: WireToken>(v: &Option<T>) -> (r: String)
    ensures
        r@ == value_token(*v),
{
    match v {
        Some(value) => String::from_str(value.as_str()),
        None => String::new(),
    }
}

/// Removes the empty tokens at the end of a list.
pub fn drop_trailing_empty(parts: &mut Vec<String>)
    ensures
        final(parts).deep_view() == skip_trailing(old(parts).deep_view(), empty_token()),
{
    let ghost all = parts.deep_view();
    let mut keep: usize = parts.len();
    while keep > 0 && parts[keep - 1].as_str().is_empty()
        invariant
            keep <= parts.len(),
            parts.deep_view() == all,
            forall|i: int| keep <= i < all.len() ==> empty_token()(#[trigger] all[i]),
        decreases keep,
    {
        keep = keep - 1;
    }
    parts.truncate(keep);
    proof {
        lemma_skip_trailing_cut(all, empty_token(), keep as int);
    }
}

} // verus!
