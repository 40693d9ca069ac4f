//! Decimal text for the small unsigned numbers of the protocol.
//!
//! A number is written without sign or padding. It is read more liberally:
//! one plus sign may come first, and zeros may pad the digits on the left.
//! Nothing else is a number: no whitespace, no minus sign, no value above
//! 255.

use vstd::prelude::*;
use vstd::string::StrSliceExecFns;
use vstd::string::StringExecFns;

verus! {

/// Whether `c` is one of the ten decimal digits.
pub open spec fn is_digit(c: char) -> bool {
    '0' <= c <= '9'
}

/// The value of a decimal digit.
pub open spec fn digit_value(c: char) -> nat
    recommends
        is_digit(c),
{
    (c as int - '0' as int) as nat
}

/// The decimal digit of a value below ten.
pub open spec fn digit_char(d: nat) -> char
    recommends
        d < 10,
{
    (d + '0' as nat) as char
}

/// Whether `s` holds decimal digits only.
pub open spec fn all_digits(s: Seq<char>) -> bool {
    forall|i: int| 0 <= i < s.len() ==> is_digit(#[trigger] s[i])
}

/// The number that a sequence of digits denotes in base ten.
pub open spec fn digits_value(s: Seq<char>) -> nat
    decreases s.len(),
{
    if s.len() == 0 {
        0
    } else {
        digits_value(s.drop_last()) * 10 + digit_value(s.last())
    }
}

/// `s` without one leading plus sign.
pub open spec fn unsigned_part(s: Seq<char>) -> Seq<char> {
    if s.len() > 0 && s[0] == '+' {
        s.drop_first()
    } else {
        s
    }
}

/// The number that `s` denotes, if it denotes one that fits in eight bits.
pub open spec fn parsed_u8(s: Seq<char>) -> Option<u8> {
    let digits = unsigned_part(s);
    if digits.len() > 0 && all_digits(digits) && digits_value(digits) <= u8::MAX {
        Some(digits_value(digits) as u8)
    } else {
        None
    }
}

/// The decimal text of `n`, without padding.
pub open spec fn decimal(n: nat) -> Seq<char>
    decreases n,
{
    if n < 10 {
        seq![digit_char(n)]
    } else {
        decimal(n / 10).push(digit_char(n % 10))
    }
}

/// More digits never denote a smaller number.
pub proof fn lemma_digits_value_grows(s: Seq<char>, k: int)
    requires
        0 <= k <= s.len(),
    ensures
        digits_value(s.subrange(0, k)) <= digits_value(s),
    decreases s.len() - k,
{
    if k == s.len() {
        assert(s.subrange(0, k) =~= s);
    } else {
        lemma_digits_value_grows(s.drop_last(), k);
        assert(s.drop_last().subrange(0, k) =~= s.subrange(0, k));
    }
}

/// The decimal text of a number is made of digits and denotes that number.
pub proof fn lemma_decimal_denotes(n: nat)
    ensures
        decimal(n).len() > 0,
        all_digits(decimal(n)),
        digits_value(decimal(n)) == n,
    decreases n,
{
    if n < 10 {
        let s = decimal(n);
        assert(digits_value(s.drop_last()) == 0);
    } else {
        lemma_decimal_denotes(n / 10);
        let s = decimal(n);
        assert(s.drop_last() =~= decimal(n / 10));
    }
}

/// Reading the decimal text of a number gives the number back.
pub proof fn lemma_decimal_round_trip(v: u8)
    ensures
        parsed_u8(decimal(v as nat)) == Some(v),
{
    lemma_decimal_denotes(v as nat);
}

/// Reads a number in the range of `u8`.
pub fn parse_u8(s: &str) -> (r: Option<u8>)
    ensures
        r == parsed_u8(s@),
{
    let n = s.unicode_len();
    let mut sign: usize = 0;
    let mut acc: u32 = 0;
    let mut i: usize = 0;
    for c in it: s.chars()
        invariant
            it.seq() == s@,
            n == s@.len(),
            i == it.index(),
            sign <= 1,
            i == 0 ==> sign == 0,
            i > 0 ==> sign == if s@[0] == '+' {
                1usize
            } else {
                0usize
            },
            all_digits(s@.subrange(sign as int, i as int)),
            acc == digits_value(s@.subrange(sign as int, i as int)),
            acc <= u8::MAX,
    {
        let ghost seen = s@.subrange(sign as int, i as int);
        if i == 0 && c == '+' {
            sign = 1;
            assert(s@.subrange(1, 1) =~= Seq::<char>::empty());
        } else if c >= '0' && c <= '9' {
            let d: u32 = c as u32 - '0' as u32;
            acc = acc * 10 + d;
            proof {
                let upto = s@.subrange(sign as int, i + 1);
                assert(upto.drop_last() =~= seen);
                assert(upto.last() == c);
                assert(acc == digits_value(upto));
                if acc > u8::MAX {
                    let digits = unsigned_part(s@);
                    lemma_digits_value_grows(digits, i + 1 - sign);
                    assert(digits.subrange(0, i + 1 - sign) =~= upto);
                }
            }
            if acc > 255 {
                return None;
            }
        } else {
            assert(unsigned_part(s@)[i - sign] == c);
            return None;
        }
        i = i + 1;
    }
    assert(unsigned_part(s@) =~= s@.subrange(sign as int, n as int));
    if n == sign {
        None
    } else {
        Some(acc as u8)
    }
}

/// The text of one decimal digit.
fn digit_str(d: u8) -> (r: &'static str)
    requires
        d < 10,
    ensures
        r@ == seq![digit_char(d as nat)],
{
    proof {
        reveal_strlit("0");
        reveal_strlit("1");
        reveal_strlit("2");
        reveal_strlit("3");
        reveal_strlit("4");
        reveal_strlit("5");
        reveal_strlit("6");
        reveal_strlit("7");
        reveal_strlit("8");
        reveal_strlit("9");
    }
    let r = match d {
        0 => "0",
        1 => "1",
        2 => "2",
        3 => "3",
        4 => "4",
        5 => "5",
        6 => "6",
        7 => "7",
        8 => "8",
        _ => "9",
    };
    r
}

/// Writes a number in decimal.
pub fn u8_to_string(v: u8) -> (r: String)
    ensures
        r@ == decimal(v as nat),
{
    let mut out = String::new();
    if v >= 100 {
        out.append(digit_str(v / 100));
    }
    if v >= 10 {
        out.append(digit_str((v / 10) % 10));
    }
    out.append(digit_str(v % 10));
    proof {
        let n = v as nat;
        assert(out@ =~= decimal(n)) by {
            reveal_with_fuel(decimal, 3);
        }
    }
    out
}

} // verus!
