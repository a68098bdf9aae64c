//! Fresh identifiers.

use vstd::prelude::*;
use vstd::string::*;

verus! {

/// A lower-case hexadecimal digit.
pub open spec fn hex_digit(c: char) -> bool {
    '0' <= c <= '9' || 'a' <= c <= 'f'
}

/// The text of a UUID of version 7: hexadecimal digits in five groups.
pub open spec fn uuid_text(s: Seq<char>) -> bool {
    &&& s.len() == 36
    &&& s[8] == '-' && s[13] == '-' && s[18] == '-' && s[23] == '-'
    &&& s[14] == '7'
    &&& forall|i: int| 0 <= i < 36 && i != 8 && i != 13 && i != 18 && i != 23 ==> hex_digit(#[trigger] s[i])
}

/// `uuid::Uuid::now_v7`, printed. What comes depends on the clock and on chance; its form does not.
#[verifier::external_body]
pub(crate) fn fresh_uuid() -> (r: String)
    ensures
        uuid_text(r@),
{
    uuid::Uuid::now_v7().to_string()
}

/// The hexadecimal digit for a number below sixteen.
pub open spec fn hex_char(n: nat) -> char {
    if n < 10 {
        ('0' as u32 + n) as char
    } else {
        ('a' as u32 + n - 10) as char
    }
}

/// The last `len` hexadecimal digits of `n`.
pub open spec fn hex_digits(n: nat, len: nat) -> Seq<char>
    decreases len,
{
    if len == 0 {
        Seq::empty()
    } else {
        hex_digits(n / 16, (len - 1) as nat).push(hex_char(n % 16))
    }
}

/// The 32 hexadecimal digits of a UUID, in groups of 8, 4, 4, 4 and 12.
pub open spec fn hyphenated(n: u128) -> Seq<char> {
    let digits = hex_digits(n as nat, 32);
    digits.subrange(0, 8) + "-"@ + digits.subrange(8, 12) + "-"@ + digits.subrange(12, 16) + "-"@ + digits.subrange(16, 20)
        + "-"@ + digits.subrange(20, 32)
}

/// `uuid::Uuid::from_u128`, printed: its digits in groups.
#[verifier::external_body]
pub(crate) fn uuid_string(n: u128) -> (r: String)
    ensures
        r@ == hyphenated(n),
{
    uuid::Uuid::from_u128(n).to_string()
}

} // verus!
