//! Strings: prefixes, decimal numbers and UTF-8.

use vstd::prelude::*;
use vstd::utf8::{
    decode_utf8, decode_utf8_encode_utf8, encode_utf8, encode_utf8_valid_utf8, valid_utf8,
};

verus! {

/// The decimal digit `d`, for `d < 10`.
pub open spec fn digit(d: nat) -> char {
    (48 + d) as char
}

/// `n` in decimal, without leading zeros.
pub open spec fn decimal(n: nat) -> Seq<char>
    decreases n,
{
    if n < 10 {
        seq![digit(n)]
    } else {
        decimal(n / 10).push(digit(n % 10))
    }
}

/// Whether `s` begins with `prefix`.
pub fn has_prefix(s: &str, prefix: &str) -> (b: bool)
    ensures
        b == prefix@.is_prefix_of(s@),
{
    let n: usize = prefix.unicode_len();
    if s.unicode_len() < n {
        return false;
    }
    let mut i: usize = 0;
    while i < n
        invariant
            n == prefix@.len(),
            n <= s@.len(),
            i <= n,
            forall|j: int| 0 <= j < i ==> s@[j] == prefix@[j],
        decreases n - i,
    {
        if s.get_char(i) != prefix.get_char(i) {
            assert(s@.subrange(0, n as int)[i as int] != prefix@[i as int]);
            return false;
        }
        i = i + 1;
    }
    assert(prefix@ =~= s@.subrange(0, n as int));
    true
}

/// Whether two strings are the same.
pub fn same(a: &str, b: &str) -> (r: bool)
    ensures
        r == (a@ == b@),
{
    a.to_owned() == b.to_owned()
}

/// Calls `core::str::from_utf8`: the text that `bytes` encode in UTF-8, or
/// `None` where they are not UTF-8.
#[verifier::external_body]
pub(crate) fn from_utf8(bytes: &[u8]) -> (s: Option<&str>)
    ensures
        s is Some <==> valid_utf8(bytes@),
        s is Some ==> s->0@ == decode_utf8(bytes@),
{
    core::str::from_utf8(bytes).ok()
}

/// Whether `bytes` are UTF-8.
pub fn is_utf8(bytes: &[u8]) -> (b: bool)
    ensures
        b == valid_utf8(bytes@),
{
    from_utf8(bytes).is_some()
}

/// A text begins with another exactly where it has the same characters in the same
/// places for as long as the other lasts.
pub proof fn prefix_is_told_by_its_characters(s: &str, prefix: &str, b: bool)
    requires
        call_ensures(has_prefix, (s, prefix), b),
    ensures
        b <==> prefix@.len() <= s@.len() && (forall|i: int|
            0 <= i < prefix@.len() ==> #[trigger] s@[i] == prefix@[i]),
{
    if prefix@.len() <= s@.len() && (forall|i: int|
        0 <= i < prefix@.len() ==> #[trigger] s@[i] == prefix@[i]) {
        assert(prefix@ =~= s@.subrange(0, prefix@.len() as int));
    }
    if b {
        assert forall|i: int| 0 <= i < prefix@.len() implies #[trigger] s@[i] == prefix@[i] by {
            assert(s@.subrange(0, prefix@.len() as int)[i] == s@[i]);
        }
    }
}

/// Two texts are the same exactly where they have the same characters.
pub proof fn same_means_equal(a: &str, b: &str, r: bool)
    requires
        call_ensures(same, (a, b), r),
    ensures
        r <==> a@ == b@,
{
}

/// A number is written digit by digit: below ten by one digit, from `0` on, and
/// otherwise by its tenth part followed by the digit that is left.
pub proof fn numbers_are_written_digit_by_digit(tens: nat, ones: nat)
    requires
        ones < 10,
    ensures
        decimal(ones).len() == 1,
        decimal(ones)[0] as nat == '0' as nat + ones,
        tens > 0 ==> decimal(10 * tens + ones) == decimal(tens) + decimal(ones),
{
    if tens > 0 {
        let n: nat = 10 * tens + ones;
        assert(n / 10 == tens);
        assert(n % 10 == ones);
        assert(decimal(n) =~= decimal(tens) + decimal(ones));
    }
}

/// What a text is in UTF-8 is taken as UTF-8, and what is taken as UTF-8 is some text
/// in UTF-8.
pub proof fn texts_are_told_from_other_bytes(bytes: &[u8], text: Seq<char>, b: bool)
    requires
        call_ensures(is_utf8, (bytes,), b),
    ensures
        bytes@ == encode_utf8(text) ==> b,
        b ==> encode_utf8(decode_utf8(bytes@)) == bytes@,
{
    encode_utf8_valid_utf8(text);
    if b {
        decode_utf8_encode_utf8(bytes@);
    }
}

} // verus!
