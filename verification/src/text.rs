//! Text rendering used by error messages: numbers in decimal and in
//! hexadecimal, and the search for a zero byte that would cut a C string
//! short.

use vstd::prelude::*;
use vstd::string::*;
use vstd::utf8::encode_utf8;

verus! {

/// The character that writes the digit `d`, for `0 <= d < 16`.
pub open spec fn digit_char(d: int) -> char {
    "0123456789abcdef"@[d]
}

/// `n` in hexadecimal: lower case, no prefix, no leading zero.
pub open spec fn hex_digits(n: nat) -> Seq<char>
    decreases n,
{
    if n < 16 {
        seq![digit_char(n as int)]
    } else {
        hex_digits(n / 16).push(digit_char((n % 16) as int))
    }
}

/// `n` in decimal, without leading zero.
pub open spec fn decimal_digits(n: nat) -> Seq<char>
    decreases n,
{
    if n < 10 {
        seq![digit_char(n as int)]
    } else {
        decimal_digits(n / 10).push(digit_char((n % 10) as int))
    }
}

/// `p` is the place of the first zero byte of `bytes`.
pub open spec fn is_first_nul(bytes: Seq<u8>, p: int) -> bool {
    &&& 0 <= p < bytes.len()
    &&& bytes[p] == 0
    &&& forall|j: int| 0 <= j < p ==> bytes[j] != 0
}

/// The text can be handed to C as it is: its UTF-8 encoding holds no zero
/// byte.
pub open spec fn c_safe(s: Seq<char>) -> bool {
    forall|j: int| 0 <= j < encode_utf8(s).len() ==> encode_utf8(s)[j] != 0
}

/// The place of the first zero byte in the UTF-8 encoding of `s`, where
/// there is one.
pub open spec fn nul_position(s: Seq<char>) -> int {
    choose|p: int| is_first_nul(encode_utf8(s), p)
}

/// Appends one character to a string, as `String::push` of the standard
/// library does.
#[verifier::external_body]
pub(crate) fn push_char(s: &mut String, c: char)
    ensures
        final(s)@ == old(s)@.push(c),
{
    s.push(c)
}

fn digit(d: usize) -> (c: char)
    requires
        d < 16,
    ensures
        c == digit_char(d as int),
{
    proof {
        reveal_strlit("0123456789abcdef");
    }
    "0123456789abcdef".get_char(d)
}

/// Appends `n` in hexadecimal.
pub fn push_hex(out: &mut String, n: usize)
    ensures
        final(out)@ == old(out)@ + hex_digits(n as nat),
    decreases n,
{
    if n >= 16 {
        push_hex(out, n / 16);
    }
    push_char(out, digit(n % 16));
    assert(out@ =~= old(out)@ + hex_digits(n as nat));
}

/// Appends `n` in decimal.
pub fn push_decimal(out: &mut String, n: usize)
    ensures
        final(out)@ == old(out)@ + decimal_digits(n as nat),
    decreases n,
{
    if n >= 10 {
        push_decimal(out, n / 10);
    }
    push_char(out, digit(n % 10));
    assert(out@ =~= old(out)@ + decimal_digits(n as nat));
}

/// Looks for the first zero byte in the UTF-8 encoding of `s`.
pub fn find_nul(s: &str) -> (r: Option<usize>)
    ensures
        (match r {
            Some(p) => is_first_nul(encode_utf8(s@), p as int) && p == nul_position(s@),
            None => c_safe(s@),
        }),
{
    let bytes = s.as_bytes();
    let n: usize = bytes.len();
    let mut i: usize = 0;
    while i < n
        invariant
            bytes@ == encode_utf8(s@),
            n == bytes@.len(),
            i <= n,
            forall|j: int| 0 <= j < i ==> bytes@[j] != 0,
        decreases n - i,
    {
        if bytes[i] == 0 {
            proof {
                lemma_first_nul_unique(encode_utf8(s@), i as int, nul_position(s@));
            }
            return Some(i);
        }
        i += 1;
    }
    None
}

/// A sequence of bytes has at most one first zero byte.
pub proof fn lemma_first_nul_unique(bytes: Seq<u8>, p: int, q: int)
    requires
        is_first_nul(bytes, p),
    ensures
        is_first_nul(bytes, q) ==> p == q,
        is_first_nul(bytes, choose|r: int| is_first_nul(bytes, r)),
        (choose|r: int| is_first_nul(bytes, r)) == p,
{
    let r = choose|r: int| is_first_nul(bytes, r);
    assert(is_first_nul(bytes, r));
    if r < p {
        assert(bytes[r] != 0);
    }
    if p < r {
        assert(bytes[p] != 0);
    }
    if is_first_nul(bytes, q) {
        if q < p {
            assert(bytes[q] != 0);
        }
        if p < q {
            assert(bytes[p] != 0);
        }
    }
}

} // verus!
