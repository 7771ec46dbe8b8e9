//! Hexadecimal text for byte strings.
//!
//! Payment hashes and preimages travel as lower-case hex. Reading accepts either
//! case.

use vstd::prelude::*;
use vstd::string::*;

verus! {

/// The lower-case hex digit for a value below 16.
pub open spec fn digit_char(n: int) -> char {
    if n < 10 {
        (n + 48) as char
    } else {
        (n + 87) as char
    }
}

/// The value of a hex digit of either case, or `None` for any other character.
pub open spec fn digit_value(c: char) -> Option<int> {
    if 48 <= c as int <= 57 {
        Some(c as int - 48)
    } else if 97 <= c as int <= 102 {
        Some(c as int - 87)
    } else if 65 <= c as int <= 70 {
        Some(c as int - 55)
    } else {
        None
    }
}

/// The hex text of `bytes`: two digits for each byte, the high half first.
pub open spec fn encoded(bytes: Seq<u8>) -> Seq<char> {
    Seq::new(
        2 * bytes.len(),
        |i: int|
            digit_char(
                if i % 2 == 0 {
                    bytes[i / 2] as int / 16
                } else {
                    bytes[i / 2] as int % 16
                },
            ),
    )
}

/// Whether `s` is the hex text of some byte string: an even number of hex digits.
pub open spec fn is_hex(s: Seq<char>) -> bool {
    &&& s.len() % 2 == 0
    &&& forall|i: int| 0 <= i < s.len() ==> digit_value(#[trigger] s[i]) is Some
}

/// The byte string that the hex text `s` stands for.
pub open spec fn decoded(s: Seq<char>) -> Seq<u8> {
    Seq::new(
        s.len() / 2,
        |i: int| (16 * digit_value(s[2 * i])->0 + digit_value(s[2 * i + 1])->0) as u8,
    )
}

/// `String::push` appends the character to the end of the string.
pub assume_specification[ String::push ](s: &mut String, c: char)
    ensures
        final(s)@ == old(s)@.push(c),
;

fn digit(n: u8) -> (c: char)
    requires
        n < 16,
    ensures
        c == digit_char(n as int),
{
    if n < 10 {
        (n + 48) as char
    } else {
        (n + 87) as char
    }
}

fn value(b: u8) -> (v: Option<u8>)
    ensures
        v is Some <==> digit_value(b as char) is Some,
        v matches Some(n) ==> n == digit_value(b as char)->0 && n < 16,
{
    if 48 <= b && b <= 57 {
        Some(b - 48)
    } else if 97 <= b && b <= 102 {
        Some(b - 87)
    } else if 65 <= b && b <= 70 {
        Some(b - 55)
    } else {
        None
    }
}

/// Writes `bytes` as lower-case hex.
pub fn encode(bytes: &Vec<u8>) -> (s: String)
    ensures
        s@ == encoded(bytes@),
{
    let mut s = String::new();
    let mut i: usize = 0;
    while i < bytes.len()
        invariant
            i <= bytes.len(),
            s@ == encoded(bytes@.take(i as int)),
        decreases bytes.len() - i,
    {
        let b: u8 = bytes[i];
        s.push(digit(b / 16));
        s.push(digit(b % 16));
        i = i + 1;
        assert(s@ =~= encoded(bytes@.take(i as int)));
    }
    assert(bytes@.take(i as int) =~= bytes@);
    s
}

/// Reads hex text. Returns the bytes if `s` is an even number of hex digits, and
/// `None` otherwise.
pub fn decode(s: &str) -> (r: Option<Vec<u8>>)
    ensures
        r is Some <==> is_hex(s@),
        r matches Some(bytes) ==> bytes@ == decoded(s@),
{
    if !s.is_ascii() {
        assert(!is_hex(s@)) by {
            let i = choose|i: int| 0 <= i < s@.len() && !('\0' <= #[trigger] s@[i] <= '\u{7f}');
            assert(digit_value(s@[i]) is None);
        }
        return None;
    }
    let text = s.as_bytes();
    let n: usize = text.len();
    proof {
        is_ascii_spec_bytes(s);
    }
    if n % 2 != 0 {
        return None;
    }
    let mut bytes: Vec<u8> = Vec::new();
    let mut i: usize = 0;
    while i < n
        invariant
            n == s@.len(),
            text@.len() == n,
            forall|j: int| 0 <= j < n ==> s@[j] == #[trigger] text@[j] as char,
            n % 2 == 0,
            i % 2 == 0,
            i <= n,
            bytes@.len() == i / 2,
            forall|j: int| 0 <= j < i ==> digit_value(#[trigger] s@[j]) is Some,
            forall|k: int| 0 <= k < i / 2 ==> #[trigger] bytes@[k] == decoded(s@)[k],
        decreases n - i,
    {
        let high = value(text[i]);
        let low = value(text[i + 1]);
        match (high, low) {
            (Some(h), Some(l)) => {
                bytes.push(h * 16 + l);
            },
            _ => {
                assert(digit_value(s@[i as int]) is None || digit_value(s@[i + 1]) is None);
                return None;
            },
        }
        i = i + 2;
    }
    assert(bytes@ =~= decoded(s@));
    Some(bytes)
}

/// Reading what was written gives the bytes back: the text that [`encode`] makes
/// is hex, and it stands for the bytes it was made from.
pub proof fn lemma_decode_encode(bytes: Seq<u8>)
    ensures
        is_hex(encoded(bytes)),
        decoded(encoded(bytes)) == bytes,
{
    let s = encoded(bytes);
    assert forall|i: int| 0 <= i < s.len() implies digit_value(#[trigger] s[i]) is Some by {
        let b = bytes[i / 2] as int;
        assert(0 <= b / 16 < 16 && 0 <= b % 16 < 16);
    }
    assert forall|k: int| 0 <= k < bytes.len() implies decoded(s)[k] == bytes[k] by {
        let b = bytes[k] as int;
        assert(0 <= b / 16 < 16 && 0 <= b % 16 < 16);
        assert((2 * k) % 2 == 0 && (2 * k) / 2 == k);
        assert((2 * k + 1) % 2 == 1 && (2 * k + 1) / 2 == k);
        assert(digit_value(s[2 * k]) == Some(b / 16));
        assert(digit_value(s[2 * k + 1]) == Some(b % 16));
        assert(16 * (b / 16) + b % 16 == b);
    }
    assert(decoded(s) =~= bytes);
}

/// Different byte strings have different hex text.
pub proof fn lemma_encoded_injective(a: Seq<u8>, b: Seq<u8>)
    requires
        encoded(a) == encoded(b),
    ensures
        a == b,
{
    lemma_decode_encode(a);
    lemma_decode_encode(b);
}

} // verus!
