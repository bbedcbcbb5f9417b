//! Whole numbers as decimal text, the way settings are written.
//!
//! A number is an optional sign and then decimal digits, at least one, and
//! nothing else: no blanks, no separators. It is read only where it fits
//! the integer type that is asked for.

use vstd::prelude::*;
use vstd::string::is_ascii_spec_bytes;

verus! {

/// Whether `c` is one of the ten decimal digits.
pub open spec fn is_digit(c: char) -> bool {
    '0' <= c <= '9'
}

/// Whether `s` holds decimal digits and nothing else.
pub open spec fn all_digits(s: Seq<char>) -> bool {
    forall|i: int| 0 <= i < s.len() ==> is_digit(#[trigger] s[i])
}

/// The number that the digits `s` write in base ten.
pub open spec fn decimal(s: Seq<char>) -> nat
    decreases s.len(),
{
    if s.len() == 0 {
        0
    } else {
        (decimal(s.drop_last()) * 10 + (s.last() as int - '0' as int)) as nat
    }
}

/// The number that `s` writes, if `s` is digits, at least one.
pub open spec fn digits_value(s: Seq<char>) -> Option<nat> {
    if s.len() > 0 && all_digits(s) {
        Some(decimal(s))
    } else {
        None
    }
}

/// The number that `s` writes without a minus sign: digits, with `+` in
/// front of them or nothing.
pub open spec fn unsigned_value(s: Seq<char>) -> Option<nat> {
    if s.len() > 0 && s[0] == '+' {
        digits_value(s.skip(1))
    } else {
        digits_value(s)
    }
}

/// The number that `s` writes: digits, with `+`, `-` or nothing in front.
pub open spec fn signed_value(s: Seq<char>) -> Option<int> {
    if s.len() > 0 && s[0] == '-' {
        match digits_value(s.skip(1)) {
            Some(n) => Some(-(n as int)),
            None => None,
        }
    } else {
        match unsigned_value(s) {
            Some(n) => Some(n as int),
            None => None,
        }
    }
}

/// The `u64` that `s` writes, if it writes one.
pub open spec fn u64_value(s: Seq<char>) -> Option<u64> {
    match unsigned_value(s) {
        Some(n) => if n <= u64::MAX {
            Some(n as u64)
        } else {
            None
        },
        None => None,
    }
}

/// The `i64` that `s` writes, if it writes one.
pub open spec fn i64_value(s: Seq<char>) -> Option<i64> {
    match signed_value(s) {
        Some(n) => if i64::MIN <= n <= i64::MAX {
            Some(n as i64)
        } else {
            None
        },
        None => None,
    }
}

/// Digits that continue a number make it no smaller.
proof fn decimal_grows_with_its_digits(s: Seq<char>, k: int)
    requires
        all_digits(s),
        0 <= k <= s.len(),
    ensures
        decimal(s.take(k)) <= decimal(s),
    decreases s.len() - k,
{
    if k == s.len() {
        assert(s.take(k) == s);
    } else {
        decimal_grows_with_its_digits(s, k + 1);
        let longer = s.take(k + 1);
        assert(longer.drop_last() == s.take(k));
    }
}

/// A text with a character beyond ASCII writes no number.
proof fn number_is_ascii(s: Seq<char>)
    requires
        !vstd::utf8::is_ascii_chars(s),
    ensures
        unsigned_value(s) is None,
        signed_value(s) is None,
{
    let i = choose|i: int| 0 <= i < s.len() && !('\0' <= #[trigger] s[i] <= '\u{7f}');
    if i > 0 {
        assert(s.skip(1)[i - 1] == s[i]);
    }
}

/// Reads the digits that follow the first `start` bytes of an ASCII text.
fn read_digits(bytes: &[u8], start: usize, Ghost(chars): Ghost<Seq<char>>) -> (value: Option<u64>)
    requires
        vstd::utf8::is_ascii_chars(chars),
        bytes@ == Seq::new(chars.len(), |i: int| chars[i] as u8),
        start <= chars.len(),
    ensures
        value == match digits_value(chars.skip(start as int)) {
            Some(n) => if n <= u64::MAX {
                Some(n as u64)
            } else {
                None
            },
            None => None,
        },
{
    let ghost body = chars.skip(start as int);
    if start == bytes.len() {
        return None;
    }
    let mut value: u64 = 0;
    let mut i: usize = start;
    while i < bytes.len()
        invariant
            start <= i <= bytes.len(),
            bytes.len() == chars.len(),
            body == chars.skip(start as int),
            vstd::utf8::is_ascii_chars(chars),
            bytes@ == Seq::new(chars.len(), |i: int| chars[i] as u8),
            all_digits(body.take(i - start)),
            value == decimal(body.take(i - start)),
        decreases bytes.len() - i,
    {
        let byte = bytes[i];
        let ghost seen = body.take(i - start);
        let ghost next = body.take(i - start + 1);
        assert(next.drop_last() == seen);
        if byte < 48 || byte > 57 {
            assert(!is_digit(body[i - start]));
            return None;
        }
        let digit: u64 = (byte - 48) as u64;
        let grown = match value.checked_mul(10) {
            Some(tens) => tens.checked_add(digit),
            None => None,
        };
        match grown {
            Some(grown) => {
                value = grown;
            },
            None => {
                proof {
                    if all_digits(body) {
                        decimal_grows_with_its_digits(body, i - start + 1);
                    }
                }
                return None;
            },
        }
        i += 1;
    }
    assert(body.take(i - start) == body);
    Some(value)
}

/// Reads a `u64` from its decimal text.
pub fn parse_u64(text: &str) -> (value: Option<u64>)
    ensures
        value == u64_value(text@),
{
    if !text.is_ascii() {
        proof {
            number_is_ascii(text@);
        }
        return None;
    }
    proof {
        is_ascii_spec_bytes(text);
    }
    let bytes = text.as_bytes();
    let start: usize = if bytes.len() > 0 && bytes[0] == 43 {
        1
    } else {
        0
    };
    assert(text@.skip(0) == text@);
    read_digits(bytes, start, Ghost(text@))
}

/// Reads an `i64` from its decimal text.
pub fn parse_i64(text: &str) -> (value: Option<i64>)
    ensures
        value == i64_value(text@),
{
    if !text.is_ascii() {
        proof {
            number_is_ascii(text@);
        }
        return None;
    }
    proof {
        is_ascii_spec_bytes(text);
    }
    let bytes = text.as_bytes();
    let negative = bytes.len() > 0 && bytes[0] == 45;
    let start: usize = if bytes.len() > 0 && (bytes[0] == 43 || bytes[0] == 45) {
        1
    } else {
        0
    };
    assert(text@.skip(0) == text@);
    match read_digits(bytes, start, Ghost(text@)) {
        None => None,
        Some(size) => {
            if negative {
                if size < 0x8000_0000_0000_0000 {
                    Some(-(size as i64))
                } else if size == 0x8000_0000_0000_0000 {
                    Some(i64::MIN)
                } else {
                    None
                }
            } else if size <= 0x7fff_ffff_ffff_ffff {
                Some(size as i64)
            } else {
                None
            }
        },
    }
}

} // verus!
