//! Decimal rendering and parsing of the plain unsigned numbers that travel
//! through the environment: exec timestamps in microseconds and descriptor
//! numbers.  Parsing follows the tolerant convention of the invocation
//! surface: a missing or malformed value reads as zero.

use vstd::prelude::*;
use vstd::string::*;

verus! {

/// The character of one decimal digit.
pub open spec fn digit_char(d: int) -> char
    recommends
        0 <= d < 10,
{
    if d == 0 {
        '0'
    } else if d == 1 {
        '1'
    } else if d == 2 {
        '2'
    } else if d == 3 {
        '3'
    } else if d == 4 {
        '4'
    } else if d == 5 {
        '5'
    } else if d == 6 {
        '6'
    } else if d == 7 {
        '7'
    } else if d == 8 {
        '8'
    } else {
        '9'
    }
}

/// The decimal representation of a number, most significant digit first,
/// with no leading zeroes (zero itself is "0").
pub open spec fn dec_rep(n: nat) -> Seq<char>
    decreases n,
{
    if n < 10 {
        seq![digit_char(n as int)]
    } else {
        dec_rep(n / 10).push(digit_char((n % 10) as int))
    }
}

/// The one-character string of one decimal digit.
fn digit_str(d: u64) -> (r: &'static str)
    requires
        d < 10,
    ensures
        r@ == seq![digit_char(d as int)],
{
    proof {
        reveal_strlit("0");
        reveal_strlit("1");
        reveal_strlit("2");
        reveal_strlit("3");
        reveal_strlit("4");
        reveal_strlit("5");
        reveal_strlit("6");
        reveal_strlit("7");
        reveal_strlit("8");
        reveal_strlit("9");
        assert("0"@ =~= seq!['0']);
        assert("1"@ =~= seq!['1']);
        assert("2"@ =~= seq!['2']);
        assert("3"@ =~= seq!['3']);
        assert("4"@ =~= seq!['4']);
        assert("5"@ =~= seq!['5']);
        assert("6"@ =~= seq!['6']);
        assert("7"@ =~= seq!['7']);
        assert("8"@ =~= seq!['8']);
        assert("9"@ =~= seq!['9']);
    }
    match d {
        0 => "0",
        1 => "1",
        2 => "2",
        3 => "3",
        4 => "4",
        5 => "5",
        6 => "6",
        7 => "7",
        8 => "8",
        _ => "9",
    }
}

/// Render a number in decimal, exactly as [`dec_rep`] states it.
pub fn u64_to_dec(n: u64) -> (r: String)
    ensures
        r@ == dec_rep(n as nat),
    decreases n,
{
    if n >= 10 {
        let mut s = u64_to_dec(n / 10);
        s.append(digit_str(n % 10));
        proof {
            assert(s@ =~= dec_rep(n as nat));
        }
        s
    } else {
        String::from_str(digit_str(n))
    }
}

/// The byte of the ASCII plus sign.
pub const PLUS_BYTE: u8 = 43;

/// Whether a byte is an ASCII decimal digit.
pub open spec fn is_digit_byte(b: u8) -> bool {
    48 <= b <= 57
}

/// The numeric value of an ASCII digit byte.
pub open spec fn digit_byte_val(b: u8) -> nat
    recommends
        is_digit_byte(b),
{
    (b - 48) as nat
}

/// Whether every byte of a sequence is an ASCII decimal digit.
pub open spec fn all_digits(s: Seq<u8>) -> bool {
    forall|i: int| 0 <= i < s.len() ==> is_digit_byte(#[trigger] s[i])
}

/// The number written by a sequence of ASCII digit bytes, most significant
/// first.
pub open spec fn digits_val(s: Seq<u8>) -> nat
    decreases s.len(),
{
    if s.len() == 0 {
        0
    } else {
        digits_val(s.drop_last()) * 10 + digit_byte_val(s.last())
    }
}

/// The digits of an unsigned decimal literal: everything after an optional
/// leading plus sign.
pub open spec fn unsigned_body(s: Seq<u8>) -> Seq<u8> {
    if s.len() > 0 && s[0] == PLUS_BYTE {
        s.skip(1)
    } else {
        s
    }
}

/// What a tolerant unsigned parse yields: the written number when the input
/// is a well-formed decimal that fits, and zero otherwise — a missing,
/// malformed or overflowing value reads as zero.
pub open spec fn spec_parse_u64_or_zero(s: Seq<u8>) -> nat {
    let b = unsigned_body(s);
    if b.len() > 0 && all_digits(b) && digits_val(b) <= u64::MAX {
        digits_val(b)
    } else {
        0
    }
}

/// A digit sequence never gets smaller as digits are appended.
proof fn lemma_digits_val_prefix_le(s: Seq<u8>, i: int)
    requires
        0 <= i <= s.len(),
    ensures
        digits_val(s.subrange(0, i)) <= digits_val(s),
    decreases s.len() - i,
{
    if i < s.len() {
        lemma_digits_val_prefix_le(s, i + 1);
        let p = s.subrange(0, i + 1);
        assert(p.drop_last() =~= s.subrange(0, i));
        assert(digits_val(s.subrange(0, i)) * 10 >= digits_val(s.subrange(0, i)));
        assert(digits_val(s.subrange(0, i)) <= digits_val(p));
    } else {
        assert(s.subrange(0, i) =~= s);
    }
}

/// Parse an unsigned decimal, exactly as [`spec_parse_u64_or_zero`] states
/// it: the written number, or zero when the input is missing, malformed, or
/// does not fit.
pub fn parse_u64_dec(s: &str) -> (r: u64)
    ensures
        r as nat == spec_parse_u64_or_zero(s.spec_bytes()),
{
    let bytes: Vec<u8> = s.as_bytes_vec();
    let ghost body = unsigned_body(s.spec_bytes());
    let mut start: usize = 0;
    if bytes.len() > 0 && bytes[0] == PLUS_BYTE {
        start = 1;
    }
    proof {
        assert(body =~= bytes@.subrange(start as int, bytes@.len() as int));
    }
    if bytes.len() == start {
        return 0;
    }
    let mut acc: u64 = 0;
    let mut i: usize = start;
    while i < bytes.len()
        invariant
            start <= i <= bytes@.len(),
            bytes@ == s.spec_bytes(),
            body == unsigned_body(s.spec_bytes()),
            body == bytes@.subrange(start as int, bytes@.len() as int),
            all_digits(body.subrange(0, i - start)),
            acc as nat == digits_val(body.subrange(0, i - start)),
        decreases bytes@.len() - i,
    {
        let b = bytes[i];
        proof {
            assert(body[i - start] == bytes@[i as int]);
        }
        if b < 48 || b > 57 {
            assert(!is_digit_byte(body[i - start]));
            assert(!all_digits(body));
            return 0;
        }
        let d: u64 = (b - 48) as u64;
        let ghost prefix = body.subrange(0, i - start);
        let ghost prefix1 = body.subrange(0, i - start + 1);
        proof {
            assert(prefix1.drop_last() =~= prefix);
        }
        let next = match acc.checked_mul(10) {
            Some(m) => m.checked_add(d),
            None => None,
        };
        match next {
            Some(v) => {
                acc = v;
            },
            None => {
                proof {
                    assert(digits_val(prefix1) > u64::MAX);
                    lemma_digits_val_prefix_le(body, i - start + 1);
                    assert(digits_val(body) > u64::MAX);
                }
                return 0;
            },
        }
        i = i + 1;
    }
    proof {
        assert(body.subrange(0, body.len() as int) =~= body);
    }
    acc
}

} // verus!
