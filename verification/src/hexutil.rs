//! Hex decoding for configured token contract addresses.

use vstd::prelude::*;
use crate::strutil::strip_0x_prefix;

verus! {

/// Why a hex string was rejected.
#[derive(Clone, Copy, Debug, PartialEq, Eq, Structural)]
pub enum HexError {
    /// Odd length, or a character that is no hex digit.
    InvalidHex,
    /// Decoded cleanly, but not to exactly 20 bytes.
    WrongLength,
}

/// The value of one hex digit, upper or lower case, or `None` for any other
/// character.
pub open spec fn hex_digit_value(c: char) -> Option<u8> {
    let v = c as u32;
    if 48 <= v <= 57 {
        Some((v - 48) as u8)
    } else if 97 <= v <= 102 {
        Some((v - 87) as u8)
    } else if 65 <= v <= 70 {
        Some((v - 55) as u8)
    } else {
        None
    }
}

/// True when `s` is a well-formed hex string: even length, hex digits only.
pub open spec fn spec_hex_ok(s: Seq<char>) -> bool {
    s.len() % 2 == 0 && (forall|i: int| 0 <= i < s.len() ==> #[trigger] hex_digit_value(s[i]) is Some)
}

/// The bytes a well-formed hex string denotes: each digit pair one byte,
/// high digit first.
pub open spec fn spec_hex_bytes(s: Seq<char>) -> Seq<u8> {
    Seq::new(
        (s.len() / 2) as nat,
        |i: int|
            (16 * hex_digit_value(s[2 * i]).unwrap() + hex_digit_value(
                s[2 * i + 1],
            ).unwrap()) as u8,
    )
}

/// The value of one hex digit character, or `None` when it is no hex digit.
pub fn hex_digit(c: char) -> (r: Option<u8>)
    ensures
        r == hex_digit_value(c),
{
    let v = c as u32;
    if 48 <= v && v <= 57 {
        Some((v - 48) as u8)
    } else if 97 <= v && v <= 102 {
        Some((v - 87) as u8)
    } else if 65 <= v && v <= 70 {
        Some((v - 55) as u8)
    } else {
        None
    }
}

/// Decodes a hex string to its bytes: `Some` exactly on well-formed input.
pub fn decode_hex(s: &str) -> (r: Option<Vec<u8>>)
    ensures
        match r {
            Some(v) => spec_hex_ok(s@) && v@ == spec_hex_bytes(s@),
            None => !spec_hex_ok(s@),
        },
{
    let n = s.unicode_len();
    if n % 2 != 0 {
        return None;
    }
    let mut out: Vec<u8> = Vec::new();
    let mut i: usize = 0;
    while i < n
        invariant
            n == s@.len(),
            n % 2 == 0,
            i % 2 == 0,
            i <= n,
            out@.len() == i / 2,
            forall|j: int| 0 <= j < i ==> #[trigger] hex_digit_value(s@[j]) is Some,
            forall|k: int|
                0 <= k < i / 2 ==> out@[k] == (16 * hex_digit_value(s@[2 * k]).unwrap()
                    + hex_digit_value(s@[2 * k + 1]).unwrap()) as u8,
        decreases n - i,
    {
        let hi = match hex_digit(s.get_char(i)) {
            Some(d) => d,
            None => {
                return None;
            },
        };
        let lo = match hex_digit(s.get_char(i + 1)) {
            Some(d) => d,
            None => {
                return None;
            },
        };
        out.push(16 * hi + lo);
        i += 2;
    }
    proof {
        assert(out@ =~= spec_hex_bytes(s@));
    }
    Some(out)
}

/// What [`convert_hex_to_bytes`] yields: the 20 bytes a hex token address
/// denotes, with an optional `0x` prefix; which error otherwise.
pub open spec fn spec_hex_to_address(s: Seq<char>) -> Result<Seq<u8>, HexError> {
    let stripped = if s.len() >= 2 && s[0] == '0' && s[1] == 'x' {
        s.skip(2)
    } else {
        s
    };
    if !spec_hex_ok(stripped) {
        Err(HexError::InvalidHex)
    } else if spec_hex_bytes(stripped).len() != 20 {
        Err(HexError::WrongLength)
    } else {
        Ok(spec_hex_bytes(stripped))
    }
}

/// Decodes a configured token address, given with or without a `0x` prefix,
/// to its 20 bytes.
pub fn convert_hex_to_bytes(hex_string: &str) -> (r: Result<[u8; 20], HexError>)
    ensures
        match r {
            Ok(bytes) => spec_hex_to_address(hex_string@) == Ok::<Seq<u8>, HexError>(bytes@),
            Err(e) => spec_hex_to_address(hex_string@) == Err::<Seq<u8>, HexError>(e),
        },
{
    let stripped = strip_0x_prefix(hex_string);
    let vec = match decode_hex(stripped) {
        Some(v) => v,
        None => {
            return Err(HexError::InvalidHex);
        },
    };
    if vec.len() != 20 {
        return Err(HexError::WrongLength);
    }
    let mut array = [0u8; 20];
    let mut i: usize = 0;
    while i < 20
        invariant
            vec@.len() == 20,
            i <= 20,
            forall|j: int| 0 <= j < i ==> array@[j] == vec@[j],
        decreases 20 - i,
    {
        array[i] = vec[i];
        i += 1;
    }
    proof {
        assert(array@ =~= vec@);
    }
    Ok(array)
}

} // verus!
