use vstd::prelude::*;
use crate::error::DecodeReason;
use crate::text::chars_of;

verus! {

/// An RGB color, one byte per channel.
#[derive(Debug, Clone, Copy, PartialEq, Eq, Structural)]
pub struct Color {
    pub r: u8,
    pub g: u8,
    pub b: u8,
}

/// Whether `c` is a hexadecimal digit, in either case.
pub open spec fn is_hex_digit(c: char) -> bool {
    ('0' <= c && c <= '9') || ('a' <= c && c <= 'f') || ('A' <= c && c <= 'F')
}

/// The value of the hexadecimal digit `c`.
pub open spec fn hex_digit_value(c: char) -> int {
    if '0' <= c && c <= '9' {
        c as int - '0' as int
    } else if 'a' <= c && c <= 'f' {
        c as int - 'a' as int + 10
    } else {
        c as int - 'A' as int + 10
    }
}

/// The byte written by the two hexadecimal digits at `i` and `i + 1`.
pub open spec fn hex_byte(s: Seq<char>, i: int) -> int {
    16 * hex_digit_value(s[i]) + hex_digit_value(s[i + 1])
}

/// Whether every character of `s` is a hexadecimal digit.
pub open spec fn all_hex(s: Seq<char>) -> bool {
    forall|i: int| 0 <= i < s.len() ==> is_hex_digit(#[trigger] s[i])
}

/// Whether position `p` holds the first character of `s` that is not a hexadecimal digit.
pub open spec fn first_non_hex(s: Seq<char>, p: int) -> bool {
    &&& 0 <= p < s.len()
    &&& !is_hex_digit(s[p])
    &&& forall|i: int| 0 <= i < p ==> is_hex_digit(#[trigger] s[i])
}

/// What decoding `s` as a color gives: its three channels, or why it is refused.
pub open spec fn color_decoding(s: Seq<char>) -> Result<Color, DecodeReason> {
    if s.len() != 6 {
        Err(DecodeReason::InvalidLength { expected: 6, found: s.len() as usize })
    } else if all_hex(s) {
        Ok(Color { r: hex_byte(s, 0) as u8, g: hex_byte(s, 2) as u8, b: hex_byte(s, 4) as u8 })
    } else {
        Err(DecodeReason::InvalidHexDigit { position: (choose|p: int| first_non_hex(s, p)) as usize })
    }
}

proof fn lemma_first_non_hex_unique(s: Seq<char>, p: int, q: int)
    requires
        first_non_hex(s, p),
        first_non_hex(s, q),
    ensures
        p == q,
{
    if p < q {
        assert(is_hex_digit(s[p]));
    } else if q < p {
        assert(is_hex_digit(s[q]));
    }
}

fn hex_digit(c: char) -> (r: Option<u8>)
    ensures
        r is Some <==> is_hex_digit(c),
        r matches Some(v) ==> v as int == hex_digit_value(c) && v < 16,
{
    if '0' <= c && c <= '9' {
        Some((c as u32 - '0' as u32) as u8)
    } else if 'a' <= c && c <= 'f' {
        Some((c as u32 - 'a' as u32 + 10) as u8)
    } else if 'A' <= c && c <= 'F' {
        Some((c as u32 - 'A' as u32 + 10) as u8)
    } else {
        None
    }
}

impl Color {
    /// Decodes a color written as exactly six hexadecimal digits `RRGGBB`.
    pub fn from_hex(s: &str) -> (res: Result<Color, DecodeReason>)
        ensures
            s@.len() != 6 ==> res == Err::<Color, DecodeReason>(
                DecodeReason::InvalidLength { expected: 6, found: s@.len() as usize },
            ),
            s@.len() == 6 && all_hex(s@) ==> res == Ok::<Color, DecodeReason>(
                Color {
                    r: hex_byte(s@, 0) as u8,
                    g: hex_byte(s@, 2) as u8,
                    b: hex_byte(s@, 4) as u8,
                },
            ),
            s@.len() == 6 && !all_hex(s@) ==> exists|p: int|
                first_non_hex(s@, p) && res == Err::<Color, DecodeReason>(
                    DecodeReason::InvalidHexDigit { position: p as usize },
                ),
            res == color_decoding(s@),
    {
        let cs = chars_of(s);
        if cs.len() != 6 {
            return Err(DecodeReason::InvalidLength { expected: 6, found: cs.len() });
        }
        let mut digits: Vec<u8> = Vec::new();
        let mut i: usize = 0;
        while i < 6
            invariant
                cs@ == s@,
                cs@.len() == 6,
                i <= 6,
                digits@.len() == i,
                forall|j: int| 0 <= j < i ==> is_hex_digit(#[trigger] cs@[j]),
                forall|j: int|
                    0 <= j < i ==> #[trigger] digits@[j] as int == hex_digit_value(cs@[j]) && digits@[j] < 16,
            decreases 6 - i,
        {
            match hex_digit(cs[i]) {
                Some(v) => digits.push(v),
                None => {
                    proof {
                        assert(first_non_hex(s@, i as int));
                        let q = choose|p: int| first_non_hex(s@, p);
                        lemma_first_non_hex_unique(s@, i as int, q);
                    }
                    return Err(DecodeReason::InvalidHexDigit { position: i });
                },
            }
            i = i + 1;
        }
        let r = digits[0] * 16 + digits[1];
        let g = digits[2] * 16 + digits[3];
        let b = digits[4] * 16 + digits[5];
        Ok(Color { r, g, b })
    }
}

} // verus!
