//! SHA-256 digests and their hexadecimal form.

use vstd::prelude::*;
use vstd::array::ArrayAdditionalExecFns;
use crate::text::to_chars;

verus! {

/// A SHA-256 digest.
#[derive(Clone, Copy, Debug, PartialEq, Eq)]
pub struct Sha256Hash {
    /// The 32 bytes of the digest.
    pub bytes: [u8; 32],
}

impl View for Sha256Hash {
    type V = Seq<u8>;

    open spec fn view(&self) -> Seq<u8> {
        self.bytes@
    }
}

/// The lower-case hexadecimal digit of a value below 16.
pub open spec fn hex_digit(nibble: int) -> char {
    if nibble == 0 {
        '0'
    } else if nibble == 1 {
        '1'
    } else if nibble == 2 {
        '2'
    } else if nibble == 3 {
        '3'
    } else if nibble == 4 {
        '4'
    } else if nibble == 5 {
        '5'
    } else if nibble == 6 {
        '6'
    } else if nibble == 7 {
        '7'
    } else if nibble == 8 {
        '8'
    } else if nibble == 9 {
        '9'
    } else if nibble == 10 {
        'a'
    } else if nibble == 11 {
        'b'
    } else if nibble == 12 {
        'c'
    } else if nibble == 13 {
        'd'
    } else if nibble == 14 {
        'e'
    } else {
        'f'
    }
}

/// The lower-case hexadecimal form of a byte string: two digits for each byte,
/// the high half of the byte first.
pub open spec fn lower_hex(bytes: Seq<u8>) -> Seq<char> {
    Seq::new(
        2 * bytes.len(),
        |i: int|
            if i % 2 == 0 {
                hex_digit(bytes[i / 2] as int / 16)
            } else {
                hex_digit(bytes[i / 2] as int % 16)
            },
    )
}

/// The value of a hexadecimal digit, in either case, or nothing for any other
/// character.
pub open spec fn hex_value(c: char) -> Option<int> {
    let code = c as int;
    if 48 <= code <= 57 {
        Some(code - 48)
    } else if 97 <= code <= 102 {
        Some(code - 87)
    } else if 65 <= code <= 70 {
        Some(code - 55)
    } else {
        None
    }
}

/// The digest that `text` spells: `text` must be 64 hexadecimal digits, two for
/// each byte, the high half of the byte first.
pub open spec fn from_hex(text: Seq<char>) -> Option<Seq<u8>> {
    if text.len() == 64 && forall|i: int| 0 <= i < 64 ==> hex_value(#[trigger] text[i]) is Some {
        Some(
            Seq::new(
                32,
                |i: int|
                    (16 * hex_value(text[2 * i])->Some_0 + hex_value(text[2 * i + 1])->Some_0) as u8,
            ),
        )
    } else {
        None
    }
}

/// The hexadecimal form of a digest spells that digest.
pub proof fn lemma_hex_round_trip(bytes: Seq<u8>)
    requires
        bytes.len() == 32,
    ensures
        from_hex(lower_hex(bytes)) == Some(bytes),
{
    let text = lower_hex(bytes);
    assert forall|i: int| 0 <= i < 64 implies hex_value(#[trigger] text[i]) is Some by {
        lemma_hex_digit_value(bytes[i / 2] as int / 16);
        lemma_hex_digit_value(bytes[i / 2] as int % 16);
    }
    assert forall|i: int| 0 <= i < 32 implies from_hex(text)->Some_0[i] == bytes[i] by {
        lemma_hex_digit_value(bytes[i] as int / 16);
        lemma_hex_digit_value(bytes[i] as int % 16);
    }
}

/// A hexadecimal digit has the value that it was made from.
pub proof fn lemma_hex_digit_value(nibble: int)
    requires
        0 <= nibble < 16,
    ensures
        hex_value(hex_digit(nibble)) == Some(nibble),
{
}

/// The value of the hexadecimal digit `c`, if it is one.
fn hex_char_value(c: char) -> (r: Option<u8>)
    ensures
        match r {
            Some(value) => hex_value(c) == Some(value as int) && value < 16,
            None => hex_value(c) is None,
        },
{
    let code: u32 = c as u32;
    if 48 <= code && code <= 57 {
        Some((code - 48) as u8)
    } else if 97 <= code && code <= 102 {
        Some((code - 87) as u8)
    } else if 65 <= code && code <= 70 {
        Some((code - 55) as u8)
    } else {
        None
    }
}

/// The lower-case hexadecimal digit of `nibble`.
fn hex_char(nibble: u8) -> (c: char)
    requires
        nibble < 16,
    ensures
        c == hex_digit(nibble as int),
{
    match nibble {
        0 => '0',
        1 => '1',
        2 => '2',
        3 => '3',
        4 => '4',
        5 => '5',
        6 => '6',
        7 => '7',
        8 => '8',
        9 => '9',
        10 => 'a',
        11 => 'b',
        12 => 'c',
        13 => 'd',
        14 => 'e',
        _ => 'f',
    }
}

impl Sha256Hash {
    /// Whether two digests are the same.
    pub fn same(&self, other: &Sha256Hash) -> (r: bool)
        ensures
            r == (self@ == other@),
    {
        let mut i: usize = 0;
        while i < 32
            invariant
                i <= 32,
                forall|j: int| 0 <= j < i ==> self.bytes@[j] == other.bytes@[j],
            decreases 32 - i,
        {
            if self.bytes[i] != other.bytes[i] {
                return false;
            }
            i += 1;
        }
        assert(self.bytes@ =~= other.bytes@);
        true
    }

    /// Reads a digest from its hexadecimal form: 64 digits, in either case.
    /// Any other text spells no digest.
    pub fn from_hex(text: &str) -> (r: Option<Sha256Hash>)
        ensures
            match r {
                Some(hash) => from_hex(text@) == Some(hash@),
                None => from_hex(text@) is None,
            },
    {
        let chars = to_chars(text);
        if chars.len() != 64 {
            return None;
        }
        let mut bytes: [u8; 32] = [0u8; 32];
        let mut i: usize = 0;
        while i < 32
            invariant
                i <= 32,
                chars@ == text@,
                chars.len() == 64,
                forall|k: int| 0 <= k < 2 * i ==> hex_value(#[trigger] chars@[k]) is Some,
                forall|k: int|
                    0 <= k < i ==> (#[trigger] bytes@[k]) == 16 * hex_value(chars@[2 * k])->Some_0 + hex_value(
                        chars@[2 * k + 1],
                    )->Some_0,
            decreases 32 - i,
        {
            let high = match hex_char_value(chars[2 * i]) {
                Some(value) => value,
                None => {
                    return None;
                },
            };
            let low = match hex_char_value(chars[2 * i + 1]) {
                Some(value) => value,
                None => {
                    return None;
                },
            };
            bytes.set(i, 16 * high + low);
            i += 1;
        }
        Some(Sha256Hash { bytes })
    }

    /// The digest as 64 lower-case hexadecimal digits.
    pub fn to_hex(&self) -> (text: String)
        ensures
            text@ == lower_hex(self@),
    {
        let mut text = String::new();
        let mut i: usize = 0;
        while i < 32
            invariant
                i <= 32,
                text@ == lower_hex(self@).take(2 * i),
            decreases 32 - i,
        {
            let byte: u8 = self.bytes[i];
            text.push(hex_char(byte / 16));
            text.push(hex_char(byte % 16));
            i += 1;
        }
        text
    }
}

} // verus!
