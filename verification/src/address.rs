use vstd::prelude::*;

verus! {

use crate::errors::TransferError;

/// The byte length of a chain address.
pub const ADDRESS_BYTES: usize = 20;

/// Whether a byte is an ASCII hexadecimal digit, either case.
pub open spec fn is_hex_digit(b: u8) -> bool {
    (48 <= b && b <= 57) || (97 <= b && b <= 102) || (65 <= b && b <= 70)
}

/// The numeric value of an ASCII hexadecimal digit.
pub open spec fn hex_digit_value(b: u8) -> int {
    if 48 <= b && b <= 57 {
        b - 48
    } else if 97 <= b && b <= 102 {
        b - 97 + 10
    } else {
        b - 65 + 10
    }
}

/// Whether the text starts with the conventional `0x` marker.
pub open spec fn has_hex_marker(s: Seq<u8>) -> bool {
    s.len() >= 2 && s[0] == 48 && s[1] == 120
}

/// The text with any `0x` marker removed.
pub open spec fn hex_body(s: Seq<u8>) -> Seq<u8> {
    if has_hex_marker(s) {
        s.skip(2)
    } else {
        s
    }
}

/// Whether the text is a syntactically valid address: an optional `0x`
/// marker followed by exactly forty hexadecimal digits, either case.
/// Checksum capitalisation is accepted but not enforced.
pub open spec fn valid_address_text(s: Seq<u8>) -> bool {
    let body = hex_body(s);
    body.len() == 40 && (forall|i: int| 0 <= i < body.len() ==> is_hex_digit(#[trigger] body[i]))
}

/// The twenty bytes denoted by forty hexadecimal digits.
pub open spec fn decoded_address_bytes(body: Seq<u8>) -> Seq<u8> {
    Seq::new(20, |i: int| (hex_digit_value(body[2 * i]) * 16 + hex_digit_value(
        body[2 * i + 1],
    )) as u8)
}

/// A syntactically valid recipient address: twenty raw bytes.
#[derive(Clone, Debug)]
pub struct Address {
    pub bytes: Vec<u8>,
}

impl Address {
    /// Well-formedness: exactly twenty bytes.
    pub open spec fn wf(self) -> bool {
        self.bytes@.len() == 20
    }

}

/// The numeric value of one hexadecimal digit byte, or `None` for any other
/// byte.
fn hex_value(b: u8) -> (r: Option<u8>)
    ensures
        r is Some <==> is_hex_digit(b),
        r matches Some(v) ==> v == hex_digit_value(b) && v < 16,
{
    if 48 <= b && b <= 57 {
        Some(b - 48)
    } else if 97 <= b && b <= 102 {
        Some(b - 97 + 10)
    } else if 65 <= b && b <= 70 {
        Some(b - 65 + 10)
    } else {
        None
    }
}

/// Parses the textual form of a chain address: an optional `0x` marker, then
/// forty hexadecimal digits.  Returns the decoded twenty bytes, or
/// `ConfigError` exactly on malformed text.
pub fn parse_address(text: &Vec<u8>) -> (r: Result<Address, TransferError>)
    ensures
        r is Ok <==> valid_address_text(text@),
        r matches Ok(a) ==> a.wf() && a.bytes@ == decoded_address_bytes(hex_body(text@)),
        r matches Err(e) ==> e == TransferError::ConfigError,
{
    let offset: usize = if text.len() >= 2 && text[0] == 48 && text[1] == 120 {
        2
    } else {
        0
    };
    proof {
        assert(hex_body(text@) == text@.skip(offset as int));
    }
    if text.len() - offset != 40 {
        return Err(TransferError::ConfigError);
    }
    let mut bytes: Vec<u8> = Vec::new();
    let mut i: usize = 0;
    while i < 20
        invariant
            0 <= i <= 20,
            offset + 40 == text@.len(),
            offset == 0 || offset == 2,
            hex_body(text@) == text@.skip(offset as int),
            bytes@.len() == i,
            forall|k: int|
                0 <= k < 2 * i ==> is_hex_digit(#[trigger] text@.skip(offset as int)[k]),
            forall|k: int|
                0 <= k < i ==> #[trigger] bytes@[k] == decoded_address_bytes(
                    text@.skip(offset as int),
                )[k],
        decreases 20 - i,
    {
        let hi = match hex_value(text[offset + 2 * i]) {
            Some(v) => v,
            None => {
                proof {
                    assert(text@.skip(offset as int)[2 * i as int] == text@[offset + 2 * i]);
                }
                return Err(TransferError::ConfigError);
            },
        };
        let lo = match hex_value(text[offset + 2 * i + 1]) {
            Some(v) => v,
            None => {
                proof {
                    assert(text@.skip(offset as int)[2 * i as int + 1] == text@[offset + 2 * i
                        + 1]);
                }
                return Err(TransferError::ConfigError);
            },
        };
        bytes.push(hi * 16 + lo);
        i = i + 1;
    }
    let address = Address { bytes };
    proof {
        assert(address.bytes@ =~= decoded_address_bytes(hex_body(text@)));
    }
    Ok(address)
}

} // verus!
