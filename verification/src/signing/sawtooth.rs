//! What a Sawtooth secp256k1 signer does with the answers of its signing
//! context: it keeps the public key that the context derives, and turns the
//! hex-encoded signature that the context produces into bytes.

use vstd::prelude::*;
use vstd::string::StringSliceAdditionalSpecFns;
use vstd::utf8::encode_utf8;

use crate::signing::Error;

verus! {

/// Why a text is not a hex encoding of bytes.
#[derive(PartialEq, Eq, Structural, Clone, Copy, Debug)]
pub enum HexDecodeError {
    /// The byte at `index` is not a hex digit; `c` is that byte read as a char.
    InvalidHexCharacter { c: char, index: usize },
    /// The text has an odd number of bytes.
    OddLength,
    /// The text does not fit the buffer it is decoded into.
    InvalidStringLength,
}

/// The value of the hex digit `b` (`0`-`9`, `a`-`f`, `A`-`F`).
pub open spec fn hex_value(b: u8) -> Option<u8> {
    if 0x30 <= b <= 0x39 {
        Some((b - 0x30) as u8)
    } else if 0x61 <= b <= 0x66 {
        Some((b - 0x61 + 10) as u8)
    } else if 0x41 <= b <= 0x46 {
        Some((b - 0x41 + 10) as u8)
    } else {
        None
    }
}

/// Byte `k` of `bytes` is the first that is not a hex digit.
pub open spec fn is_first_non_hex(bytes: Seq<u8>, k: int) -> bool {
    &&& 0 <= k < bytes.len()
    &&& hex_value(bytes[k]) is None
    &&& forall|j: int| 0 <= j < k ==> hex_value(#[trigger] bytes[j]) is Some
}

/// The bytes that the hex text `bytes` encodes, two digits to a byte with the
/// high digit first; or why it encodes none.
pub open spec fn hex_decode_spec(bytes: Seq<u8>) -> Result<Seq<u8>, HexDecodeError> {
    if bytes.len() % 2 != 0 {
        Err(HexDecodeError::OddLength)
    } else if exists|k: int| is_first_non_hex(bytes, k) {
        let k = choose|k: int| is_first_non_hex(bytes, k);
        Err(HexDecodeError::InvalidHexCharacter { c: bytes[k] as char, index: k as usize })
    } else {
        Ok(
            Seq::new(
                (bytes.len() / 2) as nat,
                |i: int|
                    (hex_value(bytes[2 * i])->0 * 16 + hex_value(bytes[2 * i + 1])->0) as u8,
            ),
        )
    }
}

/// The text with which `hex` describes a decoding error.
pub uninterp spec fn hex_error_text(e: HexDecodeError) -> Seq<char>;

/// `hex::decode`: decodes the hex text `text`. Its source tests the length
/// first (odd: `OddLength`), then reads the bytes two by two from the front,
/// high digit first, and stops at the first byte that is not a hex digit
/// (`InvalidHexCharacter` with that byte as a char and its position); the
/// contract claims exactly that.
#[verifier::external_body]
fn hex_decode(text: &str) -> (res: Result<Vec<u8>, HexDecodeError>)
    ensures
        hex_decode_spec(text.spec_bytes()) == (match res {
            Ok(v) => Ok::<Seq<u8>, HexDecodeError>(v@),
            Err(e) => Err(e),
        }),
{
    match hex::decode(text) {
        Ok(v) => Ok(v),
        Err(hex::FromHexError::InvalidHexCharacter { c, index }) => Err(
            HexDecodeError::InvalidHexCharacter { c, index },
        ),
        Err(hex::FromHexError::OddLength) => Err(HexDecodeError::OddLength),
        Err(hex::FromHexError::InvalidStringLength) => Err(HexDecodeError::InvalidStringLength),
    }
}

/// The `Display` text of `hex::FromHexError`: the contract names it, and states
/// the two texts that hold no value ("Odd number of digits", "Invalid string
/// length"); the text for an invalid character is left to the name.
#[verifier::external_body]
fn describe_hex_error(e: HexDecodeError) -> (text: String)
    ensures
        text@ == hex_error_text(e),
        e == HexDecodeError::OddLength ==> text@ == "Odd number of digits"@,
        e == HexDecodeError::InvalidStringLength ==> text@ == "Invalid string length"@,
{
    let err = match e {
        HexDecodeError::InvalidHexCharacter { c, index } => hex::FromHexError::InvalidHexCharacter {
            c,
            index,
        },
        HexDecodeError::OddLength => hex::FromHexError::OddLength,
        HexDecodeError::InvalidStringLength => hex::FromHexError::InvalidStringLength,
    };
    format!("{}", err)
}

/// The public key that the signer keeps, from what the context's
/// `get_public_key` gave: the key's bytes, or the text of its error.
pub fn public_key_from_context(derived: Result<Vec<u8>, String>) -> (res: Result<Vec<u8>, Error>)
    ensures
        derived matches Ok(key) ==> (res matches Ok(k) && k@ == key@),
        derived matches Err(why) ==> (res matches Err(Error::SigningError(msg)) && msg@
            == "Unable to extract public key: "@ + why@),
{
    match derived {
        Ok(key) => Ok(key),
        Err(why) => {
            let mut msg: String = "Unable to extract public key: ".to_owned();
            msg.append(why.as_str());
            Err(Error::SigningError(msg))
        },
    }
}

/// The signature's bytes, from what the context's `sign` gave: the hex text of
/// the signature, or the text of its error.
pub fn signature_from_context(signed: Result<String, String>) -> (res: Result<Vec<u8>, Error>)
    ensures
        signed matches Err(why) ==> (res matches Err(Error::SigningError(msg)) && msg@
            == "Failed to sign message: "@ + why@),
        signed matches Ok(sig) ==> match hex_decode_spec(encode_utf8(sig@)) {
            Ok(bytes) => res matches Ok(b) && b@ == bytes,
            Err(e) => res matches Err(Error::SigningError(msg)) && msg@
                == "Unable to parse sawtooth signature "@ + sig@ + " into bytes: "@
                + hex_error_text(e),
        },
{
    match signed {
        Err(why) => {
            let mut msg: String = "Failed to sign message: ".to_owned();
            msg.append(why.as_str());
            Err(Error::SigningError(msg))
        },
        Ok(sig) => match hex_decode(sig.as_str()) {
            Ok(bytes) => Ok(bytes),
            Err(e) => {
                let mut msg: String = "Unable to parse sawtooth signature ".to_owned();
                msg.append(sig.as_str());
                msg.append(" into bytes: ");
                let why = describe_hex_error(e);
                msg.append(why.as_str());
                Err(Error::SigningError(msg))
            },
        },
    }
}

} // verus!
