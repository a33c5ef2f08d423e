//! Base64 codec for print payloads (standard alphabet, `=` padding).
//!
//! Payloads arrive from the frontend as base64 text; the temp-file manager
//! decodes them before anything is written to scratch storage. Decoding is
//! strict about shape: the input length must be a multiple of four and `=`
//! may appear only as trailing padding. The low bits that padding leaves
//! unused are ignored rather than rejected.

use vstd::prelude::*;

use crate::error::PrintError;

verus! {

/// Byte values of the alphabet boundaries and of the padding character.
pub const UPPER_A: u8 = 65;

pub const UPPER_Z: u8 = 90;

pub const LOWER_A: u8 = 97;

pub const LOWER_Z: u8 = 122;

pub const DIGIT_0: u8 = 48;

pub const DIGIT_9: u8 = 57;

pub const PLUS: u8 = 43;

pub const SLASH: u8 = 47;

pub const PAD: u8 = 61;


/// True for the 64 alphabet bytes: `A`-`Z`, `a`-`z`, `0`-`9`, `+`, `/`.
pub open spec fn is_b64_byte(b: u8) -> bool {
    (UPPER_A <= b && b <= UPPER_Z) || (LOWER_A <= b && b <= LOWER_Z) || (DIGIT_0 <= b && b <= DIGIT_9) || b == PLUS
        || b == SLASH
}

/// The 6-bit value of an alphabet byte (meaningful only when `is_b64_byte(b)`).
pub open spec fn b64_value(b: u8) -> int {
    if UPPER_A <= b && b <= UPPER_Z {
        b - UPPER_A
    } else if LOWER_A <= b && b <= LOWER_Z {
        b - LOWER_A + 26
    } else if DIGIT_0 <= b && b <= DIGIT_9 {
        b - DIGIT_0 + 52
    } else if b == PLUS {
        62
    } else {
        63
    }
}

/// A well-formed base64 text: length a multiple of four, every byte from the
/// alphabet except that the final one or two bytes may be `=` padding (and a
/// padded second-to-last byte forces a padded last byte).
pub open spec fn valid_base64(s: Seq<u8>) -> bool {
    &&& s.len() % 4 == 0
    &&& (forall|i: int| 0 <= i < s.len() - 2 ==> is_b64_byte(#[trigger] s[i]))
    &&& (s.len() >= 2 ==> ((is_b64_byte(s[s.len() - 2]) && (is_b64_byte(s[s.len() - 1]) || s[
        s.len() - 1] == PAD)) || (s[s.len() - 2] == PAD && s[s.len() - 1] == PAD)))
}

/// The bytes one four-character block stands for: three without padding,
/// two under `xxx=`, one under `xx==`.
pub open spec fn decode_block(s: Seq<u8>) -> Seq<u8> {
    let v0 = b64_value(s[0]);
    let v1 = b64_value(s[1]);
    if s[2] == PAD {
        seq![(v0 * 4 + v1 / 16) as u8]
    } else if s[3] == PAD {
        let v2 = b64_value(s[2]);
        seq![(v0 * 4 + v1 / 16) as u8, ((v1 % 16) * 16 + v2 / 4) as u8]
    } else {
        let v2 = b64_value(s[2]);
        let v3 = b64_value(s[3]);
        seq![
            (v0 * 4 + v1 / 16) as u8,
            ((v1 % 16) * 16 + v2 / 4) as u8,
            ((v2 % 4) * 64 + v3) as u8,
        ]
    }
}

/// The bytes a whole base64 text stands for, block by block from the front
/// (meaningful only when `valid_base64(s)`).
pub open spec fn decoded(s: Seq<u8>) -> Seq<u8>
    decreases s.len(),
{
    if s.len() < 4 {
        Seq::empty()
    } else if s.len() == 4 {
        decode_block(s)
    } else {
        decode_block(s.take(4)) + decoded(s.skip(4))
    }
}

/// Decoding splits at any block boundary: the whole text decodes to the
/// decoding of a prefix of full blocks followed by the decoding of the rest.
pub proof fn lemma_decoded_split(s: Seq<u8>, i: int)
    requires
        0 <= i <= s.len(),
        i % 4 == 0,
        s.len() % 4 == 0,
    ensures
        decoded(s) == decoded(s.take(i)) + decoded(s.skip(i)),
    decreases i,
{
    if i == 0 {
        assert(s.take(0) == Seq::<u8>::empty());
        assert(s.skip(0) == s);
        assert(decoded(s.take(0)) + decoded(s.skip(0)) == decoded(s));
    } else {
        if s.len() == 4 {
            assert(i == 4);
            assert(s.take(4) == s);
            assert(s.skip(4) == Seq::<u8>::empty());
            assert(decoded(s.take(4)) + decoded(s.skip(4)) == decoded(s));
        } else {
            lemma_decoded_split(s.skip(4), i - 4);
            assert(s.skip(4).take(i - 4) == s.take(i).skip(4));
            assert(s.skip(4).skip(i - 4) == s.skip(i));
            if i == 4 {
                assert(s.take(4) == s.take(i));
                assert(decoded(s) == decode_block(s.take(4)) + decoded(s.skip(4)));
                assert(s.take(i).len() == 4);
            } else {
                assert(s.take(i).take(4) == s.take(4));
                assert(s.take(i).len() > 4);
                assert(decoded(s.take(i)) == decode_block(s.take(i).take(4)) + decoded(
                    s.take(i).skip(4),
                ));
            }
        }
    }
}

/// Turns one alphabet byte into its 6-bit value; `None` exactly on bytes
/// outside the alphabet.
pub fn decode_digit(b: u8) -> (r: Option<u8>)
    ensures
        r is Some <==> is_b64_byte(b),
        r is Some ==> r->0 == b64_value(b) && r->0 < 64,
{
    if UPPER_A <= b && b <= UPPER_Z {
        Some(b - UPPER_A)
    } else if LOWER_A <= b && b <= LOWER_Z {
        Some(b - LOWER_A + 26)
    } else if DIGIT_0 <= b && b <= DIGIT_9 {
        Some(b - DIGIT_0 + 52)
    } else if b == PLUS {
        Some(62)
    } else if b == SLASH {
        Some(63)
    } else {
        None
    }
}

/// Turns a 6-bit value into its alphabet byte.
pub fn encode_digit(v: u8) -> (r: u8)
    requires
        v < 64,
    ensures
        is_b64_byte(r),
        b64_value(r) == v,
{
    if v < 26 {
        UPPER_A + v
    } else if v < 52 {
        LOWER_A + (v - 26)
    } else if v < 62 {
        DIGIT_0 + (v - 52)
    } else if v == 62 {
        PLUS
    } else {
        SLASH
    }
}

/// Decodes a base64 payload. Succeeds exactly on well-formed inputs and then
/// returns the bytes the text stands for; any malformed input is reported as
/// `DecodeError`.
pub fn decode(s: &Vec<u8>) -> (r: Result<Vec<u8>, PrintError>)
    ensures
        r is Ok <==> valid_base64(s@),
        r is Ok ==> r->Ok_0@ == decoded(s@),
        r is Err ==> r->Err_0 == PrintError::DecodeError,
{
    let len = s.len();
    if len % 4 != 0 {
        return Err(PrintError::DecodeError);
    }
    if len == 0 {
        let out: Vec<u8> = Vec::new();
        return Ok(out);
    }
    let mut out: Vec<u8> = Vec::new();
    let mut i: usize = 0;
    while i + 4 < len
        invariant
            len == s@.len(),
            len % 4 == 0,
            len > 0,
            i % 4 == 0,
            i + 4 <= len,
            forall|j: int| 0 <= j < i ==> is_b64_byte(#[trigger] s@[j]),
            out@ == decoded(s@.take(i as int)),
        decreases len - i,
    {
        let d0 = decode_digit(s[i]);
        let d1 = decode_digit(s[i + 1]);
        let d2 = decode_digit(s[i + 2]);
        let d3 = decode_digit(s[i + 3]);
        match (d0, d1, d2, d3) {
            (Some(v0), Some(v1), Some(v2), Some(v3)) => {
                out.push(v0 * 4 + v1 / 16);
                out.push((v1 % 16) * 16 + v2 / 4);
                out.push((v2 % 4) * 64 + v3);
                proof {
                    let t = s@.take(i + 4);
                    lemma_decoded_split(t, i as int);
                    assert(t.take(i as int) == s@.take(i as int));
                    assert(t.skip(i as int) == s@.subrange(i as int, i + 4));
                    let blk = s@.subrange(i as int, i + 4);
                    assert(blk.len() == 4);
                    assert(blk[0] == s@[i as int] && blk[1] == s@[i + 1] && blk[2] == s@[i + 2]
                        && blk[3] == s@[i + 3]);
                    assert(decoded(blk) == decode_block(blk));
                    assert(out@ == decoded(s@.take(i + 4)));
                }
                i = i + 4;
            },
            _ => {
                proof {
                    // Some byte of a non-final block is outside the alphabet,
                    // so the pointwise condition of `valid_base64` fails.
                    assert(i + 3 < s@.len() - 2);
                }
                return Err(PrintError::DecodeError);
            },
        }
    }
    // The final block: the only place padding may stand.
    let d0 = decode_digit(s[i]);
    let d1 = decode_digit(s[i + 1]);
    let b2 = s[i + 2];
    let b3 = s[i + 3];
    let (v0, v1) = match (d0, d1) {
        (Some(v0), Some(v1)) => (v0, v1),
        _ => {
            proof {
                assert(i < s@.len() - 2 && i + 1 < s@.len() - 2);
            }
            return Err(PrintError::DecodeError);
        },
    };
    if b2 == PAD {
        if b3 != PAD {
            proof {
                assert(s@[s@.len() - 2] == PAD);
                assert(!is_b64_byte(PAD));
            }
            return Err(PrintError::DecodeError);
        }
        out.push(v0 * 4 + v1 / 16);
    } else {
        let v2 = match decode_digit(b2) {
            Some(v2) => v2,
            None => {
                proof {
                    assert(s@[s@.len() - 2] == b2);
                }
                return Err(PrintError::DecodeError);
            },
        };
        if b3 == PAD {
            out.push(v0 * 4 + v1 / 16);
            out.push((v1 % 16) * 16 + v2 / 4);
        } else {
            let v3 = match decode_digit(b3) {
                Some(v3) => v3,
                None => {
                    proof {
                        assert(s@[s@.len() - 1] == b3);
                    }
                    return Err(PrintError::DecodeError);
                },
            };
            out.push(v0 * 4 + v1 / 16);
            out.push((v1 % 16) * 16 + v2 / 4);
            out.push((v2 % 4) * 64 + v3);
        }
    }
    proof {
        lemma_decoded_split(s@, i as int);
        let blk = s@.skip(i as int);
        assert(blk.len() == 4);
        assert(blk[0] == s@[i as int] && blk[1] == s@[i + 1] && blk[2] == s@[i + 2] && blk[3]
            == s@[i + 3]);
        assert(decoded(blk) == decode_block(blk));
        assert(out@ == decoded(s@.take(i as int)) + decode_block(blk));
        assert(valid_base64(s@));
    }
    Ok(out)
}

/// Encodes bytes as base64 text. The result is always well formed, four
/// characters per started group of three bytes, and decodes back to exactly
/// the input.
pub fn encode(data: &Vec<u8>) -> (r: Vec<u8>)
    ensures
        valid_base64(r@),
        decoded(r@) == data@,
        r@.len() == 4 * ((data@.len() + 2) / 3),
{
    let len = data.len();
    let mut out: Vec<u8> = Vec::new();
    let mut i: usize = 0;
    while len - i >= 3
        invariant
            len == data@.len(),
            i % 3 == 0,
            i <= len,
            out@.len() == 4 * (i / 3),
            out@.len() % 4 == 0,
            forall|j: int| 0 <= j < out@.len() ==> is_b64_byte(#[trigger] out@[j]),
            decoded(out@) == data@.take(i as int),
        decreases len - i,
    {
        let d0 = data[i];
        let d1 = data[i + 1];
        let d2 = data[i + 2];
        let c0 = encode_digit(d0 / 4);
        let c1 = encode_digit((d0 % 4) * 16 + d1 / 16);
        let c2 = encode_digit((d1 % 16) * 4 + d2 / 64);
        let c3 = encode_digit(d2 % 64);
        let ghost prev = out@;
        out.push(c0);
        out.push(c1);
        out.push(c2);
        out.push(c3);
        proof {
            let blk = seq![c0, c1, c2, c3];
            assert(out@ == prev + blk);
            lemma_decoded_split(out@, prev.len() as int);
            assert(out@.take(prev.len() as int) == prev);
            assert(out@.skip(prev.len() as int) == blk);
            assert(decoded(blk) == decode_block(blk));
            let v0 = b64_value(c0);
            let v1 = b64_value(c1);
            let v2 = b64_value(c2);
            let v3 = b64_value(c3);
            assert(v0 == d0 / 4 && v1 == (d0 % 4) * 16 + d1 / 16 && v2 == (d1 % 16) * 4 + d2 / 64
                && v3 == d2 % 64);
            assert((d0 / 4) * 4 + ((d0 % 4) * 16 + d1 / 16) / 16 == d0) by (bit_vector);
            assert((((d0 % 4) * 16 + d1 / 16) % 16) * 16 + ((d1 % 16) * 4 + d2 / 64) / 4 == d1)
                by (bit_vector);
            assert((((d1 % 16) * 4 + d2 / 64) % 4) * 64 + d2 % 64 == d2) by (bit_vector);
            assert(decode_block(blk) == seq![d0, d1, d2]);
            assert(data@.take(i + 3) == data@.take(i as int) + seq![d0, d1, d2]);
            assert(decoded(out@) == data@.take(i + 3));
        }
        i = i + 3;
    }
    if len - i == 1 {
        let d0 = data[i];
        let c0 = encode_digit(d0 / 4);
        let c1 = encode_digit((d0 % 4) * 16);
        let ghost prev = out@;
        out.push(c0);
        out.push(c1);
        out.push(PAD);
        out.push(PAD);
        proof {
            let blk = seq![c0, c1, PAD, PAD];
            assert(out@ == prev + blk);
            lemma_decoded_split(out@, prev.len() as int);
            assert(out@.take(prev.len() as int) == prev);
            assert(out@.skip(prev.len() as int) == blk);
            assert(decoded(blk) == decode_block(blk));
            assert(!is_b64_byte(PAD));
            assert((d0 / 4) * 4 + ((d0 % 4) * 16) / 16 == d0) by (bit_vector);
            assert(decode_block(blk) == seq![d0]);
            assert(data@.take(i + 1) == data@.take(i as int) + seq![d0]);
            assert(data@.take(len as int) == data@);
            assert(decoded(out@) == data@);
            assert(valid_base64(out@));
        }
    } else if len - i == 2 {
        let d0 = data[i];
        let d1 = data[i + 1];
        let c0 = encode_digit(d0 / 4);
        let c1 = encode_digit((d0 % 4) * 16 + d1 / 16);
        let c2 = encode_digit((d1 % 16) * 4);
        let ghost prev = out@;
        out.push(c0);
        out.push(c1);
        out.push(c2);
        out.push(PAD);
        proof {
            let blk = seq![c0, c1, c2, PAD];
            assert(out@ == prev + blk);
            lemma_decoded_split(out@, prev.len() as int);
            assert(out@.take(prev.len() as int) == prev);
            assert(out@.skip(prev.len() as int) == blk);
            assert(decoded(blk) == decode_block(blk));
            assert(!is_b64_byte(PAD));
            assert((d0 / 4) * 4 + ((d0 % 4) * 16 + d1 / 16) / 16 == d0) by (bit_vector);
            assert((((d0 % 4) * 16 + d1 / 16) % 16) * 16 + ((d1 % 16) * 4) / 4 == d1)
                by (bit_vector);
            assert(decode_block(blk) == seq![d0, d1]);
            assert(data@.take(i + 2) == data@.take(i as int) + seq![d0, d1]);
            assert(data@.take(len as int) == data@);
            assert(decoded(out@) == data@);
            assert(valid_base64(out@));
        }
    } else {
        proof {
            assert(i == len);
            assert(data@.take(len as int) == data@);
        }
    }
    out
}

} // verus!
