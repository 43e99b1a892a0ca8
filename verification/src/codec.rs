//! The 4-byte little-endian device words.
//!
//! Every hardware channel carries one signed 32-bit value per transfer,
//! as four little-endian bytes: motor power commands go out, encoder tick
//! counts and raw distance readings come in.  The codec is explicit so
//! that nothing depends on in-memory layout reinterpretation.

use vstd::prelude::*;

verus! {

/// The unsigned 32-bit word the four little-endian bytes spell.
pub open spec fn le_word(b: Seq<u8>) -> u32
    recommends
        b.len() == 4,
{
    (b[0] as u32) | ((b[1] as u32) << 8) | ((b[2] as u32) << 16) | ((b[3] as u32) << 24)
}

/// The signed value a 4-byte little-endian device word carries.
pub open spec fn spec_decode_value(b: Seq<u8>) -> i32
    recommends
        b.len() == 4,
{
    le_word(b) as i32
}

/// The 4-byte little-endian word a signed value is sent as.
pub open spec fn spec_encode_value(value: i32) -> Seq<u8> {
    let u = value as u32;
    seq![
        (u & 0xff) as u8,
        ((u >> 8) & 0xff) as u8,
        ((u >> 16) & 0xff) as u8,
        ((u >> 24) & 0xff) as u8,
    ]
}

/// Encode a signed value as its 4-byte little-endian device word.
pub fn encode_value(value: i32) -> (r: [u8; 4])
    ensures
        r@ == spec_encode_value(value),
{
    let u: u32 = #[verifier::truncate] (value as u32);
    let b0: u8 = #[verifier::truncate] ((u & 0xff) as u8);
    let b1: u8 = #[verifier::truncate] (((u >> 8) & 0xff) as u8);
    let b2: u8 = #[verifier::truncate] (((u >> 16) & 0xff) as u8);
    let b3: u8 = #[verifier::truncate] (((u >> 24) & 0xff) as u8);
    let r: [u8; 4] = [b0, b1, b2, b3];
    proof {
        assert(r@ =~= spec_encode_value(value));
    }
    r
}

/// Decode a 4-byte little-endian device word into its signed value.
pub fn decode_value(bytes: &[u8; 4]) -> (r: i32)
    ensures
        r == spec_decode_value(bytes@),
{
    let b0 = bytes[0];
    let b1 = bytes[1];
    let b2 = bytes[2];
    let b3 = bytes[3];
    let u: u32 = (b0 as u32) | ((b1 as u32) << 8) | ((b2 as u32) << 16) | ((b3 as u32) << 24);
    proof {
        assert(bytes@ =~= seq![b0, b1, b2, b3]);
        assert(((b1 as u32) << 8) <= 0xff00 && ((b2 as u32) << 16) <= 0xff0000 && ((b3 as u32)
            << 24) <= 0xff000000) by (bit_vector);
    }
    #[verifier::truncate] (u as i32)
}

/// Encoding a value and decoding the word gives the value back, for every
/// value: the outgoing device words round-trip.
pub proof fn lemma_codec_round_trip(value: i32)
    ensures
        spec_decode_value(spec_encode_value(value)) == value,
{
    let u = value as u32;
    let b = spec_encode_value(value);
    assert(((((u & 0xff) as u8) as u32) | ((((u >> 8) & 0xff) as u8) as u32) << 8 | ((((u >> 16)
        & 0xff) as u8) as u32) << 16 | ((((u >> 24) & 0xff) as u8) as u32) << 24) == u)
        by (bit_vector);
    assert(le_word(b) == u);
    assert((value as u32) as i32 == value) by (bit_vector);
}

/// Decoding a 4-byte word and encoding the value gives the word back, for
/// every word: no two words carry the same value.
pub proof fn lemma_codec_round_trip_bytes(b: Seq<u8>)
    requires
        b.len() == 4,
    ensures
        spec_encode_value(spec_decode_value(b)) == b,
{
    let w = le_word(b);
    let v = spec_decode_value(b);
    let b0 = b[0];
    let b1 = b[1];
    let b2 = b[2];
    let b3 = b[3];
    let u = ((b0 as u32) | ((b1 as u32) << 8) | ((b2 as u32) << 16) | ((b3 as u32) << 24));
    assert((u as i32) as u32 == u) by (bit_vector)
        requires
            u == ((b0 as u32) | ((b1 as u32) << 8) | ((b2 as u32) << 16) | ((b3 as u32) << 24)),
    ;
    assert((u & 0xff) as u8 == b0 && ((u >> 8) & 0xff) as u8 == b1 && ((u >> 16) & 0xff) as u8
        == b2 && ((u >> 24) & 0xff) as u8 == b3) by (bit_vector)
        requires
            u == ((b0 as u32) | ((b1 as u32) << 8) | ((b2 as u32) << 16) | ((b3 as u32) << 24)),
    ;
    assert(spec_encode_value(v) =~= b);
}

} // verus!
