//! Byte- and bit-level serialization.
//!
//! The exact byte order (big-endian) and bit order (most significant bit
//! first within each byte, bytes in buffer order) are protocol-level
//! contracts: a downstream circuit must reproduce them bit for bit.  They are
//! therefore stated here as explicit specification functions, and every
//! executable serializer is proved against them.

use vstd::prelude::*;
use byteorder::{BigEndian, WriteBytesExt};

verus! {

/// Byte `i` (0 = most significant) of the big-endian encoding of `x`.
pub open spec fn u64_be_byte(x: u64, i: int) -> u8 {
    (x >> ((56 - 8 * i) as u64)) as u8
}

/// The eight bytes of `x`, big-endian.
pub open spec fn u64_be_bytes(x: u64) -> Seq<u8> {
    Seq::new(8, |i: int| u64_be_byte(x, i))
}

/// Relies on byteorder's `WriteBytesExt::write_u64::<BigEndian>`: it appends
/// exactly the eight big-endian bytes of the integer to the writer.
#[verifier::external_body]
pub(crate) fn u64_to_be_vec(x: u64) -> (r: Vec<u8>)
    ensures
        r@ == u64_be_bytes(x),
        r@.len() == 8,
{
    let mut out: Vec<u8> = vec![];
    (&mut out).write_u64::<BigEndian>(x).unwrap();
    out
}

/// The bits of one byte, most significant first.
pub open spec fn byte_bits(b: u8) -> Seq<bool> {
    Seq::new(8, |i: int| (b >> ((7 - i) as u8)) & 1 == 1)
}

/// The bits of a byte string: bytes in order, each expanded most
/// significant bit first.
pub open spec fn bits_of_bytes(s: Seq<u8>) -> Seq<bool>
    decreases s.len(),
{
    if s.len() == 0 {
        Seq::empty()
    } else {
        bits_of_bytes(s.drop_last()) + byte_bits(s.last())
    }
}

/// The integer a bit string denotes, most significant bit first.
pub open spec fn bits_value(s: Seq<bool>) -> int
    decreases s.len(),
{
    if s.len() == 0 {
        0
    } else {
        2 * bits_value(s.drop_last()) + (if s.last() {
            1int
        } else {
            0int
        })
    }
}

/// The bits of one byte, listed: `byte_bits` element by element.
proof fn lemma_byte_bits_elems(b: u8)
    ensures
        byte_bits(b).len() == 8,
        byte_bits(b)[0] == ((b >> 7u8) & 1 == 1),
        byte_bits(b)[1] == ((b >> 6u8) & 1 == 1),
        byte_bits(b)[2] == ((b >> 5u8) & 1 == 1),
        byte_bits(b)[3] == ((b >> 4u8) & 1 == 1),
        byte_bits(b)[4] == ((b >> 3u8) & 1 == 1),
        byte_bits(b)[5] == ((b >> 2u8) & 1 == 1),
        byte_bits(b)[6] == ((b >> 1u8) & 1 == 1),
        byte_bits(b)[7] == (b & 1 == 1),
{
    assert((b >> 0u8) & 1 == b & 1) by (bit_vector);
}

/// Appending one byte appends its eight bits.
proof fn lemma_bits_of_bytes_push(s: Seq<u8>, b: u8)
    ensures
        bits_of_bytes(s.push(b)) == bits_of_bytes(s) + byte_bits(b),
{
    assert(s.push(b).drop_last() =~= s);
    assert(s.push(b).last() == b);
}

/// Expands a byte buffer into its bit sequence, most significant bit first
/// within each byte.
#[verifier::rlimit(100)]
pub fn to_bits(bytes: &Vec<u8>) -> (r: Vec<bool>)
    ensures
        r@ == bits_of_bytes(bytes@),
{
    let mut out: Vec<bool> = Vec::new();
    let mut i: usize = 0;
    while i < bytes.len()
        invariant
            i <= bytes@.len(),
            out@ == bits_of_bytes(bytes@.subrange(0, i as int)),
        decreases bytes@.len() - i,
    {
        let b = bytes[i];
        let ghost out0 = out@;
        out.push((b >> 7u8) & 1 == 1);
        out.push((b >> 6u8) & 1 == 1);
        out.push((b >> 5u8) & 1 == 1);
        out.push((b >> 4u8) & 1 == 1);
        out.push((b >> 3u8) & 1 == 1);
        out.push((b >> 2u8) & 1 == 1);
        out.push((b >> 1u8) & 1 == 1);
        out.push(b & 1 == 1);
        proof {
            let prefix = bytes@.subrange(0, i as int);
            let prefix1 = bytes@.subrange(0, i + 1);
            lemma_byte_bits_elems(b);
            assert(out@ =~= out0 + byte_bits(b));
            assert(prefix1 =~= prefix.push(b));
            lemma_bits_of_bytes_push(prefix, b);
        }
        i += 1;
    }
    proof {
        assert(bytes@.subrange(0, bytes@.len() as int) =~= bytes@);
    }
    out
}

} // verus!
