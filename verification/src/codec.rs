//! The packed complex sample format.
//!
//! A `.c64` file is a flat sequence of little-endian binary32 values,
//! alternating real and imaginary, eight bytes per sample, with no header or
//! trailer. On decode each binary32 value is widened exactly to a
//! double-precision sample; on encode each double is narrowed to binary32.
//! Narrowing an exactly-widened value returns it unchanged (NaN payloads
//! aside), so the byte-level round trip is exact: see
//! `lemma_c64_round_trip`.
//!
//! Reading and writing the files themselves is the caller's business; this
//! module only turns byte buffers into samples and back.

use vstd::prelude::*;

use crate::Cpx;
use num_complex::{Complex32, Complex64};

verus! {

/// The bit pattern of the binary32 value `b`, widened exactly to binary64.
pub uninterp spec fn widen_of(b: u32) -> u64;

/// The bit pattern of the binary64 value `b`, narrowed (with rounding) to
/// binary32.
pub uninterp spec fn narrow_of(b: u64) -> u32;

/// The bit pattern `b` is a binary32 NaN: exponent bits all ones and a
/// non-zero mantissa.
pub open spec fn is_nan32(b: u32) -> bool {
    b & 0x7F80_0000 == 0x7F80_0000 && b & 0x007F_FFFF != 0
}

/// Relies on the exact f32-to-f64 numeric conversion (reached through
/// num_traits::cast): widens the two binary32 bit patterns of one packed
/// sample to a double-precision sample. Every binary32 value is exactly
/// representable in binary64, so for a non-NaN input the narrowing
/// conversion rounds the widened value straight back to it; NaN payloads
/// are left out because the conversions may not preserve them bit for bit.
#[verifier::external_body]
fn widen_sample(re_bits: u32, im_bits: u32) -> (r: Cpx)
    ensures
        r.re == widen_of(re_bits),
        r.im == widen_of(im_bits),
        !is_nan32(re_bits) ==> narrow_of(r.re) == re_bits,
        !is_nan32(im_bits) ==> narrow_of(r.im) == im_bits,
{
    let c = Complex32::new(bytemuck::cast(re_bits), bytemuck::cast(im_bits));
    let w = Complex64::new(num_traits::cast(c.re).unwrap(), num_traits::cast(c.im).unwrap());
    Cpx { re: w.re.to_bits(), im: w.im.to_bits() }
}

/// Relies on the f64-to-f32 numeric conversion (reached through
/// num_traits::cast), which rounds to the nearest binary32 value: narrows
/// one double-precision sample to the two binary32 bit patterns of its
/// packed form.
#[verifier::external_body]
fn narrow_sample(c: Cpx) -> (r: (u32, u32))
    ensures
        r.0 == narrow_of(c.re),
        r.1 == narrow_of(c.im),
{
    let z = Complex64::new(bytemuck::cast(c.re), bytemuck::cast(c.im));
    let s = Complex32::new(num_traits::cast(z.re).unwrap(), num_traits::cast(z.im).unwrap());
    (s.re.to_bits(), s.im.to_bits())
}

/// The little-endian 32-bit value at offset `off`.
pub open spec fn le32_at(bytes: Seq<u8>, off: int) -> u32 {
    (bytes[off] as u32) | ((bytes[off + 1] as u32) << 8u32) | ((bytes[off + 2] as u32) << 16u32)
        | ((bytes[off + 3] as u32) << 24u32)
}

/// Byte `k` of the little-endian encoding of a 32-bit value.
pub open spec fn le_byte32(x: u32, k: int) -> u8 {
    ((x >> (8 * k) as u32) & 0xff) as u8
}

/// Decodes a packed `.c64` byte buffer: byte group `8*i` holds sample `i`,
/// real then imaginary, each a little-endian binary32 widened to double.
/// The byte count must be a multiple of eight. Wherever a group is not a
/// NaN, the decoded component narrows back to exactly that group.
pub fn decode_c64(bytes: &Vec<u8>) -> (r: Vec<Cpx>)
    requires
        bytes@.len() % 8 == 0,
    ensures
        r@.len() == bytes@.len() / 8,
        forall|i: int|
            0 <= i < r@.len() ==> (#[trigger] r@[i]).re == widen_of(le32_at(bytes@, 8 * i))
                && r@[i].im == widen_of(le32_at(bytes@, 8 * i + 4)),
        forall|i: int|
            0 <= i < r@.len() && !is_nan32(le32_at(bytes@, 8 * i)) ==> narrow_of(
                (#[trigger] r@[i]).re,
            ) == le32_at(bytes@, 8 * i),
        forall|i: int|
            0 <= i < r@.len() && !is_nan32(le32_at(bytes@, 8 * i + 4)) ==> narrow_of(
                (#[trigger] r@[i]).im,
            ) == le32_at(bytes@, 8 * i + 4),
{
    let total = bytes.len() / 8;
    proof {
        assert(8 * (total as int) == bytes@.len());
    }
    let mut out: Vec<Cpx> = Vec::new();
    let mut i: usize = 0;
    while i < total
        invariant
            i == out@.len() <= total,
            total == bytes@.len() / 8,
            8 * (total as int) == bytes@.len(),
            bytes@.len() <= usize::MAX,
            bytes@.len() % 8 == 0,
            forall|k: int|
                0 <= k < i ==> (#[trigger] out@[k]).re == widen_of(le32_at(bytes@, 8 * k))
                    && out@[k].im == widen_of(le32_at(bytes@, 8 * k + 4)),
            forall|k: int|
                0 <= k < i && !is_nan32(le32_at(bytes@, 8 * k)) ==> narrow_of(
                    (#[trigger] out@[k]).re,
                ) == le32_at(bytes@, 8 * k),
            forall|k: int|
                0 <= k < i && !is_nan32(le32_at(bytes@, 8 * k + 4)) ==> narrow_of(
                    (#[trigger] out@[k]).im,
                ) == le32_at(bytes@, 8 * k + 4),
        decreases total - i,
    {
        let off = 8 * i;
        let re_bits = read_le32(bytes, off);
        let im_bits = read_le32(bytes, off + 4);
        out.push(widen_sample(re_bits, im_bits));
        i = i + 1;
    }
    out
}

/// Reads the little-endian 32-bit value at `off`.
fn read_le32(bytes: &Vec<u8>, off: usize) -> (r: u32)
    requires
        off + 4 <= bytes@.len(),
    ensures
        r == le32_at(bytes@, off as int),
{
    let n = bytes.len();
    proof {
        assert(off + 4 <= n);
    }
    (bytes[off] as u32) | ((bytes[off + 1] as u32) << 8u32) | ((bytes[off + 2] as u32) << 16u32)
        | ((bytes[off + 3] as u32) << 24u32)
}

/// The eight packed bytes of one sample in the `.c64` format.
pub open spec fn sample_c64_bytes(c: Cpx) -> Seq<u8> {
    seq![
        le_byte32(narrow_of(c.re), 0),
        le_byte32(narrow_of(c.re), 1),
        le_byte32(narrow_of(c.re), 2),
        le_byte32(narrow_of(c.re), 3),
        le_byte32(narrow_of(c.im), 0),
        le_byte32(narrow_of(c.im), 1),
        le_byte32(narrow_of(c.im), 2),
        le_byte32(narrow_of(c.im), 3),
    ]
}

/// The whole `.c64` byte image of a sample sequence.
pub open spec fn c64_bytes_of(s: Seq<Cpx>) -> Seq<u8>
    decreases s.len(),
{
    if s.len() == 0 {
        Seq::empty()
    } else {
        c64_bytes_of(s.drop_last()) + sample_c64_bytes(s.last())
    }
}

/// The byte image is eight bytes per sample.
pub proof fn lemma_c64_bytes_len(s: Seq<Cpx>)
    ensures
        c64_bytes_of(s).len() == 8 * s.len(),
    decreases s.len(),
{
    if s.len() > 0 {
        lemma_c64_bytes_len(s.drop_last());
    }
}

/// Appends the four little-endian bytes of `x`.
fn push_le32(out: &mut Vec<u8>, x: u32)
    ensures
        final(out)@ == old(out)@ + seq![
            le_byte32(x, 0),
            le_byte32(x, 1),
            le_byte32(x, 2),
            le_byte32(x, 3),
        ],
{
    out.push(((x >> 0u32) & 0xff) as u8);
    out.push(((x >> 8u32) & 0xff) as u8);
    out.push(((x >> 16u32) & 0xff) as u8);
    out.push(((x >> 24u32) & 0xff) as u8);
    proof {
        assert(out@ =~= old(out)@ + seq![
            le_byte32(x, 0),
            le_byte32(x, 1),
            le_byte32(x, 2),
            le_byte32(x, 3),
        ]);
    }
}

/// Encodes samples into the packed `.c64` format: each double is narrowed
/// to binary32 and written little-endian, real then imaginary.
pub fn encode_c64(samples: &Vec<Cpx>) -> (r: Vec<u8>)
    ensures
        r@ == c64_bytes_of(samples@),
        r@.len() == 8 * samples@.len(),
{
    let mut out: Vec<u8> = Vec::new();
    let mut i: usize = 0;
    while i < samples.len()
        invariant
            i <= samples@.len(),
            out@ == c64_bytes_of(samples@.subrange(0, i as int)),
        decreases samples@.len() - i,
    {
        let (re_bits, im_bits) = narrow_sample(samples[i]);
        push_le32(&mut out, re_bits);
        push_le32(&mut out, im_bits);
        proof {
            let pre = samples@.subrange(0, i as int);
            let post = samples@.subrange(0, i as int + 1);
            assert(post.drop_last() =~= pre);
            assert(post.last() == samples@[i as int]);
            assert(out@ =~= c64_bytes_of(post));
        }
        i = i + 1;
    }
    proof {
        assert(samples@.subrange(0, samples@.len() as int) =~= samples@);
        lemma_c64_bytes_len(samples@);
    }
    out
}

/// Each byte of a 32-bit value assembled from four little-endian bytes is
/// the byte it was assembled from.
proof fn lemma_le32_bytes_inverse(b0: u8, b1: u8, b2: u8, b3: u8)
    ensures
        le_byte32(
            (b0 as u32) | ((b1 as u32) << 8u32) | ((b2 as u32) << 16u32) | ((b3 as u32) << 24u32),
            0,
        ) == b0,
        le_byte32(
            (b0 as u32) | ((b1 as u32) << 8u32) | ((b2 as u32) << 16u32) | ((b3 as u32) << 24u32),
            1,
        ) == b1,
        le_byte32(
            (b0 as u32) | ((b1 as u32) << 8u32) | ((b2 as u32) << 16u32) | ((b3 as u32) << 24u32),
            2,
        ) == b2,
        le_byte32(
            (b0 as u32) | ((b1 as u32) << 8u32) | ((b2 as u32) << 16u32) | ((b3 as u32) << 24u32),
            3,
        ) == b3,
{
    assert(((((b0 as u32) | ((b1 as u32) << 8u32) | ((b2 as u32) << 16u32) | ((b3 as u32)
        << 24u32)) >> 0u32) & 0xff) as u8 == b0) by (bit_vector);
    assert(((((b0 as u32) | ((b1 as u32) << 8u32) | ((b2 as u32) << 16u32) | ((b3 as u32)
        << 24u32)) >> 8u32) & 0xff) as u8 == b1) by (bit_vector);
    assert(((((b0 as u32) | ((b1 as u32) << 8u32) | ((b2 as u32) << 16u32) | ((b3 as u32)
        << 24u32)) >> 16u32) & 0xff) as u8 == b2) by (bit_vector);
    assert(((((b0 as u32) | ((b1 as u32) << 8u32) | ((b2 as u32) << 16u32) | ((b3 as u32)
        << 24u32)) >> 24u32) & 0xff) as u8 == b3) by (bit_vector);
}

/// The `.c64` byte-level round trip: a sample sequence whose components
/// narrow back to the 32-bit groups of a byte image — as decoded samples do
/// wherever a group is not a NaN — encodes to exactly that image. Writing
/// what was read from a packed file therefore reproduces the file.
pub proof fn lemma_c64_round_trip(bytes: Seq<u8>, samples: Seq<Cpx>)
    requires
        8 * samples.len() == bytes.len(),
        forall|i: int|
            0 <= i < samples.len() ==> narrow_of((#[trigger] samples[i]).re) == le32_at(
                bytes,
                8 * i,
            ),
        forall|i: int|
            0 <= i < samples.len() ==> narrow_of((#[trigger] samples[i]).im) == le32_at(
                bytes,
                8 * i + 4,
            ),
    ensures
        c64_bytes_of(samples) == bytes,
    decreases samples.len(),
{
    if samples.len() == 0 {
        assert(c64_bytes_of(samples) =~= bytes);
    } else {
        let n = samples.len() as int;
        let off = 8 * (n - 1);
        let head = samples.drop_last();
        let head_bytes = bytes.subrange(0, off);
        assert forall|i: int| 0 <= i < head.len() implies narrow_of((#[trigger] head[i]).re)
            == le32_at(head_bytes, 8 * i) by {
            assert(head[i] == samples[i]);
            assert(le32_at(head_bytes, 8 * i) == le32_at(bytes, 8 * i));
        }
        assert forall|i: int| 0 <= i < head.len() implies narrow_of((#[trigger] head[i]).im)
            == le32_at(head_bytes, 8 * i + 4) by {
            assert(head[i] == samples[i]);
            assert(le32_at(head_bytes, 8 * i + 4) == le32_at(bytes, 8 * i + 4));
        }
        lemma_c64_round_trip(head_bytes, head);
        let last = samples.last();
        assert(last == samples[n - 1]);
        assert(narrow_of(last.re) == le32_at(bytes, off));
        assert(narrow_of(last.im) == le32_at(bytes, off + 4));
        lemma_le32_bytes_inverse(bytes[off], bytes[off + 1], bytes[off + 2], bytes[off + 3]);
        lemma_le32_bytes_inverse(
            bytes[off + 4],
            bytes[off + 5],
            bytes[off + 6],
            bytes[off + 7],
        );
        assert(sample_c64_bytes(last) =~= bytes.subrange(off, off + 8));
        assert(c64_bytes_of(samples) =~= bytes);
    }
}

/// The packed byte image a sample buffer takes on disk.
pub trait BinaryIO {
    /// The byte image, in the packed little-endian binary32 format.
    spec fn spec_bytes(&self) -> Seq<u8>;

    fn write_file_binary(&self) -> (r: Vec<u8>)
        ensures
            r@ == self.spec_bytes(),
    ;
}

impl BinaryIO for Vec<Cpx> {
    /// The `.c64` byte image of this buffer: eight bytes per sample, each
    /// double narrowed to binary32.
    open spec fn spec_bytes(&self) -> Seq<u8> {
        c64_bytes_of(self@)
    }

    /// The packed byte image of this buffer; writing it to a file is the
    /// caller's business.
    fn write_file_binary(&self) -> (r: Vec<u8>) {
        encode_c64(self)
    }
}

} // verus!
