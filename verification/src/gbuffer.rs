//! The packed G-buffer pixel record and its byte-exact encoding.
//!
//! The marcher writes one 18-byte record per pixel: surface normal as three
//! signed 16-bit fixed-point words, then depth, shadow, ambient occlusion,
//! color gradient, orbit trap and roughness as unsigned 16-bit words, all
//! little-endian with no padding.  The shading pass reads the same bytes
//! back.  [`pixel_bytes`] is the one definition of that layout; writing and
//! reading are proved against it, and the two round-trip lemmas pin the
//! encoding down as a bijection.

use vstd::prelude::*;

verus! {

/// Size in bytes of one packed G-buffer pixel record.
pub const PIXEL_BYTES: usize = 18;

/// One packed G-buffer pixel record.
#[derive(Clone, Copy, Debug, PartialEq, Eq, Structural)]
pub struct SiLight5 {
    /// Surface normal X component (fixed point, value/32767 in [-1, 1]).
    pub sn_x: i16,
    /// Surface normal Y component.
    pub sn_y: i16,
    /// Surface normal Z component.
    pub sn_z: i16,
    /// Quantized depth; 65534 and 65535 mean no hit.
    pub z_pos: u16,
    /// Hard shadow bitfield (reserved).
    pub shadow: u16,
    /// Ambient occlusion value.
    pub ambient: u16,
    /// Smooth-iteration gradient position for coloring.
    pub color_gradient: u16,
    /// Orbit-trap color index.
    pub orbit_trap: u16,
    /// Roughness / extra flags (reserved).
    pub roughness: u16,
}

/// Low byte of a 16-bit word.
pub open spec fn word_lo(w: u16) -> u8 {
    (w as int % 256) as u8
}

/// High byte of a 16-bit word.
pub open spec fn word_hi(w: u16) -> u8 {
    (w as int / 256) as u8
}

/// The 16-bit word with the given little-endian bytes.
pub open spec fn word_of_bytes(lo: u8, hi: u8) -> u16 {
    (lo as int + 256 * hi as int) as u16
}

/// Two's-complement bit pattern of a signed 16-bit value.
pub open spec fn snorm_bits(v: i16) -> u16 {
    if v >= 0 {
        v as u16
    } else {
        (v as int + 0x10000) as u16
    }
}

/// Signed 16-bit value of a two's-complement bit pattern.
pub open spec fn snorm_of_bits(w: u16) -> i16 {
    if w < 0x8000 {
        w as i16
    } else {
        (w as int - 0x10000) as i16
    }
}

/// The 18 bytes of one pixel record, in buffer order.
pub open spec fn pixel_bytes(p: SiLight5) -> Seq<u8> {
    seq![
        word_lo(snorm_bits(p.sn_x)),
        word_hi(snorm_bits(p.sn_x)),
        word_lo(snorm_bits(p.sn_y)),
        word_hi(snorm_bits(p.sn_y)),
        word_lo(snorm_bits(p.sn_z)),
        word_hi(snorm_bits(p.sn_z)),
        word_lo(p.z_pos),
        word_hi(p.z_pos),
        word_lo(p.shadow),
        word_hi(p.shadow),
        word_lo(p.ambient),
        word_hi(p.ambient),
        word_lo(p.color_gradient),
        word_hi(p.color_gradient),
        word_lo(p.orbit_trap),
        word_hi(p.orbit_trap),
        word_lo(p.roughness),
        word_hi(p.roughness),
    ]
}

/// The pixel record whose encoding is the given 18 bytes.
pub open spec fn pixel_of_bytes(s: Seq<u8>) -> SiLight5
    recommends
        s.len() == 18,
{
    SiLight5 {
        sn_x: snorm_of_bits(word_of_bytes(s[0], s[1])),
        sn_y: snorm_of_bits(word_of_bytes(s[2], s[3])),
        sn_z: snorm_of_bits(word_of_bytes(s[4], s[5])),
        z_pos: word_of_bytes(s[6], s[7]),
        shadow: word_of_bytes(s[8], s[9]),
        ambient: word_of_bytes(s[10], s[11]),
        color_gradient: word_of_bytes(s[12], s[13]),
        orbit_trap: word_of_bytes(s[14], s[15]),
        roughness: word_of_bytes(s[16], s[17]),
    }
}

/// Splitting a word into bytes and reassembling it is the identity.
pub proof fn lemma_word_roundtrip(w: u16)
    ensures
        word_of_bytes(word_lo(w), word_hi(w)) == w,
{
}

/// Reassembling a word and splitting it again yields the same bytes.
pub proof fn lemma_bytes_of_word_roundtrip(lo: u8, hi: u8)
    ensures
        word_lo(word_of_bytes(lo, hi)) == lo,
        word_hi(word_of_bytes(lo, hi)) == hi,
{
    assert((lo as int + 256 * hi as int) % 256 == lo as int) by (nonlinear_arith)
        requires
            0 <= lo < 256,
            0 <= hi < 256,
    ;
    assert((lo as int + 256 * hi as int) / 256 == hi as int) by (nonlinear_arith)
        requires
            0 <= lo < 256,
            0 <= hi < 256,
    ;
}

/// The two's-complement bit pattern decodes back to the value it encodes.
pub proof fn lemma_snorm_roundtrip(v: i16)
    ensures
        snorm_of_bits(snorm_bits(v)) == v,
{
}

/// A bit pattern re-encodes to itself.
pub proof fn lemma_bits_of_snorm_roundtrip(w: u16)
    ensures
        snorm_bits(snorm_of_bits(w)) == w,
{
}

/// Decoding the encoding of any pixel record gives the record back.
pub proof fn lemma_pixel_roundtrip(p: SiLight5)
    ensures
        pixel_bytes(p).len() == 18,
        pixel_of_bytes(pixel_bytes(p)) == p,
{
    lemma_word_roundtrip(snorm_bits(p.sn_x));
    lemma_word_roundtrip(snorm_bits(p.sn_y));
    lemma_word_roundtrip(snorm_bits(p.sn_z));
    lemma_word_roundtrip(p.z_pos);
    lemma_word_roundtrip(p.shadow);
    lemma_word_roundtrip(p.ambient);
    lemma_word_roundtrip(p.color_gradient);
    lemma_word_roundtrip(p.orbit_trap);
    lemma_word_roundtrip(p.roughness);
    lemma_snorm_roundtrip(p.sn_x);
    lemma_snorm_roundtrip(p.sn_y);
    lemma_snorm_roundtrip(p.sn_z);
}

/// Encoding the record decoded from any 18 bytes gives the bytes back.
pub proof fn lemma_bytes_roundtrip(s: Seq<u8>)
    requires
        s.len() == 18,
    ensures
        pixel_bytes(pixel_of_bytes(s)) =~= s,
{
    lemma_bits_of_snorm_roundtrip(word_of_bytes(s[0], s[1]));
    lemma_bits_of_snorm_roundtrip(word_of_bytes(s[2], s[3]));
    lemma_bits_of_snorm_roundtrip(word_of_bytes(s[4], s[5]));
    lemma_bytes_of_word_roundtrip(s[0], s[1]);
    lemma_bytes_of_word_roundtrip(s[2], s[3]);
    lemma_bytes_of_word_roundtrip(s[4], s[5]);
    lemma_bytes_of_word_roundtrip(s[6], s[7]);
    lemma_bytes_of_word_roundtrip(s[8], s[9]);
    lemma_bytes_of_word_roundtrip(s[10], s[11]);
    lemma_bytes_of_word_roundtrip(s[12], s[13]);
    lemma_bytes_of_word_roundtrip(s[14], s[15]);
    lemma_bytes_of_word_roundtrip(s[16], s[17]);
}

impl SiLight5 {
    /// True when this record marks a pixel whose ray missed the surface.
    pub open spec fn spec_is_background(self) -> bool {
        self.z_pos >= 65534
    }

    /// Whether the shading pass must paint this pixel with the background color.
    pub fn is_background(&self) -> (r: bool)
        ensures
            r == self.spec_is_background(),
    {
        self.z_pos >= 65534
    }

    /// The record written for a ray that missed: no-hit depth, all else zero.
    pub fn no_hit() -> (r: SiLight5)
        ensures
            r == (SiLight5 {
                sn_x: 0i16,
                sn_y: 0i16,
                sn_z: 0i16,
                z_pos: 65535u16,
                shadow: 0u16,
                ambient: 0u16,
                color_gradient: 0u16,
                orbit_trap: 0u16,
                roughness: 0u16,
            }),
            r.spec_is_background(),
    {
        SiLight5 {
            sn_x: 0,
            sn_y: 0,
            sn_z: 0,
            z_pos: 65535,
            shadow: 0,
            ambient: 0,
            color_gradient: 0,
            orbit_trap: 0,
            roughness: 0,
        }
    }
}

impl Default for SiLight5 {
    /// The all-zero record.
    fn default() -> (r: Self)
        ensures
            r == (SiLight5 {
                sn_x: 0i16,
                sn_y: 0i16,
                sn_z: 0i16,
                z_pos: 0u16,
                shadow: 0u16,
                ambient: 0u16,
                color_gradient: 0u16,
                orbit_trap: 0u16,
                roughness: 0u16,
            }),
    {
        SiLight5 {
            sn_x: 0,
            sn_y: 0,
            sn_z: 0,
            z_pos: 0,
            shadow: 0,
            ambient: 0,
            color_gradient: 0,
            orbit_trap: 0,
            roughness: 0,
        }
    }
}

/// The two's-complement bit pattern of a signed word.
fn snorm_bits_exec(v: i16) -> (r: u16)
    ensures
        r == snorm_bits(v),
{
    if v >= 0 {
        v as u16
    } else {
        ((v as i32) + 0x10000) as u16
    }
}

/// The signed word with the given two's-complement bit pattern.
fn snorm_of_bits_exec(w: u16) -> (r: i16)
    ensures
        r == snorm_of_bits(w),
{
    if w < 0x8000 {
        w as i16
    } else {
        ((w as i32) - 0x10000) as i16
    }
}

/// The 16-bit word with the given little-endian bytes.
fn word_from_bytes(lo: u8, hi: u8) -> (r: u16)
    ensures
        r == word_of_bytes(lo, hi),
{
    (lo as u16) + 256 * (hi as u16)
}

/// Store one word into the buffer at the given byte offset, little-endian.
fn store_word(buf: &mut Vec<u8>, off: usize, w: u16)
    requires
        off + 2 <= old(buf)@.len(),
    ensures
        final(buf)@.len() == old(buf)@.len(),
        final(buf)@[off as int] == word_lo(w),
        final(buf)@[off + 1] == word_hi(w),
        forall|j: int|
            0 <= j < old(buf)@.len() && j != off && j != off + 1 ==> final(buf)@[j] == old(
                buf,
            )@[j],
{
    let _n: usize = buf.len();
    buf.set(off, (w % 256) as u8);
    buf.set(off + 1, (w / 256) as u8);
}

/// Write one pixel record into the G-buffer at the given pixel index.
///
/// An index beyond the buffer is silently dropped: the buffer is never
/// written out of bounds and the call reports whether it wrote.
pub fn write_pixel(buf: &mut Vec<u8>, idx: usize, p: &SiLight5) -> (wrote: bool)
    ensures
        final(buf)@.len() == old(buf)@.len(),
        wrote == (idx * PIXEL_BYTES + PIXEL_BYTES <= old(buf)@.len()),
        wrote ==> forall|k: int|
            0 <= k < PIXEL_BYTES ==> final(buf)@[idx * PIXEL_BYTES + k] == pixel_bytes(*p)[k],
        wrote ==> forall|j: int|
            0 <= j < old(buf)@.len() && !(idx * PIXEL_BYTES <= j < idx * PIXEL_BYTES + PIXEL_BYTES)
                ==> final(buf)@[j] == old(buf)@[j],
        !wrote ==> final(buf)@ == old(buf)@,
{
    if idx >= buf.len() / PIXEL_BYTES {
        proof {
            assert(!(idx * 18 + 18 <= buf@.len())) by (nonlinear_arith)
                requires
                    idx >= buf@.len() / 18,
            ;
        }
        return false;
    }
    proof {
        assert(idx * 18 + 18 <= buf@.len()) by (nonlinear_arith)
            requires
                idx < buf@.len() / 18,
        ;
    }
    let off = idx * PIXEL_BYTES;
    store_word(buf, off, snorm_bits_exec(p.sn_x));
    store_word(buf, off + 2, snorm_bits_exec(p.sn_y));
    store_word(buf, off + 4, snorm_bits_exec(p.sn_z));
    store_word(buf, off + 6, p.z_pos);
    store_word(buf, off + 8, p.shadow);
    store_word(buf, off + 10, p.ambient);
    store_word(buf, off + 12, p.color_gradient);
    store_word(buf, off + 14, p.orbit_trap);
    store_word(buf, off + 16, p.roughness);
    true
}

/// Read the pixel record at the given pixel index from the G-buffer.
///
/// Returns nothing when the record does not fit inside the buffer.
pub fn read_pixel(buf: &Vec<u8>, idx: usize) -> (r: Option<SiLight5>)
    ensures
        r is Some <==> idx * PIXEL_BYTES + PIXEL_BYTES <= buf@.len(),
        r matches Some(p) ==> p == pixel_of_bytes(
            buf@.subrange(idx * PIXEL_BYTES as int, idx * PIXEL_BYTES + PIXEL_BYTES),
        ),
{
    if idx >= buf.len() / PIXEL_BYTES {
        proof {
            assert(!(idx * 18 + 18 <= buf@.len())) by (nonlinear_arith)
                requires
                    idx >= buf@.len() / 18,
            ;
        }
        return None;
    }
    proof {
        assert(idx * 18 + 18 <= buf@.len()) by (nonlinear_arith)
            requires
                idx < buf@.len() / 18,
        ;
    }
    let off = idx * PIXEL_BYTES;
    let p = SiLight5 {
        sn_x: snorm_of_bits_exec(word_from_bytes(buf[off], buf[off + 1])),
        sn_y: snorm_of_bits_exec(word_from_bytes(buf[off + 2], buf[off + 3])),
        sn_z: snorm_of_bits_exec(word_from_bytes(buf[off + 4], buf[off + 5])),
        z_pos: word_from_bytes(buf[off + 6], buf[off + 7]),
        shadow: word_from_bytes(buf[off + 8], buf[off + 9]),
        ambient: word_from_bytes(buf[off + 10], buf[off + 11]),
        color_gradient: word_from_bytes(buf[off + 12], buf[off + 13]),
        orbit_trap: word_from_bytes(buf[off + 14], buf[off + 15]),
        roughness: word_from_bytes(buf[off + 16], buf[off + 17]),
    };
    proof {
        let s = buf@.subrange(idx * 18 as int, idx * 18 + 18);
        assert(p == pixel_of_bytes(s));
    }
    Some(p)
}

} // verus!
