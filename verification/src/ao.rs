//! Per-corner ambient-occlusion values and their packed one-byte form.

use vstd::prelude::*;

verus! {

/// 1 when the sample is opaque, else 0.
pub open spec fn occ(b: bool) -> int {
    if b {
        1int
    } else {
        0int
    }
}

/// The shade of one face corner from its two edge-adjacent samples and its
/// diagonal corner sample: 0 is darkest, 3 is fully lit.  Two opaque edges
/// fully occlude the corner regardless of the diagonal sample.
pub open spec fn spec_ao_value(side1: bool, corner: bool, side2: bool) -> u8 {
    if side1 && side2 {
        0u8
    } else {
        (3 - (occ(side1) + occ(side2) + occ(corner))) as u8
    }
}

/// Corner shade from two edge samples and the diagonal corner sample.
pub fn ao_value(side1: bool, corner: bool, side2: bool) -> (r: u8)
    ensures
        r == spec_ao_value(side1, corner, side2),
        r <= 3,
        side1 && side2 ==> r == 0,
{
    if side1 && side2 {
        0
    } else {
        let s1: u8 = if side1 {
            1
        } else {
            0
        };
        let s2: u8 = if side2 {
            1
        } else {
            0
        };
        let c: u8 = if corner {
            1
        } else {
            0
        };
        3 - (s1 + s2 + c)
    }
}

/// Four 2-bit corner shades packed into one byte.  Bit offsets 0, 2, 4 and 6
/// hold the (neg,pos), (neg,neg), (pos,neg) and (pos,pos) corners of the
/// face's two in-plane axes.
#[derive(Clone, Copy, PartialEq, Eq, Structural, Hash, Debug)]
pub struct FaceAo(pub u8);

impl Default for FaceAo {
    /// All four corners fully lit with zero occlusion recorded, the value a
    /// liquid face always carries.
    fn default() -> (r: Self)
        ensures
            r == FaceAo(0u8),
    {
        FaceAo(0)
    }
}

/// The packed byte holding the four corner shades, each at its bit offset.
pub open spec fn spec_pack_ao(neg_pos: u8, neg_neg: u8, pos_neg: u8, pos_pos: u8) -> u8 {
    (pos_pos << 6u8) | (pos_neg << 4u8) | (neg_neg << 2u8) | neg_pos
}

impl FaceAo {
    /// Bit offset of the (neg,neg) corner.
    pub const AO_NEG_NEG: u8 = 2;

    /// Bit offset of the (neg,pos) corner.
    pub const AO_NEG_POS: u8 = 0;

    /// Bit offset of the (pos,neg) corner.
    pub const AO_POS_NEG: u8 = 4;

    /// Bit offset of the (pos,pos) corner.
    pub const AO_POS_POS: u8 = 6;

    /// The 2-bit shade stored at the given bit offset.
    pub open spec fn spec_corner(self, bits: u8) -> u8 {
        (self.0 >> bits) & 3u8
    }

    /// Extracts the 2-bit corner shade at one of the four bit offsets.
    pub fn corner_ao(&self, bits: u8) -> (r: u8)
        requires
            bits < 8,
        ensures
            r == self.spec_corner(bits),
            r <= 3,
    {
        let v: u8 = self.0;
        proof {
            lemma_corner_bound(v, bits);
            lemma_mask_shift_eq(v, bits);
        }
        (self.0 & (3 << bits)) >> bits
    }

    /// Packs the four corner shades into one byte.
    pub fn pack(neg_pos: u8, neg_neg: u8, pos_neg: u8, pos_pos: u8) -> (r: FaceAo)
        requires
            neg_pos <= 3,
            neg_neg <= 3,
            pos_neg <= 3,
            pos_pos <= 3,
        ensures
            r == FaceAo(spec_pack_ao(neg_pos, neg_neg, pos_neg, pos_pos)),
            r.spec_corner(FaceAo::AO_NEG_POS) == neg_pos,
            r.spec_corner(FaceAo::AO_NEG_NEG) == neg_neg,
            r.spec_corner(FaceAo::AO_POS_NEG) == pos_neg,
            r.spec_corner(FaceAo::AO_POS_POS) == pos_pos,
    {
        proof {
            lemma_pack_corners(neg_pos, neg_neg, pos_neg, pos_pos);
        }
        FaceAo((pos_pos << 6) | (pos_neg << 4) | (neg_neg << 2) | neg_pos)
    }
}

/// An extracted corner shade never exceeds 3: the mask keeps two bits.
proof fn lemma_corner_bound(v: u8, bits: u8)
    by (bit_vector)
    requires
        bits < 8,
    ensures
        (v >> bits) & 3u8 <= 3,
{
}

/// Masking the two bits in place and shifting equals shifting and masking.
proof fn lemma_mask_shift_eq(v: u8, bits: u8)
    by (bit_vector)
    requires
        bits < 8,
    ensures
        (v & (3u8 << bits)) >> bits == (v >> bits) & 3u8,
{
}

/// Each 2-bit field of the packed byte reads back as the shade stored there.
proof fn lemma_pack_corners(a: u8, b: u8, c: u8, d: u8)
    by (bit_vector)
    requires
        a <= 3,
        b <= 3,
        c <= 3,
        d <= 3,
    ensures
        (((d << 6u8) | (c << 4u8) | (b << 2u8) | a) >> 0u8) & 3u8 == a,
        (((d << 6u8) | (c << 4u8) | (b << 2u8) | a) >> 2u8) & 3u8 == b,
        (((d << 6u8) | (c << 4u8) | (b << 2u8) | a) >> 4u8) & 3u8 == c,
        (((d << 6u8) | (c << 4u8) | (b << 2u8) | a) >> 6u8) & 3u8 == d,
{
}

} // verus!
