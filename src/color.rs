use vstd::prelude::*;

verus! {

/// A colour packed into one word as `0x00RRGGBB`.
pub open spec fn pack(r: u8, g: u8, b: u8) -> u32 {
    ((r as u32) << 16u32) | ((g as u32) << 8u32) | (b as u32)
}

/// The red, green and blue bytes of a packed word; the top byte is ignored.
pub open spec fn unpack(c: u32) -> (u8, u8, u8) {
    (((c >> 16u32) & 0xffu32) as u8, ((c >> 8u32) & 0xffu32) as u8, (c & 0xffu32) as u8)
}

/// The red, green and blue bytes of a packed word.
pub(crate) fn unpack_word(c: u32) -> (rgb: (u8, u8, u8))
    ensures
        rgb == unpack(c),
{
    (((c >> 16u32) & 0xffu32) as u8, ((c >> 8u32) & 0xffu32) as u8, (c & 0xffu32) as u8)
}

/// Unpacking a packed colour gives back its three channels.
pub proof fn lemma_unpack_pack(r: u8, g: u8, b: u8)
    ensures
        unpack(pack(r, g, b)) == (r, g, b),
{
    let (ru, gu, bu) = (r as u32, g as u32, b as u32);
    assert((((ru << 16u32) | (gu << 8u32) | bu) >> 16u32) & 0xffu32 == ru) by (bit_vector)
        requires
            ru < 256,
            gu < 256,
            bu < 256,
    ;
    assert((((ru << 16u32) | (gu << 8u32) | bu) >> 8u32) & 0xffu32 == gu) by (bit_vector)
        requires
            ru < 256,
            gu < 256,
            bu < 256,
    ;
    assert(((ru << 16u32) | (gu << 8u32) | bu) & 0xffu32 == bu) by (bit_vector)
        requires
            ru < 256,
            gu < 256,
            bu < 256,
    ;
}

/// The zero word is black.
pub proof fn lemma_unpack_zero()
    ensures
        unpack(0) == (0u8, 0u8, 0u8),
{
    assert((0u32 >> 16u32) & 0xffu32 == 0) by (bit_vector);
    assert((0u32 >> 8u32) & 0xffu32 == 0) by (bit_vector);
    assert(0u32 & 0xffu32 == 0) by (bit_vector);
}

} // verus!
