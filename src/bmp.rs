//! The BMP container: a 14-byte file header, a 40-byte geometry header and
//! raw top-down 24-bit pixels in blue-green-red order.
use vstd::prelude::*;

use crate::error::ScanError;

verus! {

/// Length of the file header: signature, total size, two reserved fields
/// and the offset of the pixel data.
pub const BMP_FILE_HEADER_SIZE: u32 = 14;

/// Length of the geometry header.
pub const BMP_IMAGE_HEADER_SIZE: u32 = 40;

/// Length of both headers together, which is also where the pixels start.
pub const BMP_HEADER_SIZE: u32 = 54;

/// The four little-endian bytes of `v`.
pub open spec fn le32(v: u32) -> Seq<u8> {
    seq![
        (v % 256) as u8,
        ((v / 256) % 256) as u8,
        ((v / 65536) % 256) as u8,
        (v / 16777216) as u8,
    ]
}

/// The two little-endian bytes of `v`.
pub open spec fn le16(v: u16) -> Seq<u8> {
    seq![(v % 256) as u8, (v / 256) as u8]
}

/// The 32-bit two's complement bit pattern of `-h`.
pub open spec fn negated(h: u32) -> u32 {
    if h == 0 {
        0
    } else {
        (0x1_0000_0000 - h) as u32
    }
}

/// A geometry the headers can describe: a pixel count that fits the size
/// field, and a height whose negation fits a signed 32-bit field.
pub open spec fn encodable(img_len: nat, height: u32) -> bool {
    img_len + BMP_HEADER_SIZE <= u32::MAX && height <= i32::MAX
}

/// The 54 header bytes for `img_len` bytes of pixels, `width` pixels per
/// line and `height` lines stored top-down.
pub open spec fn bmp_header(img_len: nat, width: u32, height: u32) -> Seq<u8> {
    seq![66u8, 77u8] + le32((img_len + BMP_HEADER_SIZE) as u32) + seq![0u8, 0u8, 0u8, 0u8]
        + le32(BMP_HEADER_SIZE) + le32(BMP_IMAGE_HEADER_SIZE) + le32(width) + le32(negated(height))
        + le16(1) + le16(24) + Seq::new(24, |i: int| 0u8)
}

fn push_le32(out: &mut Vec<u8>, v: u32)
    ensures
        final(out)@ == old(out)@ + le32(v),
{
    out.push((v % 256) as u8);
    out.push(((v / 256) % 256) as u8);
    out.push(((v / 65536) % 256) as u8);
    out.push((v / 16777216) as u8);
    assert(final(out)@ =~= old(out)@ + le32(v));
}

fn push_le16(out: &mut Vec<u8>, v: u16)
    ensures
        final(out)@ == old(out)@ + le16(v),
{
    out.push((v % 256) as u8);
    out.push((v / 256) as u8);
    assert(final(out)@ =~= old(out)@ + le16(v));
}

/// Appends the headers for `img_len` bytes of pixels to `out`, or fails with
/// `EncodingFailed` and leaves `out` as it was when the geometry does not fit
/// the header's fields.
pub fn encode_bmp_header(img_len: u64, width: u32, height: u32, out: &mut Vec<u8>) -> (r: Result<(), ScanError>)
    ensures
        r.is_ok() <==> encodable(img_len as nat, height),
        r.is_ok() ==> final(out)@ == old(out)@ + bmp_header(img_len as nat, width, height),
        r matches Err(e) ==> e == ScanError::encoding() && final(out)@ == old(out)@,
{
    if img_len > (u32::MAX - BMP_HEADER_SIZE) as u64 || height > i32::MAX as u32 {
        return Err(ScanError::encoding());
    }
    let ghost start = out@;
    out.push(66u8);
    out.push(77u8);
    push_le32(out, BMP_HEADER_SIZE + img_len as u32);
    out.push(0u8);
    out.push(0u8);
    out.push(0u8);
    out.push(0u8);
    push_le32(out, BMP_HEADER_SIZE);
    push_le32(out, BMP_IMAGE_HEADER_SIZE);
    push_le32(out, width);
    let neg: u32 = if height == 0 { 0 } else { (u32::MAX - height) + 1 };
    push_le32(out, neg);
    push_le16(out, 1u16);
    push_le16(out, 24u16);
    let mut k: usize = 0;
    while k < 24
        invariant
            k <= 24,
            out@ == start + bmp_header(img_len as nat, width, height).subrange(0, 30 + k as int),
        decreases 24 - k,
    {
        out.push(0u8);
        k = k + 1;
        assert(out@ =~= start + bmp_header(img_len as nat, width, height).subrange(0, 30 + k as int));
    }
    assert(bmp_header(img_len as nat, width, height).subrange(0, 54) =~= bmp_header(img_len as nat, width, height));
    Ok(())
}

/// Writes a whole BMP file for `img`, `width` pixels wide and `height` lines
/// high, to the end of `out`: the headers, then the pixel bytes unchanged.
pub fn encode_as_bmp(img: &[u8], dims: (u32, u32), out: &mut Vec<u8>) -> (r: Result<(), ScanError>)
    ensures
        r.is_ok() <==> encodable(img@.len(), dims.1),
        r.is_ok() ==> final(out)@ == old(out)@ + bmp_header(img@.len(), dims.0, dims.1) + img@,
        r matches Err(e) ==> e == ScanError::encoding() && final(out)@ == old(out)@,
{
    let (width, height) = dims;
    match encode_bmp_header(img.len() as u64, width, height, out) {
        Ok(()) => {
            out.extend_from_slice(img);
            Ok(())
        },
        Err(e) => Err(e),
    }
}

/// The byte at position `i` after swapping byte 0 and byte 2 of every whole
/// 3-byte pixel of `s`; a trailing partial pixel is left as it is.
pub open spec fn swapped_byte(s: Seq<u8>, i: int) -> u8 {
    if i < 3 * (s.len() / 3) as int {
        if i % 3 == 0 {
            s[i + 2]
        } else if i % 3 == 2 {
            s[i - 2]
        } else {
            s[i]
        }
    } else {
        s[i]
    }
}

/// `s` with the red and blue byte of every whole pixel exchanged.
pub open spec fn swap_channels(s: Seq<u8>) -> Seq<u8> {
    Seq::new(s.len(), |i: int| swapped_byte(s, i))
}

/// Turns red-green-blue pixels into blue-green-red ones, in place.
pub fn rgb_to_bgr(image: &mut Vec<u8>)
    ensures
        final(image)@ == swap_channels(old(image)@),
{
    let n: usize = image.len();
    let pixels: usize = n / 3;
    let mut k: usize = 0;
    while k < pixels
        invariant
            pixels == old(image)@.len() / 3,
            n == old(image)@.len(),
            k <= pixels,
            image@.len() == n,
            forall|i: int| 0 <= i < 3 * k ==> image@[i] == swapped_byte(old(image)@, i),
            forall|i: int| 3 * k <= i < n ==> image@[i] == old(image)@[i],
        decreases pixels - k,
    {
        let first: u8 = image[3 * k];
        let third: u8 = image[3 * k + 2];
        image.set(3 * k, third);
        image.set(3 * k + 2, first);
        k = k + 1;
    }
    assert(image@ =~= swap_channels(old(image)@));
}

/// Swapping the channels twice gives back the bytes that were swapped.
pub proof fn lemma_swap_involution(s: Seq<u8>)
    ensures
        swap_channels(swap_channels(s)) == s,
{
    assert(swap_channels(swap_channels(s)) =~= s);
}

/// Swapping two pieces apart gives the swap of the whole, when the first
/// piece holds whole pixels only.
pub proof fn lemma_swap_concat(a: Seq<u8>, b: Seq<u8>)
    requires
        a.len() % 3 == 0,
    ensures
        swap_channels(a + b) == swap_channels(a) + swap_channels(b),
{
    assert(3 * ((a + b).len() / 3) == a.len() + 3 * (b.len() / 3)) by (nonlinear_arith)
        requires a.len() % 3 == 0, (a + b).len() == a.len() + b.len();
    assert(swap_channels(a + b) =~= swap_channels(a) + swap_channels(b));
}

/// Each chunk holds a positive whole number of pixels.
pub open spec fn whole_pixel_chunks(chunks: Seq<Seq<u8>>) -> bool {
    forall|j: int| 0 <= j < chunks.len() ==> chunks[j].len() > 0 && #[trigger] chunks[j].len() % 3 == 0
}

/// Swapping the chunks one by one and joining them gives the swap of the
/// joined chunks, when every chunk is a positive multiple of 3 bytes long.
pub proof fn lemma_swap_chunks(chunks: Seq<Seq<u8>>)
    requires
        whole_pixel_chunks(chunks),
    ensures
        chunks.map_values(|c: Seq<u8>| swap_channels(c)).flatten() == swap_channels(chunks.flatten()),
    decreases chunks.len(),
{
    if chunks.len() == 0 {
        assert(swap_channels(Seq::<u8>::empty()) =~= Seq::<u8>::empty());
    } else {
        let rest = chunks.drop_first();
        assert(whole_pixel_chunks(rest)) by {
            assert forall|j: int| 0 <= j < rest.len() implies rest[j].len() > 0 && #[trigger] rest[j].len() % 3 == 0 by {
                assert(rest[j] == chunks[j + 1]);
            }
        }
        lemma_swap_chunks(rest);
        let f = |c: Seq<u8>| swap_channels(c);
        assert(chunks.map_values(f).drop_first() =~= rest.map_values(f));
        assert(chunks[0].len() % 3 == 0);
        lemma_swap_concat(chunks[0], rest.flatten());
    }
}

} // verus!
