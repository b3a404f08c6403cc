//! The palette of a PNG file.
use vstd::prelude::*;

use crate::bytes::read_long;

verus! {

/// `IHDR`, the kind of the chunk with the header.
pub const HEADER: u32 = 0x49484452;

/// `PLTE`, the kind of the chunk with the palette.
pub const PALETTE: u32 = 0x504c5445;

/// `IDAT`, the kind of a chunk with pixels.
pub const PIXELS: u32 = 0x49444154;

/// `fdAT`, the kind of a chunk with the pixels of an animation's frame.
pub const FRAME_PIXELS: u32 = 0x66644154;

/// `IEND`, the kind of the last chunk.
pub const END: u32 = 0x49454e44;

/// Whether a palette of `length` bytes is made of colours of three bytes, and of no more of
/// them than a byte can choose from.
pub open spec fn is_palette(length: int) -> bool {
    length % 3 == 0 && length <= 768
}

/// Whether the chunk at `at` is a header that says that pixels are taken from the palette.
pub open spec fn is_indexed(data: Seq<u8>, at: int) -> bool {
    crate::bytes::long(data, at) >= 10 && data[at + 17] == 3
}

/// Whether the palette in front of the first pixels is one, from the chunk at `at` on.
///
/// A chunk is its length, its kind, as many bytes as the length says, and a checksum. Before
/// `at`, `indexed` says whether pixels are taken from the palette, which has `palette` bytes.
/// An empty chunk means nothing. Nothing is asked of a palette that is not used, or behind
/// which no pixels come.
pub open spec fn palette_fits_from(data: Seq<u8>, at: int, indexed: bool, palette: int) -> bool
    decreases data.len() - at,
{
    if at + 8 > data.len() {
        true
    } else {
        let length = crate::bytes::long(data, at);
        let kind = crate::bytes::long(data, at + 4);
        if kind == PIXELS || kind == FRAME_PIXELS {
            indexed ==> is_palette(palette)
        } else if kind == END || at + 12 + length > data.len() {
            true
        } else if length == 0 {
            palette_fits_from(data, at + 12, indexed, palette)
        } else {
            palette_fits_from(
                data,
                at + 12 + length,
                if kind == HEADER {
                    is_indexed(data, at)
                } else {
                    indexed
                },
                if kind == PALETTE && palette == 0 {
                    length
                } else {
                    palette
                },
            )
        }
    }
}

/// Whether the palette of a PNG file is one, if pixels are taken from it.
pub open spec fn palette_fits(data: Seq<u8>) -> bool {
    palette_fits_from(data, 8, false, 0)
}

/// Checks the palette of a PNG file.
pub fn check_palette(data: &[u8]) -> (r: bool)
    ensures
        r == palette_fits(data@),
{
    let mut at: usize = 8;
    let mut indexed: bool = false;
    let mut palette: u32 = 0;
    while at <= data.len() && data.len() - at >= 8
        invariant
            palette_fits(data@) == palette_fits_from(data@, at as int, indexed, palette as int),
        decreases data.len() - at,
    {
        let length = read_long(data, at);
        let kind = read_long(data, at + 4);
        if kind == PIXELS || kind == FRAME_PIXELS {
            return !indexed || (palette % 3 == 0 && palette <= 768);
        }
        if kind == END || data.len() - at < 12 || length as usize > data.len() - at - 12 {
            return true;
        }
        if length > 0 {
            if kind == HEADER {
                indexed = length >= 10 && data[at + 17] == 3;
            }
            if kind == PALETTE && palette == 0 {
                palette = length;
            }
        }
        at = at + 12 + length as usize;
    }
    true
}

/// Chunks are read one by one: the first with pixels asks for a palette if pixels are taken
/// from it, the last chunk and one that is cut off end the reading, and of the others only a
/// header says whether pixels are taken from the palette, and only the first palette counts.
pub proof fn chunks_are_read_one_by_one(data: Seq<u8>, at: int, indexed: bool, palette: int)
    requires
        0 <= at,
        0 <= palette,
    ensures
        palette_fits(data) == palette_fits_from(data, 8, false, 0),
        at + 8 > data.len() ==> palette_fits_from(data, at, indexed, palette),
        at + 8 <= data.len() ==> ({
            let length = 0x1000000 * data[at] + 0x10000 * data[at + 1] + 0x100 * data[at + 2]
                + data[at + 3];
            let kind = (data[at + 4], data[at + 5], data[at + 6], data[at + 7]);
            let pixels = kind == (0x49u8, 0x44u8, 0x41u8, 0x54u8) || kind == (
                0x66u8,
                0x64u8,
                0x41u8,
                0x54u8,
            );
            let ends = kind == (0x49u8, 0x45u8, 0x4eu8, 0x44u8) || at + 12 + length > data.len();
            let header = kind == (0x49u8, 0x48u8, 0x44u8, 0x52u8);
            let colours = kind == (0x50u8, 0x4cu8, 0x54u8, 0x45u8);
            &&& pixels ==> (palette_fits_from(data, at, indexed, palette) <==> !indexed || palette
                % 3 == 0 && palette <= 768)
            &&& !pixels && ends ==> palette_fits_from(data, at, indexed, palette)
            &&& !pixels && !ends && length == 0 ==> palette_fits_from(data, at, indexed, palette)
                == palette_fits_from(data, at + 12, indexed, palette)
            &&& !pixels && !ends && length > 0 && header ==> palette_fits_from(
                data,
                at,
                indexed,
                palette,
            ) == palette_fits_from(
                data,
                at + 12 + length,
                length >= 10 && data[at + 17] == 3,
                palette,
            )
            &&& !pixels && !ends && length > 0 && colours ==> palette_fits_from(
                data,
                at,
                indexed,
                palette,
            ) == palette_fits_from(
                data,
                at + 12 + length,
                indexed,
                if palette == 0 {
                    length
                } else {
                    palette
                },
            )
            &&& !pixels && !ends && length > 0 && !header && !colours ==> palette_fits_from(
                data,
                at,
                indexed,
                palette,
            ) == palette_fits_from(data, at + 12 + length, indexed, palette)
        }),
{
    if at + 8 <= data.len() {
        crate::bytes::numbers_are_positional(data, at);
        crate::bytes::numbers_are_positional(data, at + 4);
    }
}

/// A file in which the name of the palette's chunk does not stand anywhere has none that could
/// be wrong.
pub proof fn files_without_a_palette_fit(data: Seq<u8>, at: int, indexed: bool)
    requires
        0 <= at,
        forall|i: int|
            0 <= i && i + 3 < data.len() ==> !(#[trigger] data[i] == 0x50 && data[i + 1] == 0x4c
                && data[i + 2] == 0x54 && data[i + 3] == 0x45),
    ensures
        palette_fits_from(data, at, indexed, 0),
        palette_fits(data),
{
    files_have_no_other_palette(data, at, indexed);
    files_have_no_other_palette(data, 8, false);
}

/// From any chunk on, no palette is read where its name does not stand.
proof fn files_have_no_other_palette(data: Seq<u8>, at: int, indexed: bool)
    requires
        0 <= at,
        forall|i: int|
            0 <= i && i + 3 < data.len() ==> !(#[trigger] data[i] == 0x50 && data[i + 1] == 0x4c
                && data[i + 2] == 0x54 && data[i + 3] == 0x45),
    ensures
        palette_fits_from(data, at, indexed, 0),
    decreases data.len() - at,
{
    chunks_are_read_one_by_one(data, at, indexed, 0);
    if at + 8 <= data.len() {
        let length = 0x1000000 * data[at] + 0x10000 * data[at + 1] + 0x100 * data[at + 2] + data[at
            + 3];
        assert(!(data[at + 4] == 0x50 && data[at + 5] == 0x4c && data[at + 6] == 0x54 && data[at
            + 7] == 0x45));
        if at + 12 + length <= data.len() {
            files_have_no_other_palette(data, at + 12, indexed);
            files_have_no_other_palette(data, at + 12 + length, indexed);
            files_have_no_other_palette(
                data,
                at + 12 + length,
                length >= 10 && data[at + 17] == 3,
            );
        }
    }
}

} // verus!
