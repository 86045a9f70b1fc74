//! The cache file of a pixel map: its width and height as little-endian
//! 32-bit integers, then its pixel bytes.
use vstd::prelude::*;
use crate::encoding::{le_u32, push_le_u32};

verus! {

/// The bytes of a cached map.
pub open spec fn map_file_bytes(width: u32, height: u32, pixels: Seq<u8>) -> Seq<u8> {
    le_u32(width) + le_u32(height) + pixels
}

/// The 32-bit integer of four little-endian bytes.
pub open spec fn u32_from_le(b: Seq<u8>, at: int) -> int {
    b[at] + 256 * b[at + 1] + 65536 * b[at + 2] + 16777216 * b[at + 3]
}

/// Why a cached map could not be read.
#[derive(Clone, Copy, PartialEq, Eq, Structural, Debug)]
pub enum MapFileError {
    /// The file ends before its header or its pixels do.
    UnexpectedEof,
}

/// The bytes to write for a map of `width` × `height` pixels.
pub fn save_map_bytes(width: u32, height: u32, pixels: &Vec<u8>) -> (out: Vec<u8>)
    ensures
        out@ == map_file_bytes(width, height, pixels@),
{
    let mut out: Vec<u8> = Vec::new();
    push_le_u32(&mut out, width);
    push_le_u32(&mut out, height);
    let ghost head = out@;
    let mut i: usize = 0;
    while i < pixels.len()
        invariant
            i <= pixels@.len(),
            out@ == head + pixels@.subrange(0, i as int),
        decreases pixels@.len() - i,
    {
        out.push(pixels[i]);
        assert(out@ =~= head + pixels@.subrange(0, i + 1));
        i = i + 1;
    }
    assert(pixels@.subrange(0, pixels@.len() as int) =~= pixels@);
    out
}

/// What reading a cached map gives, for pixels of `bpp` bytes: its width,
/// height and the `width * height * bpp` bytes after the header (any later
/// bytes are left unread), or an error when the file is shorter.
pub open spec fn map_file_read(b: Seq<u8>, bpp: int) -> Result<(int, int, Seq<u8>), MapFileError> {
    if b.len() < 8 {
        Err(MapFileError::UnexpectedEof)
    } else {
        let w = u32_from_le(b, 0);
        let h = u32_from_le(b, 4);
        let total = w * h * bpp;
        if b.len() < 8 + total {
            Err(MapFileError::UnexpectedEof)
        } else {
            Ok((w, h, b.subrange(8, 8 + total)))
        }
    }
}

/// Whether the size of the map that the header announces can be computed
/// without overflow, as the reader computes it.
pub open spec fn header_fits(b: Seq<u8>, bpp: int) -> bool {
    b.len() >= 8 ==> u32_from_le(b, 0) * u32_from_le(b, 4) <= u32::MAX && u32_from_le(b, 0)
        * u32_from_le(b, 4) * bpp <= usize::MAX
}

fn read_u32(b: &Vec<u8>, at: usize) -> (v: u32)
    requires
        at + 4 <= b@.len(),
    ensures
        v == u32_from_le(b@, at as int),
{
    let n = b.len();
    assert(at + 3 < n);
    let v: u32 = b[at] as u32 + 256 * (b[at + 1] as u32) + 65536 * (b[at + 2] as u32) + 16777216
        * (b[at + 3] as u32);
    v
}

/// Reads a cached map of pixels of `bpp` bytes from the file's bytes.
pub fn load_map_bytes(bytes: &Vec<u8>, bpp: usize) -> (r: Result<(u32, u32, Vec<u8>), MapFileError>)
    requires
        header_fits(bytes@, bpp as int),
    ensures
        match map_file_read(bytes@, bpp as int) {
            Err(e) => r == Err::<(u32, u32, Vec<u8>), MapFileError>(e),
            Ok((w, h, px)) => (r matches Ok((rw, rh, rpx)) && rw == w && rh == h && rpx@ == px),
        },
{
    if bytes.len() < 8 {
        return Err(MapFileError::UnexpectedEof);
    }
    let width = read_u32(bytes, 0);
    let height = read_u32(bytes, 4);
    let area: u32 = width * height;
    assert(area as int * bpp <= usize::MAX);
    let total: usize = area as usize * bpp;
    if bytes.len() - 8 < total {
        return Err(MapFileError::UnexpectedEof);
    }
    let n = bytes.len();
    let mut pixels: Vec<u8> = Vec::new();
    let mut i: usize = 0;
    while i < total
        invariant
            n == bytes@.len(),
            i <= total,
            8 + total <= bytes@.len(),
            pixels@ == bytes@.subrange(8, 8 + i),
        decreases total - i,
    {
        pixels.push(bytes[8 + i]);
        assert(pixels@ =~= bytes@.subrange(8, 8 + i + 1));
        i = i + 1;
    }
    Ok((width, height, pixels))
}

/// A map written to its cache file reads back the same.
pub proof fn law_map_file_round_trip(width: u32, height: u32, pixels: Seq<u8>, bpp: int)
    requires
        bpp >= 0,
        pixels.len() == width * height * bpp,
    ensures
        map_file_read(map_file_bytes(width, height, pixels), bpp) == Ok::<
            (int, int, Seq<u8>),
            MapFileError,
        >((width as int, height as int, pixels)),
{
    let b = map_file_bytes(width, height, pixels);
    assert(u32_from_le(b, 0) == width) by {
        assert(b[0] == (width % 256) as u8);
        assert(b[1] == ((width / 256) % 256) as u8);
        assert(b[2] == ((width / 65536) % 256) as u8);
        assert(b[3] == (width / 16777216) as u8);
    }
    assert(u32_from_le(b, 4) == height) by {
        assert(b[4] == (height % 256) as u8);
        assert(b[5] == ((height / 256) % 256) as u8);
        assert(b[6] == ((height / 65536) % 256) as u8);
        assert(b[7] == (height / 16777216) as u8);
    }
    assert(b.subrange(8, 8 + pixels.len() as int) =~= pixels);
}

} // verus!
