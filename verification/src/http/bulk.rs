//! The bulk downloads: the binary framing of a batch of terrain chunks and
//! the body of the exploration map.
use vstd::prelude::*;
use crate::grid::TerrainChunkId;
use crate::encoding::{base64_encode, base64_standard, le_i32, le_u32, push_le_i32, push_le_u32};

verus! {

/// Body of `POST /api/terrain/chunks`: the terrain and the chunks wanted, as `[x, y]`.
pub struct TerrainChunksRequest {
    pub terrain_name: String,
    pub chunk_ids: Vec<[i32; 2]>,
}

/// Query of `GET /api/world/:name/exploration`.
pub struct ExplorationQuery {
    pub player_id: Option<u64>,
}

/// Body of the exploration map: its size in pixels and in chunks, and the
/// compressed map in standard Base64.
pub struct ExplorationResponse {
    pub width: i32,
    pub height: i32,
    pub n_chunk_x: i32,
    pub n_chunk_y: i32,
    pub data: String,
}

/// The chunks that a request asks for, in its order.
pub fn requested_chunks(req: &TerrainChunksRequest) -> (r: Vec<TerrainChunkId>)
    ensures
        r@.len() == req.chunk_ids@.len(),
        forall|i: int|
            0 <= i < r@.len() ==> (#[trigger] r@[i]).x == req.chunk_ids@[i][0] && r@[i].y
                == req.chunk_ids@[i][1],
{
    let mut r: Vec<TerrainChunkId> = Vec::new();
    let mut i: usize = 0;
    while i < req.chunk_ids.len()
        invariant
            i <= req.chunk_ids@.len(),
            r@.len() == i,
            forall|j: int|
                0 <= j < i ==> (#[trigger] r@[j]).x == req.chunk_ids@[j][0] && r@[j].y
                    == req.chunk_ids@[j][1],
        decreases req.chunk_ids@.len() - i,
    {
        let pair = req.chunk_ids[i];
        r.push(TerrainChunkId { x: pair[0], y: pair[1] });
        i = i + 1;
    }
    r
}

/// The frame of one chunk: its `x` and `y`, the length of its data (each a
/// little-endian 32-bit integer), then the data.
pub open spec fn chunk_frame(id: TerrainChunkId, data: Seq<u8>) -> Seq<u8> {
    le_i32(id.x) + le_i32(id.y) + le_u32(data.len() as u32) + data
}

/// The frames of the chunks, one after another.
pub open spec fn chunk_frames(chunks: Seq<(TerrainChunkId, Vec<u8>)>) -> Seq<u8>
    decreases chunks.len(),
{
    if chunks.len() == 0 {
        Seq::empty()
    } else {
        chunk_frames(chunks.drop_last()) + chunk_frame(chunks.last().0, chunks.last().1@)
    }
}

/// The body answering a batch of terrain chunks: the number of chunks as a
/// little-endian `u32`, then each chunk's frame. Counts and lengths are taken
/// as `u32`, as the server converts them.
pub open spec fn batch_body(chunks: Seq<(TerrainChunkId, Vec<u8>)>) -> Seq<u8> {
    le_u32(chunks.len() as u32) + chunk_frames(chunks)
}

/// Frames a batch of encoded terrain chunks into the binary body of the answer.
pub fn encode_chunk_batch(chunks: &Vec<(TerrainChunkId, Vec<u8>)>) -> (out: Vec<u8>)
    ensures
        out@ == batch_body(chunks@),
{
    let mut out: Vec<u8> = Vec::new();
    let count: u32 = chunks.len() as u32;
    push_le_u32(&mut out, count);
    let mut i: usize = 0;
    while i < chunks.len()
        invariant
            i <= chunks@.len(),
            out@ == le_u32(chunks@.len() as u32) + chunk_frames(chunks@.subrange(0, i as int)),
        decreases chunks@.len() - i,
    {
        let ghost before = out@;
        let (id, data) = (&chunks[i].0, &chunks[i].1);
        push_le_i32(&mut out, id.x);
        push_le_i32(&mut out, id.y);
        let len: u32 = data.len() as u32;
        push_le_u32(&mut out, len);
        let mut k: usize = 0;
        let ghost framed = out@;
        while k < data.len()
            invariant
                k <= data@.len(),
                out@ == framed + data@.subrange(0, k as int),
            decreases data@.len() - k,
        {
            out.push(data[k]);
            assert(out@ =~= framed + data@.subrange(0, k + 1));
            k = k + 1;
        }
        proof {
            let pre = chunks@.subrange(0, i as int);
            let post = chunks@.subrange(0, i + 1);
            assert(post.drop_last() =~= pre);
            assert(post.last() == chunks@[i as int]);
            assert(data@.subrange(0, data@.len() as int) =~= data@);
            assert(out@ =~= before + chunk_frame(*id, data@));
            assert(out@ =~= le_u32(chunks@.len() as u32) + (chunk_frames(pre) + chunk_frame(*id, data@)));
        }
        i = i + 1;
    }
    assert(chunks@.subrange(0, chunks@.len() as int) =~= chunks@);
    out
}

/// The body of the exploration map, its compressed pixels put in Base64.
pub fn exploration_response(
    width: i32,
    height: i32,
    n_chunk_x: i32,
    n_chunk_y: i32,
    compressed: &Vec<u8>,
) -> (r: ExplorationResponse)
    requires
        4 * ((compressed@.len() + 2) / 3) <= usize::MAX,
    ensures
        r.width == width,
        r.height == height,
        r.n_chunk_x == n_chunk_x,
        r.n_chunk_y == n_chunk_y,
        r.data@ == base64_standard(compressed@),
{
    ExplorationResponse { width, height, n_chunk_x, n_chunk_y, data: base64_encode(compressed) }
}

} // verus!
