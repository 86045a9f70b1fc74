use std::collections::HashSet;
use landz_server::grid::{GridCell, TerrainChunkId};
use landz_server::http::bulk::{encode_chunk_batch, exploration_response, requested_chunks, TerrainChunksRequest};
use landz_server::maps::{dilate_binary_map, erode_binary_map, mask_luma_map, open_binary_map, LumaMap};
use landz_server::road::chain::{
    choose_road_extension, extended_path, find_linear_chain_segment, merge_segment_paths,
    merged_importance, other_end, reversed_path, road_cell_path, turn_for_chain, PathSegment,
};
use landz_server::road::chunk_roads::ChunkRoads;

fn c(q: i32, r: i32) -> GridCell {
    GridCell { q, r }
}

fn seg(id: i64, path: Vec<GridCell>) -> PathSegment {
    let start = path.first().copied().unwrap_or(c(0, 0));
    let end = path.last().copied().unwrap_or(c(0, 0));
    PathSegment { id, start_cell: start, end_cell: end, cell_path: path, importance: 1 }
}

#[test]
fn chunk_batch_framing() {
    let body = encode_chunk_batch(&vec![(TerrainChunkId { x: 1, y: -1 }, vec![9, 8])]);
    assert_eq!(
        body,
        vec![1, 0, 0, 0, 1, 0, 0, 0, 0xff, 0xff, 0xff, 0xff, 2, 0, 0, 0, 9, 8]
    );
    assert_eq!(encode_chunk_batch(&vec![]), vec![0, 0, 0, 0]);
}

#[test]
fn chunks_requested() {
    let req = TerrainChunksRequest { terrain_name: "t".to_string(), chunk_ids: vec![[1, 2], [-3, 4]] };
    let ids = requested_chunks(&req);
    assert_eq!(ids, vec![TerrainChunkId { x: 1, y: 2 }, TerrainChunkId { x: -3, y: 4 }]);
}

#[test]
fn exploration_body_is_base64() {
    let r = exploration_response(10, 20, 2, 3, &vec![1, 2, 3]);
    assert_eq!(r.data, "AQID");
    assert_eq!((r.width, r.height, r.n_chunk_x, r.n_chunk_y), (10, 20, 2, 3));
}

#[test]
fn merge_paths_drops_shared_cells() {
    let a = seg(1, vec![c(0, 0), c(1, 0)]);
    let b = seg(2, vec![c(1, 0), c(2, 0), c(3, 0)]);
    let m = merge_segment_paths(&vec![a, b]);
    assert_eq!(m, vec![c(0, 0), c(1, 0), c(2, 0), c(3, 0)]);
    assert_eq!(merge_segment_paths(&vec![]), vec![]);
}

#[test]
fn chain_steps() {
    let mut visited = HashSet::new();
    visited.insert(1i64);
    assert_eq!(find_linear_chain_segment(&vec![1, 5], &visited), Some(5));
    assert_eq!(find_linear_chain_segment(&vec![5, 6], &visited), None);
    assert_eq!(find_linear_chain_segment(&vec![1], &visited), None);
    assert_eq!(other_end(c(0, 0), c(2, 0), c(0, 0)), c(2, 0));
    assert_eq!(other_end(c(0, 0), c(2, 0), c(2, 0)), c(0, 0));
    assert!(turn_for_chain(c(0, 0), c(2, 0), c(2, 0), true));
    assert!(turn_for_chain(c(0, 0), c(2, 0), c(2, 0), false));
    assert!(!turn_for_chain(c(0, 0), c(2, 0), c(0, 0), false));
    assert_eq!(merged_importance(&vec![1, 4, 2]), 4);
    assert_eq!(merged_importance(&vec![]), 1);
    assert_eq!(reversed_path(&vec![c(0, 0), c(1, 0)]), vec![c(1, 0), c(0, 0)]);
}

#[test]
fn road_extension_choice() {
    let segs = vec![
        seg(1, vec![c(1, 0), c(2, 0)]),
        seg(2, vec![c(5, 5), c(6, 5), c(7, 5), c(0, 1)]),
        seg(3, vec![c(9, 9), c(-1, 1), c(9, 8)]),
    ];
    let neighbours = vec![c(1, 0), c(0, 1), c(-1, 1)];
    assert_eq!(choose_road_extension(c(0, 0), &neighbours, &segs), Ok(Some((1, false))));
    let only_middle = vec![seg(3, vec![c(9, 9), c(-1, 1), c(9, 8)])];
    assert_eq!(
        choose_road_extension(c(0, 0), &neighbours, &only_middle),
        Err("Cannot build road here: cell (0,0) is adjacent to middle of existing road. Use intersection action instead.".to_string())
    );
    assert_eq!(choose_road_extension(c(0, 0), &neighbours, &vec![]), Ok(None));
    let (p, s, e) = extended_path(&segs[0], c(0, 0), true);
    assert_eq!((p, s, e), (vec![c(0, 0), c(1, 0), c(2, 0)], c(0, 0), c(2, 0)));
    let (p, s, e) = extended_path(&segs[0], c(3, 0), false);
    assert_eq!((p, s, e), (vec![c(1, 0), c(2, 0), c(3, 0)], c(1, 0), c(3, 0)));
}

#[test]
fn new_road_paths() {
    assert_eq!(road_cell_path(c(0, 0), c(0, 0), false, None), Ok(vec![c(0, 0)]));
    assert_eq!(road_cell_path(c(0, 0), c(1, 0), true, None), Ok(vec![c(0, 0), c(1, 0)]));
    assert_eq!(
        road_cell_path(c(0, 0), c(5, 0), false, Some(vec![c(0, 0), c(5, 0)])),
        Ok(vec![c(0, 0), c(5, 0)])
    );
    assert_eq!(
        road_cell_path(c(0, 0), c(5, -2), false, None),
        Err("No path found from (0,0) to (5,-2)".to_string())
    );
}

#[test]
fn chunk_roads_add_and_remove() {
    let mut r = ChunkRoads::new();
    assert!(!r.has_roads());
    r.add_segment(seg(1, vec![c(0, 0)]));
    r.add_segment(seg(2, vec![c(1, 0)]));
    r.dirty = false;
    assert!(!r.remove_segment(9));
    assert!(!r.dirty);
    assert!(r.remove_segment(1));
    assert!(r.dirty);
    assert_eq!(r.segments.len(), 1);
    assert_eq!(r.segments[0].id, 2);
}

fn map(w: u32, h: u32, px: Vec<u8>) -> LumaMap {
    LumaMap { width: w, height: h, pixels: px }
}

#[test]
fn erosion_keeps_only_deep_white() {
    let m = map(3, 3, vec![255; 9]);
    let e = erode_binary_map(&m, 1);
    assert_eq!(e.pixels, vec![0, 0, 0, 0, 255, 0, 0, 0, 0]);
    let e = erode_binary_map(&m, 0);
    assert_eq!(e.pixels, vec![255; 9]);
}

#[test]
fn dilation_spreads_white() {
    let mut px = vec![0; 25];
    px[12] = 255;
    px[0] = 40;
    let d = dilate_binary_map(&map(5, 5, px), 1);
    let mut expected = vec![0; 25];
    expected[0] = 40;
    for y in 1..4 {
        for x in 1..4 {
            expected[y * 5 + x] = 255;
        }
    }
    assert_eq!(d.pixels, expected);
    let o = open_binary_map(&map(3, 3, vec![255; 9]), 1);
    assert_eq!(o.pixels, vec![255; 9]);
}

#[test]
fn masking_blacks_out_uncovered_pixels() {
    let mut src = map(3, 1, vec![7, 8, 9]);
    let mask = map(2, 1, vec![31, 30]);
    mask_luma_map(&mut src, &mask);
    assert_eq!(src.pixels, vec![7, 0, 9]);
}

use landz_server::exploration::zones::{zones_in_radius, ZoneSeed};
use landz_server::territory::next_exterior_edge;

#[test]
fn zones_within_radius() {
    let seeds = vec![
        ZoneSeed { cell_q: 0, cell_r: 0, zone_id: 1 },
        ZoneSeed { cell_q: 3, cell_r: 0, zone_id: 2 },
        ZoneSeed { cell_q: 1, cell_r: 1, zone_id: 3 },
    ];
    assert_eq!(zones_in_radius(&c(0, 0), 2, &seeds), vec![1, 3]);
    assert_eq!(zones_in_radius(&c(0, 0), -1, &seeds), Vec::<i64>::new());
}

const DIRS: [GridCell; 6] = [
    GridCell { q: 1, r: 0 },
    GridCell { q: 1, r: -1 },
    GridCell { q: 0, r: -1 },
    GridCell { q: -1, r: 0 },
    GridCell { q: -1, r: 1 },
    GridCell { q: 0, r: 1 },
];

#[test]
fn border_walk_turns_clockwise() {
    assert_eq!(next_exterior_edge(c(0, 0), 0, &vec![c(0, 0)], &DIRS), (c(0, 0), 5));
    assert_eq!(next_exterior_edge(c(0, 0), 0, &vec![c(0, 0), c(0, 1)], &DIRS), (c(0, 1), 1));
}

use landz_server::map_file::{load_map_bytes, save_map_bytes, MapFileError};

#[test]
fn map_cache_round_trip() {
    let bytes = save_map_bytes(2, 1, &vec![7, 9]);
    assert_eq!(bytes, vec![2, 0, 0, 0, 1, 0, 0, 0, 7, 9]);
    assert_eq!(load_map_bytes(&bytes, 1), Ok((2, 1, vec![7, 9])));
    let mut longer = bytes.clone();
    longer.push(5);
    assert_eq!(load_map_bytes(&longer, 1), Ok((2, 1, vec![7, 9])));
    assert_eq!(load_map_bytes(&bytes[..9].to_vec(), 1), Err(MapFileError::UnexpectedEof));
    assert_eq!(load_map_bytes(&vec![1, 0, 0], 1), Err(MapFileError::UnexpectedEof));
    assert_eq!(load_map_bytes(&bytes, 2), Err(MapFileError::UnexpectedEof));
}

use landz_server::exploration::patch::compute_patch_bounds;

#[test]
fn patch_bounds_cover_seeds_with_margin() {
    // 4 x 2 chunks: 128 x 64 texels; margin 5 + cell radius 10.
    assert_eq!(compute_patch_bounds(&vec![(40, 30), (60, 20)], 4, 2, 5), (25, 5, 51, 41));
    assert_eq!(compute_patch_bounds(&vec![(2, 60)], 4, 2, 5), (0, 45, 18, 19));
    assert_eq!(compute_patch_bounds(&vec![], 4, 2, 5), (113, 49, -97, -33));
}
