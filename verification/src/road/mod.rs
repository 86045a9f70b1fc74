//! Roads as chains of hex cells: how a new road's path is chosen, how a road
//! grows by one cell, how connected segments merge into one, and the roads
//! kept per chunk.
pub mod chain;
pub mod chunk_roads;
pub mod merge;
