//! The tile map store: a 256 by 256 grid of tile indices.
//!
//! Every layer names the same grid. The layer argument of [`TileMap::set`]
//! and [`TileMap::get`] is accepted and has no effect on which cell is
//! written or read.

use vstd::prelude::*;

verus! {

/// Number of cells along each axis of the map.
pub const MAP_SIZE: u32 = 256;

/// Number of cells in the map.
pub const MAP_CELLS: usize = 65536;

/// Whether `(x, y)` names a cell of the map.
pub open spec fn in_bounds(x: int, y: int) -> bool {
    0 <= x < 256 && 0 <= y < 256
}

/// Position of cell `(x, y)` in the row-major grid.
pub open spec fn cell_index(x: int, y: int) -> int {
    x + y * 256
}

/// Whether `cells` has the shape of a map grid.
pub open spec fn is_grid(cells: Seq<u8>) -> bool {
    cells.len() == 65536
}

/// The tile at cell `(x, y)` of a grid.
pub open spec fn tile_at(cells: Seq<u8>, x: int, y: int) -> u8 {
    cells[cell_index(x, y)]
}

/// The grid that differs from `cells` only in holding `tile` at `(x, y)`.
pub open spec fn with_tile(cells: Seq<u8>, x: int, y: int, tile: u8) -> Seq<u8> {
    cells.update(cell_index(x, y), tile)
}

/// The grid of a fresh map: tile 0 in every cell.
pub open spec fn blank_grid() -> Seq<u8> {
    Seq::new(65536, |i: int| 0u8)
}

/// A 256 by 256 grid of tile indices.
pub struct TileMap {
    cells: [u8; 65536],
}

impl View for TileMap {
    type V = Seq<u8>;

    /// The grid in row-major order.
    closed spec fn view(&self) -> Seq<u8> {
        self.cells@
    }
}

impl TileMap {
    /// A map with tile 0 in every cell.
    pub fn new() -> (map: TileMap)
        ensures
            map@ == blank_grid(),
    {
        let map = TileMap { cells: [0u8; 65536] };
        assert(map@ =~= blank_grid());
        map
    }

    /// Writes `tile` at cell `(x, y)`. Every other cell keeps its tile.
    #[allow(unused_variables)]
    pub fn set(&mut self, x: u32, y: u32, layer: u8, tile: u8)
        requires
            x < 256,
            y < 256,
        ensures
            final(self)@ == with_tile(old(self)@, x as int, y as int, tile),
    {
        let i: usize = x as usize + (y as usize) * 256;
        self.cells[i] = tile;
        assert(self@ =~= with_tile(old(self)@, x as int, y as int, tile));
    }

    /// Reads the tile at cell `(x, y)`.
    #[allow(unused_variables)]
    pub fn get(&self, x: u32, y: u32, layer: u8) -> (tile: u8)
        requires
            x < 256,
            y < 256,
        ensures
            tile == tile_at(self@, x as int, y as int),
    {
        let i: usize = x as usize + (y as usize) * 256;
        self.cells[i]
    }

    /// The view of a map always has the shape of a grid.
    pub proof fn lemma_is_grid(&self)
        ensures
            is_grid(self@),
    {
    }
}

/// Reading a cell right after writing it gives back the tile written,
/// whatever the tile and whichever layers the two calls name.
pub proof fn lemma_get_after_set(cells: Seq<u8>, x: int, y: int, tile: u8)
    requires
        is_grid(cells),
        in_bounds(x, y),
    ensures
        tile_at(with_tile(cells, x, y, tile), x, y) == tile,
        is_grid(with_tile(cells, x, y, tile)),
{
}

/// Writing a cell changes no other cell.
pub proof fn lemma_set_keeps_others(cells: Seq<u8>, x: int, y: int, tile: u8, ox: int, oy: int)
    requires
        is_grid(cells),
        in_bounds(x, y),
        in_bounds(ox, oy),
        ox != x || oy != y,
    ensures
        tile_at(with_tile(cells, x, y, tile), ox, oy) == tile_at(cells, ox, oy),
{
}

/// A cell that was never written holds tile 0.
pub proof fn lemma_blank_is_zero(x: int, y: int)
    requires
        in_bounds(x, y),
    ensures
        tile_at(blank_grid(), x, y) == 0,
        is_grid(blank_grid()),
{
}

} // verus!
