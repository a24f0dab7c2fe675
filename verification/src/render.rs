//! The sprite and glyph renderer: text and map regions resolved to blits.

use vstd::prelude::*;
use vstd::arithmetic::div_mod::lemma_fundamental_div_mod_converse;
use crate::draw::{
    cell_screen, cell_target, screen, sprite_blit, sprite_cell, DrawCommand, Rect, Sheet, CELL,
};
use crate::font::{FontAtlas, FontEntry};
use crate::tilemap::{in_bounds, tile_at, TileMap};

verus! {

/// The blit that draws a glyph into the cell at world position `(x, y)`,
/// seen through a camera at `(cam_x, cam_y)`.
pub open spec fn glyph_blit(entry: FontEntry, x: int, y: int, cam_x: int, cam_y: int) -> DrawCommand {
    DrawCommand::Blit {
        sheet: Sheet::Font,
        src: entry.spec_source(),
        dst: cell_target(x, y, cam_x, cam_y),
        flip_x: false,
        flip_y: false,
    }
}

/// The blits that print the first `n` characters of `text` from `(x, y)`.
///
/// Character `k` owns the cell that starts at `x + 8 * k`. It is drawn there
/// if the font has a glyph for it and is left out if not; either way the
/// next character owns the next cell.
pub open spec fn text_blits(
    font: Map<char, FontEntry>,
    text: Seq<char>,
    n: int,
    x: int,
    y: int,
    cam_x: int,
    cam_y: int,
) -> Seq<DrawCommand>
    decreases n,
{
    if n <= 0 {
        Seq::empty()
    } else {
        let before = text_blits(font, text, n - 1, x, y, cam_x, cam_y);
        let c = text[n - 1];
        if font.contains_key(c) {
            before.push(glyph_blit(font[c], x + 8 * (n - 1), y, cam_x, cam_y))
        } else {
            before
        }
    }
}

/// How many of the first `n` characters of `text` have a glyph.
pub open spec fn glyphs_before(font: Map<char, FontEntry>, text: Seq<char>, n: int) -> int
    decreases n,
{
    if n <= 0 {
        0
    } else if font.contains_key(text[n - 1]) {
        glyphs_before(font, text, n - 1) + 1
    } else {
        glyphs_before(font, text, n - 1)
    }
}

/// Appends to `queue` the blits that print `text` from world position
/// `(x, y)`, seen through a camera at `(cam_x, cam_y)`.
pub fn render_text(
    queue: &mut Vec<DrawCommand>,
    font: &FontAtlas,
    text: &str,
    x: i32,
    y: i32,
    cam_x: i32,
    cam_y: i32,
)
    ensures
        final(queue)@ == old(queue)@ + text_blits(
            font@,
            text@,
            text@.len() as int,
            x as int,
            y as int,
            cam_x as int,
            cam_y as int,
        ),
{
    // The length bounds the character index below, which is counted in a `usize`.
    let total: usize = text.unicode_len();
    let top: i32 = cell_screen(y, 0, cam_y);
    let mut k: usize = 0;
    for c in it: text.chars()
        invariant
            k == it.index(),
            total == text@.len(),
            it.seq() == text@,
            top == screen(y as int, cam_y as int),
            queue@ == old(queue)@ + text_blits(
                font@,
                text@,
                k as int,
                x as int,
                y as int,
                cam_x as int,
                cam_y as int,
            ),
    {
        match font.get(c) {
            Some(entry) => {
                let left: i32 = cell_screen(x, k, cam_x);
                queue.push(
                    DrawCommand::Blit {
                        sheet: Sheet::Font,
                        src: entry.source(),
                        dst: Rect { x: left, y: top, w: CELL, h: CELL },
                        flip_x: false,
                        flip_y: false,
                    },
                );
            },
            None => {},
        }
        k = k + 1;
    }
}

/// The rank of character `k` among the blits of a text is the number of
/// glyphs found before it, and the cell it is drawn into starts at
/// `x + 8 * k`, however many of the characters before it had no glyph.
pub proof fn lemma_text_cursor(
    font: Map<char, FontEntry>,
    text: Seq<char>,
    x: int,
    y: int,
    cam_x: int,
    cam_y: int,
    k: int,
)
    requires
        0 <= k < text.len(),
        font.contains_key(text[k]),
    ensures
        0 <= glyphs_before(font, text, k) < text_blits(
            font,
            text,
            text.len() as int,
            x,
            y,
            cam_x,
            cam_y,
        ).len(),
        text_blits(font, text, text.len() as int, x, y, cam_x, cam_y)[glyphs_before(font, text, k)]
            == glyph_blit(font[text[k]], x + 8 * k, y, cam_x, cam_y),
{
    lemma_text_prefix(font, text, text.len() as int, x, y, cam_x, cam_y, k);
}

/// A text gives one blit for each character that has a glyph, and none for
/// the others.
pub proof fn lemma_text_count(
    font: Map<char, FontEntry>,
    text: Seq<char>,
    n: int,
    x: int,
    y: int,
    cam_x: int,
    cam_y: int,
)
    ensures
        text_blits(font, text, n, x, y, cam_x, cam_y).len() == glyphs_before(font, text, n),
        0 <= glyphs_before(font, text, n),
        n >= 0 ==> glyphs_before(font, text, n) <= n,
    decreases n,
{
    if n > 0 {
        lemma_text_count(font, text, n - 1, x, y, cam_x, cam_y);
    }
}

/// A character without a glyph adds nothing to the blits of the characters
/// before it.
pub proof fn lemma_text_skip(
    font: Map<char, FontEntry>,
    text: Seq<char>,
    x: int,
    y: int,
    cam_x: int,
    cam_y: int,
    k: int,
)
    requires
        0 <= k < text.len(),
        !font.contains_key(text[k]),
    ensures
        text_blits(font, text, k + 1, x, y, cam_x, cam_y) == text_blits(
            font,
            text,
            k,
            x,
            y,
            cam_x,
            cam_y,
        ),
{
}

proof fn lemma_text_prefix(
    font: Map<char, FontEntry>,
    text: Seq<char>,
    n: int,
    x: int,
    y: int,
    cam_x: int,
    cam_y: int,
    k: int,
)
    requires
        0 <= k < n,
        font.contains_key(text[k]),
    ensures
        0 <= glyphs_before(font, text, k) < text_blits(font, text, n, x, y, cam_x, cam_y).len(),
        text_blits(font, text, n, x, y, cam_x, cam_y)[glyphs_before(font, text, k)] == glyph_blit(
            font[text[k]],
            x + 8 * k,
            y,
            cam_x,
            cam_y,
        ),
    decreases n,
{
    lemma_text_count(font, text, k, x, y, cam_x, cam_y);
    lemma_text_count(font, text, n - 1, x, y, cam_x, cam_y);
    if k < n - 1 {
        lemma_text_prefix(font, text, n - 1, x, y, cam_x, cam_y, k);
    }
}

/// How many of the `count` cells that start at `start` along one axis lie
/// on the map.
pub open spec fn visible_cells(start: int, count: int) -> int {
    if count <= 0 || start >= 256 {
        0
    } else if start + count <= 256 {
        count
    } else {
        256 - start
    }
}

/// The blit that draws the tile of map cell `(celx + ix, cely + iy)` into
/// the cell `ix` columns and `iy` rows after world position `(sx, sy)`.
pub open spec fn region_cell_blit(
    cells: Seq<u8>,
    celx: int,
    cely: int,
    sx: int,
    sy: int,
    cam_x: int,
    cam_y: int,
    ix: int,
    iy: int,
) -> DrawCommand {
    sprite_blit(
        tile_at(cells, celx + ix, cely + iy),
        sx + 8 * ix,
        sy + 8 * iy,
        cam_x,
        cam_y,
        false,
        false,
    )
}

/// The blits that draw the region of `celw` by `celh` cells whose first cell
/// is `(celx, cely)`: one for each cell of the region that lies on the map,
/// column by column, and within a column from the top down. Cells of the
/// region that lie off the map give no blit. [`lemma_region_count`] gives
/// the number of blits, [`lemma_region_clips`] the cell of each.
pub open spec fn region_blits(
    cells: Seq<u8>,
    celx: int,
    cely: int,
    sx: int,
    sy: int,
    celw: int,
    celh: int,
    cam_x: int,
    cam_y: int,
) -> Seq<DrawCommand> {
    let nx = visible_cells(celx, celw);
    let ny = visible_cells(cely, celh);
    Seq::new(
        (nx * ny) as nat,
        |k: int| region_cell_blit(cells, celx, cely, sx, sy, cam_x, cam_y, k / ny, k % ny),
    )
}

/// Number of the `count` cells from `start` on that lie on the map.
pub fn visible(start: u32, count: u32) -> (n: u32)
    ensures
        n == visible_cells(start as int, count as int),
{
    if start >= 256 {
        0
    } else if count <= 256 - start {
        count
    } else {
        256 - start
    }
}

/// Appends to `queue` the blits that draw a region of the map at world
/// position `(sx, sy)`, seen through a camera at `(cam_x, cam_y)`.
pub fn render_region(
    queue: &mut Vec<DrawCommand>,
    map: &TileMap,
    celx: u32,
    cely: u32,
    sx: i32,
    sy: i32,
    celw: u32,
    celh: u32,
    layer: u8,
    cam_x: i32,
    cam_y: i32,
)
    ensures
        final(queue)@ == old(queue)@ + region_blits(
            map@,
            celx as int,
            cely as int,
            sx as int,
            sy as int,
            celw as int,
            celh as int,
            cam_x as int,
            cam_y as int,
        ),
{
    let nx: u32 = visible(celx, celw);
    let ny: u32 = visible(cely, celh);
    let ghost full = region_blits(
        map@,
        celx as int,
        cely as int,
        sx as int,
        sy as int,
        celw as int,
        celh as int,
        cam_x as int,
        cam_y as int,
    );
    assert(queue@ =~= old(queue)@ + full.take(0));
    let mut ix: u32 = 0;
    while ix < nx
        invariant
            ix <= nx,
            nx == visible_cells(celx as int, celw as int),
            ny == visible_cells(cely as int, celh as int),
            full == region_blits(
                map@,
                celx as int,
                cely as int,
                sx as int,
                sy as int,
                celw as int,
                celh as int,
                cam_x as int,
                cam_y as int,
            ),
            ix * ny <= full.len(),
            queue@ == old(queue)@ + full.take(ix * ny),
        decreases nx - ix,
    {
        let left: i32 = cell_screen(sx, ix as usize, cam_x);
        let mut iy: u32 = 0;
        while iy < ny
            invariant
                ix < nx,
                iy <= ny,
                nx == visible_cells(celx as int, celw as int),
                ny == visible_cells(cely as int, celh as int),
                full == region_blits(
                    map@,
                    celx as int,
                    cely as int,
                    sx as int,
                    sy as int,
                    celw as int,
                    celh as int,
                    cam_x as int,
                    cam_y as int,
                ),
                left == screen(sx + 8 * ix, cam_x as int),
                ix * ny + iy <= full.len(),
                queue@ == old(queue)@ + full.take(ix * ny + iy),
            decreases ny - iy,
        {
            let ghost m: int = ix * ny + iy;
            proof {
                lemma_region_index(nx as int, ny as int, ix as int, iy as int);
            }
            let tile: u8 = map.get(celx + ix, cely + iy, layer);
            let top: i32 = cell_screen(sy, iy as usize, cam_y);
            queue.push(
                DrawCommand::Blit {
                    sheet: Sheet::Sprites,
                    src: sprite_cell(tile),
                    dst: Rect { x: left, y: top, w: CELL, h: CELL },
                    flip_x: false,
                    flip_y: false,
                },
            );
            iy = iy + 1;
            assert(queue@ =~= old(queue)@ + full.take(m + 1));
        }
        ix = ix + 1;
        assert(ix * ny == (ix - 1) * ny + ny) by (nonlinear_arith);
    }
    assert(ix * ny == nx * ny);
    assert(full.take(full.len() as int) =~= full);
}

/// Cell `(ix, iy)` of a region with `ny` visible rows stands at position
/// `ix * ny + iy` among the region's blits.
proof fn lemma_region_index(nx: int, ny: int, ix: int, iy: int)
    requires
        0 <= ix < nx,
        0 <= iy < ny,
    ensures
        0 <= ix * ny + iy < nx * ny,
        (ix * ny + iy) / ny == ix,
        (ix * ny + iy) % ny == iy,
{
    assert(0 <= ix * ny) by (nonlinear_arith)
        requires
            0 <= ix,
            0 <= ny,
    ;
    assert((ix + 1) * ny <= nx * ny) by (nonlinear_arith)
        requires
            ix + 1 <= nx,
            0 <= ny,
    ;
    assert((ix + 1) * ny == ix * ny + ny) by (nonlinear_arith);
    lemma_fundamental_div_mod_converse(ix * ny + iy, ny, ix, iy);
}

/// A region that reaches past the edge of the map draws its cells that lie
/// on the map, each once, and no others: blit `k` belongs to a cell of the
/// region that is on the map, and every such cell has its blit.
pub proof fn lemma_region_clips(
    cells: Seq<u8>,
    celx: int,
    cely: int,
    sx: int,
    sy: int,
    celw: int,
    celh: int,
    cam_x: int,
    cam_y: int,
)
    requires
        0 <= celx,
        0 <= cely,
        0 <= celw,
        0 <= celh,
    ensures
        forall|k: int|
            0 <= k < region_blits(cells, celx, cely, sx, sy, celw, celh, cam_x, cam_y).len() ==> {
                let ny = visible_cells(cely, celh);
                &&& 0 <= k / ny < celw
                &&& 0 <= k % ny < celh
                &&& in_bounds(celx + k / ny, cely + k % ny)
                &&& #[trigger] region_blits(cells, celx, cely, sx, sy, celw, celh, cam_x, cam_y)[k]
                    == region_cell_blit(cells, celx, cely, sx, sy, cam_x, cam_y, k / ny, k % ny)
            },
        forall|ix: int, iy: int|
            0 <= ix < celw && 0 <= iy < celh && in_bounds(celx + ix, cely + iy) ==> {
                let ny = visible_cells(cely, celh);
                &&& 0 <= ix * ny + iy < region_blits(
                    cells,
                    celx,
                    cely,
                    sx,
                    sy,
                    celw,
                    celh,
                    cam_x,
                    cam_y,
                ).len()
                &&& region_blits(cells, celx, cely, sx, sy, celw, celh, cam_x, cam_y)[ix * ny + iy]
                    == #[trigger] region_cell_blit(cells, celx, cely, sx, sy, cam_x, cam_y, ix, iy)
            },
{
    let nx = visible_cells(celx, celw);
    let ny = visible_cells(cely, celh);
    let full = region_blits(cells, celx, cely, sx, sy, celw, celh, cam_x, cam_y);
    assert forall|k: int| 0 <= k < full.len() implies {
        &&& 0 <= k / ny < celw
        &&& 0 <= k % ny < celh
        &&& in_bounds(celx + k / ny, cely + k % ny)
        &&& #[trigger] full[k] == region_cell_blit(
            cells,
            celx,
            cely,
            sx,
            sy,
            cam_x,
            cam_y,
            k / ny,
            k % ny,
        )
    } by {
        lemma_region_cell_of(nx, ny, k);
    }
    assert forall|ix: int, iy: int|
        0 <= ix < celw && 0 <= iy < celh && in_bounds(celx + ix, cely + iy) implies {
        &&& 0 <= ix * ny + iy < full.len()
        &&& full[ix * ny + iy] == #[trigger] region_cell_blit(
            cells,
            celx,
            cely,
            sx,
            sy,
            cam_x,
            cam_y,
            ix,
            iy,
        )
    } by {
        lemma_region_index(nx, ny, ix, iy);
    }
}

/// A region gives one blit for each of its columns on the map times each of
/// its rows on the map.
pub proof fn lemma_region_count(
    cells: Seq<u8>,
    celx: int,
    cely: int,
    sx: int,
    sy: int,
    celw: int,
    celh: int,
    cam_x: int,
    cam_y: int,
    nx: int,
    ny: int,
)
    requires
        nx == visible_cells(celx, celw),
        ny == visible_cells(cely, celh),
    ensures
        region_blits(cells, celx, cely, sx, sy, celw, celh, cam_x, cam_y).len() == nx * ny,
        0 <= nx * ny,
{
    assert(0 <= nx * ny) by (nonlinear_arith)
        requires
            0 <= nx,
            0 <= ny,
    ;
}

/// Position `k` among the blits of a region of `nx` by `ny` visible cells
/// belongs to column `k / ny` and row `k % ny`, both within the region.
proof fn lemma_region_cell_of(nx: int, ny: int, k: int)
    requires
        0 <= nx,
        0 <= ny,
        0 <= k < nx * ny,
    ensures
        0 <= k / ny < nx,
        0 <= k % ny < ny,
{
    assert(ny > 0) by (nonlinear_arith)
        requires
            0 <= nx,
            0 <= ny,
            0 < nx * ny,
    ;
    vstd::arithmetic::div_mod::lemma_fundamental_div_mod(k, ny);
    vstd::arithmetic::div_mod::lemma_mod_bound(k, ny);
    let q = k / ny;
    let r = k % ny;
    assert(k == ny * q + r);
    assert(q >= 0) by (nonlinear_arith)
        requires
            k == ny * q + r,
            0 <= r < ny,
            k >= 0,
    ;
    assert(q < nx) by (nonlinear_arith)
        requires
            k == ny * q + r,
            0 <= r < ny,
            k < nx * ny,
            0 <= nx,
    ;
}

} // verus!
