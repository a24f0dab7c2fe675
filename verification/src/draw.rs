//! Screen geometry and the drawing commands the console resolves its calls to.
//!
//! Positions are whole pixels. A world position becomes a screen position by
//! subtracting the camera origin; a difference that does not fit a screen
//! coordinate saturates at the nearest bound.

use vstd::prelude::*;
use crate::palette::Rgb;

verus! {

/// Edge of a cell in pixels: sprites, glyph slots and map tiles are all
/// `CELL` by `CELL`.
pub const CELL: u32 = 8;

/// Number of cells in one row of the sprite sheet.
pub const SHEET_COLUMNS: u8 = 16;

/// A rectangle: top-left corner, width and height, in pixels.
#[derive(Clone, Copy, Debug, PartialEq, Eq)]
pub struct Rect {
    pub x: i32,
    pub y: i32,
    pub w: u32,
    pub h: u32,
}

/// The texture a blit reads from.
#[derive(Clone, Copy, Debug, PartialEq, Eq)]
pub enum Sheet {
    Sprites,
    Font,
}

/// One operation on the frame buffer, in screen coordinates.
#[derive(Clone, Copy, Debug, PartialEq, Eq)]
pub enum DrawCommand {
    /// Fill the whole frame buffer.
    Clear { color: Rgb },
    /// Stroke the outline of a rectangle.
    Outline { rect: Rect, color: Rgb },
    /// Copy `src` of a sheet onto `dst`, mirrored as the flags say.
    Blit { sheet: Sheet, src: Rect, dst: Rect, flip_x: bool, flip_y: bool },
}

/// The screen coordinate of a world coordinate seen through a camera:
/// `world - camera`, saturated to the range of a screen coordinate.
pub open spec fn screen(world: int, camera: int) -> i32 {
    let d = world - camera;
    if d < i32::MIN {
        i32::MIN
    } else if d > i32::MAX {
        i32::MAX
    } else {
        d as i32
    }
}

/// Where the distance from the camera fits a screen coordinate, the screen
/// coordinate is that distance; the camera's own position is drawn at the
/// origin of the screen.
pub proof fn lemma_screen_exact(world: int, camera: int)
    requires
        i32::MIN <= world - camera <= i32::MAX,
    ensures
        screen(world, camera) == world - camera,
        screen(camera, camera) == 0,
{
}

/// The length of the span from `from` to `to`: `to - from`, or 0 when `to`
/// lies before `from`, saturated to the range of a length.
pub open spec fn extent(from: int, to: int) -> u32 {
    let d = to - from;
    if d < 0 {
        0
    } else if d > u32::MAX {
        u32::MAX
    } else {
        d as u32
    }
}

/// The cell of the sprite sheet that holds sprite `n`: column `n mod 16`,
/// row `n div 16`, in pixels.
pub open spec fn sprite_source(n: u8) -> Rect {
    Rect {
        x: ((n as int % 16) * 8) as i32,
        y: ((n as int / 16) * 8) as i32,
        w: 8,
        h: 8,
    }
}

/// A cell-sized destination whose top-left corner is the world position
/// `(x, y)` seen through the camera at `(cam_x, cam_y)`.
pub open spec fn cell_target(x: int, y: int, cam_x: int, cam_y: int) -> Rect {
    Rect { x: screen(x, cam_x), y: screen(y, cam_y), w: 8, h: 8 }
}

/// The blit that draws sprite `n` at world position `(x, y)`.
pub open spec fn sprite_blit(
    n: u8,
    x: int,
    y: int,
    cam_x: int,
    cam_y: int,
    flip_x: bool,
    flip_y: bool,
) -> DrawCommand {
    DrawCommand::Blit {
        sheet: Sheet::Sprites,
        src: sprite_source(n),
        dst: cell_target(x, y, cam_x, cam_y),
        flip_x,
        flip_y,
    }
}

/// The outline of the rectangle with corners `(x0, y0)` and `(x1, y1)` in
/// world coordinates.
pub open spec fn outline(
    x0: int,
    y0: int,
    x1: int,
    y1: int,
    cam_x: int,
    cam_y: int,
    color: Rgb,
) -> DrawCommand {
    DrawCommand::Outline {
        rect: Rect {
            x: screen(x0, cam_x),
            y: screen(y0, cam_y),
            w: extent(x0, x1),
            h: extent(y0, y1),
        },
        color,
    }
}

/// Screen coordinate of the world coordinate that lies `cells` whole cells
/// after `origin`.
pub fn cell_screen(origin: i32, cells: usize, camera: i32) -> (s: i32)
    ensures
        s == screen(origin + 8 * cells, camera as int),
{
    let world: i128 = origin as i128 + 8 * (cells as i128);
    let d: i128 = world - camera as i128;
    if d < i32::MIN as i128 {
        i32::MIN
    } else if d > i32::MAX as i128 {
        i32::MAX
    } else {
        d as i32
    }
}

/// Length of the span from `from` to `to`.
pub fn span(from: i32, to: i32) -> (n: u32)
    ensures
        n == extent(from as int, to as int),
{
    let d: i64 = to as i64 - from as i64;
    if d < 0 {
        0
    } else {
        d as u32
    }
}

/// Source rectangle of sprite `n` in the sprite sheet.
pub fn sprite_cell(n: u8) -> (r: Rect)
    ensures
        r == sprite_source(n),
{
    let col: u8 = n % SHEET_COLUMNS;
    let row: u8 = n / SHEET_COLUMNS;
    Rect { x: col as i32 * 8, y: row as i32 * 8, w: CELL, h: CELL }
}

} // verus!
