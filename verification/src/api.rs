//! The console: draw state, tile map, font, input and the queue of drawing
//! commands of the frame in progress.
//!
//! The console follows the PICO-8 model: a screen of 128 by 128 pixels, made
//! of 16 by 16 cells of 8 by 8 pixels each.

use vstd::prelude::*;
use crate::draw::{
    cell_screen, outline, screen, span, sprite_blit, sprite_cell, DrawCommand, Rect, Sheet, CELL,
};
use crate::font::{FontAtlas, FontEntry};
use crate::input::{Button, InputState};
use crate::palette::{palette, palette_rgb, Color};
use crate::render::{region_blits, render_region, render_text, text_blits};
use crate::tilemap::{blank_grid, is_grid, tile_at, with_tile, TileMap};

verus! {

/// Frames per second that the console is paced to.
pub const FRAME_RATE: u32 = 30;

/// Nanoseconds the host waits after presenting a frame.
pub const FRAME_PAUSE_NANOS: u32 = 1_000_000_000 / FRAME_RATE;

/// The camera origin and the pen.
#[derive(Clone, Copy, Debug, PartialEq, Eq)]
pub struct DrawState {
    pub camera_x: i32,
    pub camera_y: i32,
    pub pen: Color,
}

/// A finished frame: what to draw, in order, and how long to wait after
/// presenting it.
#[derive(Clone, Debug)]
pub struct Frame {
    pub commands: Vec<DrawCommand>,
    pub pause_nanos: u32,
}

/// The state of a console as contracts see it.
pub struct ConsoleView {
    /// Camera origin and pen.
    pub draw: DrawState,
    /// Input of the current frame.
    pub input: InputState,
    /// The tile map grid, row by row.
    pub tiles: Seq<u8>,
    /// The glyph of each character that has one.
    pub font: Map<char, FontEntry>,
    /// The commands queued since the last flip, oldest first.
    pub queue: Seq<DrawCommand>,
}

/// The console.
pub struct BBMicroApi {
    font_entries: FontAtlas,
    draw_state: DrawState,
    input_state: InputState,
    map_data: TileMap,
    commands: Vec<DrawCommand>,
}

impl View for BBMicroApi {
    type V = ConsoleView;

    closed spec fn view(&self) -> ConsoleView {
        ConsoleView {
            draw: self.draw_state,
            input: self.input_state,
            tiles: self.map_data@,
            font: self.font_entries@,
            queue: self.commands@,
        }
    }
}

impl ConsoleView {
    /// This state with `command` queued after the commands already there.
    pub open spec fn queued(self, command: DrawCommand) -> ConsoleView {
        ConsoleView { queue: self.queue.push(command), ..self }
    }

    /// This state with `commands` queued after the commands already there.
    pub open spec fn queued_all(self, commands: Seq<DrawCommand>) -> ConsoleView {
        ConsoleView { queue: self.queue + commands, ..self }
    }
}

impl BBMicroApi {
    /// A console with the given font: camera at the origin, pen 0, no button
    /// held or pressed, tile 0 in every map cell, and nothing queued.
    pub fn new(font_entries: FontAtlas) -> (api: BBMicroApi)
        ensures
            api@ == (ConsoleView {
                draw: DrawState { camera_x: 0, camera_y: 0, pen: 0 },
                input: InputState::idle(),
                tiles: blank_grid(),
                font: font_entries@,
                queue: Seq::empty(),
            }),
    {
        BBMicroApi {
            font_entries,
            draw_state: DrawState { camera_x: 0, camera_y: 0, pen: 0 },
            input_state: InputState::new(),
            map_data: TileMap::new(),
            commands: Vec::new(),
        }
    }

    /// The camera origin and the pen.
    pub fn draw_state(&self) -> (state: DrawState)
        ensures
            state == self@.draw,
    {
        self.draw_state
    }

    /// Replaces the input state with that of the new frame.
    pub fn update_input(&mut self, input_state: InputState)
        ensures
            final(self)@ == (ConsoleView { input: input_state, ..old(self)@ }),
    {
        self.input_state = input_state;
    }

    /// World position `(x, y)` as a screen position.
    fn to_camera(&self, x: i32, y: i32) -> (at: (i32, i32))
        ensures
            at.0 == screen(x as int, self@.draw.camera_x as int),
            at.1 == screen(y as int, self@.draw.camera_y as int),
    {
        (
            cell_screen(x, 0, self.draw_state.camera_x),
            cell_screen(y, 0, self.draw_state.camera_y),
        )
    }

    /// Moves the camera origin to `(x, y)`. Every later call that takes a
    /// world position draws it at that position minus the origin.
    pub fn camera(&mut self, x: i32, y: i32)
        ensures
            final(self)@ == (ConsoleView {
                draw: DrawState { camera_x: x, camera_y: y, pen: old(self)@.draw.pen },
                ..old(self)@
            }),
    {
        self.draw_state.camera_x = x;
        self.draw_state.camera_y = y;
    }

    /// Circle outline. Draws nothing.
    #[allow(unused_variables)]
    pub fn circ(&mut self, x: i32, y: i32, r: i32, col: Color)
        ensures
            final(self)@ == old(self)@,
    {
    }

    /// Filled circle. Draws nothing.
    #[allow(unused_variables)]
    pub fn circfill(&mut self, x: i32, y: i32, r: i32, col: Color)
        ensures
            final(self)@ == old(self)@,
    {
    }

    /// Clipping rectangle. Clips nothing.
    #[allow(unused_variables)]
    pub fn clip(&mut self, x: i32, y: i32, w: i32, h: i32)
        ensures
            final(self)@ == old(self)@,
    {
    }

    /// Fills the frame buffer with the colour of index `col`.
    pub fn cls(&mut self, col: Color)
        ensures
            final(self)@ == old(self)@.queued(DrawCommand::Clear { color: palette_rgb(col as int) }),
    {
        self.commands.push(DrawCommand::Clear { color: palette(col) });
    }

    /// Sets the pen.
    pub fn color(&mut self, col: Color)
        ensures
            final(self)@ == (ConsoleView {
                draw: DrawState {
                    camera_x: old(self)@.draw.camera_x,
                    camera_y: old(self)@.draw.camera_y,
                    pen: col,
                },
                ..old(self)@
            }),
    {
        self.draw_state.pen = col;
    }

    /// Draws sprite `n` with its top-left corner at world position `(x, y)`.
    /// The sprite is one cell whatever `w` and `h` say; the flip flags are
    /// handed on to the blit.
    #[allow(unused_variables)]
    pub fn spr(&mut self, n: u8, x: i32, y: i32, w: i32, h: i32, flip_x: bool, flip_y: bool)
        ensures
            final(self)@ == old(self)@.queued(
                sprite_blit(
                    n,
                    x as int,
                    y as int,
                    old(self)@.draw.camera_x as int,
                    old(self)@.draw.camera_y as int,
                    flip_x,
                    flip_y,
                ),
            ),
    {
        let (x, y) = self.to_camera(x, y);
        self.commands.push(
            DrawCommand::Blit {
                sheet: Sheet::Sprites,
                src: sprite_cell(n),
                dst: Rect { x, y, w: CELL, h: CELL },
                flip_x,
                flip_y,
            },
        );
    }

    /// Prints `text` from world position `(x, y)`, one cell per character.
    /// With `use_camera` unset the position is a screen position. A
    /// character without a glyph leaves its cell empty.
    pub fn print(&mut self, text: &str, x: i32, y: i32, use_camera: bool)
        ensures
            final(self)@ == old(self)@.queued_all(
                text_blits(
                    old(self)@.font,
                    text@,
                    text@.len() as int,
                    x as int,
                    y as int,
                    if use_camera {
                        old(self)@.draw.camera_x as int
                    } else {
                        0
                    },
                    if use_camera {
                        old(self)@.draw.camera_y as int
                    } else {
                        0
                    },
                ),
            ),
    {
        let offset_x: i32 = if use_camera {
            self.draw_state.camera_x
        } else {
            0
        };
        let offset_y: i32 = if use_camera {
            self.draw_state.camera_y
        } else {
            0
        };
        render_text(&mut self.commands, &self.font_entries, text, x, y, offset_x, offset_y);
    }

    /// Strokes the rectangle with corners `(x0, y0)` and `(x1, y1)`, given
    /// in world coordinates, in the colour of index `col`.
    pub fn rect(&mut self, x0: i32, y0: i32, x1: i32, y1: i32, col: Color)
        ensures
            final(self)@ == old(self)@.queued(
                outline(
                    x0 as int,
                    y0 as int,
                    x1 as int,
                    y1 as int,
                    old(self)@.draw.camera_x as int,
                    old(self)@.draw.camera_y as int,
                    palette_rgb(col as int),
                ),
            ),
    {
        let (x, y) = self.to_camera(x0, y0);
        let w: u32 = span(x0, x1);
        let h: u32 = span(y0, y1);
        self.commands.push(DrawCommand::Outline { rect: Rect { x, y, w, h }, color: palette(col) });
    }

    /// Ends the frame: hands out the queued commands, oldest first, with the
    /// pause that keeps the console at its frame rate, and leaves the queue
    /// empty for the next frame.
    pub fn flip(&mut self) -> (frame: Frame)
        ensures
            frame.commands@ == old(self)@.queue,
            frame.pause_nanos == FRAME_PAUSE_NANOS,
            final(self)@ == (ConsoleView { queue: Seq::empty(), ..old(self)@ }),
    {
        let mut commands: Vec<DrawCommand> = Vec::new();
        std::mem::swap(&mut self.commands, &mut commands);
        Frame { commands, pause_nanos: FRAME_PAUSE_NANOS }
    }

    /// Whether button `b` is held.
    pub fn btn(&self, b: Button) -> (held: bool)
        ensures
            held == self@.input.is_down(b),
    {
        self.input_state.down(b)
    }

    /// Whether button `b` went down this frame.
    pub fn btnp(&self, b: Button) -> (hit: bool)
        ensures
            hit == self@.input.is_pressed(b),
    {
        self.input_state.pressed(b)
    }

    /// Writes tile `snum` at map cell `(celx, cely)`, on every layer.
    pub fn mset(&mut self, celx: u32, cely: u32, layer: u8, snum: u8)
        requires
            celx < 256,
            cely < 256,
        ensures
            final(self)@ == (ConsoleView {
                tiles: with_tile(old(self)@.tiles, celx as int, cely as int, snum),
                ..old(self)@
            }),
    {
        self.map_data.set(celx, cely, layer, snum);
    }

    /// Reads the tile at map cell `(celx, cely)`, the same on every layer.
    pub fn mget(&self, celx: u32, cely: u32, layer: u8) -> (snum: u8)
        requires
            celx < 256,
            cely < 256,
        ensures
            snum == tile_at(self@.tiles, celx as int, cely as int),
    {
        self.map_data.get(celx, cely, layer)
    }

    /// Draws the region of `celw` by `celh` map cells whose first cell is
    /// `(celx, cely)` with its top-left corner at world position `(sx, sy)`.
    /// Cells of the region that lie off the map are passed over.
    pub fn map(&mut self, celx: u32, cely: u32, sx: i32, sy: i32, celw: u32, celh: u32, layer: u8)
        ensures
            final(self)@ == old(self)@.queued_all(
                region_blits(
                    old(self)@.tiles,
                    celx as int,
                    cely as int,
                    sx as int,
                    sy as int,
                    celw as int,
                    celh as int,
                    old(self)@.draw.camera_x as int,
                    old(self)@.draw.camera_y as int,
                ),
            ),
    {
        render_region(
            &mut self.commands,
            &self.map_data,
            celx,
            cely,
            sx,
            sy,
            celw,
            celh,
            layer,
            self.draw_state.camera_x,
            self.draw_state.camera_y,
        );
    }

    /// The grid of a console's map always has 256 by 256 cells.
    pub proof fn lemma_tiles_is_grid(&self)
        ensures
            is_grid(self@.tiles),
    {
        self.map_data.lemma_is_grid();
    }
}

/// A game that runs on the console. The host calls `init` once, then every
/// frame `update` followed by `draw`.
pub trait BBMicroGame {
    fn init(&mut self, api: &mut BBMicroApi);

    fn update(&mut self, api: &mut BBMicroApi);

    fn draw(&mut self, api: &mut BBMicroApi);
}

} // verus!
