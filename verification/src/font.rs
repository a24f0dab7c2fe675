//! Glyph rectangles and the font atlas that finds them by character.

use std::collections::HashMap;
use vstd::prelude::*;
use crate::draw::{extent, span, Rect};

verus! {

broadcast use vstd::std_specs::hash::group_hash_axioms;

/// Where a glyph lies in the font texture: its top-left and bottom-right
/// corners, and the offset of its baseline, in pixels.
#[derive(Clone, Copy, Debug, PartialEq, Eq)]
pub struct FontEntry {
    pub top_x: i32,
    pub top_y: i32,
    pub bottom_x: i32,
    pub bottom_y: i32,
    pub bottom_offset: i32,
}

impl FontEntry {
    /// Horizontal distance from the left edge to the right edge; negative
    /// when the corners are given the wrong way round.
    pub open spec fn spec_width(self) -> int {
        self.bottom_x - self.top_x
    }

    /// Vertical distance from the top edge to the bottom edge; negative when
    /// the corners are given the wrong way round.
    pub open spec fn spec_height(self) -> int {
        self.bottom_y - self.top_y
    }

    /// The rectangle of the font texture that a blit of this glyph reads.
    /// A negative width or height counts as 0.
    pub open spec fn spec_source(self) -> Rect {
        Rect {
            x: self.top_x,
            y: self.top_y,
            w: extent(self.top_x as int, self.bottom_x as int),
            h: extent(self.top_y as int, self.bottom_y as int),
        }
    }

    /// Width of the glyph.
    pub fn width(&self) -> (w: i64)
        ensures
            w == self.spec_width(),
    {
        self.bottom_x as i64 - self.top_x as i64
    }

    /// Height of the glyph.
    pub fn height(&self) -> (h: i64)
        ensures
            h == self.spec_height(),
    {
        self.bottom_y as i64 - self.top_y as i64
    }

    /// Source rectangle of the glyph in the font texture.
    pub fn source(&self) -> (r: Rect)
        ensures
            r == self.spec_source(),
    {
        Rect {
            x: self.top_x,
            y: self.top_y,
            w: span(self.top_x, self.bottom_x),
            h: span(self.top_y, self.bottom_y),
        }
    }
}

/// The scalar value of a character, under which the atlas stores its glyph.
pub open spec fn scalar(c: char) -> u32 {
    c as u32
}

/// The glyphs of a font, found by character. A character is stored under its
/// scalar value.
pub struct FontAtlas {
    glyphs: HashMap<u32, FontEntry>,
}

impl View for FontAtlas {
    type V = Map<char, FontEntry>;

    /// The atlas as a map from each character that has a glyph to that glyph.
    closed spec fn view(&self) -> Map<char, FontEntry> {
        Map::new(
            |c: char| self.glyphs@.contains_key(scalar(c)),
            |c: char| self.glyphs@[scalar(c)],
        )
    }
}

impl FontAtlas {
    /// An atlas without glyphs.
    pub fn new() -> (atlas: FontAtlas)
        ensures
            atlas@ == Map::<char, FontEntry>::empty(),
    {
        let atlas = FontAtlas { glyphs: HashMap::new() };
        assert(atlas@ =~= Map::<char, FontEntry>::empty());
        atlas
    }

    /// Registers `entry` as the glyph of `c`, in place of any glyph `c` had.
    pub fn insert(&mut self, c: char, entry: FontEntry)
        ensures
            final(self)@ == old(self)@.insert(c, entry),
    {
        self.glyphs.insert(c as u32, entry);
        assert forall|d: char| #[trigger] scalar(d) == scalar(c) implies d == c by {
            vstd::utf8::char_u32_cast(d, scalar(d));
            vstd::utf8::char_u32_cast(c, scalar(c));
        }
        assert(self@ =~= old(self)@.insert(c, entry));
    }

    /// The glyph of `c`, if the atlas has one.
    pub fn get(&self, c: char) -> (found: Option<FontEntry>)
        ensures
            found == (if self@.contains_key(c) {
                Some(self@[c])
            } else {
                None
            }),
    {
        let key: u32 = c as u32;
        match self.glyphs.get(&key) {
            Some(entry) => Some(*entry),
            None => None,
        }
    }

    /// Whether `c` has a glyph.
    pub fn contains(&self, c: char) -> (b: bool)
        ensures
            b == self@.contains_key(c),
    {
        let key: u32 = c as u32;
        self.glyphs.contains_key(&key)
    }
}

} // verus!
