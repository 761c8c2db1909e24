//! Glyph layouts: positioned glyphs with their coverage, and the size of the
//! line they form.

use vstd::prelude::*;
use crate::compose::{compose, frame_of, layout_writes, within, Frame, PixelWrite};

verus! {

/// The coverage of one pixel of a glyph, at an offset inside the glyph's box.
#[derive(Clone, Copy, Debug, PartialEq, Eq, Structural)]
pub struct Sample {
    pub x: u32,
    pub y: u32,
    /// Coverage scaled to `0..=255`.
    pub alpha: u8,
}

/// Where a visible glyph sits in its layout.
#[derive(Clone, Copy, Debug, PartialEq, Eq, Structural)]
pub struct GlyphBox {
    /// Left edge of the pixel box.
    pub min_x: i32,
    /// Top edge of the pixel box.
    pub min_y: i32,
    /// The left edge plus the glyph's advance, rounded up to whole pixels.
    pub extent: u32,
}

/// One glyph of a layout. A glyph without a box, such as a space, is
/// invisible and never drawn.
#[derive(Clone, Debug)]
pub struct Glyph {
    pub bounds: Option<GlyphBox>,
    /// The covered pixels, in the order the rasteriser visits them.
    pub samples: Vec<Sample>,
}

/// The width of a line of glyphs: the extent of the last glyph that has a
/// box, or zero when none has one. Invisible glyphs at the end are skipped.
pub open spec fn layout_width(glyphs: Seq<Glyph>) -> u32
    decreases glyphs.len(),
{
    if glyphs.len() == 0 {
        0
    } else {
        match glyphs.last().bounds {
            Some(bounds) => bounds.extent,
            None => layout_width(glyphs.drop_last()),
        }
    }
}

/// A line in which no glyph has a box, the empty line among them, has no
/// width.
pub proof fn lemma_blank_layout_width(glyphs: Seq<Glyph>)
    requires
        forall|i: int| 0 <= i < glyphs.len() ==> (#[trigger] glyphs[i]).bounds is None,
    ensures
        layout_width(glyphs) == 0,
    decreases glyphs.len(),
{
    if glyphs.len() > 0 {
        assert(glyphs.last().bounds is None);
        lemma_blank_layout_width(glyphs.drop_last());
    }
}

/// The width of a line is the extent of the glyph at `last` when that glyph
/// has a box and no glyph after it has one.
pub proof fn lemma_width_of_last_visible(glyphs: Seq<Glyph>, last: int)
    requires
        0 <= last < glyphs.len(),
        glyphs[last].bounds is Some,
        forall|j: int| last < j < glyphs.len() ==> (#[trigger] glyphs[j]).bounds is None,
    ensures
        layout_width(glyphs) == glyphs[last].bounds->0.extent,
    decreases glyphs.len(),
{
    if last < glyphs.len() - 1 {
        assert(glyphs.last().bounds is None);
        lemma_width_of_last_visible(glyphs.drop_last(), last);
    }
}

/// Computes the width of a line of glyphs.
pub fn measure(glyphs: &Vec<Glyph>) -> (width: u32)
    ensures
        width == layout_width(glyphs@),
{
    let mut rest: usize = glyphs.len();
    assert(glyphs@.take(rest as int) =~= glyphs@);
    while rest > 0
        invariant
            rest <= glyphs.len(),
            layout_width(glyphs@) == layout_width(glyphs@.take(rest as int)),
        decreases rest,
    {
        rest -= 1;
        assert(glyphs@.take(rest + 1).drop_last() =~= glyphs@.take(rest as int));
        if let Some(bounds) = glyphs[rest].bounds {
            return bounds.extent;
        }
    }
    0
}

/// A line of positioned glyphs with its size in pixels. It owns its glyphs and
/// is not changed after it was laid out.
#[derive(Clone, Debug)]
pub struct Text {
    w: u32,
    h: u32,
    glyphs: Vec<Glyph>,
}

/// The mathematical content of a [`Text`].
pub struct TextModel {
    pub width: u32,
    pub height: u32,
    pub glyphs: Seq<Glyph>,
}

impl View for Text {
    type V = TextModel;

    closed spec fn view(&self) -> TextModel {
        TextModel { width: self.w, height: self.h, glyphs: self.glyphs@ }
    }
}

impl Text {
    /// The width is the one the glyphs determine.
    pub open spec fn well_formed(&self) -> bool {
        self@.width == layout_width(self@.glyphs)
    }

    /// Laying out the same glyphs twice gives the same width.
    pub proof fn lemma_layout_repeatable(self, other: Text)
        requires
            self.well_formed(),
            other.well_formed(),
            self@.glyphs == other@.glyphs,
        ensures
            self@.width == other@.width,
    {
    }

    /// Lays the glyphs out as a line of the given height.
    pub fn new(glyphs: Vec<Glyph>, height: u32) -> (text: Text)
        ensures
            text.well_formed(),
            text@.glyphs == glyphs@,
            text@.height == height,
    {
        let w: u32 = measure(&glyphs);
        Text { w, h: height, glyphs }
    }

    /// Return width of the text
    pub fn width(&self) -> (w: u32)
        ensures
            w == self@.width,
    {
        self.w
    }

    /// Return height of the text
    pub fn height(&self) -> (h: u32)
        ensures
            h == self@.height,
    {
        self.h
    }

    /// The frame of this text drawn at `(x, y)` through the clip window that
    /// starts at `clip_x` and reaches `clip_width` columns to the right.
    pub open spec fn frame(
        &self,
        x: i32,
        y: i32,
        clip_x: i32,
        clip_width: u32,
        color: u32,
    ) -> Frame {
        frame_of(self@.width, self@.height, x, y, clip_x, clip_width, color)
    }

    /// Draw the text with its top-left corner at `(x, y)`, clipped to the
    /// columns `bounds_x ..= bounds_x + bounds_width`: the pixels to write, in
    /// order. Each carries the RGB bits of `color` under the alpha of its
    /// sample; what the surface held before plays no part.
    pub fn draw_clipped(
        &self,
        x: i32,
        y: i32,
        bounds_x: i32,
        bounds_width: u32,
        color: u32,
    ) -> (writes: Vec<PixelWrite>)
        ensures
            writes@ == layout_writes(self.frame(x, y, bounds_x, bounds_width, color), self@.glyphs),
            forall|i: int|
                0 <= i < writes@.len() ==> bounds_x <= (#[trigger] writes@[i]).x <= bounds_x
                    + bounds_width,
            forall|i: int|
                0 <= i < writes@.len() ==> within(
                    self.frame(x, y, bounds_x, bounds_width, color),
                    #[trigger] writes@[i],
                ),
    {
        compose(&self.glyphs, self.w, self.h, x, y, bounds_x, bounds_width, color)
    }

    /// Draw the text with its top-left corner at `(x, y)`; the clip window is
    /// the text's own width, starting at `x`.
    pub fn draw(&self, x: i32, y: i32, color: u32) -> (writes: Vec<PixelWrite>)
        ensures
            writes@ == layout_writes(self.frame(x, y, x, self@.width, color), self@.glyphs),
            forall|i: int|
                0 <= i < writes@.len() ==> within(
                    self.frame(x, y, x, self@.width, color),
                    #[trigger] writes@[i],
                ),
    {
        self.draw_clipped(x, y, x, self.w, color)
    }
}

} // verus!
