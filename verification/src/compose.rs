//! Compositing: which pixels a layout writes when it is placed on a surface.

use vstd::prelude::*;
use crate::layout::{Glyph, GlyphBox, Sample};
use crate::pixel::{pack_argb, tinted};

verus! {

/// One pixel handed to the target surface.
#[derive(Clone, Copy, Debug, PartialEq, Eq, Structural)]
pub struct PixelWrite {
    pub x: i64,
    pub y: i64,
    /// Packed ARGB: the sample's alpha above the tint's RGB.
    pub color: u32,
}

/// The pixel can be addressed on a surface, whose coordinates are 32-bit.
pub open spec fn addressable(write: PixelWrite) -> bool {
    &&& i32::MIN <= write.x <= i32::MAX
    &&& i32::MIN <= write.y <= i32::MAX
}

/// Where on a surface a pixel goes: its coordinates, or `None` for a pixel
/// that no surface can hold because a coordinate lies beyond 32 bits.
pub fn surface_point(write: &PixelWrite) -> (at: Option<(i32, i32)>)
    ensures
        at is Some <==> addressable(*write),
        at matches Some(point) ==> point.0 == write.x && point.1 == write.y,
{
    if write.x >= i32::MIN as i64 && write.x <= i32::MAX as i64 && write.y >= i32::MIN as i64
        && write.y <= i32::MAX as i64 {
        Some((write.x as i32, write.y as i32))
    } else {
        None
    }
}

/// Where and how a layout is drawn.
pub struct Frame {
    /// Size of the layout.
    pub width: int,
    pub height: int,
    /// Top-left corner of the layout on the surface.
    pub x: int,
    pub y: int,
    /// First column of the clip window, and how far it reaches to the right.
    pub clip_x: int,
    pub clip_width: int,
    /// The tint; only its RGB bits are used.
    pub color: u32,
}

/// The sample falls inside the layout and its column inside the clip window,
/// both ends of the window included.
pub open spec fn lands(frame: Frame, bounds: GlyphBox, sample: Sample) -> bool {
    let local_x = bounds.min_x + sample.x;
    let local_y = bounds.min_y + sample.y;
    &&& 0 <= local_x < frame.width
    &&& 0 <= local_y < frame.height
    &&& frame.clip_x <= frame.x + local_x <= frame.clip_x + frame.clip_width
}

/// The pixel a sample becomes.
pub open spec fn write_of(frame: Frame, bounds: GlyphBox, sample: Sample) -> PixelWrite {
    PixelWrite {
        x: (frame.x + bounds.min_x + sample.x) as i64,
        y: (frame.y + bounds.min_y + sample.y) as i64,
        color: tinted(sample.alpha, frame.color),
    }
}

/// The pixels of the samples that land, in the samples' order.
pub open spec fn sample_writes(frame: Frame, bounds: GlyphBox, samples: Seq<Sample>) -> Seq<
    PixelWrite,
> {
    samples.filter(|s: Sample| lands(frame, bounds, s)).map_values(
        |s: Sample| write_of(frame, bounds, s),
    )
}

/// The pixels one glyph writes: none without a box.
pub open spec fn glyph_writes(frame: Frame, glyph: Glyph) -> Seq<PixelWrite> {
    match glyph.bounds {
        Some(bounds) => sample_writes(frame, bounds, glyph.samples@),
        None => Seq::empty(),
    }
}

/// The pixels a line of glyphs writes, glyph after glyph.
pub open spec fn layout_writes(frame: Frame, glyphs: Seq<Glyph>) -> Seq<PixelWrite> {
    glyphs.map_values(|g: Glyph| glyph_writes(frame, g)).flatten()
}

/// Adding a sample adds its pixel when it lands and nothing otherwise.
pub proof fn lemma_sample_writes_push(
    frame: Frame,
    bounds: GlyphBox,
    samples: Seq<Sample>,
    sample: Sample,
)
    ensures
        sample_writes(frame, bounds, samples.push(sample)) == if lands(frame, bounds, sample) {
            sample_writes(frame, bounds, samples).push(write_of(frame, bounds, sample))
        } else {
            sample_writes(frame, bounds, samples)
        },
{
    let keep = |s: Sample| lands(frame, bounds, s);
    let turn = |s: Sample| write_of(frame, bounds, s);
    samples.lemma_filter_push(sample, keep);
    if lands(frame, bounds, sample) {
        assert(samples.filter(keep).push(sample).map_values(turn) =~= samples.filter(
            keep,
        ).map_values(turn).push(turn(sample)));
    }
}

/// Adding a glyph appends its pixels.
pub proof fn lemma_layout_writes_push(frame: Frame, glyphs: Seq<Glyph>, glyph: Glyph)
    ensures
        layout_writes(frame, glyphs.push(glyph)) == layout_writes(frame, glyphs) + glyph_writes(
            frame,
            glyph,
        ),
{
    let each = |g: Glyph| glyph_writes(frame, g);
    assert(glyphs.push(glyph).map_values(each) =~= glyphs.map_values(each).push(each(glyph)));
    glyphs.map_values(each).lemma_flatten_push(each(glyph));
}

/// The frame of a layout of the given size drawn at `(x, y)` through the clip
/// window that starts at `clip_x`.
pub open spec fn frame_of(
    width: u32,
    height: u32,
    x: i32,
    y: i32,
    clip_x: i32,
    clip_width: u32,
    color: u32,
) -> Frame {
    Frame {
        width: width as int,
        height: height as int,
        x: x as int,
        y: y as int,
        clip_x: clip_x as int,
        clip_width: clip_width as int,
        color,
    }
}

/// The pixel lies inside the layout's rectangle and inside the clip window.
pub open spec fn within(frame: Frame, write: PixelWrite) -> bool {
    &&& frame.x <= write.x < frame.x + frame.width
    &&& frame.y <= write.y < frame.y + frame.height
    &&& frame.clip_x <= write.x <= frame.clip_x + frame.clip_width
}

/// Every pixel a glyph's samples write lies inside the layout's rectangle and
/// inside the clip window.
pub proof fn lemma_sample_writes_within(
    bounds: GlyphBox,
    samples: Seq<Sample>,
    width: u32,
    height: u32,
    x: i32,
    y: i32,
    clip_x: i32,
    clip_width: u32,
    color: u32,
)
    ensures
        forall|i: int|
            0 <= i < sample_writes(
                frame_of(width, height, x, y, clip_x, clip_width, color),
                bounds,
                samples,
            ).len() ==> within(
                frame_of(width, height, x, y, clip_x, clip_width, color),
                #[trigger] sample_writes(
                    frame_of(width, height, x, y, clip_x, clip_width, color),
                    bounds,
                    samples,
                )[i],
            ),
    decreases samples.len(),
{
    let frame = frame_of(width, height, x, y, clip_x, clip_width, color);
    if samples.len() == 0 {
        assert(sample_writes(frame, bounds, samples) =~= Seq::<PixelWrite>::empty());
    } else {
        let rest = samples.drop_last();
        assert(samples =~= rest.push(samples.last()));
        lemma_sample_writes_push(frame, bounds, rest, samples.last());
        lemma_sample_writes_within(bounds, rest, width, height, x, y, clip_x, clip_width, color);
    }
}

/// No layout, whatever its glyphs, writes outside its own rectangle or outside
/// the clip window: each written column lies in
/// `clip_x ..= clip_x + clip_width`.
pub proof fn lemma_writes_within(
    glyphs: Seq<Glyph>,
    width: u32,
    height: u32,
    x: i32,
    y: i32,
    clip_x: i32,
    clip_width: u32,
    color: u32,
)
    ensures
        forall|i: int|
            0 <= i < layout_writes(
                frame_of(width, height, x, y, clip_x, clip_width, color),
                glyphs,
            ).len() ==> within(
                frame_of(width, height, x, y, clip_x, clip_width, color),
                #[trigger] layout_writes(
                    frame_of(width, height, x, y, clip_x, clip_width, color),
                    glyphs,
                )[i],
            ),
    decreases glyphs.len(),
{
    let frame = frame_of(width, height, x, y, clip_x, clip_width, color);
    if glyphs.len() == 0 {
        assert(layout_writes(frame, glyphs) =~= Seq::<PixelWrite>::empty());
    } else {
        let rest = glyphs.drop_last();
        let glyph = glyphs.last();
        assert(glyphs =~= rest.push(glyph));
        lemma_layout_writes_push(frame, rest, glyph);
        lemma_writes_within(rest, width, height, x, y, clip_x, clip_width, color);
        if let Some(bounds) = glyph.bounds {
            lemma_sample_writes_within(
                bounds,
                glyph.samples@,
                width,
                height,
                x,
                y,
                clip_x,
                clip_width,
                color,
            );
        }
    }
}

/// Appends the pixels of one visible glyph.
fn compose_glyph(
    out: &mut Vec<PixelWrite>,
    bounds: GlyphBox,
    samples: &Vec<Sample>,
    width: u32,
    height: u32,
    x: i32,
    y: i32,
    clip_x: i32,
    clip_width: u32,
    color: u32,
)
    ensures
        final(out)@ == old(out)@ + sample_writes(
            frame_of(width, height, x, y, clip_x, clip_width, color),
            bounds,
            samples@,
        ),
{
    let ghost frame = frame_of(width, height, x, y, clip_x, clip_width, color);
    let mut k: usize = 0;
    assert(samples@.take(0) =~= Seq::<Sample>::empty());
    assert(sample_writes(frame, bounds, Seq::<Sample>::empty()) =~= Seq::<PixelWrite>::empty());
    assert(out@ =~= old(out)@ + sample_writes(frame, bounds, samples@.take(0)));
    while k < samples.len()
        invariant
            k <= samples.len(),
            frame == frame_of(width, height, x, y, clip_x, clip_width, color),
            out@ == old(out)@ + sample_writes(frame, bounds, samples@.take(k as int)),
        decreases samples.len() - k,
    {
        let sample: Sample = samples[k];
        let local_x: i64 = bounds.min_x as i64 + sample.x as i64;
        let local_y: i64 = bounds.min_y as i64 + sample.y as i64;
        let target_x: i64 = x as i64 + local_x;
        let target_y: i64 = y as i64 + local_y;
        proof {
            assert(samples@.take(k + 1) =~= samples@.take(k as int).push(sample));
            lemma_sample_writes_push(frame, bounds, samples@.take(k as int), sample);
        }
        if local_x >= 0 && local_x < width as i64 && local_y >= 0 && local_y < height as i64
            && target_x >= clip_x as i64 && target_x <= clip_x as i64 + clip_width as i64 {
            let write = PixelWrite {
                x: target_x,
                y: target_y,
                color: pack_argb(sample.alpha, color),
            };
            assert(write == write_of(frame, bounds, sample));
            assert(lands(frame, bounds, sample));
            out.push(write);
            assert(out@ =~= old(out)@ + sample_writes(frame, bounds, samples@.take(k + 1)));
        } else {
            assert(!lands(frame, bounds, sample));
        }
        k += 1;
    }
    assert(samples@.take(k as int) =~= samples@);
}

/// Composites a line of glyphs: the pixels to write, in order, when a layout
/// of the given size is drawn at `(x, y)` through the clip window.
pub fn compose(
    glyphs: &Vec<Glyph>,
    width: u32,
    height: u32,
    x: i32,
    y: i32,
    clip_x: i32,
    clip_width: u32,
    color: u32,
) -> (writes: Vec<PixelWrite>)
    ensures
        writes@ == layout_writes(
            frame_of(width, height, x, y, clip_x, clip_width, color),
            glyphs@,
        ),
        forall|i: int|
            0 <= i < writes@.len() ==> within(
                frame_of(width, height, x, y, clip_x, clip_width, color),
                #[trigger] writes@[i],
            ),
{
    let ghost frame = frame_of(width, height, x, y, clip_x, clip_width, color);
    let mut writes: Vec<PixelWrite> = Vec::new();
    let mut g: usize = 0;
    assert(glyphs@.take(0) =~= Seq::<Glyph>::empty());
    assert(layout_writes(frame, Seq::<Glyph>::empty()) =~= Seq::<PixelWrite>::empty());
    while g < glyphs.len()
        invariant
            g <= glyphs.len(),
            frame == frame_of(width, height, x, y, clip_x, clip_width, color),
            writes@ == layout_writes(frame, glyphs@.take(g as int)),
        decreases glyphs.len() - g,
    {
        proof {
            assert(glyphs@.take(g + 1) =~= glyphs@.take(g as int).push(glyphs@[g as int]));
            lemma_layout_writes_push(frame, glyphs@.take(g as int), glyphs@[g as int]);
        }
        if let Some(bounds) = glyphs[g].bounds {
            compose_glyph(
                &mut writes,
                bounds,
                &glyphs[g].samples,
                width,
                height,
                x,
                y,
                clip_x,
                clip_width,
                color,
            );
        } else {
            assert(writes@ + glyph_writes(frame, glyphs@[g as int]) =~= writes@);
        }
        g += 1;
    }
    proof {
        assert(glyphs@.take(g as int) =~= glyphs@);
        lemma_writes_within(glyphs@, width, height, x, y, clip_x, clip_width, color);
    }
    writes
}

} // verus!
