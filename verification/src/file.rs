//! Frames in truecolour mode: one colour for every pixel of the canvas.
use crate::codec::{channel_of, extent_area, DisposalMethod, EncodeError};
use crate::color::Color;
use vstd::prelude::*;
use vstd::string::StringExecFns;

verus! {

/// One frame in truecolour mode, which covers the whole canvas.
pub struct Frame<C> {
    /// One colour for every pixel of the canvas, row by row.
    pub pixels: Vec<C>,
    /// The delay in hundredths of a second.
    pub delay: u16,
    pub dispose: DisposalMethod,
    pub interlaced: bool,
}

/// The colours that the pixels of `rgba`, four bytes each, stand for.
pub open spec fn colors_of_rgba<C: Color>(rgba: Seq<u8>) -> Seq<C> {
    Seq::new(
        rgba.len() / 4,
        |i: int| C::from_rgba_spec(rgba[4 * i], rgba[4 * i + 1], rgba[4 * i + 2], rgba[4 * i + 3]),
    )
}

/// The red, green, blue and alpha bytes of `pixels`, in order.
pub open spec fn rgba_of_colors<C: Color>(pixels: Seq<C>) -> Seq<u8> {
    Seq::new(4 * pixels.len(), |k: int| channel_of(pixels[k / 4].rgba_spec(), k % 4))
}

/// The truecolour frame of a canvas that was drawn as `rgba`, four bytes
/// for every pixel; bytes beyond the last whole pixel are left out.
pub fn frame_from_rgba<C: Color>(
    rgba: &Vec<u8>,
    delay: u16,
    dispose: DisposalMethod,
    interlaced: bool,
) -> (frame: Frame<C>)
    ensures
        frame.pixels@ == colors_of_rgba::<C>(rgba@),
        frame.delay == delay,
        frame.dispose == dispose,
        frame.interlaced == interlaced,
{
    let count: usize = rgba.len() / 4;
    let mut pixels: Vec<C> = Vec::new();
    let mut i: usize = 0;
    while i < count
        invariant
            count == rgba@.len() / 4,
            rgba@.len() <= usize::MAX,
            i <= count,
            pixels@.len() == i,
            forall|j: int|
                0 <= j < i ==> #[trigger] pixels@[j] == C::from_rgba_spec(
                    rgba@[4 * j],
                    rgba@[4 * j + 1],
                    rgba@[4 * j + 2],
                    rgba@[4 * j + 3],
                ),
        decreases count - i,
    {
        pixels.push(C::from_rgba(rgba[4 * i], rgba[4 * i + 1], rgba[4 * i + 2], rgba[4 * i + 3]));
        i += 1;
    }
    assert(pixels@ =~= colors_of_rgba::<C>(rgba@));
    Frame { pixels, delay, dispose, interlaced }
}

/// The red, green, blue and alpha bytes of a frame that is to be written to
/// a canvas of the given width and height. A frame that does not have one
/// colour for every pixel of the canvas cannot be written.
pub fn frame_to_rgba<C: Color>(frame: &Frame<C>, canvas: (u16, u16)) -> (result: Result<
    Vec<u8>,
    EncodeError,
>)
    ensures
        result is Ok <==> frame.pixels@.len() == canvas.0 * canvas.1,
        result matches Ok(bytes) ==> bytes@ == rgba_of_colors(frame.pixels@),
        result matches Err(error) ==> error is FrameWrite,
{
    if frame.pixels.len() != extent_area(canvas) {
        return Err(
            EncodeError::FrameWrite(
                None,
                String::from_str("The frame does not cover the canvas"),
            ),
        );
    }
    let mut bytes: Vec<u8> = Vec::new();
    let mut i: usize = 0;
    while i < frame.pixels.len()
        invariant
            i <= frame.pixels@.len(),
            bytes@.len() == 4 * i,
            forall|k: int|
                0 <= k < 4 * i ==> #[trigger] bytes@[k] == channel_of(
                    frame.pixels@[k / 4].rgba_spec(),
                    k % 4,
                ),
        decreases frame.pixels@.len() - i,
    {
        let (r, g, b, a) = frame.pixels[i].to_rgba();
        bytes.push(r);
        bytes.push(g);
        bytes.push(b);
        bytes.push(a);
        i += 1;
    }
    assert(bytes@ =~= rgba_of_colors(frame.pixels@));
    Ok(bytes)
}

} // verus!
