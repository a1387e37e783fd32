//! The animated indexed container: a forward-only decoder and encoder.
use super::{
    colors_of_gif_format, extent_area, gif_format_of, Decodable, DecodeError, DisposalMethod,
    Encodable, EncodeError, Frame, Palette,
};
use crate::color::Color;
use std::marker::PhantomData;
use vstd::prelude::*;
use vstd::string::StringExecFns;

verus! {

/// A container that is being read from memory.
#[verifier::external_body]
pub struct GifStream {
    inner: gif::Decoder<std::io::Cursor<Vec<u8>>>,
}

/// A container that is being written to memory.
#[verifier::external_body]
pub struct GifSink {
    inner: gif::Encoder<Vec<u8>>,
}

/// A frame as the container holds it.
#[verifier::external_body]
pub struct GifFrame {
    inner: gif::Frame<'static>,
}

/// `gif::DecodingError`: why the container could not be read; only its text is read.
#[verifier::external_type_specification]
#[verifier::external_body]
pub struct ExGifDecodingError(gif::DecodingError);

/// `gif::EncodingError`: why the container could not be written; only its text is read.
#[verifier::external_type_specification]
#[verifier::external_body]
pub struct ExGifEncodingError(gif::EncodingError);

/// What a frame carries besides its palette and pixels.
#[derive(Clone, Copy, Debug)]
pub struct FrameMeta {
    pub delay: u16,
    pub dispose: DisposalMethod,
    pub origin: (u16, u16),
    pub dimensions: (u16, u16),
    pub transparent_index: Option<u8>,
    pub interlaced: bool,
    pub needs_input: bool,
}

/// A frame as it is read from the container: its own palette, if it has
/// one, as flat triplets, and one palette index for each pixel.
pub struct RawFrame {
    pub meta: FrameMeta,
    pub palette: Option<Vec<u8>>,
    pub buffer: Vec<u8>,
}

/// What a container holds that can be opened: its canvas, its global
/// palette, if it has one, as flat triplets, the frames that reading it
/// yields, and whether reading fails after them rather than finds the end.
pub struct GifContents {
    pub canvas: (u16, u16),
    pub global_palette: Option<Vec<u8>>,
    pub frames: Seq<RawFrame>,
    pub fails: bool,
}

/// What the container in `bytes` holds, with the pixels asked for as
/// palette indices or as four bytes each, or `None` where its header
/// cannot be read.
pub uninterp spec fn gif_contents(bytes: Seq<u8>, indexed: bool) -> Option<GifContents>;

/// Whether the header of the container in `bytes` can be read.
pub open spec fn gif_opens(bytes: Seq<u8>, indexed: bool) -> bool {
    gif_contents(bytes, indexed) is Some
}

/// The width and height of the canvas that the header of the stream
/// declares.
pub uninterp spec fn stream_canvas(stream: &GifStream) -> (u16, u16);

/// The frames that the stream still holds: those that reading on yields,
/// in order, before a read first yields none.
pub uninterp spec fn stream_frames(stream: &GifStream) -> Seq<RawFrame>;

/// Whether the read after the last of those frames fails rather than finds
/// the end of the container.
pub uninterp spec fn stream_fails(stream: &GifStream) -> bool;

/// The global palette that the header of the stream declares, if any, as
/// flat triplets.
pub uninterp spec fn stream_global_palette(stream: &GifStream) -> Option<Vec<u8>>;

/// A frame as the container takes it: its placement, timing and disposal
/// data, its palette as flat triplets, and one palette index for each
/// pixel.
pub type FrameParts = (FrameMeta, Seq<u8>, Seq<u8>);

/// What a container that is being written holds: its canvas, how often it
/// repeats (`None` for ever), and the frames written to it in full.
pub struct Written {
    pub canvas: (u16, u16),
    pub repeat: Option<u16>,
    pub frames: Seq<FrameParts>,
}

/// What a frame of the container holds.
pub uninterp spec fn frame_parts(frame: &GifFrame) -> FrameParts;

/// What the sink holds.
pub uninterp spec fn sink_holds(sink: &GifSink) -> Written;

/// The bytes of a container that holds `written`, once it is closed.
pub uninterp spec fn container_bytes(written: Written) -> Seq<u8>;

/// What a container holds after one more frame.
pub open spec fn after(written: Written, frame: FrameParts) -> Written {
    Written { canvas: written.canvas, repeat: written.repeat, frames: written.frames.push(frame) }
}

/// `DecodeOptions::read_info` on a cursor over `bytes`, with the options
/// as `DecodeOptions::new` gives them but for the colour output: reads the
/// header. Whether that succeeds, and what the stream then holds, is a
/// matter of the bytes and the colour output alone.
#[verifier::external_body]
fn gif_open(bytes: Vec<u8>, indexed: bool) -> (outcome: Result<GifStream, gif::DecodingError>)
    ensures
        match gif_contents(bytes@, indexed) {
            Some(contents) => {
                &&& outcome matches Ok(stream)
                &&& stream_canvas(&stream) == contents.canvas
                &&& stream_global_palette(&stream) == contents.global_palette
                &&& stream_frames(&stream) == contents.frames
                &&& stream_fails(&stream) == contents.fails
            },
            None => outcome is Err,
        },
{
    let mut options = gif::DecodeOptions::new();
    options.set_color_output(if indexed { gif::ColorOutput::Indexed } else { gif::ColorOutput::RGBA });
    Ok(GifStream { inner: options.read_info(std::io::Cursor::new(bytes))? })
}

/// `Decoder::width`: the width of the canvas that the header declares.
#[verifier::external_body]
fn gif_width(stream: &GifStream) -> (width: u16)
    ensures
        width == stream_canvas(stream).0,
{
    stream.inner.width()
}

/// `Decoder::height`: the height of the canvas that the header declares.
#[verifier::external_body]
fn gif_height(stream: &GifStream) -> (height: u16)
    ensures
        height == stream_canvas(stream).1,
{
    stream.inner.height()
}

/// `Decoder::global_palette`, copied.
#[verifier::external_body]
fn gif_global_palette(stream: &GifStream) -> (palette: Option<Vec<u8>>)
    ensures
        palette == stream_global_palette(stream),
{
    stream.inner.global_palette().map(|palette| palette.to_vec())
}

/// `Decoder::read_next_frame`, the frame copied out field by field. The
/// read yields the first of the frames that the stream holds and leaves
/// the rest; where it holds none, the read finds the end, and finds it
/// again ever after, or it fails. The global palette stays as it is.
#[verifier::external_body]
fn gif_read_next_frame(stream: &mut GifStream) -> (outcome: Result<
    Option<RawFrame>,
    gif::DecodingError,
>)
    ensures
        stream_global_palette(final(stream)) == stream_global_palette(old(stream)),
        match outcome {
            Ok(Some(frame)) => {
                &&& stream_frames(old(stream)).len() > 0
                &&& frame == stream_frames(old(stream))[0]
                &&& stream_frames(final(stream)) == stream_frames(old(stream)).skip(1)
                &&& stream_fails(final(stream)) == stream_fails(old(stream))
            },
            Ok(None) => {
                &&& stream_frames(old(stream)).len() == 0
                &&& !stream_fails(old(stream))
                &&& stream_frames(final(stream)).len() == 0
                &&& !stream_fails(final(stream))
            },
            Err(_) => stream_frames(old(stream)).len() == 0 && stream_fails(old(stream)),
        },
{
    let frame = match stream.inner.read_next_frame()? {
        Some(frame) => frame,
        None => return Ok(None),
    };
    let dispose = match frame.dispose {
        gif::DisposalMethod::Any => DisposalMethod::Any,
        gif::DisposalMethod::Keep => DisposalMethod::Keep,
        gif::DisposalMethod::Background => DisposalMethod::Background,
        gif::DisposalMethod::Previous => DisposalMethod::Previous,
    };
    let (origin, dimensions) = ((frame.left, frame.top), (frame.width, frame.height));
    let (transparent_index, needs_input) = (frame.transparent, frame.needs_user_input);
    let (delay, interlaced) = (frame.delay, frame.interlaced);
    let meta = FrameMeta { delay, dispose, origin, dimensions, transparent_index, interlaced, needs_input };
    Ok(Some(RawFrame { meta, palette: frame.palette.clone(), buffer: frame.buffer.to_vec() }))
}

/// The text of `gif::DecodingError`, as its `Display` gives it.
#[verifier::external_body]
fn gif_decoding_error_text(error: &gif::DecodingError) -> String {
    error.to_string()
}

/// `Encoder::new` on an empty buffer, without a global palette, and then
/// `Encoder::set_repeat`. Neither checks anything but the palette, which
/// is empty, and writing to a buffer in memory does not fail: the sink is
/// always had, and holds no frame.
#[verifier::external_body]
fn gif_encoder_new(width: u16, height: u16, repeat: Option<u16>) -> (outcome: Result<
    GifSink,
    gif::EncodingError,
>)
    ensures
        outcome is Ok,
        outcome matches Ok(sink) ==> sink_holds(&sink) == (Written {
            canvas: (width, height),
            repeat,
            frames: Seq::empty(),
        }),
{
    let mut inner = gif::Encoder::new(Vec::new(), width, height, &[])?;
    inner.set_repeat(
        match repeat {
            Some(times) => gif::Repeat::Finite(times),
            None => gif::Repeat::Infinite,
        },
    )?;
    Ok(GifSink { inner })
}

/// `Frame::from_palette_pixels`, which wants one index for each pixel and a
/// palette of at most 256 triplets, and then the fields that it leaves at
/// their defaults: the frame holds what it is given.
#[verifier::external_body]
fn gif_frame_new(meta: FrameMeta, pixels: Vec<u8>, palette: Vec<u8>) -> (frame: GifFrame)
    requires
        pixels@.len() == meta.dimensions.0 * meta.dimensions.1,
        palette@.len() <= 768,
    ensures
        frame_parts(&frame) == (meta, palette@, pixels@),
{
    let (width, height) = meta.dimensions;
    let mut frame = gif::Frame::from_palette_pixels(width, height, pixels, palette, meta.transparent_index);
    frame.left = meta.origin.0;
    frame.top = meta.origin.1;
    frame.delay = meta.delay;
    frame.dispose = match meta.dispose {
        DisposalMethod::Any => gif::DisposalMethod::Any,
        DisposalMethod::Keep => gif::DisposalMethod::Keep,
        DisposalMethod::Background => gif::DisposalMethod::Background,
        DisposalMethod::Previous => gif::DisposalMethod::Previous,
    };
    frame.interlaced = meta.interlaced;
    frame.needs_user_input = meta.needs_input;
    GifFrame { inner: frame }
}

/// `Encoder::write_frame`. A frame that `gif_frame_new` made has a palette
/// of at most 256 colours and an index for each pixel, which is all that
/// the writer checks, and writing to a buffer in memory does not fail: the
/// frame is always taken, and is one frame more that the sink holds. The
/// writer reserves memory for the frame's data; that memory is to be had
/// is taken for granted here as it is of every `Vec`.
#[verifier::external_body]
fn gif_write_frame(sink: &mut GifSink, frame: &GifFrame) -> (outcome: Result<
    (),
    gif::EncodingError,
>)
    ensures
        outcome is Ok,
        sink_holds(final(sink)) == after(sink_holds(old(sink)), frame_parts(frame)),
{
    sink.inner.write_frame(&frame.inner)
}

/// `Encoder::into_inner`: writes the trailer, which does not fail on a
/// buffer in memory, and hands out the bytes; they are a matter of what
/// the sink holds alone.
#[verifier::external_body]
fn gif_into_inner(sink: GifSink) -> (outcome: Result<Vec<u8>, String>)
    ensures
        outcome is Ok,
        outcome matches Ok(bytes) ==> bytes@ == container_bytes(sink_holds(&sink)),
{
    sink.inner.into_inner().map_err(|error| error.to_string())
}

/// The text of `gif::EncodingError`, as its `Display` gives it.
#[verifier::external_body]
fn gif_encoding_error_text(error: &gif::EncodingError) -> String {
    error.to_string()
}

/// The palette bytes that a frame is read with: its own, or else the
/// global palette unless that is empty.
pub open spec fn chosen_palette(local: Option<Vec<u8>>, global: Option<Vec<u8>>) -> Option<
    Seq<u8>,
> {
    match local {
        Some(bytes) => Some(bytes@),
        None => match global {
            Some(bytes) => if bytes@.len() == 0 {
                None
            } else {
                Some(bytes@)
            },
            None => None,
        },
    }
}

/// Whether a frame can be made of these parts: there is a palette, it is
/// made of at most 256 triplets, and there is one index for each pixel.
pub open spec fn parts_fit(
    meta: FrameMeta,
    local: Option<Vec<u8>>,
    global: Option<Vec<u8>>,
    buffer: Seq<u8>,
) -> bool {
    &&& chosen_palette(local, global) matches Some(bytes)
    &&& bytes.len() % 3 == 0
    &&& bytes.len() <= 768
    &&& buffer.len() == meta.dimensions.0 * meta.dimensions.1
}

/// `frame` is the frame made of these parts: their placement, timing and
/// disposal data, their pixels, and the colours that their palette stands
/// for.
pub open spec fn is_read_frame<C: Color>(
    meta: FrameMeta,
    local: Option<Vec<u8>>,
    global: Option<Vec<u8>>,
    buffer: Seq<u8>,
    frame: Frame<C>,
) -> bool {
    &&& frame.wf()
    &&& frame.delay == meta.delay
    &&& frame.dispose == meta.dispose
    &&& frame.origin == meta.origin
    &&& frame.dimensions == meta.dimensions
    &&& frame.palette.colors@ == colors_of_gif_format::<C>(chosen_palette(local, global).unwrap())
    &&& frame.pixels_indexed@ == buffer
    &&& frame.transparent_index == meta.transparent_index
    &&& frame.interlaced == meta.interlaced
    &&& frame.needs_input == meta.needs_input
}

/// Whether a frame can be made of what was read, with `global` to fall back
/// on.
pub open spec fn raw_fits(raw: RawFrame, global: Option<Vec<u8>>) -> bool {
    parts_fit(raw.meta, raw.palette, global, raw.buffer@)
}

/// `frame` is the frame made of what was read, with `global` to fall back
/// on.
pub open spec fn is_frame_of<C: Color>(
    raw: RawFrame,
    global: Option<Vec<u8>>,
    frame: Frame<C>,
) -> bool {
    is_read_frame(raw.meta, raw.palette, global, raw.buffer@, frame)
}

/// How many of `raws` come before the first of which no frame can be made.
pub open spec fn leading_fits(raws: Seq<RawFrame>, global: Option<Vec<u8>>) -> int
    decreases raws.len(),
{
    if raws.len() == 0 {
        0
    } else if !raw_fits(raws[0], global) {
        0
    } else {
        1 + leading_fits(raws.skip(1), global)
    }
}

/// Whether a frame can be made of every one of `raws`.
pub open spec fn all_fit(raws: Seq<RawFrame>, global: Option<Vec<u8>>) -> bool {
    forall|i: int| 0 <= i < raws.len() ==> raw_fits(#[trigger] raws[i], global)
}

/// The frame made of what was read from the container, in the colour space
/// `C`. A frame without any palette, with a palette that is not made of at
/// most 256 triplets, or with a buffer that does not match its extent is a
/// frame that could not be read.
pub fn frame_from_parts<C: Color>(
    meta: FrameMeta,
    local_palette: Option<Vec<u8>>,
    global_palette: Option<Vec<u8>>,
    buffer: Vec<u8>,
) -> (result: Result<Frame<C>, DecodeError>)
    ensures
        result is Ok <==> parts_fit(meta, local_palette, global_palette, buffer@),
        result matches Ok(frame) ==> is_read_frame(
            meta,
            local_palette,
            global_palette,
            buffer@,
            frame,
        ),
        result matches Err(error) ==> error matches DecodeError::FrameRead(None, _),
{
    let bytes = match local_palette {
        Some(bytes) => bytes,
        None => {
            let fallback = match global_palette {
                Some(bytes) => bytes,
                None => Vec::new(),
            };
            if fallback.len() == 0 {
                return Err(
                    DecodeError::FrameRead(
                        None,
                        String::from_str("Frame had no valid global palette to fall back to"),
                    ),
                );
            }
            fallback
        },
    };
    if bytes.len() % 3 != 0 || bytes.len() > 768 {
        return Err(
            DecodeError::FrameRead(
                None,
                String::from_str("Frame had a palette that is not made of at most 256 triplets"),
            ),
        );
    }
    if buffer.len() != extent_area(meta.dimensions) {
        return Err(
            DecodeError::FrameRead(
                None,
                String::from_str("Frame had a buffer that does not match its extent"),
            ),
        );
    }
    let palette = Palette::<C>::from_gif_format(bytes.as_slice());
    Ok(
        Frame {
            delay: meta.delay,
            dispose: meta.dispose,
            origin: meta.origin,
            dimensions: meta.dimensions,
            palette,
            pixels_indexed: buffer,
            transparent_index: meta.transparent_index,
            interlaced: meta.interlaced,
            needs_input: meta.needs_input,
        },
    )
}

/// A decoder of the animated container.
pub struct GifDecoder<C> {
    phantom: PhantomData<C>,
    decoder: GifStream,
    width: u16,
    height: u16,
}

impl<C: Color> GifDecoder<C> {
    /// The stream that the decoder reads.
    pub closed spec fn stream(&self) -> GifStream {
        self.decoder
    }

    /// The frames that are still to be read, as the container holds them.
    pub closed spec fn upcoming(&self) -> Seq<RawFrame> {
        stream_frames(&self.decoder)
    }

    /// Whether reading fails after the last of those frames, rather than
    /// finds the end of the container.
    pub closed spec fn fails(&self) -> bool {
        stream_fails(&self.decoder)
    }

    /// The global palette of the container, if it has one.
    pub closed spec fn global_palette(&self) -> Option<Vec<u8>> {
        stream_global_palette(&self.decoder)
    }

    /// A decoder for the container in `read`, with the pixels left as
    /// palette indices. It is had exactly where the header can be read; a
    /// header that cannot is an initialization failure, with the outside
    /// decoder's words as its cause.
    pub fn new(read: Vec<u8>) -> (result: Result<Self, DecodeError>)
        ensures
            result is Ok <==> gif_opens(read@, true),
            result matches Ok(decoder) ==> {
                &&& gif_contents(read@, true) matches Some(contents)
                &&& decoder.dimensions() == contents.canvas
                &&& decoder.global_palette() == contents.global_palette
                &&& decoder.upcoming() == contents.frames
                &&& decoder.fails() == contents.fails
            },
            result matches Err(error) ==> error matches DecodeError::Init(Some(_), description)
                && description@ == "Could not read image"@,
    {
        match gif_open(read, true) {
            Ok(decoder) => {
                let width = gif_width(&decoder);
                let height = gif_height(&decoder);
                Ok(GifDecoder { phantom: PhantomData, decoder, width, height })
            },
            Err(error) => Err(
                DecodeError::Init(
                    Some(gif_decoding_error_text(&error)),
                    String::from_str("Could not read image"),
                ),
            ),
        }
    }

    /// The width of the canvas.
    pub fn get_width(&self) -> (width: u16)
        ensures
            width == self.dimensions().0,
    {
        self.width
    }

    /// The height of the canvas.
    pub fn get_height(&self) -> (height: u16)
        ensures
            height == self.dimensions().1,
    {
        self.height
    }

    /// The sequence of this decoder's frames.
    pub fn into_iter(self) -> (iter: GifDecoderImpl<C>)
        ensures
            iter.decoder() == self,
    {
        GifDecoderImpl { decoder: self }
    }
}

impl<C: Color> Decodable for GifDecoder<C> {
    type OutputColor = C;

    closed spec fn dimensions(&self) -> (u16, u16) {
        (self.width, self.height)
    }

    closed spec fn pending(&self) -> nat {
        stream_frames(&self.decoder).len()
    }

    /// The next frame of the container with its own palette or, without
    /// one, the global palette. Where no frame is left the result is
    /// `None`, or a failure where the container is cut short; a frame that
    /// is left is read, and is a failure where nothing can be made of it.
    fn decode(&mut self) -> (result: Result<Option<Frame<C>>, DecodeError>)
        ensures
            final(self).global_palette() == old(self).global_palette(),
            old(self).upcoming().len() == 0 && !old(self).fails() ==> {
                &&& result matches Ok(None)
                &&& final(self).upcoming().len() == 0
                &&& !final(self).fails()
            },
            old(self).upcoming().len() == 0 && old(self).fails() ==> (result matches Err(
                DecodeError::FrameRead(Some(_), description),
            ) && description@ == "Could not read the next frame"@),
            old(self).upcoming().len() > 0 ==> {
                &&& final(self).upcoming() == old(self).upcoming().skip(1)
                &&& final(self).fails() == old(self).fails()
                &&& if raw_fits(old(self).upcoming()[0], old(self).global_palette()) {
                    result matches Ok(Some(frame)) && is_frame_of(
                        old(self).upcoming()[0],
                        old(self).global_palette(),
                        frame,
                    )
                } else {
                    result matches Err(DecodeError::FrameRead(None, _))
                }
            },
            result matches Err(error) ==> error is FrameRead,
    {
        let global_palette = gif_global_palette(&self.decoder);
        let frame = match gif_read_next_frame(&mut self.decoder) {
            Ok(Some(frame)) => frame,
            Ok(None) => {
                return Ok(None);
            },
            Err(error) => {
                return Err(
                    DecodeError::FrameRead(
                        Some(gif_decoding_error_text(&error)),
                        String::from_str("Could not read the next frame"),
                    ),
                );
            },
        };
        match frame_from_parts::<C>(frame.meta, frame.palette, global_palette, frame.buffer) {
            Ok(frame) => Ok(Some(frame)),
            Err(error) => Err(error),
        }
    }

    /// Every frame that is left, in order: they are had exactly where the
    /// container is not cut short and a frame can be made of each; `None`
    /// where no frame is left. Reading stops at the first frame of which
    /// none can be made: that is a failure without a cause, and the frames
    /// after it are left in the stream. A container that is cut short is a
    /// failure with the outside decoder's words as its cause.
    fn decode_all(&mut self) -> (result: Result<Option<Vec<Frame<C>>>, DecodeError>)
        ensures
            final(self).global_palette() == old(self).global_palette(),
            !all_fit(old(self).upcoming(), old(self).global_palette()) ==> {
                &&& result matches Err(DecodeError::FrameRead(None, _))
                &&& final(self).upcoming() == old(self).upcoming().skip(
                    leading_fits(old(self).upcoming(), old(self).global_palette()) + 1,
                )
                &&& final(self).fails() == old(self).fails()
            },
            all_fit(old(self).upcoming(), old(self).global_palette()) && old(self).fails() ==> (
            result matches Err(DecodeError::FrameRead(Some(_), description)) && description@
                == "Could not read the next frame"@),
            result is Ok <==> all_fit(old(self).upcoming(), old(self).global_palette()) && !old(self).fails(),
            result matches Ok(None) ==> old(self).upcoming().len() == 0,
            result matches Ok(Some(frames)) ==> {
                &&& frames@.len() == old(self).upcoming().len()
                &&& forall|i: int|
                    0 <= i < frames@.len() ==> is_frame_of(
                        old(self).upcoming()[i],
                        old(self).global_palette(),
                        #[trigger] frames@[i],
                    )
            },
            result is Ok ==> final(self).upcoming().len() == 0 && !final(self).fails(),
            result matches Err(error) ==> error is FrameRead,
    {
        let mut frames: Vec<Frame<C>> = Vec::new();
        let ghost start = self.upcoming();
        let ghost global = self.global_palette();
        proof {
            assert(start.skip(0) == start);
        }
        loop
            invariant
                self.dimensions() == old(self).dimensions(),
                start == old(self).upcoming(),
                global == old(self).global_palette(),
                self.global_palette() == global,
                self.fails() == old(self).fails(),
                frames@.len() <= start.len(),
                self.upcoming() == start.skip(frames@.len() as int),
                leading_fits(start, global) == frames@.len() + leading_fits(
                    start.skip(frames@.len() as int),
                    global,
                ),
                forall|i: int|
                    0 <= i < frames@.len() ==> raw_fits(#[trigger] start[i], global),
                forall|i: int|
                    0 <= i < frames@.len() ==> is_frame_of(start[i], global, #[trigger] frames@[i]),
            ensures
                frames@.len() == start.len(),
                !old(self).fails(),
                self.upcoming().len() == 0,
                !self.fails(),
            decreases self.upcoming().len(),
        {
            let ghost read = frames@.len() as int;
            match self.decode() {
                Ok(Some(frame)) => {
                    proof {
                        assert(start.skip(read)[0] == start[read]);
                        assert(start.skip(read).skip(1) == start.skip(read + 1));
                    }
                    frames.push(frame);
                },
                Ok(None) => {
                    break ;
                },
                Err(error) => {
                    proof {
                        if start.skip(read).len() > 0 {
                            assert(start.skip(read)[0] == start[read]);
                            assert(!raw_fits(start[read], global));
                        }
                    }
                    return Err(error);
                },
            }
        }
        if frames.len() != 0 {
            return Ok(Some(frames));
        }
        Ok(None)
    }

    fn get_dimensions(&self) -> (dimensions: (u16, u16)) {
        (self.width, self.height)
    }
}

/// A decoder of the animated container as a sequence of frames.
pub struct GifDecoderImpl<C> {
    decoder: GifDecoder<C>,
}

impl<C: Color> GifDecoderImpl<C> {
    /// The decoder that the frames come from.
    pub closed spec fn decoder(&self) -> GifDecoder<C> {
        self.decoder
    }

    /// The next frame; `None` at the end of the sequence and where decoding
    /// fails. A frame comes exactly where one is left of which a frame can
    /// be made, and it is that frame; a frame that is left is read either
    /// way.
    pub fn next(&mut self) -> (frame: Option<Frame<C>>)
        ensures
            final(self).decoder().dimensions() == old(self).decoder().dimensions(),
            frame is Some <==> old(self).decoder().upcoming().len() > 0 && raw_fits(
                old(self).decoder().upcoming()[0],
                old(self).decoder().global_palette(),
            ),
            frame matches Some(frame) ==> is_frame_of(
                old(self).decoder().upcoming()[0],
                old(self).decoder().global_palette(),
                frame,
            ),
            old(self).decoder().upcoming().len() > 0 ==> final(self).decoder().upcoming() == old(self).decoder().upcoming().skip(1),
            final(self).decoder().global_palette() == old(self).decoder().global_palette(),
    {
        match self.decoder.decode() {
            Ok(frame) => frame,
            Err(_) => None,
        }
    }
}

/// The placement, timing and disposal data of a frame.
pub open spec fn meta_of<C: Color>(frame: Frame<C>) -> FrameMeta {
    FrameMeta {
        delay: frame.delay,
        dispose: frame.dispose,
        origin: frame.origin,
        dimensions: frame.dimensions,
        transparent_index: frame.transparent_index,
        interlaced: frame.interlaced,
        needs_input: frame.needs_input,
    }
}

/// A frame as the container takes it: its placement, timing and disposal
/// data, its palette flattened to triplets, and its pixels.
pub open spec fn parts_of<C: Color>(frame: Frame<C>) -> FrameParts {
    (meta_of(frame), gif_format_of(frame.palette.colors@), frame.pixels_indexed@)
}

/// The frames as the container takes them, in order.
pub open spec fn parts_seq<C: Color>(frames: Seq<Frame<C>>) -> Seq<FrameParts> {
    Seq::new(frames.len(), |i: int| parts_of(frames[i]))
}

/// How many of `frames` come before the first that is refused: a frame is
/// refused where it is not well-formed.
pub open spec fn accepted<C: Color>(frames: Seq<Frame<C>>) -> nat
    decreases frames.len(),
{
    if frames.len() == 0 {
        0
    } else if frames[0].wf() {
        1 + accepted(frames.skip(1))
    } else {
        0
    }
}

/// Where every frame is well-formed, none is refused.
pub proof fn lemma_accepted_all<C: Color>(frames: Seq<Frame<C>>)
    requires
        forall|i: int| 0 <= i < frames.len() ==> (#[trigger] frames[i]).wf(),
    ensures
        accepted(frames) == frames.len(),
    decreases frames.len(),
{
    if frames.len() > 0 {
        assert forall|i: int| 0 <= i < frames.skip(1).len() implies (#[trigger] frames.skip(
            1,
        )[i]).wf() by {
            assert(frames.skip(1)[i] == frames[i + 1]);
        }
        lemma_accepted_all(frames.skip(1));
    }
}

/// The frames that were read from a container are taken by a container:
/// a frame made of what was read is well-formed.
pub proof fn lemma_read_frames_are_taken<C: Color>(
    raws: Seq<RawFrame>,
    global: Option<Vec<u8>>,
    frames: Seq<Frame<C>>,
)
    requires
        frames.len() == raws.len(),
        forall|i: int| 0 <= i < frames.len() ==> is_frame_of(raws[i], global, #[trigger] frames[i]),
    ensures
        accepted(frames) == frames.len(),
{
    lemma_accepted_all(frames);
}

/// What a container that held `written` holds after the first `count` of
/// `frames`.
pub open spec fn after_all<C: Color>(written: Written, frames: Seq<Frame<C>>, count: int) -> Written {
    Written {
        canvas: written.canvas,
        repeat: written.repeat,
        frames: written.frames + parts_seq(frames.take(count)),
    }
}

/// An encoder of the animated container, which repeats forever.
pub struct GifEncoder<C> {
    phantom: PhantomData<C>,
    encoder: GifSink,
    width: u16,
    height: u16,
}

impl<C: Color> GifEncoder<C> {
    /// The width and height of the canvas.
    pub closed spec fn canvas(&self) -> (u16, u16) {
        (self.width, self.height)
    }

    /// What the container holds: its canvas, its repeat, and the frames
    /// written so far.
    pub closed spec fn holds(&self) -> Written {
        sink_holds(&self.encoder)
    }

    /// An encoder for a canvas of the given width and height, which repeats
    /// forever and has nothing written yet. A container in memory can
    /// always be started.
    pub fn new(dimensions: (u16, u16)) -> (result: Result<Self, String>)
        ensures
            result is Ok,
            result matches Ok(encoder) ==> {
                &&& encoder.canvas() == dimensions
                &&& encoder.holds() == (Written {
                    canvas: dimensions,
                    repeat: None,
                    frames: Seq::empty(),
                })
                &&& encoder.written() == 0
            },
    {
        let encoder = match gif_encoder_new(dimensions.0, dimensions.1, None) {
            Ok(encoder) => encoder,
            Err(error) => {
                return Err(gif_encoding_error_text(&error));
            },
        };
        Ok(GifEncoder { phantom: PhantomData, encoder, width: dimensions.0, height: dimensions.1 })
    }

    /// Writes `frame` with its own palette, flattened to triplets, and its
    /// placement, timing and disposal data. The frame is written exactly
    /// where it is well-formed, and is then the last of the frames that the
    /// container holds. A frame that is not well-formed is refused without
    /// a cause, and leaves the container as it was.
    pub fn write(&mut self, frame: Frame<C>) -> (result: Result<(), EncodeError>)
        ensures
            result is Ok <==> frame.wf(),
            result is Ok ==> final(self).holds() == after(old(self).holds(), parts_of(frame)),
            result matches Err(error) ==> {
                &&& final(self).holds() == old(self).holds()
                &&& error matches EncodeError::FrameWrite(None, description)
                &&& description@ == "The frame does not fit its extent or its palette"@
            },
            final(self).canvas() == old(self).canvas(),
            old(self).written() == old(self).holds().frames.len(),
            final(self).written() == final(self).holds().frames.len(),
    {
        if frame.palette.colors.len() > 256 || frame.pixels_indexed.len() != extent_area(
            frame.dimensions,
        ) {
            return Err(
                EncodeError::FrameWrite(
                    None,
                    String::from_str("The frame does not fit its extent or its palette"),
                ),
            );
        }
        let meta = FrameMeta {
            delay: frame.delay,
            dispose: frame.dispose,
            origin: frame.origin,
            dimensions: frame.dimensions,
            transparent_index: frame.transparent_index,
            interlaced: frame.interlaced,
            needs_input: frame.needs_input,
        };
        let pixels = frame.pixels_indexed;
        let palette = frame.palette.into_gif_format();
        let new_frame = gif_frame_new(meta, pixels, palette);
        match gif_write_frame(&mut self.encoder, &new_frame) {
            Ok(()) => Ok(()),
            Err(error) => Err(
                EncodeError::FrameWrite(
                    Some(gif_encoding_error_text(&error)),
                    String::from_str("write_frame errored"),
                ),
            ),
        }
    }

    /// Closes the container and hands out its bytes: those of a container
    /// that holds what was written. A container in memory can always be
    /// closed.
    pub fn into_inner(self) -> (result: Result<Vec<u8>, EncodeError>)
        ensures
            result matches Ok(written) && written@ == container_bytes(self.holds()),
    {
        match gif_into_inner(self.encoder) {
            Ok(bytes) => Ok(bytes),
            Err(cause) => Err(
                EncodeError::Write(Some(cause), String::from_str("Could not close the container")),
            ),
        }
    }
}

impl<C: Color> Encodable for GifEncoder<C> {
    type InputColor = C;

    closed spec fn written(&self) -> nat {
        sink_holds(&self.encoder).frames.len()
    }

    /// Writes one frame, as `write` does.
    fn encode(&mut self, frame: Frame<C>) -> (result: Result<(), EncodeError>)
        ensures
            result is Ok <==> frame.wf(),
            result is Ok ==> final(self).holds() == after(old(self).holds(), parts_of(frame)),
            result matches Err(error) ==> {
                &&& final(self).holds() == old(self).holds()
                &&& error matches EncodeError::FrameWrite(None, description)
                &&& description@ == "The frame does not fit its extent or its palette"@
            },
            final(self).canvas() == old(self).canvas(),
            old(self).written() == old(self).holds().frames.len(),
            final(self).written() == final(self).holds().frames.len(),
    {
        self.write(frame)
    }

    /// Writes the frames in order up to the first that is refused: all of
    /// them are written exactly where none is refused, and the container
    /// then holds those that were taken, after what it held. The frame that
    /// is refused is refused without a cause.
    fn encode_all(&mut self, frames: Vec<Frame<C>>) -> (result: Result<(), EncodeError>)
        ensures
            result is Ok <==> accepted(frames@) == frames@.len(),
            final(self).holds() == after_all(old(self).holds(), frames@, accepted(frames@) as int),
            result matches Err(error) ==> error matches EncodeError::FrameWrite(None, _),
            final(self).canvas() == old(self).canvas(),
            old(self).written() == old(self).holds().frames.len(),
            final(self).written() == final(self).holds().frames.len(),
    {
        let ghost all = frames@;
        let ghost start = self.holds();
        proof {
            assert(all.skip(0) == all);
            assert(parts_seq(all.take(0)) == Seq::<FrameParts>::empty());
            assert(start.frames + Seq::<FrameParts>::empty() == start.frames);
        }
        for frame in iter: frames
            invariant
                iter.seq() == all,
                start == old(self).holds(),
                self.canvas() == old(self).canvas(),
                self.holds() == after_all(start, all, iter.index() as int),
                forall|i: int| 0 <= i < iter.index() ==> (#[trigger] all[i]).wf(),
                accepted(all) == iter.index() + accepted(all.skip(iter.index() as int)),
        {
            let ghost k = iter.index() as int;
            let ghost before = self.holds();
            proof {
                assert(all.skip(k)[0] == all[k]);
                assert(all.skip(k).skip(1) == all.skip(k + 1));
                assert(parts_seq(all.take(k + 1)) == parts_seq(all.take(k)).push(parts_of(all[k])));
                assert(start.frames + parts_seq(all.take(k)).push(parts_of(all[k])) == (start.frames
                    + parts_seq(all.take(k))).push(parts_of(all[k])));
            }
            match self.write(frame) {
                Ok(()) => {},
                Err(error) => {
                    return Err(error);
                },
            }
        }
        proof {
            assert(all.skip(all.len() as int).len() == 0);
        }
        Ok(())
    }
}

} // verus!
