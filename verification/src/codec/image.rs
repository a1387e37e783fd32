//! A still image as a decoder that yields one frame.
use super::{extent_area, Decodable, DecodeError, DisposalMethod, Frame, Palette};
use crate::color::quantize::{
    image_quant_settings, liq_gives, quantized_fits, Quantizer, QuantizerType,
};
use crate::color::Color;
use std::marker::PhantomData;
use vstd::prelude::*;
use vstd::string::StringExecFns;

verus! {

/// `image::ImageFormat`: the name of a file format, carried through as it is.
#[verifier::external_type_specification]
#[verifier::external_body]
pub struct ExImageFormat(image::ImageFormat);

/// `image::ImageError`: why an image could not be read; only its text is read.
#[verifier::external_type_specification]
#[verifier::external_body]
pub struct ExImageError(image::ImageError);

/// The format that the first bytes of a file give away, if any.
pub uninterp spec fn guessed_format(bytes: Seq<u8>) -> Option<image::ImageFormat>;

/// The width, the height and the pixels, four bytes each, of the image
/// that `bytes` hold in the given format, or `None` where they hold none.
pub uninterp spec fn loaded_bitmap(bytes: Seq<u8>, format: image::ImageFormat) -> Option<
    (u32, u32, Seq<u8>),
>;

/// Whether `bytes` hold an image in the given format that a decoder can be
/// made of: it is no larger than a canvas can be, and has four bytes for
/// each of its pixels.
pub open spec fn is_loadable(bytes: Seq<u8>, format: image::ImageFormat) -> bool {
    loaded_bitmap(bytes, format) matches Some((width, height, rgba)) && width <= u16::MAX
        && height <= u16::MAX && rgba.len() == 4 * width * height
}

/// The format in which an image is loaded: the one that is given, or else
/// the one that its first bytes give away.
pub open spec fn chosen_format(bytes: Seq<u8>, format: Option<image::ImageFormat>) -> Option<
    image::ImageFormat,
> {
    match format {
        Some(format) => Some(format),
        None => guessed_format(bytes),
    }
}

/// A decoded still image: its width, its height, and its pixels row by row,
/// four bytes each (red, green, blue, alpha).
pub struct Bitmap {
    pub width: u32,
    pub height: u32,
    pub rgba: Vec<u8>,
}

/// `image::guess_format`: the format named by the magic bytes at the start
/// of `bytes`, or `None` where they name none.
#[verifier::external_body]
fn guess_format(bytes: &Vec<u8>) -> (format: Option<image::ImageFormat>)
    ensures
        format == guessed_format(bytes@),
{
    image::guess_format(bytes).ok()
}

/// `image::load_from_memory_with_format`, the image then read out with
/// `DynamicImage::width`, `height` and `to_rgba8`: what is loaded is a
/// matter of the bytes and the format alone.
#[verifier::external_body]
fn load_bitmap(bytes: &Vec<u8>, format: image::ImageFormat) -> (outcome: Result<
    Bitmap,
    image::ImageError,
>)
    ensures
        match outcome {
            Ok(bitmap) => loaded_bitmap(bytes@, format) == Some(
                (bitmap.width, bitmap.height, bitmap.rgba@),
            ),
            Err(_) => loaded_bitmap(bytes@, format) is None,
        },
{
    let image = image::load_from_memory_with_format(bytes, format)?;
    Ok(Bitmap { width: image.width(), height: image.height(), rgba: image.to_rgba8().into_raw() })
}

/// The text of `image::ImageError`, as its `Display` gives it.
#[verifier::external_body]
fn image_error_text(error: &image::ImageError) -> String {
    error.to_string()
}

/// Pixel `i` of `rgba` as the quantizer is to see it: as it is where it is
/// fully opaque, and cleared to transparent black where it is not.
pub open spec fn flattened_pixel(rgba: Seq<u8>, i: int) -> (u8, u8, u8, u8) {
    if rgba[4 * i + 3] == 255 {
        (rgba[4 * i], rgba[4 * i + 1], rgba[4 * i + 2], rgba[4 * i + 3])
    } else {
        (0, 0, 0, 0)
    }
}

/// The pixels of `rgba`, each fully opaque or cleared.
pub open spec fn flattened(rgba: Seq<u8>) -> Seq<(u8, u8, u8, u8)> {
    Seq::new(rgba.len() / 4, |i: int| flattened_pixel(rgba, i))
}

/// `index` is the first colour of `palette` with alpha zero, if any.
pub open spec fn is_first_transparent(palette: Seq<(u8, u8, u8, u8)>, index: Option<u8>) -> bool {
    match index {
        Some(first) => {
            &&& first < palette.len()
            &&& palette[first as int].3 == 0
            &&& forall|j: int| 0 <= j < first ==> (#[trigger] palette[j]).3 != 0
        },
        None => forall|j: int| 0 <= j < palette.len() && j < 256 ==> (#[trigger] palette[j]).3 != 0,
    }
}

/// The colours of the colour space that stand for `palette`.
pub open spec fn converted<C: Color>(palette: Seq<(u8, u8, u8, u8)>) -> Seq<C> {
    Seq::new(
        palette.len(),
        |i: int| C::from_rgba_spec(palette[i].0, palette[i].1, palette[i].2, palette[i].3),
    )
}

/// `frame` holds what the outside quantizer gave of the image `rgba`, four
/// bytes a pixel, once its pixels were cleared where they are not opaque:
/// the colours of `palette`, the indices that came with it, and the first
/// transparent entry marked.
pub open spec fn is_quantized_frame<C: Color>(
    rgba: Seq<u8>,
    dimensions: (u16, u16),
    palette: Seq<(u8, u8, u8, u8)>,
    frame: Frame<C>,
) -> bool {
    &&& liq_gives(
        image_quant_settings(),
        flattened(rgba),
        dimensions.0 as usize,
        dimensions.1 as usize,
        palette,
        frame.pixels_indexed@,
    )
    &&& quantized_fits(
        flattened(rgba).len() as int,
        (dimensions.0 as usize, dimensions.1 as usize),
        palette,
        frame.pixels_indexed@,
    )
    &&& frame.palette.colors@ == converted::<C>(palette)
    &&& is_first_transparent(palette, frame.transparent_index)
}

/// `frame` is the one frame of the still image `rgba` of the given width
/// and height: without delay, kept on disposal, at the origin, not
/// interlaced, and with what the outside quantizer gave of the image.
pub open spec fn is_still_frame<C: Color>(
    rgba: Seq<u8>,
    dimensions: (u16, u16),
    frame: Frame<C>,
) -> bool {
    &&& frame.delay == 0
    &&& frame.dispose == DisposalMethod::Keep
    &&& frame.origin == (0u16, 0u16)
    &&& frame.dimensions == dimensions
    &&& !frame.interlaced
    &&& !frame.needs_input
    &&& frame.wf()
    &&& forall|i: int|
        0 <= i < frame.pixels_indexed@.len() ==> (#[trigger] frame.pixels_indexed@[i])
            < frame.palette.colors@.len()
    &&& exists|palette: Seq<(u8, u8, u8, u8)>| #[trigger]
        is_quantized_frame(rgba, dimensions, palette, frame)
}

/// Clears every pixel that is not fully opaque: in the container a pixel
/// is either opaque or transparent.
pub fn flatten_transparency(rgba: &Vec<u8>) -> (pixels: Vec<(u8, u8, u8, u8)>)
    ensures
        pixels@ == flattened(rgba@),
{
    let count: usize = rgba.len() / 4;
    let mut pixels: Vec<(u8, u8, u8, u8)> = Vec::new();
    let mut i: usize = 0;
    while i < count
        invariant
            count == rgba@.len() / 4,
            rgba@.len() <= usize::MAX,
            i <= count,
            pixels@.len() == i,
            forall|j: int| 0 <= j < i ==> #[trigger] pixels@[j] == flattened_pixel(rgba@, j),
        decreases count - i,
    {
        if rgba[4 * i + 3] == 255 {
            pixels.push((rgba[4 * i], rgba[4 * i + 1], rgba[4 * i + 2], rgba[4 * i + 3]));
        } else {
            pixels.push((0, 0, 0, 0));
        }
        i += 1;
    }
    assert(pixels@ =~= flattened(rgba@));
    pixels
}

/// The frame of a still image from its quantized palette and indices:
/// no delay, kept on disposal, at the origin, not interlaced, and
/// transparent at the first palette entry with alpha zero.
pub fn still_frame<C: Color>(
    palette: Vec<(u8, u8, u8, u8)>,
    indices: Vec<u8>,
    dimensions: (u16, u16),
) -> (frame: Frame<C>)
    requires
        palette@.len() <= 256,
    ensures
        frame.delay == 0,
        frame.dispose == DisposalMethod::Keep,
        frame.origin == (0u16, 0u16),
        frame.dimensions == dimensions,
        frame.palette.colors@ == converted::<C>(palette@),
        frame.pixels_indexed == indices,
        is_first_transparent(palette@, frame.transparent_index),
        !frame.interlaced,
        !frame.needs_input,
{
    let mut transparent_index: Option<u8> = None;
    let mut colors: Vec<C> = Vec::new();
    let mut i: usize = 0;
    while i < palette.len()
        invariant
            i <= palette@.len() <= 256,
            colors@.len() == i,
            forall|j: int|
                0 <= j < i ==> #[trigger] colors@[j] == C::from_rgba_spec(
                    palette@[j].0,
                    palette@[j].1,
                    palette@[j].2,
                    palette@[j].3,
                ),
            match transparent_index {
                Some(first) => {
                    &&& first < i
                    &&& palette@[first as int].3 == 0
                    &&& forall|j: int| 0 <= j < first ==> (#[trigger] palette@[j]).3 != 0
                },
                None => forall|j: int| 0 <= j < i ==> (#[trigger] palette@[j]).3 != 0,
            },
        decreases palette@.len() - i,
    {
        let pixel = palette[i];
        if transparent_index.is_none() && pixel.3 == 0 {
            transparent_index = Some(i as u8);
        }
        colors.push(C::from_rgba(pixel.0, pixel.1, pixel.2, pixel.3));
        i += 1;
    }
    assert(colors@ =~= converted::<C>(palette@));
    Frame {
        delay: 0,
        dispose: DisposalMethod::Keep,
        origin: (0, 0),
        dimensions,
        palette: Palette::new(colors),
        pixels_indexed: indices,
        transparent_index,
        interlaced: false,
        needs_input: false,
    }
}

/// A still image that is decoded as a sequence of one frame.
pub struct ImageDecoder<C> {
    phantom: PhantomData<C>,
    width: u16,
    height: u16,
    rgba: Vec<u8>,
    decoded: bool,
}

impl<C> ImageDecoder<C> {
    #[verifier::type_invariant]
    spec fn covered(&self) -> bool {
        self.rgba@.len() == 4 * self.width * self.height
    }
}

impl<C: Color> ImageDecoder<C> {
    /// Whether the one frame has been handed out.
    pub closed spec fn exhausted(&self) -> bool {
        self.decoded
    }

    /// The pixels of the image, four bytes each.
    pub closed spec fn pixels(&self) -> Seq<u8> {
        self.rgba@
    }

    /// The decoder for the image that was loaded, or why there is none:
    /// the image could not be read, it is larger than a canvas can be, or
    /// it does not have four bytes for each of its pixels.
    pub fn from_loaded(outcome: Result<Bitmap, image::ImageError>) -> (result: Result<
        Self,
        DecodeError,
    >)
        ensures
            result is Ok <==> (outcome matches Ok(bitmap) && bitmap.width <= u16::MAX
                && bitmap.height <= u16::MAX && bitmap.rgba@.len() == 4 * bitmap.width
                * bitmap.height),
            result matches Ok(decoder) ==> {
                &&& !decoder.exhausted()
                &&& decoder.dimensions() == (
                    outcome->Ok_0.width as u16,
                    outcome->Ok_0.height as u16,
                )
                &&& decoder.pixels() == outcome->Ok_0.rgba@
            },
            outcome is Err ==> (result matches Err(DecodeError::Read(Some(_), description))
                && description@ == "Unable to decode properly"@),
            outcome is Ok ==> (result matches Err(error) ==> error matches DecodeError::Read(
                None,
                _,
            )),
    {
        match outcome {
            Ok(bitmap) => {
                if bitmap.width > 0xffff || bitmap.height > 0xffff {
                    return Err(
                        DecodeError::Read(
                            None,
                            String::from_str("The image is larger than a canvas can be"),
                        ),
                    );
                }
                let width = bitmap.width as u16;
                let height = bitmap.height as u16;
                let area = extent_area((width, height));
                assert(4 * bitmap.width * bitmap.height == 4 * (bitmap.width * bitmap.height))
                    by (nonlinear_arith);
                if bitmap.rgba.len() as u64 != 4 * (area as u64) {
                    return Err(
                        DecodeError::Read(
                            None,
                            String::from_str("The image does not have four bytes for each pixel"),
                        ),
                    );
                }
                Ok(
                    ImageDecoder {
                        phantom: PhantomData,
                        width: bitmap.width as u16,
                        height: bitmap.height as u16,
                        rgba: bitmap.rgba,
                        decoded: false,
                    },
                )
            },
            Err(error) => Err(
                DecodeError::Read(
                    Some(image_error_text(&error)),
                    String::from_str("Unable to decode properly"),
                ),
            ),
        }
    }

    /// Loads `read` in the given format; without a format there is nothing
    /// to load.
    pub fn new_impl(read: &Vec<u8>, format: Option<image::ImageFormat>) -> (result: Result<
        Self,
        DecodeError,
    >)
        ensures
            format is None ==> (result matches Err(DecodeError::Read(None, description))
                && description@ == "Passed in Read doesn't yield valid format data"@),
            format matches Some(given) ==> (result is Ok <==> is_loadable(read@, given)),
            result matches Ok(decoder) ==> {
                &&& !decoder.exhausted()
                &&& loaded_bitmap(read@, format.unwrap()) matches Some((width, height, rgba))
                &&& decoder.dimensions() == (width as u16, height as u16)
                &&& decoder.pixels() == rgba
            },
            format matches Some(given) && loaded_bitmap(read@, given) is None ==> (
            result matches Err(DecodeError::Read(Some(_), description)) && description@
                == "Unable to decode properly"@),
            format matches Some(given) && loaded_bitmap(read@, given) is Some ==> (
            result matches Err(error) ==> error matches DecodeError::Read(None, _)),
            result matches Err(error) ==> error is Read,
    {
        match format {
            None => Err(
                DecodeError::Read(
                    None,
                    String::from_str("Passed in Read doesn't yield valid format data"),
                ),
            ),
            Some(format) => Self::from_loaded(load_bitmap(read, format)),
        }
    }

    /// A decoder for the image in `read`, in the given format or, without
    /// one, in the format that its first bytes give away.
    pub fn new(read: Vec<u8>, format: Option<image::ImageFormat>) -> (result: Result<
        Self,
        DecodeError,
    >)
        ensures
            chosen_format(read@, format) is None ==> (result matches Err(
                DecodeError::Read(None, description),
            ) && description@ == "Passed in Read doesn't yield valid format data"@),
            chosen_format(read@, format) matches Some(chosen) ==> (result is Ok <==> is_loadable(
                read@,
                chosen,
            )),
            result matches Ok(decoder) ==> {
                &&& !decoder.exhausted()
                &&& loaded_bitmap(read@, chosen_format(read@, format).unwrap()) matches Some(
                    (width, height, rgba),
                )
                &&& decoder.dimensions() == (width as u16, height as u16)
                &&& decoder.pixels() == rgba
            },
            chosen_format(read@, format) matches Some(chosen) && loaded_bitmap(read@, chosen)
                is None ==> (result matches Err(DecodeError::Read(Some(_), description))
                && description@ == "Unable to decode properly"@),
            chosen_format(read@, format) matches Some(chosen) && loaded_bitmap(read@, chosen)
                is Some ==> (result matches Err(error) ==> error matches DecodeError::Read(
                None,
                _,
            )),
            result matches Err(error) ==> error is Read,
    {
        let format = match format {
            Some(format) => Some(format),
            None => guess_format(&read),
        };
        Self::new_impl(&read, format)
    }
}

impl<C: Color> Decodable for ImageDecoder<C> {
    type OutputColor = C;

    closed spec fn dimensions(&self) -> (u16, u16) {
        (self.width, self.height)
    }

    closed spec fn pending(&self) -> nat {
        if self.decoded {
            0
        } else {
            1
        }
    }

    /// The one frame of the image, quantized to at most 256 colours, or
    /// `None` once it has been handed out.
    fn decode(&mut self) -> (result: Result<Option<Frame<C>>, DecodeError>)
        ensures
            old(self).exhausted() ==> (result matches Ok(None) && final(self).exhausted()),
            final(self).pixels() == old(self).pixels(),
            !old(self).exhausted() ==> match result {
                Ok(Some(frame)) => {
                    &&& final(self).exhausted()
                    &&& is_still_frame(old(self).pixels(), old(self).dimensions(), frame)
                },
                Ok(None) => false,
                Err(error) => {
                    &&& error matches DecodeError::FrameRead(Some(_), description)
                    &&& description@ == "Unable to quantize the image"@
                    &&& !final(self).exhausted()
                },
            },
    {
        proof {
            use_type_invariant(&*self);
        }
        if self.decoded {
            return Ok(None);
        }
        let pixels = flatten_transparency(&self.rgba);
        let quantizer = Quantizer::new(256, QuantizerType::IMAGEQUANT);
        let (palette, indices) = match quantizer.run(
            pixels,
            (self.width as usize, self.height as usize),
        ) {
            Ok(quantized) => quantized,
            Err(error) => {
                return Err(
                    DecodeError::FrameRead(
                        Some(error.to_string()),
                        String::from_str("Unable to quantize the image"),
                    ),
                );
            },
        };
        let ghost answer = palette@;
        let frame = still_frame::<C>(palette, indices, (self.width, self.height));
        self.decoded = true;
        proof {
            assert(is_quantized_frame(old(self).pixels(), old(self).dimensions(), answer, frame));
            assert(frame.palette.colors@.len() == answer.len());
            assert(frame.wf());
            assert(self.exhausted());
        }
        Ok(Some(frame))
    }

    fn decode_all(&mut self) -> (result: Result<Option<Vec<Frame<C>>>, DecodeError>)
        ensures
            old(self).exhausted() ==> result matches Ok(None),
            old(self).exhausted() ==> final(self).exhausted(),
            result matches Ok(Some(frames)) ==> {
                &&& frames@.len() == 1
                &&& final(self).exhausted()
                &&& is_still_frame(old(self).pixels(), old(self).dimensions(), frames@[0])
            },
            final(self).pixels() == old(self).pixels(),
            !old(self).exhausted() ==> !(result matches Ok(None)),
            result matches Err(error) ==> {
                &&& error matches DecodeError::FrameRead(Some(_), description)
                &&& description@ == "Unable to quantize the image"@
                &&& !final(self).exhausted()
            },
    {
        if self.decoded {
            return Ok(None);
        }
        match self.decode() {
            Ok(Some(frame)) => {
                let mut frames: Vec<Frame<C>> = Vec::new();
                frames.push(frame);
                Ok(Some(frames))
            },
            Ok(None) => Ok(None),
            Err(error) => Err(error),
        }
    }

    fn get_dimensions(&self) -> (dimensions: (u16, u16)) {
        (self.width, self.height)
    }
}

/// An image decoder as a sequence of frames.
pub struct ImageDecoderIter<C> {
    decoder: ImageDecoder<C>,
}

impl<C: Color> ImageDecoder<C> {
    /// The sequence of this decoder's frames.
    pub fn into_iter(self) -> (iter: ImageDecoderIter<C>)
        ensures
            iter.decoder() == self,
    {
        ImageDecoderIter { decoder: self }
    }
}

impl<C: Color> ImageDecoderIter<C> {
    /// The decoder that the frames come from.
    pub closed spec fn decoder(&self) -> ImageDecoder<C> {
        self.decoder
    }

    /// The next frame; `None` at the end of the sequence and where decoding
    /// fails. The one frame of the image has no delay, is kept on disposal,
    /// lies at the origin and covers the canvas; once it has come, the
    /// sequence is at its end. Where decoding fails, the frame is still to
    /// come.
    pub fn next(&mut self) -> (frame: Option<Frame<C>>)
        ensures
            final(self).decoder().dimensions() == old(self).decoder().dimensions(),
            final(self).decoder().pixels() == old(self).decoder().pixels(),
            old(self).decoder().exhausted() ==> frame is None && final(self).decoder().exhausted(),
            frame matches Some(frame) ==> {
                &&& !old(self).decoder().exhausted()
                &&& final(self).decoder().exhausted()
                &&& is_still_frame(
                    old(self).decoder().pixels(),
                    old(self).decoder().dimensions(),
                    frame,
                )
            },
            frame is None && !old(self).decoder().exhausted() ==> !final(self).decoder().exhausted(),
    {
        match self.decoder.decode() {
            Ok(frame) => frame,
            Err(_) => None,
        }
    }
}

} // verus!
