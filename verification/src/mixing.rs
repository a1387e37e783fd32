//! The blending policies, applied to every colour of every frame, and the
//! run from the bytes of the input to the bytes of the output.
use crate::codec::gif::{
    accepted, after_all, all_fit, container_bytes, gif_contents, is_frame_of,
    lemma_accepted_all, GifDecoder, GifEncoder, Written,
};
use crate::codec::image::{
    guessed_format, is_loadable, is_still_frame, loaded_bitmap, ImageDecoder,
};
use crate::codec::{Decodable, DecodeError, Encodable, EncodeError, Frame, Palette};
use crate::color::gradient::GradientGeneratorType;
use crate::color::{blend_colors, blend_spec, Color, Componentize, MixingMode, Ratio};
use crate::commandline::{
    anchors_of, get_colors, get_gradient, is_color_token, is_gradient_of, CommandlineError,
};
use vstd::prelude::*;
use vstd::string::StringExecFns;

verus! {

/// Why a run failed.
#[derive(Debug)]
pub enum PipelineError {
    Commandline(CommandlineError),
    Decode(DecodeError),
    Encode(EncodeError),
}

/// The alpha above which the threshold-linear policy mixes: one half.
pub open spec fn alpha_threshold() -> Ratio {
    Ratio { num: 1, den: 2 }
}

/// How far the threshold-linear policy moves towards the gradient colour:
/// one fifth.
pub open spec fn linear_weight() -> Ratio {
    Ratio { num: 1, den: 5 }
}

/// `mixed` is what the policy `mode` makes of the pixel `base` and the
/// gradient colour `top`.
pub open spec fn is_mixed<H, S, L, A, C: Color + Componentize<H, S, L, A>>(
    mode: MixingMode,
    base: C,
    top: C,
    mixed: C,
) -> bool {
    match mode {
        MixingMode::Identity => cloned(base, mixed),
        MixingMode::Custom | MixingMode::Lab => mixed == blend_spec::<H, S, L, A, C>(
            &base,
            &top,
            true,
        ),
        MixingMode::Linear => if base.alpha_above_spec(alpha_threshold()) {
            mixed == base.mix_spec(&top, linear_weight())
        } else {
            cloned(base, mixed)
        },
        MixingMode::BlendOverlay => false,
    }
}

/// `mixed` is `base` with every colour of its palette mixed with `top`
/// under `mode`, and everything else as it was.
pub open spec fn is_mixed_frame<H, S, L, A, C: Color + Componentize<H, S, L, A>>(
    mode: MixingMode,
    base: Frame<C>,
    top: C,
    mixed: Frame<C>,
) -> bool {
    &&& mixed.delay == base.delay
    &&& mixed.dispose == base.dispose
    &&& mixed.origin == base.origin
    &&& mixed.dimensions == base.dimensions
    &&& mixed.pixels_indexed@ == base.pixels_indexed@
    &&& mixed.transparent_index == base.transparent_index
    &&& mixed.interlaced == base.interlaced
    &&& mixed.needs_input == base.needs_input
    &&& mixed.palette.colors@.len() == base.palette.colors@.len()
    &&& forall|j: int|
        0 <= j < base.palette.colors@.len() ==> is_mixed::<H, S, L, A, C>(
            mode,
            base.palette.colors@[j],
            top,
            #[trigger] mixed.palette.colors@[j],
        )
}

/// The identity policy: the pixel as it is.
pub fn mix_none<C: Color>(a: &C, b: &C) -> (mixed: C)
    ensures
        cloned(*a, mixed),
{
    a.clone()
}

/// The hue and chroma of the gradient colour on the lightness and alpha of
/// the pixel.
pub fn mix_custom<H, S, L, A, C: Componentize<H, S, L, A>>(a: &C, b: &C) -> (mixed: C)
    ensures
        mixed == blend_spec::<H, S, L, A, C>(a, b, true),
{
    blend_colors::<H, S, L, A, C>(a, b, true)
}

/// The two chromatic axes of the gradient colour on the lightness and alpha
/// of the pixel, in a rectangular space whose components are its two
/// chromatic axes, its lightness and its alpha.
pub fn mix_lab<H, S, L, A, C: Componentize<H, S, L, A>>(a: &C, b: &C) -> (mixed: C)
    ensures
        mixed == blend_spec::<H, S, L, A, C>(a, b, true),
{
    blend_colors::<H, S, L, A, C>(a, b, true)
}

/// The threshold-linear policy, an approximation: a pixel whose alpha is at
/// most one half is left as it is, any other moves one fifth of the way
/// towards the gradient colour.
pub fn mix_linear<C: Color>(a: &C, b: &C) -> (mixed: C)
    ensures
        a.alpha_above_spec(alpha_threshold()) ==> mixed == a.mix_spec(b, linear_weight()),
        !a.alpha_above_spec(alpha_threshold()) ==> cloned(*a, mixed),
{
    if !a.alpha_above(Ratio { num: 1, den: 2 }) {
        return a.clone();
    }
    a.mix(b, Ratio { num: 1, den: 5 })
}

/// What is said of the one policy that has no formula.
pub open spec fn not_implemented_text() -> Seq<char> {
    "Blend overlay mixing is not implemented"@
}

/// The error of the one policy that has no formula: without a cause, and
/// with the words above.
fn not_implemented() -> (error: CommandlineError)
    ensures
        error matches CommandlineError::NotImplemented(None, description) && description@
            == not_implemented_text(),
{
    CommandlineError::NotImplemented(
        None,
        String::from_str("Blend overlay mixing is not implemented"),
    )
}

/// The pixel `a` mixed with the gradient colour `b` under `mode`. The
/// overlay blend is not implemented.
pub fn mix_pixel<H, S, L, A, C: Color + Componentize<H, S, L, A>>(
    mode: MixingMode,
    a: &C,
    b: &C,
) -> (result: Result<C, CommandlineError>)
    ensures
        result is Ok <==> mode != MixingMode::BlendOverlay,
        result matches Ok(mixed) ==> is_mixed::<H, S, L, A, C>(mode, *a, *b, mixed),
        result matches Err(error) ==> error is NotImplemented,
{
    match mode {
        MixingMode::Identity => Ok(mix_none(a, b)),
        MixingMode::Custom => Ok(mix_custom::<H, S, L, A, C>(a, b)),
        MixingMode::Lab => Ok(mix_lab::<H, S, L, A, C>(a, b)),
        MixingMode::Linear => Ok(mix_linear(a, b)),
        MixingMode::BlendOverlay => Err(not_implemented()),
    }
}

/// The frame with every colour of its palette mixed with `color`.
pub fn mix_frame<H, S, L, A, C: Color + Componentize<H, S, L, A>>(
    mode: MixingMode,
    frame: &Frame<C>,
    color: &C,
) -> (result: Result<Frame<C>, CommandlineError>)
    ensures
        result is Ok <==> mode != MixingMode::BlendOverlay,
        result matches Ok(mixed) ==> is_mixed_frame::<H, S, L, A, C>(mode, *frame, *color, mixed),
        result matches Err(error) ==> error is NotImplemented,
{
    if let MixingMode::BlendOverlay = mode {
        return Err(not_implemented());
    }
    let mut colors: Vec<C> = Vec::new();
    let mut j: usize = 0;
    while j < frame.palette.colors.len()
        invariant
            mode != MixingMode::BlendOverlay,
            j <= frame.palette.colors@.len(),
            colors@.len() == j,
            forall|k: int|
                0 <= k < j ==> is_mixed::<H, S, L, A, C>(
                    mode,
                    frame.palette.colors@[k],
                    *color,
                    #[trigger] colors@[k],
                ),
        decreases frame.palette.colors@.len() - j,
    {
        match mix_pixel::<H, S, L, A, C>(mode, &frame.palette.colors[j], color) {
            Ok(mixed) => colors.push(mixed),
            Err(error) => {
                return Err(error);
            },
        }
        j += 1;
    }
    let pixels_indexed = frame.pixels_indexed.clone();
    assert(pixels_indexed@ =~= frame.pixels_indexed@);
    Ok(
        Frame {
            delay: frame.delay,
            dispose: frame.dispose,
            origin: frame.origin,
            dimensions: frame.dimensions,
            palette: Palette { colors },
            pixels_indexed,
            transparent_index: frame.transparent_index,
            interlaced: frame.interlaced,
            needs_input: frame.needs_input,
        },
    )
}

/// The frames of the output: the input frames once for every loop, and
/// output frame `k` is input frame `k % n` mixed with gradient colour `k`.
pub fn mix_frames<H, S, L, A, C: Color + Componentize<H, S, L, A>>(
    mode: MixingMode,
    frames: &Vec<Frame<C>>,
    colors: &Vec<C>,
    loop_count: usize,
) -> (result: Result<Vec<Frame<C>>, CommandlineError>)
    requires
        colors@.len() == frames@.len() * loop_count,
    ensures
        result is Ok <==> mode != MixingMode::BlendOverlay,
        result matches Ok(mixed) ==> {
            &&& mixed@.len() == colors@.len()
            &&& forall|k: int|
                0 <= k < mixed@.len() ==> is_mixed_frame::<H, S, L, A, C>(
                    mode,
                    frames@[k % (frames@.len() as int)],
                    colors@[k],
                    #[trigger] mixed@[k],
                )
        },
        result matches Err(error) ==> error is NotImplemented,
{
    if let MixingMode::BlendOverlay = mode {
        return Err(not_implemented());
    }
    let frames_len = frames.len();
    let mut mixed: Vec<Frame<C>> = Vec::new();
    let mut k: usize = 0;
    while k < colors.len()
        invariant
            mode != MixingMode::BlendOverlay,
            frames_len == frames@.len(),
            colors@.len() == frames@.len() * loop_count,
            k <= colors@.len(),
            mixed@.len() == k,
            forall|m: int|
                0 <= m < k ==> is_mixed_frame::<H, S, L, A, C>(
                    mode,
                    frames@[m % (frames@.len() as int)],
                    colors@[m],
                    #[trigger] mixed@[m],
                ),
        decreases colors@.len() - k,
    {
        assert(frames_len > 0) by (nonlinear_arith)
            requires
                k < frames_len * loop_count,
                0 <= frames_len,
                0 <= loop_count,
        ;
        let i: usize = k % frames_len;
        match mix_frame::<H, S, L, A, C>(mode, &frames[i], &colors[k]) {
            Ok(frame) => mixed.push(frame),
            Err(error) => {
                return Err(error);
            },
        }
        k += 1;
    }
    Ok(mixed)
}

/// How often the frames are played: at least once, and no more often than
/// can be counted.
pub open spec fn loops_of(loop_count: u64) -> int {
    if loop_count == 0 {
        1
    } else if loop_count > usize::MAX {
        usize::MAX as int
    } else {
        loop_count as int
    }
}

/// Whether a run takes the request up: there are tokens, each names a
/// colour, and the mixing mode is implemented.
pub open spec fn is_valid_request(tokens: Seq<String>, mode: MixingMode) -> bool {
    &&& tokens.len() > 0
    &&& forall|i: int| 0 <= i < tokens.len() ==> is_color_token(#[trigger] tokens[i]@)
    &&& mode != MixingMode::BlendOverlay
}

/// `decoded` is what decoding the input gives.
///
/// A still image whose format cannot be guessed, or which cannot be loaded
/// as a canvas, is a read failure; one that can gives its one frame, or a
/// frame-read failure where the outside quantizer gives up. An animation
/// whose header cannot be read is an initialization failure; where a frame
/// cannot be made of one of its frames, or it is cut short, that is a
/// frame-read failure, and where it holds no frame a read failure; any
/// other gives its frames, in order, and its canvas. A failure of an
/// outside decoder or quantizer wraps its words as the cause; a failure
/// that the library finds itself has none.
pub open spec fn is_decoded<C: Color>(
    input: Seq<u8>,
    is_static: bool,
    decoded: Result<(Vec<Frame<C>>, (u16, u16)), DecodeError>,
) -> bool {
    if is_static {
        match guessed_format(input) {
            None => decoded matches Err(DecodeError::Read(None, _)),
            Some(format) => if loaded_bitmap(input, format) is None {
                decoded matches Err(DecodeError::Read(Some(_), _))
            } else if !is_loadable(input, format) {
                decoded matches Err(DecodeError::Read(None, _))
            } else {
                match decoded {
                    Ok((frames, canvas)) => {
                        &&& loaded_bitmap(input, format) matches Some((width, height, rgba))
                        &&& canvas == (width as u16, height as u16)
                        &&& frames@.len() == 1
                        &&& is_still_frame(rgba, canvas, frames@[0])
                    },
                    Err(error) => error matches DecodeError::FrameRead(Some(_), _),
                }
            },
        }
    } else {
        match gif_contents(input, true) {
            None => decoded matches Err(DecodeError::Init(Some(_), _)),
            Some(contents) => if !all_fit(contents.frames, contents.global_palette) {
                decoded matches Err(DecodeError::FrameRead(None, _))
            } else if contents.fails {
                decoded matches Err(DecodeError::FrameRead(Some(_), _))
            } else if contents.frames.len() == 0 {
                decoded matches Err(DecodeError::Read(None, _))
            } else {
                match decoded {
                    Ok((frames, canvas)) => {
                        &&& canvas == contents.canvas
                        &&& frames@.len() == contents.frames.len()
                        &&& forall|i: int|
                            0 <= i < frames@.len() ==> is_frame_of(
                                contents.frames[i],
                                contents.global_palette,
                                #[trigger] frames@[i],
                            )
                    },
                    Err(_) => false,
                }
            },
        }
    }
}

/// `result` is what encoding `frames` on the canvas gives: a container
/// that repeats forever. Where a frame is refused that is a frame-write
/// failure; else the bytes are those of a container that holds just these
/// frames.
pub open spec fn is_encoded<C: Color>(
    canvas: (u16, u16),
    frames: Seq<Frame<C>>,
    result: Result<Vec<u8>, PipelineError>,
) -> bool {
    let start = Written { canvas, repeat: None, frames: Seq::empty() };
    if accepted(frames) != frames.len() {
        result matches Err(PipelineError::Encode(EncodeError::FrameWrite(None, _)))
    } else {
        result matches Ok(output) && output@ == container_bytes(
            after_all(start, frames, frames.len() as int),
        )
    }
}

/// `result` is what a run gives that decoded `frames`: `gradient` is the
/// gradient through the anchors that the tokens name, one colour for each
/// frame of each loop; output frame `k` of `mixed` is input frame `k % n`
/// mixed with gradient colour `k`; and `result` is what encoding `mixed`
/// gives.
pub open spec fn is_mixed_run<H, S, L, A, C: Color + Componentize<H, S, L, A>>(
    frames: Seq<Frame<C>>,
    canvas: (u16, u16),
    loops: int,
    tokens: Seq<String>,
    generator_type: GradientGeneratorType,
    mode: MixingMode,
    gradient: Seq<C>,
    mixed: Seq<Frame<C>>,
    result: Result<Vec<u8>, PipelineError>,
) -> bool {
    &&& gradient.len() == frames.len() * loops
    &&& is_gradient_of(anchors_of::<C>(tokens), generator_type, gradient)
    &&& mixed.len() == gradient.len()
    &&& forall|k: int|
        0 <= k < mixed.len() ==> is_mixed_frame::<H, S, L, A, C>(
            mode,
            frames[k % (frames.len() as int)],
            gradient[k],
            #[trigger] mixed[k],
        )
    &&& is_encoded(canvas, mixed, result)
}

/// Mixing keeps a frame well-formed: its pixels and the size of its palette
/// stay as they are.
pub proof fn lemma_mixed_frame_is_well_formed<H, S, L, A, C: Color + Componentize<H, S, L, A>>(
    mode: MixingMode,
    base: Frame<C>,
    top: C,
    mixed: Frame<C>,
)
    requires
        is_mixed_frame::<H, S, L, A, C>(mode, base, top, mixed),
        base.wf(),
    ensures
        mixed.wf(),
{
}

/// A run over well-formed frames does not fail once they are decoded:
/// every mixed frame is taken, and the result is the bytes of a container
/// that repeats forever and holds just the mixed frames.
pub proof fn lemma_run_of_frames_succeeds<H, S, L, A, C: Color + Componentize<H, S, L, A>>(
    frames: Seq<Frame<C>>,
    canvas: (u16, u16),
    loops: int,
    tokens: Seq<String>,
    generator_type: GradientGeneratorType,
    mode: MixingMode,
    gradient: Seq<C>,
    mixed: Seq<Frame<C>>,
    result: Result<Vec<u8>, PipelineError>,
)
    requires
        frames.len() > 0,
        forall|i: int| 0 <= i < frames.len() ==> (#[trigger] frames[i]).wf(),
        is_mixed_run::<H, S, L, A, C>(
            frames,
            canvas,
            loops,
            tokens,
            generator_type,
            mode,
            gradient,
            mixed,
            result,
        ),
    ensures
        result matches Ok(output) && output@ == container_bytes(
            after_all(
                Written { canvas, repeat: None, frames: Seq::empty() },
                mixed,
                mixed.len() as int,
            ),
        ),
{
    assert forall|k: int| 0 <= k < mixed.len() implies (#[trigger] mixed[k]).wf() by {
        let i = k % (frames.len() as int);
        assert(frames[i].wf());
        lemma_mixed_frame_is_well_formed::<H, S, L, A, C>(mode, frames[i], gradient[k], mixed[k]);
    }
    lemma_accepted_all(mixed);
}

/// `result` is what a run gives of what was decoded: a failure to decode is
/// passed on; more frames than can be addressed are refused as an invalid
/// value; any other input is mixed and encoded.
pub open spec fn is_run_of<H, S, L, A, C: Color + Componentize<H, S, L, A>>(
    decoded: Result<(Vec<Frame<C>>, (u16, u16)), DecodeError>,
    loops: int,
    tokens: Seq<String>,
    generator_type: GradientGeneratorType,
    mode: MixingMode,
    result: Result<Vec<u8>, PipelineError>,
) -> bool {
    match decoded {
        Err(error) => result matches Err(PipelineError::Decode(passed)) && passed == error,
        Ok((frames, canvas)) => if frames@.len() * loops > usize::MAX || tokens.len()
            >= usize::MAX {
            result matches Err(PipelineError::Commandline(CommandlineError::InvalidValue(..)))
        } else {
            exists|gradient: Seq<C>, mixed: Seq<Frame<C>>| #[trigger]
                is_mixed_run::<H, S, L, A, C>(
                    frames@,
                    canvas,
                    loops,
                    tokens,
                    generator_type,
                    mode,
                    gradient,
                    mixed,
                    result,
                )
        },
    }
}

/// `result` is what a run gives of a request that it takes up: what it
/// gives of what decoding the input gives.
pub open spec fn is_run<H, S, L, A, C: Color + Componentize<H, S, L, A>>(
    input: Seq<u8>,
    is_static: bool,
    loop_count: u64,
    tokens: Seq<String>,
    generator_type: GradientGeneratorType,
    mode: MixingMode,
    result: Result<Vec<u8>, PipelineError>,
) -> bool {
    exists|decoded: Result<(Vec<Frame<C>>, (u16, u16)), DecodeError>|
        is_decoded(input, is_static, decoded) && #[trigger] is_run_of::<H, S, L, A, C>(
            decoded,
            loops_of(loop_count),
            tokens,
            generator_type,
            mode,
            result,
        )
}

/// The frames of the input and its canvas: the one frame of a still image,
/// or all the frames of an animation.
fn decode_input<C: Color>(input: Vec<u8>, is_static: bool) -> (result: Result<
    (Vec<Frame<C>>, (u16, u16)),
    DecodeError,
>)
    ensures
        is_decoded(input@, is_static, result),
        result matches Ok((frames, _)) ==> {
            &&& frames@.len() >= 1
            &&& forall|i: int| 0 <= i < frames@.len() ==> (#[trigger] frames@[i]).wf()
        },
{
    let (frames, dimensions) = if is_static {
        let mut decoder = match ImageDecoder::<C>::new(input, None) {
            Ok(decoder) => decoder,
            Err(error) => {
                return Err(error);
            },
        };
        let frames = match decoder.decode_all() {
            Ok(frames) => frames,
            Err(error) => {
                return Err(error);
            },
        };
        (frames, decoder.get_dimensions())
    } else {
        let mut decoder = match GifDecoder::<C>::new(input) {
            Ok(decoder) => decoder,
            Err(error) => {
                return Err(error);
            },
        };
        let frames = match decoder.decode_all() {
            Ok(frames) => frames,
            Err(error) => {
                return Err(error);
            },
        };
        (frames, decoder.get_dimensions())
    };
    match frames {
        Some(frames) => Ok((frames, dimensions)),
        None => Err(DecodeError::Read(None, String::from_str("The input holds no frame"))),
    }
}

/// The bytes of a container of the given canvas that repeats forever and
/// holds `frames`.
fn encode_frames<C: Color>(canvas: (u16, u16), frames: Vec<Frame<C>>) -> (result: Result<
    Vec<u8>,
    PipelineError,
>)
    ensures
        is_encoded(canvas, frames@, result),
{
    let mut encoder = match GifEncoder::<C>::new(canvas) {
        Ok(encoder) => encoder,
        Err(cause) => {
            return Err(
                PipelineError::Encode(
                    EncodeError::Init(
                        Some(cause),
                        String::from_str("Could not start the container"),
                    ),
                ),
            );
        },
    };
    if let Err(error) = encoder.encode_all(frames) {
        return Err(PipelineError::Encode(error));
    }
    match encoder.into_inner() {
        Ok(bytes) => Ok(bytes),
        Err(error) => Err(PipelineError::Encode(error)),
    }
}

/// One run: checks the colour tokens and the mixing mode, decodes every
/// frame of `input`, generates one gradient colour for every frame of every
/// loop, mixes, and encodes the result as an animation that repeats
/// forever. A loop count of zero counts as one.
///
/// Tokens that are no colours, an empty list of tokens and the overlay
/// blend are refused whatever the input holds. Any other request gives
/// what decoding, mixing and encoding give of the input.
pub fn mix_impl<H, S, L, A, C: Color + Componentize<H, S, L, A>>(
    input: Vec<u8>,
    is_static: bool,
    loop_count: u64,
    color_strings: &Vec<String>,
    generator_type: GradientGeneratorType,
    mode: MixingMode,
) -> (result: Result<Vec<u8>, PipelineError>)
    ensures
        (exists|i: int| 0 <= i < color_strings@.len() && !is_color_token(color_strings@[i]@))
            ==> result matches Err(PipelineError::Commandline(CommandlineError::InvalidValue(..))),
        (forall|i: int| 0 <= i < color_strings@.len() ==> is_color_token(color_strings@[i]@))
            && color_strings@.len() == 0 ==> result matches Err(
            PipelineError::Commandline(CommandlineError::InvalidValue(..)),
        ),
        (forall|i: int| 0 <= i < color_strings@.len() ==> is_color_token(color_strings@[i]@))
            && color_strings@.len() > 0 && mode == MixingMode::BlendOverlay ==> result matches Err(
            PipelineError::Commandline(CommandlineError::NotImplemented(..)),
        ),
        is_valid_request(color_strings@, mode) ==> is_run::<H, S, L, A, C>(
            input@,
            is_static,
            loop_count,
            color_strings@,
            generator_type,
            mode,
            result,
        ),
        is_valid_request(color_strings@, mode) ==> !(result matches Err(PipelineError::Encode(_))),
{
    let input_colors = match get_colors::<C>(color_strings) {
        Ok(colors) => colors,
        Err(error) => {
            return Err(PipelineError::Commandline(error));
        },
    };
    if input_colors.len() == 0 {
        return Err(
            PipelineError::Commandline(
                CommandlineError::InvalidValue(
                    None,
                    String::from_str("A gradient needs at least one color"),
                ),
            ),
        );
    }
    if let MixingMode::BlendOverlay = mode {
        return Err(PipelineError::Commandline(not_implemented()));
    }
    let ghost tokens = color_strings@;
    let ghost loops_spec = loops_of(loop_count);
    let decoded = decode_input::<C>(input, is_static);
    let ghost decoded_as_it_is = decoded;
    let (frames, dimensions) = match decoded {
        Ok(decoded) => decoded,
        Err(error) => {
            let result = Err(PipelineError::Decode(error));
            assert(is_run_of::<H, S, L, A, C>(
                decoded_as_it_is,
                loops_spec,
                tokens,
                generator_type,
                mode,
                result,
            ));
            return result;
        },
    };
    let loops: usize = if loop_count == 0 {
        1
    } else if loop_count > usize::MAX as u64 {
        usize::MAX
    } else {
        loop_count as usize
    };
    let frames_len = frames.len();
    if frames_len.checked_mul(loops).is_none() || input_colors.len() == usize::MAX {
        let result = Err(
            PipelineError::Commandline(
                CommandlineError::InvalidValue(
                    None,
                    String::from_str("The loop count asks for more frames than can be addressed"),
                ),
            ),
        );
        assert(is_run_of::<H, S, L, A, C>(
            decoded_as_it_is,
            loops_spec,
            tokens,
            generator_type,
            mode,
            result,
        ));
        return result;
    }
    assert(input_colors@ =~= anchors_of::<C>(tokens));
    let colors = get_gradient(generator_type, input_colors, frames_len, loops);
    let mixed = match mix_frames::<H, S, L, A, C>(mode, &frames, &colors, loops) {
        Ok(mixed) => mixed,
        Err(error) => {
            return Err(PipelineError::Commandline(error));
        },
    };
    let ghost mixed_frames = mixed@;
    let result = encode_frames(dimensions, mixed);
    proof {
        assert(is_mixed_run::<H, S, L, A, C>(
            frames@,
            dimensions,
            loops_spec,
            tokens,
            generator_type,
            mode,
            colors@,
            mixed_frames,
            result,
        ));
        lemma_run_of_frames_succeeds::<H, S, L, A, C>(
            frames@,
            dimensions,
            loops_spec,
            tokens,
            generator_type,
            mode,
            colors@,
            mixed_frames,
            result,
        );
        assert(is_run_of::<H, S, L, A, C>(
            decoded_as_it_is,
            loops_spec,
            tokens,
            generator_type,
            mode,
            result,
        ));
    }
    result
}

} // verus!
