//! The codec-agnostic frame model: palettes, frames, the errors of decoding
//! and encoding, and what a decoder and an encoder must offer.
use crate::color::Color;
use vstd::prelude::*;
use vstd::string::StringExecFns;

pub mod gif;
pub mod image;

verus! {

/// Why decoding failed, with the underlying cause, if there is one, and a
/// description.
#[derive(Debug)]
pub enum DecodeError {
    Init(Option<String>, String),
    Read(Option<String>, String),
    FrameRead(Option<String>, String),
    InvalidData(Option<String>, String),
}

/// Why encoding failed, with the underlying cause, if there is one, and a
/// description.
#[derive(Debug)]
pub enum EncodeError {
    Init(Option<String>, String),
    Write(Option<String>, String),
    FrameWrite(Option<String>, String),
}

impl DecodeError {
    /// The heading under which this kind of error is reported.
    pub open spec fn title(&self) -> Seq<char> {
        match self {
            DecodeError::Init(..) => "Error initializing decoder"@,
            DecodeError::Read(..) => "Error reading data"@,
            DecodeError::FrameRead(..) => "Error reading frame"@,
            DecodeError::InvalidData(..) => "Invalid data"@,
        }
    }

    /// The description given when the error was raised.
    pub open spec fn description(&self) -> Seq<char> {
        match self {
            DecodeError::Init(_, description) => description@,
            DecodeError::Read(_, description) => description@,
            DecodeError::FrameRead(_, description) => description@,
            DecodeError::InvalidData(_, description) => description@,
        }
    }

    /// The underlying cause, if one was wrapped.
    pub fn source(&self) -> (cause: &Option<String>)
        ensures
            cause == match self {
                DecodeError::Init(cause, _) => cause,
                DecodeError::Read(cause, _) => cause,
                DecodeError::FrameRead(cause, _) => cause,
                DecodeError::InvalidData(cause, _) => cause,
            },
    {
        match self {
            DecodeError::Init(cause, _) => cause,
            DecodeError::Read(cause, _) => cause,
            DecodeError::FrameRead(cause, _) => cause,
            DecodeError::InvalidData(cause, _) => cause,
        }
    }

    /// The heading, a colon, and the description.
    pub fn to_string(&self) -> (text: String)
        ensures
            text@ == self.title() + ": "@ + self.description(),
    {
        let (title, description) = match self {
            DecodeError::Init(_, description) => ("Error initializing decoder", description),
            DecodeError::Read(_, description) => ("Error reading data", description),
            DecodeError::FrameRead(_, description) => ("Error reading frame", description),
            DecodeError::InvalidData(_, description) => ("Invalid data", description),
        };
        String::from_str(title).concat(": ").concat(description.as_str())
    }
}

impl EncodeError {
    /// The heading under which this kind of error is reported.
    pub open spec fn title(&self) -> Seq<char> {
        match self {
            EncodeError::Init(..) => "Error initializing encoder"@,
            EncodeError::Write(..) => "Error write data"@,
            EncodeError::FrameWrite(..) => "Error write frame"@,
        }
    }

    /// The description given when the error was raised.
    pub open spec fn description(&self) -> Seq<char> {
        match self {
            EncodeError::Init(_, description) => description@,
            EncodeError::Write(_, description) => description@,
            EncodeError::FrameWrite(_, description) => description@,
        }
    }

    /// The underlying cause, if one was wrapped.
    pub fn source(&self) -> (cause: &Option<String>)
        ensures
            cause == match self {
                EncodeError::Init(cause, _) => cause,
                EncodeError::Write(cause, _) => cause,
                EncodeError::FrameWrite(cause, _) => cause,
            },
    {
        match self {
            EncodeError::Init(cause, _) => cause,
            EncodeError::Write(cause, _) => cause,
            EncodeError::FrameWrite(cause, _) => cause,
        }
    }

    /// The heading, a colon, and the description.
    pub fn to_string(&self) -> (text: String)
        ensures
            text@ == self.title() + ": "@ + self.description(),
    {
        let (title, description) = match self {
            EncodeError::Init(_, description) => ("Error initializing encoder", description),
            EncodeError::Write(_, description) => ("Error write data", description),
            EncodeError::FrameWrite(_, description) => ("Error write frame", description),
        };
        String::from_str(title).concat(": ").concat(description.as_str())
    }
}

/// The most colours a palette may hold.
pub const MAX_PALETTE_COLORS: usize = 256;

/// An ordered list of at most 256 colours; its order is the index space of a
/// frame's pixels.
pub struct Palette<C> {
    pub colors: Vec<C>,
}

impl<C: Color> Clone for Palette<C> {
    fn clone(&self) -> (copy: Self)
        ensures
            copy.colors@.len() == self.colors@.len(),
            forall|i: int|
                0 <= i < self.colors@.len() ==> cloned(
                    #[trigger] self.colors@[i],
                    copy.colors@[i],
                ),
    {
        Palette { colors: self.colors.clone() }
    }
}

/// Channel `channel` (0 red, 1 green, 2 blue, else alpha) of four channels.
pub open spec fn channel_of(channels: (u8, u8, u8, u8), channel: int) -> u8 {
    if channel == 0 {
        channels.0
    } else if channel == 1 {
        channels.1
    } else if channel == 2 {
        channels.2
    } else {
        channels.3
    }
}

/// The flat red, green, blue triplets of `colors`, in order.
pub open spec fn gif_format_of<C: Color>(colors: Seq<C>) -> Seq<u8> {
    Seq::new(3 * colors.len(), |k: int| channel_of(colors[k / 3].rgba_spec(), k % 3))
}

/// The opaque colours that the flat triplets `bytes` stand for, in order.
pub open spec fn colors_of_gif_format<C: Color>(bytes: Seq<u8>) -> Seq<C> {
    Seq::new(
        bytes.len() / 3,
        |i: int| C::from_rgba_spec(bytes[3 * i], bytes[3 * i + 1], bytes[3 * i + 2], 255),
    )
}

/// Flattening a palette and reading the triplets back keeps the number and
/// the order of the colours, and each colour comes back as the opaque colour
/// of its own eight-bit red, green and blue channels.
pub proof fn lemma_palette_round_trip<C: Color>(colors: Seq<C>)
    ensures
        colors_of_gif_format::<C>(gif_format_of(colors)).len() == colors.len(),
        forall|i: int|
            0 <= i < colors.len() ==> #[trigger] colors_of_gif_format::<C>(
                gif_format_of(colors),
            )[i] == C::from_rgba_spec(
                colors[i].rgba_spec().0,
                colors[i].rgba_spec().1,
                colors[i].rgba_spec().2,
                255,
            ),
{
    let flat = gif_format_of(colors);
    assert(flat.len() == 3 * colors.len());
    assert forall|i: int| 0 <= i < colors.len() implies #[trigger] colors_of_gif_format::<C>(
        flat,
    )[i] == C::from_rgba_spec(
        colors[i].rgba_spec().0,
        colors[i].rgba_spec().1,
        colors[i].rgba_spec().2,
        255,
    ) by {
        assert((3 * i) / 3 == i && (3 * i) % 3 == 0);
        assert((3 * i + 1) / 3 == i && (3 * i + 1) % 3 == 1);
        assert((3 * i + 2) / 3 == i && (3 * i + 2) % 3 == 2);
        assert(flat[3 * i] == colors[i].rgba_spec().0);
        assert(flat[3 * i + 1] == colors[i].rgba_spec().1);
        assert(flat[3 * i + 2] == colors[i].rgba_spec().2);
    }
}

impl<C: Color> Palette<C> {
    /// The palette holds no more colours than an index can address.
    pub open spec fn wf(&self) -> bool {
        self.colors@.len() <= MAX_PALETTE_COLORS
    }

    /// A palette of `colors`, which must be at most 256.
    pub fn new(colors: Vec<C>) -> (palette: Self)
        requires
            colors@.len() <= MAX_PALETTE_COLORS,
        ensures
            palette.colors == colors,
            palette.wf(),
    {
        Palette { colors }
    }

    /// The palette that the flat red, green, blue triplets stand for, every
    /// colour opaque. There are whole triplets only, and at most 256 of
    /// them.
    pub fn from_gif_format(colors: &[u8]) -> (palette: Self)
        requires
            colors@.len() % 3 == 0,
            colors@.len() <= 3 * MAX_PALETTE_COLORS,
        ensures
            palette.colors@ == colors_of_gif_format::<C>(colors@),
            palette.wf(),
    {
        let count: usize = colors.len() / 3;
        let mut converted: Vec<C> = Vec::new();
        let mut i: usize = 0;
        while i < count
            invariant
                3 * count == colors@.len(),
                colors@.len() <= usize::MAX,
                i <= count,
                converted@.len() == i,
                forall|j: int|
                    0 <= j < i ==> #[trigger] converted@[j] == C::from_rgba_spec(
                        colors@[3 * j],
                        colors@[3 * j + 1],
                        colors@[3 * j + 2],
                        255,
                    ),
            decreases count - i,
        {
            let r = colors[3 * i];
            let g = colors[3 * i + 1];
            let b = colors[3 * i + 2];
            converted.push(C::from_rgba(r, g, b, 255));
            i += 1;
        }
        assert(converted@ =~= colors_of_gif_format::<C>(colors@));
        Palette { colors: converted }
    }

    /// The flat red, green, blue triplets of the palette's colours.
    pub fn into_gif_format(self) -> (bytes: Vec<u8>)
        ensures
            bytes@ == gif_format_of(self.colors@),
    {
        let mut bytes: Vec<u8> = Vec::new();
        let mut i: usize = 0;
        while i < self.colors.len()
            invariant
                i <= self.colors@.len(),
                bytes@.len() == 3 * i,
                forall|k: int|
                    0 <= k < 3 * i ==> #[trigger] bytes@[k] == channel_of(
                        self.colors@[k / 3].rgba_spec(),
                        k % 3,
                    ),
            decreases self.colors@.len() - i,
        {
            let (r, g, b, _) = self.colors[i].to_rgba();
            bytes.push(r);
            bytes.push(g);
            bytes.push(b);
            i += 1;
        }
        assert(bytes@ =~= gif_format_of(self.colors@));
        bytes
    }
}

/// What becomes of a frame's area before the next frame is drawn.
#[derive(Clone, Copy, Debug, PartialEq, Eq, Structural)]
pub enum DisposalMethod {
    Any,
    Keep,
    Background,
    Previous,
}

/// One frame in indexed mode: a palette, one index per pixel of its extent,
/// and the placement, timing and disposal data of its container.
pub struct Frame<C> {
    /// The delay in hundredths of a second.
    pub delay: u16,
    pub dispose: DisposalMethod,
    /// The left and top offset on the canvas.
    pub origin: (u16, u16),
    /// The width and height, which may be smaller than the canvas.
    pub dimensions: (u16, u16),
    pub palette: Palette<C>,
    /// One palette index per pixel, row by row.
    pub pixels_indexed: Vec<u8>,
    pub transparent_index: Option<u8>,
    pub interlaced: bool,
    pub needs_input: bool,
}

impl<C: Color> Clone for Frame<C> {
    fn clone(&self) -> (copy: Self)
        ensures
            copy.delay == self.delay,
            copy.dispose == self.dispose,
            copy.origin == self.origin,
            copy.dimensions == self.dimensions,
            copy.palette.colors@.len() == self.palette.colors@.len(),
            forall|i: int|
                0 <= i < self.palette.colors@.len() ==> cloned(
                    #[trigger] self.palette.colors@[i],
                    copy.palette.colors@[i],
                ),
            copy.pixels_indexed@ == self.pixels_indexed@,
            copy.transparent_index == self.transparent_index,
            copy.interlaced == self.interlaced,
            copy.needs_input == self.needs_input,
    {
        let copy = Frame {
            delay: self.delay,
            dispose: self.dispose,
            origin: self.origin,
            dimensions: self.dimensions,
            palette: Palette { colors: self.palette.colors.clone() },
            pixels_indexed: self.pixels_indexed.clone(),
            transparent_index: self.transparent_index,
            interlaced: self.interlaced,
            needs_input: self.needs_input,
        };
        assert(copy.pixels_indexed@ =~= self.pixels_indexed@);
        copy
    }
}

/// The number of pixels of an extent of the given width and height.
pub fn extent_area(dimensions: (u16, u16)) -> (area: usize)
    ensures
        area == dimensions.0 * dimensions.1,
        area <= 0xffff * 0xffff,
{
    assert(dimensions.0 * dimensions.1 <= 0xffff * 0xffff) by (nonlinear_arith)
        requires
            dimensions.0 <= 0xffff,
            dimensions.1 <= 0xffff,
    ;
    (dimensions.0 as usize) * (dimensions.1 as usize)
}

impl<C: Color> Frame<C> {
    /// The palette is within bounds and there is one index per pixel of the
    /// extent.
    pub open spec fn wf(&self) -> bool {
        &&& self.palette.wf()
        &&& self.pixels_indexed@.len() == self.dimensions.0 * self.dimensions.1
    }
}

/// A forward-only source of frames that share one canvas.
pub trait Decodable {
    type OutputColor: Color;

    /// The width and height of the canvas.
    spec fn dimensions(&self) -> (u16, u16);

    /// A bound on the number of frames still to come.
    spec fn pending(&self) -> nat;

    /// The next frame, or `None` at the end of the sequence. Nothing that
    /// succeeds brings frames back, and a frame is one frame less to come.
    fn decode(&mut self) -> (result: Result<Option<Frame<Self::OutputColor>>, DecodeError>)
        ensures
            final(self).dimensions() == old(self).dimensions(),
            result is Ok ==> final(self).pending() <= old(self).pending(),
            result matches Ok(Some(frame)) ==> frame.wf() && final(self).pending() < old(self).pending(),
    ;

    /// All the frames that are left, or `None` if there is none.
    fn decode_all(&mut self) -> (result: Result<
        Option<Vec<Frame<Self::OutputColor>>>,
        DecodeError,
    >)
        ensures
            final(self).dimensions() == old(self).dimensions(),
            result is Ok ==> final(self).pending() <= old(self).pending(),
            result matches Ok(Some(frames)) ==> {
                &&& 1 <= frames@.len() <= old(self).pending()
                &&& forall|i: int| 0 <= i < frames@.len() ==> (#[trigger] frames@[i]).wf()
            },
    ;

    /// The width and height of the canvas.
    fn get_dimensions(&self) -> (dimensions: (u16, u16))
        ensures
            dimensions == self.dimensions(),
    ;
}

/// A forward-only sink of frames.
pub trait Encodable {
    type InputColor: Color;

    /// The number of frames that the sink has accepted.
    spec fn written(&self) -> nat;

    /// Writes one frame. A frame whose palette or pixel count is out of
    /// bounds is refused; a frame that fails leaves the count as it was.
    fn encode(&mut self, frame: Frame<Self::InputColor>) -> (result: Result<(), EncodeError>)
        ensures
            !frame.wf() ==> result is Err,
            result is Ok ==> final(self).written() == old(self).written() + 1,
            result matches Err(error) ==> error is FrameWrite && final(self).written() == old(self).written(),
    ;

    /// Writes the frames in order and stops at the first that fails.
    fn encode_all(&mut self, frames: Vec<Frame<Self::InputColor>>) -> (result: Result<
        (),
        EncodeError,
    >)
        ensures
            result is Ok ==> final(self).written() == old(self).written() + frames@.len(),
            result is Ok ==> forall|i: int| 0 <= i < frames@.len() ==> (#[trigger] frames@[i]).wf(),
            result matches Err(error) ==> error is FrameWrite && old(self).written() <= final(self).written() < old(self).written() + frames@.len(),
    ;
}

} // verus!
