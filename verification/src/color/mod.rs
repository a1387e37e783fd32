//! The colour model: what a colour space must offer, hexadecimal colour
//! tokens, and the blend of a pixel with a gradient colour.
use vstd::prelude::*;
use vstd::string::StringExecFns;

pub mod gradient;
pub mod quantize;

pub use gradient::{GradientDescriptor, GradientGeneratorType};

verus! {

/// A weight between zero and one, kept exact as the fraction `num / den`.
#[derive(Clone, Copy, Debug, PartialEq, Eq, Structural)]
pub struct Ratio {
    pub num: usize,
    pub den: usize,
}

impl Ratio {
    /// The denominator is positive and the fraction is at most one.
    pub open spec fn wf(self) -> bool {
        0 < self.den && self.num <= self.den
    }
}

/// What every colour space offers: conversion from and to the canonical
/// eight-bit red, green, blue and alpha channels, linear mixing, and a test
/// of the alpha channel.
///
/// The spec functions say what an implementation computes; the executable
/// methods must return exactly that.
pub trait Color: Sized + Clone {
    /// The colour that stands for the canonical channels.
    spec fn from_rgba_spec(red: u8, green: u8, blue: u8, alpha: u8) -> Self;

    /// The canonical channels of this colour, each scaled to `0..=255` and cut
    /// off below the decimal point.
    spec fn rgba_spec(&self) -> (u8, u8, u8, u8);

    /// The colour at `weight` on the straight path from `self` to `other`.
    spec fn mix_spec(&self, other: &Self, weight: Ratio) -> Self;

    /// Whether the alpha channel is strictly above `threshold`.
    spec fn alpha_above_spec(&self, threshold: Ratio) -> bool;

    fn from_rgba(red: u8, green: u8, blue: u8, alpha: u8) -> (color: Self)
        ensures
            color == Self::from_rgba_spec(red, green, blue, alpha),
    ;

    fn to_rgba(&self) -> (channels: (u8, u8, u8, u8))
        ensures
            channels == self.rgba_spec(),
    ;

    fn mix(&self, other: &Self, weight: Ratio) -> (color: Self)
        requires
            weight.wf(),
        ensures
            color == self.mix_spec(other, weight),
    ;

    fn alpha_above(&self, threshold: Ratio) -> (above: bool)
        requires
            threshold.wf(),
        ensures
            above == self.alpha_above_spec(threshold),
    ;
}

/// Why a token is not a colour.
#[derive(Clone, Copy, Debug, PartialEq, Eq, Structural)]
pub enum ParseColorError {
    /// The token is not six characters long.
    InvalidLength,
    /// One of the six characters is no hexadecimal digit.
    InvalidDigit,
}

/// The value of a hexadecimal digit, in either case.
pub open spec fn hex_digit_value(c: char) -> Option<u8> {
    let code = c as u32;
    if 48 <= code <= 57 {
        Some((code - 48) as u8)
    } else if 97 <= code <= 102 {
        Some((code - 87) as u8)
    } else if 65 <= code <= 70 {
        Some((code - 55) as u8)
    } else {
        None
    }
}

/// The value of two hexadecimal digits, the first worth sixteen times the
/// second.
pub open spec fn hex_pair_value(high: char, low: char) -> Option<u8> {
    match (hex_digit_value(high), hex_digit_value(low)) {
        (Some(h), Some(l)) => Some((16 * h + l) as u8),
        _ => None,
    }
}

/// The red, green and blue channels that a token of six hexadecimal digits
/// names, or why it names none.
pub open spec fn hex_channels(token: Seq<char>) -> Result<(u8, u8, u8), ParseColorError> {
    if token.len() != 6 {
        Err(ParseColorError::InvalidLength)
    } else {
        match (
            hex_pair_value(token[0], token[1]),
            hex_pair_value(token[2], token[3]),
            hex_pair_value(token[4], token[5]),
        ) {
            (Some(r), Some(g), Some(b)) => Ok((r, g, b)),
            _ => Err(ParseColorError::InvalidDigit),
        }
    }
}

fn hex_digit(c: char) -> (value: Option<u8>)
    ensures
        value == hex_digit_value(c),
{
    let code: u32 = c as u32;
    if 48 <= code && code <= 57 {
        Some((code - 48) as u8)
    } else if 97 <= code && code <= 102 {
        Some((code - 87) as u8)
    } else if 65 <= code && code <= 70 {
        Some((code - 55) as u8)
    } else {
        None
    }
}

fn hex_pair(high: char, low: char) -> (value: Option<u8>)
    ensures
        value == hex_pair_value(high, low),
{
    match (hex_digit(high), hex_digit(low)) {
        (Some(h), Some(l)) => Some(16 * h + l),
        _ => None,
    }
}

/// The opaque colour that a token of exactly six hexadecimal digits names:
/// two digits each for red, green and blue, without a prefix.
pub fn from_hex<C: Color>(color_string: &str) -> (result: Result<C, ParseColorError>)
    ensures
        result == match hex_channels(color_string@) {
            Ok((r, g, b)) => Ok(C::from_rgba_spec(r, g, b, 255)),
            Err(error) => Err(error),
        },
{
    if color_string.unicode_len() != 6 {
        return Err(ParseColorError::InvalidLength);
    }
    let r = hex_pair(color_string.get_char(0), color_string.get_char(1));
    let g = hex_pair(color_string.get_char(2), color_string.get_char(3));
    let b = hex_pair(color_string.get_char(4), color_string.get_char(5));
    match (r, g, b) {
        (Some(r), Some(g), Some(b)) => Ok(C::from_rgba(r, g, b, 255)),
        _ => Err(ParseColorError::InvalidDigit),
    }
}

/// Whether two strings hold the same text.
pub fn same_text(a: &str, b: &str) -> (same: bool)
    ensures
        same == (a@ == b@),
{
    String::from_str(a) == String::from_str(b)
}

/// How a pixel is merged with its gradient colour.
#[derive(Clone, Copy, Debug, PartialEq, Eq, Structural)]
pub enum MixingMode {
    Identity,
    Custom,
    Lab,
    Linear,
    BlendOverlay,
}

/// The colour space that the gradient and the blend work in.
#[derive(Clone, Copy, Debug, PartialEq, Eq, Structural)]
pub enum ColorSpace {
    HSL,
    HSV,
    LCH,
    RGB,
    LAB,
}

impl MixingMode {
    /// The name of this mode on the command line.
    pub open spec fn name_spec(self) -> Seq<char> {
        match self {
            MixingMode::Identity => "none"@,
            MixingMode::Custom => "custom"@,
            MixingMode::Lab => "lab"@,
            MixingMode::Linear => "linear"@,
            MixingMode::BlendOverlay => "blend_overlay"@,
        }
    }

    /// The mode that `token` names, if it names one.
    pub open spec fn parsed(token: Seq<char>) -> Option<Self> {
        if token == "none"@ {
            Some(MixingMode::Identity)
        } else if token == "custom"@ {
            Some(MixingMode::Custom)
        } else if token == "lab"@ {
            Some(MixingMode::Lab)
        } else if token == "linear"@ {
            Some(MixingMode::Linear)
        } else if token == "blend_overlay"@ {
            Some(MixingMode::BlendOverlay)
        } else {
            None
        }
    }

    /// All the modes, in the order in which they are offered.
    pub fn value_variants() -> (variants: Vec<Self>)
        ensures
            variants@ == seq![
                MixingMode::Identity,
                MixingMode::Custom,
                MixingMode::Lab,
                MixingMode::Linear,
                MixingMode::BlendOverlay,
            ],
    {
        vec![
            MixingMode::Identity,
            MixingMode::Custom,
            MixingMode::Lab,
            MixingMode::Linear,
            MixingMode::BlendOverlay,
        ]
    }

    /// The name of this mode on the command line.
    pub fn name(&self) -> (name: &'static str)
        ensures
            name@ == self.name_spec(),
    {
        match self {
            MixingMode::Identity => "none",
            MixingMode::Custom => "custom",
            MixingMode::Lab => "lab",
            MixingMode::Linear => "linear",
            MixingMode::BlendOverlay => "blend_overlay",
        }
    }

    /// What this mode does, for the help text.
    pub open spec fn help_spec(self) -> Seq<char> {
        match self {
            MixingMode::Identity => "Doesn't actually mix and returns the original colors"@,
            MixingMode::Custom =>
                "Mixes the color by taking the hue component of the other color, keeping the base luma and chroma"@,
            MixingMode::Lab =>
                "Mixes the color by taking the color components of the other color, keeping the base lightness"@,
            MixingMode::Linear => "Uses palettee for linear mixing"@,
            MixingMode::BlendOverlay => "Uses blending: overlay"@,
        }
    }

    /// What this mode does, for the help text.
    pub fn help(&self) -> (text: &'static str)
        ensures
            text@ == self.help_spec(),
    {
        match self {
            MixingMode::Identity => "Doesn't actually mix and returns the original colors",
            MixingMode::Custom =>
                "Mixes the color by taking the hue component of the other color, keeping the base luma and chroma",
            MixingMode::Lab =>
                "Mixes the color by taking the color components of the other color, keeping the base lightness",
            MixingMode::Linear => "Uses palettee for linear mixing",
            MixingMode::BlendOverlay => "Uses blending: overlay",
        }
    }

    /// The name of this mode, as it is printed.
    pub fn to_string(&self) -> (text: String)
        ensures
            text@ == self.name_spec(),
    {
        String::from_str(self.name())
    }

    /// The mode that `s` names; the names are matched exactly.
    pub fn from_str(s: &str) -> (result: Result<Self, String>)
        ensures
            match Self::parsed(s@) {
                Some(mode) => result == Ok::<Self, String>(mode),
                None => result matches Err(message) && message@ == "Invalid variant: "@ + s@,
            },
    {
        if same_text(s, "none") {
            Ok(MixingMode::Identity)
        } else if same_text(s, "custom") {
            Ok(MixingMode::Custom)
        } else if same_text(s, "lab") {
            Ok(MixingMode::Lab)
        } else if same_text(s, "linear") {
            Ok(MixingMode::Linear)
        } else if same_text(s, "blend_overlay") {
            Ok(MixingMode::BlendOverlay)
        } else {
            Err(String::from_str("Invalid variant: ").concat(s))
        }
    }
}

impl ColorSpace {
    /// The name of this colour space on the command line.
    pub open spec fn name_spec(self) -> Seq<char> {
        match self {
            ColorSpace::HSL => "hsl"@,
            ColorSpace::HSV => "hsv"@,
            ColorSpace::LCH => "lch"@,
            ColorSpace::RGB => "rgb"@,
            ColorSpace::LAB => "lab"@,
        }
    }

    /// The colour space that `token` names, if it names one.
    pub open spec fn parsed(token: Seq<char>) -> Option<Self> {
        if token == "hsl"@ {
            Some(ColorSpace::HSL)
        } else if token == "hsv"@ {
            Some(ColorSpace::HSV)
        } else if token == "lch"@ {
            Some(ColorSpace::LCH)
        } else if token == "rgb"@ {
            Some(ColorSpace::RGB)
        } else if token == "lab"@ {
            Some(ColorSpace::LAB)
        } else {
            None
        }
    }

    /// All the colour spaces, in the order in which they are offered.
    pub fn value_variants() -> (variants: Vec<Self>)
        ensures
            variants@ == seq![
                ColorSpace::HSL,
                ColorSpace::HSV,
                ColorSpace::LCH,
                ColorSpace::RGB,
                ColorSpace::LAB,
            ],
    {
        vec![ColorSpace::HSL, ColorSpace::HSV, ColorSpace::LCH, ColorSpace::RGB, ColorSpace::LAB]
    }

    /// The name of this colour space on the command line.
    pub fn name(&self) -> (name: &'static str)
        ensures
            name@ == self.name_spec(),
    {
        match self {
            ColorSpace::HSL => "hsl",
            ColorSpace::HSV => "hsv",
            ColorSpace::LCH => "lch",
            ColorSpace::RGB => "rgb",
            ColorSpace::LAB => "lab",
        }
    }

    /// What this colour space is, for the help text.
    pub open spec fn help_spec(self) -> Seq<char> {
        match self {
            ColorSpace::HSL =>
                "The HSL color space can be seen as a cylindrical version of RGB, where the hue is the angle around the color cylinder, the saturation is the distance from the center, and the lightness is the height from the bottom."@,
            ColorSpace::HSV =>
                "HSV is a cylindrical version of RGB and it’s very similar to HSL. The difference is that the value component in HSV determines the brightness of the color, and not the lightness."@,
            ColorSpace::LCH =>
                "L*C*h° shares its range and perceptual uniformity with L*a*b*, but it’s a cylindrical color space, like HSL and HSV. This gives it the same ability to directly change the hue and colorfulness of a color, while preserving other visual aspects."@,
            ColorSpace::RGB => "RGB"@,
            ColorSpace::LAB => "The CIE L*a*b* (CIELAB) color space"@,
        }
    }

    /// What this colour space is, for the help text.
    pub fn help(&self) -> (text: &'static str)
        ensures
            text@ == self.help_spec(),
    {
        match self {
            ColorSpace::HSL =>
                "The HSL color space can be seen as a cylindrical version of RGB, where the hue is the angle around the color cylinder, the saturation is the distance from the center, and the lightness is the height from the bottom.",
            ColorSpace::HSV =>
                "HSV is a cylindrical version of RGB and it’s very similar to HSL. The difference is that the value component in HSV determines the brightness of the color, and not the lightness.",
            ColorSpace::LCH =>
                "L*C*h° shares its range and perceptual uniformity with L*a*b*, but it’s a cylindrical color space, like HSL and HSV. This gives it the same ability to directly change the hue and colorfulness of a color, while preserving other visual aspects.",
            ColorSpace::RGB => "RGB",
            ColorSpace::LAB => "The CIE L*a*b* (CIELAB) color space",
        }
    }

    /// The name of this colour space, as it is printed.
    pub fn to_string(&self) -> (text: String)
        ensures
            text@ == self.name_spec(),
    {
        String::from_str(self.name())
    }

    /// The colour space that `s` names; the names are matched exactly.
    pub fn from_str(s: &str) -> (result: Result<Self, String>)
        ensures
            match Self::parsed(s@) {
                Some(space) => result == Ok::<Self, String>(space),
                None => result matches Err(message) && message@ == "Invalid variant: "@ + s@,
            },
    {
        if same_text(s, "hsl") {
            Ok(ColorSpace::HSL)
        } else if same_text(s, "hsv") {
            Ok(ColorSpace::HSV)
        } else if same_text(s, "lch") {
            Ok(ColorSpace::LCH)
        } else if same_text(s, "rgb") {
            Ok(ColorSpace::RGB)
        } else if same_text(s, "lab") {
            Ok(ColorSpace::LAB)
        } else {
            Err(String::from_str("Invalid variant: ").concat(s))
        }
    }
}

/// Splits a colour into hue, chroma (or saturation), lightness (or value) and
/// alpha, and builds one from them.
pub trait Componentize<H, C, L, A>: Sized {
    /// The four components of this colour.
    spec fn components(&self) -> (H, C, L, A);

    /// The colour that `from_components` builds.
    spec fn composed(h: H, c: C, l: L, a: A) -> Self;

    fn get_components(&self) -> (parts: (H, C, L, A))
        ensures
            parts == self.components(),
    ;

    fn from_components(h: H, c: C, l: L, a: A) -> (color: Self)
        ensures
            color == Self::composed(h, c, l, a),
    ;
}

/// The blend of `bottom` with `top`: hue from `top`, lightness and alpha from
/// `bottom`, and chroma from `top` only where `include_chroma` is set.
pub open spec fn blend_spec<H, C, L, A, Color: Componentize<H, C, L, A>>(
    bottom: &Color,
    top: &Color,
    include_chroma: bool,
) -> Color {
    Color::composed(
        top.components().0,
        if include_chroma {
            top.components().1
        } else {
            bottom.components().1
        },
        bottom.components().2,
        bottom.components().3,
    )
}

/// Recolours `bottom` with the hue of `top`, keeping its lightness and alpha.
pub fn blend_colors<H, C, L, A, Color: Componentize<H, C, L, A>>(
    bottom: &Color,
    top: &Color,
    include_chroma: bool,
) -> (blended: Color)
    ensures
        blended == blend_spec::<H, C, L, A, Color>(bottom, top, include_chroma),
{
    if include_chroma {
        let (top_h, top_c, _, _) = top.get_components();
        let (_, _, bottom_l, bottom_a) = bottom.get_components();
        Color::from_components(top_h, top_c, bottom_l, bottom_a)
    } else {
        let (top_h, _, _, _) = top.get_components();
        let (_, bottom_c, bottom_l, bottom_a) = bottom.get_components();
        Color::from_components(top_h, bottom_c, bottom_l, bottom_a)
    }
}

/// Whether the colour space gives back every component as it was put in:
/// composing a colour and splitting it again changes nothing. A space that
/// clamps what it composes is faithful only to components within its
/// bounds, and so is not faithful.
pub open spec fn is_faithful<H, C, L, A, Color: Componentize<H, C, L, A>>() -> bool {
    forall|h: H, c: C, l: L, a: A| (#[trigger] Color::composed(h, c, l, a)).components() == (h, c, l, a)
}

/// In a faithful colour space the blend has the hue of `top` and the
/// lightness and alpha of `bottom`; its chroma is that of `bottom`, or
/// that of `top` where `include_chroma` asks for it.
pub proof fn lemma_blend_keeps_components<H, C, L, A, Color: Componentize<H, C, L, A>>(
    bottom: &Color,
    top: &Color,
    include_chroma: bool,
)
    requires
        is_faithful::<H, C, L, A, Color>(),
    ensures
        blend_spec::<H, C, L, A, Color>(bottom, top, include_chroma).components() == (
            top.components().0,
            if include_chroma {
                top.components().1
            } else {
                bottom.components().1
            },
            bottom.components().2,
            bottom.components().3,
        ),
{
}

} // verus!
