//! What the command line asks for, checked before any work is done: the
//! anchor colours, the gradient, and the pairing of mixing mode and colour
//! space.
use crate::color::gradient::{
    is_continuous_gradient, is_discrete_gradient, GradientDescriptor, GradientGeneratorType,
};
use crate::color::{from_hex, hex_channels, Color, ColorSpace, MixingMode, ParseColorError};
use vstd::prelude::*;
use vstd::string::StringExecFns;

verus! {

/// Why the command line was refused, with the underlying cause, if there is
/// one, and a description.
#[derive(Debug)]
pub enum CommandlineError {
    IncompatibleValue(Option<String>, String),
    NotImplemented(Option<String>, String),
    InvalidValue(Option<String>, String),
}

impl CommandlineError {
    /// The heading under which this kind of error is reported.
    pub open spec fn title(&self) -> Seq<char> {
        match self {
            CommandlineError::IncompatibleValue(..) =>
                "The given value is incompatible with the configurations"@,
            CommandlineError::NotImplemented(..) => "The given option is not implemented"@,
            CommandlineError::InvalidValue(..) => "The given value is invalid"@,
        }
    }

    /// The description given when the error was raised.
    pub open spec fn description(&self) -> Seq<char> {
        match self {
            CommandlineError::IncompatibleValue(_, description) => description@,
            CommandlineError::NotImplemented(_, description) => description@,
            CommandlineError::InvalidValue(_, description) => description@,
        }
    }

    /// The text of the underlying cause, if one was wrapped.
    pub open spec fn cause(&self) -> Option<Seq<char>> {
        match self {
            CommandlineError::IncompatibleValue(Some(cause), _) => Some(cause@),
            CommandlineError::NotImplemented(Some(cause), _) => Some(cause@),
            CommandlineError::InvalidValue(Some(cause), _) => Some(cause@),
            _ => None,
        }
    }

    /// The underlying cause, if one was wrapped.
    pub fn source(&self) -> (cause: &Option<String>)
        ensures
            cause == match self {
                CommandlineError::IncompatibleValue(cause, _) => cause,
                CommandlineError::NotImplemented(cause, _) => cause,
                CommandlineError::InvalidValue(cause, _) => cause,
            },
    {
        match self {
            CommandlineError::IncompatibleValue(cause, _) => cause,
            CommandlineError::NotImplemented(cause, _) => cause,
            CommandlineError::InvalidValue(cause, _) => cause,
        }
    }

    /// The heading, a colon, and the description.
    pub fn to_string(&self) -> (text: String)
        ensures
            text@ == self.title() + ": "@ + self.description(),
    {
        let (title, description) = match self {
            CommandlineError::IncompatibleValue(_, description) => (
                "The given value is incompatible with the configurations",
                description,
            ),
            CommandlineError::NotImplemented(_, description) => (
                "The given option is not implemented",
                description,
            ),
            CommandlineError::InvalidValue(_, description) => (
                "The given value is invalid",
                description,
            ),
        };
        String::from_str(title).concat(": ").concat(description.as_str())
    }
}

/// What is said of a token that is not a colour.
pub open spec fn refusal_of(token: Seq<char>) -> Seq<char> {
    if token.len() != 6 {
        "Invalid color format "@ + token
    } else {
        "Could not parse "@ + token + " as color"@
    }
}

/// The cause that is wrapped for a token that is not a colour: none for a
/// token of the wrong length, and for a token of six characters the words
/// of a failed parse of a number.
pub open spec fn cause_of(token: Seq<char>) -> Option<Seq<char>> {
    if token.len() != 6 {
        None
    } else {
        Some("invalid digit found in string"@)
    }
}

/// Whether a token names a colour: six hexadecimal digits.
pub open spec fn is_color_token(token: Seq<char>) -> bool {
    hex_channels(token) is Ok
}

/// The colour that a valid token names.
pub open spec fn color_of_token<C: Color>(token: Seq<char>) -> C {
    let (r, g, b) = hex_channels(token).unwrap();
    C::from_rgba_spec(r, g, b, 255)
}

/// The anchor colours that the tokens name. The first token that is not
/// six hexadecimal digits refuses the whole list.
pub fn get_colors<C: Color>(color_strings: &Vec<String>) -> (result: Result<
    Vec<C>,
    CommandlineError,
>)
    ensures
        result is Ok <==> forall|i: int|
            0 <= i < color_strings@.len() ==> is_color_token(#[trigger] color_strings@[i]@),
        result matches Ok(colors) ==> {
            &&& colors@.len() == color_strings@.len()
            &&& forall|i: int|
                0 <= i < colors@.len() ==> #[trigger] colors@[i] == color_of_token::<C>(
                    color_strings@[i]@,
                )
        },
        result matches Err(error) ==> {
            &&& error is InvalidValue
            &&& exists|k: int|
                {
                    &&& 0 <= k < color_strings@.len()
                    &&& !is_color_token(#[trigger] color_strings@[k]@)
                    &&& forall|j: int| 0 <= j < k ==> is_color_token(#[trigger] color_strings@[j]@)
                    &&& error.description() == refusal_of(color_strings@[k]@)
                    &&& error.cause() == cause_of(color_strings@[k]@)
                }
        },
{
    let mut color_vec: Vec<C> = Vec::new();
    let mut i: usize = 0;
    while i < color_strings.len()
        invariant
            i <= color_strings@.len(),
            color_vec@.len() == i,
            forall|j: int| 0 <= j < i ==> is_color_token(#[trigger] color_strings@[j]@),
            forall|j: int|
                0 <= j < i ==> #[trigger] color_vec@[j] == color_of_token::<C>(color_strings@[j]@),
        decreases color_strings@.len() - i,
    {
        let color_string: &str = color_strings[i].as_str();
        match from_hex::<C>(color_string) {
            Ok(c) => color_vec.push(c),
            Err(ParseColorError::InvalidLength) => {
                return Err(
                    CommandlineError::InvalidValue(
                        None,
                        String::from_str("Invalid color format ").concat(color_string),
                    ),
                );
            },
            Err(ParseColorError::InvalidDigit) => {
                return Err(
                    CommandlineError::InvalidValue(
                        Some(String::from_str("invalid digit found in string")),
                        String::from_str("Could not parse ").concat(color_string).concat(
                            " as color",
                        ),
                    ),
                );
            },
        }
        i += 1;
    }
    Ok(color_vec)
}

/// The anchor colours that valid tokens name, in order.
pub open spec fn anchors_of<C: Color>(tokens: Seq<String>) -> Seq<C> {
    Seq::new(tokens.len(), |i: int| color_of_token::<C>(tokens[i]@))
}

/// `closed` is `anchors` closed into a loop by a copy of the first, and
/// `gradient` is what the policy yields for it.
pub open spec fn is_closed_gradient<C: Color>(
    anchors: Seq<C>,
    closed: Seq<C>,
    generator_type: GradientGeneratorType,
    gradient: Seq<C>,
) -> bool {
    &&& closed.len() == anchors.len() + 1
    &&& closed.subrange(0, anchors.len() as int) == anchors
    &&& cloned(anchors[0], closed.last())
    &&& generator_type == GradientGeneratorType::Discrete ==> is_discrete_gradient(closed, gradient)
    &&& generator_type == GradientGeneratorType::Continuous ==> is_continuous_gradient(
        closed,
        gradient,
    )
}

/// `gradient` is what the policy yields for `anchors`, closed into a loop.
pub open spec fn is_gradient_of<C: Color>(
    anchors: Seq<C>,
    generator_type: GradientGeneratorType,
    gradient: Seq<C>,
) -> bool {
    exists|closed: Seq<C>| #[trigger] is_closed_gradient(anchors, closed, generator_type, gradient)
}

/// The gradient of `frames_len * loop_count` colours through the anchors
/// `colors`, closed into a loop.
pub fn get_gradient<C: Color>(
    generator_type: GradientGeneratorType,
    colors: Vec<C>,
    frames_len: usize,
    loop_count: usize,
) -> (gradient: Vec<C>)
    requires
        1 <= colors@.len() < usize::MAX,
        frames_len * loop_count <= usize::MAX,
    ensures
        gradient@.len() == frames_len * loop_count,
        is_gradient_of(colors@, generator_type, gradient@),
{
    let ghost anchors = colors@;
    let gradient_desc = GradientDescriptor::new(colors);
    let gradient = gradient_desc.generate(frames_len * loop_count, generator_type);
    assert(is_closed_gradient(anchors, gradient_desc.colors@, generator_type, gradient@));
    gradient
}

/// Whether the mixing mode is defined over the colour space.
pub open spec fn is_compatible(mode: MixingMode, space: ColorSpace) -> bool {
    match mode {
        MixingMode::Identity | MixingMode::Linear => space != ColorSpace::RGB,
        MixingMode::Custom => space == ColorSpace::HSL || space == ColorSpace::HSV || space
            == ColorSpace::LCH,
        MixingMode::Lab => space == ColorSpace::LAB,
        MixingMode::BlendOverlay => false,
    }
}

/// Accepts the pairs of mixing mode and colour space that are defined.
/// The overlay blend is not implemented in any space; every other mode is
/// incompatible with the spaces it is not defined over.
pub fn check_mixing(mode: MixingMode, space: ColorSpace) -> (result: Result<(), CommandlineError>)
    ensures
        result is Ok <==> is_compatible(mode, space),
        result matches Err(error) ==> if mode == MixingMode::BlendOverlay {
            error is NotImplemented
        } else {
            error is IncompatibleValue
        },
{
    match mode {
        MixingMode::Identity | MixingMode::Linear => match space {
            ColorSpace::HSL | ColorSpace::HSV | ColorSpace::LAB | ColorSpace::LCH => Ok(()),
            ColorSpace::RGB => Err(
                CommandlineError::IncompatibleValue(
                    None,
                    String::from_str(
                        "Only HSL, HSV, LAB, and LCH are supported for custom mixing mode",
                    ),
                ),
            ),
        },
        MixingMode::Custom => match space {
            ColorSpace::HSL | ColorSpace::HSV | ColorSpace::LCH => Ok(()),
            _ => Err(
                CommandlineError::IncompatibleValue(
                    None,
                    String::from_str("Only HSL, HSV, and LCH are supported for custom mixing mode"),
                ),
            ),
        },
        MixingMode::Lab => match space {
            ColorSpace::LAB => Ok(()),
            _ => Err(
                CommandlineError::IncompatibleValue(
                    None,
                    String::from_str("Only LAB is supported for lab mixing mode"),
                ),
            ),
        },
        MixingMode::BlendOverlay => Err(
            CommandlineError::NotImplemented(
                None,
                String::from_str("Blend overlay mixing is not implemented"),
            ),
        ),
    }
}

} // verus!
