//! Quantization: from a truecolour image to a palette and one index per
//! pixel.
use std::collections::HashMap;
use vstd::prelude::*;
use vstd::string::StringExecFns;

verus! {

/// Why quantization failed, with the underlying cause, if there is one, and
/// a description.
#[derive(Debug)]
pub enum QuantizeError {
    /// The chosen quantizer cannot be used.
    InvalidType(Option<String>, String),
    /// The quantizer gave up on the image.
    Failed(Option<String>, String),
}

impl QuantizeError {
    /// The heading under which this kind of error is reported.
    pub open spec fn title(&self) -> Seq<char> {
        match self {
            QuantizeError::InvalidType(..) => "The given quantizer is not a valid one"@,
            QuantizeError::Failed(..) => "The quantizer failed"@,
        }
    }

    /// The description given when the error was raised.
    pub open spec fn description(&self) -> Seq<char> {
        match self {
            QuantizeError::InvalidType(_, description) => description@,
            QuantizeError::Failed(_, description) => description@,
        }
    }

    /// The underlying cause, if one was wrapped.
    pub fn source(&self) -> (cause: &Option<String>)
        ensures
            cause == match self {
                QuantizeError::InvalidType(cause, _) => cause,
                QuantizeError::Failed(cause, _) => cause,
            },
    {
        match self {
            QuantizeError::InvalidType(cause, _) => cause,
            QuantizeError::Failed(cause, _) => cause,
        }
    }

    /// The heading, a colon, and the description.
    pub fn to_string(&self) -> (text: String)
        ensures
            text@ == self.title() + ": "@ + self.description(),
    {
        let (title, description) = match self {
            QuantizeError::InvalidType(_, description) => (
                "The given quantizer is not a valid one",
                description,
            ),
            QuantizeError::Failed(_, description) => ("The quantizer failed", description),
        };
        String::from_str(title).concat(": ").concat(description.as_str())
    }
}

/// The quantizers that can be asked for.
#[derive(Clone, Copy, Debug, PartialEq, Eq, Structural)]
pub enum QuantizerType {
    IDENTITY,
    IMAGEQUANT,
    SCALAR,
}

/// A quantizer and the number of colours it may use.
pub struct Quantizer {
    pub max_color_count: usize,
    pub quantizer_type: QuantizerType,
}

/// The colours of `items` in the order in which each first occurs.
pub open spec fn first_occurrences<T>(items: Seq<T>) -> Seq<T>
    decreases items.len(),
{
    if items.len() == 0 {
        Seq::empty()
    } else {
        let before = first_occurrences(items.drop_last());
        if before.contains(items.last()) {
            before
        } else {
            before.push(items.last())
        }
    }
}

/// `palette` and `indices` are the identity quantization of `img` onto
/// `area` pixels: the palette lists the distinct colours in order of first
/// occurrence, each pixel's index names its own colour, and the pixels that
/// `img` does not cover have index zero.
pub open spec fn is_identity_quantization(
    img: Seq<(u8, u8, u8, u8)>,
    area: int,
    palette: Seq<(u8, u8, u8, u8)>,
    indices: Seq<usize>,
) -> bool {
    &&& palette == first_occurrences(img)
    &&& indices.len() == area
    &&& forall|i: int|
        0 <= i < img.len() ==> 0 <= #[trigger] indices[i] < palette.len() && palette[indices[i] as int]
            == img[i]
    &&& forall|i: int| img.len() <= i < area ==> #[trigger] indices[i] == 0
}

/// The colours in order of first occurrence are the colours of `items`,
/// each once.
pub proof fn lemma_first_occurrences<T>(items: Seq<T>)
    ensures
        first_occurrences(items).no_duplicates(),
        first_occurrences(items).len() <= items.len(),
        forall|c: T| #[trigger] first_occurrences(items).contains(c) <==> items.contains(c),
    decreases items.len(),
{
    if items.len() > 0 {
        let shorter = items.drop_last();
        let before = first_occurrences(shorter);
        lemma_first_occurrences(shorter);
        let result = first_occurrences(items);
        assert forall|c: T| #[trigger] result.contains(c) <==> items.contains(c) by {
            if items.contains(c) {
                let i = choose|i: int| 0 <= i < items.len() && items[i] == c;
                if i < items.len() - 1 {
                    assert(shorter[i] == c);
                    assert(shorter.contains(c));
                    assert(before.contains(c));
                    let j = choose|j: int| 0 <= j < before.len() && before[j] == c;
                    assert(result[j] == c);
                } else {
                    if before.contains(c) {
                    } else {
                        assert(result[before.len() as int] == c);
                    }
                }
            }
            if result.contains(c) {
                let j = choose|j: int| 0 <= j < result.len() && result[j] == c;
                if j < before.len() {
                    assert(before[j] == c);
                    assert(before.contains(c));
                    assert(shorter.contains(c));
                    let i = choose|i: int| 0 <= i < shorter.len() && shorter[i] == c;
                    assert(items[i] == c);
                } else {
                    assert(items[items.len() - 1] == c);
                }
            }
        }
    }
}

/// In an identity quantization the palette has one entry for each distinct
/// colour of the image, and two pixels have the same index exactly when
/// they have the same colour.
pub proof fn lemma_identity_quantization(
    img: Seq<(u8, u8, u8, u8)>,
    area: int,
    palette: Seq<(u8, u8, u8, u8)>,
    indices: Seq<usize>,
)
    requires
        is_identity_quantization(img, area, palette, indices),
    ensures
        palette.len() == img.to_set().len(),
        palette.no_duplicates(),
        forall|i: int, j: int|
            0 <= i < img.len() && 0 <= j < img.len() ==> (#[trigger] indices[i]
                == #[trigger] indices[j] <==> img[i] == img[j]),
{
    lemma_first_occurrences(img);
    palette.unique_seq_to_set();
    assert(palette.to_set() =~= img.to_set()) by {
        assert forall|c: (u8, u8, u8, u8)| palette.to_set().contains(c) <==> img.to_set().contains(
            c,
        ) by {
            assert(palette.contains(c) <==> img.contains(c));
        }
    }
}

/// The four channels as one number, different for different colours.
pub open spec fn packed(color: (u8, u8, u8, u8)) -> u32 {
    (color.0 * 0x100_0000 + color.1 * 0x1_0000 + color.2 * 0x100 + color.3) as u32
}

/// Some entry of `palette` has the packed number `key`.
pub open spec fn keyed_in(palette: Seq<(u8, u8, u8, u8)>, key: u32) -> bool {
    exists|j: int| 0 <= j < palette.len() && packed(#[trigger] palette[j]) == key
}

fn pack(color: (u8, u8, u8, u8)) -> (key: u32)
    ensures
        key == packed(color),
{
    (color.0 as u32) * 0x100_0000 + (color.1 as u32) * 0x1_0000 + (color.2 as u32) * 0x100 + (
    color.3 as u32)
}

/// The byte indices `narrow`, each as a full index.
pub open spec fn widened(narrow: Seq<u8>) -> Seq<usize> {
    Seq::new(narrow.len(), |i: int| narrow[i] as usize)
}

/// What `Quantizer::run` returns for an identity quantization of `img` onto
/// `dimensions`: it succeeds when the image fits its dimensions and has at
/// most 256 distinct colours.
pub open spec fn identity_run_succeeds(img: Seq<(u8, u8, u8, u8)>, dimensions: (usize, usize)) -> bool {
    &&& img.len() <= dimensions.0 * dimensions.1 <= usize::MAX
    &&& first_occurrences(img).len() <= 256
}

impl Quantizer {
    /// A quantizer of the given kind that may use `max_color_count` colours.
    pub fn new(max_color_count: usize, quantizer_type: QuantizerType) -> (quantizer: Self)
        ensures
            quantizer.max_color_count == max_color_count,
            quantizer.quantizer_type == quantizer_type,
    {
        Quantizer { max_color_count, quantizer_type }
    }

    /// Quantizes `img` with the quantizer that was chosen. The scalar
    /// quantizer is not a valid choice, and the identity quantizer is none
    /// for an image of more than 256 colours.
    pub fn run(&self, img: Vec<(u8, u8, u8, u8)>, dimensions: (usize, usize)) -> (result: Result<
        (Vec<(u8, u8, u8, u8)>, Vec<u8>),
        QuantizeError,
    >)
        ensures
            self.quantizer_type == QuantizerType::SCALAR ==> (result matches Err(
                QuantizeError::InvalidType(None, description),
            ) && description@ == "Invalid quantizer SCALAR"@),
            self.quantizer_type == QuantizerType::IDENTITY ==> (result is Ok
                <==> identity_run_succeeds(img@, dimensions)),
            self.quantizer_type == QuantizerType::IDENTITY ==> (result matches Ok(
                (palette, indices),
            ) ==> is_identity_quantization(
                img@,
                dimensions.0 * dimensions.1,
                palette@,
                widened(indices@),
            )),
            self.quantizer_type == QuantizerType::IDENTITY ==> (result matches Err(error)
                ==> if img@.len() <= dimensions.0 * dimensions.1 <= usize::MAX {
                error is InvalidType
            } else {
                error is Failed
            }),
            self.quantizer_type == QuantizerType::IMAGEQUANT ==> image_quant_outcome(
                img@,
                dimensions,
                result,
            ),
    {
        match self.quantizer_type {
            QuantizerType::IDENTITY => {
                let area = match dimensions.0.checked_mul(dimensions.1) {
                    Some(area) => area,
                    None => {
                        return Err(
                            QuantizeError::Failed(
                                None,
                                String::from_str("The image is larger than can be addressed"),
                            ),
                        );
                    },
                };
                if img.len() > area {
                    return Err(
                        QuantizeError::Failed(
                            None,
                            String::from_str("The image has more pixels than its dimensions"),
                        ),
                    );
                }
                let (palette, wide) = match quantize_identity(img, dimensions) {
                    Ok(quantized) => quantized,
                    Err(error) => {
                        return Err(error);
                    },
                };
                if palette.len() > 256 {
                    return Err(
                        QuantizeError::InvalidType(
                            None,
                            String::from_str("The image has more than 256 colours"),
                        ),
                    );
                }
                let mut indices: Vec<u8> = Vec::new();
                let mut i: usize = 0;
                while i < wide.len()
                    invariant
                        i <= wide@.len(),
                        indices@.len() == i,
                        forall|j: int| 0 <= j < wide@.len() ==> #[trigger] wide@[j] < 256,
                        forall|j: int| 0 <= j < i ==> #[trigger] indices@[j] == wide@[j],
                    decreases wide@.len() - i,
                {
                    indices.push(wide[i] as u8);
                    i += 1;
                }
                assert(widened(indices@) =~= wide@);
                Ok((palette, indices))
            },
            QuantizerType::IMAGEQUANT => quantize_image_quant(img, dimensions),
            QuantizerType::SCALAR => Err(
                QuantizeError::InvalidType(None, String::from_str("Invalid quantizer SCALAR")),
            ),
        }
    }
}

/// What the outside quantizer is asked to do.
#[derive(Clone, Copy, Debug, PartialEq, Eq, Structural)]
pub struct QuantizerSettings {
    /// From 1, slow and good, to 10, fast and rough.
    pub speed: i32,
    /// The quality below which the quantizer gives up, out of 100.
    pub minimum_quality: u8,
    /// The quality that the quantizer aims at, out of 100.
    pub target_quality: u8,
    /// The gamma of the image; 0 stands for the usual one.
    pub gamma: u8,
    /// 0 for no dithering, 1 for full dithering.
    pub dithering: u8,
}

/// The settings with which an image is quantized: speed 5, any quality,
/// the usual gamma, and full dithering.
pub open spec fn image_quant_settings() -> QuantizerSettings {
    QuantizerSettings { speed: 5, minimum_quality: 0, target_quality: 100, gamma: 0, dithering: 1 }
}

/// Whether the palette and the indices fit an image of `covered` pixels
/// and the given dimensions: the dimensions are positive and covered by
/// the image, there is one index for each pixel, there are at most 256
/// colours, and every index names one of them.
pub open spec fn quantized_fits(
    covered: int,
    dimensions: (usize, usize),
    palette: Seq<(u8, u8, u8, u8)>,
    indices: Seq<u8>,
) -> bool {
    &&& 0 < dimensions.0 * dimensions.1 <= covered
    &&& indices.len() == dimensions.0 * dimensions.1
    &&& palette.len() <= 256
    &&& forall|i: int| 0 <= i < indices.len() ==> (#[trigger] indices[i]) < palette.len()
}

/// What is said where the outside quantizer refuses its work.
pub open spec fn quantizer_failed_text() -> Seq<char> {
    "The quantizer rejected the image or its settings"@
}

/// What is said of a palette and indices that do not fit the image.
pub open spec fn misfit_text() -> Seq<char> {
    "The quantizer returned what does not fit the image"@
}

/// What holds of every outcome of `quantize_image_quant`: a success is
/// something that the outside quantizer gave of this image with the
/// settings above, and it fits the image; a failure is the quantizer's
/// own, with its words as the cause, or that of an answer that does not
/// fit, without a cause.
pub open spec fn image_quant_outcome(
    img: Seq<(u8, u8, u8, u8)>,
    dimensions: (usize, usize),
    result: Result<(Vec<(u8, u8, u8, u8)>, Vec<u8>), QuantizeError>,
) -> bool {
    match result {
        Ok((palette, indices)) => {
            &&& liq_gives(
                image_quant_settings(),
                img,
                dimensions.0,
                dimensions.1,
                palette@,
                indices@,
            )
            &&& quantized_fits(img.len() as int, dimensions, palette@, indices@)
        },
        Err(error) => {
            &&& error matches QuantizeError::Failed(cause, description)
            &&& cause is Some ==> description@ == quantizer_failed_text()
            &&& cause is None ==> description@ == misfit_text()
        },
    }
}

/// Whether the palette and the indices are an answer that the outside
/// quantizer can give of these pixels with these settings. The quantizer
/// works on several threads and need not give the same answer twice, so
/// this says of an answer where it came from, and not what it is.
pub uninterp spec fn liq_gives(
    settings: QuantizerSettings,
    pixels: Seq<(u8, u8, u8, u8)>,
    width: usize,
    height: usize,
    palette: Seq<(u8, u8, u8, u8)>,
    indices: Seq<u8>,
) -> bool;

/// `imagequant::Error`: why the quantizer failed; only its text is read.
#[verifier::external_type_specification]
#[verifier::external_body]
pub struct ExLiqError(imagequant::Error);

/// One run of the outside quantizer: `imagequant::new`, `set_speed`,
/// `set_quality`, `new_image`, `quantize`, `set_dithering_level` and
/// `remapped`, with the settings and the pixels as they are given. What
/// comes back is an answer of the quantizer to just these.
#[verifier::external_body]
fn liq_run(
    settings: QuantizerSettings,
    pixels: Vec<(u8, u8, u8, u8)>,
    width: usize,
    height: usize,
) -> (outcome: Result<(Vec<(u8, u8, u8, u8)>, Vec<u8>), imagequant::Error>)
    ensures
        outcome matches Ok((palette, indices)) ==> liq_gives(
            settings,
            pixels@,
            width,
            height,
            palette@,
            indices@,
        ),
{
    let mut liq = imagequant::new();
    liq.set_speed(settings.speed)?;
    liq.set_quality(settings.minimum_quality, settings.target_quality)?;
    let pixels: Vec<imagequant::RGBA> = pixels.into_iter().map(|pixel| pixel.into()).collect();
    let mut image = liq.new_image(pixels, width, height, settings.gamma.into())?;
    let mut quantized = liq.quantize(&mut image)?;
    quantized.set_dithering_level(settings.dithering.into())?;
    let (palette, indices) = quantized.remapped(&mut image)?;
    Ok((palette.into_iter().map(|pixel| (pixel.r, pixel.g, pixel.b, pixel.a)).collect(), indices))
}

/// The text of `imagequant::Error`, as its `Display` gives it: the same
/// text for the same error.
#[verifier::external_body]
fn liq_error_text(error: &imagequant::Error) -> (text: String)
    ensures
        text@ == liq_error_message(*error),
{
    error.to_string()
}

/// The text of an error of the outside quantizer.
pub uninterp spec fn liq_error_message(error: imagequant::Error) -> Seq<char>;

/// The library's error for a failure of the outside quantizer: the
/// quantizer's own words as the cause, under the description above.
fn quantizer_failed(error: imagequant::Error) -> (failure: QuantizeError)
    ensures
        failure matches QuantizeError::Failed(Some(cause), description) && cause@
            == liq_error_message(error) && description@ == quantizer_failed_text(),
{
    QuantizeError::Failed(
        Some(liq_error_text(&error)),
        String::from_str("The quantizer rejected the image or its settings"),
    )
}

/// Passes on the palette and the indices that came back of an image of
/// `covered` pixels, where they fit it; what does not fit is a failure of
/// the quantizer without a cause.
pub fn check_quantized(
    covered: usize,
    dimensions: (usize, usize),
    palette: Vec<(u8, u8, u8, u8)>,
    indices: Vec<u8>,
) -> (result: Result<(Vec<(u8, u8, u8, u8)>, Vec<u8>), QuantizeError>)
    ensures
        result is Ok <==> quantized_fits(covered as int, dimensions, palette@, indices@),
        result matches Ok((passed_palette, passed_indices)) ==> passed_palette == palette
            && passed_indices == indices,
        result matches Err(error) ==> error matches QuantizeError::Failed(None, description)
            && description@ == misfit_text(),
{
    let sized = match dimensions.0.checked_mul(dimensions.1) {
        Some(area) => 0 < area && area <= covered && indices.len() == area && palette.len() <= 256,
        None => false,
    };
    if !sized {
        return Err(
            QuantizeError::Failed(
                None,
                String::from_str("The quantizer returned what does not fit the image"),
            ),
        );
    }
    let mut i: usize = 0;
    while i < indices.len()
        invariant
            i <= indices@.len(),
            forall|j: int| 0 <= j < i ==> (#[trigger] indices@[j]) < palette@.len(),
        decreases indices@.len() - i,
    {
        if indices[i] as usize >= palette.len() {
            return Err(
                QuantizeError::Failed(
                    None,
                    String::from_str("The quantizer returned what does not fit the image"),
                ),
            );
        }
        i += 1;
    }
    Ok((palette, indices))
}

/// Quantizes `img` to at most 256 colours with the outside quantizer, at
/// speed 5, any quality, the usual gamma, and full dithering. What the
/// quantizer hands back is only passed on where it fits the image.
pub fn quantize_image_quant(img: Vec<(u8, u8, u8, u8)>, dimensions: (usize, usize)) -> (result:
    Result<(Vec<(u8, u8, u8, u8)>, Vec<u8>), QuantizeError>)
    ensures
        image_quant_outcome(img@, dimensions, result),
{
    let covered: usize = img.len();
    let settings = QuantizerSettings {
        speed: 5,
        minimum_quality: 0,
        target_quality: 100,
        gamma: 0,
        dithering: 1,
    };
    match liq_run(settings, img, dimensions.0, dimensions.1) {
        Ok((palette, indices)) => check_quantized(covered, dimensions, palette, indices),
        Err(error) => Err(quantizer_failed(error)),
    }
}

/// Gives every distinct colour of `img` a palette entry, in order of first
/// occurrence, and every pixel the index of its colour. The palette is as
/// large as the image has colours: the caller decides whether that fits.
pub fn quantize_identity(img: Vec<(u8, u8, u8, u8)>, dimensions: (usize, usize)) -> (result: Result<
    (Vec<(u8, u8, u8, u8)>, Vec<usize>),
    QuantizeError,
>)
    requires
        img@.len() <= dimensions.0 * dimensions.1 <= usize::MAX,
    ensures
        result matches Ok((palette, indices)) && is_identity_quantization(
            img@,
            dimensions.0 * dimensions.1,
            palette@,
            indices@,
        ),
{
    broadcast use vstd::std_specs::hash::group_hash_axioms;

    let area: usize = dimensions.0 * dimensions.1;
    let mut color_map: HashMap<u32, usize> = HashMap::new();
    let mut palette_list: Vec<(u8, u8, u8, u8)> = Vec::new();
    let mut indexed_pixels: Vec<usize> = Vec::new();
    let mut i: usize = 0;
    while i < img.len()
        invariant
            i <= img@.len() <= area,
            palette_list@ == first_occurrences(img@.take(i as int)),
            palette_list@.len() <= i,
            indexed_pixels@.len() == i,
            forall|j: int|
                0 <= j < i ==> 0 <= #[trigger] indexed_pixels@[j] < palette_list@.len()
                    && palette_list@[indexed_pixels@[j] as int] == img@[j],
            forall|j: int|
                0 <= j < palette_list@.len() ==> color_map@.contains_key(
                    #[trigger] packed(palette_list@[j]),
                ) && color_map@[packed(palette_list@[j])] == j,
            forall|key: u32| #[trigger]
                color_map@.contains_key(key) ==> keyed_in(palette_list@, key),
        decreases img@.len() - i,
    {
        let color = img[i];
        let key = pack(color);
        let ghost before = palette_list@;
        proof {
            assert(img@.take(i + 1).drop_last() == img@.take(i as int));
            assert(img@.take(i + 1).last() == color);
        }
        let known = color_map.get(&key);
        let index: usize = match known {
            Some(index) => {
                let index: usize = *index;
                proof {
                    assert(keyed_in(before, key));
                    let j = choose|j: int|
                        0 <= j < before.len() && packed(#[trigger] before[j]) == key;
                    assert(before[j] == color);
                    assert(before.contains(color));
                    assert(index == j);
                }
                index
            },
            None => {
                proof {
                    if before.contains(color) {
                        let j = choose|j: int| 0 <= j < before.len() && before[j] == color;
                        assert(color_map@.contains_key(packed(before[j])));
                    }
                }
                let ghost keys = color_map@;
                palette_list.push(color);
                color_map.insert(key, palette_list.len() - 1);
                proof {
                    assert forall|other: u32| #[trigger]
                        color_map@.contains_key(other) implies keyed_in(palette_list@, other) by {
                        if other == key {
                            assert(packed(palette_list@[before.len() as int]) == key);
                        } else {
                            assert(keys.contains_key(other));
                            assert(keyed_in(before, other));
                            let j = choose|j: int|
                                0 <= j < before.len() && packed(#[trigger] before[j]) == other;
                            assert(packed(palette_list@[j]) == other);
                        }
                    }
                }
                palette_list.len() - 1
            },
        };
        indexed_pixels.push(index);
        i += 1;
    }
    assert(img@.take(img@.len() as int) == img@);
    while indexed_pixels.len() < area
        invariant
            img@.len() <= indexed_pixels@.len() <= area,
            forall|j: int|
                0 <= j < img@.len() ==> 0 <= #[trigger] indexed_pixels@[j] < palette_list@.len()
                    && palette_list@[indexed_pixels@[j] as int] == img@[j],
            forall|j: int| img@.len() <= j < indexed_pixels@.len() ==> #[trigger] indexed_pixels@[j] == 0,
        decreases area - indexed_pixels@.len(),
    {
        indexed_pixels.push(0);
    }
    Ok((palette_list, indexed_pixels))
}

} // verus!
