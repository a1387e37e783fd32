use palette::{FromColor, IntoColor, Lcha, Mix, Srgba, WithAlpha};
use rainbowgif::codec::gif::{frame_from_parts, FrameMeta, GifDecoder, GifEncoder};
use rainbowgif::codec::image::{flatten_transparency, still_frame, Bitmap, ImageDecoder};
use rainbowgif::codec::{
    extent_area, Decodable, DecodeError, DisposalMethod, Encodable, EncodeError, Frame, Palette,
};
use rainbowgif::color::{Color, Ratio};

/// The canonical colour itself, eight bits a channel.
#[derive(Clone, Copy, Debug, PartialEq)]
struct Rgba8(u8, u8, u8, u8);

// The four `*_spec` items only exist for the verifier and are never called.
impl Color for Rgba8 {
    fn from_rgba_spec(_: u8, _: u8, _: u8, _: u8) -> Self {
        unreachable!()
    }

    fn rgba_spec(&self) -> (u8, u8, u8, u8) {
        unreachable!()
    }

    fn mix_spec(&self, _: &Self, _: Ratio) -> Self {
        unreachable!()
    }

    fn alpha_above_spec(&self, _: Ratio) -> bool {
        unreachable!()
    }

    fn from_rgba(red: u8, green: u8, blue: u8, alpha: u8) -> Self {
        Rgba8(red, green, blue, alpha)
    }

    fn to_rgba(&self) -> (u8, u8, u8, u8) {
        (self.0, self.1, self.2, self.3)
    }

    fn mix(&self, other: &Self, weight: Ratio) -> Self {
        let part = |a: u8, b: u8| {
            let (a, b) = (a as i64, b as i64);
            (a + (b - a) * weight.num as i64 / weight.den as i64) as u8
        };
        Rgba8(part(self.0, other.0), part(self.1, other.1), part(self.2, other.2), part(self.3, other.3))
    }

    fn alpha_above(&self, threshold: Ratio) -> bool {
        self.3 as usize * threshold.den > 255 * threshold.num
    }
}

/// The cylindrical Lab space of the outside colour crate.
#[derive(Clone, Copy, Debug, PartialEq)]
struct Lch(Lcha);

impl Color for Lch {
    fn from_rgba_spec(_: u8, _: u8, _: u8, _: u8) -> Self {
        unreachable!()
    }

    fn rgba_spec(&self) -> (u8, u8, u8, u8) {
        unreachable!()
    }

    fn mix_spec(&self, _: &Self, _: Ratio) -> Self {
        unreachable!()
    }

    fn alpha_above_spec(&self, _: Ratio) -> bool {
        unreachable!()
    }

    fn from_rgba(red: u8, green: u8, blue: u8, alpha: u8) -> Self {
        Lch(Lcha::from_color(Srgba::new(
            red as f32 / 255.,
            green as f32 / 255.,
            blue as f32 / 255.,
            alpha as f32 / 255.,
        )))
    }

    fn to_rgba(&self) -> (u8, u8, u8, u8) {
        let rgba: Srgba = self.0.into_color();
        (
            (rgba.color.red * 255.) as u8,
            (rgba.color.green * 255.) as u8,
            (rgba.color.blue * 255.) as u8,
            (rgba.alpha * 255.) as u8,
        )
    }

    fn mix(&self, other: &Self, weight: Ratio) -> Self {
        Lch(self.0.mix(&other.0, weight.num as f32 / weight.den as f32))
    }

    fn alpha_above(&self, threshold: Ratio) -> bool {
        let (_, alpha) = self.0.split();
        alpha > threshold.num as f32 / threshold.den as f32
    }
}

fn meta(dimensions: (u16, u16)) -> FrameMeta {
    FrameMeta {
        delay: 7,
        dispose: DisposalMethod::Background,
        origin: (1, 2),
        dimensions,
        transparent_index: Some(1),
        interlaced: false,
        needs_input: true,
    }
}

fn sample_frame(delay: u16, dispose: DisposalMethod, shade: u8) -> Frame<Rgba8> {
    Frame {
        delay,
        dispose,
        origin: (0, 0),
        dimensions: (2, 2),
        palette: Palette::new(vec![Rgba8(shade, 0, 0, 255), Rgba8(0, shade, 0, 255)]),
        pixels_indexed: vec![0, 1, 1, 0],
        transparent_index: None,
        interlaced: false,
        needs_input: false,
    }
}

#[test]
fn palette_from_gif_format_reads_opaque_triplets() {
    let palette = Palette::<Rgba8>::from_gif_format(&[1, 2, 3, 250, 251, 252]);
    assert_eq!(palette.colors, vec![Rgba8(1, 2, 3, 255), Rgba8(250, 251, 252, 255)]);
    assert_eq!(Palette::<Rgba8>::from_gif_format(&[]).colors, vec![]);
}

#[test]
fn palette_into_gif_format_drops_alpha() {
    let palette = Palette::new(vec![Rgba8(9, 8, 7, 6), Rgba8(5, 4, 3, 2)]);
    assert_eq!(palette.into_gif_format(), vec![9, 8, 7, 5, 4, 3]);
}

#[test]
fn palette_round_trip_keeps_order() {
    let colors: Vec<Rgba8> = (0..=255u8).map(|i| Rgba8(i, 255 - i, i / 2, 255)).collect();
    let flat = Palette::new(colors.clone()).into_gif_format();
    assert_eq!(flat.len(), 768);
    assert_eq!(Palette::<Rgba8>::from_gif_format(&flat).colors, colors);
}

#[test]
fn palette_round_trip_in_a_float_space_is_within_rounding() {
    let bytes: Vec<u8> = vec![0, 0, 0, 255, 255, 255, 12, 130, 250, 200, 100, 50];
    let back = Palette::<Lch>::from_gif_format(&bytes).into_gif_format();
    assert_eq!(back.len(), bytes.len());
    for (a, b) in back.iter().zip(bytes.iter()) {
        assert!((*a as i16 - *b as i16).abs() <= 1, "{} against {}", a, b);
    }
}

#[test]
fn extent_area_multiplies() {
    assert_eq!(extent_area((0, 9)), 0);
    assert_eq!(extent_area((3, 5)), 15);
    assert_eq!(extent_area((65535, 65535)), 4294836225);
}

#[test]
fn frame_from_parts_prefers_the_local_palette() {
    let frame: Frame<Rgba8> = frame_from_parts(
        meta((2, 1)),
        Some(vec![1, 2, 3]),
        Some(vec![4, 5, 6]),
        vec![0, 0],
    )
    .unwrap();
    assert_eq!(frame.palette.colors, vec![Rgba8(1, 2, 3, 255)]);
    assert_eq!(frame.delay, 7);
    assert_eq!(frame.dispose, DisposalMethod::Background);
    assert_eq!(frame.origin, (1, 2));
    assert_eq!(frame.dimensions, (2, 1));
    assert_eq!(frame.pixels_indexed, vec![0, 0]);
    assert_eq!(frame.transparent_index, Some(1));
    assert!(!frame.interlaced);
    assert!(frame.needs_input);
}

#[test]
fn frame_from_parts_falls_back_to_the_global_palette() {
    let frame: Frame<Rgba8> =
        frame_from_parts(meta((1, 1)), None, Some(vec![4, 5, 6]), vec![0]).unwrap();
    assert_eq!(frame.palette.colors, vec![Rgba8(4, 5, 6, 255)]);
}

#[test]
fn frame_without_any_palette_is_a_frame_read_failure() {
    let missing = frame_from_parts::<Rgba8>(meta((1, 1)), None, None, vec![0]);
    assert!(matches!(missing, Err(DecodeError::FrameRead(None, _))));
    let empty = frame_from_parts::<Rgba8>(meta((1, 1)), None, Some(vec![]), vec![0]);
    match empty {
        Err(error) => assert_eq!(
            error.to_string(),
            "Error reading frame: Frame had no valid global palette to fall back to"
        ),
        Ok(_) => panic!("a frame without a palette was read"),
    }
}

#[test]
fn frame_with_odd_parts_is_a_frame_read_failure() {
    let ragged = frame_from_parts::<Rgba8>(meta((1, 1)), Some(vec![1, 2, 3, 4]), None, vec![0]);
    assert!(matches!(ragged, Err(DecodeError::FrameRead(..))));
    let large = frame_from_parts::<Rgba8>(meta((1, 1)), Some(vec![0; 771]), None, vec![0]);
    assert!(matches!(large, Err(DecodeError::FrameRead(..))));
    let short = frame_from_parts::<Rgba8>(meta((2, 2)), Some(vec![1, 2, 3]), None, vec![0]);
    assert!(matches!(short, Err(DecodeError::FrameRead(..))));
}

#[test]
fn animation_round_trip_keeps_frames_and_canvas() {
    let frames = vec![
        sample_frame(3, DisposalMethod::Keep, 10),
        sample_frame(5, DisposalMethod::Background, 20),
        sample_frame(8, DisposalMethod::Previous, 30),
    ];
    let mut encoder = GifEncoder::<Rgba8>::new((2, 2)).unwrap();
    encoder.encode_all(frames.clone()).unwrap();
    let bytes = encoder.into_inner().unwrap();
    assert_eq!(&bytes[..6], &b"GIF89a"[..]);

    let mut decoder = GifDecoder::<Rgba8>::new(bytes.clone()).unwrap();
    assert_eq!(decoder.get_dimensions(), (2, 2));
    assert_eq!(decoder.get_width(), 2);
    assert_eq!(decoder.get_height(), 2);
    let decoded = decoder.decode_all().unwrap().unwrap();
    assert_eq!(decoded.len(), 3);
    for (read, written) in decoded.iter().zip(frames.iter()) {
        assert_eq!(read.delay, written.delay);
        assert_eq!(read.dispose, written.dispose);
        assert_eq!(read.interlaced, written.interlaced);
        assert_eq!(read.origin, written.origin);
        assert_eq!(read.dimensions, written.dimensions);
        assert_eq!(read.pixels_indexed, written.pixels_indexed);
        assert_eq!(read.transparent_index, written.transparent_index);
        assert_eq!(read.palette.colors, written.palette.colors);
    }
    assert!(matches!(decoder.decode(), Ok(None)));
    assert!(matches!(decoder.decode_all(), Ok(None)));

    let mut again = GifEncoder::<Rgba8>::new(decoder.get_dimensions()).unwrap();
    again.encode_all(decoded).unwrap();
    let mut reread = GifDecoder::<Rgba8>::new(again.into_inner().unwrap()).unwrap();
    assert_eq!(reread.get_dimensions(), (2, 2));
    assert_eq!(reread.decode_all().unwrap().unwrap().len(), 3);
}

#[test]
fn decoder_yields_frames_one_by_one() {
    let mut encoder = GifEncoder::<Rgba8>::new((2, 2)).unwrap();
    encoder.encode(sample_frame(1, DisposalMethod::Keep, 1)).unwrap();
    encoder.write(sample_frame(2, DisposalMethod::Keep, 2)).unwrap();
    let mut decoder = GifDecoder::<Rgba8>::new(encoder.into_inner().unwrap()).unwrap();
    assert_eq!(decoder.decode().unwrap().unwrap().delay, 1);
    assert_eq!(decoder.decode().unwrap().unwrap().delay, 2);
    assert!(decoder.decode().unwrap().is_none());
}

#[test]
fn decoder_as_a_sequence_ends_with_none() {
    let mut encoder = GifEncoder::<Rgba8>::new((2, 2)).unwrap();
    encoder.encode(sample_frame(4, DisposalMethod::Any, 1)).unwrap();
    let decoder = GifDecoder::<Rgba8>::new(encoder.into_inner().unwrap()).unwrap();
    let mut frames = decoder.into_iter();
    let first = frames.next().unwrap();
    assert_eq!(first.delay, 4);
    assert_eq!(first.dispose, DisposalMethod::Any);
    assert!(frames.next().is_none());
}

#[test]
fn malformed_header_is_an_initialization_failure() {
    let result = GifDecoder::<Rgba8>::new(b"not an animation".to_vec());
    match result {
        Err(error) => {
            assert!(matches!(error, DecodeError::Init(Some(_), _)));
            assert_eq!(error.to_string(), "Error initializing decoder: Could not read image");
            assert!(error.source().is_some());
        }
        Ok(_) => panic!("a malformed header was accepted"),
    }
}

#[test]
fn truncated_stream_is_a_frame_read_failure() {
    let mut encoder = GifEncoder::<Rgba8>::new((2, 2)).unwrap();
    encoder.encode(sample_frame(1, DisposalMethod::Keep, 1)).unwrap();
    let mut bytes = encoder.into_inner().unwrap();
    bytes.truncate(bytes.len() - 6);
    let mut decoder = GifDecoder::<Rgba8>::new(bytes).unwrap();
    assert!(matches!(decoder.decode_all(), Err(DecodeError::FrameRead(Some(_), _))));
}

#[test]
fn frame_that_does_not_fit_is_a_frame_write_failure() {
    let mut encoder = GifEncoder::<Rgba8>::new((2, 2)).unwrap();
    let mut short = sample_frame(1, DisposalMethod::Keep, 1);
    short.pixels_indexed.pop();
    let result = encoder.encode(short);
    match result {
        Err(error) => {
            assert!(matches!(error, EncodeError::FrameWrite(None, _)));
            assert_eq!(
                error.to_string(),
                "Error write frame: The frame does not fit its extent or its palette"
            );
        }
        Ok(()) => panic!("a frame with a pixel missing was written"),
    }
    let mut crowded = sample_frame(1, DisposalMethod::Keep, 1);
    crowded.palette = Palette { colors: vec![Rgba8(0, 0, 0, 255); 257] };
    assert!(matches!(encoder.write(crowded), Err(EncodeError::FrameWrite(..))));
    let frames = vec![sample_frame(1, DisposalMethod::Keep, 1), {
        let mut bad = sample_frame(2, DisposalMethod::Keep, 1);
        bad.pixels_indexed.push(0);
        bad
    }];
    assert!(encoder.encode_all(frames).is_err());
    let mut decoder = GifDecoder::<Rgba8>::new(encoder.into_inner().unwrap()).unwrap();
    assert_eq!(decoder.decode_all().unwrap().unwrap().len(), 1);
}

#[test]
fn frame_clone_keeps_every_field() {
    let frame = sample_frame(9, DisposalMethod::Previous, 40);
    let copy = frame.clone();
    assert_eq!(copy.delay, 9);
    assert_eq!(copy.dispose, DisposalMethod::Previous);
    assert_eq!(copy.palette.colors, frame.palette.colors);
    assert_eq!(copy.pixels_indexed, frame.pixels_indexed);
    assert_eq!(copy.dimensions, (2, 2));
}

#[test]
fn flatten_transparency_clears_what_is_not_opaque() {
    let rgba = vec![1, 2, 3, 255, 4, 5, 6, 254, 7, 8, 9, 0, 10, 11, 12, 255, 99];
    assert_eq!(
        flatten_transparency(&rgba),
        vec![(1, 2, 3, 255), (0, 0, 0, 0), (0, 0, 0, 0), (10, 11, 12, 255)]
    );
}

#[test]
fn still_frame_marks_the_first_transparent_entry() {
    let frame: Frame<Rgba8> = still_frame(
        vec![(1, 1, 1, 255), (0, 0, 0, 0), (2, 2, 2, 255), (3, 3, 3, 0)],
        vec![0, 1, 2, 3],
        (2, 2),
    );
    assert_eq!(frame.transparent_index, Some(1));
    assert_eq!(frame.delay, 0);
    assert_eq!(frame.dispose, DisposalMethod::Keep);
    assert_eq!(frame.origin, (0, 0));
    assert_eq!(frame.dimensions, (2, 2));
    assert!(!frame.interlaced);
    assert!(!frame.needs_input);
    assert_eq!(
        frame.palette.colors,
        vec![Rgba8(1, 1, 1, 255), Rgba8(0, 0, 0, 0), Rgba8(2, 2, 2, 255), Rgba8(3, 3, 3, 0)]
    );
    assert_eq!(frame.pixels_indexed, vec![0, 1, 2, 3]);
    let opaque: Frame<Rgba8> = still_frame(vec![(1, 1, 1, 255)], vec![0], (1, 1));
    assert_eq!(opaque.transparent_index, None);
}

fn png_bytes(width: u32, height: u32, pixel: impl Fn(u32, u32) -> [u8; 4]) -> Vec<u8> {
    let mut buffer = image::RgbaImage::new(width, height);
    for (x, y, out) in buffer.enumerate_pixels_mut() {
        *out = image::Rgba(pixel(x, y));
    }
    let mut bytes = std::io::Cursor::new(Vec::new());
    buffer.write_to(&mut bytes, image::ImageOutputFormat::Png).unwrap();
    bytes.into_inner()
}

#[test]
fn still_image_yields_one_frame() {
    let bytes = png_bytes(4, 3, |x, _| if x < 2 { [255, 0, 0, 255] } else { [0, 0, 255, 255] });
    let mut decoder = ImageDecoder::<Rgba8>::new(bytes, None).unwrap();
    assert_eq!(decoder.get_dimensions(), (4, 3));
    let frame = decoder.decode().unwrap().unwrap();
    assert_eq!(frame.delay, 0);
    assert_eq!(frame.dispose, DisposalMethod::Keep);
    assert_eq!(frame.origin, (0, 0));
    assert_eq!(frame.dimensions, (4, 3));
    assert!(!frame.interlaced);
    assert!(!frame.needs_input);
    assert_eq!(frame.transparent_index, None);
    assert_eq!(frame.pixels_indexed.len(), 12);
    assert_eq!(frame.palette.colors.len(), 2);
    for (i, index) in frame.pixels_indexed.iter().enumerate() {
        let expected = if i % 4 < 2 { Rgba8(255, 0, 0, 255) } else { Rgba8(0, 0, 255, 255) };
        assert_eq!(frame.palette.colors[*index as usize], expected);
    }
    assert!(decoder.decode().unwrap().is_none());
    assert!(decoder.decode_all().unwrap().is_none());
}

#[test]
fn still_image_with_a_given_format() {
    let bytes = png_bytes(2, 2, |_, _| [9, 9, 9, 255]);
    let mut decoder =
        ImageDecoder::<Rgba8>::new(bytes.clone(), Some(image::ImageFormat::Png)).unwrap();
    assert_eq!(decoder.decode_all().unwrap().unwrap().len(), 1);
    let wrong = ImageDecoder::<Rgba8>::new(bytes.clone(), Some(image::ImageFormat::Jpeg));
    assert!(matches!(wrong, Err(DecodeError::Read(Some(_), _))));
    let explicit = ImageDecoder::<Rgba8>::new_impl(&bytes, Some(image::ImageFormat::Png));
    assert!(explicit.is_ok());
}

#[test]
fn still_image_with_transparency_has_a_transparent_index() {
    let bytes = png_bytes(2, 1, |x, _| if x == 0 { [10, 200, 30, 255] } else { [50, 60, 70, 100] });
    let mut decoder = ImageDecoder::<Rgba8>::new(bytes, None).unwrap();
    let frame = decoder.decode_all().unwrap().unwrap().remove(0);
    let transparent = frame.transparent_index.unwrap();
    assert_eq!(frame.palette.colors[transparent as usize].3, 0);
    assert_eq!(frame.pixels_indexed[1], transparent);
    assert_eq!(frame.palette.colors[frame.pixels_indexed[0] as usize], Rgba8(10, 200, 30, 255));
}

#[test]
fn image_without_a_guessable_format_is_a_read_failure() {
    let result = ImageDecoder::<Rgba8>::new(vec![1, 2, 3, 4, 5, 6, 7, 8], None);
    match result {
        Err(error) => {
            assert!(matches!(error, DecodeError::Read(None, _)));
            assert_eq!(
                error.to_string(),
                "Error reading data: Passed in Read doesn't yield valid format data"
            );
        }
        Ok(_) => panic!("bytes without a format were decoded"),
    }
    let none = ImageDecoder::<Rgba8>::new_impl(&vec![1, 2, 3], None);
    assert!(matches!(none, Err(DecodeError::Read(None, _))));
}

#[test]
fn corrupt_image_is_a_read_failure() {
    let mut bytes = png_bytes(2, 2, |_, _| [1, 2, 3, 255]);
    bytes.truncate(20);
    let result = ImageDecoder::<Rgba8>::new(bytes, None);
    match result {
        Err(error) => {
            assert!(matches!(error, DecodeError::Read(Some(_), _)));
            assert_eq!(error.to_string(), "Error reading data: Unable to decode properly");
        }
        Ok(_) => panic!("a corrupt image was decoded"),
    }
}

#[test]
fn image_decoder_as_a_sequence() {
    let bytes = png_bytes(1, 1, |_, _| [1, 2, 3, 255]);
    let mut frames = ImageDecoder::<Rgba8>::new(bytes, None).unwrap().into_iter();
    assert_eq!(frames.next().unwrap().dimensions, (1, 1));
    assert!(frames.next().is_none());
}

#[test]
fn encode_error_headings() {
    let init = EncodeError::Init(None, "a".to_owned());
    assert_eq!(init.to_string(), "Error initializing encoder: a");
    let write = EncodeError::Write(Some("cause".to_owned()), "b".to_owned());
    assert_eq!(write.to_string(), "Error write data: b");
    assert_eq!(write.source(), &Some("cause".to_owned()));
    let invalid = DecodeError::InvalidData(None, "c".to_owned());
    assert_eq!(invalid.to_string(), "Invalid data: c");
    assert_eq!(invalid.source(), &None);
}

#[test]
fn loaded_bitmap_becomes_a_decoder() {
    let bitmap = Bitmap { width: 2, height: 1, rgba: vec![1, 2, 3, 255, 4, 5, 6, 255] };
    let mut decoder = ImageDecoder::<Rgba8>::from_loaded(Ok(bitmap)).unwrap();
    assert_eq!(decoder.get_dimensions(), (2, 1));
    let frame = decoder.decode().unwrap().unwrap();
    assert_eq!(frame.dimensions, (2, 1));
    assert_eq!(frame.pixels_indexed.len(), 2);
    assert_eq!(frame.palette.colors[frame.pixels_indexed[0] as usize], Rgba8(1, 2, 3, 255));
    assert_eq!(frame.palette.colors[frame.pixels_indexed[1] as usize], Rgba8(4, 5, 6, 255));
}

#[test]
fn loaded_bitmap_that_does_not_fit_is_a_read_failure() {
    let short = Bitmap { width: 2, height: 2, rgba: vec![0; 15] };
    assert!(matches!(ImageDecoder::<Rgba8>::from_loaded(Ok(short)), Err(DecodeError::Read(None, _))));
    let wide = Bitmap { width: 65536, height: 1, rgba: vec![0; 4 * 65536] };
    match ImageDecoder::<Rgba8>::from_loaded(Ok(wide)) {
        Err(error) => assert_eq!(
            error.to_string(),
            "Error reading data: The image is larger than a canvas can be"
        ),
        Ok(_) => panic!("an image wider than a canvas was accepted"),
    }
    let widest = Bitmap { width: 65535, height: 1, rgba: vec![0; 4 * 65535] };
    assert!(ImageDecoder::<Rgba8>::from_loaded(Ok(widest)).is_ok());
}

#[test]
fn empty_image_cannot_be_quantized() {
    let empty = Bitmap { width: 0, height: 0, rgba: vec![] };
    let mut decoder = ImageDecoder::<Rgba8>::from_loaded(Ok(empty)).unwrap();
    assert!(matches!(decoder.decode(), Err(DecodeError::FrameRead(Some(_), _))));
    assert!(matches!(decoder.decode_all(), Err(DecodeError::FrameRead(..))));
}
