use rainbowgif::buffer::Data;
use rainbowgif::codec::{DisposalMethod, EncodeError};
use rainbowgif::color::{Color, Ratio};
use rainbowgif::file::{frame_from_rgba, frame_to_rgba, Frame};

/// The canonical colour itself, eight bits a channel.
#[derive(Clone, Copy, Debug, PartialEq)]
struct Rgba8(u8, u8, u8, u8);

// The four `*_spec` items only exist for the verifier and are never called.
impl Color for Rgba8 {
    fn from_rgba_spec(_: u8, _: u8, _: u8, _: u8) -> Self {
        unreachable!()
    }

    fn rgba_spec(&self) -> (u8, u8, u8, u8) {
        unreachable!()
    }

    fn mix_spec(&self, _: &Self, _: Ratio) -> Self {
        unreachable!()
    }

    fn alpha_above_spec(&self, _: Ratio) -> bool {
        unreachable!()
    }

    fn from_rgba(red: u8, green: u8, blue: u8, alpha: u8) -> Self {
        Rgba8(red, green, blue, alpha)
    }

    fn to_rgba(&self) -> (u8, u8, u8, u8) {
        (self.0, self.1, self.2, self.3)
    }

    fn mix(&self, other: &Self, _: Ratio) -> Self {
        *other
    }

    fn alpha_above(&self, _: Ratio) -> bool {
        self.3 > 127
    }
}

#[test]
fn data_starts_empty() {
    assert!(Data::new().buffer.is_empty());
}

#[test]
fn truecolor_frame_from_a_canvas() {
    let frame: Frame<Rgba8> =
        frame_from_rgba(&vec![1, 2, 3, 4, 5, 6, 7, 8, 9], 12, DisposalMethod::Background, true);
    assert_eq!(frame.pixels, vec![Rgba8(1, 2, 3, 4), Rgba8(5, 6, 7, 8)]);
    assert_eq!(frame.delay, 12);
    assert_eq!(frame.dispose, DisposalMethod::Background);
    assert!(frame.interlaced);
}

#[test]
fn truecolor_frame_to_bytes() {
    let frame = Frame {
        pixels: vec![Rgba8(1, 2, 3, 4), Rgba8(5, 6, 7, 8)],
        delay: 0,
        dispose: DisposalMethod::Keep,
        interlaced: false,
    };
    assert_eq!(frame_to_rgba(&frame, (2, 1)).unwrap(), vec![1, 2, 3, 4, 5, 6, 7, 8]);
    assert_eq!(frame_to_rgba(&frame, (1, 2)).unwrap(), vec![1, 2, 3, 4, 5, 6, 7, 8]);
}

#[test]
fn truecolor_frame_that_does_not_cover_the_canvas() {
    let frame = Frame {
        pixels: vec![Rgba8(1, 2, 3, 4), Rgba8(5, 6, 7, 8)],
        delay: 0,
        dispose: DisposalMethod::Keep,
        interlaced: false,
    };
    match frame_to_rgba(&frame, (2, 2)) {
        Err(error) => {
            assert!(matches!(error, EncodeError::FrameWrite(None, _)));
            assert_eq!(error.to_string(), "Error write frame: The frame does not cover the canvas");
        }
        Ok(_) => panic!("a frame of two pixels covered four"),
    }
    assert!(frame_to_rgba(&frame, (0, 0)).is_err());
}
