use palette::white_point::D65;
use palette::{FromColor, IntoColor, Lcha, Mix, Srgba, WithAlpha};
use rainbowgif::color;
use rainbowgif::color::gradient::{GradientDescriptor, GradientGeneratorType};
use rainbowgif::color::{Color, Ratio};

type ColorType = Srgba<f64>;

#[derive(Clone, Copy, Debug, PartialEq)]
struct Lch(Lcha<D65, f64>);

fn to_byte(value: f64) -> u8 {
    (value * 255.) as u8
}

// The four `*_spec` items only exist for the verifier and are never called.
impl Color for Lch {
    fn from_rgba_spec(_: u8, _: u8, _: u8, _: u8) -> Self {
        unreachable!()
    }

    fn rgba_spec(&self) -> (u8, u8, u8, u8) {
        unreachable!()
    }

    fn mix_spec(&self, _: &Self, _: Ratio) -> Self {
        unreachable!()
    }

    fn alpha_above_spec(&self, _: Ratio) -> bool {
        unreachable!()
    }

    fn from_rgba(red: u8, green: u8, blue: u8, alpha: u8) -> Self {
        Lch(Lcha::from_color(ColorType::new(
            red as f64 / 255.,
            green as f64 / 255.,
            blue as f64 / 255.,
            alpha as f64 / 255.,
        )))
    }

    fn to_rgba(&self) -> (u8, u8, u8, u8) {
        let rgba: ColorType = self.0.into_color();
        (
            to_byte(rgba.color.red),
            to_byte(rgba.color.green),
            to_byte(rgba.color.blue),
            to_byte(rgba.alpha),
        )
    }

    fn mix(&self, other: &Self, weight: Ratio) -> Self {
        Lch(self.0.mix(&other.0, weight.num as f64 / weight.den as f64))
    }

    fn alpha_above(&self, threshold: Ratio) -> bool {
        let (_, alpha) = self.0.split();
        alpha > threshold.num as f64 / threshold.den as f64
    }
}

fn gray_anchors() -> Vec<Lch> {
    vec![
        Lch(Lcha::from_color(ColorType::new(0., 0., 0., 1.))),
        Lch(Lcha::from_color(ColorType::new(0.5, 0.5, 0.5, 1.))),
        Lch(Lcha::from_color(ColorType::new(1., 1., 1., 1.))),
    ]
}

#[test]
fn gradient_test_generate_discrete() {
    let grad_desc = GradientDescriptor::new(gray_anchors());

    let colors = grad_desc.generate(12, GradientGeneratorType::Discrete);
    assert_eq!(colors.len(), 12);

    assert_eq!(colors[0].0.chroma, 0.0);
    assert_eq!(colors[4].0.chroma, 0.0);
    assert_eq!(colors[8].0.chroma, 0.0);
}

#[test]
fn gradient_test_generate_continuous() {
    let grad_desc = GradientDescriptor::new(gray_anchors());

    let colors = grad_desc.generate(12, GradientGeneratorType::Continuous);
    assert_eq!(colors.len(), 12);

    assert_eq!(colors[0].0.chroma, 0.0);
    assert_eq!(colors[4].0.chroma, 0.0);
    assert_eq!(colors[8].0.chroma, 0.0);
}


#[test]
fn color_test_generate_discrete() {
    let grad_desc = color::GradientDescriptor::new(gray_anchors());

    let colors = grad_desc.generate(12, color::GradientGeneratorType::Discrete);
    assert_eq!(colors.len(), 12);

    assert_eq!(colors[0].0.chroma, 0.0);
    assert_eq!(colors[4].0.chroma, 0.0);
    assert_eq!(colors[8].0.chroma, 0.0);
}

#[test]
fn color_test_generate_continuous() {
    let grad_desc = color::GradientDescriptor::new(gray_anchors());

    let colors = grad_desc.generate(12, color::GradientGeneratorType::Continuous);
    assert_eq!(colors.len(), 12);

    assert_eq!(colors[0].0.chroma, 0.0);
    assert_eq!(colors[4].0.chroma, 0.0);
    assert_eq!(colors[8].0.chroma, 0.0);
}

#[test]
fn discrete_gradient_passes_through_the_anchors() {
    let anchors = gray_anchors();
    let grad_desc = GradientDescriptor::new(anchors.clone());
    let colors = grad_desc.generate(12, GradientGeneratorType::Discrete);
    assert_eq!(colors[0], anchors[0]);
    assert_eq!(colors[4], anchors[1]);
    assert_eq!(colors[8], anchors[2]);
}

#[test]
fn single_anchor_repeats_itself() {
    let anchor = Lch(Lcha::from_color(ColorType::new(0.25, 0.5, 0.75, 1.)));
    for policy in [GradientGeneratorType::Discrete, GradientGeneratorType::Continuous] {
        let colors = GradientDescriptor::new(vec![anchor]).generate(7, policy);
        assert_eq!(colors.len(), 7);
        for color in colors {
            assert!((color.0.l - anchor.0.l).abs() < 1e-9);
            assert!((color.0.chroma - anchor.0.chroma).abs() < 1e-9);
        }
    }
}

/// A colour that records how it was made.
#[derive(Clone, Debug, PartialEq)]
enum Trace {
    Anchor(u8),
    Mix(Box<Trace>, Box<Trace>, usize, usize),
}

impl Color for Trace {
    fn from_rgba_spec(_: u8, _: u8, _: u8, _: u8) -> Self {
        unreachable!()
    }

    fn rgba_spec(&self) -> (u8, u8, u8, u8) {
        unreachable!()
    }

    fn mix_spec(&self, _: &Self, _: Ratio) -> Self {
        unreachable!()
    }

    fn alpha_above_spec(&self, _: Ratio) -> bool {
        unreachable!()
    }

    fn from_rgba(red: u8, _: u8, _: u8, _: u8) -> Self {
        Trace::Anchor(red)
    }

    fn to_rgba(&self) -> (u8, u8, u8, u8) {
        match self {
            Trace::Anchor(red) => (*red, 0, 0, 255),
            Trace::Mix(..) => (0, 0, 0, 0),
        }
    }

    fn mix(&self, other: &Self, weight: Ratio) -> Self {
        Trace::Mix(Box::new(self.clone()), Box::new(other.clone()), weight.num, weight.den)
    }

    fn alpha_above(&self, _: Ratio) -> bool {
        true
    }
}

fn mix(from: u8, to: u8, num: usize, den: usize) -> Trace {
    Trace::Mix(Box::new(Trace::Anchor(from)), Box::new(Trace::Anchor(to)), num, den)
}

fn three_anchors() -> Vec<Trace> {
    vec![Trace::Anchor(0), Trace::Anchor(1), Trace::Anchor(2)]
}

#[test]
fn descriptor_closes_the_loop() {
    let descriptor = GradientDescriptor::new(three_anchors());
    assert_eq!(
        descriptor.colors,
        vec![Trace::Anchor(0), Trace::Anchor(1), Trace::Anchor(2), Trace::Anchor(0)]
    );
    assert_eq!(
        descriptor.positions,
        vec![
            Ratio { num: 0, den: 3 },
            Ratio { num: 1, den: 3 },
            Ratio { num: 2, den: 3 },
            Ratio { num: 3, den: 3 },
        ]
    );
    let single = GradientDescriptor::new(vec![Trace::Anchor(9)]);
    assert_eq!(single.colors, vec![Trace::Anchor(9), Trace::Anchor(9)]);
    assert_eq!(single.positions, vec![Ratio { num: 0, den: 1 }, Ratio { num: 1, den: 1 }]);
}

#[test]
fn discrete_policy_mixes_the_bracketing_anchors() {
    let colors = GradientDescriptor::new(three_anchors()).generate(12, GradientGeneratorType::Discrete);
    assert_eq!(colors.len(), 12);
    assert_eq!(colors[0], mix(0, 1, 0, 12));
    assert_eq!(colors[1], mix(0, 1, 3, 12));
    assert_eq!(colors[3], mix(0, 1, 9, 12));
    assert_eq!(colors[4], mix(1, 2, 0, 12));
    assert_eq!(colors[8], mix(2, 0, 0, 12));
    assert_eq!(colors[11], mix(2, 0, 9, 12));
}

#[test]
fn discrete_policy_with_uneven_buckets() {
    let colors = GradientDescriptor::new(vec![Trace::Anchor(0), Trace::Anchor(1)])
        .generate(5, GradientGeneratorType::Discrete);
    assert_eq!(
        colors,
        vec![mix(0, 1, 0, 5), mix(0, 1, 2, 5), mix(0, 1, 4, 5), mix(1, 0, 1, 5), mix(1, 0, 3, 5)]
    );
}

#[test]
fn continuous_policy_ends_segments_on_the_anchors() {
    let colors =
        GradientDescriptor::new(three_anchors()).generate(12, GradientGeneratorType::Continuous);
    assert_eq!(colors.len(), 12);
    assert_eq!(colors[0], Trace::Anchor(0));
    assert_eq!(colors[1], mix(0, 1, 3, 12));
    assert_eq!(colors[4], mix(0, 1, 12, 12));
    assert_eq!(colors[5], mix(1, 2, 3, 12));
    assert_eq!(colors[8], mix(1, 2, 12, 12));
    assert_eq!(colors[11], mix(2, 0, 9, 12));
}

#[test]
fn gradient_has_one_color_per_frame() {
    for anchors in 1..5u8 {
        for frame_count in 0..20usize {
            for policy in [GradientGeneratorType::Discrete, GradientGeneratorType::Continuous] {
                let colors = GradientDescriptor::new((0..anchors).map(Trace::Anchor).collect())
                    .generate(frame_count, policy);
                assert_eq!(colors.len(), frame_count);
            }
        }
    }
}

#[test]
fn continuous_policy_follows_the_piecewise_linear_path() {
    let anchors = vec![
        Lch(Lcha::from_color(ColorType::new(0.9, 0.1, 0.2, 1.))),
        Lch(Lcha::from_color(ColorType::new(0.1, 0.8, 0.3, 1.))),
        Lch(Lcha::from_color(ColorType::new(0.2, 0.3, 0.9, 1.))),
    ];
    let descriptor = GradientDescriptor::new(anchors);
    let path = palette::gradient::Gradient::new(
        descriptor.colors.iter().map(|color| color.0).collect::<Vec<_>>(),
    );
    for frame_count in [1usize, 2, 3, 7, 12, 30] {
        let expected: Vec<_> = path.take(frame_count + 1).take(frame_count).collect();
        let colors = descriptor.generate(frame_count, GradientGeneratorType::Continuous);
        assert_eq!(colors.len(), expected.len());
        for (ours, theirs) in colors.iter().zip(expected.iter()) {
            assert!((ours.0.l - theirs.l).abs() < 1e-6);
            assert!((ours.0.chroma - theirs.chroma).abs() < 1e-6);
            assert!((ours.0.hue.to_degrees() - theirs.hue.to_degrees()).abs() < 1e-6);
        }
    }
}

#[test]
fn discrete_and_continuous_agree_between_the_anchors() {
    let descriptor = GradientDescriptor::new(three_anchors());
    let discrete = descriptor.generate(12, GradientGeneratorType::Discrete);
    let continuous = descriptor.generate(12, GradientGeneratorType::Continuous);
    for i in 0..12 {
        if i % 4 != 0 {
            assert_eq!(discrete[i], continuous[i]);
        } else {
            assert_ne!(discrete[i], continuous[i]);
        }
    }
}

#[test]
fn gray_anchors_in_single_precision_have_next_to_no_chroma() {
    let gray: Lcha<D65, f32> = Lcha::from_color(Srgba::new(0.5f32, 0.5, 0.5, 1.));
    assert!(gray.chroma < 1e-4);
    let double: Lcha<D65, f64> = Lcha::from_color(Srgba::new(0.5f64, 0.5, 0.5, 1.));
    assert_eq!(double.chroma, 0.0);
}
