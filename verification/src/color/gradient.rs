//! The gradient engine: a closed loop of anchor colours, sampled at evenly
//! spaced frames under one of two policies.
use super::{same_text, Color, Ratio};
use vstd::arithmetic::div_mod::{
    lemma_div_is_ordered, lemma_div_multiples_vanish, lemma_div_pos_is_pos,
    lemma_fundamental_div_mod, lemma_fundamental_div_mod_converse, lemma_mod_bound,
};
use vstd::arithmetic::mul::{lemma_mul_inequality, lemma_mul_is_commutative};
use vstd::prelude::*;
use vstd::string::StringExecFns;

verus! {

/// How the gradient is sampled.
#[derive(Clone, Copy, Debug, PartialEq, Eq, Structural)]
pub enum GradientGeneratorType {
    /// Each frame is mixed from the pair of anchors whose bucket it falls in.
    Discrete,
    /// The closed path is sampled once more than asked and the last sample,
    /// which repeats the first, is dropped.
    Continuous,
}

impl GradientGeneratorType {
    /// The name of this policy on the command line.
    pub open spec fn name_spec(self) -> Seq<char> {
        match self {
            GradientGeneratorType::Discrete => "discrete"@,
            GradientGeneratorType::Continuous => "continuous"@,
        }
    }

    /// The policy that `token` names, if it names one.
    pub open spec fn parsed(token: Seq<char>) -> Option<Self> {
        if token == "discrete"@ {
            Some(GradientGeneratorType::Discrete)
        } else if token == "continuous"@ {
            Some(GradientGeneratorType::Continuous)
        } else {
            None
        }
    }

    /// All the policies, in the order in which they are offered.
    pub fn value_variants() -> (variants: Vec<Self>)
        ensures
            variants@ == seq![GradientGeneratorType::Discrete, GradientGeneratorType::Continuous],
    {
        vec![GradientGeneratorType::Discrete, GradientGeneratorType::Continuous]
    }

    /// The name of this policy on the command line.
    pub fn name(&self) -> (name: &'static str)
        ensures
            name@ == self.name_spec(),
    {
        match self {
            GradientGeneratorType::Discrete => "discrete",
            GradientGeneratorType::Continuous => "continuous",
        }
    }

    /// What this policy does, for the help text.
    pub open spec fn help_spec(self) -> Seq<char> {
        match self {
            GradientGeneratorType::Discrete =>
                "Where the colors are calculated by global and local position"@,
            GradientGeneratorType::Continuous =>
                "where palette generates it, taking into account all colors"@,
        }
    }

    /// What this policy does, for the help text.
    pub fn help(&self) -> (text: &'static str)
        ensures
            text@ == self.help_spec(),
    {
        match self {
            GradientGeneratorType::Discrete =>
                "Where the colors are calculated by global and local position",
            GradientGeneratorType::Continuous =>
                "where palette generates it, taking into account all colors",
        }
    }

    /// The name of this policy, as it is printed.
    pub fn to_string(&self) -> (text: String)
        ensures
            text@ == self.name_spec(),
    {
        String::from_str(self.name())
    }

    /// The policy that `s` names; the names are matched exactly.
    pub fn from_str(s: &str) -> (result: Result<Self, String>)
        ensures
            match Self::parsed(s@) {
                Some(policy) => result == Ok::<Self, String>(policy),
                None => result matches Err(message) && message@ == "Invalid variant: "@ + s@,
            },
    {
        if same_text(s, "discrete") {
            Ok(GradientGeneratorType::Discrete)
        } else if same_text(s, "continuous") {
            Ok(GradientGeneratorType::Continuous)
        } else {
            Err(String::from_str("Invalid variant: ").concat(s))
        }
    }
}

/// An anchor colour with its place on the timeline.
pub struct GradientKeyFrame<'a, C> {
    pub color: &'a C,
    pub position: Ratio,
}

/// The anchors of a gradient, closed into a loop, with their positions.
pub struct GradientDescriptor<C> {
    pub colors: Vec<C>,
    pub positions: Vec<Ratio>,
}

/// The fraction `num / den`.
pub open spec fn ratio(num: int, den: int) -> Ratio {
    Ratio { num: num as usize, den: den as usize }
}

/// The bucket that `position` falls in when the timeline is cut into
/// `segments` equal parts.
pub open spec fn bucket_of(position: Ratio, segments: int) -> int {
    (position.num * segments) / (position.den as int)
}

/// The colour of frame `frame` out of `frame_count` under the discrete
/// policy: the anchors on either side of the frame, mixed at the frame's
/// distance into their segment.
pub open spec fn discrete_sample<C: Color>(colors: Seq<C>, frame: int, frame_count: int) -> C {
    let segments = colors.len() - 1;
    let lower = (frame * segments) / frame_count;
    colors[lower].mix_spec(
        &colors[lower + 1],
        ratio((frame * segments) % frame_count, frame_count),
    )
}

/// The colour of frame `frame >= 1` out of `frame_count` under the continuous
/// policy: the segment is the one that ends at or after the frame, so a frame
/// that lands on an anchor is the end of the segment before it.
pub open spec fn continuous_sample<C: Color>(colors: Seq<C>, frame: int, frame_count: int) -> C {
    let segments = colors.len() - 1;
    let lower = (frame * segments - 1) / frame_count;
    colors[lower].mix_spec(
        &colors[lower + 1],
        ratio(frame * segments - lower * frame_count, frame_count),
    )
}

/// `generated` is what the discrete policy yields for `colors`.
pub open spec fn is_discrete_gradient<C: Color>(colors: Seq<C>, generated: Seq<C>) -> bool {
    forall|i: int|
        0 <= i < generated.len() ==> #[trigger] generated[i] == discrete_sample(
            colors,
            i,
            generated.len() as int,
        )
}

/// `generated` is what the continuous policy yields for `colors`: a copy of
/// the first anchor, then one sample per frame.
pub open spec fn is_continuous_gradient<C: Color>(colors: Seq<C>, generated: Seq<C>) -> bool {
    &&& generated.len() > 0 ==> cloned(colors[0], generated[0])
    &&& forall|i: int|
        1 <= i < generated.len() ==> #[trigger] generated[i] == continuous_sample(
            colors,
            i,
            generated.len() as int,
        )
}

/// A frame's bucket lies among the segments, and reaches the last anchor
/// only at the very end of the timeline.
pub proof fn lemma_bucket_bounds(position: Ratio, segments: int)
    requires
        position.wf(),
        segments >= 1,
    ensures
        0 <= bucket_of(position, segments) <= segments,
        bucket_of(position, segments) == segments <==> position.num == position.den,
{
    let num = position.num as int;
    let den = position.den as int;
    assert(0 <= num * segments) by (nonlinear_arith)
        requires
            0 <= num,
            0 <= segments,
    ;
    lemma_div_pos_is_pos(num * segments, den);
    lemma_mul_inequality(num, den, segments);
    lemma_div_is_ordered(num * segments, den * segments, den);
    lemma_div_multiples_vanish(segments, den);
    lemma_fundamental_div_mod(num * segments, den);
    lemma_mod_bound(num * segments, den);
    if num < den {
        assert(num * segments < den * segments) by (nonlinear_arith)
            requires
                num < den,
                segments >= 1,
        ;
        if bucket_of(position, segments) == segments {
            assert(den * segments <= num * segments);
        }
    }
}

/// Where the frame count is a multiple of the number of segments, the frames
/// at the multiples fall on the anchors: frame `anchor * per_segment` is
/// anchor `anchor`, mixed with the next at a distance of zero.
pub proof fn lemma_anchor_frames<C: Color>(colors: Seq<C>, per_segment: int, anchor: int)
    requires
        colors.len() >= 2,
        per_segment >= 1,
        0 <= anchor < colors.len() - 1,
    ensures
        discrete_sample(colors, anchor * per_segment, per_segment * (colors.len() - 1))
            == colors[anchor].mix_spec(
            &colors[anchor + 1],
            ratio(0, per_segment * (colors.len() - 1)),
        ),
{
    let segments = colors.len() - 1;
    let count = per_segment * segments;
    assert(count >= 1) by (nonlinear_arith)
        requires
            count == per_segment * segments,
            per_segment >= 1,
            segments >= 1,
    ;
    assert((anchor * per_segment) * segments == anchor * count + 0) by (nonlinear_arith)
        requires
            count == per_segment * segments,
    ;
    lemma_fundamental_div_mod_converse((anchor * per_segment) * segments, count, anchor, 0);
}

/// The position `a` lies before the position `b`.
pub open spec fn lies_before(a: Ratio, b: Ratio) -> bool {
    a.num * b.den < b.num * a.den
}

/// The positions of a descriptor are as many as its colours, each a
/// fraction of the timeline; they strictly increase, the first is zero and
/// the last is exactly one.
pub proof fn lemma_positions_ordered<C: Color>(descriptor: &GradientDescriptor<C>)
    requires
        descriptor.wf(),
    ensures
        descriptor.positions@.len() == descriptor.colors@.len(),
        forall|i: int| 0 <= i < descriptor.positions@.len() ==> (#[trigger] descriptor.positions@[i]).wf(),
        descriptor.positions@[0].num == 0,
        descriptor.positions@.last().num == descriptor.positions@.last().den,
        forall|i: int, j: int|
            0 <= i < j < descriptor.positions@.len() ==> lies_before(
                #[trigger] descriptor.positions@[i],
                #[trigger] descriptor.positions@[j],
            ),
{
    let positions = descriptor.positions@;
    let segments = positions.len() - 1;
    assert(descriptor.positions.len() == positions.len());
    assert forall|i: int, j: int| 0 <= i < j < positions.len() implies lies_before(
        #[trigger] positions[i],
        #[trigger] positions[j],
    ) by {
        assert(positions[i] == ratio(i, segments));
        assert(positions[j] == ratio(j, segments));
        assert(i * segments < j * segments) by (nonlinear_arith)
            requires
                i < j,
                segments >= 1,
        ;
    }
}

impl<C: Color> GradientDescriptor<C> {
    /// The anchors are closed into a loop of at least two colours, and anchor
    /// `i` of `n + 1` stands at `i / n`.
    pub open spec fn wf(&self) -> bool {
        &&& self.colors@.len() >= 2
        &&& self.positions@.len() == self.colors@.len()
        &&& forall|i: int|
            0 <= i < self.positions@.len() ==> #[trigger] self.positions@[i] == ratio(
                i,
                self.positions@.len() - 1,
            )
    }

    /// The number of segments between neighbouring anchors.
    pub open spec fn segments(&self) -> int {
        self.colors@.len() - 1
    }

    /// Closes `colors` into a loop by appending a copy of the first anchor,
    /// and spaces the anchors evenly from zero to one.
    pub fn new(colors: Vec<C>) -> (descriptor: Self)
        requires
            1 <= colors@.len() < usize::MAX,
        ensures
            descriptor.wf(),
            descriptor.colors@.len() == colors@.len() + 1,
            descriptor.colors@.subrange(0, colors@.len() as int) == colors@,
            cloned(colors@[0], descriptor.colors@.last()),
    {
        let ghost anchors = colors@;
        let mut closed = colors;
        let first = closed[0].clone();
        closed.push(first);
        let length: usize = closed.len() - 1;
        let mut positions: Vec<Ratio> = Vec::new();
        let mut i: usize = 0;
        while i < closed.len()
            invariant
                i <= closed@.len(),
                length == closed@.len() - 1,
                positions@.len() == i,
                forall|j: int| 0 <= j < i ==> #[trigger] positions@[j] == ratio(j, length as int),
            decreases closed@.len() - i,
        {
            positions.push(Ratio { num: i, den: length });
            i += 1;
        }
        assert(closed@.subrange(0, anchors.len() as int) == anchors);
        GradientDescriptor { colors: closed, positions }
    }

    /// The colours of `frame_count` frames under the chosen policy.
    pub fn generate(&self, frame_count: usize, generator_type: GradientGeneratorType) -> (generated:
        Vec<C>)
        requires
            self.wf(),
        ensures
            generated@.len() == frame_count,
            generator_type == GradientGeneratorType::Discrete ==> is_discrete_gradient(
                self.colors@,
                generated@,
            ),
            generator_type == GradientGeneratorType::Continuous ==> is_continuous_gradient(
                self.colors@,
                generated@,
            ),
    {
        match generator_type {
            GradientGeneratorType::Continuous => self.generate_continuous(frame_count),
            GradientGeneratorType::Discrete => self.generate_discrete(frame_count),
        }
    }

    fn generate_continuous(&self, frame_count: usize) -> (generated: Vec<C>)
        requires
            self.wf(),
        ensures
            generated@.len() == frame_count,
            is_continuous_gradient(self.colors@, generated@),
    {
        let mut generated: Vec<C> = Vec::new();
        if frame_count == 0 {
            return generated;
        }
        generated.push(self.colors[0].clone());
        let segments: usize = self.colors.len() - 1;
        let mut i: usize = 1;
        while i < frame_count
            invariant
                self.wf(),
                segments == self.segments(),
                1 <= i <= frame_count,
                generated@.len() == i,
                cloned(self.colors@[0], generated@[0]),
                forall|j: int|
                    1 <= j < i ==> #[trigger] generated@[j] == continuous_sample(
                        self.colors@,
                        j,
                        frame_count as int,
                    ),
            decreases frame_count - i,
        {
            let ghost scaled = i as int * segments as int;
            let ghost count = frame_count as int;
            proof {
                assert(1 <= scaled <= 0xffff_ffff_ffff_ffff * 0xffff_ffff_ffff_ffff)
                    by (nonlinear_arith)
                    requires
                        scaled == i as int * segments as int,
                        1 <= i <= 0xffff_ffff_ffff_ffff,
                        1 <= segments <= 0xffff_ffff_ffff_ffff,
                ;
                lemma_fundamental_div_mod(scaled - 1, count);
                lemma_mod_bound(scaled - 1, count);
                lemma_div_pos_is_pos(scaled - 1, count);
                assert(scaled - 1 < count * segments) by (nonlinear_arith)
                    requires
                        scaled == i as int * segments as int,
                        i < count,
                        segments >= 1,
                ;
                lemma_div_is_ordered(scaled - 1, count * segments - 1, count);
                assert(count * segments - 1 == (segments - 1) * count + (count - 1))
                    by (nonlinear_arith);
                lemma_fundamental_div_mod_converse(
                    count * segments - 1,
                    count,
                    segments - 1,
                    count - 1,
                );
            }
            let scaled_exec: u128 = (i as u128) * (segments as u128);
            let lower_wide: u128 = (scaled_exec - 1) / (frame_count as u128);
            let lower: usize = lower_wide as usize;
            proof {
                assert(lower as int * count == count * lower as int) by {
                    lemma_mul_is_commutative(lower as int, count);
                }
            }
            let into_wide: u128 = scaled_exec - lower_wide * (frame_count as u128);
            let weight = Ratio { num: into_wide as usize, den: frame_count };
            generated.push(self.colors[lower].mix(&self.colors[lower + 1], weight));
            i += 1;
        }
        generated
    }

    fn generate_discrete(&self, frame_count: usize) -> (generated: Vec<C>)
        requires
            self.wf(),
        ensures
            generated@.len() == frame_count,
            is_discrete_gradient(self.colors@, generated@),
    {
        let mut generated: Vec<C> = Vec::new();
        let length: usize = self.colors.len() - 1;
        let mut i: usize = 0;
        while i < frame_count
            invariant
                self.wf(),
                length == self.segments(),
                i <= frame_count,
                generated@.len() == i,
                forall|j: int|
                    0 <= j < i ==> #[trigger] generated@[j] == discrete_sample(
                        self.colors@,
                        j,
                        frame_count as int,
                    ),
            decreases frame_count - i,
        {
            let global_position = Ratio { num: i, den: frame_count };
            proof {
                lemma_bucket_bounds(global_position, self.segments());
            }
            let (key_frame_src, key_frame_dest) = self.position_search(global_position);
            let local_position = local_position(
                global_position,
                key_frame_src.position,
                key_frame_dest.position,
            );
            generated.push(key_frame_src.color.mix(key_frame_dest.color, local_position));
            i += 1;
        }
        generated
    }

    /// The anchors on either side of `position`. At the very end of the
    /// timeline the pair wraps round: from the last anchor to the first.
    fn position_search<'a>(&'a self, position: Ratio) -> (frames: (
        GradientKeyFrame<'a, C>,
        GradientKeyFrame<'a, C>,
    ))
        requires
            self.wf(),
            position.wf(),
        ensures
            ({
                let lower = bucket_of(position, self.segments());
                let upper = if lower == self.segments() {
                    0
                } else {
                    lower + 1
                };
                &&& 0 <= lower <= self.segments()
                &&& *frames.0.color == self.colors@[lower]
                &&& frames.0.position == ratio(lower, self.segments())
                &&& *frames.1.color == self.colors@[upper]
                &&& frames.1.position == ratio(upper, self.segments())
            }),
    {
        let length: usize = self.colors.len() - 1;
        proof {
            lemma_bucket_bounds(position, length as int);
            assert(0 <= position.num as int * length as int <= 0xffff_ffff_ffff_ffff
                * 0xffff_ffff_ffff_ffff) by (nonlinear_arith)
                requires
                    0 <= position.num <= 0xffff_ffff_ffff_ffff,
                    0 <= length <= 0xffff_ffff_ffff_ffff,
            ;
        }
        let scaled: u128 = (position.num as u128) * (length as u128);
        let lower_index: usize = (scaled / (position.den as u128)) as usize;
        if lower_index == length {
            return (
                GradientKeyFrame {
                    color: &self.colors[lower_index],
                    position: self.positions[lower_index],
                },
                GradientKeyFrame { color: &self.colors[0], position: self.positions[0] },
            );
        }
        (
            GradientKeyFrame {
                color: &self.colors[lower_index],
                position: self.positions[lower_index],
            },
            GradientKeyFrame {
                color: &self.colors[lower_index + 1],
                position: self.positions[lower_index + 1],
            },
        )
    }
}

/// How far `global` lies into the segment from `src` to `dest`, as a fraction
/// of the segment: `(global - src) / (dest - src)`.
fn local_position(global: Ratio, src: Ratio, dest: Ratio) -> (local: Ratio)
    requires
        global.wf(),
        global.num < global.den,
        src.den >= 1,
        dest.den == src.den,
        src.num == bucket_of(global, src.den as int),
        dest.num == src.num + 1,
    ensures
        local == ratio((global.num * src.den) % (global.den as int), global.den as int),
        local.wf(),
{
    let ghost scaled = global.num as int * src.den as int;
    proof {
        assert(0 <= scaled <= 0xffff_ffff_ffff_ffff * 0xffff_ffff_ffff_ffff) by (nonlinear_arith)
            requires
                scaled == global.num as int * src.den as int,
                0 <= global.num <= 0xffff_ffff_ffff_ffff,
                0 <= src.den <= 0xffff_ffff_ffff_ffff,
        ;
        lemma_fundamental_div_mod(scaled, global.den as int);
        lemma_mod_bound(scaled, global.den as int);
        lemma_mul_is_commutative(src.num as int, global.den as int);
        assert(0 <= src.num as int * global.den as int) by (nonlinear_arith)
            requires
                0 <= src.num,
                0 <= global.den,
        ;
    }
    let reached: u128 = (global.num as u128) * (src.den as u128);
    let start: u128 = (src.num as u128) * (global.den as u128);
    Ratio { num: (reached - start) as usize, den: global.den }
}

} // verus!
