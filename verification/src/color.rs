//! Colours and the per-pixel compositing function.
//!
//! A channel is a fraction between zero and one in the fixed point of
//! [`crate::weight`]. A frame buffer cannot hold a channel outside that
//! range, so what a formula gives is clamped to it before it is stored.

use vstd::prelude::*;
use crate::blend::BlendMode;
use crate::weight::{Weight, UNIT};

verus! {

/// A value brought into the range of a channel.
pub open spec fn clamp_unit(x: int) -> int {
    if x < 0 {
        0
    } else if x > UNIT {
        UNIT as int
    } else {
        x
    }
}

/// What a blend mode makes of one channel of the backdrop `b` and of the
/// source `s` under the weight `w`, all three in units of `1 / UNIT`,
/// before it is clamped. Products are rounded down to a whole unit.
pub open spec fn blend_formula(mode: BlendMode, b: int, s: int, w: int) -> int {
    match mode {
        BlendMode::Normal => s,
        BlendMode::Mix => (b * (UNIT - w) + s * w) / (UNIT as int),
        BlendMode::Multiply => (b * s) / (UNIT as int),
        BlendMode::Screen => UNIT - ((UNIT - b) * (UNIT - s)) / (UNIT as int),
        BlendMode::Add => b + (s * w) / (UNIT as int),
        BlendMode::Subtract => b - (s * w) / (UNIT as int),
        BlendMode::Difference => s - (b * w) / (UNIT as int),
    }
}

/// One channel of a composited pixel.
pub open spec fn blend_channel(mode: BlendMode, b: int, s: int, w: int) -> int {
    clamp_unit(blend_formula(mode, b, s, w))
}

/// The four channels of a colour, each in units of `1 / UNIT`.
pub ghost struct ColorView {
    pub red: int,
    pub green: int,
    pub blue: int,
    pub alpha: int,
}

/// A composited pixel, channel by channel.
pub open spec fn blend_color(mode: BlendMode, b: ColorView, s: ColorView, w: int) -> ColorView {
    ColorView {
        red: blend_channel(mode, b.red, s.red, w),
        green: blend_channel(mode, b.green, s.green, w),
        blue: blend_channel(mode, b.blue, s.blue, w),
        alpha: blend_channel(mode, b.alpha, s.alpha, w),
    }
}

/// What a compositing stage puts out for one pixel. A stage without an
/// active source passes its backdrop through unchanged; a stage without a
/// backdrop puts out its source as it is.
pub open spec fn composite_pixel(
    mode: BlendMode,
    backdrop: Option<ColorView>,
    source: Option<ColorView>,
    w: int,
) -> Option<ColorView> {
    match (backdrop, source) {
        (_, None) => backdrop,
        (None, Some(s)) => Some(s),
        (Some(b), Some(s)) => Some(blend_color(mode, b, s, w)),
    }
}

/// Whether every channel of a colour is between zero and one.
pub open spec fn channels_in_range(c: ColorView) -> bool {
    &&& 0 <= c.red <= UNIT
    &&& 0 <= c.green <= UNIT
    &&& 0 <= c.blue <= UNIT
    &&& 0 <= c.alpha <= UNIT
}

fn blend_one(mode: BlendMode, b: u32, s: u32, w: u32) -> (out: u32)
    requires
        b <= UNIT,
        s <= UNIT,
        w <= UNIT,
    ensures
        out == blend_channel(mode, b as int, s as int, w as int),
        out <= UNIT,
{
    let unit: u64 = UNIT as u64;
    let b64: u64 = b as u64;
    let s64: u64 = s as u64;
    let w64: u64 = w as u64;
    proof {
        assert(0 <= b64 * s64 <= 65536 * 65536) by (nonlinear_arith)
            requires
                0 <= b64 <= 65536,
                0 <= s64 <= 65536,
        ;
        assert(0 <= s64 * w64 <= 65536 * 65536) by (nonlinear_arith)
            requires
                0 <= s64 <= 65536,
                0 <= w64 <= 65536,
        ;
        assert(0 <= b64 * w64 <= 65536 * 65536) by (nonlinear_arith)
            requires
                0 <= b64 <= 65536,
                0 <= w64 <= 65536,
        ;
        assert(0 <= b64 * (65536 - w64) <= 65536 * 65536) by (nonlinear_arith)
            requires
                0 <= b64 <= 65536,
                0 <= w64 <= 65536,
        ;
        assert(0 <= (65536 - b64) * (65536 - s64) <= 65536 * 65536) by (nonlinear_arith)
            requires
                0 <= b64 <= 65536,
                0 <= s64 <= 65536,
        ;
        assert(b64 * (65536 - w64) + s64 * w64 <= 65536 * 65536) by (nonlinear_arith)
            requires
                0 <= b64 <= 65536,
                0 <= s64 <= 65536,
                0 <= w64 <= 65536,
        ;
    }
    let wide: u64 = match mode {
        BlendMode::Normal => s64,
        BlendMode::Mix => (b64 * (unit - w64) + s64 * w64) / unit,
        BlendMode::Multiply => (b64 * s64) / unit,
        BlendMode::Screen => unit - ((unit - b64) * (unit - s64)) / unit,
        BlendMode::Add => {
            let sum: u64 = b64 + (s64 * w64) / unit;
            if sum > unit {
                unit
            } else {
                sum
            }
        },
        BlendMode::Subtract => {
            let part: u64 = (s64 * w64) / unit;
            if part > b64 {
                0
            } else {
                b64 - part
            }
        },
        BlendMode::Difference => {
            let part: u64 = (b64 * w64) / unit;
            if part > s64 {
                0
            } else {
                s64 - part
            }
        },
    };
    wide as u32
}

/// A colour of four channels: red, green, blue and alpha.
#[derive(Clone, Copy, Debug)]
pub struct Color {
    red: u32,
    green: u32,
    blue: u32,
    alpha: u32,
}

impl View for Color {
    type V = ColorView;

    closed spec fn view(&self) -> ColorView {
        ColorView {
            red: self.red as int,
            green: self.green as int,
            blue: self.blue as int,
            alpha: self.alpha as int,
        }
    }
}

impl Color {
    #[verifier::type_invariant]
    spec fn in_range(self) -> bool {
        self.red <= UNIT && self.green <= UNIT && self.blue <= UNIT && self.alpha <= UNIT
    }

    /// A colour from its four channels in units of `1 / UNIT`; `None` where
    /// one of them is more than one.
    pub fn new(red: u32, green: u32, blue: u32, alpha: u32) -> (c: Option<Color>)
        ensures
            c.is_some() <==> (red <= UNIT && green <= UNIT && blue <= UNIT && alpha <= UNIT),
            c.is_some() ==> c.unwrap()@ == (ColorView {
                red: red as int,
                green: green as int,
                blue: blue as int,
                alpha: alpha as int,
            }),
    {
        if red <= UNIT && green <= UNIT && blue <= UNIT && alpha <= UNIT {
            Some(Color { red, green, blue, alpha })
        } else {
            None
        }
    }

    /// The red channel.
    pub fn red(&self) -> (v: u32)
        ensures
            v == self@.red,
            v <= UNIT,
    {
        proof {
            use_type_invariant(self);
        }
        self.red
    }

    /// The green channel.
    pub fn green(&self) -> (v: u32)
        ensures
            v == self@.green,
            v <= UNIT,
    {
        proof {
            use_type_invariant(self);
        }
        self.green
    }

    /// The blue channel.
    pub fn blue(&self) -> (v: u32)
        ensures
            v == self@.blue,
            v <= UNIT,
    {
        proof {
            use_type_invariant(self);
        }
        self.blue
    }

    /// The alpha channel.
    pub fn alpha(&self) -> (v: u32)
        ensures
            v == self@.alpha,
            v <= UNIT,
    {
        proof {
            use_type_invariant(self);
        }
        self.alpha
    }

    /// Composites one pixel of a source over one pixel of a backdrop.
    pub fn blend(mode: BlendMode, backdrop: &Color, source: &Color, weight: &Weight) -> (out: Color)
        ensures
            out@ == blend_color(mode, backdrop@, source@, weight.value()),
            channels_in_range(out@),
    {
        proof {
            use_type_invariant(backdrop);
            use_type_invariant(source);
        }
        let w: u32 = weight.raw();
        Color {
            red: blend_one(mode, backdrop.red, source.red, w),
            green: blend_one(mode, backdrop.green, source.green, w),
            blue: blend_one(mode, backdrop.blue, source.blue, w),
            alpha: blend_one(mode, backdrop.alpha, source.alpha, w),
        }
    }

    /// What a compositing stage puts out for one pixel, given what its
    /// backdrop and its active source hold there, if it has them.
    pub fn composite(
        mode: BlendMode,
        backdrop: Option<Color>,
        source: Option<Color>,
        weight: &Weight,
    ) -> (out: Option<Color>)
        ensures
            option_view(out) == composite_pixel(
                mode,
                option_view(backdrop),
                option_view(source),
                weight.value(),
            ),
    {
        match (backdrop, source) {
            (_, None) => backdrop,
            (None, Some(s)) => Some(s),
            (Some(b), Some(s)) => Some(Color::blend(mode, &b, &s, weight)),
        }
    }
}

/// The channels of a colour that may be absent.
pub open spec fn option_view(c: Option<Color>) -> Option<ColorView> {
    match c {
        Some(color) => Some(color@),
        None => None,
    }
}

/// Under `Mix` a weight of zero gives the backdrop and a weight of one gives
/// the source, whatever the two hold.
pub proof fn lemma_mix_endpoints(b: int, s: int)
    requires
        0 <= b <= UNIT,
        0 <= s <= UNIT,
    ensures
        blend_channel(BlendMode::Mix, b, s, 0) == b,
        blend_channel(BlendMode::Mix, b, s, UNIT as int) == s,
{
    assert((b * 65536 + s * 0) / 65536 == b) by (nonlinear_arith);
    assert((b * (65536 - 65536) + s * 65536) / 65536 == s) by (nonlinear_arith);
}

/// The same for whole colours: mixing with weight zero keeps the backdrop,
/// mixing with weight one gives the source.
pub proof fn lemma_mix_endpoints_color(b: ColorView, s: ColorView)
    requires
        channels_in_range(b),
        channels_in_range(s),
    ensures
        blend_color(BlendMode::Mix, b, s, 0) == b,
        blend_color(BlendMode::Mix, b, s, UNIT as int) == s,
{
    lemma_mix_endpoints(b.red, s.red);
    lemma_mix_endpoints(b.green, s.green);
    lemma_mix_endpoints(b.blue, s.blue);
    lemma_mix_endpoints(b.alpha, s.alpha);
}

/// For a stage that has a backdrop, mixing with weight zero puts out the
/// backdrop, with or without a source; for a stage that has a source,
/// mixing with weight one puts out the source, with or without a backdrop.
pub proof fn lemma_mix_endpoints_stage(backdrop: Option<ColorView>, source: Option<ColorView>)
    requires
        backdrop.is_some() ==> channels_in_range(backdrop.unwrap()),
        source.is_some() ==> channels_in_range(source.unwrap()),
    ensures
        backdrop.is_some() ==> composite_pixel(BlendMode::Mix, backdrop, source, 0) == backdrop,
        source.is_some() ==> composite_pixel(BlendMode::Mix, backdrop, source, UNIT as int)
            == source,
{
    if backdrop.is_some() && source.is_some() {
        lemma_mix_endpoints_color(backdrop.unwrap(), source.unwrap());
    }
}

/// Under `Mix` every channel lies between what the backdrop and the source
/// hold there, so nothing is ever clamped.
pub proof fn lemma_mix_is_between(b: int, s: int, w: int)
    requires
        0 <= b <= UNIT,
        0 <= s <= UNIT,
        0 <= w <= UNIT,
    ensures
        blend_channel(BlendMode::Mix, b, s, w) == (b * (UNIT - w) + s * w) / (UNIT as int),
        b <= s ==> b <= blend_channel(BlendMode::Mix, b, s, w) <= s,
        s <= b ==> s <= blend_channel(BlendMode::Mix, b, s, w) <= b,
{
    let total: int = b * (65536 - w) + s * w;
    if b <= s {
        assert(b * 65536 <= total <= s * 65536) by (nonlinear_arith)
            requires
                total == b * (65536 - w) + s * w,
                0 <= b <= s,
                0 <= w <= 65536,
        ;
    }
    if s <= b {
        assert(s * 65536 <= total <= b * 65536) by (nonlinear_arith)
            requires
                total == b * (65536 - w) + s * w,
                0 <= s <= b,
                0 <= w <= 65536,
        ;
    }
}

} // verus!
