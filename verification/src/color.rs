//! Radiance triples with fixed-point arithmetic, gamma correction, clamping
//! and Monte Carlo sample averaging.

use crate::fixed::{
    fx_add, fx_add_s, fx_clamp, fx_clamp_s, fx_div, fx_div_s, fx_fract, fx_mul, fx_mul_s, fx_of_int,
    fx_ratio, fx_sqrt, fx_sqrt_s, fx_sub, fx_sub_s, fx_to_int_floor, fx_to_int_trunc, sat64, tdiv,
    FX_ONE,
};
use crate::rng::RandomSource;
use crate::vector::Vector;
use vstd::prelude::*;

verus! {

/// Raw fixed-point value of the golden-ratio conjugate `1 / phi`, used to
/// space random hues evenly.
pub const FX_INV_PHI: i64 = 2654435769;

#[derive(Clone, Copy, Debug, PartialEq, Eq, Structural)]
pub struct Color {
    pub r: i64,
    pub g: i64,
    pub b: i64,
}

/// Mathematical view of a color: its three raw channels as integers.
pub ghost struct C3 {
    pub r: int,
    pub g: int,
    pub b: int,
}

impl View for Color {
    type V = C3;

    open spec fn view(&self) -> C3 {
        C3 { r: self.r as int, g: self.g as int, b: self.b as int }
    }
}

pub open spec fn c_black() -> C3 {
    C3 { r: 0, g: 0, b: 0 }
}

pub open spec fn c_add(a: C3, b: C3) -> C3 {
    C3 { r: fx_add_s(a.r, b.r), g: fx_add_s(a.g, b.g), b: fx_add_s(a.b, b.b) }
}

pub open spec fn c_mul(a: C3, b: C3) -> C3 {
    C3 { r: fx_mul_s(a.r, b.r), g: fx_mul_s(a.g, b.g), b: fx_mul_s(a.b, b.b) }
}

pub open spec fn c_scale(a: C3, s: int) -> C3 {
    C3 { r: fx_mul_s(a.r, s), g: fx_mul_s(a.g, s), b: fx_mul_s(a.b, s) }
}

pub open spec fn c_div(a: C3, s: int) -> C3 {
    C3 { r: fx_div_s(a.r, s), g: fx_div_s(a.g, s), b: fx_div_s(a.b, s) }
}

/// `s / a`, channel by channel.
pub open spec fn c_scalar_div(s: int, a: C3) -> C3 {
    C3 { r: fx_div_s(s, a.r), g: fx_div_s(s, a.g), b: fx_div_s(s, a.b) }
}

/// Square root per channel: gamma correction with exponent 1/2.
pub open spec fn c_gamma(a: C3) -> C3 {
    C3 { r: fx_sqrt_s(a.r), g: fx_sqrt_s(a.g), b: fx_sqrt_s(a.b) }
}

pub open spec fn c_clamp(a: C3, lo: int, hi: int) -> C3 {
    C3 {
        r: fx_clamp_s(a.r, lo, hi),
        g: fx_clamp_s(a.g, lo, hi),
        b: fx_clamp_s(a.b, lo, hi),
    }
}

/// Left-to-right saturating sum of a sequence of colors.
pub open spec fn c_sum(s: Seq<C3>) -> C3
    decreases s.len(),
{
    if s.len() == 0 {
        c_black()
    } else {
        c_add(c_sum(s.drop_last()), s.last())
    }
}

/// Arithmetic mean of the sampled colors: the Monte Carlo pixel estimate.
pub open spec fn c_average(s: Seq<C3>) -> C3 {
    c_div(c_sum(s), sat64(s.len() * (FX_ONE as int)))
}

/// Conversion of one channel to an 8-bit value: scale by 255, truncate, and
/// saturate into `[0, 255]`.
pub open spec fn channel_to_byte(x: int) -> int {
    let w = tdiv(fx_mul_s(x, 255 * (FX_ONE as int)), FX_ONE as int);
    if w < 0 {
        0
    } else if w > 255 {
        255
    } else {
        w
    }
}

/// One channel of an 8-bit source scaled into `[0, 1]`.
pub open spec fn byte_to_channel(x: int) -> int {
    fx_div_s(x, 255)
}

/// The six-sector hue/saturation/value to red/green/blue conversion.
pub open spec fn hsv_to_rgb_s(h: int, s: int, v: int) -> C3 {
    let h6 = fx_mul_s(h, sat64(6 * (FX_ONE as int)));
    let i = h6 / (FX_ONE as int);
    let f = fx_sub_s(h6, (h6 / (FX_ONE as int)) * (FX_ONE as int));
    let p = fx_mul_s(v, fx_sub_s(FX_ONE as int, s));
    let q = fx_mul_s(v, fx_sub_s(FX_ONE as int, fx_mul_s(s, f)));
    let t = fx_mul_s(v, fx_sub_s(FX_ONE as int, fx_mul_s(s, fx_sub_s(FX_ONE as int, f))));
    if i == 0 {
        C3 { r: v, g: t, b: p }
    } else if i == 1 {
        C3 { r: q, g: v, b: p }
    } else if i == 2 {
        C3 { r: p, g: v, b: t }
    } else if i == 3 {
        C3 { r: p, g: q, b: v }
    } else if i == 4 {
        C3 { r: t, g: p, b: v }
    } else {
        C3 { r: v, g: p, b: q }
    }
}

impl Color {
    pub fn new(r: i64, g: i64, b: i64) -> (c: Self)
        ensures
            c@ == (C3 { r: r as int, g: g as int, b: b as int }),
    {
        Color { r, g, b }
    }

    pub fn black() -> (c: Self)
        ensures
            c@ == c_black(),
    {
        Color { r: 0, g: 0, b: 0 }
    }

    pub fn white() -> (c: Self)
        ensures
            c@ == (C3 { r: FX_ONE as int, g: FX_ONE as int, b: FX_ONE as int }),
    {
        Color { r: FX_ONE, g: FX_ONE, b: FX_ONE }
    }

    pub fn magenta() -> (c: Self)
        ensures
            c@ == (C3 { r: FX_ONE as int, g: 0, b: FX_ONE as int }),
    {
        Color { r: FX_ONE, g: 0, b: FX_ONE }
    }

    pub fn add(self, rhs: Self) -> (c: Self)
        ensures
            c@ == c_add(self@, rhs@),
    {
        Color { r: fx_add(self.r, rhs.r), g: fx_add(self.g, rhs.g), b: fx_add(self.b, rhs.b) }
    }

    pub fn mul(self, rhs: Self) -> (c: Self)
        ensures
            c@ == c_mul(self@, rhs@),
    {
        Color { r: fx_mul(self.r, rhs.r), g: fx_mul(self.g, rhs.g), b: fx_mul(self.b, rhs.b) }
    }

    pub fn mul_scalar(self, rhs: i64) -> (c: Self)
        ensures
            c@ == c_scale(self@, rhs as int),
    {
        Color { r: fx_mul(self.r, rhs), g: fx_mul(self.g, rhs), b: fx_mul(self.b, rhs) }
    }

    pub fn div_scalar(self, rhs: i64) -> (c: Self)
        ensures
            c@ == c_div(self@, rhs as int),
    {
        Color { r: fx_div(self.r, rhs), g: fx_div(self.g, rhs), b: fx_div(self.b, rhs) }
    }

    /// The scalar divided by each channel, as in `2.0 / color`.
    pub fn scalar_div(lhs: i64, rhs: Self) -> (c: Self)
        ensures
            c@ == c_scalar_div(lhs as int, rhs@),
    {
        Color { r: fx_div(lhs, rhs.r), g: fx_div(lhs, rhs.g), b: fx_div(lhs, rhs.b) }
    }

    /// Channel values of a vector reinterpreted as a color.
    pub fn of_vector(v: Vector) -> (c: Self)
        ensures
            c@ == (C3 { r: v@.x, g: v@.y, b: v@.z }),
    {
        Color { r: v.x, g: v.y, b: v.z }
    }

    /// A color from three 8-bit channel values.
    pub fn of_bytes(bytes: [u8; 3]) -> (c: Self)
        ensures
            c@ == (C3 {
                r: byte_to_channel(bytes[0] as int),
                g: byte_to_channel(bytes[1] as int),
                b: byte_to_channel(bytes[2] as int),
            }),
    {
        let r: i64 = fx_ratio(bytes[0] as i64, 255);
        let g: i64 = fx_ratio(bytes[1] as i64, 255);
        let b: i64 = fx_ratio(bytes[2] as i64, 255);
        Color { r, g, b }
    }

    /// A color from a three-byte slice of 8-bit channel values.
    pub fn of_slice(bytes: &[u8]) -> (c: Self)
        requires
            bytes@.len() == 3,
        ensures
            c@ == (C3 {
                r: byte_to_channel(bytes@[0] as int),
                g: byte_to_channel(bytes@[1] as int),
                b: byte_to_channel(bytes@[2] as int),
            }),
    {
        let r: i64 = fx_ratio(bytes[0] as i64, 255);
        let g: i64 = fx_ratio(bytes[1] as i64, 255);
        let b: i64 = fx_ratio(bytes[2] as i64, 255);
        Color { r, g, b }
    }

    /// The three channels quantized to 8 bits each.
    pub fn to_bytes(self) -> (bytes: [u8; 3])
        ensures
            bytes[0] as int == channel_to_byte(self@.r),
            bytes[1] as int == channel_to_byte(self@.g),
            bytes[2] as int == channel_to_byte(self@.b),
    {
        [
            Self::channel_byte(self.r),
            Self::channel_byte(self.g),
            Self::channel_byte(self.b),
        ]
    }

    fn channel_byte(x: i64) -> (r: u8)
        ensures
            r as int == channel_to_byte(x as int),
    {
        let scaled: i64 = fx_mul(x, fx_of_int(255));
        let whole: i64 = fx_to_int_trunc(scaled);
        if whole < 0 {
            0
        } else if whole > 255 {
            255
        } else {
            whole as u8
        }
    }

    /// The mean of the sampled colors; an empty sample set yields black
    /// through the saturating division-by-zero convention.
    pub fn average(colors: &Vec<Color>) -> (c: Self)
        requires
            colors.len() <= 0x7fffffffffffffff,
        ensures
            c@ == c_average(colors@.map_values(|x: Color| x@)),
    {
        let ghost all = colors@.map_values(|x: Color| x@);
        let mut r: i64 = 0;
        let mut g: i64 = 0;
        let mut b: i64 = 0;
        let mut i: usize = 0;
        while i < colors.len()
            invariant
                i <= colors.len(),
                colors.len() <= 0x7fffffffffffffff,
                all == colors@.map_values(|x: Color| x@),
                (C3 { r: r as int, g: g as int, b: b as int }) == c_sum(all.take(i as int)),
            decreases colors.len() - i,
        {
            let c = colors[i];
            proof {
                assert(all.take(i as int + 1).drop_last() =~= all.take(i as int));
                assert(all.take(i as int + 1).last() == c@);
            }
            r = fx_add(r, c.r);
            g = fx_add(g, c.g);
            b = fx_add(b, c.b);
            i = i + 1;
        }
        proof {
            assert(all.take(colors.len() as int) =~= all);
        }
        let samples: i64 = fx_of_int(colors.len() as i64);
        Color { r: fx_div(r, samples), g: fx_div(g, samples), b: fx_div(b, samples) }
    }

    /// A random color of fixed saturation and value, with hue spaced by the
    /// golden-ratio conjugate.
    pub fn random(rng: &mut RandomSource) -> (c: Self)
        ensures
            exists|h: int|
                0 <= h < FX_ONE as int && c@ == hsv_to_rgb_s(
                    h,
                    fx_div_s(3, 4),
                    fx_div_s(19, 20),
                ),
    {
        let raw: i64 = rng.next_in_range(0, FX_ONE);
        let shifted: i64 = fx_add(raw, FX_INV_PHI);
        let h: i64 = fx_fract(shifted);
        let s: i64 = fx_ratio(3, 4);
        let v: i64 = fx_ratio(19, 20);
        let c = Self::hsv_to_rgb(h, s, v);
        proof {
            assert(0 <= h as int && (h as int) < FX_ONE as int);
        }
        c
    }

    /// Random color with each channel drawn uniformly from `[lo, hi)`.
    pub fn random_with_range(rng: &mut RandomSource, lo: i64, hi: i64) -> (c: Self)
        requires
            lo < hi,
        ensures
            lo as int <= c@.r < hi as int,
            lo as int <= c@.g < hi as int,
            lo as int <= c@.b < hi as int,
    {
        Color {
            r: rng.next_in_range(lo, hi),
            g: rng.next_in_range(lo, hi),
            b: rng.next_in_range(lo, hi),
        }
    }

    fn hsv_to_rgb(h: i64, s: i64, v: i64) -> (c: Self)
        ensures
            c@ == hsv_to_rgb_s(h as int, s as int, v as int),
    {
        let h6: i64 = fx_mul(h, fx_of_int(6));
        let i: i64 = fx_to_int_floor(h6);
        let f: i64 = fx_fract(h6);
        proof {
            vstd::arithmetic::div_mod::lemma_fundamental_div_mod(h6 as int, FX_ONE as int);
        }
        let p: i64 = fx_mul(v, fx_sub(FX_ONE, s));
        let q: i64 = fx_mul(v, fx_sub(FX_ONE, fx_mul(s, f)));
        let t: i64 = fx_mul(v, fx_sub(FX_ONE, fx_mul(s, fx_sub(FX_ONE, f))));
        if i == 0 {
            Color { r: v, g: t, b: p }
        } else if i == 1 {
            Color { r: q, g: v, b: p }
        } else if i == 2 {
            Color { r: p, g: v, b: t }
        } else if i == 3 {
            Color { r: p, g: q, b: v }
        } else if i == 4 {
            Color { r: t, g: p, b: v }
        } else {
            Color { r: v, g: p, b: q }
        }
    }
}

/// Gamma correction: raises each channel to the power 1/2 before output.
pub trait GammaCorrect: Sized {
    spec fn gamma_spec(self) -> Self;

    fn gamma_correct(self) -> (r: Self)
        ensures
            r == self.gamma_spec(),
    ;
}

impl GammaCorrect for Color {
    open spec fn gamma_spec(self) -> Self {
        Color {
            r: fx_sqrt_s(self.r as int) as i64,
            g: fx_sqrt_s(self.g as int) as i64,
            b: fx_sqrt_s(self.b as int) as i64,
        }
    }

    fn gamma_correct(self) -> (r: Self) {
        Color { r: fx_sqrt(self.r), g: fx_sqrt(self.g), b: fx_sqrt(self.b) }
    }
}

/// Clamping each channel into a closed interval.
pub trait Clamp: Sized {
    spec fn clamp_spec(self, min: i64, max: i64) -> Self;

    fn clamp(self, min: i64, max: i64) -> (r: Self)
        ensures
            r == self.clamp_spec(min, max),
    ;
}

impl Clamp for Color {
    open spec fn clamp_spec(self, min: i64, max: i64) -> Self {
        Color {
            r: fx_clamp_s(self.r as int, min as int, max as int) as i64,
            g: fx_clamp_s(self.g as int, min as int, max as int) as i64,
            b: fx_clamp_s(self.b as int, min as int, max as int) as i64,
        }
    }

    fn clamp(self, min: i64, max: i64) -> (r: Self) {
        Color {
            r: fx_clamp(self.r, min, max),
            g: fx_clamp(self.g, min, max),
            b: fx_clamp(self.b, min, max),
        }
    }
}

} // verus!
