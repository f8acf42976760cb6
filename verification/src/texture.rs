//! Procedural and sampled color fields: solid, checkerboard, image-backed
//! and noise-backed textures.

use crate::color::{c_black, c_scale, Color, C3};
use crate::fixed::{
    emod, fx_clamp, fx_clamp_s, fx_div, fx_div_s, fx_mul, fx_mul_s, fx_of_int, fx_sub, fx_sub_s,
    fx_to_int_floor, fx_to_int_trunc, sat64, tdiv, FX_ONE,
};
use crate::perlin::{turbulence_s, Perlin};
use crate::rng::RandomSource;
use crate::vector::{Point, V3};
use vstd::prelude::*;

verus! {

/// A color field sampled by surface coordinates and world position.
pub trait ColorAt {
    /// Internal consistency the lookup relies on.
    spec fn color_at_wf(&self) -> bool;

    /// The color this texture yields, as a function of the query alone.
    spec fn color_at_spec(&self, u: int, v: int, p: V3) -> C3;

    fn color_at(&self, u: i64, v: i64, point: &Point) -> (c: Color)
        requires
            self.color_at_wf(),
        ensures
            c@ == self.color_at_spec(u as int, v as int, point@),
    ;
}

#[derive(Clone)]
pub struct Solid {
    pub color: Color,
}

impl ColorAt for Solid {
    open spec fn color_at_wf(&self) -> bool {
        true
    }

    open spec fn color_at_spec(&self, u: int, v: int, p: V3) -> C3 {
        self.color@
    }

    fn color_at(&self, u: i64, v: i64, point: &Point) -> (c: Color) {
        self.color
    }
}

/// 3D lattice parity of the scaled position picks one of two colors.
pub open spec fn checker_color_s(even: C3, odd: C3, inverse_scale: int, p: V3) -> C3 {
    let x = fx_mul_s(inverse_scale, p.x) / (FX_ONE as int);
    let y = fx_mul_s(inverse_scale, p.y) / (FX_ONE as int);
    let z = fx_mul_s(inverse_scale, p.z) / (FX_ONE as int);
    if (x + y + z) % 2 == 0 {
        even
    } else {
        odd
    }
}

#[derive(Clone)]
pub struct Checker {
    pub even: Color,
    pub odd: Color,
    pub inverse_scale: i64,
}

impl Checker {
    pub fn new(even: Color, odd: Color, scale: i64) -> (r: Checker)
        ensures
            r.even == even,
            r.odd == odd,
            r.inverse_scale as int == fx_div_s(FX_ONE as int, scale as int),
    {
        Checker { even, odd, inverse_scale: fx_div(FX_ONE, scale) }
    }
}

impl ColorAt for Checker {
    open spec fn color_at_wf(&self) -> bool {
        true
    }

    open spec fn color_at_spec(&self, u: int, v: int, p: V3) -> C3 {
        checker_color_s(self.even@, self.odd@, self.inverse_scale as int, p)
    }

    fn color_at(&self, u: i64, v: i64, point: &Point) -> (c: Color) {
        let x: i64 = fx_to_int_floor(fx_mul(self.inverse_scale, point.x));
        let y: i64 = fx_to_int_floor(fx_mul(self.inverse_scale, point.y));
        let z: i64 = fx_to_int_floor(fx_mul(self.inverse_scale, point.z));
        let is_even: bool = emod(x + y + z, 2) == 0;
        if is_even {
            self.even
        } else {
            self.odd
        }
    }
}

/// Nearest-sample lookup with the vertical axis flipped and both
/// coordinates clamped; pixel indices are kept inside the raster.
pub open spec fn image_color_s(data: Seq<C3>, width: int, height: int, u: int, v: int) -> C3 {
    let uc = fx_clamp_s(u, 0, FX_ONE as int);
    let vc = fx_sub_s(FX_ONE as int, fx_clamp_s(v, 0, FX_ONE as int));
    let xw = tdiv(fx_mul_s(uc, sat64(width * (FX_ONE as int))), FX_ONE as int);
    let yw = tdiv(fx_mul_s(vc, sat64(height * (FX_ONE as int))), FX_ONE as int);
    let x = if xw < 0 {
        0
    } else if xw > width - 1 {
        width - 1
    } else {
        xw
    };
    let y = if yw < 0 {
        0
    } else if yw > height - 1 {
        height - 1
    } else {
        yw
    };
    data[y * width + x]
}

#[derive(Clone)]
pub struct Image {
    pub data: Vec<Color>,
    pub width: u32,
    pub height: u32,
}

impl Image {
    /// A usable raster: at least one pixel and a full buffer.
    pub open spec fn wf(&self) -> bool {
        &&& self.width >= 1
        &&& self.height >= 1
        &&& self.data.len() == (self.width as int) * (self.height as int)
    }

    /// The fallback texture for a missing or unreadable asset: a small
    /// black-and-magenta checkerboard raster, black where the row and column
    /// indices have even sum.
    pub fn fallback() -> (r: Image)
        ensures
            r.wf(),
            r.width == 10,
            r.height == 10,
            forall|i: int, j: int|
                #![trigger r.data@[i * 10 + j]]
                0 <= i < 10 && 0 <= j < 10 ==> r.data@[i * 10 + j]@ == (if (i + j) % 2 == 0 {
                    c_black()
                } else {
                    C3 { r: FX_ONE as int, g: 0, b: FX_ONE as int }
                }),
    {
        let mut data: Vec<Color> = Vec::new();
        let mut t: usize = 0;
        while t < 100
            invariant
                data.len() == t,
                t <= 100,
                forall|u: int|
                    0 <= u < t ==> data@[u]@ == (if ((u / 10) + (u % 10)) % 2 == 0 {
                        c_black()
                    } else {
                        C3 { r: FX_ONE as int, g: 0, b: FX_ONE as int }
                    }),
            decreases 100 - t,
        {
            let i: usize = t / 10;
            let j: usize = t % 10;
            let color = if (i + j) % 2 == 0 {
                Color::black()
            } else {
                Color::magenta()
            };
            data.push(color);
            t = t + 1;
        }
        let r = Image { data, width: 10, height: 10 };
        proof {
            assert forall|i: int, j: int|
                #![trigger r.data@[i * 10 + j]]
                0 <= i < 10 && 0 <= j < 10 implies r.data@[i * 10 + j]@
                == (if (i + j) % 2 == 0 {
                c_black()
            } else {
                C3 { r: FX_ONE as int, g: 0, b: FX_ONE as int }
            }) by {
                let u = i * 10 + j;
                assert(0 <= u < 100) by (nonlinear_arith)
                    requires
                        0 <= i < 10,
                        0 <= j < 10,
                        u == i * 10 + j,
                ;
                vstd::arithmetic::div_mod::lemma_fundamental_div_mod_converse(u, 10, i, j);
                assert(u / 10 == i && u % 10 == j);
            }
        }
        r
    }
}

impl Default for Image {
    /// The same fallback checkerboard raster, pattern included.
    fn default() -> (r: Image)
        ensures
            r.wf(),
            r.width == 10,
            r.height == 10,
            forall|i: int, j: int|
                #![trigger r.data@[i * 10 + j]]
                0 <= i < 10 && 0 <= j < 10 ==> r.data@[i * 10 + j]@ == (if (i + j) % 2 == 0 {
                    c_black()
                } else {
                    C3 { r: FX_ONE as int, g: 0, b: FX_ONE as int }
                }),
    {
        Image::fallback()
    }
}

impl ColorAt for Image {
    open spec fn color_at_wf(&self) -> bool {
        self.wf()
    }

    open spec fn color_at_spec(&self, u: int, v: int, p: V3) -> C3 {
        image_color_s(
            self.data@.map_values(|c: Color| c@),
            self.width as int,
            self.height as int,
            u,
            v,
        )
    }

    fn color_at(&self, u: i64, v: i64, point: &Point) -> (c: Color) {
        let uc: i64 = fx_clamp(u, 0, FX_ONE);
        let vc: i64 = fx_sub(FX_ONE, fx_clamp(v, 0, FX_ONE));
        let xw: i64 = fx_to_int_trunc(fx_mul(uc, fx_of_int(self.width as i64)));
        let yw: i64 = fx_to_int_trunc(fx_mul(vc, fx_of_int(self.height as i64)));
        let wm1: i64 = (self.width - 1) as i64;
        let hm1: i64 = (self.height - 1) as i64;
        let x: i64 = if xw < 0 {
            0
        } else if xw > wm1 {
            wm1
        } else {
            xw
        };
        let y: i64 = if yw < 0 {
            0
        } else if yw > hm1 {
            hm1
        } else {
            yw
        };
        proof {
            assert((y as int) * (self.width as int) + (x as int) < (self.width as int) * (
            self.height as int)) by (nonlinear_arith)
                requires
                    0 <= (x as int) && (x as int) < (self.width as int),
                    0 <= (y as int) && (y as int) < (self.height as int),
            ;
        }
        let index: usize = (y as usize) * (self.width as usize) + (x as usize);
        proof {
            assert(self.data@.map_values(|c: Color| c@)[index as int] == self.data@[index as int]@);
        }
        self.data[index]
    }
}

/// Turbulence of the scaled position broadcast over all three channels.
pub open spec fn noise_color_s(pv: crate::perlin::PerlinV, scale: int, p: V3) -> C3 {
    c_scale(
        C3 { r: FX_ONE as int, g: FX_ONE as int, b: FX_ONE as int },
        turbulence_s(pv, crate::vector::v_scale(p, scale), 7),
    )
}

#[derive(Clone)]
pub struct Noise {
    pub perlin: Perlin,
    pub scale: i64,
}

impl Noise {
    pub fn new(scale: i64, rng: &mut RandomSource) -> (r: Noise)
        ensures
            r.perlin.wf(),
            r.scale == scale,
    {
        Noise { perlin: Perlin::new(rng), scale }
    }
}

impl ColorAt for Noise {
    open spec fn color_at_wf(&self) -> bool {
        self.perlin.wf()
    }

    open spec fn color_at_spec(&self, u: int, v: int, p: V3) -> C3 {
        noise_color_s(self.perlin@, self.scale as int, p)
    }

    fn color_at(&self, u: i64, v: i64, point: &Point) -> (c: Color) {
        let s: Point = point.mul(self.scale);
        let t: i64 = self.perlin.turbulence(&s, None);
        Color::new(FX_ONE, FX_ONE, FX_ONE).mul_scalar(t)
    }
}

/// Closed polymorphic texture: one of the four concrete kinds.
#[derive(Clone)]
pub enum Texture {
    Solid(Solid),
    Checker(Checker),
    Image(Image),
    Noise(Noise),
}

impl Texture {
    /// A copy that samples to exactly the same colors.
    pub fn duplicate(&self) -> (r: Texture)
        ensures
            r.color_at_wf() == self.color_at_wf(),
            forall|u: int, v: int, p: V3|
                #[trigger] r.color_at_spec(u, v, p) == self.color_at_spec(u, v, p),
    {
        match self {
            Texture::Solid(t) => Texture::Solid(Solid { color: t.color }),
            Texture::Checker(t) => Texture::Checker(
                Checker { even: t.even, odd: t.odd, inverse_scale: t.inverse_scale },
            ),
            Texture::Image(t) => Texture::Image(
                Image {
                    data: crate::util::vec_dup(&t.data),
                    width: t.width,
                    height: t.height,
                },
            ),
            Texture::Noise(t) => Texture::Noise(
                Noise { perlin: t.perlin.duplicate(), scale: t.scale },
            ),
        }
    }
}

impl ColorAt for Texture {
    open spec fn color_at_wf(&self) -> bool {
        match self {
            Texture::Solid(t) => t.color_at_wf(),
            Texture::Checker(t) => t.color_at_wf(),
            Texture::Image(t) => t.color_at_wf(),
            Texture::Noise(t) => t.color_at_wf(),
        }
    }

    open spec fn color_at_spec(&self, u: int, v: int, p: V3) -> C3 {
        match self {
            Texture::Solid(t) => t.color_at_spec(u, v, p),
            Texture::Checker(t) => t.color_at_spec(u, v, p),
            Texture::Image(t) => t.color_at_spec(u, v, p),
            Texture::Noise(t) => t.color_at_spec(u, v, p),
        }
    }

    fn color_at(&self, u: i64, v: i64, point: &Point) -> (c: Color) {
        match self {
            Texture::Solid(t) => t.color_at(u, v, point),
            Texture::Checker(t) => t.color_at(u, v, point),
            Texture::Image(t) => t.color_at(u, v, point),
            Texture::Noise(t) => t.color_at(u, v, point),
        }
    }
}

} // verus!
