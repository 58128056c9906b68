use vstd::prelude::*;

use crate::texel_grid::{constant_grid_reads_its_texel, TexelGrid};

verus! {

/// Flag bit that marks a light as infinitely far away.
pub const LIGHT_FLAG_INFINITE: u8 = 8;

/// The sample count a light keeps: at least one.
pub open spec fn clamp_samples_spec(n: i32) -> i32 {
    if n < 1 {
        1
    } else {
        n
    }
}

/// Raises a requested sample count to at least one.
pub fn clamp_samples(n: i32) -> (r: i32)
    ensures
        r == clamp_samples_spec(n),
{
    if n < 1 {
        1
    } else {
        n
    }
}

/// A decoded environment image: texels in row order, already scaled by the tint.
pub struct DecodedImage<S> {
    pub width: usize,
    pub height: usize,
    pub texels: Vec<S>,
}

impl<S> DecodedImage<S> {
    /// The image can become a radiance map whose importance grid, twice as
    /// fine on each axis, is addressable.
    pub open spec fn usable(&self) -> bool {
        &&& self.width >= 1
        &&& self.height >= 1
        &&& 2 * self.width <= i64::MAX
        &&& 2 * self.height <= i64::MAX
        &&& self.texels@.len() == self.width * self.height
        &&& 4 * self.width * self.height <= usize::MAX
    }
}

impl<S> DecodedImage<S> {
    /// Whether [`InfiniteAreaLight::from_image`] accepts this image.
    pub fn is_usable(&self) -> (r: bool)
        ensures
            r == self.usable(),
    {
        let w: usize = self.width;
        let h: usize = self.height;
        if w == 0 || h == 0 || w as u64 > (i64::MAX as u64) / 2 || h as u64 > (i64::MAX as u64) / 2 {
            return false;
        }
        match w.checked_mul(h) {
            None => {
                proof {
                    assert(4 * w * h > usize::MAX) by (nonlinear_arith)
                        requires w * h > usize::MAX;
                }
                false
            },
            Some(n) => {
                if self.texels.len() != n {
                    false
                } else {
                    match n.checked_mul(4) {
                        None => {
                            proof {
                                assert(4 * w * h == n * 4) by (nonlinear_arith)
                                    requires n == w * h;
                            }
                            false
                        },
                        Some(_) => {
                            proof {
                                assert(4 * w * h == n * 4) by (nonlinear_arith)
                                    requires n == w * h;
                            }
                            true
                        },
                    }
                }
            },
        }
    }
}

/// The first usable image of the chain: the EXR decode, then the HDR decode.
pub open spec fn chosen_image<S>(exr: Option<DecodedImage<S>>, hdr: Option<DecodedImage<S>>) -> Option<
    DecodedImage<S>,
> {
    if exr is Some && exr->0.usable() {
        exr
    } else if hdr is Some && hdr->0.usable() {
        hdr
    } else {
        None
    }
}

/// Storage type of one channel of an EXR image.
#[derive(Clone, Copy, Debug, PartialEq, Eq, Structural)]
pub enum ChannelKind {
    Uint,
    Half,
    Float,
}

/// An EXR image is read only when its `R`, `G` and `B` channels all exist
/// and all hold half-precision values.
pub fn exr_channels_usable(r: Option<ChannelKind>, g: Option<ChannelKind>, b: Option<ChannelKind>) -> (ok: bool)
    ensures
        ok == (r == Some(ChannelKind::Half) && g == Some(ChannelKind::Half) && b == Some(
            ChannelKind::Half,
        )),
{
    let half = Some(ChannelKind::Half);
    r == half && g == half && b == half
}

/// An environment light: radiance arriving from every direction, read from
/// an equirectangular radiance map.
pub struct InfiniteAreaLight<S> {
    pub lmap: TexelGrid<S>,
    pub distribution_width: usize,
    pub distribution_height: usize,
    pub flags: u8,
    pub n_samples: i32,
}

impl<S> InfiniteAreaLight<S> {
    /// The importance grid is the radiance map supersampled twice on each axis.
    pub open spec fn wf(&self) -> bool {
        &&& self.lmap.wf()
        &&& self.distribution_width == 2 * self.lmap.width
        &&& self.distribution_height == 2 * self.lmap.height
        &&& self.distribution_width * self.distribution_height <= usize::MAX
        &&& self.distribution_width <= i64::MAX
        &&& self.distribution_height <= i64::MAX
        &&& self.n_samples >= 1
        &&& self.flags == LIGHT_FLAG_INFINITE
    }

    pub open spec fn spec_flags(&self) -> u8 {
        self.flags
    }

    pub open spec fn spec_n_samples(&self) -> i32 {
        self.n_samples
    }

    /// The light holds exactly this image and this sample count.
    pub open spec fn holds_image(&self, img: DecodedImage<S>, n_samples: i32) -> bool {
        &&& self.wf()
        &&& self.lmap.width == img.width
        &&& self.lmap.height == img.height
        &&& self.lmap.texels@ == img.texels@
        &&& self.spec_n_samples() == clamp_samples_spec(n_samples)
    }

    /// The light is the spatially constant environment of radiance `l`.
    pub open spec fn is_constant_of(&self, l: S, n_samples: i32) -> bool {
        &&& self.wf()
        &&& self.lmap.is_constant_of(l)
        &&& self.spec_n_samples() == clamp_samples_spec(n_samples)
    }
}

impl<S: Copy> InfiniteAreaLight<S> {
    /// A light over a decoded image; `None` when the image cannot be used.
    pub fn from_image(n_samples: i32, img: DecodedImage<S>) -> (r: Option<Self>)
        ensures
            r is Some <==> img.usable(),
            r matches Some(light) ==> light.holds_image(img, n_samples),
    {
        let width: usize = img.width;
        let height: usize = img.height;
        if width == 0 || height == 0 || width as u64 > (i64::MAX as u64) / 2 || height as u64 > (
        i64::MAX as u64) / 2 {
            return None;
        }
        let dw: usize = match width.checked_mul(2) {
            Some(x) => x,
            None => {
                proof {
                    assert(4 * width * height > usize::MAX) by (nonlinear_arith)
                        requires width * 2 > usize::MAX, height >= 1;
                }
                return None;
            },
        };
        let dh: usize = match height.checked_mul(2) {
            Some(x) => x,
            None => {
                proof {
                    assert(4 * width * height > usize::MAX) by (nonlinear_arith)
                        requires height * 2 > usize::MAX, width >= 1;
                }
                return None;
            },
        };
        match dw.checked_mul(dh) {
            None => {
                proof {
                    assert(4 * width * height == dw * dh) by (nonlinear_arith)
                        requires dw == 2 * width, dh == 2 * height;
                }
                None
            },
            Some(_cells) => {
                proof {
                    assert(4 * width * height == dw * dh) by (nonlinear_arith)
                        requires dw == 2 * width, dh == 2 * height;
                }
                match TexelGrid::from_rows(width, height, img.texels) {
                    None => None,
                    Some(lmap) => {
                        Some(
                            InfiniteAreaLight {
                                lmap,
                                distribution_width: dw,
                                distribution_height: dh,
                                flags: LIGHT_FLAG_INFINITE,
                                n_samples: clamp_samples(n_samples),
                            },
                        )
                    },
                }
            },
        }
    }

    /// The spatially constant environment: a one-texel map holding `l`.
    pub fn default(n_samples: i32, l: S) -> (r: Self)
        ensures
            r.is_constant_of(l, n_samples),
    {
        InfiniteAreaLight {
            lmap: TexelGrid::constant(l),
            distribution_width: 2,
            distribution_height: 2,
            flags: LIGHT_FLAG_INFINITE,
            n_samples: clamp_samples(n_samples),
        }
    }

    /// Builds the light from the first usable decode, the EXR one before the
    /// HDR one, and falls back to the constant environment of `l`.
    pub fn new(l: S, n_samples: i32, exr: Option<DecodedImage<S>>, hdr: Option<DecodedImage<S>>) -> (r:
        Self)
        ensures
            chosen_image(exr, hdr) matches Some(img) ==> r.holds_image(img, n_samples),
            chosen_image(exr, hdr) is None ==> r.is_constant_of(l, n_samples),
    {
        if let Some(img) = exr {
            if let Some(light) = Self::from_image(n_samples, img) {
                return light;
            }
        }
        if let Some(img) = hdr {
            if let Some(light) = Self::from_image(n_samples, img) {
                return light;
            }
        }
        Self::default(n_samples, l)
    }

    /// Builds the light from an HDR decode when it is usable, else the
    /// constant environment of `l`.
    pub fn new_hdr(l: S, n_samples: i32, hdr: Option<DecodedImage<S>>) -> (r: Self)
        ensures
            hdr is Some && hdr->0.usable() ==> r.holds_image(hdr->0, n_samples),
            !(hdr is Some && hdr->0.usable()) ==> r.is_constant_of(l, n_samples),
    {
        if let Some(img) = hdr {
            if let Some(light) = Self::from_image(n_samples, img) {
                return light;
            }
        }
        Self::default(n_samples, l)
    }

    /// The cells of the importance grid in row order, as `(u, v)` pairs.
    pub fn importance_cells(&self) -> (r: Vec<(usize, usize)>)
        requires
            self.wf(),
        ensures
            r@.len() == self.distribution_width * self.distribution_height,
            forall|v: int, u: int|
                0 <= v < self.distribution_height && 0 <= u < self.distribution_width ==> #[trigger] r@[v
                    * self.distribution_width + u] == (u as usize, v as usize),
    {
        let w: usize = self.distribution_width;
        let h: usize = self.distribution_height;
        let mut cells: Vec<(usize, usize)> = Vec::new();
        let mut v: usize = 0;
        while v < h
            invariant
                w == self.distribution_width,
                h == self.distribution_height,
                w * h <= usize::MAX,
                v <= h,
                cells@.len() == v * w,
                forall|vv: int, uu: int|
                    0 <= vv < v && 0 <= uu < w ==> #[trigger] cells@[vv * w + uu] == (
                    uu as usize,
                    vv as usize,
                ),
            decreases h - v,
        {
            let mut u: usize = 0;
            while u < w
                invariant
                    w == self.distribution_width,
                    h == self.distribution_height,
                    w * h <= usize::MAX,
                    v < h,
                    u <= w,
                    cells@.len() == v * w + u,
                    forall|vv: int, uu: int|
                        0 <= vv < v && 0 <= uu < w ==> #[trigger] cells@[vv * w + uu] == (
                        uu as usize,
                        vv as usize,
                    ),
                    forall|uu: int| 0 <= uu < u ==> #[trigger] cells@[v * w + uu] == (uu as usize, v as usize),
                decreases w - u,
            {
                proof {
                    assert(v * w + u < w * h) by (nonlinear_arith)
                        requires v < h, u < w;
                }
                cells.push((u, v));
                proof {
                    assert forall|vv: int, uu: int|
                        0 <= vv < v && 0 <= uu < w implies #[trigger] cells@[vv * w + uu] == (
                        uu as usize,
                        vv as usize,
                    ) by {
                        assert(vv * w + uu < v * w) by (nonlinear_arith)
                            requires vv < v, uu < w, 0 <= uu;
                    }
                }
                u = u + 1;
            }
            proof {
                assert((v + 1) * w == v * w + w) by (nonlinear_arith);
                assert forall|vv: int, uu: int|
                    0 <= vv < v + 1 && 0 <= uu < w implies #[trigger] cells@[vv * w + uu] == (
                    uu as usize,
                    vv as usize,
                ) by {
                    if vv == v {
                        assert(cells@[v * w + uu] == (uu as usize, v as usize));
                    }
                }
            }
            v = v + 1;
        }
        proof {
            assert(v * w == w * h) by (nonlinear_arith)
                requires v == h;
        }
        cells
    }

    /// Radiance of a point query on the map at texel `(x, y)`, repeat-wrapped.
    pub fn le_texel(&self, x: i64, y: i64) -> (r: S)
        requires
            self.wf(),
        ensures
            r == self.lmap.texel_spec(x as int, y as int),
    {
        self.lmap.texel(x, y)
    }

    /// The light's flag bits.
    pub fn get_flags(&self) -> (r: u8)
        ensures
            r == self.spec_flags(),
    {
        self.flags
    }

    /// How many samples an integrator should draw from this light.
    pub fn get_n_samples(&self) -> (r: i32)
        ensures
            r == self.spec_n_samples(),
    {
        self.n_samples
    }
}

/// With no usable image, the environment is constant: a point query of the
/// radiance map at any texel, which is what an escaped ray reads, returns
/// the tint `l`.
pub proof fn degenerate_environment_radiance<S>(
    light: InfiniteAreaLight<S>,
    l: S,
    n_samples: i32,
    x: int,
    y: int,
)
    requires
        light.is_constant_of(l, n_samples),
    ensures
        light.lmap.texel_spec(x, y) == l,
{
    constant_grid_reads_its_texel(light.lmap, l, x, y);
}

} // verus!
