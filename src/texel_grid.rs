use vstd::prelude::*;

verus! {

/// Repeat-wrap addressing: the coordinate `i` taken modulo `n`, in `[0, n)`.
pub open spec fn wrap_spec(i: int, n: int) -> int {
    i % n
}

/// Maps a texel coordinate onto `[0, n)` with repeat-wrap addressing.
pub fn wrap_coord(i: i64, n: usize) -> (r: usize)
    requires
        n >= 1,
    ensures
        r as int == wrap_spec(i as int, n as int),
        r < n,
{
    let n64: u64 = n as u64;
    if i >= 0 {
        let r: u64 = (i as u64) % n64;
        r as usize
    } else {
        // i == -(j + 1) with j >= 0
        let j: u64 = (-(i + 1)) as u64;
        let k: u64 = j % n64;
        proof {
            let ii = i as int;
            let jj = j as int;
            let nn = n as int;
            let kk = k as int;
            assert(ii == -jj - 1);
            assert(kk == jj % nn);
            vstd::arithmetic::div_mod::lemma_fundamental_div_mod(jj, nn);
            let q = jj / nn;
            assert(jj == nn * q + kk);
            assert(ii == (-q - 1) * nn + (nn - 1 - kk)) by (nonlinear_arith)
                requires ii == -jj - 1, jj == nn * q + kk;
            vstd::arithmetic::div_mod::lemma_mod_multiples_vanish(-q - 1, nn - 1 - kk, nn);
            vstd::arithmetic::div_mod::lemma_small_mod((nn - 1 - kk) as nat, nn as nat);
        }
        (n64 - 1 - k) as usize
    }
}

/// A rectangular grid of texels stored row by row, `width` texels to a row.
pub struct TexelGrid<S> {
    pub width: usize,
    pub height: usize,
    pub texels: Vec<S>,
}

impl<S> TexelGrid<S> {
    /// Both sides are at least one texel and every texel is present.
    pub open spec fn wf(&self) -> bool {
        &&& self.width >= 1
        &&& self.height >= 1
        &&& self.width <= i64::MAX
        &&& self.height <= i64::MAX
        &&& self.texels@.len() == self.width * self.height
    }

    /// Index of the texel at `(x, y)` after repeat-wrap addressing on both axes.
    pub open spec fn index_spec(&self, x: int, y: int) -> int {
        wrap_spec(y, self.height as int) * self.width + wrap_spec(x, self.width as int)
    }

    /// The texel that a point query at `(x, y)` reads.
    pub open spec fn texel_spec(&self, x: int, y: int) -> S {
        self.texels@[self.index_spec(x, y)]
    }

    /// A grid of one texel holding `l`.
    pub open spec fn is_constant_of(&self, l: S) -> bool {
        &&& self.width == 1
        &&& self.height == 1
        &&& self.texels@ == seq![l]
    }
}

impl<S: Copy> TexelGrid<S> {
    /// Builds a grid from texels in row order; `None` unless both sides are
    /// positive and the texel count is `width * height`.
    pub fn from_rows(width: usize, height: usize, texels: Vec<S>) -> (r: Option<Self>)
        ensures
            r is Some <==> (width >= 1 && height >= 1 && width <= i64::MAX && height
                <= i64::MAX && texels@.len() == width * height),
            r matches Some(g) ==> g.wf() && g.width == width && g.height == height
                && g.texels@ == texels@,
    {
        let len: usize = texels.len();
        if width == 0 || height == 0 || width as u64 > i64::MAX as u64 || height as u64
            > i64::MAX as u64 {
            return None;
        }
        match width.checked_mul(height) {
            None => {
                proof {
                    assert(width * height > usize::MAX) by (nonlinear_arith)
                        requires width * height > usize::MAX;
                }
                None
            },
            Some(count) => {
                if len == count {
                    Some(TexelGrid { width, height, texels })
                } else {
                    None
                }
            },
        }
    }

    /// A one-texel grid holding `l`: a spatially constant image.
    pub fn constant(l: S) -> (r: Self)
        ensures
            r.wf(),
            r.is_constant_of(l),
    {
        let mut texels: Vec<S> = Vec::new();
        texels.push(l);
        assert(texels@ == seq![l]);
        TexelGrid { width: 1, height: 1, texels }
    }

    /// Point query: the texel at `(x, y)` with repeat-wrap addressing.
    pub fn texel(&self, x: i64, y: i64) -> (r: S)
        requires
            self.wf(),
        ensures
            0 <= self.index_spec(x as int, y as int) < self.texels@.len(),
            r == self.texel_spec(x as int, y as int),
    {
        let len: usize = self.texels.len();
        let wx: usize = wrap_coord(x, self.width);
        let wy: usize = wrap_coord(y, self.height);
        proof {
            let w = self.width as int;
            let h = self.height as int;
            assert(wy * w + wx < w * h) by (nonlinear_arith)
                requires 0 <= wx < w, 0 <= wy < h;
            assert(0 <= wy * w) by (nonlinear_arith)
                requires 0 <= wy, 0 <= w;
        }
        self.texels[wy * self.width + wx]
    }
}

/// Every point query on a one-texel grid reads that texel.
pub proof fn constant_grid_reads_its_texel<S>(g: TexelGrid<S>, l: S, x: int, y: int)
    requires
        g.is_constant_of(l),
    ensures
        g.texel_spec(x, y) == l,
{
    assert(wrap_spec(x, 1) == 0);
    assert(wrap_spec(y, 1) == 0);
}

} // verus!
