use vstd::prelude::*;

verus! {

/// An RGB8 raster of `nx` by `ny` texels, row-major, the top row first.
#[derive(Clone, Debug)]
pub struct ImageTexture {
    data: Vec<u8>,
    nx: u32,
    ny: u32,
}

/// `i` limited to the last valid index `n - 1`.
pub open spec fn clamp_index(i: int, n: int) -> int {
    if i > n - 1 {
        n - 1
    } else {
        i
    }
}

impl ImageTexture {
    /// The texel bytes, three per texel.
    pub closed spec fn bytes(&self) -> Seq<u8> {
        self.data@
    }

    /// Texels per row.
    pub closed spec fn width(&self) -> nat {
        self.nx as nat
    }

    /// Number of rows.
    pub closed spec fn height(&self) -> nat {
        self.ny as nat
    }

    /// The raster is non-empty and holds exactly three bytes per texel.
    pub open spec fn wf(&self) -> bool {
        &&& self.width() > 0
        &&& self.height() > 0
        &&& self.bytes().len() == 3 * self.width() * self.height()
    }

    /// Offset of the first byte of the texel that column `i`, row `j` reads,
    /// each clamped into the raster.
    pub open spec fn texel_offset(&self, i: int, j: int) -> int {
        3 * clamp_index(i, self.width() as int) + 3 * self.width() * clamp_index(
            j,
            self.height() as int,
        )
    }

    pub fn new(data: Vec<u8>, nx: u32, ny: u32) -> (r: Self)
        requires
            nx > 0,
            ny > 0,
            data@.len() == 3 * nx * ny,
        ensures
            r.wf(),
            r.bytes() == data@,
            r.width() == nx,
            r.height() == ny,
    {
        ImageTexture { data, nx, ny }
    }

    pub fn nx(&self) -> (r: u32)
        ensures
            r == self.width(),
    {
        self.nx
    }

    pub fn ny(&self) -> (r: u32)
        ensures
            r == self.height(),
    {
        self.ny
    }

    /// The red, green and blue bytes of the texel at column `i`, row `j`
    /// (row 0 at the top); an index past the edge reads the last column or
    /// row instead.
    pub fn texel(&self, i: usize, j: usize) -> (r: (u8, u8, u8))
        requires
            self.wf(),
        ensures
            r.0 == self.bytes()[self.texel_offset(i as int, j as int)],
            r.1 == self.bytes()[self.texel_offset(i as int, j as int) + 1],
            r.2 == self.bytes()[self.texel_offset(i as int, j as int) + 2],
    {
        let nx = self.nx as usize;
        let ny = self.ny as usize;
        let i = if i > nx - 1 { nx - 1 } else { i };
        let j = if j > ny - 1 { ny - 1 } else { j };
        let len = self.data.len();
        proof {
            let w = nx as int;
            let h = ny as int;
            assert(3 * w * j <= 3 * w * (h - 1)) by (nonlinear_arith)
                requires j <= h - 1, w > 0;
            assert(3 * w * (h - 1) + 3 * (w - 1) + 2 < 3 * w * h) by (nonlinear_arith)
                requires w > 0, h > 0;
            assert(3 * w <= 3 * w * h) by (nonlinear_arith)
                requires w > 0, h > 0;
            assert(3 * w * j == (3 * w) * j);
            assert(len == 3 * w * h);
        }
        let idx = 3 * i + 3 * nx * j;
        (self.data[idx], self.data[idx + 1], self.data[idx + 2])
    }
}

} // verus!
