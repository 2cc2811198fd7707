use vstd::prelude::*;

verus! {

/// One output pixel: red, green, blue and alpha bytes.
#[derive(Clone, Copy, Debug, PartialEq, Eq, Structural)]
pub struct Rgba {
    pub r: u8,
    pub g: u8,
    pub b: u8,
    pub a: u8,
}

impl Rgba {
    pub open spec fn is_opaque_black(self) -> bool {
        self.r == 0 && self.g == 0 && self.b == 0 && self.a == 255
    }

    /// Opaque black, the colour of points that never escape.
    pub fn black() -> (c: Rgba)
        ensures
            c.is_opaque_black(),
    {
        Rgba { r: 0, g: 0, b: 0, a: 255 }
    }

    /// A fully opaque colour from its three channels.
    pub fn opaque(r: u8, g: u8, b: u8) -> (c: Rgba)
        ensures
            c == (Rgba { r, g, b, a: 255 }),
    {
        Rgba { r, g, b, a: 255 }
    }
}

/// Row-major index of pixel `(x, y)` on a grid `width` pixels wide.
pub open spec fn grid_index(x: int, y: int, width: int) -> int {
    y * width + x
}

/// A row-major grid of RGBA pixels, one entry per pixel of the output surface.
pub struct PixelBuffer {
    width: u32,
    height: u32,
    data: Vec<Rgba>,
}

impl PixelBuffer {
    pub closed spec fn w(&self) -> nat {
        self.width as nat
    }

    pub closed spec fn h(&self) -> nat {
        self.height as nat
    }

    /// The pixels in row-major order.
    pub closed spec fn pixels(&self) -> Seq<Rgba> {
        self.data@
    }

    /// There is exactly one entry per pixel.
    pub open spec fn wf(&self) -> bool {
        self.pixels().len() == self.w() * self.h()
    }

    /// The pixel in column `x` of row `y`.
    pub open spec fn at(&self, x: int, y: int) -> Rgba {
        self.pixels()[grid_index(x, y, self.w() as int)]
    }

    /// A `width` by `height` buffer, every pixel opaque black.
    pub fn new(width: u32, height: u32) -> (buf: PixelBuffer)
        requires
            width * height <= usize::MAX,
        ensures
            buf.wf(),
            buf.w() == width,
            buf.h() == height,
            forall|i: int| 0 <= i < buf.pixels().len() ==> (#[trigger] buf.pixels()[i]).is_opaque_black(),
    {
        let n: usize = (width as usize) * (height as usize);
        let mut data: Vec<Rgba> = Vec::with_capacity(n);
        let mut i: usize = 0;
        while i < n
            invariant
                i <= n,
                data@.len() == i,
                forall|j: int| 0 <= j < i ==> (#[trigger] data@[j]).is_opaque_black(),
            decreases n - i,
        {
            data.push(Rgba::black());
            i = i + 1;
        }
        PixelBuffer { width, height, data }
    }

    pub fn width(&self) -> (r: u32)
        ensures
            r == self.w(),
    {
        self.width
    }

    pub fn height(&self) -> (r: u32)
        ensures
            r == self.h(),
    {
        self.height
    }

    /// Whether the buffer already matches an output surface of this size.
    pub fn has_size(&self, width: u32, height: u32) -> (r: bool)
        ensures
            r == (self.w() == width && self.h() == height),
    {
        self.width == width && self.height == height
    }

    /// Position of pixel `(x, y)` in the row-major data.
    pub fn index_of(&self, x: u32, y: u32) -> (i: usize)
        requires
            self.wf(),
            x < self.w(),
            y < self.h(),
        ensures
            i == grid_index(x as int, y as int, self.w() as int),
            i < self.pixels().len(),
    {
        // the data's length is a usize, so every index below it is one too
        let len = self.data.len();
        proof {
            lemma_grid_index_bounds(x as int, y as int, self.w() as int, self.h() as int);
            assert(grid_index(x as int, y as int, self.w() as int) < len);
        }
        (y as usize) * (self.width as usize) + (x as usize)
    }

    pub fn get(&self, x: u32, y: u32) -> (c: Rgba)
        requires
            self.wf(),
            x < self.w(),
            y < self.h(),
        ensures
            c == self.at(x as int, y as int),
    {
        let i = self.index_of(x, y);
        self.data[i]
    }

    /// Overwrites pixel `(x, y)` and nothing else.
    pub fn set(&mut self, x: u32, y: u32, c: Rgba)
        requires
            old(self).wf(),
            x < old(self).w(),
            y < old(self).h(),
        ensures
            final(self).wf(),
            final(self).w() == old(self).w(),
            final(self).h() == old(self).h(),
            final(self).pixels() == old(self).pixels().update(
                grid_index(x as int, y as int, old(self).w() as int),
                c,
            ),
    {
        let i = self.index_of(x, y);
        self.data[i] = c;
    }

    /// Fills the buffer for a `width` by `height` output surface, giving each
    /// pixel the colour that `color_at` returns for its column and row.
    /// Pixels are visited row by row, left to right. The buffer is made anew
    /// when its size differs from the surface, and overwritten in place
    /// otherwise. A surface with no pixels leaves the buffer as it was.
    pub fn render<F: Fn(u32, u32) -> Rgba>(&mut self, width: u32, height: u32, color_at: F)
        requires
            old(self).wf(),
            width * height <= usize::MAX,
            forall|x: u32, y: u32| x < width && y < height ==> color_at.requires((x, y)),
        ensures
            final(self).wf(),
            width == 0 || height == 0 ==> *final(self) == *old(self),
            width > 0 && height > 0 ==> {
                &&& final(self).w() == width
                &&& final(self).h() == height
                &&& forall|x: u32, y: u32|
                    x < width && y < height ==> color_at.ensures(
                        (x, y),
                        #[trigger] final(self).at(x as int, y as int),
                    )
            },
    {
        if width == 0 || height == 0 {
            return;
        }
        if !self.has_size(width, height) {
            *self = PixelBuffer::new(width, height);
        }
        let mut y: u32 = 0;
        while y < height
            invariant
                self.wf(),
                self.w() == width,
                self.h() == height,
                y <= height,
                forall|x: u32, y: u32| x < width && y < height ==> color_at.requires((x, y)),
                forall|px: u32, py: u32|
                    px < width && py < y ==> color_at.ensures(
                        (px, py),
                        #[trigger] self.at(px as int, py as int),
                    ),
            decreases height - y,
        {
            let mut x: u32 = 0;
            while x < width
                invariant
                    self.wf(),
                    self.w() == width,
                    self.h() == height,
                    x <= width,
                    y < height,
                    forall|x: u32, y: u32| x < width && y < height ==> color_at.requires((x, y)),
                    forall|px: u32, py: u32|
                        (px < width && py < y) || (px < x && py == y) ==> color_at.ensures(
                            (px, py),
                            #[trigger] self.at(px as int, py as int),
                        ),
                decreases width - x,
            {
                let c = color_at(x, y);
                let ghost before = *self;
                self.set(x, y, c);
                proof {
                    lemma_grid_index_bounds(x as int, y as int, width as int, height as int);
                    assert forall|px: u32, py: u32|
                        (px < width && py < y) || (px < x + 1 && py == y) implies color_at.ensures(
                            (px, py),
                            #[trigger] self.at(px as int, py as int),
                        ) by {
                        lemma_grid_index_distinct(px as int, py as int, x as int, y as int, width as int, height as int);
                        if px != x || py != y {
                            assert(self.at(px as int, py as int) == before.at(px as int, py as int));
                        }
                    }
                }
                x = x + 1;
            }
            y = y + 1;
        }
    }

    /// The pixels in row-major order, for handing to a display surface.
    pub fn as_slice(&self) -> (s: &[Rgba])
        ensures
            s@ == self.pixels(),
    {
        self.data.as_slice()
    }
}

/// Distinct pixels of a grid have distinct indices.
pub proof fn lemma_grid_index_distinct(x1: int, y1: int, x2: int, y2: int, w: int, h: int)
    requires
        0 <= x1 < w,
        0 <= y1 < h,
        0 <= x2 < w,
        0 <= y2 < h,
    ensures
        0 <= grid_index(x1, y1, w) < w * h,
        (x1 != x2 || y1 != y2) ==> grid_index(x1, y1, w) != grid_index(x2, y2, w),
{
    lemma_grid_index_bounds(x1, y1, w, h);
    if y1 != y2 {
        assert(y1 * w + x1 != y2 * w + x2) by (nonlinear_arith)
            requires
                0 <= x1 < w,
                0 <= x2 < w,
                y1 != y2,
        ;
    }
}

/// Every pixel of a grid has an index inside the grid's data.
pub proof fn lemma_grid_index_bounds(x: int, y: int, w: int, h: int)
    requires
        0 <= x < w,
        0 <= y < h,
    ensures
        0 <= grid_index(x, y, w) < w * h,
{
    assert(y * w + x < w * h) by (nonlinear_arith)
        requires
            0 <= x < w,
            0 <= y < h,
    ;
    assert(0 <= y * w) by (nonlinear_arith)
        requires
            0 <= y,
            0 <= w,
    ;
}

} // verus!
