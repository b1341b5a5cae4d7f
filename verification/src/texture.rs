//! Linear-space pixel storage.
//!
//! The buffer is row-major with row 0 at the top; a pixel's color is a
//! `glam::DVec3` held in linear space. Everything about where a pixel
//! lives is decided and proved here. The two floating-point edges — the
//! gamma transfer to and from bytes, and mapping a UV sample point to a
//! texel — run outside the verified library and come back to `get` and
//! `set` with plain indices.

use vstd::prelude::*;

verus! {

pub struct Texture {
    pub width: u32,
    pub height: u32,
    pub buffer: Vec<glam::DVec3>,
}

impl Texture {
    /// The stored pixels, row-major, row 0 first.
    pub open spec fn pixels(self) -> Seq<glam::DVec3> {
        self.buffer@
    }

    /// The buffer holds exactly one pixel per grid cell.
    pub open spec fn wf(self) -> bool {
        self.pixels().len() == self.width * self.height
    }

    /// Where pixel `(x, y)` lives in the row-major buffer.
    pub open spec fn pixel_index(self, x: u32, y: u32) -> int {
        y * self.width + x
    }

    /// A texture of the given size with every pixel set to `fill`.
    pub fn new(width: u32, height: u32, fill: glam::DVec3) -> (t: Texture)
        requires
            width * height <= u32::MAX,
        ensures
            t.wf(),
            t.width == width,
            t.height == height,
            forall|i: int| 0 <= i < t.pixels().len() ==> #[trigger] t.pixels()[i] == fill,
    {
        let n: usize = (width as usize) * (height as usize);
        let mut buffer: Vec<glam::DVec3> = Vec::new();
        let mut i: usize = 0;
        while i < n
            invariant
                i <= n,
                buffer@.len() == i,
                forall|k: int| 0 <= k < i ==> #[trigger] buffer@[k] == fill,
            decreases n - i,
        {
            buffer.push(fill);
            i = i + 1;
        }
        Texture { width, height, buffer }
    }

    /// Store `color` at pixel `(x, y)`; every other pixel is untouched.
    pub fn set(&mut self, x: u32, y: u32, color: glam::DVec3)
        requires
            old(self).wf(),
            x < old(self).width,
            y < old(self).height,
        ensures
            final(self).wf(),
            final(self).width == old(self).width,
            final(self).height == old(self).height,
            final(self).pixels() == old(self).pixels().update(
                old(self).pixel_index(x, y),
                color,
            ),
    {
        // reading the length as a usize bounds width * height by usize::MAX
        let _len: usize = self.buffer.len();
        proof {
            lemma_index_in_bounds(x as int, y as int, self.width as int, self.height as int);
        }
        let idx: usize = (y as usize) * (self.width as usize) + (x as usize);
        self.buffer.set(idx, color);
    }

    /// The color stored at pixel `(x, y)`.
    pub fn get(&self, x: u32, y: u32) -> (color: glam::DVec3)
        requires
            self.wf(),
            x < self.width,
            y < self.height,
        ensures
            color == self.pixels()[self.pixel_index(x, y)],
    {
        // reading the length as a usize bounds width * height by usize::MAX
        let _len: usize = self.buffer.len();
        proof {
            lemma_index_in_bounds(x as int, y as int, self.width as int, self.height as int);
        }
        let idx: usize = (y as usize) * (self.width as usize) + (x as usize);
        self.buffer[idx]
    }
}

/// A row-major index stays inside a `width * height` buffer.
proof fn lemma_index_in_bounds(x: int, y: int, width: int, height: int)
    requires
        0 <= x < width,
        0 <= y < height,
    ensures
        0 <= y * width + x < width * height,
{
    assert(y * width + x < width * height) by (nonlinear_arith)
        requires
            0 <= x < width,
            0 <= y < height,
    ;
}

} // verus!
