//! The frame: output size, sample rate, and pixel-coordinate layout.
//!
//! A frame knows every pixel coordinate that has to be sampled, in the
//! order the sampled results are later written back: row-major with the top
//! row first.  The stored coordinate flips the vertical axis, so that the
//! first entries sample the top of the scene.

use vstd::prelude::*;
use vstd::arithmetic::div_mod::lemma_fundamental_div_mod_converse;

verus! {

/// The coordinate sampled for flat index `k`: column `k % width`, and the
/// vertically flipped row `height - 1 - k / width`.
pub open spec fn coord_at(width: u32, height: u32, k: int) -> (u32, u32) {
    (((k % (width as int)) as u32), ((height - 1 - k / (width as int)) as u32))
}

/// A frame to be rendered: its size in pixels, the number of samples per
/// pixel, and the flat list of coordinates to sample.
#[derive(Debug)]
pub struct Frame {
    /// The frame width in pixels.
    pub width: u32,
    /// The frame height in pixels.
    pub height: u32,
    /// The number of samples to take per pixel.
    pub samples: u32,
    /// All coordinates of the frame, in output order.
    pub coords: Vec<(u32, u32)>,
}

impl Frame {
    /// The coordinate list covers the whole frame, in output order.
    pub open spec fn inv(self) -> bool {
        &&& self.coords@.len() == self.width as int * self.height as int
        &&& forall|k: int|
            0 <= k < self.coords@.len() ==> #[trigger] self.coords@[k] == coord_at(
                self.width,
                self.height,
                k,
            )
    }

    /// Create a new frame with a given width, height, and sample rate.
    /// The coordinates are generated once, here.
    pub fn new(width: u32, height: u32, samples: u32) -> (f: Frame)
        requires
            width as int * height as int <= usize::MAX as int,
        ensures
            f.width == width,
            f.height == height,
            f.samples == samples,
            f.inv(),
    {
        let mut coords: Vec<(u32, u32)> = Vec::new();
        let mut y: u32 = 0;
        while y < height
            invariant
                y <= height,
                width as int * height as int <= usize::MAX as int,
                coords@.len() == y as int * width as int,
                forall|k: int|
                    0 <= k < coords@.len() ==> #[trigger] coords@[k] == coord_at(width, height, k),
            decreases height - y,
        {
            let mut x: u32 = 0;
            proof {
                assert((y + 1) as int * width as int <= height as int * width as int) by (nonlinear_arith)
                    requires
                        y < height,
                ;
            }
            while x < width
                invariant
                    x <= width,
                    y < height,
                    coords@.len() == y as int * width as int + x as int,
                    (y + 1) as int * width as int <= height as int * width as int,
                    width as int * height as int <= usize::MAX as int,
                    forall|k: int|
                        0 <= k < coords@.len() ==> #[trigger] coords@[k] == coord_at(
                            width,
                            height,
                            k,
                        ),
                decreases width - x,
            {
                proof {
                    assert((y as int * width as int + x as int) < (y + 1) as int * width as int)
                        by (nonlinear_arith)
                        requires
                            x < width,
                    ;
                    let k = y as int * width as int + x as int;
                    lemma_fundamental_div_mod_converse(k, width as int, y as int, x as int);
                }
                coords.push((x, height - y - 1));
                x = x + 1;
            }
            proof {
                assert((y + 1) as int * width as int == y as int * width as int + width as int)
                    by (nonlinear_arith);
            }
            y = y + 1;
        }
        proof {
            assert(height as int * width as int == width as int * height as int)
                by (nonlinear_arith);
        }
        Frame { width, height, samples, coords }
    }

    /// The flat index of pixel `(x, y)` in the output grid: row-major, top
    /// row first.
    pub fn pixel_index(&self, x: u32, y: u32) -> (r: usize)
        requires
            self.inv(),
            x < self.width,
            y < self.height,
        ensures
            r == y as int * self.width as int + x as int,
            r < self.coords@.len(),
    {
        let n: usize = self.coords.len();
        proof {
            assert((y as int * self.width as int + x as int) < self.height as int
                * self.width as int) by (nonlinear_arith)
                requires
                    x < self.width && y < self.height,
            ;
            assert(self.height as int * self.width as int == self.width as int
                * self.height as int) by (nonlinear_arith);
            assert((y as int * self.width as int + x as int) < n as int);
        }
        (y as usize) * (self.width as usize) + (x as usize)
    }
}

/// The coordinate stored at the flat index of pixel `(x, y)` is `(x,
/// height - 1 - y)`: the grid is written row-major with the top row first,
/// while sampling walks the scene's vertical axis bottom-up.
pub proof fn lemma_coord_at_pixel_index(f: Frame, x: u32, y: u32)
    requires
        f.inv(),
        x < f.width,
        y < f.height,
    ensures
        f.coords@[y as int * f.width as int + x as int] == (x, (f.height - 1 - y) as u32),
{
    let k = y as int * f.width as int + x as int;
    assert((y as int * f.width as int + x as int) < f.height as int * f.width as int)
        by (nonlinear_arith)
        requires
            x < f.width && y < f.height,
    ;
    assert(f.height as int * f.width as int == f.width as int * f.height as int)
        by (nonlinear_arith);
    lemma_fundamental_div_mod_converse(k, f.width as int, y as int, x as int);
    assert(f.coords@[k] == coord_at(f.width, f.height, k));
}

} // verus!
