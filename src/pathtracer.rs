use vstd::prelude::*;

use crate::material::SamplingFunctions;

verus! {

/// Render settings: the output resolution and the number of camera samples
/// averaged into each pixel.
#[derive(Debug, Clone, Copy, PartialEq, Eq, Structural)]
pub struct PathTracer {
    pub width: usize,
    pub height: usize,
    pub samples: usize,
}

impl PathTracer {
    pub fn new(width: usize, height: usize, samples: usize) -> (r: Self)
        ensures
            r.width == width,
            r.height == height,
            r.samples == samples,
    {
        PathTracer { width, height, samples }
    }

    /// The number of pixels of the output buffer, if it can be addressed.
    pub fn pixel_count(&self) -> (r: Option<usize>)
        ensures
            self.width * self.height <= usize::MAX ==> r == Some((self.width * self.height) as usize),
            self.width * self.height > usize::MAX ==> r is None,
    {
        self.width.checked_mul(self.height)
    }

    /// Position of a pixel in the row-major output buffer.
    pub fn pixel_index(&self, x: usize, y: usize) -> (r: usize)
        requires
            x < self.width,
            y < self.height,
            self.width * self.height <= usize::MAX,
        ensures
            r == y * self.width + x,
            r < self.width * self.height,
    {
        proof {
            assert(y * self.width + x < self.width * self.height) by (nonlinear_arith)
                requires
                    x < self.width,
                    y < self.height,
            ;
        }
        y * self.width + x
    }

    /// Column and row of the pixel stored at `index` of the row-major buffer.
    pub fn pixel_coords(&self, index: usize) -> (r: (usize, usize))
        requires
            self.width > 0,
        ensures
            r.0 == index % self.width,
            r.1 == index / self.width,
            r.0 < self.width,
            r.1 * self.width + r.0 == index,
    {
        let x = index % self.width;
        let y = index / self.width;
        proof {
            vstd::arithmetic::div_mod::lemma_fundamental_div_mod(index as int, self.width as int);
            assert(y * self.width == self.width * y) by (nonlinear_arith);
        }
        (x, y)
    }

    /// The sampling strategy for pixels of column `x`. A debug render uses
    /// uniform sphere sampling on the left half of the image and the second
    /// cosine-weighted variant on the right half, to compare them side by
    /// side; otherwise every pixel uses the first cosine-weighted variant.
    pub fn sampling_for(&self, x: usize, debug: bool) -> (r: SamplingFunctions)
        ensures
            !debug ==> r == SamplingFunctions::CosineWeightedSample1,
            debug && x < self.width / 2 ==> r == SamplingFunctions::RandomUnitVector,
            debug && x >= self.width / 2 ==> r == SamplingFunctions::CosineWeightedSample2,
    {
        if debug {
            if x < self.width / 2 {
                SamplingFunctions::RandomUnitVector
            } else {
                SamplingFunctions::CosineWeightedSample2
            }
        } else {
            SamplingFunctions::CosineWeightedSample1
        }
    }
}

} // verus!
