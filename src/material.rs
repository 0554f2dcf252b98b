use vstd::prelude::*;

verus! {

/// The ways a diffuse bounce can draw its outgoing direction.
#[derive(Debug, Clone, Copy, PartialEq, Eq, Structural)]
pub enum SamplingFunctions {
    /// Uniform over the sphere, flipped into the normal's hemisphere.
    RandomUnitVector,
    /// Cosine-weighted, radius from the square root of the second number.
    CosineWeightedSample1,
    /// Cosine-weighted, cosine from the square root of the first number.
    CosineWeightedSample2,
}

/// Whether checkerboard cell `(grid_u, grid_v)` is a white one: cells whose
/// indices sum to an even number are black, the others white.
pub open spec fn checker_white(grid_u: int, grid_v: int) -> bool {
    (grid_u + grid_v) % 2 != 0
}

/// Colour rule of a checkered material, given the cell that a surface point's
/// texture coordinates fall into (ten cells per unit on each axis).
pub fn checker_is_white(grid_u: i32, grid_v: i32) -> (r: bool)
    ensures
        r == checker_white(grid_u as int, grid_v as int),
{
    let sum: i64 = grid_u as i64 + grid_v as i64;
    sum % 2 != 0
}

} // verus!
