use vstd::prelude::*;

pub mod light;
pub mod material;
pub mod matrix;
pub mod object;
pub mod pathtracer;
pub mod scene;
pub mod text;
pub mod vector;

verus! {

} // verus!
