use vstd::prelude::*;

use crate::text::same_text;

verus! {

/// The kinds of geometry a scene description can name.
#[derive(Debug, Clone, Copy, PartialEq, Eq, Structural)]
pub enum ObjectType {
    Sphere,
    Quad,
    Plane,
    Cube,
    TriangleMesh,
}

/// The geometry kind that a type tag names, if any. Triangle meshes have no
/// tag: they cannot be intersected yet.
pub open spec fn object_type_named(s: Seq<char>) -> Result<ObjectType, ()> {
    if s == "sphere"@ {
        Ok(ObjectType::Sphere)
    } else if s == "quad"@ {
        Ok(ObjectType::Quad)
    } else if s == "plane"@ {
        Ok(ObjectType::Plane)
    } else if s == "cube"@ {
        Ok(ObjectType::Cube)
    } else {
        Err(())
    }
}

impl ObjectType {
    /// Reads a geometry type tag: `sphere`, `quad`, `plane` or `cube`.
    pub fn from_str(s: &str) -> (r: Result<ObjectType, ()>)
        ensures
            r == object_type_named(s@),
    {
        if same_text(s, "sphere") {
            Ok(ObjectType::Sphere)
        } else if same_text(s, "quad") {
            Ok(ObjectType::Quad)
        } else if same_text(s, "plane") {
            Ok(ObjectType::Plane)
        } else if same_text(s, "cube") {
            Ok(ObjectType::Cube)
        } else {
            Err(())
        }
    }
}

} // verus!
