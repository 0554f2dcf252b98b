use vstd::prelude::*;

use crate::text::same_text;

verus! {

/// The kinds of light source a scene description can name.
#[derive(Debug, Clone, Copy, PartialEq, Eq, Structural)]
pub enum LightType {
    PointLight,
    AreaLight,
    ObjectLight,
}

/// The light kind that a type tag names, if any.
pub open spec fn light_type_named(s: Seq<char>) -> Result<LightType, ()> {
    if s == "point"@ {
        Ok(LightType::PointLight)
    } else if s == "area"@ {
        Ok(LightType::AreaLight)
    } else if s == "object"@ {
        Ok(LightType::ObjectLight)
    } else {
        Err(())
    }
}

impl LightType {
    /// Reads a light type tag: `point`, `area` or `object`.
    pub fn from_str(s: &str) -> (r: Result<LightType, ()>)
        ensures
            r == light_type_named(s@),
    {
        if same_text(s, "point") {
            Ok(LightType::PointLight)
        } else if same_text(s, "area") {
            Ok(LightType::AreaLight)
        } else if same_text(s, "object") {
            Ok(LightType::ObjectLight)
        } else {
            Err(())
        }
    }
}

} // verus!
