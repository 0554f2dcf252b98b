use pathtracer::light::LightType;
use pathtracer::object::ObjectType;
use pathtracer::text::same_text;

#[test]
fn light_type_tags() {
    assert_eq!(LightType::from_str("point"), Ok(LightType::PointLight));
    assert_eq!(LightType::from_str("area"), Ok(LightType::AreaLight));
    assert_eq!(LightType::from_str("object"), Ok(LightType::ObjectLight));
    assert_eq!(LightType::from_str("Point"), Err(()));
    assert_eq!(LightType::from_str(""), Err(()));
}

#[test]
fn object_type_tags() {
    assert_eq!(ObjectType::from_str("sphere"), Ok(ObjectType::Sphere));
    assert_eq!(ObjectType::from_str("quad"), Ok(ObjectType::Quad));
    assert_eq!(ObjectType::from_str("plane"), Ok(ObjectType::Plane));
    assert_eq!(ObjectType::from_str("cube"), Ok(ObjectType::Cube));
    assert_eq!(ObjectType::from_str("mesh"), Err(()));
    assert_eq!(ObjectType::from_str("spheres"), Err(()));
}

#[test]
fn text_comparison() {
    assert!(same_text("cube", "cube"));
    assert!(!same_text("cube", "cub"));
    assert!(same_text("é", "é"));
    assert!(!same_text("é", "e"));
}
