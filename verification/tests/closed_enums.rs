//! The closed enumerations: every legal token resolves to its documented
//! variant, and everything else is rejected.

use gltf_json::accessor::{AccessorType, ComponentType};
use gltf_json::animation::{Interpolation, Property};
use gltf_json::buffer_view::Target;
use gltf_json::camera::CameraType;
use gltf_json::material::AlphaMode;
use gltf_json::mesh::PrimitiveMode;
use gltf_json::texture::{MagFilter, MinFilter, WrappingMode};

#[test]
fn component_type_codes_resolve() {
    assert_eq!(ComponentType::from_code(5120).unwrap(), ComponentType::I8);
    assert_eq!(ComponentType::from_code(5121).unwrap(), ComponentType::U8);
    assert_eq!(ComponentType::from_code(5122).unwrap(), ComponentType::I16);
    assert_eq!(ComponentType::from_code(5123).unwrap(), ComponentType::U16);
    assert_eq!(ComponentType::from_code(5125).unwrap(), ComponentType::U32);
    assert_eq!(ComponentType::from_code(5126).unwrap(), ComponentType::F32);
}

#[test]
fn component_type_rejects_other_codes() {
    assert!(ComponentType::from_code(5124).is_err());
    assert!(ComponentType::from_code(0).is_err());
    assert!(ComponentType::from_code(5127).is_err());
    assert!(ComponentType::from_code(u64::MAX).is_err());
    // a code equal to a legal one modulo 2^32 is still illegal
    assert!(ComponentType::from_code(5120 + (1u64 << 32)).is_err());
}

#[test]
fn component_type_sizes() {
    assert_eq!(ComponentType::I8.size(), 1);
    assert_eq!(ComponentType::U8.size(), 1);
    assert_eq!(ComponentType::I16.size(), 2);
    assert_eq!(ComponentType::U16.size(), 2);
    assert_eq!(ComponentType::U32.size(), 4);
    assert_eq!(ComponentType::F32.size(), 4);
}

#[test]
fn accessor_type_tags_resolve_with_multiplicity() {
    let table = [
        ("SCALAR", AccessorType::Scalar, 1usize),
        ("VEC2", AccessorType::Vec2, 2),
        ("VEC3", AccessorType::Vec3, 3),
        ("VEC4", AccessorType::Vec4, 4),
        ("MAT2", AccessorType::Mat2, 4),
        ("MAT3", AccessorType::Mat3, 9),
        ("MAT4", AccessorType::Mat4, 16),
    ];
    for (tag, expected, multiplicity) in table {
        let got = AccessorType::from_name(tag).unwrap();
        assert_eq!(got, expected);
        assert_eq!(got.multiplicity(), multiplicity);
    }
}

#[test]
fn accessor_type_rejects_other_tags() {
    assert!(AccessorType::from_name("VEC5").is_err());
    assert!(AccessorType::from_name("scalar").is_err());
    assert!(AccessorType::from_name("").is_err());
    assert!(AccessorType::from_name("MAT").is_err());
}

#[test]
fn primitive_mode_codes_resolve() {
    assert_eq!(PrimitiveMode::from_code(0).unwrap(), PrimitiveMode::Points);
    assert_eq!(PrimitiveMode::from_code(1).unwrap(), PrimitiveMode::Lines);
    assert_eq!(PrimitiveMode::from_code(2).unwrap(), PrimitiveMode::LineLoop);
    assert_eq!(PrimitiveMode::from_code(3).unwrap(), PrimitiveMode::LineStrip);
    assert_eq!(PrimitiveMode::from_code(4).unwrap(), PrimitiveMode::Triangles);
    assert_eq!(
        PrimitiveMode::from_code(5).unwrap(),
        PrimitiveMode::TriangleStrip
    );
    assert_eq!(
        PrimitiveMode::from_code(6).unwrap(),
        PrimitiveMode::TriangleFan
    );
    assert_eq!(PrimitiveMode::from_code(7).unwrap(), PrimitiveMode::Quad);
    assert_eq!(PrimitiveMode::from_code(8).unwrap(), PrimitiveMode::QuadStrip);
    assert_eq!(PrimitiveMode::from_code(9).unwrap(), PrimitiveMode::Polygon);
    assert!(PrimitiveMode::from_code(10).is_err());
}

#[test]
fn filter_and_wrap_codes_resolve() {
    assert_eq!(MinFilter::from_code(9728).unwrap(), MinFilter::Nearest);
    assert_eq!(MinFilter::from_code(9729).unwrap(), MinFilter::Linear);
    assert_eq!(
        MinFilter::from_code(9984).unwrap(),
        MinFilter::NearestMipmapNearest
    );
    assert_eq!(
        MinFilter::from_code(9985).unwrap(),
        MinFilter::LinearMipmapNearest
    );
    assert_eq!(
        MinFilter::from_code(9986).unwrap(),
        MinFilter::NearestMipmapLinear
    );
    assert_eq!(
        MinFilter::from_code(9987).unwrap(),
        MinFilter::LinearMipmapLinear
    );
    assert!(MinFilter::from_code(9730).is_err());

    assert_eq!(MagFilter::from_code(9728).unwrap(), MagFilter::Nearest);
    assert_eq!(MagFilter::from_code(9729).unwrap(), MagFilter::Linear);
    assert!(MagFilter::from_code(9984).is_err());

    assert_eq!(
        WrappingMode::from_code(33071).unwrap(),
        WrappingMode::ClampToEdge
    );
    assert_eq!(
        WrappingMode::from_code(33648).unwrap(),
        WrappingMode::MirroredRepeat
    );
    assert_eq!(WrappingMode::from_code(10497).unwrap(), WrappingMode::Repeat);
    assert!(WrappingMode::from_code(10498).is_err());
}

#[test]
fn buffer_view_target_codes_resolve() {
    assert_eq!(Target::from_code(34962).unwrap(), Target::ArrayBuffer);
    assert_eq!(Target::from_code(34963).unwrap(), Target::ElementArrayBuffer);
    assert!(Target::from_code(34964).is_err());
}

#[test]
fn string_enums_resolve() {
    assert_eq!(AlphaMode::from_name("OPAQUE").unwrap(), AlphaMode::Opaque);
    assert_eq!(AlphaMode::from_name("MASK").unwrap(), AlphaMode::Mask);
    assert_eq!(AlphaMode::from_name("BLEND").unwrap(), AlphaMode::Blend);
    assert!(AlphaMode::from_name("XYZ").is_err());

    assert_eq!(
        Interpolation::from_name("LINEAR").unwrap(),
        Interpolation::Linear
    );
    assert_eq!(Interpolation::from_name("STEP").unwrap(), Interpolation::Step);
    assert_eq!(
        Interpolation::from_name("CUBICSPLINE").unwrap(),
        Interpolation::CubicSpline
    );
    assert!(Interpolation::from_name("cubicspline").is_err());

    assert_eq!(
        Property::from_name("translation").unwrap(),
        Property::Translation
    );
    assert_eq!(Property::from_name("rotation").unwrap(), Property::Rotation);
    assert_eq!(Property::from_name("scale").unwrap(), Property::Scale);
    assert_eq!(
        Property::from_name("weights").unwrap(),
        Property::MorphTargetWeights
    );
    assert!(Property::from_name("Weights").is_err());

    assert_eq!(
        CameraType::from_name("perspective").unwrap(),
        CameraType::Perspective
    );
    assert_eq!(
        CameraType::from_name("orthographic").unwrap(),
        CameraType::Orthographic
    );
    assert!(CameraType::from_name("isometric").is_err());
}

#[test]
fn enum_defaults() {
    assert_eq!(AlphaMode::default(), AlphaMode::Opaque);
    assert_eq!(Interpolation::default(), Interpolation::Linear);
    assert_eq!(PrimitiveMode::default(), PrimitiveMode::Triangles);
    assert_eq!(WrappingMode::default(), WrappingMode::Repeat);
}
