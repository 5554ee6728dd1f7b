//! The open tag resolvers: recognized tags map to named variants, everything
//! else is carried verbatim, and resolution never fails.

use gltf_json::image::{ImageMimeType, ImageMimeTypeExtensions};
use gltf_json::Extension;

#[test]
fn known_extension_tags_resolve() {
    assert_eq!(
        Extension::from_name("KHR_lights_punctual"),
        Extension::KHR_lights_punctual
    );
    assert_eq!(
        Extension::from_name("KHR_materials_pbrSpecularGlossiness"),
        Extension::KHR_materials_pbrSpecularGlossiness
    );
    assert_eq!(
        Extension::from_name("KHR_texture_transform"),
        Extension::KHR_texture_transform
    );
    assert_eq!(
        Extension::from_name("EXT_meshopt_compression"),
        Extension::EXT_meshopt_compression
    );
    assert_eq!(
        Extension::from_name("EXT_lights_image_based"),
        Extension::EXT_lights_image_based
    );
}

#[test]
fn unknown_extension_tag_is_preserved_verbatim() {
    assert_eq!(
        Extension::from_name("FOO_bar_vendor"),
        Extension::Unknown("FOO_bar_vendor".to_string())
    );
    // resolution is case-sensitive
    assert_eq!(
        Extension::from_name("khr_lights_punctual"),
        Extension::Unknown("khr_lights_punctual".to_string())
    );
    assert_eq!(Extension::from_name(""), Extension::Unknown(String::new()));
}

#[test]
fn image_mime_types_resolve() {
    assert_eq!(ImageMimeType::from_name("image/jpeg"), ImageMimeType::Jpeg);
    assert_eq!(ImageMimeType::from_name("image/png"), ImageMimeType::Png);
}

#[test]
fn image_mime_type_extension_table_is_consulted() {
    assert_eq!(
        ImageMimeType::from_name("image/ktx2"),
        ImageMimeType::Extension(ImageMimeTypeExtensions::Ktx2)
    );
}

#[test]
fn unknown_image_mime_type_is_preserved_verbatim() {
    assert_eq!(
        ImageMimeType::from_name("image/webp"),
        ImageMimeType::Unknown("image/webp".to_string())
    );
}
