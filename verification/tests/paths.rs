//! The path-extension gate: only paths whose extension is exactly `gltf`
//! qualify, decided without touching the filesystem.

use gltf_json::{path_is_gltf, GltfError};

#[test]
fn json_extension_is_rejected() {
    assert!(!path_is_gltf("scene.json"));
    assert!(!path_is_gltf("dir/scene.json"));
}

#[test]
fn gltf_extension_is_accepted() {
    assert!(path_is_gltf("model.gltf"));
    assert!(path_is_gltf("some/dir/model.gltf"));
    assert!(path_is_gltf("archive.tar.gltf"));
}

#[test]
fn extension_matching_is_exact_and_case_sensitive() {
    assert!(!path_is_gltf("model.GLTF"));
    assert!(!path_is_gltf("model.glb"));
    assert!(!path_is_gltf("model.gltf2"));
    assert!(!path_is_gltf("modelgltf"));
}

#[test]
fn hidden_file_has_no_extension() {
    // a file name that is nothing but ".gltf" has no stem, hence no extension
    assert!(!path_is_gltf(".gltf"));
    assert!(!path_is_gltf("dir/.gltf"));
    // but a stem of a single dot counts
    assert!(path_is_gltf("..gltf"));
}

#[test]
fn trailing_separators_are_ignored() {
    assert!(path_is_gltf("dir/model.gltf/"));
    assert!(!path_is_gltf("model.gltf/x"));
}

#[test]
fn unsupported_extension_error_message() {
    assert_eq!(
        GltfError::PathExtensionNotGltf.message(),
        "The extension for the file in Gltf::from_path is not gltf"
    );
}
