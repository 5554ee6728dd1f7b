//! A decoder for the glTF 2.0 JSON scene-description format: an external
//! tokenizer turns the text into a generic JSON value tree, and verified
//! field-by-field dispatch turns that tree into one strongly typed, fully
//! validated document value — or one decode error.

pub mod accessor;
pub mod animation;
pub mod asset;
pub mod buffer;
pub mod buffer_view;
pub mod camera;
pub mod image;
pub mod json;
pub mod material;
pub mod mesh;
pub mod node;
pub mod scene;
pub mod skin;
pub mod texture;

use vstd::prelude::*;
use vstd::string::StrSliceExecFns;
use vstd::string::StringExecFns;

pub use accessor::Accessor;
pub use animation::Animation;
pub use asset::Asset;
pub use buffer::Buffer;
pub use buffer_view::BufferView;
pub use camera::Camera;
pub use image::Image;
pub use material::Material;
pub use mesh::{Mesh, Primitive};
pub use node::Node;
pub use scene::Scene;
pub use skin::Skin;
pub use texture::Texture;

use crate::json::{
    bad_field, bad_value, ext_flag, get_field, json_doc, json_doc_bytes, lookup_field,
    missing_field, parse_json_bytes, parse_json_text, spec_ext_flag, spec_field_opt_usize,
    field_opt_usize, str_eq, Json, SchemaError,
};

verus! {

/// An extension identifier from `extensionsUsed` / `extensionsRequired`: the
/// recognized vendor and Khronos tags, or the verbatim unknown carrier.
/// Open-ended: resolution never fails.
#[derive(Debug, Clone, PartialEq, Eq, Hash)]
#[allow(non_camel_case_types)]
pub enum Extension {
    KHR_lights_common,
    KHR_lights_punctual,
    KHR_materials_ior,
    KHR_materials_unlit,
    KHR_materials_emissive_strength,
    KHR_materials_transmission,
    KHR_materials_volume,
    KHR_materials_iridescence,
    KHR_materials_sheen,
    KHR_materials_clearcoat,
    KHR_materials_variants,
    KHR_materials_specular,
    KHR_materials_pbrSpecularGlossiness,
    KHR_xmp,
    KHR_texture_transform,
    KHR_texture_basisu,
    KHR_draco_mesh_compression,
    KHR_mesh_quantization,
    EXT_meshopt_compression,
    EXT_lights_image_based,
    Unknown(String),
}

/// The extension a tag names, when the tag is in the recognized table.
pub open spec fn known_extension_of(s: Seq<char>) -> Option<Extension> {
    if s == "KHR_lights_common"@ {
        Some(Extension::KHR_lights_common)
    } else if s == "KHR_lights_punctual"@ {
        Some(Extension::KHR_lights_punctual)
    } else if s == "KHR_materials_ior"@ {
        Some(Extension::KHR_materials_ior)
    } else if s == "KHR_materials_unlit"@ {
        Some(Extension::KHR_materials_unlit)
    } else if s == "KHR_materials_emissive_strength"@ {
        Some(Extension::KHR_materials_emissive_strength)
    } else if s == "KHR_materials_transmission"@ {
        Some(Extension::KHR_materials_transmission)
    } else if s == "KHR_materials_volume"@ {
        Some(Extension::KHR_materials_volume)
    } else if s == "KHR_materials_iridescence"@ {
        Some(Extension::KHR_materials_iridescence)
    } else if s == "KHR_materials_sheen"@ {
        Some(Extension::KHR_materials_sheen)
    } else if s == "KHR_materials_clearcoat"@ {
        Some(Extension::KHR_materials_clearcoat)
    } else if s == "KHR_materials_variants"@ {
        Some(Extension::KHR_materials_variants)
    } else if s == "KHR_materials_specular"@ {
        Some(Extension::KHR_materials_specular)
    } else if s == "KHR_materials_pbrSpecularGlossiness"@ {
        Some(Extension::KHR_materials_pbrSpecularGlossiness)
    } else if s == "KHR_xmp"@ {
        Some(Extension::KHR_xmp)
    } else if s == "KHR_texture_transform"@ {
        Some(Extension::KHR_texture_transform)
    } else if s == "KHR_texture_basisu"@ {
        Some(Extension::KHR_texture_basisu)
    } else if s == "KHR_draco_mesh_compression"@ {
        Some(Extension::KHR_draco_mesh_compression)
    } else if s == "KHR_mesh_quantization"@ {
        Some(Extension::KHR_mesh_quantization)
    } else if s == "EXT_meshopt_compression"@ {
        Some(Extension::EXT_meshopt_compression)
    } else if s == "EXT_lights_image_based"@ {
        Some(Extension::EXT_lights_image_based)
    } else {
        None
    }
}

/// Open-tag resolution of an extension identifier: a recognized tag maps to
/// its variant; anything else is preserved verbatim.
pub open spec fn extension_decoded(s: Seq<char>, e: Extension) -> bool {
    match known_extension_of(s) {
        Some(k) => e == k,
        None => e matches Extension::Unknown(u) && u@ == s,
    }
}

impl Extension {
    /// Resolves an extension identifier; an unrecognized tag is preserved
    /// verbatim, never rejected.
    pub fn from_name(name: &str) -> (r: Extension)
        ensures
            extension_decoded(name@, r),
    {
        if str_eq(name, "KHR_lights_common") {
            Extension::KHR_lights_common
        } else if str_eq(name, "KHR_lights_punctual") {
            Extension::KHR_lights_punctual
        } else if str_eq(name, "KHR_materials_ior") {
            Extension::KHR_materials_ior
        } else if str_eq(name, "KHR_materials_unlit") {
            Extension::KHR_materials_unlit
        } else if str_eq(name, "KHR_materials_emissive_strength") {
            Extension::KHR_materials_emissive_strength
        } else if str_eq(name, "KHR_materials_transmission") {
            Extension::KHR_materials_transmission
        } else if str_eq(name, "KHR_materials_volume") {
            Extension::KHR_materials_volume
        } else if str_eq(name, "KHR_materials_iridescence") {
            Extension::KHR_materials_iridescence
        } else if str_eq(name, "KHR_materials_sheen") {
            Extension::KHR_materials_sheen
        } else if str_eq(name, "KHR_materials_clearcoat") {
            Extension::KHR_materials_clearcoat
        } else if str_eq(name, "KHR_materials_variants") {
            Extension::KHR_materials_variants
        } else if str_eq(name, "KHR_materials_specular") {
            Extension::KHR_materials_specular
        } else if str_eq(name, "KHR_materials_pbrSpecularGlossiness") {
            Extension::KHR_materials_pbrSpecularGlossiness
        } else if str_eq(name, "KHR_xmp") {
            Extension::KHR_xmp
        } else if str_eq(name, "KHR_texture_transform") {
            Extension::KHR_texture_transform
        } else if str_eq(name, "KHR_texture_basisu") {
            Extension::KHR_texture_basisu
        } else if str_eq(name, "KHR_draco_mesh_compression") {
            Extension::KHR_draco_mesh_compression
        } else if str_eq(name, "KHR_mesh_quantization") {
            Extension::KHR_mesh_quantization
        } else if str_eq(name, "EXT_meshopt_compression") {
            Extension::EXT_meshopt_compression
        } else if str_eq(name, "EXT_lights_image_based") {
            Extension::EXT_lights_image_based
        } else {
            Extension::Unknown(name.to_owned())
        }
    }
}

pub open spec fn extension_items_ok(items: Seq<Json>) -> bool {
    forall|i: int| 0 <= i < items.len() ==> (#[trigger] items[i]) is Text
}

pub open spec fn extension_items_decoded(items: Seq<Json>, out: Seq<Extension>) -> bool {
    &&& out.len() == items.len()
    &&& forall|i: int| 0 <= i < items.len() ==> extension_decoded(
        (#[trigger] items[i])->Text_0@,
        out[i],
    )
}

#[verifier::loop_isolation(false)]
fn extensions_from_json(items: &Vec<Json>, key: &str) -> (r: Result<Vec<Extension>, SchemaError>)
    ensures
        r is Ok <==> extension_items_ok(items@),
        r matches Ok(out) ==> extension_items_decoded(items@, out@),
{
    let n = items.len();
    let mut out: Vec<Extension> = Vec::new();
    let mut i: usize = 0;
    while i < n
        invariant
            i <= n,
            out@.len() == i,
            forall|k: int| 0 <= k < i ==> (#[trigger] items@[k]) is Text,
            forall|k: int| 0 <= k < i ==> extension_decoded((#[trigger] items@[k])->Text_0@, out@[k]),
        decreases n - i,
    {
        match &items[i] {
            Json::Text(s) => {
                out.push(Extension::from_name(s.as_str()));
            },
            _ => {
                proof {
                    assert(!((items@[i as int]) is Text));
                }
                return Err(bad_field(key));
            },
        }
        i += 1;
    }
    Ok(out)
}

/// Reserved extension slot of the document root; recognized structurally,
/// content intentionally uninterpreted.
#[derive(Clone, Debug, Default)]
pub struct GltfExtensions {}

#[verifier::external_type_specification]
#[verifier::external_body]
pub struct ExIoError(std::io::Error);

/// What can go wrong producing a document: a filesystem failure, a syntax or
/// schema failure from decoding, or a path whose extension is not `gltf`.
#[derive(Debug)]
pub enum GltfError {
    Io(std::io::Error),
    JsonParseError(serde_json::Error),
    PathExtensionNotGltf,
}

/// Relies on the `Display` implementation of `std::io::Error`: a
/// human-readable description of the failure.
#[verifier::external_body]
fn io_error_text(e: &std::io::Error) -> String {
    e.to_string()
}

/// Relies on the `Display` implementation of `serde_json::Error`: a
/// human-readable description with the source location where one is known.
#[verifier::external_body]
fn json_error_text(e: &serde_json::Error) -> String {
    e.to_string()
}

/// Relies on `serde::de::Error::custom` for `serde_json::Error`: wraps a
/// message into the tokenizer's error type, so schema failures surface the
/// same way syntax failures do.
#[verifier::external_body]
fn json_error_custom(msg: String) -> serde_json::Error {
    <serde_json::Error as serde::de::Error>::custom(msg)
}

impl GltfError {
    /// A human-readable description of the error.
    pub fn message(&self) -> (r: String)
        ensures
            self is PathExtensionNotGltf ==> r@
                == "The extension for the file in Gltf::from_path is not gltf"@,
    {
        match self {
            GltfError::Io(e) => io_error_text(e),
            GltfError::JsonParseError(e) => json_error_text(e),
            GltfError::PathExtensionNotGltf => String::from_str(
                "The extension for the file in Gltf::from_path is not gltf",
            ),
        }
    }
}

// ---------------------------------------------------------------------------
// Decoding the top-level entity arrays
// ---------------------------------------------------------------------------

pub open spec fn accessor_items_ok(items: Seq<Json>) -> bool {
    forall|i: int| 0 <= i < items.len() ==> accessor::accessor_ok(#[trigger] items[i])
}

pub open spec fn accessor_items_decoded(items: Seq<Json>, out: Seq<Accessor>) -> bool {
    &&& out.len() == items.len()
    &&& forall|i: int| 0 <= i < items.len() ==> accessor::accessor_decoded(
        #[trigger] items[i],
        out[i],
    )
}

#[verifier::loop_isolation(false)]
fn accessors_from_json(items: &Vec<Json>) -> (r: Result<Vec<Accessor>, SchemaError>)
    ensures
        r is Ok <==> accessor_items_ok(items@),
        r matches Ok(out) ==> accessor_items_decoded(items@, out@),
{
    let n = items.len();
    let mut out: Vec<Accessor> = Vec::new();
    let mut i: usize = 0;
    while i < n
        invariant
            i <= n,
            out@.len() == i,
            forall|k: int| 0 <= k < i ==> accessor::accessor_decoded(
                #[trigger] items@[k],
                out@[k],
            ),
        decreases n - i,
    {
        match Accessor::from_json(&items[i]) {
            Ok(x) => {
                out.push(x);
            },
            Err(e) => {
                proof {
                    assert(!accessor::accessor_ok(items@[i as int]));
                }
                return Err(e);
            },
        }
        i += 1;
    }
    Ok(out)
}

pub open spec fn animation_items_ok(items: Seq<Json>) -> bool {
    forall|i: int| 0 <= i < items.len() ==> animation::animation_ok(#[trigger] items[i])
}

pub open spec fn animation_items_decoded(items: Seq<Json>, out: Seq<Animation>) -> bool {
    &&& out.len() == items.len()
    &&& forall|i: int| 0 <= i < items.len() ==> animation::animation_decoded(
        #[trigger] items[i],
        out[i],
    )
}

#[verifier::loop_isolation(false)]
fn animations_from_json(items: &Vec<Json>) -> (r: Result<Vec<Animation>, SchemaError>)
    ensures
        r is Ok <==> animation_items_ok(items@),
        r matches Ok(out) ==> animation_items_decoded(items@, out@),
{
    let n = items.len();
    let mut out: Vec<Animation> = Vec::new();
    let mut i: usize = 0;
    while i < n
        invariant
            i <= n,
            out@.len() == i,
            forall|k: int| 0 <= k < i ==> animation::animation_decoded(
                #[trigger] items@[k],
                out@[k],
            ),
        decreases n - i,
    {
        match Animation::from_json(&items[i]) {
            Ok(x) => {
                out.push(x);
            },
            Err(e) => {
                proof {
                    assert(!animation::animation_ok(items@[i as int]));
                }
                return Err(e);
            },
        }
        i += 1;
    }
    Ok(out)
}

pub open spec fn buffer_items_ok(items: Seq<Json>) -> bool {
    forall|i: int| 0 <= i < items.len() ==> buffer::buffer_ok(#[trigger] items[i])
}

pub open spec fn buffer_items_decoded(items: Seq<Json>, out: Seq<Buffer>) -> bool {
    &&& out.len() == items.len()
    &&& forall|i: int| 0 <= i < items.len() ==> buffer::buffer_decoded(#[trigger] items[i], out[i])
}

#[verifier::loop_isolation(false)]
fn buffers_from_json(items: &Vec<Json>) -> (r: Result<Vec<Buffer>, SchemaError>)
    ensures
        r is Ok <==> buffer_items_ok(items@),
        r matches Ok(out) ==> buffer_items_decoded(items@, out@),
{
    let n = items.len();
    let mut out: Vec<Buffer> = Vec::new();
    let mut i: usize = 0;
    while i < n
        invariant
            i <= n,
            out@.len() == i,
            forall|k: int| 0 <= k < i ==> buffer::buffer_decoded(#[trigger] items@[k], out@[k]),
        decreases n - i,
    {
        match Buffer::from_json(&items[i]) {
            Ok(x) => {
                out.push(x);
            },
            Err(e) => {
                proof {
                    assert(!buffer::buffer_ok(items@[i as int]));
                }
                return Err(e);
            },
        }
        i += 1;
    }
    Ok(out)
}

pub open spec fn buffer_view_items_ok(items: Seq<Json>) -> bool {
    forall|i: int| 0 <= i < items.len() ==> buffer_view::buffer_view_ok(#[trigger] items[i])
}

pub open spec fn buffer_view_items_decoded(items: Seq<Json>, out: Seq<BufferView>) -> bool {
    &&& out.len() == items.len()
    &&& forall|i: int| 0 <= i < items.len() ==> buffer_view::buffer_view_decoded(
        #[trigger] items[i],
        out[i],
    )
}

#[verifier::loop_isolation(false)]
fn buffer_views_from_json(items: &Vec<Json>) -> (r: Result<Vec<BufferView>, SchemaError>)
    ensures
        r is Ok <==> buffer_view_items_ok(items@),
        r matches Ok(out) ==> buffer_view_items_decoded(items@, out@),
{
    let n = items.len();
    let mut out: Vec<BufferView> = Vec::new();
    let mut i: usize = 0;
    while i < n
        invariant
            i <= n,
            out@.len() == i,
            forall|k: int| 0 <= k < i ==> buffer_view::buffer_view_decoded(
                #[trigger] items@[k],
                out@[k],
            ),
        decreases n - i,
    {
        match BufferView::from_json(&items[i]) {
            Ok(x) => {
                out.push(x);
            },
            Err(e) => {
                proof {
                    assert(!buffer_view::buffer_view_ok(items@[i as int]));
                }
                return Err(e);
            },
        }
        i += 1;
    }
    Ok(out)
}

pub open spec fn camera_items_ok(items: Seq<Json>) -> bool {
    forall|i: int| 0 <= i < items.len() ==> camera::camera_ok(#[trigger] items[i])
}

pub open spec fn camera_items_decoded(items: Seq<Json>, out: Seq<Camera>) -> bool {
    &&& out.len() == items.len()
    &&& forall|i: int| 0 <= i < items.len() ==> camera::camera_decoded(#[trigger] items[i], out[i])
}

#[verifier::loop_isolation(false)]
fn cameras_from_json(items: &Vec<Json>) -> (r: Result<Vec<Camera>, SchemaError>)
    ensures
        r is Ok <==> camera_items_ok(items@),
        r matches Ok(out) ==> camera_items_decoded(items@, out@),
{
    let n = items.len();
    let mut out: Vec<Camera> = Vec::new();
    let mut i: usize = 0;
    while i < n
        invariant
            i <= n,
            out@.len() == i,
            forall|k: int| 0 <= k < i ==> camera::camera_decoded(#[trigger] items@[k], out@[k]),
        decreases n - i,
    {
        match Camera::from_json(&items[i]) {
            Ok(x) => {
                out.push(x);
            },
            Err(e) => {
                proof {
                    assert(!camera::camera_ok(items@[i as int]));
                }
                return Err(e);
            },
        }
        i += 1;
    }
    Ok(out)
}

pub open spec fn image_items_ok(items: Seq<Json>) -> bool {
    forall|i: int| 0 <= i < items.len() ==> image::image_ok(#[trigger] items[i])
}

pub open spec fn image_items_decoded(items: Seq<Json>, out: Seq<Image>) -> bool {
    &&& out.len() == items.len()
    &&& forall|i: int| 0 <= i < items.len() ==> image::image_decoded(#[trigger] items[i], out[i])
}

#[verifier::loop_isolation(false)]
fn images_from_json(items: &Vec<Json>) -> (r: Result<Vec<Image>, SchemaError>)
    ensures
        r is Ok <==> image_items_ok(items@),
        r matches Ok(out) ==> image_items_decoded(items@, out@),
{
    let n = items.len();
    let mut out: Vec<Image> = Vec::new();
    let mut i: usize = 0;
    while i < n
        invariant
            i <= n,
            out@.len() == i,
            forall|k: int| 0 <= k < i ==> image::image_decoded(#[trigger] items@[k], out@[k]),
        decreases n - i,
    {
        match Image::from_json(&items[i]) {
            Ok(x) => {
                out.push(x);
            },
            Err(e) => {
                proof {
                    assert(!image::image_ok(items@[i as int]));
                }
                return Err(e);
            },
        }
        i += 1;
    }
    Ok(out)
}

pub open spec fn material_items_ok(items: Seq<Json>) -> bool {
    forall|i: int| 0 <= i < items.len() ==> material::material_ok(#[trigger] items[i])
}

pub open spec fn material_items_decoded(items: Seq<Json>, out: Seq<Material>) -> bool {
    &&& out.len() == items.len()
    &&& forall|i: int| 0 <= i < items.len() ==> material::material_decoded(
        #[trigger] items[i],
        out[i],
    )
}

#[verifier::loop_isolation(false)]
fn materials_from_json(items: &Vec<Json>) -> (r: Result<Vec<Material>, SchemaError>)
    ensures
        r is Ok <==> material_items_ok(items@),
        r matches Ok(out) ==> material_items_decoded(items@, out@),
{
    let n = items.len();
    let mut out: Vec<Material> = Vec::new();
    let mut i: usize = 0;
    while i < n
        invariant
            i <= n,
            out@.len() == i,
            forall|k: int| 0 <= k < i ==> material::material_decoded(
                #[trigger] items@[k],
                out@[k],
            ),
        decreases n - i,
    {
        match Material::from_json(&items[i]) {
            Ok(x) => {
                out.push(x);
            },
            Err(e) => {
                proof {
                    assert(!material::material_ok(items@[i as int]));
                }
                return Err(e);
            },
        }
        i += 1;
    }
    Ok(out)
}

pub open spec fn mesh_items_ok(items: Seq<Json>) -> bool {
    forall|i: int| 0 <= i < items.len() ==> mesh::mesh_ok(#[trigger] items[i])
}

pub open spec fn mesh_items_decoded(items: Seq<Json>, out: Seq<Mesh>) -> bool {
    &&& out.len() == items.len()
    &&& forall|i: int| 0 <= i < items.len() ==> mesh::mesh_decoded(#[trigger] items[i], out[i])
}

#[verifier::loop_isolation(false)]
fn meshes_from_json(items: &Vec<Json>) -> (r: Result<Vec<Mesh>, SchemaError>)
    ensures
        r is Ok <==> mesh_items_ok(items@),
        r matches Ok(out) ==> mesh_items_decoded(items@, out@),
{
    let n = items.len();
    let mut out: Vec<Mesh> = Vec::new();
    let mut i: usize = 0;
    while i < n
        invariant
            i <= n,
            out@.len() == i,
            forall|k: int| 0 <= k < i ==> mesh::mesh_decoded(#[trigger] items@[k], out@[k]),
        decreases n - i,
    {
        match Mesh::from_json(&items[i]) {
            Ok(x) => {
                out.push(x);
            },
            Err(e) => {
                proof {
                    assert(!mesh::mesh_ok(items@[i as int]));
                }
                return Err(e);
            },
        }
        i += 1;
    }
    Ok(out)
}

pub open spec fn node_items_ok(items: Seq<Json>) -> bool {
    forall|i: int| 0 <= i < items.len() ==> node::node_ok(#[trigger] items[i])
}

pub open spec fn node_items_decoded(items: Seq<Json>, out: Seq<Node>) -> bool {
    &&& out.len() == items.len()
    &&& forall|i: int| 0 <= i < items.len() ==> node::node_decoded(#[trigger] items[i], out[i])
}

#[verifier::loop_isolation(false)]
fn nodes_from_json(items: &Vec<Json>) -> (r: Result<Vec<Node>, SchemaError>)
    ensures
        r is Ok <==> node_items_ok(items@),
        r matches Ok(out) ==> node_items_decoded(items@, out@),
{
    let n = items.len();
    let mut out: Vec<Node> = Vec::new();
    let mut i: usize = 0;
    while i < n
        invariant
            i <= n,
            out@.len() == i,
            forall|k: int| 0 <= k < i ==> node::node_decoded(#[trigger] items@[k], out@[k]),
        decreases n - i,
    {
        match Node::from_json(&items[i]) {
            Ok(x) => {
                out.push(x);
            },
            Err(e) => {
                proof {
                    assert(!node::node_ok(items@[i as int]));
                }
                return Err(e);
            },
        }
        i += 1;
    }
    Ok(out)
}

pub open spec fn sampler_items_ok(items: Seq<Json>) -> bool {
    forall|i: int| 0 <= i < items.len() ==> texture::sampler_ok(#[trigger] items[i])
}

pub open spec fn sampler_items_decoded(items: Seq<Json>, out: Seq<texture::Sampler>) -> bool {
    &&& out.len() == items.len()
    &&& forall|i: int| 0 <= i < items.len() ==> texture::sampler_decoded(
        #[trigger] items[i],
        out[i],
    )
}

#[verifier::loop_isolation(false)]
fn samplers_from_json(items: &Vec<Json>) -> (r: Result<Vec<texture::Sampler>, SchemaError>)
    ensures
        r is Ok <==> sampler_items_ok(items@),
        r matches Ok(out) ==> sampler_items_decoded(items@, out@),
{
    let n = items.len();
    let mut out: Vec<texture::Sampler> = Vec::new();
    let mut i: usize = 0;
    while i < n
        invariant
            i <= n,
            out@.len() == i,
            forall|k: int| 0 <= k < i ==> texture::sampler_decoded(
                #[trigger] items@[k],
                out@[k],
            ),
        decreases n - i,
    {
        match texture::Sampler::from_json(&items[i]) {
            Ok(x) => {
                out.push(x);
            },
            Err(e) => {
                proof {
                    assert(!texture::sampler_ok(items@[i as int]));
                }
                return Err(e);
            },
        }
        i += 1;
    }
    Ok(out)
}

pub open spec fn scene_items_ok(items: Seq<Json>) -> bool {
    forall|i: int| 0 <= i < items.len() ==> scene::scene_ok(#[trigger] items[i])
}

pub open spec fn scene_items_decoded(items: Seq<Json>, out: Seq<Scene>) -> bool {
    &&& out.len() == items.len()
    &&& forall|i: int| 0 <= i < items.len() ==> scene::scene_decoded(#[trigger] items[i], out[i])
}

#[verifier::loop_isolation(false)]
fn scenes_from_json(items: &Vec<Json>) -> (r: Result<Vec<Scene>, SchemaError>)
    ensures
        r is Ok <==> scene_items_ok(items@),
        r matches Ok(out) ==> scene_items_decoded(items@, out@),
{
    let n = items.len();
    let mut out: Vec<Scene> = Vec::new();
    let mut i: usize = 0;
    while i < n
        invariant
            i <= n,
            out@.len() == i,
            forall|k: int| 0 <= k < i ==> scene::scene_decoded(#[trigger] items@[k], out@[k]),
        decreases n - i,
    {
        match Scene::from_json(&items[i]) {
            Ok(x) => {
                out.push(x);
            },
            Err(e) => {
                proof {
                    assert(!scene::scene_ok(items@[i as int]));
                }
                return Err(e);
            },
        }
        i += 1;
    }
    Ok(out)
}

pub open spec fn skin_items_ok(items: Seq<Json>) -> bool {
    forall|i: int| 0 <= i < items.len() ==> skin::skin_ok(#[trigger] items[i])
}

pub open spec fn skin_items_decoded(items: Seq<Json>, out: Seq<Skin>) -> bool {
    &&& out.len() == items.len()
    &&& forall|i: int| 0 <= i < items.len() ==> skin::skin_decoded(#[trigger] items[i], out[i])
}

#[verifier::loop_isolation(false)]
fn skins_from_json(items: &Vec<Json>) -> (r: Result<Vec<Skin>, SchemaError>)
    ensures
        r is Ok <==> skin_items_ok(items@),
        r matches Ok(out) ==> skin_items_decoded(items@, out@),
{
    let n = items.len();
    let mut out: Vec<Skin> = Vec::new();
    let mut i: usize = 0;
    while i < n
        invariant
            i <= n,
            out@.len() == i,
            forall|k: int| 0 <= k < i ==> skin::skin_decoded(#[trigger] items@[k], out@[k]),
        decreases n - i,
    {
        match Skin::from_json(&items[i]) {
            Ok(x) => {
                out.push(x);
            },
            Err(e) => {
                proof {
                    assert(!skin::skin_ok(items@[i as int]));
                }
                return Err(e);
            },
        }
        i += 1;
    }
    Ok(out)
}

pub open spec fn texture_items_ok(items: Seq<Json>) -> bool {
    forall|i: int| 0 <= i < items.len() ==> texture::texture_ok(#[trigger] items[i])
}

pub open spec fn texture_items_decoded(items: Seq<Json>, out: Seq<Texture>) -> bool {
    &&& out.len() == items.len()
    &&& forall|i: int| 0 <= i < items.len() ==> texture::texture_decoded(
        #[trigger] items[i],
        out[i],
    )
}

#[verifier::loop_isolation(false)]
fn textures_from_json(items: &Vec<Json>) -> (r: Result<Vec<Texture>, SchemaError>)
    ensures
        r is Ok <==> texture_items_ok(items@),
        r matches Ok(out) ==> texture_items_decoded(items@, out@),
{
    let n = items.len();
    let mut out: Vec<Texture> = Vec::new();
    let mut i: usize = 0;
    while i < n
        invariant
            i <= n,
            out@.len() == i,
            forall|k: int| 0 <= k < i ==> texture::texture_decoded(
                #[trigger] items@[k],
                out@[k],
            ),
        decreases n - i,
    {
        match Texture::from_json(&items[i]) {
            Ok(x) => {
                out.push(x);
            },
            Err(e) => {
                proof {
                    assert(!texture::texture_ok(items@[i as int]));
                }
                return Err(e);
            },
        }
        i += 1;
    }
    Ok(out)
}

// ---------------------------------------------------------------------------
// The document root
// ---------------------------------------------------------------------------

/// The fully decoded document: the top-level entity arrays in source order,
/// the mandatory asset record, the optional default scene, and the declared
/// extension tags.
#[derive(Clone, Debug)]
pub struct Gltf {
    pub accessors: Vec<Accessor>,
    pub animations: Vec<Animation>,
    pub asset: Asset,
    pub buffers: Vec<Buffer>,
    pub buffer_views: Vec<BufferView>,
    pub scene: Option<usize>,
    pub extensions_used: Vec<Extension>,
    pub extensions_required: Vec<Extension>,
    pub cameras: Vec<Camera>,
    pub images: Vec<Image>,
    pub materials: Vec<Material>,
    pub meshes: Vec<Mesh>,
    pub nodes: Vec<Node>,
    pub samplers: Vec<texture::Sampler>,
    pub scenes: Vec<Scene>,
    pub skins: Vec<Skin>,
    pub textures: Vec<Texture>,
    pub extensions: Option<GltfExtensions>,
}

/// Whether a JSON value is a well-formed document root: every recognized
/// top-level field decodes, the asset record is present, and unrecognized
/// keys are ignored.
pub open spec fn gltf_ok(v: Json) -> bool {
    &&& v is Obj
    &&& {
        let ms = v->Obj_0@;
        &&& match lookup_field(ms, "accessors"@) {
            None => true,
            Some(Json::Arr(items)) => accessor_items_ok(items@),
            Some(_) => false,
        }
        &&& match lookup_field(ms, "animations"@) {
            None => true,
            Some(Json::Arr(items)) => animation_items_ok(items@),
            Some(_) => false,
        }
        &&& match lookup_field(ms, "asset"@) {
            Some(w) => asset::asset_ok(w),
            None => false,
        }
        &&& match lookup_field(ms, "buffers"@) {
            None => true,
            Some(Json::Arr(items)) => buffer_items_ok(items@),
            Some(_) => false,
        }
        &&& match lookup_field(ms, "bufferViews"@) {
            None => true,
            Some(Json::Arr(items)) => buffer_view_items_ok(items@),
            Some(_) => false,
        }
        &&& spec_field_opt_usize(ms, "scene"@) is Some
        &&& match lookup_field(ms, "extensionsUsed"@) {
            None => true,
            Some(Json::Arr(items)) => extension_items_ok(items@),
            Some(_) => false,
        }
        &&& match lookup_field(ms, "extensionsRequired"@) {
            None => true,
            Some(Json::Arr(items)) => extension_items_ok(items@),
            Some(_) => false,
        }
        &&& match lookup_field(ms, "cameras"@) {
            None => true,
            Some(Json::Arr(items)) => camera_items_ok(items@),
            Some(_) => false,
        }
        &&& match lookup_field(ms, "images"@) {
            None => true,
            Some(Json::Arr(items)) => image_items_ok(items@),
            Some(_) => false,
        }
        &&& match lookup_field(ms, "materials"@) {
            None => true,
            Some(Json::Arr(items)) => material_items_ok(items@),
            Some(_) => false,
        }
        &&& match lookup_field(ms, "meshes"@) {
            None => true,
            Some(Json::Arr(items)) => mesh_items_ok(items@),
            Some(_) => false,
        }
        &&& match lookup_field(ms, "nodes"@) {
            None => true,
            Some(Json::Arr(items)) => node_items_ok(items@),
            Some(_) => false,
        }
        &&& match lookup_field(ms, "samplers"@) {
            None => true,
            Some(Json::Arr(items)) => sampler_items_ok(items@),
            Some(_) => false,
        }
        &&& match lookup_field(ms, "scenes"@) {
            None => true,
            Some(Json::Arr(items)) => scene_items_ok(items@),
            Some(_) => false,
        }
        &&& match lookup_field(ms, "skins"@) {
            None => true,
            Some(Json::Arr(items)) => skin_items_ok(items@),
            Some(_) => false,
        }
        &&& match lookup_field(ms, "textures"@) {
            None => true,
            Some(Json::Arr(items)) => texture_items_ok(items@),
            Some(_) => false,
        }
        &&& spec_ext_flag(ms, "extensions"@) is Some
    }
}

/// How a decoded document relates to its source value: every array field is
/// the element-wise decoding of its source array, or empty when absent.
pub open spec fn gltf_decoded(v: Json, g: Gltf) -> bool {
    &&& gltf_ok(v)
    &&& {
        let ms = v->Obj_0@;
        &&& match lookup_field(ms, "accessors"@) {
            None => g.accessors@ == Seq::<Accessor>::empty(),
            Some(Json::Arr(items)) => accessor_items_decoded(items@, g.accessors@),
            Some(_) => false,
        }
        &&& match lookup_field(ms, "animations"@) {
            None => g.animations@ == Seq::<Animation>::empty(),
            Some(Json::Arr(items)) => animation_items_decoded(items@, g.animations@),
            Some(_) => false,
        }
        &&& match lookup_field(ms, "asset"@) {
            Some(w) => asset::asset_decoded(w, g.asset),
            None => false,
        }
        &&& match lookup_field(ms, "buffers"@) {
            None => g.buffers@ == Seq::<Buffer>::empty(),
            Some(Json::Arr(items)) => buffer_items_decoded(items@, g.buffers@),
            Some(_) => false,
        }
        &&& match lookup_field(ms, "bufferViews"@) {
            None => g.buffer_views@ == Seq::<BufferView>::empty(),
            Some(Json::Arr(items)) => buffer_view_items_decoded(items@, g.buffer_views@),
            Some(_) => false,
        }
        &&& Some(g.scene) == spec_field_opt_usize(ms, "scene"@)
        &&& match lookup_field(ms, "extensionsUsed"@) {
            None => g.extensions_used@ == Seq::<Extension>::empty(),
            Some(Json::Arr(items)) => extension_items_decoded(items@, g.extensions_used@),
            Some(_) => false,
        }
        &&& match lookup_field(ms, "extensionsRequired"@) {
            None => g.extensions_required@ == Seq::<Extension>::empty(),
            Some(Json::Arr(items)) => extension_items_decoded(items@, g.extensions_required@),
            Some(_) => false,
        }
        &&& match lookup_field(ms, "cameras"@) {
            None => g.cameras@ == Seq::<Camera>::empty(),
            Some(Json::Arr(items)) => camera_items_decoded(items@, g.cameras@),
            Some(_) => false,
        }
        &&& match lookup_field(ms, "images"@) {
            None => g.images@ == Seq::<Image>::empty(),
            Some(Json::Arr(items)) => image_items_decoded(items@, g.images@),
            Some(_) => false,
        }
        &&& match lookup_field(ms, "materials"@) {
            None => g.materials@ == Seq::<Material>::empty(),
            Some(Json::Arr(items)) => material_items_decoded(items@, g.materials@),
            Some(_) => false,
        }
        &&& match lookup_field(ms, "meshes"@) {
            None => g.meshes@ == Seq::<Mesh>::empty(),
            Some(Json::Arr(items)) => mesh_items_decoded(items@, g.meshes@),
            Some(_) => false,
        }
        &&& match lookup_field(ms, "nodes"@) {
            None => g.nodes@ == Seq::<Node>::empty(),
            Some(Json::Arr(items)) => node_items_decoded(items@, g.nodes@),
            Some(_) => false,
        }
        &&& match lookup_field(ms, "samplers"@) {
            None => g.samplers@ == Seq::<texture::Sampler>::empty(),
            Some(Json::Arr(items)) => sampler_items_decoded(items@, g.samplers@),
            Some(_) => false,
        }
        &&& match lookup_field(ms, "scenes"@) {
            None => g.scenes@ == Seq::<Scene>::empty(),
            Some(Json::Arr(items)) => scene_items_decoded(items@, g.scenes@),
            Some(_) => false,
        }
        &&& match lookup_field(ms, "skins"@) {
            None => g.skins@ == Seq::<Skin>::empty(),
            Some(Json::Arr(items)) => skin_items_decoded(items@, g.skins@),
            Some(_) => false,
        }
        &&& match lookup_field(ms, "textures"@) {
            None => g.textures@ == Seq::<Texture>::empty(),
            Some(Json::Arr(items)) => texture_items_decoded(items@, g.textures@),
            Some(_) => false,
        }
        &&& g.extensions == (if spec_ext_flag(ms, "extensions"@)->Some_0 {
            Some(GltfExtensions {  })
        } else {
            None
        })
    }
}

/// Whether a text decodes to a document: it parses as JSON and the tree is a
/// well-formed document root.
pub open spec fn gltf_text_ok(text: Seq<char>) -> bool {
    json_doc(text) matches Some(v) && gltf_ok(v)
}

/// Whether a byte buffer decodes to a document.
pub open spec fn gltf_bytes_ok(bytes: Seq<u8>) -> bool {
    json_doc_bytes(bytes) matches Some(v) && gltf_ok(v)
}

impl Gltf {
    /// Assembles a document from a parsed JSON tree: every top-level field is
    /// decoded, the first failure aborts the whole operation, and absent
    /// arrays default to empty.
    #[verifier::rlimit(100)]
    pub fn from_json(v: &Json) -> (r: Result<Gltf, SchemaError>)
        ensures
            r is Ok <==> gltf_ok(*v),
            r matches Ok(g) ==> gltf_decoded(*v, g),
    {
        let ms = match v {
            Json::Obj(ms) => ms,
            _ => {
                return Err(bad_value("the document root must be an object"));
            },
        };
        let accessors = match get_field(ms, "accessors") {
            None => Vec::new(),
            Some(j) => match j {
                Json::Arr(items) => accessors_from_json(items)?,
                _ => {
                    return Err(bad_field("accessors"));
                },
            },
        };
        let animations = match get_field(ms, "animations") {
            None => Vec::new(),
            Some(j) => match j {
                Json::Arr(items) => animations_from_json(items)?,
                _ => {
                    return Err(bad_field("animations"));
                },
            },
        };
        let asset = match get_field(ms, "asset") {
            Some(w) => Asset::from_json(w)?,
            None => {
                return Err(missing_field("asset"));
            },
        };
        let buffers = match get_field(ms, "buffers") {
            None => Vec::new(),
            Some(j) => match j {
                Json::Arr(items) => buffers_from_json(items)?,
                _ => {
                    return Err(bad_field("buffers"));
                },
            },
        };
        let buffer_views = match get_field(ms, "bufferViews") {
            None => Vec::new(),
            Some(j) => match j {
                Json::Arr(items) => buffer_views_from_json(items)?,
                _ => {
                    return Err(bad_field("bufferViews"));
                },
            },
        };
        let scene = field_opt_usize(ms, "scene")?;
        let extensions_used = match get_field(ms, "extensionsUsed") {
            None => Vec::new(),
            Some(j) => match j {
                Json::Arr(items) => extensions_from_json(items, "extensionsUsed")?,
                _ => {
                    return Err(bad_field("extensionsUsed"));
                },
            },
        };
        let extensions_required = match get_field(ms, "extensionsRequired") {
            None => Vec::new(),
            Some(j) => match j {
                Json::Arr(items) => extensions_from_json(items, "extensionsRequired")?,
                _ => {
                    return Err(bad_field("extensionsRequired"));
                },
            },
        };
        let cameras = match get_field(ms, "cameras") {
            None => Vec::new(),
            Some(j) => match j {
                Json::Arr(items) => cameras_from_json(items)?,
                _ => {
                    return Err(bad_field("cameras"));
                },
            },
        };
        let images = match get_field(ms, "images") {
            None => Vec::new(),
            Some(j) => match j {
                Json::Arr(items) => images_from_json(items)?,
                _ => {
                    return Err(bad_field("images"));
                },
            },
        };
        let materials = match get_field(ms, "materials") {
            None => Vec::new(),
            Some(j) => match j {
                Json::Arr(items) => materials_from_json(items)?,
                _ => {
                    return Err(bad_field("materials"));
                },
            },
        };
        let meshes = match get_field(ms, "meshes") {
            None => Vec::new(),
            Some(j) => match j {
                Json::Arr(items) => meshes_from_json(items)?,
                _ => {
                    return Err(bad_field("meshes"));
                },
            },
        };
        let nodes = match get_field(ms, "nodes") {
            None => Vec::new(),
            Some(j) => match j {
                Json::Arr(items) => nodes_from_json(items)?,
                _ => {
                    return Err(bad_field("nodes"));
                },
            },
        };
        let samplers = match get_field(ms, "samplers") {
            None => Vec::new(),
            Some(j) => match j {
                Json::Arr(items) => samplers_from_json(items)?,
                _ => {
                    return Err(bad_field("samplers"));
                },
            },
        };
        let scenes = match get_field(ms, "scenes") {
            None => Vec::new(),
            Some(j) => match j {
                Json::Arr(items) => scenes_from_json(items)?,
                _ => {
                    return Err(bad_field("scenes"));
                },
            },
        };
        let skins = match get_field(ms, "skins") {
            None => Vec::new(),
            Some(j) => match j {
                Json::Arr(items) => skins_from_json(items)?,
                _ => {
                    return Err(bad_field("skins"));
                },
            },
        };
        let textures = match get_field(ms, "textures") {
            None => Vec::new(),
            Some(j) => match j {
                Json::Arr(items) => textures_from_json(items)?,
                _ => {
                    return Err(bad_field("textures"));
                },
            },
        };
        let extensions = if ext_flag(ms, "extensions")? {
            Some(GltfExtensions {  })
        } else {
            None
        };
        Ok(
            Gltf {
                accessors,
                animations,
                asset,
                buffers,
                buffer_views,
                scene,
                extensions_used,
                extensions_required,
                cameras,
                images,
                materials,
                meshes,
                nodes,
                samplers,
                scenes,
                skins,
                textures,
                extensions,
            },
        )
    }

    /// Decodes a document from a JSON text. It succeeds exactly when the text
    /// parses and fits the schema; any failure surfaces as a single
    /// `JsonParseError`.
    pub fn from_gltf_str(json: &str) -> (r: Result<Gltf, GltfError>)
        ensures
            r is Ok <==> gltf_text_ok(json@),
            r matches Ok(g) ==> gltf_decoded(json_doc(json@)->Some_0, g),
            r matches Err(e) ==> e is JsonParseError,
    {
        let v = match parse_json_text(json) {
            Ok(v) => v,
            Err(e) => {
                return Err(GltfError::JsonParseError(e));
            },
        };
        match Gltf::from_json(&v) {
            Ok(g) => Ok(g),
            Err(se) => Err(GltfError::JsonParseError(json_error_custom(se.message))),
        }
    }

    /// Decodes a document from a UTF-8 JSON byte buffer.
    pub fn from_gltf_bytes(json_bytes: &[u8]) -> (r: Result<Gltf, GltfError>)
        ensures
            r is Ok <==> gltf_bytes_ok(json_bytes@),
            r matches Ok(g) ==> gltf_decoded(json_doc_bytes(json_bytes@)->Some_0, g),
            r matches Err(e) ==> e is JsonParseError,
    {
        let v = match parse_json_bytes(json_bytes) {
            Ok(v) => v,
            Err(e) => {
                return Err(GltfError::JsonParseError(e));
            },
        };
        match Gltf::from_json(&v) {
            Ok(g) => Ok(g),
            Err(se) => Err(GltfError::JsonParseError(json_error_custom(se.message))),
        }
    }
}

impl Default for Gltf {
    /// The empty document: no entities, the default asset record, no default
    /// scene and no extension tags.
    fn default() -> (r: Gltf)
        ensures
            r.accessors@ == Seq::<Accessor>::empty(),
            r.animations@ == Seq::<Animation>::empty(),
            r.asset.version@ == "2.0"@,
            r.buffers@ == Seq::<Buffer>::empty(),
            r.buffer_views@ == Seq::<BufferView>::empty(),
            r.scene is None,
            r.extensions_used@ == Seq::<Extension>::empty(),
            r.extensions_required@ == Seq::<Extension>::empty(),
            r.cameras@ == Seq::<Camera>::empty(),
            r.images@ == Seq::<Image>::empty(),
            r.materials@ == Seq::<Material>::empty(),
            r.meshes@ == Seq::<Mesh>::empty(),
            r.nodes@ == Seq::<Node>::empty(),
            r.samplers@ == Seq::<texture::Sampler>::empty(),
            r.scenes@ == Seq::<Scene>::empty(),
            r.skins@ == Seq::<Skin>::empty(),
            r.textures@ == Seq::<Texture>::empty(),
            r.extensions is None,
    {
        Gltf {
            accessors: Vec::new(),
            animations: Vec::new(),
            asset: Asset::default(),
            buffers: Vec::new(),
            buffer_views: Vec::new(),
            scene: None,
            extensions_used: Vec::new(),
            extensions_required: Vec::new(),
            cameras: Vec::new(),
            images: Vec::new(),
            materials: Vec::new(),
            meshes: Vec::new(),
            nodes: Vec::new(),
            samplers: Vec::new(),
            scenes: Vec::new(),
            skins: Vec::new(),
            textures: Vec::new(),
            extensions: None,
        }
    }
}

// ---------------------------------------------------------------------------
// Path extension checking
// ---------------------------------------------------------------------------

/// A path with its trailing separators removed.
pub open spec fn trim_trailing_slashes(s: Seq<char>) -> Seq<char>
    decreases s.len(),
{
    if s.len() > 0 && s[s.len() - 1] == '/' {
        trim_trailing_slashes(s.drop_last())
    } else {
        s
    }
}

/// The position of the rightmost separator in `s`, or -1 if there is none.
pub open spec fn rfind_slash(s: Seq<char>) -> int
    decreases s.len(),
{
    if s.len() == 0 {
        -1
    } else if s[s.len() - 1] == '/' {
        s.len() - 1
    } else {
        rfind_slash(s.drop_last())
    }
}

/// The file-name component of a path: what follows the last separator, after
/// trailing separators are dropped.
pub open spec fn spec_file_name(path: Seq<char>) -> Seq<char> {
    let t = trim_trailing_slashes(path);
    t.skip(rfind_slash(t) + 1)
}

/// Whether a path names a file whose extension is exactly `gltf`: the file
/// name ends in `.gltf` and has a non-empty stem before the dot.
pub open spec fn spec_path_is_gltf(path: Seq<char>) -> bool {
    let nm = spec_file_name(path);
    nm.len() > 5 && nm.skip(nm.len() - 5) == ".gltf"@
}

proof fn lemma_rfind_slash_hit(s: Seq<char>, i: int)
    requires
        0 <= i < s.len(),
        s[i] == '/',
        forall|k: int| i < k < s.len() ==> s[k] != '/',
    ensures
        rfind_slash(s) == i,
    decreases s.len(),
{
    if i < s.len() - 1 {
        assert(s.drop_last()[i] == s[i]);
        lemma_rfind_slash_hit(s.drop_last(), i);
    }
}

proof fn lemma_rfind_slash_none(s: Seq<char>)
    requires
        forall|k: int| 0 <= k < s.len() ==> s[k] != '/',
    ensures
        rfind_slash(s) == -1,
    decreases s.len(),
{
    if s.len() > 0 {
        lemma_rfind_slash_none(s.drop_last());
    }
}

/// Decides whether a path's extension is exactly `gltf`, without touching the
/// filesystem.
#[verifier::loop_isolation(false)]
pub fn path_is_gltf(path: &str) -> (r: bool)
    ensures
        r == spec_path_is_gltf(path@),
{
    let n = path.unicode_len();
    // drop trailing separators
    let mut e: usize = n;
    proof {
        assert(path@.take(n as int) =~= path@);
    }
    while e > 0 && path.get_char(e - 1) == '/'
        invariant
            e <= n,
            trim_trailing_slashes(path@) == trim_trailing_slashes(path@.take(e as int)),
        decreases e,
    {
        proof {
            assert(path@.take(e as int).drop_last() =~= path@.take(e as int - 1));
        }
        e = e - 1;
    }
    proof {
        assert(path@.take(e as int).len() == e);
        if e > 0 {
            assert(path@.take(e as int)[e - 1] == path@[e as int - 1]);
        }
        assert(trim_trailing_slashes(path@) == path@.take(e as int));
    }
    // find the last separator before `e`
    let mut j: usize = e;
    let mut scanning: bool = true;
    while scanning && j > 0
        invariant
            j <= e <= n,
            forall|k: int| j <= k < e ==> path@[k] != '/',
            !scanning ==> j > 0 && path@[j - 1] == '/',
        decreases j + (if scanning { 1int } else { 0int }),
    {
        if path.get_char(j - 1) == '/' {
            scanning = false;
        } else {
            j = j - 1;
        }
    }
    proof {
        let t = path@.take(e as int);
        if scanning {
            assert(forall|k: int| 0 <= k < t.len() ==> t[k] != '/');
            lemma_rfind_slash_none(t);
        } else {
            assert(t[j - 1] == path@[j as int - 1]);
            lemma_rfind_slash_hit(t, j - 1);
        }
        assert(spec_file_name(path@) =~= path@.subrange(j as int, e as int));
    }
    // the file name is path[j..e]; its extension is `gltf` when it ends in
    // ".gltf" with a non-empty stem
    if e - j > 5 {
        let suffix = path.substring_char(e - 5, e);
        proof {
            let nm = spec_file_name(path@);
            assert(nm.skip(nm.len() - 5) =~= path@.subrange(e as int - 5, e as int));
        }
        str_eq(suffix, ".gltf")
    } else {
        false
    }
}

} // verus!

